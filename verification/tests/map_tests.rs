use dukenukemrust::map::{lower_wall_picnum, masked_wall_picnum, wall_piece_hidden, BuildMap, MapError, Sector, Wall};

#[test]
fn test_wall_flags() {
    let solid_wall = Wall {
        x: 0,
        y: 0,
        point2: 1,
        nextwall: -1,
        nextsector: -1,
        cstat: 1,
        picnum: 100,
        overpicnum: 0,
        shade: 0,
        pal: 0,
        xrepeat: 8,
        yrepeat: 8,
        xpanning: 0,
        ypanning: 0,
        lotag: 0,
        hitag: 0,
        extra: 0,
    };
    assert!(!solid_wall.is_portal());
    assert!(solid_wall.is_blocking());

    let portal_wall = Wall {
        x: 0,
        y: 0,
        point2: 1,
        nextwall: 5,
        nextsector: 2,
        cstat: 16 | 4,
        picnum: 100,
        overpicnum: 200,
        shade: 0,
        pal: 0,
        xrepeat: 8,
        yrepeat: 8,
        xpanning: 0,
        ypanning: 0,
        lotag: 0,
        hitag: 0,
        extra: 0,
    };
    assert!(portal_wall.is_portal());
    assert!(portal_wall.is_masked());
    assert!(portal_wall.align_bottom());
}

#[test]
fn wall_and_sector_flag_bits() {
    let mut w = Wall {
        x: 0, y: 0, point2: 0, nextwall: -1, nextsector: -1, cstat: 2 | 8 | 32 | 128 | 256,
        picnum: 0, overpicnum: 0, shade: 0, pal: 0, xrepeat: 8, yrepeat: 8, xpanning: 0,
        ypanning: 0, lotag: 0, hitag: 0, extra: 0,
    };
    assert!(w.bottoms_swapped());
    assert!(w.is_x_flipped());
    assert!(w.is_one_way());
    assert!(w.is_translucent());
    assert!(w.is_y_flipped());
    assert!(!w.is_blocking() && !w.is_masked() && !w.align_bottom());
    // a wall with a next sector but no next wall is no portal
    w.nextsector = 3;
    assert!(!w.is_portal());

    let s = Sector {
        wallptr: 0, wallnum: 4, ceilingz: -1024, floorz: 0, ceilingstat: 1 | 2, floorstat: 2,
        ceilingpicnum: 0, ceilingheinum: 0, ceilingshade: 0, ceilingpal: 0, ceilingxpanning: 0,
        ceilingypanning: 0, floorpicnum: 0, floorheinum: 0, floorshade: 0, floorpal: 0,
        floorxpanning: 0, floorypanning: 0, visibility: 0, _filler: 0, lotag: 0, hitag: 0, extra: 0,
    };
    assert!(s.is_ceiling_parallax() && s.is_ceiling_sloped());
    assert!(!s.is_floor_parallax() && s.is_floor_sloped());
}

/// A version-7 map with one sector, one wall and one sprite.
fn tiny_map() -> Vec<u8> {
    let mut d = Vec::new();
    d.extend_from_slice(&7i32.to_le_bytes());
    d.extend_from_slice(&100i32.to_le_bytes());
    d.extend_from_slice(&(-200i32).to_le_bytes());
    d.extend_from_slice(&300i32.to_le_bytes());
    d.extend_from_slice(&512i16.to_le_bytes());
    d.extend_from_slice(&0i16.to_le_bytes());
    d.extend_from_slice(&1i16.to_le_bytes()); // sectors
    let mut sector = vec![0u8; 40];
    sector[2] = 1; // wallnum
    sector[8..12].copy_from_slice(&8192i32.to_le_bytes()); // floorz
    sector[34] = 7; // lotag
    d.extend_from_slice(&sector);
    d.extend_from_slice(&1i16.to_le_bytes()); // walls
    let mut wall = vec![0u8; 32];
    wall[0..4].copy_from_slice(&(-64i32).to_le_bytes());
    wall[10..12].copy_from_slice(&(-1i16).to_le_bytes());
    wall[12..14].copy_from_slice(&(-1i16).to_le_bytes());
    wall[14] = 1; // cstat
    wall[20] = 0xfe; // shade -2
    d.extend_from_slice(&wall);
    d.extend_from_slice(&1i16.to_le_bytes()); // sprites
    let mut sprite = vec![0u8; 44];
    sprite[14..16].copy_from_slice(&1405i16.to_le_bytes()); // picnum
    d.extend_from_slice(&sprite);
    d
}

#[test]
fn map_parses_header_and_records() {
    let m = BuildMap::from_bytes(&tiny_map()).unwrap();
    assert_eq!(m.version, 7);
    assert_eq!((m.posx, m.posy, m.posz), (100, -200, 300));
    assert_eq!(m.ang, 512);
    assert_eq!(m.cursectnum, 0);
    assert_eq!(m.sectors.len(), 1);
    assert_eq!(m.sectors[0].wallnum, 1);
    assert_eq!(m.sectors[0].floorz, 8192);
    assert_eq!(m.sectors[0].lotag, 7);
    assert_eq!(m.walls.len(), 1);
    assert_eq!(m.walls[0].x, -64);
    assert_eq!(m.walls[0].shade, -2);
    assert!(m.walls[0].is_blocking() && !m.walls[0].is_portal());
    assert_eq!(m.sprites.len(), 1);
    assert_eq!(m.sprites[0].picnum, 1405);
}

#[test]
fn map_errors() {
    assert_eq!(BuildMap::from_bytes(&[0u8; 21]).unwrap_err(), MapError::UnexpectedEof);
    let mut d = tiny_map();
    d[20..22].copy_from_slice(&(-1i16).to_le_bytes());
    assert_eq!(BuildMap::from_bytes(&d).unwrap_err(), MapError::InvalidSectorCount(-1));
    let mut d = tiny_map();
    d[62..64].copy_from_slice(&16385i16.to_le_bytes());
    assert_eq!(BuildMap::from_bytes(&d).unwrap_err(), MapError::InvalidWallCount(16385));
    let mut d = tiny_map();
    d[96..98].copy_from_slice(&(-5i16).to_le_bytes());
    assert_eq!(BuildMap::from_bytes(&d).unwrap_err(), MapError::InvalidSpriteCount(-5));
    let mut d = tiny_map();
    d.pop();
    assert_eq!(BuildMap::from_bytes(&d).unwrap_err(), MapError::UnexpectedEof);
}

fn plain_wall(picnum: i16, nextwall: i16, cstat: i16, overpicnum: i16, yrepeat: u8) -> Wall {
    Wall {
        x: 0, y: 0, point2: 1, nextwall, nextsector: if nextwall >= 0 { 0 } else { -1 }, cstat, picnum, overpicnum,
        shade: 0, pal: 0, xrepeat: 8, yrepeat, xpanning: 0, ypanning: 0, lotag: 0, hitag: 0, extra: 0,
    }
}

#[test]
fn wall_piece_tiles_and_visibility() {
    let walls = vec![plain_wall(100, 1, 0, 0, 8), plain_wall(200, 0, 0, 0, 8)];
    assert_eq!(lower_wall_picnum(&walls[0], &walls), 200);
    assert_eq!(lower_wall_picnum(&plain_wall(100, 1, 2, 0, 8), &walls), 100);
    assert_eq!(lower_wall_picnum(&plain_wall(100, 5, 0, 0, 8), &walls), 100);
    assert_eq!(lower_wall_picnum(&plain_wall(100, -1, 0, 0, 8), &walls), 100);
    assert_eq!(masked_wall_picnum(&plain_wall(100, 1, 16, 300, 8)), 300);
    assert_eq!(masked_wall_picnum(&plain_wall(100, 1, 16, 0, 8)), 100);
    assert!(wall_piece_hidden(&plain_wall(100, 1, 0, 0, 0), 100));
    assert!(wall_piece_hidden(&plain_wall(100, 1, 0, 0, 8), 89));
    assert!(!wall_piece_hidden(&plain_wall(100, 1, 0, 0, 8), 100));
}
