use dukenukemrust::animation::{update_engine_clock, AnimatedTileMaterial, EngineClock};
use dukenukemrust::art::{is_tile_file, Art, ArtError, PicAnm};
use dukenukemrust::palette::Palette;
use std::collections::HashMap;

#[test]
fn test_picanm_bitfield() {
    // num = 3 (frames 0, 1, 2, 3)
    // type = 2 (forward loop -> 128 -> bits 6..7 = 2)
    // xoffset = 5
    // yoffset = -10
    // speed = 2
    let raw = 3 | (2 << 6) | (5 << 8) | (((-10i8 as u8) as u32) << 16) | (2 << 24);
    let anm = PicAnm::from_u32(raw);

    assert_eq!(anm.num_frames, 3);
    assert_eq!(anm.anim_type, 2);
    assert_eq!(anm.x_offset, 5);
    assert_eq!(anm.y_offset, -10);
    assert_eq!(anm.speed, 2);

    // At speed 2 (shifts clock by 2, so frame advances every 4 ticks)
    assert_eq!(anm.get_frame_offset(0), 0);
    assert_eq!(anm.get_frame_offset(4), 1);
    assert_eq!(anm.get_frame_offset(8), 2);
    assert_eq!(anm.get_frame_offset(12), 3);
    assert_eq!(anm.get_frame_offset(16), 0); // Loops back to 0
}

#[test]
fn test_picanm_oscillation() {
    // Oscillation (type = 1), num = 2 (sequence: 0, 1, 2, 1, 0, 1, 2, ...)
    let raw = 2 | (1 << 6) | (0 << 24); // speed = 0 (1 tick per frame)
    let anm = PicAnm::from_u32(raw);

    assert_eq!(anm.get_frame_offset(0), 0);
    assert_eq!(anm.get_frame_offset(1), 1);
    assert_eq!(anm.get_frame_offset(2), 2);
    assert_eq!(anm.get_frame_offset(3), 1);
    assert_eq!(anm.get_frame_offset(4), 0);
}

#[test]
fn picanm_backward_animation_counts_down() {
    // type 3 (backward), 3 frames beyond the first, speed 0
    let anm = PicAnm::from_u32(3 | (3 << 6));
    assert_eq!(anm.get_frame_offset(0), 0);
    assert_eq!(anm.get_frame_offset(1), -1);
    assert_eq!(anm.get_frame_offset(3), -3);
    assert_eq!(anm.get_frame_offset(4), 0);
}

#[test]
fn picanm_static_tile_never_moves() {
    let anm = PicAnm::from_u32(0);
    assert_eq!(anm.get_frame_offset(12345), 0);
    let no_type = PicAnm::from_u32(5);
    assert_eq!(no_type.num_frames, 5);
    assert_eq!(no_type.get_frame_offset(7), 0);
}

/// One ART file holding tiles 10..=11: tile 10 is 2x1, tile 11 is empty.
/// Each tile's header (width, height, animation word) comes in turn, then
/// the pixels of every tile.
fn small_art() -> Vec<u8> {
    let mut d = Vec::new();
    d.extend_from_slice(&1u32.to_le_bytes()); // version
    d.extend_from_slice(&0u32.to_le_bytes()); // numtiles (unused)
    d.extend_from_slice(&10u32.to_le_bytes()); // localtilestart
    d.extend_from_slice(&11u32.to_le_bytes()); // localtileend
    d.extend_from_slice(&2u16.to_le_bytes()); // tile 10: width, height, picanm
    d.extend_from_slice(&1u16.to_le_bytes());
    d.extend_from_slice(&(2u32 | (1 << 6)).to_le_bytes());
    d.extend_from_slice(&0u16.to_le_bytes()); // tile 11
    d.extend_from_slice(&0u16.to_le_bytes());
    d.extend_from_slice(&0u32.to_le_bytes());
    d.extend_from_slice(&[3, 7]); // column-major pixels of tile 10
    d
}

#[test]
fn art_parses_tiles_and_picanm() {
    let art = Art::from_bytes(&small_art()).unwrap();
    assert_eq!(art.local_tile_start, 10);
    assert_eq!(art.local_tile_end, 11);
    assert_eq!(art.tiles.len(), 2);
    let t = art.tiles[0].as_ref().unwrap();
    assert_eq!((t.width, t.height), (2, 1));
    assert_eq!(t.data, vec![3, 7]);
    let empty = art.tiles[1].as_ref().unwrap();
    assert_eq!((empty.width, empty.height), (0, 0));
    assert_eq!(art.get_picanm(10).unwrap().num_frames, 2);
    assert_eq!(art.get_picanm(10).unwrap().anim_type, 1);
    assert_eq!(art.get_picanm(11).unwrap().num_frames, 0);
    assert!(art.get_picanm(9).is_none());
    assert!(art.get_picanm(12).is_none());
}

#[test]
fn art_errors() {
    assert_eq!(Art::from_bytes(&[0u8; 15]).unwrap_err(), ArtError::TooShort);
    let mut d = small_art();
    d.pop();
    assert_eq!(Art::from_bytes(&d).unwrap_err(), ArtError::Truncated);
}

#[test]
fn art_tile_rgba_uses_palette_and_row_major_order() {
    let art = Art::from_bytes(&small_art()).unwrap();
    let mut pal = [[0u8; 4]; 256];
    pal[3] = [1, 2, 3, 255];
    pal[7] = [9, 8, 7, 255];
    let (w, h, rgba) = art.get_tile_rgba(10, &pal).unwrap();
    assert_eq!((w, h), (2, 1));
    assert_eq!(rgba, vec![1, 2, 3, 255, 9, 8, 7, 255]);
    assert_eq!(art.get_tile_rgba(11, &pal).unwrap(), (0, 0, vec![]));
    assert!(art.get_tile_rgba(99, &pal).is_none());
}

#[test]
fn art_tile_rgba_with_palette_swap() {
    let art = Art::from_bytes(&small_art()).unwrap();
    let mut colors = [[0u8; 4]; 256];
    colors[3] = [1, 2, 3, 255];
    colors[7] = [9, 8, 7, 255];
    let mut lookups = HashMap::new();
    let mut swap = [0u8; 256];
    for i in 0..256 {
        swap[i] = i as u8;
    }
    swap[3] = 7;
    lookups.insert(2u8, swap);
    let pal = Palette {
        colors,
        num_shades: 32,
        shade_tables: Vec::new(),
        lookups,
        water_palette: None,
        slime_palette: None,
        title_palette: None,
    };
    let (_, _, rgba) = art.get_tile_rgba_with_pal(10, &pal, 2).unwrap();
    assert_eq!(rgba, vec![9, 8, 7, 255, 9, 8, 7, 255]);
    let (_, _, plain) = art.get_tile_rgba_with_pal(10, &pal, 0).unwrap();
    assert_eq!(plain, vec![1, 2, 3, 255, 9, 8, 7, 255]);
}

#[test]
fn animated_tiles_follow_the_clock() {
    use_clock();
}

fn use_clock() {
    let mut clock = EngineClock::default();
    update_engine_clock(&mut clock, 3);
    assert_eq!(clock.total_clock_120hz, 3);
    clock.total_clock_120hz = u32::MAX;
    update_engine_clock(&mut clock, 2);
    assert_eq!(clock.total_clock_120hz, 1);

    let picanm = PicAnm { num_frames: 3, anim_type: 2, x_offset: 0, y_offset: 0, speed: 1 };
    let mut anim = AnimatedTileMaterial { base_picnum: 100, picanm, current_offset: 0 };
    assert_eq!(anim.update(0), None);
    assert_eq!(anim.update(2), Some(101));
    assert_eq!(anim.current_offset, 1);
    assert_eq!(anim.update(3), None);
    assert_eq!(anim.update(6), Some(103));
    assert_eq!(anim.update(8), Some(100));
}

#[test]
fn tile_files_are_recognised() {
    assert!(is_tile_file("TILES000.ART"));
    assert!(is_tile_file("tiles012.art"));
    assert!(!is_tile_file("PALETTE.DAT"));
    assert!(!is_tile_file("MYTILES.ART"));
    assert!(!is_tile_file("TILES000.ARTX"));
}

#[test]
fn picanm_frame_offset_repeats_after_one_period() {
    // ping-pong over 3 frames at speed 1: period 2 * 3 steps of 2 ticks
    let ping = PicAnm::from_u32(3 | (1 << 6) | (1 << 24));
    // forward over 4 frames at speed 2: period 5 steps of 4 ticks
    let fwd = PicAnm::from_u32(4 | (2 << 6) | (2 << 24));
    // backward over 2 frames at speed 0: period 3 steps of 1 tick
    let back = PicAnm::from_u32(2 | (3 << 6));
    for c in 0..50u32 {
        assert_eq!(ping.get_frame_offset(c + 12), ping.get_frame_offset(c));
        assert_eq!(fwd.get_frame_offset(c + 20), fwd.get_frame_offset(c));
        assert_eq!(back.get_frame_offset(c + 3), back.get_frame_offset(c));
    }
}
