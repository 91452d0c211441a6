//! Build engine MAP files (version 7): sectors, walls and sprites.
use vstd::prelude::*;
use crate::reader::{le_i16, le_i32, signed8, get_i16, get_i32, get_i8};

verus! {

#[derive(Debug, Clone, Copy)]
pub struct Sector {
    pub wallptr: i16,
    pub wallnum: i16,
    pub ceilingz: i32,
    pub floorz: i32,
    pub ceilingstat: i16,
    pub floorstat: i16,
    pub ceilingpicnum: i16,
    pub ceilingheinum: i16,
    pub ceilingshade: i8,
    pub ceilingpal: u8,
    pub ceilingxpanning: u8,
    pub ceilingypanning: u8,
    pub floorpicnum: i16,
    pub floorheinum: i16,
    pub floorshade: i8,
    pub floorpal: u8,
    pub floorxpanning: u8,
    pub floorypanning: u8,
    pub visibility: u8,
    pub _filler: u8,
    pub lotag: i16,
    pub hitag: i16,
    pub extra: i16,
}

#[derive(Debug, Clone, Copy)]
pub struct Wall {
    pub x: i32,
    pub y: i32,
    pub point2: i16,
    pub nextwall: i16,
    pub nextsector: i16,
    pub cstat: i16,
    pub picnum: i16,
    pub overpicnum: i16,
    pub shade: i8,
    pub pal: u8,
    pub xrepeat: u8,
    pub yrepeat: u8,
    pub xpanning: u8,
    pub ypanning: u8,
    pub lotag: i16,
    pub hitag: i16,
    pub extra: i16,
}

#[derive(Debug, Clone, Copy)]
pub struct Sprite {
    pub x: i32,
    pub y: i32,
    pub z: i32,
    pub cstat: i16,
    pub picnum: i16,
    pub shade: i8,
    pub pal: u8,
    pub clipdist: u8,
    pub _filler: u8,
    pub xrepeat: u8,
    pub yrepeat: u8,
    pub xoffset: i8,
    pub yoffset: i8,
    pub sectnum: i16,
    pub statnum: i16,
    pub ang: i16,
    pub owner: i16,
    pub xvel: i16,
    pub yvel: i16,
    pub zvel: i16,
    pub lotag: i16,
    pub hitag: i16,
    pub extra: i16,
}

#[derive(Debug)]
pub struct BuildMap {
    pub version: i32,
    pub posx: i32,
    pub posy: i32,
    pub posz: i32,
    pub ang: i16,
    pub cursectnum: i16,
    pub sectors: Vec<Sector>,
    pub walls: Vec<Wall>,
    pub sprites: Vec<Sprite>,
}

/// The errors of MAP decoding.
#[derive(Debug, Clone, Copy, PartialEq, Eq)]
pub enum MapError {
    /// The data ends inside a field.
    UnexpectedEof,
    InvalidSectorCount(i16),
    InvalidWallCount(i16),
    InvalidSpriteCount(i16),
}

/// The sector record at byte `p`.
pub open spec fn sector_at(d: Seq<u8>, p: int) -> Sector {
    Sector {
        wallptr: le_i16(d, p),
        wallnum: le_i16(d, p + 2),
        ceilingz: le_i32(d, p + 4),
        floorz: le_i32(d, p + 8),
        ceilingstat: le_i16(d, p + 12),
        floorstat: le_i16(d, p + 14),
        ceilingpicnum: le_i16(d, p + 16),
        ceilingheinum: le_i16(d, p + 18),
        ceilingshade: signed8(d[p + 20]),
        ceilingpal: d[p + 21],
        ceilingxpanning: d[p + 22],
        ceilingypanning: d[p + 23],
        floorpicnum: le_i16(d, p + 24),
        floorheinum: le_i16(d, p + 26),
        floorshade: signed8(d[p + 28]),
        floorpal: d[p + 29],
        floorxpanning: d[p + 30],
        floorypanning: d[p + 31],
        visibility: d[p + 32],
        _filler: d[p + 33],
        lotag: le_i16(d, p + 34),
        hitag: le_i16(d, p + 36),
        extra: le_i16(d, p + 38),
    }
}

/// The wall record at byte `p`.
pub open spec fn wall_at(d: Seq<u8>, p: int) -> Wall {
    Wall {
        x: le_i32(d, p),
        y: le_i32(d, p + 4),
        point2: le_i16(d, p + 8),
        nextwall: le_i16(d, p + 10),
        nextsector: le_i16(d, p + 12),
        cstat: le_i16(d, p + 14),
        picnum: le_i16(d, p + 16),
        overpicnum: le_i16(d, p + 18),
        shade: signed8(d[p + 20]),
        pal: d[p + 21],
        xrepeat: d[p + 22],
        yrepeat: d[p + 23],
        xpanning: d[p + 24],
        ypanning: d[p + 25],
        lotag: le_i16(d, p + 26),
        hitag: le_i16(d, p + 28),
        extra: le_i16(d, p + 30),
    }
}

/// The sprite record at byte `p`.
pub open spec fn sprite_at(d: Seq<u8>, p: int) -> Sprite {
    Sprite {
        x: le_i32(d, p),
        y: le_i32(d, p + 4),
        z: le_i32(d, p + 8),
        cstat: le_i16(d, p + 12),
        picnum: le_i16(d, p + 14),
        shade: signed8(d[p + 16]),
        pal: d[p + 17],
        clipdist: d[p + 18],
        _filler: d[p + 19],
        xrepeat: d[p + 20],
        yrepeat: d[p + 21],
        xoffset: signed8(d[p + 22]),
        yoffset: signed8(d[p + 23]),
        sectnum: le_i16(d, p + 24),
        statnum: le_i16(d, p + 26),
        ang: le_i16(d, p + 28),
        owner: le_i16(d, p + 30),
        xvel: le_i16(d, p + 32),
        yvel: le_i16(d, p + 34),
        zvel: le_i16(d, p + 36),
        lotag: le_i16(d, p + 38),
        hitag: le_i16(d, p + 40),
        extra: le_i16(d, p + 42),
    }
}

/// The two little-endian bytes of a 16-bit value in two's complement.
pub open spec fn i16_le_bytes(v: i16) -> Seq<u8> {
    let u: int = if v >= 0 { v as int } else { v + 65536 };
    seq![(u % 256) as u8, (u / 256) as u8]
}

/// The four little-endian bytes of a 32-bit value in two's complement.
pub open spec fn i32_le_bytes(v: i32) -> Seq<u8> {
    let u: int = if v >= 0 { v as int } else { v + 0x1_0000_0000 };
    seq![(u % 256) as u8, ((u / 256) % 256) as u8, ((u / 65536) % 256) as u8, (u / 16777216) as u8]
}

/// The byte of an 8-bit value in two's complement.
pub open spec fn i8_byte(v: i8) -> u8 {
    (if v >= 0 { v as int } else { v + 256 }) as u8
}

/// The first 12 bytes of a stored sector: its walls and its heights.
pub open spec fn sector_head_bytes(s: Sector) -> Seq<u8> {
    i16_le_bytes(s.wallptr) + i16_le_bytes(s.wallnum) + i32_le_bytes(s.ceilingz) + i32_le_bytes(s.floorz)
}

/// The next 22 bytes of a stored sector: how its ceiling and floor look.
pub open spec fn sector_look_bytes(s: Sector) -> Seq<u8> {
    i16_le_bytes(s.ceilingstat) + i16_le_bytes(s.floorstat) + i16_le_bytes(s.ceilingpicnum)
        + i16_le_bytes(s.ceilingheinum)
        + seq![i8_byte(s.ceilingshade), s.ceilingpal, s.ceilingxpanning, s.ceilingypanning]
        + i16_le_bytes(s.floorpicnum) + i16_le_bytes(s.floorheinum)
        + seq![i8_byte(s.floorshade), s.floorpal, s.floorxpanning, s.floorypanning, s.visibility, s._filler]
}

/// The last 6 bytes of a stored sector: its tags.
pub open spec fn sector_tag_bytes(s: Sector) -> Seq<u8> {
    i16_le_bytes(s.lotag) + i16_le_bytes(s.hitag) + i16_le_bytes(s.extra)
}

/// The 40 bytes a sector is stored as in a MAP file, field by field.
pub open spec fn sector_bytes(s: Sector) -> Seq<u8> {
    sector_head_bytes(s) + sector_look_bytes(s) + sector_tag_bytes(s)
}

/// The first 8 bytes of a stored wall: its point.
pub open spec fn wall_point_bytes(w: Wall) -> Seq<u8> {
    i32_le_bytes(w.x) + i32_le_bytes(w.y)
}

/// The next 18 bytes of a stored wall: its links and its look.
pub open spec fn wall_look_bytes(w: Wall) -> Seq<u8> {
    i16_le_bytes(w.point2) + i16_le_bytes(w.nextwall) + i16_le_bytes(w.nextsector) + i16_le_bytes(w.cstat)
        + i16_le_bytes(w.picnum) + i16_le_bytes(w.overpicnum)
        + seq![i8_byte(w.shade), w.pal, w.xrepeat, w.yrepeat, w.xpanning, w.ypanning]
}

/// The last 6 bytes of a stored wall: its tags.
pub open spec fn wall_tag_bytes(w: Wall) -> Seq<u8> {
    i16_le_bytes(w.lotag) + i16_le_bytes(w.hitag) + i16_le_bytes(w.extra)
}

/// The 32 bytes a wall is stored as in a MAP file, field by field.
pub open spec fn wall_bytes(w: Wall) -> Seq<u8> {
    wall_point_bytes(w) + wall_look_bytes(w) + wall_tag_bytes(w)
}

/// The first 16 bytes of a stored sprite: its position and look.
pub open spec fn sprite_head_bytes(s: Sprite) -> Seq<u8> {
    i32_le_bytes(s.x) + i32_le_bytes(s.y) + i32_le_bytes(s.z) + i16_le_bytes(s.cstat) + i16_le_bytes(s.picnum)
}

/// The next 8 bytes of a stored sprite: shade, palette, clipping, size and
/// offsets.
pub open spec fn sprite_look_bytes(s: Sprite) -> Seq<u8> {
    seq![i8_byte(s.shade), s.pal, s.clipdist, s._filler, s.xrepeat, s.yrepeat, i8_byte(s.xoffset), i8_byte(s.yoffset)]
}

/// The next 14 bytes of a stored sprite: sector, status, angle, owner and
/// velocity.
pub open spec fn sprite_motion_bytes(s: Sprite) -> Seq<u8> {
    i16_le_bytes(s.sectnum) + i16_le_bytes(s.statnum) + i16_le_bytes(s.ang) + i16_le_bytes(s.owner)
        + i16_le_bytes(s.xvel) + i16_le_bytes(s.yvel) + i16_le_bytes(s.zvel)
}

/// The last 6 bytes of a stored sprite: its tags.
pub open spec fn sprite_tag_bytes(s: Sprite) -> Seq<u8> {
    i16_le_bytes(s.lotag) + i16_le_bytes(s.hitag) + i16_le_bytes(s.extra)
}

/// The 44 bytes a sprite is stored as in a MAP file, field by field.
pub open spec fn sprite_bytes(s: Sprite) -> Seq<u8> {
    sprite_head_bytes(s) + sprite_look_bytes(s) + sprite_motion_bytes(s) + sprite_tag_bytes(s)
}

proof fn lemma_read_i16(d: Seq<u8>, q: int, v: i16)
    requires
        0 <= q,
        q + 2 <= d.len(),
        d.subrange(q, q + 2) == i16_le_bytes(v),
    ensures
        le_i16(d, q) == v,
{
    let u: int = if v >= 0 { v as int } else { v + 65536 };
    assert(d[q] == d.subrange(q, q + 2)[0]);
    assert(d[q + 1] == d.subrange(q, q + 2)[1]);
    assert((u % 256) + 256 * (u / 256) == u);
}

proof fn lemma_read_i32(d: Seq<u8>, q: int, v: i32)
    requires
        0 <= q,
        q + 4 <= d.len(),
        d.subrange(q, q + 4) == i32_le_bytes(v),
    ensures
        le_i32(d, q) == v,
{
    let u: int = if v >= 0 { v as int } else { v + 0x1_0000_0000 };
    assert(d[q] == d.subrange(q, q + 4)[0]);
    assert(d[q + 1] == d.subrange(q, q + 4)[1]);
    assert(d[q + 2] == d.subrange(q, q + 4)[2]);
    assert(d[q + 3] == d.subrange(q, q + 4)[3]);
    let w = u as u32;
    assert((w % 256) + 256 * ((w / 256) % 256) + 65536 * ((w / 65536) % 256) + 16777216 * (w / 16777216) == w) by (bit_vector);
}

proof fn lemma_read_i8(b: u8, v: i8)
    requires
        b == i8_byte(v),
    ensures
        signed8(b) == v,
{
}

/// A field of a record: the bytes at its place in the file are the part of
/// the record's bytes at the same place.
pub proof fn lemma_record_part(d: Seq<u8>, p: int, rec: Seq<u8>, off: int, w: int, part: Seq<u8>)
    requires
        0 <= p,
        0 <= off,
        0 <= w,
        off + w <= rec.len(),
        p + rec.len() <= d.len(),
        d.subrange(p, p + rec.len()) == rec,
        rec.subrange(off, off + w) == part,
    ensures
        d.subrange(p + off, p + off + w) == part,
{
    assert(d.subrange(p + off, p + off + w) =~= rec.subrange(off, off + w)) by {
        assert forall|j: int| 0 <= j < w implies #[trigger] d.subrange(p + off, p + off + w)[j] == rec.subrange(off, off + w)[j] by {
            assert(d[p + off + j] == d.subrange(p, p + rec.len())[off + j]);
        }
    }
}

/// A sector record written as `sector_bytes` reads back as the same sector:
/// each field is the little-endian value at its place in the 40-byte record
/// (the ceiling height at bytes 4..8, the floor height at 8..12, ...).
#[verifier::rlimit(60)]
pub proof fn lemma_sector_roundtrip(d: Seq<u8>, p: int, s: Sector)
    requires
        0 <= p,
        p + 40 <= d.len(),
        d.subrange(p, p + 40) == sector_bytes(s),
    ensures
        sector_at(d, p) == s,
{
    let h = sector_head_bytes(s);
    let l = sector_look_bytes(s);
    let t = sector_tag_bytes(s);
    assert(sector_bytes(s).subrange(0, 12) =~= h);
    assert(sector_bytes(s).subrange(12, 34) =~= l);
    assert(sector_bytes(s).subrange(34, 40) =~= t);
    lemma_record_part(d, p, sector_bytes(s), 0, 12, h);
    lemma_record_part(d, p, sector_bytes(s), 12, 22, l);
    lemma_record_part(d, p, sector_bytes(s), 34, 6, t);
    assert(h.subrange(0, 2) =~= i16_le_bytes(s.wallptr));
    assert(h.subrange(2, 4) =~= i16_le_bytes(s.wallnum));
    assert(h.subrange(4, 8) =~= i32_le_bytes(s.ceilingz));
    assert(h.subrange(8, 12) =~= i32_le_bytes(s.floorz));
    lemma_record_part(d, p, h, 0, 2, i16_le_bytes(s.wallptr));
    lemma_record_part(d, p, h, 2, 2, i16_le_bytes(s.wallnum));
    lemma_record_part(d, p, h, 4, 4, i32_le_bytes(s.ceilingz));
    lemma_record_part(d, p, h, 8, 4, i32_le_bytes(s.floorz));
    assert(l.subrange(0, 2) =~= i16_le_bytes(s.ceilingstat));
    assert(l.subrange(2, 4) =~= i16_le_bytes(s.floorstat));
    assert(l.subrange(4, 6) =~= i16_le_bytes(s.ceilingpicnum));
    assert(l.subrange(6, 8) =~= i16_le_bytes(s.ceilingheinum));
    assert(l.subrange(12, 14) =~= i16_le_bytes(s.floorpicnum));
    assert(l.subrange(14, 16) =~= i16_le_bytes(s.floorheinum));
    lemma_record_part(d, p + 12, l, 0, 2, i16_le_bytes(s.ceilingstat));
    lemma_record_part(d, p + 12, l, 2, 2, i16_le_bytes(s.floorstat));
    lemma_record_part(d, p + 12, l, 4, 2, i16_le_bytes(s.ceilingpicnum));
    lemma_record_part(d, p + 12, l, 6, 2, i16_le_bytes(s.ceilingheinum));
    lemma_record_part(d, p + 12, l, 12, 2, i16_le_bytes(s.floorpicnum));
    lemma_record_part(d, p + 12, l, 14, 2, i16_le_bytes(s.floorheinum));
    assert(t.subrange(0, 2) =~= i16_le_bytes(s.lotag));
    assert(t.subrange(2, 4) =~= i16_le_bytes(s.hitag));
    assert(t.subrange(4, 6) =~= i16_le_bytes(s.extra));
    lemma_record_part(d, p + 34, t, 0, 2, i16_le_bytes(s.lotag));
    lemma_record_part(d, p + 34, t, 2, 2, i16_le_bytes(s.hitag));
    lemma_record_part(d, p + 34, t, 4, 2, i16_le_bytes(s.extra));
    assert(d[p + 20] == d.subrange(p + 12, p + 34)[8]);
    assert(d[p + 21] == d.subrange(p + 12, p + 34)[9]);
    assert(d[p + 22] == d.subrange(p + 12, p + 34)[10]);
    assert(d[p + 23] == d.subrange(p + 12, p + 34)[11]);
    assert(d[p + 28] == d.subrange(p + 12, p + 34)[16]);
    assert(d[p + 29] == d.subrange(p + 12, p + 34)[17]);
    assert(d[p + 30] == d.subrange(p + 12, p + 34)[18]);
    assert(d[p + 31] == d.subrange(p + 12, p + 34)[19]);
    assert(d[p + 32] == d.subrange(p + 12, p + 34)[20]);
    assert(d[p + 33] == d.subrange(p + 12, p + 34)[21]);
    lemma_read_i16(d, p, s.wallptr);
    lemma_read_i16(d, p + 2, s.wallnum);
    lemma_read_i32(d, p + 4, s.ceilingz);
    lemma_read_i32(d, p + 8, s.floorz);
    lemma_read_i16(d, p + 12, s.ceilingstat);
    lemma_read_i16(d, p + 14, s.floorstat);
    lemma_read_i16(d, p + 16, s.ceilingpicnum);
    lemma_read_i16(d, p + 18, s.ceilingheinum);
    lemma_read_i8(d[p + 20], s.ceilingshade);
    lemma_read_i16(d, p + 24, s.floorpicnum);
    lemma_read_i16(d, p + 26, s.floorheinum);
    lemma_read_i8(d[p + 28], s.floorshade);
    lemma_read_i16(d, p + 34, s.lotag);
    lemma_read_i16(d, p + 36, s.hitag);
    lemma_read_i16(d, p + 38, s.extra);
}

/// A wall record written as `wall_bytes` reads back as the same wall.
pub proof fn lemma_wall_roundtrip(d: Seq<u8>, p: int, w: Wall)
    requires
        0 <= p,
        p + 32 <= d.len(),
        d.subrange(p, p + 32) == wall_bytes(w),
    ensures
        wall_at(d, p) == w,
{
    let a = wall_point_bytes(w);
    let b = wall_look_bytes(w);
    let c = wall_tag_bytes(w);
    assert(wall_bytes(w).subrange(0, 8) =~= a);
    assert(wall_bytes(w).subrange(8, 26) =~= b);
    assert(wall_bytes(w).subrange(26, 32) =~= c);
    lemma_record_part(d, p, wall_bytes(w), 0, 8, a);
    lemma_record_part(d, p, wall_bytes(w), 8, 18, b);
    lemma_record_part(d, p, wall_bytes(w), 26, 6, c);
    assert(a.subrange(0, 4) =~= i32_le_bytes(w.x));
    lemma_record_part(d, p + 0, a, 0, 4, i32_le_bytes(w.x));
    assert(a.subrange(4, 8) =~= i32_le_bytes(w.y));
    lemma_record_part(d, p + 0, a, 4, 4, i32_le_bytes(w.y));
    assert(b.subrange(0, 2) =~= i16_le_bytes(w.point2));
    lemma_record_part(d, p + 8, b, 0, 2, i16_le_bytes(w.point2));
    assert(b.subrange(2, 4) =~= i16_le_bytes(w.nextwall));
    lemma_record_part(d, p + 8, b, 2, 2, i16_le_bytes(w.nextwall));
    assert(b.subrange(4, 6) =~= i16_le_bytes(w.nextsector));
    lemma_record_part(d, p + 8, b, 4, 2, i16_le_bytes(w.nextsector));
    assert(b.subrange(6, 8) =~= i16_le_bytes(w.cstat));
    lemma_record_part(d, p + 8, b, 6, 2, i16_le_bytes(w.cstat));
    assert(b.subrange(8, 10) =~= i16_le_bytes(w.picnum));
    lemma_record_part(d, p + 8, b, 8, 2, i16_le_bytes(w.picnum));
    assert(b.subrange(10, 12) =~= i16_le_bytes(w.overpicnum));
    lemma_record_part(d, p + 8, b, 10, 2, i16_le_bytes(w.overpicnum));
    assert(c.subrange(0, 2) =~= i16_le_bytes(w.lotag));
    lemma_record_part(d, p + 26, c, 0, 2, i16_le_bytes(w.lotag));
    assert(c.subrange(2, 4) =~= i16_le_bytes(w.hitag));
    lemma_record_part(d, p + 26, c, 2, 2, i16_le_bytes(w.hitag));
    assert(c.subrange(4, 6) =~= i16_le_bytes(w.extra));
    lemma_record_part(d, p + 26, c, 4, 2, i16_le_bytes(w.extra));
    assert(d[p + 20] == d.subrange(p + 8, p + 26)[12]);
    assert(d[p + 21] == d.subrange(p + 8, p + 26)[13]);
    assert(d[p + 22] == d.subrange(p + 8, p + 26)[14]);
    assert(d[p + 23] == d.subrange(p + 8, p + 26)[15]);
    assert(d[p + 24] == d.subrange(p + 8, p + 26)[16]);
    assert(d[p + 25] == d.subrange(p + 8, p + 26)[17]);
    lemma_read_i32(d, p + 0, w.x);
    lemma_read_i32(d, p + 4, w.y);
    lemma_read_i16(d, p + 8, w.point2);
    lemma_read_i16(d, p + 10, w.nextwall);
    lemma_read_i16(d, p + 12, w.nextsector);
    lemma_read_i16(d, p + 14, w.cstat);
    lemma_read_i16(d, p + 16, w.picnum);
    lemma_read_i16(d, p + 18, w.overpicnum);
    lemma_read_i16(d, p + 26, w.lotag);
    lemma_read_i16(d, p + 28, w.hitag);
    lemma_read_i16(d, p + 30, w.extra);
    lemma_read_i8(d[p + 20], w.shade);
}

/// A sprite record written as `sprite_bytes` reads back as the same sprite.
pub proof fn lemma_sprite_roundtrip(d: Seq<u8>, p: int, s: Sprite)
    requires
        0 <= p,
        p + 44 <= d.len(),
        d.subrange(p, p + 44) == sprite_bytes(s),
    ensures
        sprite_at(d, p) == s,
{
    let a = sprite_head_bytes(s);
    let b = sprite_look_bytes(s);
    let c = sprite_motion_bytes(s);
    let e = sprite_tag_bytes(s);
    assert(sprite_bytes(s).subrange(0, 16) =~= a);
    assert(sprite_bytes(s).subrange(16, 24) =~= b);
    assert(sprite_bytes(s).subrange(24, 38) =~= c);
    assert(sprite_bytes(s).subrange(38, 44) =~= e);
    lemma_record_part(d, p, sprite_bytes(s), 0, 16, a);
    lemma_record_part(d, p, sprite_bytes(s), 16, 8, b);
    lemma_record_part(d, p, sprite_bytes(s), 24, 14, c);
    lemma_record_part(d, p, sprite_bytes(s), 38, 6, e);
    assert(a.subrange(0, 4) =~= i32_le_bytes(s.x));
    lemma_record_part(d, p + 0, a, 0, 4, i32_le_bytes(s.x));
    assert(a.subrange(4, 8) =~= i32_le_bytes(s.y));
    lemma_record_part(d, p + 0, a, 4, 4, i32_le_bytes(s.y));
    assert(a.subrange(8, 12) =~= i32_le_bytes(s.z));
    lemma_record_part(d, p + 0, a, 8, 4, i32_le_bytes(s.z));
    assert(a.subrange(12, 14) =~= i16_le_bytes(s.cstat));
    lemma_record_part(d, p + 0, a, 12, 2, i16_le_bytes(s.cstat));
    assert(a.subrange(14, 16) =~= i16_le_bytes(s.picnum));
    lemma_record_part(d, p + 0, a, 14, 2, i16_le_bytes(s.picnum));
    assert(c.subrange(0, 2) =~= i16_le_bytes(s.sectnum));
    lemma_record_part(d, p + 24, c, 0, 2, i16_le_bytes(s.sectnum));
    assert(c.subrange(2, 4) =~= i16_le_bytes(s.statnum));
    lemma_record_part(d, p + 24, c, 2, 2, i16_le_bytes(s.statnum));
    assert(c.subrange(4, 6) =~= i16_le_bytes(s.ang));
    lemma_record_part(d, p + 24, c, 4, 2, i16_le_bytes(s.ang));
    assert(c.subrange(6, 8) =~= i16_le_bytes(s.owner));
    lemma_record_part(d, p + 24, c, 6, 2, i16_le_bytes(s.owner));
    assert(c.subrange(8, 10) =~= i16_le_bytes(s.xvel));
    lemma_record_part(d, p + 24, c, 8, 2, i16_le_bytes(s.xvel));
    assert(c.subrange(10, 12) =~= i16_le_bytes(s.yvel));
    lemma_record_part(d, p + 24, c, 10, 2, i16_le_bytes(s.yvel));
    assert(c.subrange(12, 14) =~= i16_le_bytes(s.zvel));
    lemma_record_part(d, p + 24, c, 12, 2, i16_le_bytes(s.zvel));
    assert(e.subrange(0, 2) =~= i16_le_bytes(s.lotag));
    lemma_record_part(d, p + 38, e, 0, 2, i16_le_bytes(s.lotag));
    assert(e.subrange(2, 4) =~= i16_le_bytes(s.hitag));
    lemma_record_part(d, p + 38, e, 2, 2, i16_le_bytes(s.hitag));
    assert(e.subrange(4, 6) =~= i16_le_bytes(s.extra));
    lemma_record_part(d, p + 38, e, 4, 2, i16_le_bytes(s.extra));
    assert(d[p + 16] == d.subrange(p + 16, p + 24)[0]);
    assert(d[p + 17] == d.subrange(p + 16, p + 24)[1]);
    assert(d[p + 18] == d.subrange(p + 16, p + 24)[2]);
    assert(d[p + 19] == d.subrange(p + 16, p + 24)[3]);
    assert(d[p + 20] == d.subrange(p + 16, p + 24)[4]);
    assert(d[p + 21] == d.subrange(p + 16, p + 24)[5]);
    assert(d[p + 22] == d.subrange(p + 16, p + 24)[6]);
    assert(d[p + 23] == d.subrange(p + 16, p + 24)[7]);
    lemma_read_i32(d, p + 0, s.x);
    lemma_read_i32(d, p + 4, s.y);
    lemma_read_i32(d, p + 8, s.z);
    lemma_read_i16(d, p + 12, s.cstat);
    lemma_read_i16(d, p + 14, s.picnum);
    lemma_read_i16(d, p + 24, s.sectnum);
    lemma_read_i16(d, p + 26, s.statnum);
    lemma_read_i16(d, p + 28, s.ang);
    lemma_read_i16(d, p + 30, s.owner);
    lemma_read_i16(d, p + 32, s.xvel);
    lemma_read_i16(d, p + 34, s.yvel);
    lemma_read_i16(d, p + 36, s.zvel);
    lemma_read_i16(d, p + 38, s.lotag);
    lemma_read_i16(d, p + 40, s.hitag);
    lemma_read_i16(d, p + 42, s.extra);
    lemma_read_i8(d[p + 16], s.shade);
    lemma_read_i8(d[p + 22], s.xoffset);
    lemma_read_i8(d[p + 23], s.yoffset);
}

/// Records stored one after another, each as `enc` writes it.
pub open spec fn records_bytes<T>(items: Seq<T>, enc: spec_fn(T) -> Seq<u8>) -> Seq<u8>
    decreases items.len(),
{
    if items.len() == 0 {
        Seq::empty()
    } else {
        records_bytes(items.drop_last(), enc) + enc(items.last())
    }
}

pub proof fn lemma_records_len<T>(items: Seq<T>, enc: spec_fn(T) -> Seq<u8>, w: int)
    requires
        w > 0,
        forall|x: T| #[trigger] enc(x).len() == w,
    ensures
        records_bytes(items, enc).len() == w * items.len(),
    decreases items.len(),
{
    if items.len() > 0 {
        lemma_records_len(items.drop_last(), enc, w);
        assert(enc(items.last()).len() == w);
        assert(w * (items.len() - 1) + w == w * items.len()) by (nonlinear_arith);
    }
}

pub proof fn lemma_records_layout<T>(items: Seq<T>, enc: spec_fn(T) -> Seq<u8>, w: int)
    requires
        w > 0,
        forall|x: T| #[trigger] enc(x).len() == w,
    ensures
        records_bytes(items, enc).len() == w * items.len(),
        forall|i: int| 0 <= i < items.len() ==>
            #[trigger] records_bytes(items, enc).subrange(w * i, w * i + w) == enc(items[i]),
    decreases items.len(),
{
    if items.len() > 0 {
        let pre = items.drop_last();
        lemma_records_layout(pre, enc, w);
        let a = records_bytes(pre, enc);
        let b = records_bytes(items, enc);
        assert(enc(items.last()).len() == w);
        assert(b.len() == w * items.len()) by (nonlinear_arith)
            requires b.len() == a.len() + w, a.len() == w * (items.len() - 1);
        assert forall|i: int| 0 <= i < items.len() implies
            #[trigger] b.subrange(w * i, w * i + w) == enc(items[i]) by {
            if i < pre.len() {
                assert(w * i + w <= a.len()) by (nonlinear_arith)
                    requires i + 1 <= pre.len(), a.len() == w * pre.len(), w > 0;
                assert(b.subrange(w * i, w * i + w) =~= a.subrange(w * i, w * i + w));
                assert(pre[i] == items[i]);
            } else {
                assert(w * i == a.len()) by (nonlinear_arith)
                    requires i == pre.len(), a.len() == w * pre.len();
                assert(b.subrange(w * i, w * i + w) =~= enc(items.last()));
            }
        }
    }
}

pub open spec fn sector_enc() -> spec_fn(Sector) -> Seq<u8> { |x: Sector| sector_bytes(x) }
pub open spec fn wall_enc() -> spec_fn(Wall) -> Seq<u8> { |x: Wall| wall_bytes(x) }
pub open spec fn sprite_enc() -> spec_fn(Sprite) -> Seq<u8> { |x: Sprite| sprite_bytes(x) }

/// The 20-byte header of a MAP file: version, start position, angle and
/// sector.
pub open spec fn map_header_bytes(version: i32, posx: i32, posy: i32, posz: i32, ang: i16, cursectnum: i16) -> Seq<u8> {
    i32_le_bytes(version) + i32_le_bytes(posx) + i32_le_bytes(posy) + i32_le_bytes(posz) + i16_le_bytes(ang)
        + i16_le_bytes(cursectnum)
}

/// The bytes of a whole MAP file: the header, then the sector count and the
/// sectors, the wall count and the walls, the sprite count and the sprites.
#[verifier::opaque]
pub open spec fn map_file_bytes(version: i32, posx: i32, posy: i32, posz: i32, ang: i16, cursectnum: i16,
    secs: Seq<Sector>, walls: Seq<Wall>, sprites: Seq<Sprite>) -> Seq<u8>
{
    map_header_bytes(version, posx, posy, posz, ang, cursectnum)
    + (i16_le_bytes(secs.len() as i16) + records_bytes(secs, sector_enc()))
    + (i16_le_bytes(walls.len() as i16) + records_bytes(walls, wall_enc()))
    + (i16_le_bytes(sprites.len() as i16) + records_bytes(sprites, sprite_enc()))
}

proof fn lemma_split4(h: Seq<u8>, a: Seq<u8>, b: Seq<u8>, c: Seq<u8>)
    ensures
        ({
            let d = h + a + b + c;
            &&& d.len() == h.len() + a.len() + b.len() + c.len()
            &&& d.subrange(0, h.len() as int) == h
            &&& d.subrange(h.len() as int, (h.len() + a.len()) as int) == a
            &&& d.subrange((h.len() + a.len()) as int, (h.len() + a.len() + b.len()) as int) == b
            &&& d.subrange((h.len() + a.len() + b.len()) as int, d.len() as int) == c
        }),
{
    let d = h + a + b + c;
    assert(d.subrange(0, h.len() as int) =~= h);
    assert(d.subrange(h.len() as int, (h.len() + a.len()) as int) =~= a);
    assert(d.subrange((h.len() + a.len()) as int, (h.len() + a.len() + b.len()) as int) =~= b);
    assert(d.subrange((h.len() + a.len() + b.len()) as int, d.len() as int) =~= c);
}

proof fn lemma_header_fields(d: Seq<u8>, version: i32, posx: i32, posy: i32, posz: i32, ang: i16, cursectnum: i16)
    requires
        20 <= d.len(),
        d.subrange(0, 20) == map_header_bytes(version, posx, posy, posz, ang, cursectnum),
    ensures
        le_i32(d, 0) == version,
        le_i32(d, 4) == posx,
        le_i32(d, 8) == posy,
        le_i32(d, 12) == posz,
        le_i16(d, 16) == ang,
        le_i16(d, 18) == cursectnum,
{
    let h = map_header_bytes(version, posx, posy, posz, ang, cursectnum);
    assert(h.subrange(0, 4) =~= i32_le_bytes(version));
    assert(h.subrange(4, 8) =~= i32_le_bytes(posx));
    assert(h.subrange(8, 12) =~= i32_le_bytes(posy));
    assert(h.subrange(12, 16) =~= i32_le_bytes(posz));
    assert(h.subrange(16, 18) =~= i16_le_bytes(ang));
    assert(h.subrange(18, 20) =~= i16_le_bytes(cursectnum));
    lemma_record_part(d, 0, h, 0, 4, i32_le_bytes(version));
    lemma_record_part(d, 0, h, 4, 4, i32_le_bytes(posx));
    lemma_record_part(d, 0, h, 8, 4, i32_le_bytes(posy));
    lemma_record_part(d, 0, h, 12, 4, i32_le_bytes(posz));
    lemma_record_part(d, 0, h, 16, 2, i16_le_bytes(ang));
    lemma_record_part(d, 0, h, 18, 2, i16_le_bytes(cursectnum));
    lemma_read_i32(d, 0, version);
    lemma_read_i32(d, 4, posx);
    lemma_read_i32(d, 8, posy);
    lemma_read_i32(d, 12, posz);
    lemma_read_i16(d, 16, ang);
    lemma_read_i16(d, 18, cursectnum);
}

proof fn lemma_count_part(d: Seq<u8>, q: int, n: i16, recs: Seq<u8>)
    requires
        0 <= q,
        q + 2 + recs.len() <= d.len(),
        d.subrange(q, q + 2 + recs.len()) == i16_le_bytes(n) + recs,
    ensures
        le_i16(d, q) == n,
        d.subrange(q + 2, q + 2 + recs.len()) == recs,
{
    let part = i16_le_bytes(n) + recs;
    assert(part.subrange(0, 2) =~= i16_le_bytes(n));
    assert(part.subrange(2, (2 + recs.len()) as int) =~= recs);
    lemma_record_part(d, q, part, 0, 2, i16_le_bytes(n));
    lemma_record_part(d, q, part, 2, recs.len() as int, recs);
    lemma_read_i16(d, q, n);
}

#[verifier::rlimit(50)]
#[verifier::spinoff_prover]
proof fn lemma_sector_records(d: Seq<u8>, q: int, secs: Seq<Sector>)
    requires
        0 <= q,
        q + 40 * secs.len() <= d.len(),
        d.subrange(q, q + 40 * secs.len()) == records_bytes(secs, sector_enc()),
    ensures
        forall|i: int| 0 <= i < secs.len() ==> #[trigger] sector_at(d, q + 40 * i) == secs[i],
{
    let es = sector_enc();
    assert forall|x: Sector| #[trigger] es(x).len() == 40 by {}
    lemma_records_layout(secs, es, 40);
    let rs = records_bytes(secs, es);
    assert forall|i: int| 0 <= i < secs.len() implies #[trigger] sector_at(d, q + 40 * i) == secs[i] by {
        assert(rs.subrange(40 * i, 40 * i + 40) == es(secs[i]));
        assert(40 * i + 40 <= 40 * secs.len()) by (nonlinear_arith) requires i < secs.len();
        lemma_record_part(d, q, rs, 40 * i, 40, sector_bytes(secs[i]));
        lemma_sector_roundtrip(d, q + 40 * i, secs[i]);
    }
}

#[verifier::rlimit(50)]
#[verifier::spinoff_prover]
proof fn lemma_wall_records(d: Seq<u8>, q: int, walls: Seq<Wall>)
    requires
        0 <= q,
        q + 32 * walls.len() <= d.len(),
        d.subrange(q, q + 32 * walls.len()) == records_bytes(walls, wall_enc()),
    ensures
        forall|i: int| 0 <= i < walls.len() ==> #[trigger] wall_at(d, q + 32 * i) == walls[i],
{
    let ew = wall_enc();
    assert forall|x: Wall| #[trigger] ew(x).len() == 32 by {}
    lemma_records_layout(walls, ew, 32);
    let rw = records_bytes(walls, ew);
    assert forall|i: int| 0 <= i < walls.len() implies #[trigger] wall_at(d, q + 32 * i) == walls[i] by {
        assert(rw.subrange(32 * i, 32 * i + 32) == ew(walls[i]));
        assert(32 * i + 32 <= 32 * walls.len()) by (nonlinear_arith) requires i < walls.len();
        lemma_record_part(d, q, rw, 32 * i, 32, wall_bytes(walls[i]));
        lemma_wall_roundtrip(d, q + 32 * i, walls[i]);
    }
}

#[verifier::rlimit(50)]
#[verifier::spinoff_prover]
proof fn lemma_sprite_records(d: Seq<u8>, q: int, sprites: Seq<Sprite>)
    requires
        0 <= q,
        q + 44 * sprites.len() <= d.len(),
        d.subrange(q, q + 44 * sprites.len()) == records_bytes(sprites, sprite_enc()),
    ensures
        forall|i: int| 0 <= i < sprites.len() ==> #[trigger] sprite_at(d, q + 44 * i) == sprites[i],
{
    let ep = sprite_enc();
    assert forall|x: Sprite| #[trigger] ep(x).len() == 44 by {}
    lemma_records_layout(sprites, ep, 44);
    let rp = records_bytes(sprites, ep);
    assert forall|i: int| 0 <= i < sprites.len() implies #[trigger] sprite_at(d, q + 44 * i) == sprites[i] by {
        assert(rp.subrange(44 * i, 44 * i + 44) == ep(sprites[i]));
        assert(44 * i + 44 <= 44 * sprites.len()) by (nonlinear_arith) requires i < sprites.len();
        lemma_record_part(d, q, rp, 44 * i, 44, sprite_bytes(sprites[i]));
        lemma_sprite_roundtrip(d, q + 44 * i, sprites[i]);
    }
}

/// Where the parts of a written MAP file lie.
#[verifier::rlimit(80)]
#[verifier::spinoff_prover]
proof fn lemma_map_file_shape(version: i32, posx: i32, posy: i32, posz: i32, ang: i16, cursectnum: i16,
    secs: Seq<Sector>, walls: Seq<Wall>, sprites: Seq<Sprite>)
    ensures
        ({
            let d = map_file_bytes(version, posx, posy, posz, ang, cursectnum, secs, walls, sprites);
            let pw: int = 22 + 40 * secs.len() as int;
            let pp: int = pw + 2 + 32 * walls.len() as int;
            &&& d.len() == pp + 2 + 44 * sprites.len()
            &&& d.subrange(0, 20) == map_header_bytes(version, posx, posy, posz, ang, cursectnum)
            &&& d.subrange(20, pw) == i16_le_bytes(secs.len() as i16) + records_bytes(secs, sector_enc())
            &&& d.subrange(pw, pp) == i16_le_bytes(walls.len() as i16) + records_bytes(walls, wall_enc())
            &&& d.subrange(pp, d.len() as int) == i16_le_bytes(sprites.len() as i16) + records_bytes(sprites, sprite_enc())
        }),
{
    reveal(map_file_bytes);
    let es = sector_enc();
    let ew = wall_enc();
    let ep = sprite_enc();
    assert forall|x: Sector| #[trigger] es(x).len() == 40 by {}
    assert forall|x: Wall| #[trigger] ew(x).len() == 32 by {}
    assert forall|x: Sprite| #[trigger] ep(x).len() == 44 by {}
    lemma_records_len(secs, es, 40);
    lemma_records_len(walls, ew, 32);
    lemma_records_len(sprites, ep, 44);
    lemma_split4(map_header_bytes(version, posx, posy, posz, ang, cursectnum),
        i16_le_bytes(secs.len() as i16) + records_bytes(secs, es),
        i16_le_bytes(walls.len() as i16) + records_bytes(walls, ew),
        i16_le_bytes(sprites.len() as i16) + records_bytes(sprites, ep));
}

/// A MAP file written from a header and lists of sectors, walls and sprites
/// (within the counts the format allows) is accepted, and reads back as
/// that header and those sectors, walls and sprites, in order.
#[verifier::rlimit(100)]
#[verifier::spinoff_prover]
pub proof fn lemma_map_file_roundtrip(version: i32, posx: i32, posy: i32, posz: i32, ang: i16, cursectnum: i16,
    secs: Seq<Sector>, walls: Seq<Wall>, sprites: Seq<Sprite>)
    requires
        secs.len() <= 4096,
        walls.len() <= 16384,
        sprites.len() <= 16384,
    ensures
        ({
            let d = map_file_bytes(version, posx, posy, posz, ang, cursectnum, secs, walls, sprites);
            &&& map_verdict(d) == Ok::<(), MapError>(())
            &&& le_i32(d, 0) == version
            &&& le_i32(d, 4) == posx
            &&& le_i32(d, 8) == posy
            &&& le_i32(d, 12) == posz
            &&& le_i16(d, 16) == ang
            &&& le_i16(d, 18) == cursectnum
            &&& map_num_sectors(d) == secs.len()
            &&& map_num_walls(d) == walls.len()
            &&& map_num_sprites(d) == sprites.len()
            &&& forall|i: int| 0 <= i < secs.len() ==> #[trigger] sector_at(d, 22 + 40 * i) == secs[i]
            &&& forall|i: int| 0 <= i < walls.len() ==> #[trigger] wall_at(d, map_walls_count_pos(d) + 2 + 32 * i) == walls[i]
            &&& forall|i: int| 0 <= i < sprites.len() ==> #[trigger] sprite_at(d, map_sprites_count_pos(d) + 2 + 44 * i) == sprites[i]
        }),
{
    let d = map_file_bytes(version, posx, posy, posz, ang, cursectnum, secs, walls, sprites);
    let ns = secs.len() as int;
    let nw = walls.len() as int;
    let np = sprites.len() as int;
    let pw = 22 + 40 * ns;
    let pp = pw + 2 + 32 * nw;
    lemma_map_file_shape(version, posx, posy, posz, ang, cursectnum, secs, walls, sprites);
    let es = sector_enc();
    let ew = wall_enc();
    let ep = sprite_enc();
    assert forall|x: Sector| #[trigger] es(x).len() == 40 by {}
    assert forall|x: Wall| #[trigger] ew(x).len() == 32 by {}
    assert forall|x: Sprite| #[trigger] ep(x).len() == 44 by {}
    lemma_records_len(secs, es, 40);
    lemma_records_len(walls, ew, 32);
    lemma_records_len(sprites, ep, 44);
    lemma_header_fields(d, version, posx, posy, posz, ang, cursectnum);
    lemma_count_part(d, 20, secs.len() as i16, records_bytes(secs, es));
    lemma_count_part(d, pw, walls.len() as i16, records_bytes(walls, ew));
    lemma_count_part(d, pp, sprites.len() as i16, records_bytes(sprites, ep));
    assert(map_num_sectors(d) == ns);
    assert(map_walls_count_pos(d) == pw);
    assert(map_num_walls(d) == nw);
    assert(map_sprites_count_pos(d) == pp);
    assert(map_num_sprites(d) == np);
    assert(map_end(d) == d.len());
    lemma_sector_records(d, 22, secs);
    lemma_wall_records(d, pw + 2, walls);
    lemma_sprite_records(d, pp + 2, sprites);
}

/// A MAP file whose sector, wall and sprite records are the stored forms
/// of given sectors, walls and sprites, and whose counts are theirs, reads
/// back (through `BuildMap::from_bytes`, record by record) as exactly those
/// sectors, walls and sprites.
pub proof fn lemma_map_records_roundtrip(d: Seq<u8>, secs: Seq<Sector>, walls: Seq<Wall>, sprites: Seq<Sprite>)
    requires
        map_num_sectors(d) == secs.len(),
        map_num_walls(d) == walls.len(),
        map_num_sprites(d) == sprites.len(),
        map_end(d) <= d.len(),
        forall|i: int| 0 <= i < secs.len() ==>
            #[trigger] d.subrange(22 + 40 * i, 22 + 40 * i + 40) == sector_bytes(secs[i]),
        forall|i: int| 0 <= i < walls.len() ==>
            #[trigger] d.subrange(map_walls_count_pos(d) + 2 + 32 * i, map_walls_count_pos(d) + 2 + 32 * i + 32) == wall_bytes(walls[i]),
        forall|i: int| 0 <= i < sprites.len() ==>
            #[trigger] d.subrange(map_sprites_count_pos(d) + 2 + 44 * i, map_sprites_count_pos(d) + 2 + 44 * i + 44) == sprite_bytes(sprites[i]),
    ensures
        forall|i: int| 0 <= i < secs.len() ==> #[trigger] sector_at(d, 22 + 40 * i) == secs[i],
        forall|i: int| 0 <= i < walls.len() ==> #[trigger] wall_at(d, map_walls_count_pos(d) + 2 + 32 * i) == walls[i],
        forall|i: int| 0 <= i < sprites.len() ==> #[trigger] sprite_at(d, map_sprites_count_pos(d) + 2 + 44 * i) == sprites[i],
{
    assert forall|i: int| 0 <= i < secs.len() implies #[trigger] sector_at(d, 22 + 40 * i) == secs[i] by {
        assert(d.subrange(22 + 40 * i, 22 + 40 * i + 40) == sector_bytes(secs[i]));
        lemma_sector_roundtrip(d, 22 + 40 * i, secs[i]);
    }
    assert forall|i: int| 0 <= i < walls.len() implies #[trigger] wall_at(d, map_walls_count_pos(d) + 2 + 32 * i) == walls[i] by {
        let q = map_walls_count_pos(d) + 2 + 32 * i;
        assert(d.subrange(q, q + 32) == wall_bytes(walls[i]));
        lemma_wall_roundtrip(d, q, walls[i]);
    }
    assert forall|i: int| 0 <= i < sprites.len() implies #[trigger] sprite_at(d, map_sprites_count_pos(d) + 2 + 44 * i) == sprites[i] by {
        let q = map_sprites_count_pos(d) + 2 + 44 * i;
        assert(d.subrange(q, q + 44) == sprite_bytes(sprites[i]));
        lemma_sprite_roundtrip(d, q, sprites[i]);
    }
}

/// Layout of a MAP file: 20 header bytes, then for sectors, walls and
/// sprites in turn an `i16` count followed by that many records.
pub open spec fn map_num_sectors(d: Seq<u8>) -> i16 { le_i16(d, 20) }
pub open spec fn map_walls_count_pos(d: Seq<u8>) -> int { 22 + 40 * map_num_sectors(d) }
pub open spec fn map_num_walls(d: Seq<u8>) -> i16 { le_i16(d, map_walls_count_pos(d)) }
pub open spec fn map_sprites_count_pos(d: Seq<u8>) -> int { map_walls_count_pos(d) + 2 + 32 * map_num_walls(d) }
pub open spec fn map_num_sprites(d: Seq<u8>) -> i16 { le_i16(d, map_sprites_count_pos(d)) }
pub open spec fn map_end(d: Seq<u8>) -> int { map_sprites_count_pos(d) + 2 + 44 * map_num_sprites(d) }

/// The outcome of decoding `d`: the first field that runs past the end, or
/// the first count outside its range, in file order.
pub open spec fn map_verdict(d: Seq<u8>) -> Result<(), MapError> {
    if d.len() < 22 {
        Err(MapError::UnexpectedEof)
    } else if map_num_sectors(d) < 0 || map_num_sectors(d) > 4096 {
        Err(MapError::InvalidSectorCount(map_num_sectors(d)))
    } else if d.len() < map_walls_count_pos(d) + 2 {
        Err(MapError::UnexpectedEof)
    } else if map_num_walls(d) < 0 || map_num_walls(d) > 16384 {
        Err(MapError::InvalidWallCount(map_num_walls(d)))
    } else if d.len() < map_sprites_count_pos(d) + 2 {
        Err(MapError::UnexpectedEof)
    } else if map_num_sprites(d) < 0 || map_num_sprites(d) > 16384 {
        Err(MapError::InvalidSpriteCount(map_num_sprites(d)))
    } else if d.len() < map_end(d) {
        Err(MapError::UnexpectedEof)
    } else {
        Ok(())
    }
}

fn read_sector(data: &[u8], p: usize) -> (s: Sector)
    requires
        p + 40 <= data@.len(),
    ensures
        s == sector_at(data@, p as int),
{
    let n = data.len();
    assert(p <= n);
    Sector {
        wallptr: get_i16(data, p),
        wallnum: get_i16(data, p + 2),
        ceilingz: get_i32(data, p + 4),
        floorz: get_i32(data, p + 8),
        ceilingstat: get_i16(data, p + 12),
        floorstat: get_i16(data, p + 14),
        ceilingpicnum: get_i16(data, p + 16),
        ceilingheinum: get_i16(data, p + 18),
        ceilingshade: get_i8(data, p + 20),
        ceilingpal: data[p + 21],
        ceilingxpanning: data[p + 22],
        ceilingypanning: data[p + 23],
        floorpicnum: get_i16(data, p + 24),
        floorheinum: get_i16(data, p + 26),
        floorshade: get_i8(data, p + 28),
        floorpal: data[p + 29],
        floorxpanning: data[p + 30],
        floorypanning: data[p + 31],
        visibility: data[p + 32],
        _filler: data[p + 33],
        lotag: get_i16(data, p + 34),
        hitag: get_i16(data, p + 36),
        extra: get_i16(data, p + 38),
    }
}

fn read_wall(data: &[u8], p: usize) -> (w: Wall)
    requires
        p + 32 <= data@.len(),
    ensures
        w == wall_at(data@, p as int),
{
    let n = data.len();
    assert(p <= n);
    Wall {
        x: get_i32(data, p),
        y: get_i32(data, p + 4),
        point2: get_i16(data, p + 8),
        nextwall: get_i16(data, p + 10),
        nextsector: get_i16(data, p + 12),
        cstat: get_i16(data, p + 14),
        picnum: get_i16(data, p + 16),
        overpicnum: get_i16(data, p + 18),
        shade: get_i8(data, p + 20),
        pal: data[p + 21],
        xrepeat: data[p + 22],
        yrepeat: data[p + 23],
        xpanning: data[p + 24],
        ypanning: data[p + 25],
        lotag: get_i16(data, p + 26),
        hitag: get_i16(data, p + 28),
        extra: get_i16(data, p + 30),
    }
}

fn read_sprite(data: &[u8], p: usize) -> (s: Sprite)
    requires
        p + 44 <= data@.len(),
    ensures
        s == sprite_at(data@, p as int),
{
    let n = data.len();
    assert(p <= n);
    Sprite {
        x: get_i32(data, p),
        y: get_i32(data, p + 4),
        z: get_i32(data, p + 8),
        cstat: get_i16(data, p + 12),
        picnum: get_i16(data, p + 14),
        shade: get_i8(data, p + 16),
        pal: data[p + 17],
        clipdist: data[p + 18],
        _filler: data[p + 19],
        xrepeat: data[p + 20],
        yrepeat: data[p + 21],
        xoffset: get_i8(data, p + 22),
        yoffset: get_i8(data, p + 23),
        sectnum: get_i16(data, p + 24),
        statnum: get_i16(data, p + 26),
        ang: get_i16(data, p + 28),
        owner: get_i16(data, p + 30),
        xvel: get_i16(data, p + 32),
        yvel: get_i16(data, p + 34),
        zvel: get_i16(data, p + 36),
        lotag: get_i16(data, p + 38),
        hitag: get_i16(data, p + 40),
        extra: get_i16(data, p + 42),
    }
}

impl BuildMap {
    /// Decodes a MAP file.
    pub fn from_bytes(data: &[u8]) -> (res: Result<Self, MapError>)
        ensures
            match map_verdict(data@) {
                Err(e) => res == Err::<Self, MapError>(e),
                Ok(()) => res is Ok,
            },
            res matches Ok(m) ==> {
                let d = data@;
                &&& m.version == le_i32(d, 0)
                &&& m.posx == le_i32(d, 4)
                &&& m.posy == le_i32(d, 8)
                &&& m.posz == le_i32(d, 12)
                &&& m.ang == le_i16(d, 16)
                &&& m.cursectnum == le_i16(d, 18)
                &&& m.sectors@.len() == map_num_sectors(d)
                &&& (forall|i: int| 0 <= i < m.sectors@.len() ==> #[trigger] m.sectors@[i] == sector_at(d, 22 + 40 * i))
                &&& m.walls@.len() == map_num_walls(d)
                &&& (forall|i: int| 0 <= i < m.walls@.len() ==> #[trigger] m.walls@[i] == wall_at(d, map_walls_count_pos(d) + 2 + 32 * i))
                &&& m.sprites@.len() == map_num_sprites(d)
                &&& (forall|i: int| 0 <= i < m.sprites@.len() ==> #[trigger] m.sprites@[i] == sprite_at(d, map_sprites_count_pos(d) + 2 + 44 * i))
            },
    {
        let len = data.len();
        if len < 22 {
            return Err(MapError::UnexpectedEof);
        }
        let version = get_i32(data, 0);
        let posx = get_i32(data, 4);
        let posy = get_i32(data, 8);
        let posz = get_i32(data, 12);
        let ang = get_i16(data, 16);
        let cursectnum = get_i16(data, 18);
        let numsectors = get_i16(data, 20);
        if numsectors < 0 || numsectors > 4096 {
            return Err(MapError::InvalidSectorCount(numsectors));
        }
        let ns = numsectors as usize;
        let mut sectors: Vec<Sector> = Vec::new();
        let mut pos: usize = 22;
        let mut i: usize = 0;
        while i < ns
            invariant
                len == data@.len(),
                ns == map_num_sectors(data@),
                0 <= ns <= 4096,
                len >= 22,
                i <= ns,
                pos <= len,
                pos == 22 + 40 * i,
                sectors@.len() == i,
                forall|j: int| 0 <= j < i ==> #[trigger] sectors@[j] == sector_at(data@, 22 + 40 * j),
            decreases ns - i,
        {
            if pos > len || 40 > len - pos {
                return Err(MapError::UnexpectedEof);
            }
            sectors.push(read_sector(data, pos));
            pos += 40;
            i += 1;
        }
        if pos > len || 2 > len - pos {
            return Err(MapError::UnexpectedEof);
        }
        let numwalls = get_i16(data, pos);
        if numwalls < 0 || numwalls > 16384 {
            return Err(MapError::InvalidWallCount(numwalls));
        }
        pos += 2;
        let nw = numwalls as usize;
        let ghost wbase = pos as int;
        let mut walls: Vec<Wall> = Vec::new();
        let mut i: usize = 0;
        while i < nw
            invariant
                len == data@.len(),
                wbase == map_walls_count_pos(data@) + 2,
                nw == map_num_walls(data@),
                0 <= nw <= 16384,
                len >= 22,
                0 <= map_num_sectors(data@) <= 4096,
                len >= map_walls_count_pos(data@) + 2,
                i <= nw,
                pos <= len,
                pos == wbase + 32 * i,
                walls@.len() == i,
                forall|j: int| 0 <= j < i ==> #[trigger] walls@[j] == wall_at(data@, wbase + 32 * j),
            decreases nw - i,
        {
            if pos > len || 32 > len - pos {
                return Err(MapError::UnexpectedEof);
            }
            walls.push(read_wall(data, pos));
            pos += 32;
            i += 1;
        }
        if pos > len || 2 > len - pos {
            return Err(MapError::UnexpectedEof);
        }
        let numsprites = get_i16(data, pos);
        if numsprites < 0 || numsprites > 16384 {
            return Err(MapError::InvalidSpriteCount(numsprites));
        }
        pos += 2;
        let nsp = numsprites as usize;
        let ghost sbase = pos as int;
        let mut sprites: Vec<Sprite> = Vec::new();
        let mut i: usize = 0;
        while i < nsp
            invariant
                len == data@.len(),
                sbase == map_sprites_count_pos(data@) + 2,
                nsp == map_num_sprites(data@),
                0 <= nsp <= 16384,
                len >= 22,
                0 <= map_num_sectors(data@) <= 4096,
                len >= map_walls_count_pos(data@) + 2,
                0 <= map_num_walls(data@) <= 16384,
                len >= map_sprites_count_pos(data@) + 2,
                i <= nsp,
                pos <= len,
                pos == sbase + 44 * i,
                sprites@.len() == i,
                forall|j: int| 0 <= j < i ==> #[trigger] sprites@[j] == sprite_at(data@, sbase + 44 * j),
            decreases nsp - i,
        {
            if pos > len || 44 > len - pos {
                return Err(MapError::UnexpectedEof);
            }
            sprites.push(read_sprite(data, pos));
            pos += 44;
            i += 1;
        }
        Ok(BuildMap { version, posx, posy, posz, ang, cursectnum, sectors, walls, sprites })
    }
}

impl Sector {
    pub fn is_ceiling_parallax(&self) -> (r: bool)
        ensures
            r == ((self.ceilingstat & 1) != 0),
    {
        (self.ceilingstat & 1) != 0
    }

    pub fn is_floor_parallax(&self) -> (r: bool)
        ensures
            r == ((self.floorstat & 1) != 0),
    {
        (self.floorstat & 1) != 0
    }

    pub fn is_ceiling_sloped(&self) -> (r: bool)
        ensures
            r == ((self.ceilingstat & 2) != 0),
    {
        (self.ceilingstat & 2) != 0
    }

    pub fn is_floor_sloped(&self) -> (r: bool)
        ensures
            r == ((self.floorstat & 2) != 0),
    {
        (self.floorstat & 2) != 0
    }

    /// The edge a sloped floor (or ceiling) tilts about: the sector's first
    /// wall and the wall it runs to. `None` when the plane is flat, the
    /// sector has no walls, either wall index is outside `walls`, or the
    /// two points coincide; the height is then the plane's own.
    pub fn slope_edge(&self, walls: &[Wall], ceiling: bool) -> (r: Option<(Wall, Wall)>)
        ensures
            ({
                let sloped = if ceiling { (self.ceilingstat & 2) != 0 } else { (self.floorstat & 2) != 0 };
                let i = self.wallptr as int;
                if !sloped || self.wallnum == 0 || i < 0 || i >= walls@.len() {
                    r is None
                } else {
                    let w = walls@[i];
                    let j = w.point2 as int;
                    if j < 0 || j >= walls@.len() || (walls@[j].x == w.x && walls@[j].y == w.y) {
                        r is None
                    } else {
                        r == Some((w, walls@[j]))
                    }
                }
            }),
    {
        let sloped = if ceiling { self.is_ceiling_sloped() } else { self.is_floor_sloped() };
        if !sloped || self.wallnum == 0 || self.wallptr < 0 || self.wallptr as usize >= walls.len() {
            return None;
        }
        let w = walls[self.wallptr as usize];
        if w.point2 < 0 || w.point2 as usize >= walls.len() {
            return None;
        }
        let w2 = walls[w.point2 as usize];
        if w2.x == w.x && w2.y == w.y {
            return None;
        }
        Some((w, w2))
    }
}

impl Wall {
    /// A two-sided wall: it names both a neighbouring sector and wall.
    pub fn is_portal(&self) -> (r: bool)
        ensures
            r == (self.nextsector >= 0 && self.nextwall >= 0),
    {
        self.nextsector >= 0 && self.nextwall >= 0
    }

    pub fn is_blocking(&self) -> (r: bool)
        ensures
            r == ((self.cstat & 1) != 0),
    {
        (self.cstat & 1) != 0
    }

    pub fn bottoms_swapped(&self) -> (r: bool)
        ensures
            r == ((self.cstat & 2) != 0),
    {
        (self.cstat & 2) != 0
    }

    pub fn align_bottom(&self) -> (r: bool)
        ensures
            r == ((self.cstat & 4) != 0),
    {
        (self.cstat & 4) != 0
    }

    pub fn is_x_flipped(&self) -> (r: bool)
        ensures
            r == ((self.cstat & 8) != 0),
    {
        (self.cstat & 8) != 0
    }

    pub fn is_masked(&self) -> (r: bool)
        ensures
            r == ((self.cstat & 16) != 0),
    {
        (self.cstat & 16) != 0
    }

    pub fn is_one_way(&self) -> (r: bool)
        ensures
            r == ((self.cstat & 32) != 0),
    {
        (self.cstat & 32) != 0
    }

    pub fn is_translucent(&self) -> (r: bool)
        ensures
            r == ((self.cstat & 128) != 0),
    {
        (self.cstat & 128) != 0
    }

    pub fn is_y_flipped(&self) -> (r: bool)
        ensures
            r == ((self.cstat & 256) != 0),
    {
        (self.cstat & 256) != 0
    }
}

/// The tile of the lower part of a two-sided wall: its own when the
/// bottoms are swapped, else that of the wall on the other side (its own
/// when that index is out of range).
pub open spec fn lower_wall_tile(w: Wall, walls: Seq<Wall>) -> i16 {
    if (w.cstat & 2) != 0 { w.picnum }
    else if (w.nextwall as usize) < walls.len() { walls[(w.nextwall as usize) as int].picnum }
    else { w.picnum }
}

pub fn lower_wall_picnum(w: &Wall, walls: &Vec<Wall>) -> (p: i16)
    ensures
        p == lower_wall_tile(*w, walls@),
{
    if w.bottoms_swapped() {
        w.picnum
    } else if (w.nextwall as usize) < walls.len() {
        walls[w.nextwall as usize].picnum
    } else {
        w.picnum
    }
}

/// The tile of a masked middle wall: its overlay tile when it has one.
pub fn masked_wall_picnum(w: &Wall) -> (p: i16)
    ensures
        p == (if w.overpicnum != 0 { w.overpicnum } else { w.picnum }),
{
    if w.overpicnum != 0 { w.overpicnum } else { w.picnum }
}

/// A wall piece drawn with `picnum` is hidden when it has no vertical
/// repeat or shows one of the invisible blocking tiles 79, 89 and 97.
pub fn wall_piece_hidden(w: &Wall, picnum: i16) -> (h: bool)
    ensures
        h == (w.yrepeat == 0 || picnum == 79 || picnum == 89 || picnum == 97),
{
    w.yrepeat == 0 || picnum == 79 || picnum == 89 || picnum == 97
}

} // verus!
