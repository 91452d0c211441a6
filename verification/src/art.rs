//! TILES###.ART: tile headers, 8-bit column-major pixels, and the
//! animation bitfield (PICANM).
use vstd::prelude::*;
use vstd::arithmetic::power2::{pow2, lemma_pow2_pos};
use vstd::arithmetic::div_mod::{lemma_hoist_over_denominator, lemma_mod_add_multiples_vanish, lemma_add_mod_noop,
    lemma_small_mod, lemma_mod_self_0, lemma_mod_sub_multiples_vanish};
use vstd::bits::lemma_u32_shr_is_div;
use crate::palette::Palette;
use crate::reader::{le_u16, le_u32, signed8, copy_range, u16_from_le, u32_from_le, to_signed8};
use crate::text::{chars_of, to_uppercase, uppercase, starts_with, ends_with, chars_starts_with, chars_ends_with};

verus! {

#[derive(Debug, Clone, Copy, PartialEq, Eq, Default)]
pub struct PicAnm {
    pub num_frames: u8,
    pub anim_type: u8,
    pub x_offset: i8,
    pub y_offset: i8,
    pub speed: u8,
}

impl PicAnm {
    /// The fields packed in a PICANM word: frames in bits 0..5, type in
    /// bits 6..7, signed x/y offsets in bytes 1 and 2, speed in bits 24..27.
    pub open spec fn spec_from_u32(raw: u32) -> PicAnm {
        PicAnm {
            num_frames: (raw % 64) as u8,
            anim_type: ((raw / 64) % 4) as u8,
            x_offset: signed8(((raw / 256) % 256) as u8),
            y_offset: signed8(((raw / 65536) % 256) as u8),
            speed: ((raw / 16777216) % 16) as u8,
        }
    }

    /// The frame offset at engine clock `clock` (120 Hz): the clock divided
    /// by 2^speed, then ping-pong over 0..=n (type 1), forward 0..=n (type 2)
    /// or backward 0..=-n (type 3).
    pub open spec fn frame_offset(self, clock: u32) -> int {
        if self.num_frames == 0 || self.anim_type == 0 {
            0
        } else {
            let i = (clock >> (self.speed as u32)) as int;
            let n = self.num_frames as int;
            if self.anim_type == 1 {
                let k = i % (2 * n);
                if k <= n { k } else { 2 * n - k }
            } else if self.anim_type == 2 {
                i % (n + 1)
            } else if self.anim_type == 3 {
                -(i % (n + 1))
            } else {
                0
            }
        }
    }

    pub fn from_u32(raw: u32) -> (r: Self)
        ensures
            r == Self::spec_from_u32(raw),
    {
        PicAnm {
            num_frames: (raw % 64) as u8,
            anim_type: ((raw / 64) % 4) as u8,
            x_offset: to_signed8(((raw / 256) % 256) as u8),
            y_offset: to_signed8(((raw / 65536) % 256) as u8),
            speed: ((raw / 16777216) % 16) as u8,
        }
    }

    /// The number of animation steps after which the frame offset repeats:
    /// 2n for ping-pong, n + 1 for the forward and backward loops.
    pub open spec fn frame_period(self) -> int {
        if self.anim_type == 1 { 2 * self.num_frames } else { self.num_frames + 1 }
    }

    /// The frame offset is periodic in the clock: advancing the clock by one
    /// period of steps, each 2^speed ticks long, gives the same frame.
    pub proof fn lemma_frame_offset_periodic(self, clock: u32, later: u32)
        requires
            self.speed < 32,
            later == clock + self.frame_period() * pow2(self.speed as nat),
        ensures
            self.frame_offset(later) == self.frame_offset(clock),
    {
        if self.num_frames != 0 && self.anim_type != 0 {
            let d = pow2(self.speed as nat);
            let p = self.frame_period();
            lemma_pow2_pos(self.speed as nat);
            lemma_u32_shr_is_div(clock, self.speed as u32);
            lemma_u32_shr_is_div(later, self.speed as u32);
            lemma_hoist_over_denominator(clock as int, p, d);
            let i = clock as int / d as int;
            assert((later >> (self.speed as u32)) as int == i + p);
            lemma_mod_add_multiples_vanish(i, p);
            assert((i + p) % p == (p + i) % p);
        }
    }


    /// Ping-pong animation runs one frame at a time: whenever the clock
    /// moves on by one animation step (2^speed ticks), the frame offset goes
    /// up or down by exactly one.
    pub proof fn lemma_pingpong_steps_by_one(self, clock: u32, next: u32)
        requires
            self.anim_type == 1,
            self.num_frames > 0,
            (next >> (self.speed as u32)) as int == (clock >> (self.speed as u32)) as int + 1,
        ensures
            self.frame_offset(next) - self.frame_offset(clock) == 1
                || self.frame_offset(clock) - self.frame_offset(next) == 1,
    {
        let n = self.num_frames as int;
        let m = 2 * n;
        let i = (clock >> (self.speed as u32)) as int;
        let k = i % m;
        lemma_add_mod_noop(i, 1, m);
        lemma_small_mod(1, m as nat);
        assert(0 <= k < m);
        if k + 1 < m {
            lemma_small_mod((k + 1) as nat, m as nat);
        } else {
            assert((k + 1) % m == 0) by {
                lemma_mod_self_0(m);
            }
        }
    }

    /// A forward loop counts up one frame per animation step and wraps from
    /// its last frame `n` back to 0.
    pub proof fn lemma_forward_loop_steps(self, clock: u32, next: u32)
        requires
            self.anim_type == 2,
            self.num_frames > 0,
            (next >> (self.speed as u32)) as int == (clock >> (self.speed as u32)) as int + 1,
        ensures
            self.frame_offset(next) == (if self.frame_offset(clock) == self.num_frames { 0 } else { self.frame_offset(clock) + 1 }),
            0 <= self.frame_offset(clock) <= self.num_frames,
    {
        let m = self.num_frames as int + 1;
        let i = (clock >> (self.speed as u32)) as int;
        let k = i % m;
        lemma_add_mod_noop(i, 1, m);
        lemma_small_mod(1, m as nat);
        if k + 1 < m {
            lemma_small_mod((k + 1) as nat, m as nat);
        } else {
            lemma_mod_self_0(m);
        }
    }

    /// A backward loop runs through the same frames as the forward loop,
    /// negated: 0, -1, ..., -n, 0, ...
    pub proof fn lemma_backward_mirrors_forward(self, clock: u32)
        requires
            self.anim_type == 3,
        ensures
            self.frame_offset(clock) == -(PicAnm { anim_type: 2, ..self }).frame_offset(clock),
    {
    }

    /// Ping-pong animation is symmetric: the offset at step `i` equals the
    /// offset at step `2n - i` (steps taken modulo the period `2n`), so the
    /// way back retraces the way up.
    pub proof fn lemma_pingpong_symmetric(self, clock: u32, mirror: u32)
        requires
            self.anim_type == 1,
            self.num_frames > 0,
            ((clock >> (self.speed as u32)) as int + (mirror >> (self.speed as u32)) as int) % (2 * self.num_frames as int) == 0,
        ensures
            self.frame_offset(mirror) == self.frame_offset(clock),
    {
        let n = self.num_frames as int;
        let m = 2 * n;
        let i = (clock >> (self.speed as u32)) as int;
        let j = (mirror >> (self.speed as u32)) as int;
        let a = i % m;
        let b = j % m;
        lemma_add_mod_noop(i, j, m);
        assert(0 <= a < m && 0 <= b < m);
        assert((a + b) % m == 0);
        if a + b != 0 && a + b != m {
            assert(0 < a + b < 2 * m);
            if a + b < m {
                lemma_small_mod((a + b) as nat, m as nat);
            } else {
                lemma_mod_sub_multiples_vanish(a + b, m);
                lemma_small_mod((a + b - m) as nat, m as nat);
            }
        }
    }

    /// Calculate the frame offset given a 120 Hz engine clock counter.
    pub fn get_frame_offset(&self, clock_120hz: u32) -> (r: i32)
        requires
            self.num_frames != 0 && self.anim_type != 0 ==> self.speed < 32,
        ensures
            r == self.frame_offset(clock_120hz),
            self.anim_type != 3 ==> 0 <= r <= self.num_frames,
            self.anim_type == 3 ==> -(self.num_frames as int) <= r <= 0,
    {
        if self.num_frames == 0 || self.anim_type == 0 {
            return 0;
        }
        let i: u32 = clock_120hz >> (self.speed as u32);
        let n: u32 = self.num_frames as u32;
        match self.anim_type {
            1 => {
                let period = n * 2;
                let k = i % period;
                if k <= n {
                    k as i32
                } else {
                    (period - k) as i32
                }
            },
            2 => (i % (n + 1)) as i32,
            3 => -((i % (n + 1)) as i32),
            _ => 0,
        }
    }
}

#[derive(Debug)]
pub struct Tile {
    pub width: u32,
    pub height: u32,
    pub picanm: PicAnm,
    pub data: Vec<u8>,
}

#[derive(Debug)]
pub struct Art {
    pub tiles: Vec<Option<Tile>>,
    pub local_tile_start: u32,
    pub local_tile_end: u32,
}

/// The errors of ART decoding.
#[derive(Debug, Clone, Copy, PartialEq, Eq)]
pub enum ArtError {
    /// Fewer than the 16 header bytes.
    TooShort,
    /// A tile's pixels run past the end of the data.
    Truncated,
}

/// Number of tiles the header of `data` declares (end - start + 1).
pub open spec fn art_tile_count(data: Seq<u8>) -> int {
    le_u32(data, 12) - le_u32(data, 8) + 1
}

pub open spec fn art_tile_width(data: Seq<u8>, i: int) -> u32 {
    le_u16(data, 16 + 8 * i) as u32
}

pub open spec fn art_tile_height(data: Seq<u8>, i: int) -> u32 {
    le_u16(data, 16 + 8 * i + 2) as u32
}

pub open spec fn art_tile_picanm(data: Seq<u8>, i: int) -> PicAnm {
    PicAnm::spec_from_u32(le_u32(data, 16 + 8 * i + 4))
}

/// Where the pixels of tile `i` begin: after the `n` 8-byte headers and the
/// pixels of tiles `0..i`.
pub open spec fn art_pixel_offset(data: Seq<u8>, n: int, i: int) -> int
    decreases i,
{
    if i <= 0 {
        16 + 8 * n
    } else {
        art_pixel_offset(data, n, i - 1) + art_tile_width(data, i - 1) * art_tile_height(data, i - 1)
    }
}

/// `t` is tile `i` of the `n` tiles in `data`.
pub open spec fn art_tile_is(t: Option<Tile>, data: Seq<u8>, n: int, i: int) -> bool {
    match t {
        Some(t) => {
            let off = art_pixel_offset(data, n, i);
            &&& t.width == art_tile_width(data, i)
            &&& t.height == art_tile_height(data, i)
            &&& t.picanm == art_tile_picanm(data, i)
            &&& t.data@ == data.subrange(off, off + t.width * t.height)
        },
        None => false,
    }
}

/// What `Art::from_bytes` needs to decode the header without failing: the
/// tile range is not reversed and all tile headers are present.
pub open spec fn art_header_ok(data: Seq<u8>) -> bool {
    data.len() >= 16 ==> {
        &&& le_u32(data, 8) <= le_u32(data, 12)
        &&& 16 + 8 * art_tile_count(data) <= data.len()
    }
}

proof fn lemma_pixel_offset_mono(data: Seq<u8>, n: int, i: int, j: int)
    requires
        0 <= i <= j,
    ensures
        art_pixel_offset(data, n, i) <= art_pixel_offset(data, n, j),
    decreases j - i,
{
    if i < j {
        lemma_pixel_offset_mono(data, n, i, j - 1);
        assert(art_tile_width(data, j - 1) * art_tile_height(data, j - 1) >= 0) by (nonlinear_arith)
            requires art_tile_width(data, j - 1) >= 0, art_tile_height(data, j - 1) >= 0;
    }
}

proof fn lemma_index_in_tile(x: int, y: int, w: int, h: int)
    requires
        0 <= x < w,
        0 <= y < h,
    ensures
        0 <= x * h + y < w * h,
        0 <= y * w + x < w * h,
        (y * w + x) * 4 + 3 < w * h * 4,
{
    assert(0 <= x * h + y < w * h) by (nonlinear_arith)
        requires 0 <= x < w, 0 <= y < h;
    assert(0 <= y * w + x < w * h) by (nonlinear_arith)
        requires 0 <= x < w, 0 <= y < h;
    assert((y * w + x) * 4 + 3 < w * h * 4) by (nonlinear_arith)
        requires 0 <= y * w + x < w * h;
}

proof fn lemma_pixels_distinct(x1: int, y1: int, x2: int, y2: int, w: int)
    requires
        0 <= x1 < w,
        0 <= x2 < w,
        0 <= y1,
        0 <= y2,
        x1 != x2 || y1 != y2,
    ensures
        y1 * w + x1 != y2 * w + x2,
{
    if y1 == y2 {
    } else if y1 < y2 {
        assert(y1 * w + x1 < y2 * w + x2) by (nonlinear_arith)
            requires y1 < y2, 0 <= x1 < w, 0 <= x2;
    } else {
        assert(y2 * w + x2 < y1 * w + x1) by (nonlinear_arith)
            requires y2 < y1, 0 <= x2 < w, 0 <= x1;
    }
}

/// The RGBA image of a tile: pixel (x, y) of the column-major source,
/// looked up in `table`, lands at row-major position (y * width + x).
pub open spec fn is_tile_rgba(v: Seq<u8>, t: Tile, colors: Seq<Seq<u8>>) -> bool {
    &&& v.len() == t.width * t.height * 4
    &&& forall|x: int, y: int, c: int| 0 <= x < t.width && 0 <= y < t.height && 0 <= c < 4
        ==> #[trigger] v[(y * t.width + x) * 4 + c] == colors[t.data@[x * t.height + y] as int][c]
}

/// A colour table as 256 RGBA sequences.
pub open spec fn table_view(table: [[u8; 4]; 256]) -> Seq<Seq<u8>> {
    Seq::new(256, |i: int| table@[i]@)
}

/// The 256 colours of `palette` under swap `pal_id` at shade 0.
pub open spec fn swapped_colors(palette: Palette, pal_id: u8) -> Seq<Seq<u8>> {
    Seq::new(256, |i: int| palette.spec_get_color(i as u8, pal_id, 0))
}

/// A tile that can be converted: its RGBA size fits in `u32` and its pixel
/// data covers width * height bytes.
pub open spec fn tile_convertible(t: Tile) -> bool {
    &&& t.width * t.height * 4 <= u32::MAX
    &&& t.data@.len() >= t.width * t.height
}

/// Converts a column-major 8-bit tile into row-major RGBA through `table`.
fn tile_to_rgba(tile: &Tile, table: &[[u8; 4]; 256]) -> (v: Vec<u8>)
    requires
        tile_convertible(*tile),
    ensures
        is_tile_rgba(v@, *tile, table_view(*table)),
{
    let w = tile.width;
    let h = tile.height;
    proof {
        assert(w * h <= w * h * 4) by (nonlinear_arith) requires w * h >= 0;
    }
    let total: u32 = w * h * 4;
    let mut rgba: Vec<u8> = vec![0u8; total as usize];
    let ghost tbl = table_view(*table);
    let mut x: u32 = 0;
    while x < w
        invariant
            w == tile.width,
            h == tile.height,
            tile_convertible(*tile),
            total == w * h * 4,
            tbl == table_view(*table),
            x <= w,
            rgba@.len() == total,
            forall|x2: int, y2: int, c: int| 0 <= x2 < x && 0 <= y2 < h && 0 <= c < 4
                ==> #[trigger] rgba@[(y2 * w + x2) * 4 + c] == tbl[tile.data@[x2 * h + y2] as int][c],
        decreases w - x,
    {
        let mut y: u32 = 0;
        while y < h
            invariant
                w == tile.width,
                h == tile.height,
                tile_convertible(*tile),
                total == w * h * 4,
                tbl == table_view(*table),
                x < w,
                y <= h,
                rgba@.len() == total,
                forall|x2: int, y2: int, c: int| 0 <= c < 4 && 0 <= y2 < h && 0 <= x2 < w
                    && (x2 < x || (x2 == x && y2 < y))
                    ==> #[trigger] rgba@[(y2 * w + x2) * 4 + c] == tbl[tile.data@[x2 * h + y2] as int][c],
            decreases h - y,
        {
            proof {
                lemma_index_in_tile(x as int, y as int, w as int, h as int);
            }
            let src_idx = (x * h + y) as usize;
            let pal_idx = tile.data[src_idx];
            let color = table[pal_idx as usize];
            let dst = ((y * w + x) * 4) as usize;
            let ghost before = rgba@;
            rgba.set(dst, color[0]);
            rgba.set(dst + 1, color[1]);
            rgba.set(dst + 2, color[2]);
            rgba.set(dst + 3, color[3]);
            proof {
                assert forall|x2: int, y2: int, c: int| 0 <= c < 4 && 0 <= y2 < h && 0 <= x2 < w
                    && (x2 < x || (x2 == x && y2 < y + 1))
                    implies #[trigger] rgba@[(y2 * w + x2) * 4 + c] == tbl[tile.data@[x2 * h + y2] as int][c] by {
                    lemma_index_in_tile(x2, y2, w as int, h as int);
                    if x2 == x && y2 == y {
                        assert((y2 * w + x2) * 4 + c == dst + c);
                        assert(pal_idx == tile.data@[x2 * h + y2]);
                        assert(color@ == table@[pal_idx as int]@);
                        if c == 0 {
                            assert(rgba@[dst as int] == color@[0]);
                        } else if c == 1 {
                            assert(rgba@[dst + 1] == color@[1]);
                        } else if c == 2 {
                            assert(rgba@[dst + 2] == color@[2]);
                        } else {
                            assert(rgba@[dst + 3] == color@[3]);
                        }
                    } else {
                        lemma_pixels_distinct(x2, y2, x as int, y as int, w as int);
                        let a = y2 * w + x2;
                        let b = y * w + x;
                        assert(a * 4 + c != b * 4 + 0 && a * 4 + c != b * 4 + 1 && a * 4 + c != b * 4 + 2
                            && a * 4 + c != b * 4 + 3);
                        assert(rgba@[a * 4 + c] == before[a * 4 + c]);
                    }
                }
            }
            y += 1;
        }
        x += 1;
    }
    rgba
}

impl Art {
    /// The tile that global index `tile_index` names, if this file holds it.
    pub open spec fn tile_at(self, tile_index: u32) -> Option<Tile> {
        if tile_index < self.local_tile_start || tile_index > self.local_tile_end {
            None
        } else {
            let li = tile_index - self.local_tile_start;
            if li < self.tiles@.len() { self.tiles@[li] } else { None }
        }
    }

    /// Decodes an ART file: a 16-byte header (version, count, first and last
    /// tile index), `n` tile headers (u16 width, u16 height, u32 PICANM),
    /// then each tile's width * height pixel bytes in turn.
    pub fn from_bytes(data: &[u8]) -> (res: Result<Self, ArtError>)
        requires
            art_header_ok(data@),
        ensures
            data@.len() < 16 <==> res == Err::<Self, ArtError>(ArtError::TooShort),
            data@.len() >= 16 ==> (res == Err::<Self, ArtError>(ArtError::Truncated)
                <==> art_pixel_offset(data@, art_tile_count(data@), art_tile_count(data@)) > data@.len()),
            res matches Ok(art) ==> {
                let n = art_tile_count(data@);
                &&& art.local_tile_start == le_u32(data@, 8)
                &&& art.local_tile_end == le_u32(data@, 12)
                &&& art.tiles@.len() == n
                &&& forall|i: int| 0 <= i < n ==> art_tile_is(#[trigger] art.tiles@[i], data@, n, i)
            },
    {
        if data.len() < 16 {
            return Err(ArtError::TooShort);
        }
        let local_tile_start = u32_from_le(data[8], data[9], data[10], data[11]);
        let local_tile_end = u32_from_le(data[12], data[13], data[14], data[15]);
        let num_local: usize = (local_tile_end - local_tile_start) as usize + 1;
        let ghost n = art_tile_count(data@);
        let len = data.len();
        let mut headers: Vec<(u32, u32, PicAnm)> = Vec::new();
        let mut offset: usize = 16;
        let mut i: usize = 0;
        while i < num_local
            invariant
                num_local == n,
                len == data@.len(),
                16 + 8 * n <= len,
                i <= num_local,
                offset == 16 + 8 * i,
                headers@.len() == i,
                forall|j: int| 0 <= j < i ==> #[trigger] headers@[j] == (art_tile_width(data@, j), art_tile_height(data@, j), art_tile_picanm(data@, j)),
            decreases num_local - i,
        {
            let width = u16_from_le(data[offset], data[offset + 1]) as u32;
            let height = u16_from_le(data[offset + 2], data[offset + 3]) as u32;
            let raw = u32_from_le(data[offset + 4], data[offset + 5], data[offset + 6], data[offset + 7]);
            headers.push((width, height, PicAnm::from_u32(raw)));
            offset += 8;
            i += 1;
        }
        let mut tiles: Vec<Option<Tile>> = Vec::new();
        let mut k: usize = 0;
        while k < num_local
            invariant
                num_local == n,
                n == art_tile_count(data@),
                len == data@.len(),
                16 <= len,
                k <= num_local,
                headers@.len() == n,
                forall|j: int| 0 <= j < n ==> #[trigger] headers@[j] == (art_tile_width(data@, j), art_tile_height(data@, j), art_tile_picanm(data@, j)),
                offset == art_pixel_offset(data@, n, k as int),
                offset <= len,
                tiles@.len() == k,
                forall|j: int| 0 <= j < k ==> art_tile_is(#[trigger] tiles@[j], data@, n, j),
            decreases num_local - k,
        {
            let (width, height, picanm) = headers[k];
            proof {
                assert(width * height <= 0xffff * 0xffff) by (nonlinear_arith)
                    requires width <= 0xffff, height <= 0xffff;
            }
            let size = (width * height) as usize;
            if size > len - offset {
                proof {
                    assert(art_pixel_offset(data@, n, k as int + 1) == offset + size);
                    lemma_pixel_offset_mono(data@, n, k as int + 1, n);
                    assert(art_pixel_offset(data@, n, n) > data@.len());
                    assert(n == art_tile_count(data@));
                }
                return Err(ArtError::Truncated);
            }
            let tile_data = copy_range(data, offset, offset + size);
            tiles.push(Some(Tile { width, height, picanm, data: tile_data }));
            offset += size;
            k += 1;
        }
        Ok(Art { tiles, local_tile_start, local_tile_end })
    }

    /// The tile as RGBA (row-major), each pixel looked up in `palette`.
    pub fn get_tile_rgba(&self, tile_index: u32, palette: &[[u8; 4]; 256]) -> (res: Option<(u32, u32, Vec<u8>)>)
        requires
            self.tile_at(tile_index) matches Some(t) ==> tile_convertible(t),
        ensures
            self.tile_at(tile_index) is None <==> res is None,
            res matches Some((w, h, v)) ==> {
                let t = self.tile_at(tile_index)->0;
                &&& w == t.width
                &&& h == t.height
                &&& is_tile_rgba(v@, t, table_view(*palette))
            },
    {
        if tile_index < self.local_tile_start || tile_index > self.local_tile_end {
            return None;
        }
        let local_index = (tile_index - self.local_tile_start) as usize;
        if local_index >= self.tiles.len() {
            return None;
        }
        match &self.tiles[local_index] {
            Some(tile) => {
                let v = tile_to_rgba(tile, palette);
                Some((tile.width, tile.height, v))
            },
            None => None,
        }
    }

    /// The tile as RGBA with palette swap `pal_id` applied (shade 0).
    pub fn get_tile_rgba_with_pal(&self, tile_index: u32, palette: &Palette, pal_id: u8) -> (res: Option<(u32, u32, Vec<u8>)>)
        requires
            self.tile_at(tile_index) matches Some(t) ==> tile_convertible(t),
            palette.shade_bound_ok(),
        ensures
            self.tile_at(tile_index) is None <==> res is None,
            res matches Some((w, h, v)) ==> {
                let t = self.tile_at(tile_index)->0;
                &&& w == t.width
                &&& h == t.height
                &&& is_tile_rgba(v@, t, swapped_colors(*palette, pal_id))
            },
    {
        if tile_index < self.local_tile_start || tile_index > self.local_tile_end {
            return None;
        }
        let local_index = (tile_index - self.local_tile_start) as usize;
        if local_index >= self.tiles.len() {
            return None;
        }
        match &self.tiles[local_index] {
            Some(tile) => {
                let mut table = [[0u8; 4]; 256];
                let mut c: usize = 0;
                while c < 256
                    invariant
                        c <= 256,
                        palette.shade_bound_ok(),
                        forall|j: int| 0 <= j < c ==> #[trigger] table@[j]@ == palette.spec_get_color(j as u8, pal_id, 0),
                    decreases 256 - c,
                {
                    table[c] = palette.get_color(c as u8, pal_id, 0);
                    c += 1;
                }
                let v = tile_to_rgba(tile, &table);
                proof {
                    assert(table_view(table) =~= swapped_colors(*palette, pal_id));
                }
                Some((tile.width, tile.height, v))
            },
            None => None,
        }
    }

    /// The animation word of a tile index, as `get_picanm` returns it.
    pub open spec fn picanm_at(self, tile_index: u32) -> Option<PicAnm> {
        match self.tile_at(tile_index) {
            Some(t) => Some(t.picanm),
            None => None,
        }
    }

    /// A tile index has an animation word exactly when it has a picture
    /// (`get_tile_rgba` gives one under any palette), and the word is the
    /// one stored with that picture.
    pub proof fn lemma_picanm_with_picture(self, tile_index: u32)
        ensures
            self.picanm_at(tile_index) is Some <==> self.tile_at(tile_index) is Some,
            self.picanm_at(tile_index) matches Some(q) ==> q == self.tile_at(tile_index)->0.picanm,
    {
    }

    /// The animation field of a tile this file holds.
    pub fn get_picanm(&self, tile_index: u32) -> (res: Option<PicAnm>)
        ensures
            res == self.picanm_at(tile_index),
    {
        if tile_index < self.local_tile_start || tile_index > self.local_tile_end {
            return None;
        }
        let local_index = (tile_index - self.local_tile_start) as usize;
        if local_index >= self.tiles.len() {
            return None;
        }
        match &self.tiles[local_index] {
            Some(tile) => Some(tile.picanm),
            None => None,
        }
    }
}

/// Whether an archive entry holds tiles: its name, upper-cased, starts
/// with "TILES" and ends with ".ART".
pub fn is_tile_file(name: &str) -> (r: bool)
    ensures
        r == (starts_with(uppercase(name@), "TILES"@) && ends_with(uppercase(name@), ".ART"@)),
{
    let up = to_uppercase(name);
    let u = chars_of(up.as_str());
    let tiles = chars_of("TILES");
    let art = chars_of(".ART");
    chars_starts_with(u.as_slice(), tiles.as_slice()) && chars_ends_with(u.as_slice(), art.as_slice())
}

} // verus!
