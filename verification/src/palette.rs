//! The 256-colour palette (PALETTE.DAT), its shade tables and the
//! palette-swap lookups (LOOKUP.DAT).
use std::collections::HashMap;
use vstd::prelude::*;
use crate::reader::{le_u16, u16_from_le};

verus! {

broadcast use vstd::std_specs::hash::group_hash_axioms;

/// Converts a 6-bit VGA DAC intensity (0..63) to 8 bits; larger inputs wrap
/// modulo 256 as the `u8` conversion does.
pub open spec fn dac_to_8bit(b: u8) -> u8 {
    ((b as int * 255 / 63) % 256) as u8
}

/// Component `k` of colour `i` of the 768-byte RGB table starting at `base`:
/// the three DAC components, then alpha (0 for index 255, else 255).
pub open spec fn rgba_component(data: Seq<u8>, base: int, i: int, k: int) -> u8 {
    if k < 3 {
        dac_to_8bit(data[base + 3 * i + k])
    } else if i == 255 {
        0
    } else {
        255
    }
}

/// `table` is the colour table decoded from the 768 bytes at `base`.
pub open spec fn is_rgb_table(table: [[u8; 4]; 256], data: Seq<u8>, base: int) -> bool {
    forall|i: int, k: int| 0 <= i < 256 && 0 <= k < 4 ==> #[trigger] table@[i]@[k] == rgba_component(data, base, i, k)
}

/// The lookup tables as sequences.
pub open spec fn lookup_seqs(m: Map<u8, [u8; 256]>) -> Map<u8, Seq<u8>> {
    Map::new(|k: u8| m.dom().contains(k), |k: u8| m[k]@)
}

/// Number of complete lookup records (1 position byte + 256 remap bytes)
/// that LOOKUP.DAT `data` holds, capped by its count byte.
pub open spec fn lookup_record_count(data: Seq<u8>) -> int {
    let avail = (data.len() - 1) / 257;
    if (data[0] as int) < avail { data[0] as int } else { avail }
}

/// The lookup map after inserting the first `k` records of `data` into `m`.
pub open spec fn lookups_after(m: Map<u8, Seq<u8>>, data: Seq<u8>, k: int) -> Map<u8, Seq<u8>>
    decreases k,
{
    if k <= 0 {
        m
    } else {
        let off = 1 + 257 * (k - 1);
        lookups_after(m, data, k - 1).insert(data[off], data.subrange(off + 1, off + 257))
    }
}

/// The errors of palette decoding.
#[derive(Debug, Clone, Copy, PartialEq, Eq)]
pub enum PaletteError {
    /// Fewer than 768 bytes of palette data.
    TooShort,
    /// The lookup data is empty.
    EmptyLookup,
}

#[derive(Debug)]
pub struct Palette {
    pub colors: [[u8; 4]; 256],
    pub num_shades: u16,
    pub shade_tables: Vec<[u8; 256]>,
    pub lookups: HashMap<u8, [u8; 256]>,
    pub water_palette: Option<[[u8; 4]; 256]>,
    pub slime_palette: Option<[[u8; 4]; 256]>,
    pub title_palette: Option<[[u8; 4]; 256]>,
}

/// Decodes 768 RGB bytes at `base` into an RGBA colour table.
fn decode_rgb_table(data: &[u8], base: usize) -> (table: [[u8; 4]; 256])
    requires
        base + 768 <= data@.len(),
    ensures
        is_rgb_table(table, data@, base as int),
{
    let mut table = [[0u8; 4]; 256];
    let mut i: usize = 0;
    let n = data.len();
    while i < 256
        invariant
            i <= 256,
            n == data@.len(),
            base + 768 <= data@.len(),
            forall|j: int, k: int| 0 <= j < i && 0 <= k < 4 ==> #[trigger] table@[j]@[k] == rgba_component(data@, base as int, j, k),
        decreases 256 - i,
    {
        let r: u16 = (data[base + 3 * i] as u16 * 255 / 63) % 256;
        let g: u16 = (data[base + 3 * i + 1] as u16 * 255 / 63) % 256;
        let b: u16 = (data[base + 3 * i + 2] as u16 * 255 / 63) % 256;
        let a: u8 = if i == 255 { 0 } else { 255 };
        let entry: [u8; 4] = [r as u8, g as u8, b as u8, a];
        table[i] = entry;
        i += 1;
    }
    table
}

/// Copies the 256 bytes at `off` into an array.
fn read_table_256(data: &[u8], off: usize) -> (t: [u8; 256])
    requires
        off + 256 <= data@.len(),
    ensures
        t@ == data@.subrange(off as int, off + 256),
{
    let mut t = [0u8; 256];
    let mut i: usize = 0;
    let n = data.len();
    while i < 256
        invariant
            i <= 256,
            n == data@.len(),
            off + 256 <= data@.len(),
            forall|j: int| 0 <= j < i ==> #[trigger] t@[j] == data@[off + j],
        decreases 256 - i,
    {
        t[i] = data[off + i];
        i += 1;
    }
    assert(t@ =~= data@.subrange(off as int, off + 256));
    t
}

impl Palette {
    /// The highest shade row: `num_shades - 1` kept to its low byte (the
    /// bound a shade is clamped to).
    pub open spec fn shade_max(self) -> int {
        (if self.num_shades == 0 { 0int } else { self.num_shades - 1 }) % 256
    }

    /// `get_color` is defined on this palette: the shade bound, read as `i8`,
    /// is not negative whenever shade tables are present.
    pub open spec fn shade_bound_ok(self) -> bool {
        self.shade_tables@.len() > 0 ==> self.shade_max() < 128
    }

    pub open spec fn spec_remapped(self, color_idx: u8, pal_id: u8) -> u8 {
        if pal_id == 0 {
            color_idx
        } else if self.lookups@.contains_key(pal_id) {
            self.lookups@[pal_id]@[color_idx as int]
        } else {
            color_idx
        }
    }

    pub open spec fn spec_shaded(self, idx: u8, shade: i8) -> u8 {
        if self.shade_tables@.len() == 0 {
            idx
        } else {
            let s = if shade < 0 { 0int } else if shade > self.shade_max() { self.shade_max() } else { shade as int };
            if s < self.shade_tables@.len() {
                self.shade_tables@[s]@[idx as int]
            } else {
                idx
            }
        }
    }

    /// RGBA of palette index `color_idx` under palette swap `pal_id` and `shade`.
    pub open spec fn spec_get_color(self, color_idx: u8, pal_id: u8, shade: i8) -> Seq<u8> {
        if color_idx == 255 {
            seq![0u8, 0u8, 0u8, 0u8]
        } else {
            self.colors@[self.spec_shaded(self.spec_remapped(color_idx, pal_id), shade) as int]@
        }
    }

    /// A palette swap recolours before shading: looking a colour up under
    /// swap `pal_id` gives what looking up its swapped index gives without
    /// a swap, at every shade.
    pub proof fn lemma_swap_then_shade(self, color_idx: u8, pal_id: u8, shade: i8)
        requires
            color_idx != 255,
            pal_id != 0,
            self.lookups@.contains_key(pal_id),
            self.lookups@[pal_id]@[color_idx as int] != 255,
        ensures
            self.spec_get_color(color_idx, pal_id, shade)
                == self.spec_get_color(self.lookups@[pal_id]@[color_idx as int], 0, shade),
    {
    }

    /// Shades are clamped to the palette's range: a negative shade looks
    /// like shade 0, and a shade past the last row like the last row.
    pub proof fn lemma_shade_clamped(self, color_idx: u8, pal_id: u8, shade: i8)
        requires
            self.shade_bound_ok(),
        ensures
            shade < 0 ==> self.spec_get_color(color_idx, pal_id, shade) == self.spec_get_color(color_idx, pal_id, 0),
            shade > self.shade_max() ==> self.spec_get_color(color_idx, pal_id, shade)
                == self.spec_get_color(color_idx, pal_id, self.shade_max() as i8),
    {
    }

    /// The 6-bit VGA intensities scale onto the full 8-bit range: 0 stays
    /// 0, 63 becomes 255, and each step of the DAC is four or five steps of
    /// the 8-bit value.
    pub proof fn lemma_dac_scaling(v: u8)
        requires
            v <= 63,
        ensures
            4 * v <= dac_to_8bit(v) <= 4 * v + 3,
            v == 0 ==> dac_to_8bit(v) == 0,
            v == 63 ==> dac_to_8bit(v) == 255,
    {
        assert(v as int * 255 / 63 < 256 && 4 * v <= v as int * 255 / 63 <= 4 * v + 3) by (nonlinear_arith)
            requires v <= 63;
    }

    /// A swap that the palette does not hold changes no colour.
    pub proof fn lemma_unknown_swap(self, color_idx: u8, pal_id: u8, shade: i8)
        requires
            !self.lookups@.contains_key(pal_id),
        ensures
            self.spec_get_color(color_idx, pal_id, shade) == self.spec_get_color(color_idx, 0, shade),
    {
    }

    /// With no shade tables, or with shade tables that leave every index in
    /// place, an unswapped colour is the palette's own colour.
    pub proof fn lemma_plain_color(self, color_idx: u8, shade: i8)
        requires
            color_idx != 255,
            forall|k: int, i: int| 0 <= k < self.shade_tables@.len() && 0 <= i < 256
                ==> #[trigger] self.shade_tables@[k]@[i] == i,
        ensures
            self.spec_get_color(color_idx, 0, shade) == self.colors@[color_idx as int]@,
    {
        if self.shade_tables@.len() > 0 {
            let s = if shade < 0 { 0int } else if shade > self.shade_max() { self.shade_max() } else { shade as int };
            if s < self.shade_tables@.len() {
                assert(self.shade_tables@[s]@[color_idx as int] == color_idx);
            }
        }
    }

    /// Decodes PALETTE.DAT: 768 bytes of 6-bit RGB, then (optionally) a shade
    /// count and that many 256-byte shade tables.
    pub fn from_bytes(data: &[u8]) -> (res: Result<Self, PaletteError>)
        ensures
            data@.len() < 768 <==> res == Err::<Self, PaletteError>(PaletteError::TooShort),
            data@.len() >= 768 <==> res is Ok,
            res matches Ok(p) ==> {
                &&& is_rgb_table(p.colors, data@, 0)
                &&& p.num_shades == (if data@.len() >= 770 { le_u16(data@, 768) } else { 32u16 })
                &&& (data@.len() >= 770 && data@.len() >= 770 + 256 * le_u16(data@, 768)) ==> {
                    &&& p.shade_tables@.len() == le_u16(data@, 768)
                    &&& forall|k: int| 0 <= k < p.shade_tables@.len() ==> #[trigger] p.shade_tables@[k]@
                        == data@.subrange(770 + 256 * k, 770 + 256 * k + 256)
                }
                &&& !(data@.len() >= 770 && data@.len() >= 770 + 256 * le_u16(data@, 768)) ==> p.shade_tables@.len() == 0
                &&& p.lookups@ == Map::<u8, [u8; 256]>::empty()
                &&& p.water_palette is None
                &&& p.slime_palette is None
                &&& p.title_palette is None
            },
    {
        if data.len() < 768 {
            return Err(PaletteError::TooShort);
        }
        let colors = decode_rgb_table(data, 0);
        let mut num_shades: u16 = 32;
        let mut shade_tables: Vec<[u8; 256]> = Vec::new();
        if data.len() >= 770 {
            num_shades = u16_from_le(data[768], data[769]);
            let total: usize = num_shades as usize * 256;
            if data.len() >= 770 + total {
                let mut offset: usize = 770;
                let mut k: u16 = 0;
                while k < num_shades
                    invariant
                        k <= num_shades,
                        num_shades == le_u16(data@, 768),
                        data@.len() >= 770 + 256 * num_shades,
                        offset == 770 + 256 * k,
                        shade_tables@.len() == k,
                        forall|j: int| 0 <= j < k ==> #[trigger] shade_tables@[j]@
                            == data@.subrange(770 + 256 * j, 770 + 256 * j + 256),
                    decreases num_shades - k,
                {
                    let t = read_table_256(data, offset);
                    shade_tables.push(t);
                    offset += 256;
                    k += 1;
                }
            }
        }
        Ok(Palette {
            colors,
            num_shades,
            shade_tables,
            lookups: HashMap::new(),
            water_palette: None,
            slime_palette: None,
            title_palette: None,
        })
    }

    /// Decodes the 768-byte RGB table at `data[0..768]`.
    pub fn parse_768(data: &[u8]) -> (table: [[u8; 4]; 256])
        requires
            data@.len() >= 768,
        ensures
            is_rgb_table(table, data@, 0),
    {
        decode_rgb_table(data, 0)
    }

    /// Reads LOOKUP.DAT: a count byte, that many (position, 256-byte remap)
    /// records as far as they are complete, then up to three full-screen
    /// palettes (water, slime, title).
    pub fn load_lookups(&mut self, data: &[u8]) -> (res: Result<(), PaletteError>)
        ensures
            data@.len() == 0 <==> res == Err::<(), PaletteError>(PaletteError::EmptyLookup),
            data@.len() > 0 <==> res is Ok,
            res is Err ==> *final(self) == *old(self),
            res is Ok ==> {
                let m = lookup_record_count(data@);
                let off = 1 + 257 * m;
                &&& lookup_seqs(final(self).lookups@) == lookups_after(lookup_seqs(old(self).lookups@), data@, m)
                &&& final(self).colors == old(self).colors
                &&& final(self).num_shades == old(self).num_shades
                &&& final(self).shade_tables@ == old(self).shade_tables@
                &&& (off + 768 <= data@.len() ==> (final(self).water_palette matches Some(t) && is_rgb_table(t, data@, off)))
                &&& (off + 768 > data@.len() ==> final(self).water_palette == old(self).water_palette)
                &&& (off + 1536 <= data@.len() ==> (final(self).slime_palette matches Some(t) && is_rgb_table(t, data@, off + 768)))
                &&& (off + 1536 > data@.len() ==> final(self).slime_palette == old(self).slime_palette)
                &&& (off + 2304 <= data@.len() ==> (final(self).title_palette matches Some(t) && is_rgb_table(t, data@, off + 1536)))
                &&& (off + 2304 > data@.len() ==> final(self).title_palette == old(self).title_palette)
            },
    {
        if data.len() == 0 {
            return Err(PaletteError::EmptyLookup);
        }
        let num_lookups = data[0] as usize;
        let mut offset: usize = 1;
        let mut k: usize = 0;
        let ghost m0 = lookup_seqs(self.lookups@);
        while k < num_lookups
            invariant_except_break
                k <= num_lookups,
                num_lookups == data@[0] as int,
                offset == 1 + 257 * k,
                offset <= data@.len(),
                lookup_seqs(self.lookups@) == lookups_after(m0, data@, k as int),
                self.colors == old(self).colors,
                self.num_shades == old(self).num_shades,
                self.shade_tables@ == old(self).shade_tables@,
                self.water_palette == old(self).water_palette,
                self.slime_palette == old(self).slime_palette,
                self.title_palette == old(self).title_palette,
            ensures
                k as int == lookup_record_count(data@),
                offset == 1 + 257 * k,
                lookup_seqs(self.lookups@) == lookups_after(m0, data@, k as int),
                self.colors == old(self).colors,
                self.num_shades == old(self).num_shades,
                self.shade_tables@ == old(self).shade_tables@,
                self.water_palette == old(self).water_palette,
                self.slime_palette == old(self).slime_palette,
                self.title_palette == old(self).title_palette,
            decreases num_lookups - k,
        {
            if 257 > data.len() - offset {
                assert((data@.len() - 1) / 257 == k) by (nonlinear_arith)
                    requires data@.len() - 1 < 257 * k + 257, 257 * k <= data@.len() - 1;
                break;
            }
            let look_pos = data[offset];
            let remap = read_table_256(data, offset + 1);
            let ghost before = lookup_seqs(self.lookups@);
            self.lookups.insert(look_pos, remap);
            assert(lookup_seqs(self.lookups@) =~= before.insert(look_pos, remap@));
            offset += 257;
            k += 1;
        }
        proof {
            if k == num_lookups {
                assert((data@.len() - 1) / 257 >= k) by (nonlinear_arith)
                    requires 257 * k <= data@.len() - 1;
            }
        }
        if offset <= data.len() && 768 <= data.len() - offset {
            self.water_palette = Some(decode_rgb_table(data, offset));
            offset += 768;
        }
        if offset <= data.len() && 768 <= data.len() - offset {
            self.slime_palette = Some(decode_rgb_table(data, offset));
            offset += 768;
        }
        if offset <= data.len() && 768 <= data.len() - offset {
            self.title_palette = Some(decode_rgb_table(data, offset));
        }
        Ok(())
    }

    /// The palette index that `color_idx` becomes under swap `pal_id`
    /// (0 and unknown swaps leave it unchanged).
    pub fn get_remapped_color_index(&self, color_idx: u8, pal_id: u8) -> (r: u8)
        ensures
            r == self.spec_remapped(color_idx, pal_id),
    {
        if pal_id == 0 {
            color_idx
        } else {
            match self.lookups.get(&pal_id) {
                Some(lookup) => lookup[color_idx as usize],
                None => color_idx,
            }
        }
    }

    /// RGBA of `color_idx` after palette swap and shading; index 255 is
    /// fully transparent black.
    pub fn get_color(&self, color_idx: u8, pal_id: u8, shade: i8) -> (r: [u8; 4])
        requires
            color_idx == 255 || self.shade_bound_ok(),
        ensures
            r@ == self.spec_get_color(color_idx, pal_id, shade),
    {
        if color_idx == 255 {
            let z: [u8; 4] = [0, 0, 0, 0];
            assert(z@ =~= seq![0u8, 0u8, 0u8, 0u8]);
            return z;
        }
        let remapped = self.get_remapped_color_index(color_idx, pal_id);
        let shaded: u8 = if self.shade_tables.len() > 0 {
            let max_u: u16 = if self.num_shades == 0 { 0 } else { self.num_shades - 1 };
            let max: i16 = (max_u % 256) as i16;
            let s: i16 = if (shade as i16) < 0 { 0 } else if (shade as i16) > max { max } else { shade as i16 };
            let su = s as usize;
            if su < self.shade_tables.len() {
                self.shade_tables[su][remapped as usize]
            } else {
                remapped
            }
        } else {
            remapped
        };
        self.colors[shaded as usize]
    }
}

} // verus!
