//! DUKE.RTS: the remote-ridicule sound bank, a WAD-style lump directory.
use vstd::prelude::*;
use crate::reader::{le_i32, get_i32, copy_range};
use crate::text::{decode_field_name, field_name, to_uppercase, uppercase};

verus! {

#[derive(Debug, Clone)]
pub struct RtsLump {
    pub name: String,
    pub data: Vec<u8>,
}

/// The lumps by upper-cased name; a later lump of the same name replaces an
/// earlier one.
#[derive(Debug)]
pub struct DukeRts {
    pub lumps: Vec<RtsLump>,
}

/// The errors of RTS decoding.
#[derive(Debug, Clone, Copy, PartialEq, Eq)]
pub enum RtsError {
    /// Fewer than the 12 header bytes.
    TooShort,
    /// The lump directory runs past the end of the file.
    CorruptInfotable,
}

pub open spec fn rts_numlumps(d: Seq<u8>) -> i32 { le_i32(d, 4) }
pub open spec fn rts_infotable(d: Seq<u8>) -> i32 { le_i32(d, 8) }
pub open spec fn rts_entry(d: Seq<u8>, i: int) -> int { rts_infotable(d) + 16 * i }

/// The name of directory entry `i`: its 8 name bytes as text, upper-cased.
pub open spec fn rts_entry_name(d: Seq<u8>, i: int) -> Seq<char> {
    uppercase(field_name(d.subrange(rts_entry(d, i) + 8, rts_entry(d, i) + 16)))
}

/// Entry `i` names a lump that lies inside the file.
pub open spec fn rts_entry_valid(d: Seq<u8>, i: int) -> bool {
    let pos = le_i32(d, rts_entry(d, i));
    let size = le_i32(d, rts_entry(d, i) + 4);
    pos >= 0 && size >= 0 && pos + size <= d.len()
}

pub open spec fn rts_entry_data(d: Seq<u8>, i: int) -> Seq<u8> {
    let pos = le_i32(d, rts_entry(d, i)) as int;
    d.subrange(pos, pos + le_i32(d, rts_entry(d, i) + 4))
}

/// The lump table after the first `k` directory entries.
pub open spec fn rts_table(d: Seq<u8>, k: int) -> Map<Seq<char>, Seq<u8>>
    decreases k,
{
    if k <= 0 {
        Map::empty()
    } else if rts_entry_valid(d, k - 1) {
        rts_table(d, k - 1).insert(rts_entry_name(d, k - 1), rts_entry_data(d, k - 1))
    } else {
        rts_table(d, k - 1)
    }
}

/// The directory offset read as `usize`: a negative offset wraps to the top
/// of the address range.
pub open spec fn rts_infotable_usize(d: Seq<u8>) -> int {
    if rts_infotable(d) >= 0 { rts_infotable(d) as int } else { usize::MAX + 1 + rts_infotable(d) }
}

/// What `DukeRts::parse` needs so that its size arithmetic does not
/// overflow: a non-negative lump count whose directory size fits `usize`,
/// and the directory end (the offset read as `usize` plus that size) within
/// `usize`. A negative offset that passes this lies far past the end of any
/// slice (slices hold at most `isize::MAX` bytes), so the file is refused.
pub open spec fn rts_header_ok(d: Seq<u8>) -> bool {
    d.len() >= 12 ==> {
        &&& rts_numlumps(d) >= 0
        &&& 16 * rts_numlumps(d) <= usize::MAX
        &&& rts_infotable_usize(d) + 16 * rts_numlumps(d) <= usize::MAX
    }
}

impl DukeRts {
    pub open spec fn wf(self) -> bool {
        forall|i: int, j: int| 0 <= i < j < self.lumps@.len() ==> #[trigger] self.lumps@[i].name@ != #[trigger] self.lumps@[j].name@
    }

    /// The lumps as a map from name to data.
    pub open spec fn table(self) -> Map<Seq<char>, Seq<u8>> {
        Map::new(
            |n: Seq<char>| exists|i: int| 0 <= i < self.lumps@.len() && self.lumps@[i].name@ == n,
            |n: Seq<char>| self.lumps@[choose|i: int| 0 <= i < self.lumps@.len() && self.lumps@[i].name@ == n].data@,
        )
    }

    /// Stores `data` under `name`, replacing a lump of that name.
    fn insert_lump(&mut self, name: String, data: Vec<u8>)
        requires
            old(self).wf(),
        ensures
            final(self).wf(),
            final(self).table() == old(self).table().insert(name@, data@),
    {
        let n = self.lumps.len();
        let mut i: usize = 0;
        while i < n
            invariant
                n == self.lumps@.len(),
                i <= n,
                self.wf(),
                self.lumps@ == old(self).lumps@,
                forall|j: int| 0 <= j < i ==> self.lumps@[j].name@ != name@,
            decreases n - i,
        {
            if self.lumps[i].name == name {
                let ghost old_table = self.table();
                let ghost old_lumps = self.lumps@;
                let lump = RtsLump { name, data };
                self.lumps.set(i, lump);
                proof {
                    assert forall|a: int, b: int| 0 <= a < b < self.lumps@.len()
                        implies #[trigger] self.lumps@[a].name@ != #[trigger] self.lumps@[b].name@ by {
                        assert(old_lumps[a].name@ != old_lumps[b].name@);
                    }
                    assert forall|k: Seq<char>| #![auto] old_table.insert(name@, data@).dom().contains(k)
                        implies self.table().dom().contains(k) by {
                        if k != name@ {
                            let j = choose|j: int| 0 <= j < old_lumps.len() && old_lumps[j].name@ == k;
                            assert(self.lumps@[j].name@ == k);
                        } else {
                            assert(self.lumps@[i as int].name@ == k);
                        }
                    }
                    assert forall|k: Seq<char>| #![auto] self.table().dom().contains(k)
                        implies old_table.insert(name@, data@).dom().contains(k)
                        && self.table()[k] == old_table.insert(name@, data@)[k] by {
                        let j = choose|j: int| 0 <= j < self.lumps@.len() && self.lumps@[j].name@ == k;
                        if k != name@ {
                            assert(old_lumps[j].name@ == k);
                            let j2 = choose|j2: int| 0 <= j2 < old_lumps.len() && old_lumps[j2].name@ == k;
                            assert(j == j2);
                        } else {
                            assert(j == i);
                        }
                    }
                    assert(self.table() =~= old_table.insert(name@, data@));
                }
                return;
            }
            i += 1;
        }
        let ghost old_table = self.table();
        let ghost old_lumps = self.lumps@;
        let lump = RtsLump { name, data };
        self.lumps.push(lump);
        proof {
            assert forall|a: int, b: int| 0 <= a < b < self.lumps@.len()
                implies #[trigger] self.lumps@[a].name@ != #[trigger] self.lumps@[b].name@ by {
                if b < old_lumps.len() {
                    assert(old_lumps[a].name@ != old_lumps[b].name@);
                }
            }
            assert forall|k: Seq<char>| #![auto] old_table.insert(name@, data@).dom().contains(k)
                implies self.table().dom().contains(k) by {
                if k != name@ {
                    let j = choose|j: int| 0 <= j < old_lumps.len() && old_lumps[j].name@ == k;
                    assert(self.lumps@[j].name@ == k);
                } else {
                    assert(self.lumps@[n as int].name@ == k);
                }
            }
            assert forall|k: Seq<char>| #![auto] self.table().dom().contains(k)
                implies old_table.insert(name@, data@).dom().contains(k)
                && self.table()[k] == old_table.insert(name@, data@)[k] by {
                let j = choose|j: int| 0 <= j < self.lumps@.len() && self.lumps@[j].name@ == k;
                if k != name@ {
                    assert(j < n);
                    assert(old_lumps[j].name@ == k);
                    let j2 = choose|j2: int| 0 <= j2 < old_lumps.len() && old_lumps[j2].name@ == k;
                    assert(j == j2);
                } else {
                    assert(j == n);
                }
            }
            assert(self.table() =~= old_table.insert(name@, data@));
        }
    }

    /// Parses an RTS file: "IWAD"/"PWAD", lump count, directory offset, then
    /// 16-byte entries (position, size, 8-byte name). Lumps lying outside the
    /// file are skipped.
    pub fn parse(bytes: &[u8]) -> (res: Result<Self, RtsError>)
        requires
            rts_header_ok(bytes@),
        ensures
            bytes@.len() < 12 <==> res == Err::<Self, RtsError>(RtsError::TooShort),
            bytes@.len() >= 12 ==> (res == Err::<Self, RtsError>(RtsError::CorruptInfotable)
                <==> (rts_infotable(bytes@) < 0 || rts_infotable(bytes@) + 16 * rts_numlumps(bytes@) > bytes@.len())),
            res matches Ok(r) ==> r.wf() && r.table() == rts_table(bytes@, rts_numlumps(bytes@) as int),
    {
        let len = bytes.len();
        if len < 12 {
            return Err(RtsError::TooShort);
        }
        let numlumps = get_i32(bytes, 4);
        let infotable = get_i32(bytes, 8);
        if infotable < 0 {
            return Err(RtsError::CorruptInfotable);
        }
        let n = numlumps as usize;
        let base = infotable as usize;
        if base > len || n > (len - base) / 16 {
            return Err(RtsError::CorruptInfotable);
        }
        let mut rts = DukeRts { lumps: Vec::new() };
        proof {
            assert(rts.table() =~= Map::<Seq<char>, Seq<u8>>::empty());
        }
        let mut i: usize = 0;
        while i < n
            invariant
                len == bytes@.len(),
                n == rts_numlumps(bytes@),
                base == rts_infotable(bytes@),
                base + 16 * n <= len,
                i <= n,
                rts.wf(),
                rts.table() == rts_table(bytes@, i as int),
            decreases n - i,
        {
            let entry = base + 16 * i;
            let filepos = get_i32(bytes, entry);
            let size = get_i32(bytes, entry + 4);
            let name_bytes = copy_range(bytes, entry + 8, entry + 16);
            let raw_name = decode_field_name(name_bytes.as_slice());
            let name = to_uppercase(raw_name.as_str());
            if filepos >= 0 && size >= 0 && size as usize <= len && filepos as usize <= len - size as usize {
                let start = filepos as usize;
                let lump_data = copy_range(bytes, start, start + size as usize);
                rts.insert_lump(name, lump_data);
            }
            i += 1;
        }
        Ok(rts)
    }

    /// The data of the lump named `name` (compared upper-cased).
    pub fn get_sound(&self, name: &str) -> (res: Option<&[u8]>)
        requires
            self.wf(),
        ensures
            self.table().dom().contains(uppercase(name@)) <==> res is Some,
            res matches Some(d) ==> d@ == self.table()[uppercase(name@)],
    {
        let key = to_uppercase(name);
        let n = self.lumps.len();
        let mut i: usize = 0;
        while i < n
            invariant
                n == self.lumps@.len(),
                i <= n,
                self.wf(),
                key@ == uppercase(name@),
                forall|j: int| 0 <= j < i ==> self.lumps@[j].name@ != key@,
            decreases n - i,
        {
            if self.lumps[i].name == key {
                proof {
                    let j = choose|j: int| 0 <= j < self.lumps@.len() && self.lumps@[j].name@ == key@;
                    assert(self.lumps@[i as int].name@ == key@);
                    if j != i {
                        if j < i {
                            assert(self.lumps@[j].name@ != key@);
                        } else {
                            assert(self.lumps@[i as int].name@ != self.lumps@[j].name@);
                        }
                    }
                }
                return Some(self.lumps[i].data.as_slice());
            }
            i += 1;
        }
        None
    }
}

} // verus!
