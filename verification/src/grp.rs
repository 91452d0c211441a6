//! GRP archives ("KenSilverman"): the directory of named files.
use vstd::prelude::*;
use crate::reader::{le_u32, get_u32, copy_range};
use crate::map::{records_bytes, lemma_records_layout, lemma_record_part};
use crate::text::{decode_field_name, field_name, chars_of, lower_seq, ascii_lower, upper_seq, ascii_upper};

verus! {

#[derive(Debug)]
pub struct GrpEntry {
    pub name: String,
    pub size: u32,
    pub offset: u64,
}

#[derive(Debug)]
pub struct Grp {
    pub entries: Vec<GrpEntry>,
    file_path: String,
}

/// The errors of reading a GRP directory.
#[derive(Debug, Clone, Copy, PartialEq, Eq)]
pub enum GrpError {
    /// The data ends inside the header or the directory.
    UnexpectedEof,
    /// The first 12 bytes are not "KenSilverman".
    InvalidHeader,
}

pub open spec fn grp_magic() -> Seq<u8> {
    seq![75u8, 101, 110, 83, 105, 108, 118, 101, 114, 109, 97, 110]
}

pub open spec fn grp_count(d: Seq<u8>) -> int { le_u32(d, 12) as int }

pub open spec fn grp_entry_size(d: Seq<u8>, i: int) -> u32 { le_u32(d, 16 + 16 * i + 12) }

/// Where file `i` of `n` begins: after the header, the directory and the
/// files before it.
pub open spec fn grp_file_offset(d: Seq<u8>, n: int, i: int) -> int
    decreases i,
{
    if i <= 0 { 16 + 16 * n } else { grp_file_offset(d, n, i - 1) + grp_entry_size(d, i - 1) }
}

/// The outcome of reading the directory in `d`.
pub open spec fn grp_verdict(d: Seq<u8>) -> Result<(), GrpError> {
    if d.len() < 12 {
        Err(GrpError::UnexpectedEof)
    } else if d.subrange(0, 12) != grp_magic() {
        Err(GrpError::InvalidHeader)
    } else if d.len() < 16 + 16 * grp_count(d) {
        Err(GrpError::UnexpectedEof)
    } else {
        Ok(())
    }
}

/// Machine limit: the running file offset stays within `u64`.
pub open spec fn grp_offsets_fit(d: Seq<u8>) -> bool {
    grp_verdict(d) is Ok ==> grp_file_offset(d, grp_count(d), grp_count(d)) <= u64::MAX
}

proof fn lemma_grp_offset_mono(d: Seq<u8>, n: int, i: int, j: int)
    requires
        0 <= i <= j,
    ensures
        grp_file_offset(d, n, i) <= grp_file_offset(d, n, j),
    decreases j - i,
{
    if i < j {
        lemma_grp_offset_mono(d, n, i, j - 1);
    }
}

/// `a` equals `b` ignoring ASCII case (`str::eq_ignore_ascii_case`).
pub open spec fn eq_ignore_ascii_case(a: Seq<char>, b: Seq<char>) -> bool {
    lower_seq(a) == lower_seq(b)
}

/// The four little-endian bytes of a 32-bit value.
pub open spec fn u32_le_bytes(v: u32) -> Seq<u8> {
    seq![(v % 256) as u8, ((v / 256) % 256) as u8, ((v / 65536) % 256) as u8, (v / 16777216) as u8]
}

/// A name as a 12-byte directory field (cut or padded with zeros).
pub open spec fn name_field(n: Seq<u8>) -> Seq<u8> {
    Seq::new(12, |i: int| if i < n.len() { n[i] } else { 0u8 })
}

/// The 16-byte directory entry of a file: its name field and its size.
pub open spec fn grp_dir_entry(f: (Seq<u8>, Seq<u8>)) -> Seq<u8> {
    name_field(f.0) + u32_le_bytes(f.1.len() as u32)
}

pub open spec fn grp_entry_enc() -> spec_fn((Seq<u8>, Seq<u8>)) -> Seq<u8> {
    |f: (Seq<u8>, Seq<u8>)| grp_dir_entry(f)
}

/// The contents of the files, one after another.
pub open spec fn grp_contents(files: Seq<(Seq<u8>, Seq<u8>)>) -> Seq<u8>
    decreases files.len(),
{
    if files.len() == 0 { Seq::empty() } else { grp_contents(files.drop_last()) + files.last().1 }
}

/// A GRP archive holding `files` (name, contents): the magic, the file
/// count, the directory, then the contents in order.
pub open spec fn grp_archive_bytes(files: Seq<(Seq<u8>, Seq<u8>)>) -> Seq<u8> {
    grp_magic() + u32_le_bytes(files.len() as u32) + records_bytes(files, grp_entry_enc()) + grp_contents(files)
}

proof fn lemma_read_u32(d: Seq<u8>, q: int, v: u32)
    requires
        0 <= q,
        q + 4 <= d.len(),
        d.subrange(q, q + 4) == u32_le_bytes(v),
    ensures
        le_u32(d, q) == v,
{
    assert(d[q] == d.subrange(q, q + 4)[0]);
    assert(d[q + 1] == d.subrange(q, q + 4)[1]);
    assert(d[q + 2] == d.subrange(q, q + 4)[2]);
    assert(d[q + 3] == d.subrange(q, q + 4)[3]);
    assert((v % 256) + 256 * ((v / 256) % 256) + 65536 * ((v / 65536) % 256) + 16777216 * (v / 16777216) == v) by (bit_vector);
}

/// The contents of file `i` start after those of the files before it.
proof fn lemma_contents_layout(files: Seq<(Seq<u8>, Seq<u8>)>)
    ensures
        forall|i: int| 0 <= i < files.len() ==> {
            let start = #[trigger] grp_contents(files.take(i)).len();
            &&& start + files[i].1.len() <= grp_contents(files).len()
            &&& grp_contents(files).subrange(start as int, (start + files[i].1.len()) as int) == files[i].1
            &&& grp_contents(files.take(i + 1)).len() == start + files[i].1.len()
        },
    decreases files.len(),
{
    if files.len() > 0 {
        let pre = files.drop_last();
        lemma_contents_layout(pre);
        let c = grp_contents(files);
        let a = grp_contents(pre);
        assert forall|i: int| 0 <= i < files.len() implies {
            let start = #[trigger] grp_contents(files.take(i)).len();
            &&& start + files[i].1.len() <= grp_contents(files).len()
            &&& grp_contents(files).subrange(start as int, (start + files[i].1.len()) as int) == files[i].1
            &&& grp_contents(files.take(i + 1)).len() == start + files[i].1.len()
        } by {
            assert(files.take(i + 1).drop_last() =~= files.take(i));
            assert(files.take(i + 1).last() == files[i]);
            if i < pre.len() {
                assert(pre.take(i) =~= files.take(i));
                assert(pre.take(i + 1) =~= files.take(i + 1));
                assert(pre[i] == files[i]);
                let start = grp_contents(files.take(i)).len();
                assert(c.subrange(start as int, (start + files[i].1.len()) as int) =~= a.subrange(start as int, (start + files[i].1.len()) as int));
            } else {
                assert(files.take(i) =~= pre);
                assert(c.subrange(a.len() as int, (a.len() + files[i].1.len()) as int) =~= files[i].1);
            }
        }
    }
}

/// In an archive of `files`, the offset of file `i` is the directory's end
/// plus the sizes of the files before it.
proof fn lemma_archive_offsets(d: Seq<u8>, files: Seq<(Seq<u8>, Seq<u8>)>, i: int)
    requires
        0 <= i <= files.len(),
        forall|j: int| 0 <= j < files.len() ==> #[trigger] grp_entry_size(d, j) == files[j].1.len(),
        forall|j: int| 0 <= j < files.len() ==> grp_contents(files.take(j + 1)).len()
            == #[trigger] grp_contents(files.take(j)).len() + files[j].1.len(),
    ensures
        grp_file_offset(d, files.len() as int, i) == 16 + 16 * files.len() + grp_contents(files.take(i)).len(),
    decreases i,
{
    if i > 0 {
        lemma_archive_offsets(d, files, i - 1);
        assert(grp_contents(files.take(i)).len() == grp_contents(files.take(i - 1)).len() + files[i - 1].1.len());
    } else {
        assert(files.take(0) =~= Seq::<(Seq<u8>, Seq<u8>)>::empty());
    }
}

/// An archive written from a list of files (12-byte names, contents whose
/// sizes fit 32 bits) is accepted; its directory lists the files in order
/// with their names and sizes, and the bytes at each file's offset are its
/// contents.
pub proof fn lemma_grp_archive_roundtrip(files: Seq<(Seq<u8>, Seq<u8>)>)
    requires
        16 + 16 * files.len() <= u32::MAX,
        forall|i: int| 0 <= i < files.len() ==> (#[trigger] files[i]).0.len() == 12 && files[i].1.len() <= u32::MAX,
    ensures
        ({
            let d = grp_archive_bytes(files);
            let n = files.len() as int;
            &&& grp_verdict(d) == Ok::<(), GrpError>(())
            &&& grp_count(d) == n
            &&& forall|i: int| 0 <= i < n ==> {
                &&& #[trigger] d.subrange(16 + 16 * i, 16 + 16 * i + 12) == files[i].0
                &&& grp_entry_size(d, i) == files[i].1.len()
                &&& d.subrange(grp_file_offset(d, n, i), grp_file_offset(d, n, i) + files[i].1.len()) == files[i].1
            }
        }),
{
    let n = files.len() as int;
    let enc = grp_entry_enc();
    assert forall|f: (Seq<u8>, Seq<u8>)| #[trigger] enc(f).len() == 16 by {}
    lemma_records_layout(files, enc, 16);
    lemma_contents_layout(files);
    let dir = records_bytes(files, enc);
    let cont = grp_contents(files);
    let head = grp_magic() + u32_le_bytes(files.len() as u32);
    let d = grp_archive_bytes(files);
    assert(d == head + dir + cont);
    assert(d.subrange(0, 12) =~= grp_magic());
    assert(d.subrange(12, 16) =~= u32_le_bytes(files.len() as u32));
    lemma_read_u32(d, 12, files.len() as u32);
    assert(d.subrange(16, 16 + 16 * n) =~= dir);
    assert(d.subrange(16 + 16 * n, d.len() as int) =~= cont);
    assert forall|i: int| 0 <= i < n implies {
        &&& #[trigger] d.subrange(16 + 16 * i, 16 + 16 * i + 12) == files[i].0
        &&& grp_entry_size(d, i) == files[i].1.len()
    } by {
        assert(dir.subrange(16 * i, 16 * i + 16) == enc(files[i]));
        assert(16 * i + 16 <= 16 * n);
        lemma_record_part(d, 16, dir, 16 * i, 16, grp_dir_entry(files[i]));
        let e = grp_dir_entry(files[i]);
        assert(e.subrange(0, 12) =~= files[i].0);
        assert(e.subrange(12, 16) =~= u32_le_bytes(files[i].1.len() as u32));
        lemma_record_part(d, 16 + 16 * i, e, 0, 12, files[i].0);
        lemma_record_part(d, 16 + 16 * i, e, 12, 4, u32_le_bytes(files[i].1.len() as u32));
        lemma_read_u32(d, 16 + 16 * i + 12, files[i].1.len() as u32);
    }
    assert forall|i: int| 0 <= i < n implies d.subrange(grp_file_offset(d, n, i),
        grp_file_offset(d, n, i) + files[i].1.len()) == #[trigger] files[i].1 by {
        assert forall|j: int| 0 <= j < n implies #[trigger] grp_entry_size(d, j) == files[j].1.len() by {
            assert(d.subrange(16 + 16 * j, 16 + 16 * j + 12) == files[j].0);
        }
        lemma_archive_offsets(d, files, i);
        let start = grp_contents(files.take(i)).len();
        assert(cont.subrange(start as int, (start + files[i].1.len()) as int) == files[i].1);
        lemma_record_part(d, 16 + 16 * n, cont, start as int, files[i].1.len() as int, files[i].1);
    }
}

/// Names are compared blind to ASCII case: a name matches its upper-case
/// and its lower-case spelling, and matching is symmetric.
pub proof fn lemma_case_blind(a: Seq<char>, b: Seq<char>)
    ensures
        eq_ignore_ascii_case(upper_seq(a), a),
        eq_ignore_ascii_case(a, lower_seq(a)),
        eq_ignore_ascii_case(a, b) == eq_ignore_ascii_case(b, a),
{
    assert forall|i: int| 0 <= i < a.len() implies #[trigger] ascii_lower(ascii_upper(a[i])) == ascii_lower(a[i]) by {
        let c = a[i];
        if 'a' <= c && c <= 'z' {
            assert(((c as u32) - 32) as char as u32 == (c as u32) - 32);
        }
    }
    assert(lower_seq(upper_seq(a)) =~= lower_seq(a));
    assert forall|i: int| 0 <= i < a.len() implies #[trigger] ascii_lower(ascii_lower(a[i])) == ascii_lower(a[i]) by {
        let c = a[i];
        if 'A' <= c && c <= 'Z' {
            assert(((c as u32) + 32) as char as u32 == (c as u32) + 32);
        }
    }
    assert(lower_seq(lower_seq(a)) =~= lower_seq(a));
}

fn lower_char(c: char) -> (r: char)
    ensures
        r == ascii_lower(c),
{
    if 'A' <= c && c <= 'Z' {
        ((c as u8) + 32) as char
    } else {
        c
    }
}

/// Compares two strings ignoring ASCII case.
pub fn str_eq_ignore_ascii_case(a: &str, b: &str) -> (r: bool)
    ensures
        r == eq_ignore_ascii_case(a@, b@),
{
    let ca = chars_of(a);
    let cb = chars_of(b);
    if ca.len() != cb.len() {
        proof {
            assert(lower_seq(a@).len() != lower_seq(b@).len());
        }
        return false;
    }
    let n = ca.len();
    let mut i: usize = 0;
    while i < n
        invariant
            n == ca@.len(),
            n == cb@.len(),
            ca@ == a@,
            cb@ == b@,
            i <= n,
            forall|j: int| 0 <= j < i ==> ascii_lower(#[trigger] a@[j]) == ascii_lower(b@[j]),
        decreases n - i,
    {
        if lower_char(ca[i]) != lower_char(cb[i]) {
            proof {
                assert(lower_seq(a@)[i as int] != lower_seq(b@)[i as int]);
            }
            return false;
        }
        i += 1;
    }
    assert(lower_seq(a@) =~= lower_seq(b@));
    true
}

impl Grp {
    pub closed spec fn path(self) -> Seq<char> {
        self.file_path@
    }

    /// The directory entries in file order.
    pub closed spec fn dir(self) -> Seq<GrpEntry> {
        self.entries@
    }

    /// The path of the archive this directory was read from.
    pub fn file_path(&self) -> (r: &str)
        ensures
            r@ == self.path(),
    {
        self.file_path.as_str()
    }

    /// Reads the directory of the GRP archive at `path` from `data`, its
    /// first bytes: the magic, a file count, and 16-byte entries (12-byte
    /// name, size). File offsets follow from the sizes in order.
    pub fn from_directory(data: &[u8], path: String) -> (res: Result<Self, GrpError>)
        requires
            grp_offsets_fit(data@),
        ensures
            match grp_verdict(data@) {
                Err(e) => res == Err::<Self, GrpError>(e),
                Ok(()) => res is Ok,
            },
            res matches Ok(g) ==> {
                let n = grp_count(data@);
                &&& g.path() == path@
                &&& g.dir().len() == n
                &&& forall|i: int| 0 <= i < n ==> {
                    let e = #[trigger] g.dir()[i];
                    &&& e.name@ == field_name(data@.subrange(16 + 16 * i, 16 + 16 * i + 12))
                    &&& e.size == grp_entry_size(data@, i)
                    &&& e.offset == grp_file_offset(data@, n, i)
                }
            },
    {
        let len = data.len();
        if len < 12 {
            return Err(GrpError::UnexpectedEof);
        }
        let magic: [u8; 12] = [75, 101, 110, 83, 105, 108, 118, 101, 114, 109, 97, 110];
        let mut m: usize = 0;
        while m < 12
            invariant
                m <= 12,
                len == data@.len(),
                len >= 12,
                magic@ == grp_magic(),
                forall|j: int| 0 <= j < m ==> data@[j] == grp_magic()[j],
            decreases 12 - m,
        {
            if data[m] != magic[m] {
                proof {
                    assert(data@.subrange(0, 12)[m as int] != grp_magic()[m as int]);
                }
                return Err(GrpError::InvalidHeader);
            }
            m += 1;
        }
        assert(data@.subrange(0, 12) =~= grp_magic());
        if len < 16 {
            return Err(GrpError::UnexpectedEof);
        }
        let num_files = get_u32(data, 12) as usize;
        if num_files > (len - 16) / 16 {
            return Err(GrpError::UnexpectedEof);
        }
        let ghost n = grp_count(data@);
        let mut entries: Vec<GrpEntry> = Vec::new();
        let mut current: u64 = 16 + (num_files as u64) * 16;
        let mut i: usize = 0;
        while i < num_files
            invariant
                len == data@.len(),
                num_files == n,
                n == grp_count(data@),
                16 + 16 * n <= len,
                grp_verdict(data@) is Ok,
                grp_offsets_fit(data@),
                i <= num_files,
                current == grp_file_offset(data@, n, i as int),
                entries@.len() == i,
                forall|j: int| 0 <= j < i ==> {
                    let e = #[trigger] entries@[j];
                    &&& e.name@ == field_name(data@.subrange(16 + 16 * j, 16 + 16 * j + 12))
                    &&& e.size == grp_entry_size(data@, j)
                    &&& e.offset == grp_file_offset(data@, n, j)
                },
            decreases num_files - i,
        {
            let base = 16 + 16 * i;
            let name_bytes = copy_range(data, base, base + 12);
            let name = decode_field_name(name_bytes.as_slice());
            let size = get_u32(data, base + 12);
            proof {
                lemma_grp_offset_mono(data@, n, i + 1, n);
            }
            entries.push(GrpEntry { name, size, offset: current });
            current = current + size as u64;
            i += 1;
        }
        Ok(Grp { entries, file_path: path })
    }

    /// The entry named `name`, compared ignoring ASCII case; the first match.
    pub fn find_entry(&self, name: &str) -> (res: Option<&GrpEntry>)
        ensures
            match res {
                Some(e) => exists|i: int| 0 <= i < self.dir().len() && self.dir()[i] == *e
                    && eq_ignore_ascii_case(e.name@, name@)
                    && forall|j: int| 0 <= j < i ==> !eq_ignore_ascii_case(#[trigger] self.dir()[j].name@, name@),
                None => forall|j: int| 0 <= j < self.dir().len() ==> !eq_ignore_ascii_case(#[trigger] self.dir()[j].name@, name@),
            },
    {
        let n = self.entries.len();
        let mut i: usize = 0;
        while i < n
            invariant
                n == self.entries@.len(),
                i <= n,
                forall|j: int| 0 <= j < i ==> !eq_ignore_ascii_case(#[trigger] self.entries@[j].name@, name@),
            decreases n - i,
        {
            if str_eq_ignore_ascii_case(self.entries[i].name.as_str(), name) {
                proof {
                    assert(self.dir() == self.entries@);
                    assert(self.dir()[i as int] == self.entries@[i as int]);
                }
                return Some(&self.entries[i]);
            }
            i += 1;
        }
        None
    }
}

} // verus!
