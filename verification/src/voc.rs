//! Creative Voice (.VOC) sound files, decoded to 16-bit PCM.
use vstd::prelude::*;
use crate::reader::{le_u16, le_u32, signed16, u16_from_le, u32_from_le, to_signed16};
use crate::wav::{pcm8_to_16, convert_pcm8, encode_wav, wav_image, wav_writable};

verus! {

#[derive(Debug, Clone)]
pub struct VocSound {
    pub name: String,
    pub sample_rate: u32,
    pub channels: u16,
    pub bits_per_sample: u16,
    pub pcm_samples_16bit: Vec<i16>,
}

/// The errors of VOC decoding.
#[derive(Debug, Clone, Copy, PartialEq, Eq)]
pub enum VocError {
    /// Fewer than 26 bytes.
    TooShort,
    /// The file does not begin with "Creative Voice File" and 0x1A.
    BadMagic,
    /// The header size field is below 26 or past the end of the file.
    InvalidHeaderSize(u16),
}

/// Decoder state while walking the blocks: sample rate, whether an extended
/// block has fixed the rate, channels, bits per sample, samples so far.
pub type VocState = (u32, bool, u16, u16, Seq<i16>);

pub open spec fn voc_magic() -> Seq<u8> {
    seq![67u8, 114, 101, 97, 116, 105, 118, 101, 32, 86, 111, 105, 99, 101, 32, 70, 105, 108, 101, 26]
}

pub open spec fn pcm8_seq(b: Seq<u8>) -> Seq<i16> {
    Seq::new(b.len(), |i: int| pcm8_to_16(b[i]))
}

/// Little-endian 16-bit samples of `b` (a trailing odd byte is dropped).
pub open spec fn pcm16_seq(b: Seq<u8>) -> Seq<i16> {
    Seq::new(b.len() / 2, |i: int| signed16(le_u16(b, 2 * i)))
}

/// The rate that an 8-bit time constant stands for.
pub open spec fn tc_rate(tc: u8) -> u32 {
    (1_000_000int / (256 - tc as int)) as u32
}

/// The effect of one block of type `t` with payload `b` on the state.
pub open spec fn voc_apply(t: u8, b: Seq<u8>, st: VocState) -> VocState {
    let (rate, ext, ch, bits, s) = st;
    if t == 1 {
        if b.len() >= 2 {
            let r = if !ext { tc_rate(b[0]) } else { rate };
            (r, false, ch, bits, s + pcm8_seq(b.subrange(2, b.len() as int)))
        } else {
            st
        }
    } else if t == 2 {
        (rate, ext, ch, bits, s + pcm8_seq(b))
    } else if t == 3 {
        if b.len() >= 3 {
            let r = if !ext { tc_rate(b[2]) } else { rate };
            (r, ext, ch, bits, s + Seq::new(le_u16(b, 0) as nat, |i: int| 0i16))
        } else {
            st
        }
    } else if t == 8 {
        if b.len() >= 4 {
            let div = 65536 - le_u16(b, 0) as int;
            if b[3] == 1 {
                (((256_000_000int / div) / 2) as u32, true, 2u16, bits, s)
            } else {
                ((256_000_000int / div) as u32, true, 1u16, bits, s)
            }
        } else {
            st
        }
    } else if t == 9 {
        if b.len() >= 12 {
            let r32 = le_u32(b, 0);
            let (r, e) = if 0 < r32 && r32 < 192000 { (r32, true) } else { (rate, ext) };
            let c = if b[5] > 0 { b[5] as u16 } else { ch };
            let audio = b.subrange(12, b.len() as int);
            if b[4] == 16 || le_u16(b, 6) == 4 {
                (r, e, c, 16u16, s + pcm16_seq(audio))
            } else {
                (r, e, c, 16u16, s + pcm8_seq(audio))
            }
        } else {
            st
        }
    } else {
        st
    }
}

/// Walks the blocks from `off`: a type byte (0 ends), a 24-bit length, then
/// the payload, cut short at the end of the file.
pub open spec fn voc_run(d: Seq<u8>, off: int, st: VocState) -> VocState
    decreases (if off < d.len() { d.len() - off } else { 0 }),
{
    if off < 0 || off >= d.len() {
        st
    } else {
        let t = d[off];
        let p = off + 1;
        if t == 0 || p + 3 > d.len() {
            st
        } else {
            let blen = d[p] as int + 256 * d[p + 1] as int + 65536 * d[p + 2] as int;
            let q = p + 3;
            if q + blen > d.len() && d.len() - q == 0 {
                st
            } else {
                let end = if q + blen < d.len() { q + blen } else { d.len() as int };
                voc_run(d, q + blen, voc_apply(t, d.subrange(q, end), st))
            }
        }
    }
}

pub open spec fn voc_header_size(d: Seq<u8>) -> u16 {
    le_u16(d, 20)
}

/// The decoded state of a well-formed file: the blocks after the header,
/// starting from 11025 Hz, one channel, 16 bits and no samples.
pub open spec fn voc_decoded(d: Seq<u8>) -> VocState {
    voc_run(d, voc_header_size(d) as int, (11025u32, false, 1u16, 16u16, Seq::empty()))
}

/// A block as it is stored: its type, its 24-bit little-endian payload
/// length, then the payload.
pub open spec fn voc_block_bytes(t: u8, payload: Seq<u8>) -> Seq<u8> {
    let n = payload.len() as int;
    seq![t, (n % 256) as u8, ((n / 256) % 256) as u8, (n / 65536) as u8] + payload
}

/// The samples of unsigned 8-bit PCM bytes: each byte `b` becomes the
/// 16-bit sample `(b - 128) * 256`.
pub open spec fn unsigned8_samples(bytes: Seq<u8>) -> Seq<i16> {
    Seq::new(bytes.len(), |i: int| ((bytes[i] as int - 128) * 256) as i16)
}

proof fn lemma_block_length(payload: Seq<u8>)
    requires
        payload.len() < 0x100_0000,
    ensures
        ({
            let b = voc_block_bytes(0, payload);
            b[1] as int + 256 * b[2] as int + 65536 * b[3] as int == payload.len()
        }),
{
    let n = payload.len() as int;
    assert((n % 256) + 256 * ((n / 256) % 256) + 65536 * (n / 65536) == n) by (nonlinear_arith)
        requires 0 <= n < 0x100_0000;
}

/// Reading a sound-continuation block (type 2) that lies whole in the file
/// appends one sample per payload byte, in order, and changes nothing else;
/// reading goes on after the block.
pub proof fn lemma_continuation_block(d: Seq<u8>, off: int, payload: Seq<u8>, st: VocState)
    requires
        0 <= off,
        payload.len() < 0x100_0000,
        off + 4 + payload.len() <= d.len(),
        d.subrange(off, off + 4 + payload.len()) == voc_block_bytes(2, payload),
    ensures
        voc_run(d, off, st) == voc_run(d, off + 4 + payload.len(),
            (st.0, st.1, st.2, st.3, st.4 + unsigned8_samples(payload))),
{
    lemma_voc_block_step(d, off, 2, payload, st);
    assert(pcm8_seq(payload) =~= unsigned8_samples(payload));
}

/// Reading a sound-data block (type 1: time constant, codec byte, then
/// unsigned 8-bit samples) that lies whole in the file appends one sample
/// per byte after the first two, and sets the rate from the time constant
/// unless an extended block fixed it.
pub proof fn lemma_sound_data_block(d: Seq<u8>, off: int, payload: Seq<u8>, st: VocState)
    requires
        0 <= off,
        2 <= payload.len() < 0x100_0000,
        off + 4 + payload.len() <= d.len(),
        d.subrange(off, off + 4 + payload.len()) == voc_block_bytes(1, payload),
    ensures
        voc_run(d, off, st) == voc_run(d, off + 4 + payload.len(),
            (if st.1 { st.0 } else { (1_000_000int / (256 - payload[0] as int)) as u32 }, false, st.2, st.3,
                st.4 + unsigned8_samples(payload.subrange(2, payload.len() as int)))),
{
    lemma_voc_block_step(d, off, 1, payload, st);
    assert(pcm8_seq(payload.subrange(2, payload.len() as int)) =~= unsigned8_samples(payload.subrange(2, payload.len() as int)));
}

/// Reading a silence block (type 3: 16-bit length, time constant) that lies
/// whole in the file appends that many zero samples.
pub proof fn lemma_silence_block(d: Seq<u8>, off: int, payload: Seq<u8>, st: VocState)
    requires
        0 <= off,
        3 <= payload.len() < 0x100_0000,
        off + 4 + payload.len() <= d.len(),
        d.subrange(off, off + 4 + payload.len()) == voc_block_bytes(3, payload),
    ensures
        voc_run(d, off, st) == voc_run(d, off + 4 + payload.len(),
            (if st.1 { st.0 } else { (1_000_000int / (256 - payload[2] as int)) as u32 }, st.1, st.2, st.3,
                st.4 + Seq::new((payload[0] as int + 256 * payload[1] as int) as nat, |i: int| 0i16))),
{
    lemma_voc_block_step(d, off, 3, payload, st);
}

/// Reading a whole block of type `t` runs `voc_apply` on its payload and
/// goes on after it.
proof fn lemma_voc_block_step(d: Seq<u8>, off: int, t: u8, payload: Seq<u8>, st: VocState)
    requires
        0 <= off,
        t != 0,
        payload.len() < 0x100_0000,
        off + 4 + payload.len() <= d.len(),
        d.subrange(off, off + 4 + payload.len()) == voc_block_bytes(t, payload),
    ensures
        voc_run(d, off, st) == voc_run(d, off + 4 + payload.len(), voc_apply(t, payload, st)),
{
    let blk = voc_block_bytes(t, payload);
    lemma_block_length(payload);
    let n = payload.len() as int;
    assert(d[off] == blk[0]);
    assert(d[off + 1] == blk[1]);
    assert(d[off + 2] == blk[2]);
    assert(d[off + 3] == blk[3]);
    assert(d[off + 1] as int + 256 * d[off + 2] as int + 65536 * d[off + 3] as int == n);
    assert(d.subrange(off + 4, off + 4 + n) =~= payload) by {
        assert forall|i: int| 0 <= i < n implies d.subrange(off + 4, off + 4 + n)[i] == payload[i] by {
            assert(d[off + 4 + i] == blk[4 + i]);
        }
    }
}

/// A sound block that carries samples: sound data (type 1, at least the
/// time constant and codec bytes), continuation (type 2) or silence
/// (type 3, at least its length and time constant), with a payload whose
/// length fits 24 bits.
pub open spec fn sample_block_ok(b: (u8, Seq<u8>)) -> bool {
    &&& b.1.len() < 0x100_0000
    &&& (b.0 == 1 && b.1.len() >= 2) || b.0 == 2 || (b.0 == 3 && b.1.len() >= 3)
}

/// The samples a block stands for: the unsigned 8-bit samples after the
/// first two bytes (type 1), all of them (type 2), or the silence length
/// in zero samples (type 3).
pub open spec fn block_samples(b: (u8, Seq<u8>)) -> Seq<i16> {
    if b.0 == 1 {
        unsigned8_samples(b.1.subrange(2, b.1.len() as int))
    } else if b.0 == 2 {
        unsigned8_samples(b.1)
    } else {
        Seq::new((b.1[0] as int + 256 * b.1[1] as int) as nat, |i: int| 0i16)
    }
}

/// Blocks stored one after another.
pub open spec fn blocks_bytes(blocks: Seq<(u8, Seq<u8>)>) -> Seq<u8>
    decreases blocks.len(),
{
    if blocks.len() == 0 { Seq::empty() } else { voc_block_bytes(blocks[0].0, blocks[0].1) + blocks_bytes(blocks.drop_first()) }
}

/// The samples of blocks, in file order.
pub open spec fn blocks_samples(blocks: Seq<(u8, Seq<u8>)>) -> Seq<i16>
    decreases blocks.len(),
{
    if blocks.len() == 0 { Seq::empty() } else { block_samples(blocks[0]) + blocks_samples(blocks.drop_first()) }
}

/// A VOC file: the magic, a 26-byte header (version 0x010A), the blocks and
/// the terminator.
pub open spec fn voc_file_bytes(blocks: Seq<(u8, Seq<u8>)>) -> Seq<u8> {
    voc_magic() + seq![26u8, 0, 0x0A, 0x01, 0x29, 0x11] + blocks_bytes(blocks) + seq![0u8]
}

proof fn lemma_blocks_run(d: Seq<u8>, off: int, blocks: Seq<(u8, Seq<u8>)>, st: VocState)
    requires
        0 <= off,
        forall|i: int| 0 <= i < blocks.len() ==> #[trigger] sample_block_ok(blocks[i]),
        off + blocks_bytes(blocks).len() < d.len(),
        d.subrange(off, off + blocks_bytes(blocks).len()) == blocks_bytes(blocks),
        d[off + blocks_bytes(blocks).len()] == 0,
    ensures
        voc_run(d, off, st).4 == st.4 + blocks_samples(blocks),
    decreases blocks.len(),
{
    if blocks.len() == 0 {
        assert(st.4 + Seq::<i16>::empty() =~= st.4);
    } else {
        let b = blocks[0];
        let rest = blocks.drop_first();
        let bb = voc_block_bytes(b.0, b.1);
        let all = blocks_bytes(blocks);
        assert(all == bb + blocks_bytes(rest));
        assert(sample_block_ok(b));
        let next = off + bb.len();
        assert(d.subrange(off, off + bb.len()) =~= bb) by {
            assert forall|j: int| 0 <= j < bb.len() implies #[trigger] d.subrange(off, off + bb.len())[j] == bb[j] by {
                assert(d.subrange(off, off + all.len())[j] == all[j]);
            }
        }
        assert(d.subrange(next, next + blocks_bytes(rest).len()) =~= blocks_bytes(rest)) by {
            assert forall|j: int| 0 <= j < blocks_bytes(rest).len() implies
                #[trigger] d.subrange(next, next + blocks_bytes(rest).len())[j] == blocks_bytes(rest)[j] by {
                assert(d.subrange(off, off + all.len())[bb.len() + j] == all[bb.len() + j]);
            }
        }
        assert forall|i: int| 0 <= i < rest.len() implies #[trigger] sample_block_ok(rest[i]) by {
            assert(rest[i] == blocks[i + 1]);
        }
        let st2: VocState = if b.0 == 1 {
            lemma_sound_data_block(d, off, b.1, st);
            (if st.1 { st.0 } else { (1_000_000int / (256 - b.1[0] as int)) as u32 }, false, st.2, st.3,
                st.4 + unsigned8_samples(b.1.subrange(2, b.1.len() as int)))
        } else if b.0 == 2 {
            lemma_continuation_block(d, off, b.1, st);
            (st.0, st.1, st.2, st.3, st.4 + unsigned8_samples(b.1))
        } else {
            lemma_silence_block(d, off, b.1, st);
            (if st.1 { st.0 } else { (1_000_000int / (256 - b.1[2] as int)) as u32 }, st.1, st.2, st.3,
                st.4 + Seq::new((b.1[0] as int + 256 * b.1[1] as int) as nat, |i: int| 0i16))
        };
        assert(voc_run(d, off, st) == voc_run(d, next, st2));
        lemma_blocks_run(d, next, rest, st2);
        assert(st2.4 == st.4 + block_samples(b));
        assert(blocks_samples(blocks) == block_samples(b) + blocks_samples(rest));
        assert(st.4 + block_samples(b) + blocks_samples(rest) =~= st.4 + blocks_samples(blocks));
    }
}

/// A VOC file made of sample-carrying blocks decodes to the samples of its
/// blocks one after another, in file order: each continuation byte and each
/// sound-data byte after the first two gives one sample `(b - 128) * 256`,
/// and each silence block its length in zero samples.
pub proof fn lemma_voc_file_samples(blocks: Seq<(u8, Seq<u8>)>)
    requires
        forall|i: int| 0 <= i < blocks.len() ==> #[trigger] sample_block_ok(blocks[i]),
    ensures
        voc_decoded(voc_file_bytes(blocks)).4 == blocks_samples(blocks),
{
    let d = voc_file_bytes(blocks);
    let bb = blocks_bytes(blocks);
    let head = voc_magic() + seq![26u8, 0, 0x0A, 0x01, 0x29, 0x11];
    assert(head.len() == 26);
    assert(d == head + bb + seq![0u8]);
    assert(d[20] == 26u8 && d[21] == 0u8);
    assert(voc_header_size(d) == 26);
    assert(d.subrange(26, 26 + bb.len() as int) =~= bb);
    assert(d[26 + bb.len() as int] == 0u8);
    lemma_blocks_run(d, 26, blocks, (11025u32, false, 1u16, 16u16, Seq::empty()));
    assert(Seq::<i16>::empty() + blocks_samples(blocks) =~= blocks_samples(blocks));
}

/// The final rate: rates outside 4000..=96000 fall back to 11025.
pub open spec fn voc_final_rate(r: u32) -> u32 {
    if r < 4000 || r > 96000 { 11025 } else { r }
}

/// Machine limit: a block length (at most 2^24 - 1) added to an offset
/// inside the file stays addressable.
pub open spec fn voc_size_ok(d: Seq<u8>) -> bool {
    d.len() + 0x100_0000 <= usize::MAX
}

/// Appends `pcm8` of `data[start..end]` to `samples`.
fn push_pcm8(samples: &mut Vec<i16>, data: &[u8], start: usize, end: usize)
    requires
        start <= end <= data@.len(),
    ensures
        final(samples)@ == old(samples)@ + pcm8_seq(data@.subrange(start as int, end as int)),
{
    let mut i = start;
    let ghost s0 = samples@;
    while i < end
        invariant
            start <= i <= end <= data@.len(),
            samples@ == s0 + pcm8_seq(data@.subrange(start as int, i as int)),
        decreases end - i,
    {
        let ghost before = samples@;
        samples.push(convert_pcm8(data[i]));
        proof {
            assert(pcm8_seq(data@.subrange(start as int, i + 1)) =~= pcm8_seq(data@.subrange(start as int, i as int)).push(pcm8_to_16(data@[i as int])));
            assert(samples@ =~= s0 + pcm8_seq(data@.subrange(start as int, i + 1)));
        }
        i += 1;
    }
}

/// Appends the little-endian 16-bit samples of `data[start..end]`.
fn push_pcm16(samples: &mut Vec<i16>, data: &[u8], start: usize, end: usize)
    requires
        start <= end <= data@.len(),
    ensures
        final(samples)@ == old(samples)@ + pcm16_seq(data@.subrange(start as int, end as int)),
{
    let ghost s0 = samples@;
    let ghost b = data@.subrange(start as int, end as int);
    let count = (end - start) / 2;
    let mut k: usize = 0;
    while k < count
        invariant
            start <= end <= data@.len(),
            b == data@.subrange(start as int, end as int),
            count == b.len() / 2,
            k <= count,
            samples@ == s0 + pcm16_seq(b).subrange(0, k as int),
        decreases count - k,
    {
        let p = start + 2 * k;
        let v = to_signed16(u16_from_le(data[p], data[p + 1]));
        samples.push(v);
        proof {
            assert(b[2 * k as int] == data@[p as int]);
            assert(b[2 * k + 1] == data@[p + 1]);
            assert(pcm16_seq(b).subrange(0, k + 1) =~= pcm16_seq(b).subrange(0, k as int).push(v));
        }
        k += 1;
    }
    assert(pcm16_seq(b).subrange(0, count as int) =~= pcm16_seq(b));
}

/// Appends `count` silent samples.
fn push_silence(samples: &mut Vec<i16>, count: usize)
    ensures
        final(samples)@ == old(samples)@ + Seq::new(count as nat, |i: int| 0i16),
{
    let ghost s0 = samples@;
    let mut k: usize = 0;
    while k < count
        invariant
            k <= count,
            samples@ == s0 + Seq::new(k as nat, |i: int| 0i16),
        decreases count - k,
    {
        samples.push(0);
        proof {
            assert(Seq::new((k + 1) as nat, |i: int| 0i16) =~= Seq::new(k as nat, |i: int| 0i16).push(0i16));
        }
        k += 1;
    }
}

/// The rate for an 8-bit time constant.
fn rate_from_tc(tc: u8) -> (r: u32)
    ensures
        r == tc_rate(tc),
{
    1_000_000 / (256 - tc as u32)
}

impl VocSound {
    /// Parses a Creative Voice file: the 20-byte magic, a header size, then
    /// typed blocks (1 sound data, 2 continuation, 3 silence, 8 extended
    /// rate, 9 extended format; others ignored) until a terminator.
    #[verifier::rlimit(40)]
    pub fn parse(name: &str, bytes: &[u8]) -> (res: Result<Self, VocError>)
        requires
            voc_size_ok(bytes@),
        ensures
            bytes@.len() < 26 ==> res == Err::<Self, VocError>(VocError::TooShort),
            bytes@.len() >= 26 && bytes@.subrange(0, 20) != voc_magic() ==> res == Err::<Self, VocError>(VocError::BadMagic),
            bytes@.len() >= 26 && bytes@.subrange(0, 20) == voc_magic()
                && (voc_header_size(bytes@) < 26 || voc_header_size(bytes@) > bytes@.len())
                ==> res == Err::<Self, VocError>(VocError::InvalidHeaderSize(voc_header_size(bytes@))),
            bytes@.len() >= 26 && bytes@.subrange(0, 20) == voc_magic()
                && 26 <= voc_header_size(bytes@) <= bytes@.len() ==> res is Ok,
            res matches Ok(v) ==> {
                let (rate, ext, ch, bits, s) = voc_decoded(bytes@);
                &&& v.name@ == name@
                &&& v.sample_rate == voc_final_rate(rate)
                &&& v.channels == ch
                &&& v.bits_per_sample == bits
                &&& v.pcm_samples_16bit@ == s
            },
    {
        let len = bytes.len();
        if len < 26 {
            return Err(VocError::TooShort);
        }
        let magic: [u8; 20] = [67, 114, 101, 97, 116, 105, 118, 101, 32, 86, 111, 105, 99, 101, 32, 70, 105, 108, 101, 26];
        let mut m: usize = 0;
        while m < 20
            invariant
                m <= 20,
                len == bytes@.len(),
                len >= 26,
                magic@ == voc_magic(),
                forall|j: int| 0 <= j < m ==> bytes@[j] == voc_magic()[j],
            decreases 20 - m,
        {
            if bytes[m] != magic[m] {
                proof {
                    assert(bytes@.subrange(0, 20)[m as int] != voc_magic()[m as int]);
                }
                return Err(VocError::BadMagic);
            }
            m += 1;
        }
        assert(bytes@.subrange(0, 20) =~= voc_magic());
        let header_size = u16_from_le(bytes[20], bytes[21]);
        if header_size < 26 || header_size as usize > len {
            return Err(VocError::InvalidHeaderSize(header_size));
        }
        let mut offset: usize = header_size as usize;
        let mut sample_rate: u32 = 11025;
        let mut extended_rate_set = false;
        let mut channels: u16 = 1;
        let mut bits_per_sample: u16 = 16;
        let mut samples: Vec<i16> = Vec::new();
        let ghost d = bytes@;
        while offset < len
            invariant_except_break
                len == d.len(),
                d == bytes@,
                voc_size_ok(d),
                offset <= len + 0x100_0000,
                voc_run(d, offset as int, (sample_rate, extended_rate_set, channels, bits_per_sample, samples@))
                    == voc_decoded(d),
            ensures
                (sample_rate, extended_rate_set, channels, bits_per_sample, samples@) == voc_decoded(d),
            decreases len + 0x100_0000 - offset,
        {
            let ghost st = (sample_rate, extended_rate_set, channels, bits_per_sample, samples@);
            let block_type = bytes[offset];
            offset += 1;
            if block_type == 0 {
                break;
            }
            if offset > len || 3 > len - offset {
                break;
            }
            let block_len: usize = bytes[offset] as usize + 256 * (bytes[offset + 1] as usize) + 65536 * (bytes[offset + 2] as usize);
            offset += 3;
            if block_len > len - offset && len - offset == 0 {
                break;
            }
            let start = offset;
            let end = if block_len < len - offset { offset + block_len } else { len };
            let ghost b = d.subrange(start as int, end as int);
            let ghost s0 = samples@;
            let blen = end - start;
            if block_type == 1 {
                if blen >= 2 {
                    let tc = bytes[start];
                    if !extended_rate_set {
                        sample_rate = rate_from_tc(tc);
                    }
                    extended_rate_set = false;
                    push_pcm8(&mut samples, bytes, start + 2, end);
                    proof {
                        assert(d.subrange(start + 2, end as int) =~= b.subrange(2, b.len() as int));
                    }
                }
            } else if block_type == 2 {
                push_pcm8(&mut samples, bytes, start, end);
            } else if block_type == 3 {
                if blen >= 3 {
                    let count = u16_from_le(bytes[start], bytes[start + 1]) as usize;
                    let tc = bytes[start + 2];
                    if !extended_rate_set {
                        sample_rate = rate_from_tc(tc);
                    }
                    push_silence(&mut samples, count);
                }
            } else if block_type == 8 {
                if blen >= 4 {
                    let tc = u16_from_le(bytes[start], bytes[start + 1]) as u32;
                    let mode = bytes[start + 3];
                    let div: u32 = 65536 - tc;
                    if mode == 1 {
                        channels = 2;
                        sample_rate = (256_000_000 / div) / 2;
                    } else {
                        channels = 1;
                        sample_rate = 256_000_000 / div;
                    }
                    extended_rate_set = true;
                }
            } else if block_type == 9 {
                if blen >= 12 {
                    let rate = u32_from_le(bytes[start], bytes[start + 1], bytes[start + 2], bytes[start + 3]);
                    if rate > 0 && rate < 192000 {
                        sample_rate = rate;
                        extended_rate_set = true;
                    }
                    let bits = bytes[start + 4];
                    let ch = bytes[start + 5] as u16;
                    if ch > 0 {
                        channels = ch;
                    }
                    let format_tag = u16_from_le(bytes[start + 6], bytes[start + 7]);
                    bits_per_sample = 16;
                    if bits == 16 || format_tag == 4 {
                        push_pcm16(&mut samples, bytes, start + 12, end);
                    } else {
                        push_pcm8(&mut samples, bytes, start + 12, end);
                    }
                    proof {
                        assert(d.subrange(start + 12, end as int) =~= b.subrange(12, b.len() as int));
                    }
                }
            }
            proof {
                assert((sample_rate, extended_rate_set, channels, bits_per_sample, samples@) == voc_apply(block_type, b, st));
            }
            offset += block_len;
        }
        if sample_rate < 4000 || sample_rate > 96000 {
            sample_rate = 11025;
        }
        Ok(VocSound {
            name: name.to_owned(),
            sample_rate,
            channels,
            bits_per_sample,
            pcm_samples_16bit: samples,
        })
    }

    /// The decoded samples as a 16-bit WAV image.
    pub fn to_wav_bytes(&self) -> (bytes: Vec<u8>)
        requires
            wav_writable(self.channels, self.sample_rate, self.pcm_samples_16bit@.len() as int),
        ensures
            bytes@ == wav_image(self.channels, self.sample_rate, self.pcm_samples_16bit@),
    {
        encode_wav(self.channels, self.sample_rate, self.pcm_samples_16bit.as_slice())
    }
}

} // verus!
