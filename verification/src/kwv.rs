//! WAVES.KWV: a wave bank of named 8-bit unsigned PCM sounds.
use vstd::prelude::*;
use crate::reader::{le_u32, get_u32, copy_range};
use crate::text::{decode_field_name, field_name};
use crate::wav::{pcm8_to_16, convert_pcm8, encode_wav, wav_pcm16, wav_writable};

verus! {

#[derive(Debug)]
pub struct KvvWave {
    pub name: String,
    pub data: Vec<u8>,
    pub sample_rate: u32,
}

#[derive(Debug)]
pub struct Kwv {
    pub waves: Vec<KvvWave>,
}

/// The errors of KWV decoding.
#[derive(Debug, Clone, Copy, PartialEq, Eq)]
pub enum KwvError {
    UnexpectedEof,
    UnsupportedVersion(u32),
    TooManyWaves(u32),
}

pub open spec fn kwv_count(d: Seq<u8>) -> int { le_u32(d, 4) as int }

/// Byte length of wave `i`, from its 32-byte header.
pub open spec fn kwv_wave_len(d: Seq<u8>, i: int) -> int { le_u32(d, 8 + 32 * i + 16) as int }

/// Where the samples of wave `i` begin: after the `n` headers and the
/// samples of waves `0..i`.
pub open spec fn kwv_data_offset(d: Seq<u8>, n: int, i: int) -> int
    decreases i,
{
    if i <= 0 { 8 + 32 * n } else { kwv_data_offset(d, n, i - 1) + kwv_wave_len(d, i - 1) }
}

/// The outcome of decoding `d`.
pub open spec fn kwv_verdict(d: Seq<u8>) -> Result<(), KwvError> {
    if d.len() < 4 {
        Err(KwvError::UnexpectedEof)
    } else if le_u32(d, 0) != 0 {
        Err(KwvError::UnsupportedVersion(le_u32(d, 0)))
    } else if d.len() < 8 {
        Err(KwvError::UnexpectedEof)
    } else if le_u32(d, 4) > 10000 {
        Err(KwvError::TooManyWaves(le_u32(d, 4)))
    } else if d.len() < 8 + 32 * kwv_count(d) {
        Err(KwvError::UnexpectedEof)
    } else if d.len() < kwv_data_offset(d, kwv_count(d), kwv_count(d)) {
        Err(KwvError::UnexpectedEof)
    } else {
        Ok(())
    }
}

proof fn lemma_kwv_offset_mono(d: Seq<u8>, n: int, i: int, j: int)
    requires
        0 <= i <= j,
    ensures
        kwv_data_offset(d, n, i) <= kwv_data_offset(d, n, j),
    decreases j - i,
{
    if i < j {
        lemma_kwv_offset_mono(d, n, i, j - 1);
    }
}

impl KvvWave {
    /// The wave as a mono 16-bit WAV image.
    pub fn to_wav_bytes(&self) -> (bytes: Vec<u8>)
        requires
            wav_writable(1, self.sample_rate, self.data@.len() as int),
        ensures
            bytes@ == wav_pcm16(1, self.sample_rate, Seq::new(self.data@.len(), |i: int| pcm8_to_16(self.data@[i]))),
    {
        let mut samples: Vec<i16> = Vec::with_capacity(self.data.len());
        let mut i: usize = 0;
        while i < self.data.len()
            invariant
                i <= self.data@.len(),
                samples@ == Seq::new(i as nat, |j: int| pcm8_to_16(self.data@[j])),
            decreases self.data@.len() - i,
        {
            samples.push(convert_pcm8(self.data[i]));
            i += 1;
        }
        encode_wav(1, self.sample_rate, samples.as_slice())
    }
}

impl Kwv {
    /// Decodes a KWV bank: version (must be 0), wave count (at most 10000),
    /// 32-byte headers (16-byte name, length, three ignored words), then
    /// the samples of each wave in turn; every wave plays at 11025 Hz.
    pub fn from_bytes(data: &[u8]) -> (res: Result<Self, KwvError>)
        ensures
            match kwv_verdict(data@) {
                Err(e) => res == Err::<Self, KwvError>(e),
                Ok(()) => res is Ok,
            },
            res matches Ok(k) ==> {
                let n = kwv_count(data@);
                &&& k.waves@.len() == n
                &&& forall|i: int| 0 <= i < n ==> {
                    let w = #[trigger] k.waves@[i];
                    let off = kwv_data_offset(data@, n, i);
                    &&& w.name@ == field_name(data@.subrange(8 + 32 * i, 8 + 32 * i + 16))
                    &&& w.data@ == data@.subrange(off, off + kwv_wave_len(data@, i))
                    &&& w.sample_rate == 11025
                }
            },
    {
        let len = data.len();
        if len < 4 {
            return Err(KwvError::UnexpectedEof);
        }
        let version = get_u32(data, 0);
        if version != 0 {
            return Err(KwvError::UnsupportedVersion(version));
        }
        if len < 8 {
            return Err(KwvError::UnexpectedEof);
        }
        let num_waves = get_u32(data, 4);
        if num_waves > 10000 {
            return Err(KwvError::TooManyWaves(num_waves));
        }
        let n = num_waves as usize;
        if 32 * n > len - 8 {
            return Err(KwvError::UnexpectedEof);
        }
        let mut headers: Vec<(String, u32)> = Vec::new();
        let mut i: usize = 0;
        while i < n
            invariant
                len == data@.len(),
                n == kwv_count(data@),
                n <= 10000,
                8 + 32 * n <= len,
                i <= n,
                headers@.len() == i,
                forall|j: int| 0 <= j < i ==> (#[trigger] headers@[j]).0@ == field_name(data@.subrange(8 + 32 * j, 8 + 32 * j + 16))
                    && headers@[j].1 == kwv_wave_len(data@, j),
            decreases n - i,
        {
            let base = 8 + 32 * i;
            let name_bytes = copy_range(data, base, base + 16);
            let name = decode_field_name(name_bytes.as_slice());
            let length = get_u32(data, base + 16);
            headers.push((name, length));
            i += 1;
        }
        let mut waves: Vec<KvvWave> = Vec::new();
        let mut offset: usize = 8 + 32 * n;
        let mut k: usize = 0;
        while k < n
            invariant
                len == data@.len(),
                n == kwv_count(data@),
                n <= 10000,
                8 + 32 * n <= len,
                le_u32(data@, 0) == 0,
                k <= n,
                headers@.len() == n,
                forall|j: int| 0 <= j < n ==> (#[trigger] headers@[j]).0@ == field_name(data@.subrange(8 + 32 * j, 8 + 32 * j + 16))
                    && headers@[j].1 == kwv_wave_len(data@, j),
                offset == kwv_data_offset(data@, n as int, k as int),
                offset <= len,
                waves@.len() == k,
                forall|j: int| 0 <= j < k ==> {
                    let w = #[trigger] waves@[j];
                    let off = kwv_data_offset(data@, n as int, j);
                    &&& w.name@ == field_name(data@.subrange(8 + 32 * j, 8 + 32 * j + 16))
                    &&& w.data@ == data@.subrange(off, off + kwv_wave_len(data@, j))
                    &&& w.sample_rate == 11025
                },
            decreases n - k,
        {
            let length = headers[k].1 as usize;
            if length > len - offset {
                proof {
                    assert(kwv_data_offset(data@, n as int, k + 1) == offset + length);
                    lemma_kwv_offset_mono(data@, n as int, k + 1, n as int);
                }
                return Err(KwvError::UnexpectedEof);
            }
            let wave_data = copy_range(data, offset, offset + length);
            let name = headers[k].0.clone();
            waves.push(KvvWave { name, data: wave_data, sample_rate: 11025 });
            offset += length;
            k += 1;
        }
        Ok(Kwv { waves })
    }
}

} // verus!
