//! 16-bit PCM RIFF/WAVE images, written through `hound`.
use vstd::prelude::*;

verus! {

/// Two little-endian bytes of `v` (taken modulo 2^16).
pub open spec fn le16_bytes(v: int) -> Seq<u8> {
    seq![(v % 256) as u8, ((v / 256) % 256) as u8]
}

/// Four little-endian bytes of `v` (taken modulo 2^32).
pub open spec fn le32_bytes(v: int) -> Seq<u8> {
    seq![(v % 256) as u8, ((v / 256) % 256) as u8, ((v / 65536) % 256) as u8, ((v / 16777216) % 256) as u8]
}

/// The bit pattern of a 16-bit sample.
pub open spec fn sample_bits(s: i16) -> int {
    if s >= 0 { s as int } else { s + 65536 }
}

/// Samples as little-endian 16-bit words.
pub open spec fn pcm16_bytes(samples: Seq<i16>) -> Seq<u8> {
    Seq::new(2 * samples.len(), |k: int|
        if k % 2 == 0 { (sample_bits(samples[k / 2]) % 256) as u8 } else { (sample_bits(samples[k / 2]) / 256) as u8 })
}

/// The canonical 44-byte PCM header (RIFF, WAVE, a 16-byte `fmt ` chunk with
/// format tag 1, then the `data` chunk header) followed by the samples.
pub open spec fn wav_pcm16(channels: u16, sample_rate: u32, samples: Seq<i16>) -> Seq<u8> {
    let data_len: int = 2 * (samples.len() as int);
    seq![82u8, 73, 70, 70] + le32_bytes(36 + data_len) + seq![87u8, 65, 86, 69]
        + seq![102u8, 109, 116, 32] + le32_bytes(16) + le16_bytes(1) + le16_bytes(channels as int)
        + le32_bytes(sample_rate as int) + le32_bytes(sample_rate * 2 * channels)
        + le16_bytes(2 * channels) + le16_bytes(16)
        + seq![100u8, 97, 116, 97] + le32_bytes(data_len) + pcm16_bytes(samples)
}

/// The `dwChannelMask` hound writes for `channels`: the lowest
/// `min(channels, 18)` bits set.
pub open spec fn channel_mask(channels: u16) -> int {
    vstd::arithmetic::power2::pow2(if channels > 18 { 18nat } else { channels as nat }) - 1
}

/// The SubFormat GUID of integer PCM (KSDATAFORMAT_SUBTYPE_PCM).
pub open spec fn subtype_pcm_guid() -> Seq<u8> {
    seq![0x01u8, 0x00, 0x00, 0x00, 0x00, 0x00, 0x10, 0x00, 0x80, 0x00, 0x00, 0xaa, 0x00, 0x38, 0x9b, 0x71]
}

/// The 68-byte WAVEFORMATEXTENSIBLE header (a 40-byte `fmt ` chunk with
/// format tag 0xFFFE, 16-bit container and valid bits, the channel mask and
/// the PCM SubFormat GUID, then the `data` chunk header) followed by the
/// samples: what is written for more than two channels.
pub open spec fn wav_ext_pcm16(channels: u16, sample_rate: u32, samples: Seq<i16>) -> Seq<u8> {
    let data_len: int = 2 * (samples.len() as int);
    seq![82u8, 73, 70, 70] + le32_bytes(60 + data_len) + seq![87u8, 65, 86, 69]
        + seq![102u8, 109, 116, 32] + le32_bytes(40) + le16_bytes(0xfffe) + le16_bytes(channels as int)
        + le32_bytes(sample_rate as int) + le32_bytes(sample_rate * 2 * channels)
        + le16_bytes(2 * channels) + le16_bytes(16)
        + le16_bytes(22) + le16_bytes(16) + le32_bytes(channel_mask(channels)) + subtype_pcm_guid()
        + seq![100u8, 97, 116, 97] + le32_bytes(data_len) + pcm16_bytes(samples)
}

/// The WAV image of 16-bit samples: the plain PCM header for one or two
/// channels, the extensible header for more.
pub open spec fn wav_image(channels: u16, sample_rate: u32, samples: Seq<i16>) -> Seq<u8> {
    if channels <= 2 { wav_pcm16(channels, sample_rate, samples) } else { wav_ext_pcm16(channels, sample_rate, samples) }
}

/// Bytes of the header after the RIFF size field: 36 for the plain header,
/// 60 for the extensible one.
pub open spec fn wav_header_rest(channels: u16) -> int {
    if channels <= 2 { 36 } else { 60 }
}

/// What `hound` needs to write these samples without failing: at least one
/// channel, a nonzero rate, byte rate and sizes within `u32`, and whole
/// frames.
pub open spec fn wav_writable(channels: u16, sample_rate: u32, n_samples: int) -> bool {
    &&& channels >= 1
    &&& sample_rate >= 1
    &&& sample_rate * 2 * channels <= u32::MAX
    &&& 2 * n_samples + wav_header_rest(channels) <= u32::MAX
    &&& n_samples % (channels as int) == 0
}

/// Tells whether `wav_writable` holds, so that a caller can test it before
/// encoding.
pub fn is_wav_writable(channels: u16, sample_rate: u32, n_samples: usize) -> (b: bool)
    ensures
        b == wav_writable(channels, sample_rate, n_samples as int),
{
    if channels == 0 || sample_rate == 0 {
        return false;
    }
    assert(sample_rate * 2 * channels <= 0xffff_ffffu64 * 2 * 0xffffu64) by (nonlinear_arith)
        requires sample_rate <= 0xffff_ffffu64, channels <= 0xffffu64;
    let byte_rate: u64 = sample_rate as u64 * 2 * channels as u64;
    let rest: u64 = if channels <= 2 { 36 } else { 60 };
    if byte_rate > 0xffff_ffff {
        return false;
    }
    if n_samples as u64 > (0xffff_ffffu64 - rest) / 2 {
        return false;
    }
    n_samples % (channels as usize) == 0
}

/// Writes 16-bit integer samples as a WAV image with `hound::WavWriter` over
/// an in-memory cursor. For one or two channels hound writes the plain
/// PCMWAVEFORMAT header, for more the WAVEFORMATEXTENSIBLE header
/// (`wav_image`); the RIFF and data sizes fit `u32` by `wav_writable`.
#[verifier::external_body]
fn write_wav_pcm16(channels: u16, sample_rate: u32, samples: &[i16]) -> (bytes: Vec<u8>)
    requires
        wav_writable(channels, sample_rate, samples@.len() as int),
    ensures
        bytes@ == wav_image(channels, sample_rate, samples@),
{
    let spec = hound::WavSpec { channels, sample_rate, bits_per_sample: 16, sample_format: hound::SampleFormat::Int };
    let mut out = Vec::new();
    {
        let mut writer = hound::WavWriter::new(std::io::Cursor::new(&mut out), spec).expect("WavWriter");
        for &s in samples {
            writer.write_sample(s).expect("write_sample");
        }
        writer.finalize().expect("finalize");
    }
    out
}

/// The 16-bit sample for an unsigned 8-bit PCM byte (128 is silence).
pub open spec fn pcm8_to_16(b: u8) -> i16 {
    ((b as int - 128) * 256) as i16
}

pub fn convert_pcm8(b: u8) -> (s: i16)
    ensures
        s == pcm8_to_16(b),
{
    (b as i16 - 128) * 256
}

/// Encodes samples as a WAV image.
pub fn encode_wav(channels: u16, sample_rate: u32, samples: &[i16]) -> (bytes: Vec<u8>)
    requires
        wav_writable(channels, sample_rate, samples@.len() as int),
    ensures
        bytes@ == wav_image(channels, sample_rate, samples@),
{
    write_wav_pcm16(channels, sample_rate, samples)
}

} // verus!
