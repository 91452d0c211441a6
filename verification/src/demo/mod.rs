//! Demo recording and playback: 10-byte input tics after an 8-byte header.
pub mod demo_bits;

use vstd::prelude::*;
use crate::reader::{le_u16, le_u32, signed16, signed8, u16_from_le, u32_from_le, to_signed16, to_signed8,
    to_unsigned8, i16_bits, u16_to_le, u32_to_le, lemma_le16_digits, lemma_le32_digits};

verus! {

pub const DEMO_BYTEVERSION: u8 = 116;

#[derive(Debug, Clone, Copy, PartialEq, Eq, Structural, Default)]
pub struct GameticInput {
    pub avel: i8,
    pub horz: i8,
    pub fvel: i16,
    pub svel: i16,
    pub bits: u32,
}

#[derive(Debug, Clone, Copy, PartialEq, Eq, Structural)]
pub struct DemoHeader {
    pub total_tics: u32,
    pub version: u8,
    pub episode: u8,
    pub level: u8,
    pub skill: u8,
}

/// The errors of demo decoding.
#[derive(Debug, Clone, Copy, PartialEq, Eq, Structural)]
pub enum DemoError {
    /// Fewer than 10 bytes for an input tic.
    InputTooShort,
    /// Fewer than 8 bytes for a header.
    HeaderTooShort,
    /// A demo file smaller than its header.
    FileTooSmall,
}

pub open spec fn byte_of(v: int) -> u8 {
    (if v >= 0 { v } else { v + 256 }) as u8
}

pub open spec fn bits16(v: i16) -> int {
    if v >= 0 { v as int } else { v + 65536 }
}

/// The 10-byte encoding of a tic: yaw and pitch deltas, forward and strafe
/// velocities (little-endian), action bits (little-endian).
pub open spec fn gametic_encode(t: GameticInput) -> Seq<u8> {
    seq![
        byte_of(t.avel as int), byte_of(t.horz as int),
        (bits16(t.fvel) % 256) as u8, (bits16(t.fvel) / 256) as u8,
        (bits16(t.svel) % 256) as u8, (bits16(t.svel) / 256) as u8,
        (t.bits % 256) as u8, ((t.bits / 256) % 256) as u8, ((t.bits / 65536) % 256) as u8, (t.bits / 16777216) as u8
    ]
}

pub open spec fn gametic_decode(b: Seq<u8>, p: int) -> GameticInput {
    GameticInput {
        avel: signed8(b[p]),
        horz: signed8(b[p + 1]),
        fvel: signed16(le_u16(b, p + 2)),
        svel: signed16(le_u16(b, p + 4)),
        bits: le_u32(b, p + 6),
    }
}

/// The 8-byte encoding of a header.
pub open spec fn header_encode(h: DemoHeader) -> Seq<u8> {
    seq![
        (h.total_tics % 256) as u8, ((h.total_tics / 256) % 256) as u8,
        ((h.total_tics / 65536) % 256) as u8, (h.total_tics / 16777216) as u8,
        h.version, h.episode, h.level, h.skill
    ]
}

pub open spec fn header_decode(b: Seq<u8>, p: int) -> DemoHeader {
    DemoHeader {
        total_tics: le_u32(b, p),
        version: b[p + 4],
        episode: b[p + 5],
        level: b[p + 6],
        skill: b[p + 7],
    }
}

/// A tic survives encoding and decoding unchanged.
pub proof fn lemma_gametic_roundtrip(t: GameticInput)
    ensures
        gametic_decode(gametic_encode(t), 0) == t,
{
}

/// Decoding then re-encoding a tic gives back its 10 bytes.
pub proof fn lemma_gametic_bytes_roundtrip(b: Seq<u8>)
    requires
        b.len() >= 10,
    ensures
        gametic_encode(gametic_decode(b, 0)) == b.subrange(0, 10),
{
    lemma_le16_digits(b[2], b[3]);
    lemma_le16_digits(b[4], b[5]);
    lemma_le32_digits(b[6], b[7], b[8], b[9]);
    assert(gametic_encode(gametic_decode(b, 0)) =~= b.subrange(0, 10));
}

/// A header survives encoding and decoding unchanged.
pub proof fn lemma_header_roundtrip(h: DemoHeader)
    ensures
        header_decode(header_encode(h), 0) == h,
{
}

impl GameticInput {
    pub fn to_bytes(&self) -> (buf: [u8; 10])
        ensures
            buf@ == gametic_encode(*self),
    {
        let (f0, f1) = u16_to_le(i16_bits(self.fvel));
        let (s0, s1) = u16_to_le(i16_bits(self.svel));
        let (b0, b1, b2, b3) = u32_to_le(self.bits);
        let buf: [u8; 10] = [to_unsigned8(self.avel), to_unsigned8(self.horz), f0, f1, s0, s1, b0, b1, b2, b3];
        assert(buf@ =~= gametic_encode(*self));
        buf
    }

    pub fn from_bytes(buf: &[u8]) -> (res: Result<Self, DemoError>)
        ensures
            buf@.len() < 10 ==> res == Err::<Self, DemoError>(DemoError::InputTooShort),
            buf@.len() >= 10 ==> res == Ok::<Self, DemoError>(gametic_decode(buf@, 0)),
    {
        if buf.len() < 10 {
            return Err(DemoError::InputTooShort);
        }
        Ok(GameticInput {
            avel: to_signed8(buf[0]),
            horz: to_signed8(buf[1]),
            fvel: to_signed16(u16_from_le(buf[2], buf[3])),
            svel: to_signed16(u16_from_le(buf[4], buf[5])),
            bits: u32_from_le(buf[6], buf[7], buf[8], buf[9]),
        })
    }
}

impl DemoHeader {
    pub fn to_bytes(&self) -> (buf: [u8; 8])
        ensures
            buf@ == header_encode(*self),
    {
        let (t0, t1, t2, t3) = u32_to_le(self.total_tics);
        let buf: [u8; 8] = [t0, t1, t2, t3, self.version, self.episode, self.level, self.skill];
        assert(buf@ =~= header_encode(*self));
        buf
    }

    pub fn from_bytes(buf: &[u8]) -> (res: Result<Self, DemoError>)
        ensures
            buf@.len() < 8 ==> res == Err::<Self, DemoError>(DemoError::HeaderTooShort),
            buf@.len() >= 8 ==> res == Ok::<Self, DemoError>(header_decode(buf@, 0)),
    {
        if buf.len() < 8 {
            return Err(DemoError::HeaderTooShort);
        }
        Ok(DemoHeader {
            total_tics: u32_from_le(buf[0], buf[1], buf[2], buf[3]),
            version: buf[4],
            episode: buf[5],
            level: buf[6],
            skill: buf[7],
        })
    }
}

#[derive(Debug, Clone, Default)]
pub struct DemoPlayer {
    pub is_playing: bool,
    pub header: Option<DemoHeader>,
    pub inputs: Vec<GameticInput>,
    pub current_tic: usize,
}

#[derive(Debug, Clone, Default)]
pub struct DemoRecorder {
    pub is_recording: bool,
    pub episode: u8,
    pub level: u8,
    pub skill: u8,
    pub inputs: Vec<GameticInput>,
}

/// The tics of a demo file: every complete 10-byte record after the header.
pub open spec fn demo_file_inputs(b: Seq<u8>) -> Seq<GameticInput> {
    Seq::new(((b.len() - 8) / 10) as nat, |i: int| gametic_decode(b, 8 + 10 * i))
}

/// The demo file of a recording: its header, then every tic in order.
pub open spec fn demo_file_bytes(h: DemoHeader, inputs: Seq<GameticInput>) -> Seq<u8>
    decreases inputs.len(),
{
    if inputs.len() == 0 {
        header_encode(h)
    } else {
        demo_file_bytes(h, inputs.drop_last()) + gametic_encode(inputs.last())
    }
}

proof fn lemma_demo_file_layout(h: DemoHeader, inputs: Seq<GameticInput>)
    ensures
        demo_file_bytes(h, inputs).len() == 8 + 10 * inputs.len(),
        demo_file_bytes(h, inputs).subrange(0, 8) == header_encode(h),
        forall|i: int| 0 <= i < inputs.len() ==>
            #[trigger] demo_file_bytes(h, inputs).subrange(8 + 10 * i, 18 + 10 * i) == gametic_encode(inputs[i]),
    decreases inputs.len(),
{
    if inputs.len() > 0 {
        let pre = inputs.drop_last();
        lemma_demo_file_layout(h, pre);
        let b = demo_file_bytes(h, inputs);
        let a = demo_file_bytes(h, pre);
        assert(b == a + gametic_encode(inputs.last()));
        assert(b.subrange(0, 8) =~= a.subrange(0, 8));
        assert forall|i: int| 0 <= i < inputs.len() implies
            #[trigger] b.subrange(8 + 10 * i, 18 + 10 * i) == gametic_encode(inputs[i]) by {
            if i < pre.len() {
                assert(b.subrange(8 + 10 * i, 18 + 10 * i) =~= a.subrange(8 + 10 * i, 18 + 10 * i));
                assert(pre[i] == inputs[i]);
            } else {
                assert(b.subrange(8 + 10 * i, 18 + 10 * i) =~= gametic_encode(inputs.last()));
            }
        }
    }
}

/// A recorded demo, written to bytes and loaded back, plays the same tics
/// in the same order, with the recording's episode, level and skill.
pub proof fn lemma_demo_file_roundtrip(h: DemoHeader, inputs: Seq<GameticInput>)
    ensures
        demo_file_inputs(demo_file_bytes(h, inputs)) == inputs,
        header_decode(demo_file_bytes(h, inputs), 0) == h,
{
    lemma_demo_file_layout(h, inputs);
    let b = demo_file_bytes(h, inputs);
    assert((b.len() - 8) / 10 == inputs.len());
    assert forall|i: int| 0 <= i < inputs.len() implies #[trigger] gametic_decode(b, 8 + 10 * i) == inputs[i] by {
        let s = b.subrange(8 + 10 * i, 18 + 10 * i);
        assert(s == gametic_encode(inputs[i]));
        lemma_gametic_roundtrip(inputs[i]);
        assert(gametic_decode(b, 8 + 10 * i) == gametic_decode(s, 0));
    }
    assert(demo_file_inputs(b) =~= inputs);
    let hs = b.subrange(0, 8);
    assert(header_decode(b, 0) == header_decode(hs, 0));
}

impl DemoPlayer {
    /// Loads a demo file's bytes and starts playback from the first tic.
    pub fn load_from_bytes(&mut self, buffer: &[u8]) -> (res: Result<(), DemoError>)
        ensures
            buffer@.len() < 8 <==> res == Err::<(), DemoError>(DemoError::FileTooSmall),
            buffer@.len() >= 8 <==> res is Ok,
            res is Err ==> *final(self) == *old(self),
            res is Ok ==> {
                &&& final(self).is_playing
                &&& final(self).header == Some(header_decode(buffer@, 0))
                &&& final(self).inputs@ == demo_file_inputs(buffer@)
                &&& final(self).current_tic == 0
            },
    {
        let len = buffer.len();
        if len < 8 {
            return Err(DemoError::FileTooSmall);
        }
        let header = DemoHeader {
            total_tics: u32_from_le(buffer[0], buffer[1], buffer[2], buffer[3]),
            version: buffer[4],
            episode: buffer[5],
            level: buffer[6],
            skill: buffer[7],
        };
        let mut inputs: Vec<GameticInput> = Vec::new();
        let mut offset: usize = 8;
        let mut k: usize = 0;
        while offset <= len && 10 <= len - offset
            invariant
                len == buffer@.len(),
                len >= 8,
                offset == 8 + 10 * k,
                offset <= len,
                inputs@ == demo_file_inputs(buffer@).subrange(0, k as int),
                k <= (len - 8) / 10,
            decreases len - offset,
        {
            let input = GameticInput {
                avel: to_signed8(buffer[offset]),
                horz: to_signed8(buffer[offset + 1]),
                fvel: to_signed16(u16_from_le(buffer[offset + 2], buffer[offset + 3])),
                svel: to_signed16(u16_from_le(buffer[offset + 4], buffer[offset + 5])),
                bits: u32_from_le(buffer[offset + 6], buffer[offset + 7], buffer[offset + 8], buffer[offset + 9]),
            };
            proof {
                assert((len - 8) / 10 >= k + 1);
                assert(input == gametic_decode(buffer@, offset as int));
                assert(demo_file_inputs(buffer@).subrange(0, k + 1) =~= demo_file_inputs(buffer@).subrange(0, k as int).push(input));
            }
            inputs.push(input);
            offset += 10;
            k += 1;
        }
        assert(k == (len - 8) / 10);
        assert(inputs@ =~= demo_file_inputs(buffer@));
        self.is_playing = true;
        self.header = Some(header);
        self.inputs = inputs;
        self.current_tic = 0;
        Ok(())
    }

    /// The next recorded tic, or `None` (and playback stops) at the end.
    pub fn next_input(&mut self) -> (res: Option<GameticInput>)
        ensures
            !old(self).is_playing ==> res is None && *final(self) == *old(self),
            old(self).is_playing && old(self).current_tic < old(self).inputs@.len() ==> {
                &&& res == Some(old(self).inputs@[old(self).current_tic as int])
                &&& final(self).current_tic == old(self).current_tic + 1
                &&& final(self).is_playing
                &&& final(self).inputs@ == old(self).inputs@
                &&& final(self).header == old(self).header
            },
            old(self).is_playing && old(self).current_tic >= old(self).inputs@.len() ==> {
                &&& res is None
                &&& !final(self).is_playing
                &&& final(self).current_tic == old(self).current_tic
                &&& final(self).inputs@ == old(self).inputs@
                &&& final(self).header == old(self).header
            },
    {
        if !self.is_playing {
            return None;
        }
        if self.current_tic < self.inputs.len() {
            let input = self.inputs[self.current_tic];
            self.current_tic += 1;
            Some(input)
        } else {
            self.is_playing = false;
            None
        }
    }

    pub fn stop(&mut self)
        ensures
            !final(self).is_playing,
            final(self).current_tic == 0,
            final(self).inputs@ == old(self).inputs@,
            final(self).header == old(self).header,
    {
        self.is_playing = false;
        self.current_tic = 0;
    }
}

impl DemoRecorder {
    pub fn start(&mut self, episode: u8, level: u8, skill: u8)
        ensures
            final(self).is_recording,
            final(self).episode == episode,
            final(self).level == level,
            final(self).skill == skill,
            final(self).inputs@ == Seq::<GameticInput>::empty(),
    {
        self.is_recording = true;
        self.episode = episode;
        self.level = level;
        self.skill = skill;
        self.inputs.clear();
    }

    pub fn record_frame(&mut self, input: GameticInput)
        ensures
            final(self).is_recording == old(self).is_recording,
            final(self).episode == old(self).episode,
            final(self).level == old(self).level,
            final(self).skill == old(self).skill,
            old(self).is_recording ==> final(self).inputs@ == old(self).inputs@.push(input),
            !old(self).is_recording ==> final(self).inputs@ == old(self).inputs@,
    {
        if self.is_recording {
            self.inputs.push(input);
        }
    }

    /// The header written for this recording (tic count as `u32`).
    pub open spec fn spec_header(self) -> DemoHeader {
        DemoHeader {
            total_tics: (self.inputs@.len() % 0x1_0000_0000) as u32,
            version: DEMO_BYTEVERSION,
            episode: self.episode,
            level: self.level,
            skill: self.skill,
        }
    }

    /// Stops recording and returns the demo file's bytes: the header, then
    /// every recorded tic.
    pub fn finish_to_bytes(&mut self) -> (bytes: Vec<u8>)
        ensures
            !final(self).is_recording,
            final(self).inputs@ == old(self).inputs@,
            final(self).episode == old(self).episode,
            final(self).level == old(self).level,
            final(self).skill == old(self).skill,
            bytes@ == demo_file_bytes(old(self).spec_header(), old(self).inputs@),
    {
        self.is_recording = false;
        let n = self.inputs.len();
        let total: u32 = ((n as u64) % 0x1_0000_0000u64) as u32;
        let header = DemoHeader {
            total_tics: total,
            version: DEMO_BYTEVERSION,
            episode: self.episode,
            level: self.level,
            skill: self.skill,
        };
        let hb = header.to_bytes();
        let mut bytes: Vec<u8> = Vec::new();
        let mut j: usize = 0;
        while j < 8
            invariant
                j <= 8,
                hb@ == header_encode(header),
                bytes@ == hb@.subrange(0, j as int),
            decreases 8 - j,
        {
            bytes.push(hb[j]);
            j += 1;
        }
        assert(bytes@ == demo_file_bytes(header, self.inputs@.subrange(0, 0)));
        let mut i: usize = 0;
        while i < n
            invariant
                n == self.inputs@.len(),
                i <= n,
                bytes@ == demo_file_bytes(header, self.inputs@.subrange(0, i as int)),
            decreases n - i,
        {
            let tb = self.inputs[i].to_bytes();
            let ghost before = bytes@;
            let mut j: usize = 0;
            while j < 10
                invariant
                    j <= 10,
                    tb@ == gametic_encode(self.inputs@[i as int]),
                    bytes@ == before + tb@.subrange(0, j as int),
                decreases 10 - j,
            {
                bytes.push(tb[j]);
                j += 1;
            }
            proof {
                let s = self.inputs@.subrange(0, i + 1);
                assert(s.drop_last() =~= self.inputs@.subrange(0, i as int));
                assert(tb@.subrange(0, 10) =~= tb@);
            }
            i += 1;
        }
        assert(self.inputs@.subrange(0, n as int) =~= self.inputs@);
        bytes
    }
}

} // verus!
