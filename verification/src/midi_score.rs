//! Standard MIDI files as a score: the events of each track (read with
//! `midly`) and the notes they play, paired in event order.
use vstd::prelude::*;
use midly::{Smf, MetaMessage::Tempo, MidiMessage::{NoteOn, NoteOff, ProgramChange}, Timing::{Metrical, Timecode},
    TrackEventKind::{Meta, Midi}};
use self::MidiEventKind::{TempoChange, KeyOn, KeyOff, Program, Other};

verus! {

/// How a file counts time: ticks per quarter note, or SMPTE frames per
/// second (24, 25, 29 for 29.97 drop-frame, 30) and ticks per frame.
#[derive(Debug, Clone, Copy, PartialEq, Eq, Structural)]
pub enum MidiTiming {
    Metrical(u16),
    Timecode(u8, u8),
}

/// The events the synthesiser reads; every other event is `Other`.
#[derive(Debug, Clone, Copy, PartialEq, Eq, Structural)]
pub enum MidiEventKind {
    /// A tempo change: microseconds per quarter note.
    TempoChange(u32),
    /// Note on: channel, key, velocity.
    KeyOn(u8, u8, u8),
    /// Note off: channel, key.
    KeyOff(u8, u8),
    /// Program change: channel, program.
    Program(u8, u8),
    Other,
}

/// An event: the ticks since the previous event of its track, and what it
/// is.
#[derive(Debug, Clone, Copy, PartialEq, Eq, Structural)]
pub struct MidiEvent(pub u32, pub MidiEventKind);

/// A sounding note: the track and the event that started it, the event
/// that ended it (`None`: it sounds to the end of the track), its channel,
/// key and velocity, the program of its channel when it ended, and whether
/// it is on the percussion channel (channel 10, index 9).
#[derive(Debug, Clone, Copy, PartialEq, Eq, Structural)]
pub struct TickNote {
    pub track: usize,
    pub start_event: usize,
    pub end_event: Option<usize>,
    pub channel: u8,
    pub key: u8,
    pub velocity: u8,
    pub instrument: u8,
    pub is_drum: bool,
}

/// A note that has started and not yet ended.
#[derive(Debug, Clone, Copy, PartialEq, Eq, Structural)]
pub struct ActiveNote {
    pub channel: u8,
    pub key: u8,
    pub start: usize,
    pub vel: u8,
}

/// Why a file gives no score.
#[derive(Debug, Clone, Copy, PartialEq, Eq, Structural)]
pub enum MidiError {
    /// The bytes are not a standard MIDI file.
    Parse,
    /// No note is ever struck.
    NoNotes,
}

/// A parsed file and its notes.
#[derive(Debug)]
pub struct MidiScore {
    pub timing: MidiTiming,
    pub tracks: Vec<Vec<MidiEvent>>,
    pub notes: Vec<TickNote>,
}

/// The tracks as sequences of events.
pub open spec fn tracks_view(t: Vec<Vec<MidiEvent>>) -> Seq<Seq<MidiEvent>> {
    Seq::new(t@.len(), |i: int| t@[i]@)
}

/// The timing in the header of a standard MIDI file as `midly::parse`
/// reads it, or nothing when the bytes have no valid header.
pub uninterp spec fn midi_header_timing(bytes: Seq<u8>) -> Option<MidiTiming>;

/// The tracks of a standard MIDI file as `midly::Smf::parse` reads them, or
/// nothing when the bytes are not such a file.
pub uninterp spec fn midi_tracks_parsed(bytes: Seq<u8>) -> Option<Seq<Seq<MidiEvent>>>;

/// Channels are 4-bit, keys, velocities and programs 7-bit, and deltas
/// 28-bit, as the file format stores them.
pub open spec fn event_in_range(e: MidiEvent) -> bool {
    &&& e.0 < 0x1000_0000
    &&& match e.1 {
        KeyOn(channel, key, vel) => channel < 16 && key < 128 && vel < 128,
        KeyOff(channel, key) => channel < 16 && key < 128,
        Program(channel, program) => channel < 16 && program < 128,
        _ => true,
    }
}

pub open spec fn events_in_range(tracks: Seq<Seq<MidiEvent>>) -> bool {
    forall|t: int, i: int| 0 <= t < tracks.len() && 0 <= i < tracks[t].len() ==> #[trigger] event_in_range(tracks[t][i])
}

/// Reads the header of a MIDI file with `midly::parse`, keeping its
/// timing (ticks per quarter note, or frames per second and ticks per
/// frame); the result is `midi_header_timing` of the bytes.
#[verifier::external_body]
fn parse_midi_timing(bytes: &[u8]) -> (r: Option<MidiTiming>)
    ensures
        r == midi_header_timing(bytes@),
{
    match midly::parse(bytes).ok()?.0.timing {
        Metrical(t) => Some(MidiTiming::Metrical(t.as_int())),
        Timecode(f, s) => Some(MidiTiming::Timecode(f.as_int(), s)),
    }
}

/// Reads a standard MIDI file with `midly::Smf::parse`, keeping of each
/// event its delta and, for tempo, note-on, note-off and program-change
/// events, their fields; the result is `midi_tracks_parsed` of the bytes.
/// `Smf::parse` reads the header with `midly::parse` first, so a file it
/// reads has a header; the field ranges are those of midly's `u4`, `u7` and
/// `u28` types.
#[verifier::external_body]
fn parse_midi_tracks(bytes: &[u8]) -> (r: Option<Vec<Vec<MidiEvent>>>)
    ensures
        r is None <==> midi_tracks_parsed(bytes@) is None,
        r matches Some(x) ==> midi_tracks_parsed(bytes@) == Some(tracks_view(x)),
        r matches Some(x) ==> events_in_range(tracks_view(x)),
        r is Some ==> midi_header_timing(bytes@) is Some,
{
    let smf = Smf::parse(bytes).ok()?;
    Some(smf.tracks.iter().map(|t| t.iter().map(|e| MidiEvent(e.delta.as_int(), match e.kind {
        Meta(Tempo(v)) => TempoChange(v.as_int()),
        Midi { channel: c, message: NoteOn { key, vel } } => KeyOn(c.as_int(), key.as_int(), vel.as_int()),
        Midi { channel: c, message: NoteOff { key, .. } } => KeyOff(c.as_int(), key.as_int()),
        Midi { channel: c, message: ProgramChange { program } } => Program(c.as_int(), program.as_int()),
        _ => Other,
    })).collect()).collect())
}

/// The first active note on `channel` and `key`.
pub open spec fn first_match(a: Seq<ActiveNote>, channel: u8, key: u8) -> Option<ActiveNote>
    decreases a.len(),
{
    if a.len() == 0 {
        None
    } else if a[0].channel == channel && a[0].key == key {
        Some(a[0])
    } else {
        first_match(a.drop_first(), channel, key)
    }
}

/// The active notes other than those on `channel` and `key`, in order.
pub open spec fn without_key(a: Seq<ActiveNote>, channel: u8, key: u8) -> Seq<ActiveNote>
    decreases a.len(),
{
    if a.len() == 0 {
        a
    } else {
        let r = without_key(a.drop_last(), channel, key);
        if a.last().channel == channel && a.last().key == key { r } else { r.push(a.last()) }
    }
}

proof fn lemma_without_key_channels(a: Seq<ActiveNote>, channel: u8, key: u8)
    requires
        forall|k: int| 0 <= k < a.len() ==> #[trigger] a[k].channel < 16,
    ensures
        forall|k: int| 0 <= k < without_key(a, channel, key).len() ==> #[trigger] without_key(a, channel, key)[k].channel < 16,
    decreases a.len(),
{
    if a.len() > 0 {
        let d = a.drop_last();
        assert forall|k: int| 0 <= k < d.len() implies #[trigger] d[k].channel < 16 by {
            assert(d[k] == a[k]);
        }
        lemma_without_key_channels(d, channel, key);
        let r = without_key(d, channel, key);
        assert(a.last() == a[a.len() - 1]);
        assert forall|k: int| 0 <= k < without_key(a, channel, key).len()
            implies #[trigger] without_key(a, channel, key)[k].channel < 16 by {
            if k < r.len() {
                assert(r[k].channel < 16);
            }
        }
    }
}

/// The program of a channel (0 until a program change).
pub open spec fn program_of(prog: Seq<u8>, channel: u8) -> u8 {
    prog[channel as int]
}

/// A track's state while its events are read: the active notes in the
/// order they started, the program of each of the 16 channels, and the
/// notes ended so far.
pub type TrackState = (Seq<ActiveNote>, Seq<u8>, Seq<TickNote>);

pub open spec fn initial_track_state() -> TrackState {
    (Seq::empty(), Seq::new(16, |i: int| 0u8), Seq::empty())
}

/// Ends the active note on `channel`/`key`, if any, at event `end`.
pub open spec fn close_note(st: TrackState, track: usize, channel: u8, key: u8, end: Option<usize>) -> TrackState {
    match first_match(st.0, channel, key) {
        Some(n) => (without_key(st.0, channel, key), st.1, st.2.push(TickNote {
            track,
            start_event: n.start,
            end_event: end,
            channel,
            key,
            velocity: n.vel,
            instrument: program_of(st.1, channel),
            is_drum: channel == 9,
        })),
        None => st,
    }
}

/// Reads event `i` of a track: a program change sets its channel's program;
/// a note-on with velocity starts a note (replacing one already sounding on
/// that channel and key); a note-off, or a note-on with velocity 0, ends the
/// note on that channel and key; other events change nothing here.
pub open spec fn track_step(st: TrackState, track: usize, i: usize, e: MidiEvent) -> TrackState {
    match e.1 {
        Program(channel, program) => (st.0, st.1.update(channel as int, program), st.2),
        KeyOn(channel, key, vel) =>
            if vel > 0 {
                (without_key(st.0, channel, key).push(ActiveNote { channel, key, start: i, vel }), st.1, st.2)
            } else {
                close_note(st, track, channel, key, Some(i))
            },
        KeyOff(channel, key) => close_note(st, track, channel, key, Some(i)),
        _ => st,
    }
}

/// The state after the first `k` events of a track.
pub open spec fn track_run(track: usize, ev: Seq<MidiEvent>, k: nat) -> TrackState
    decreases k,
{
    if k == 0 {
        initial_track_state()
    } else {
        track_step(track_run(track, ev, (k - 1) as nat), track, (k - 1) as usize, ev[k - 1])
    }
}

/// A note still sounding when its track ends.
pub open spec fn leftover_note(n: ActiveNote, prog: Seq<u8>, track: usize) -> TickNote {
    TickNote {
        track,
        start_event: n.start,
        end_event: None,
        channel: n.channel,
        key: n.key,
        velocity: n.vel,
        instrument: program_of(prog, n.channel),
        is_drum: n.channel == 9,
    }
}

/// The notes of a track: those ended by an event, in the order they ended,
/// then those still sounding at its end, in the order they started.
pub open spec fn track_notes(track: usize, ev: Seq<MidiEvent>) -> Seq<TickNote> {
    let st = track_run(track, ev, ev.len());
    st.2 + Seq::new(st.0.len(), |j: int| leftover_note(st.0[j], st.1, track))
}

/// The notes of the first `k` tracks, track by track.
pub open spec fn notes_upto(tracks: Seq<Seq<MidiEvent>>, k: nat) -> Seq<TickNote>
    decreases k,
{
    if k == 0 {
        Seq::empty()
    } else {
        notes_upto(tracks, (k - 1) as nat) + track_notes((k - 1) as usize, tracks[k - 1])
    }
}

pub open spec fn all_notes(tracks: Seq<Seq<MidiEvent>>) -> Seq<TickNote> {
    notes_upto(tracks, tracks.len())
}

/// The first active note on `channel` and `key`.
fn find_active(a: &Vec<ActiveNote>, channel: u8, key: u8) -> (r: Option<ActiveNote>)
    ensures
        r == first_match(a@, channel, key),
{
    let n = a.len();
    let mut i: usize = 0;
    assert(a@.subrange(0, n as int) =~= a@);
    while i < n
        invariant
            n == a@.len(),
            i <= n,
            first_match(a@.subrange(i as int, n as int), channel, key) == first_match(a@, channel, key),
        decreases n - i,
    {
        assert(a@.subrange(i as int, n as int).drop_first() =~= a@.subrange(i + 1, n as int));
        if a[i].channel == channel && a[i].key == key {
            return Some(a[i]);
        }
        i += 1;
    }
    None
}

/// The active notes without those on `channel` and `key`.
fn remove_key(a: &Vec<ActiveNote>, channel: u8, key: u8) -> (r: Vec<ActiveNote>)
    ensures
        r@ == without_key(a@, channel, key),
{
    let n = a.len();
    let mut out: Vec<ActiveNote> = Vec::new();
    let mut i: usize = 0;
    assert(a@.subrange(0, 0) =~= Seq::<ActiveNote>::empty());
    while i < n
        invariant
            n == a@.len(),
            i <= n,
            out@ == without_key(a@.subrange(0, i as int), channel, key),
        decreases n - i,
    {
        assert(a@.subrange(0, i + 1).drop_last() =~= a@.subrange(0, i as int));
        let x = a[i];
        if !(x.channel == channel && x.key == key) {
            out.push(x);
        }
        i += 1;
    }
    assert(a@.subrange(0, n as int) =~= a@);
    out
}

/// Appends the notes of one track to `out`.
fn collect_track(track: usize, ev: &Vec<MidiEvent>, out: &mut Vec<TickNote>)
    requires
        forall|i: int| 0 <= i < ev@.len() ==> #[trigger] event_in_range(ev@[i]),
    ensures
        final(out)@ == old(out)@ + track_notes(track, ev@),
{
    let mut active: Vec<ActiveNote> = Vec::new();
    let mut prog: Vec<u8> = Vec::new();
    let mut c: usize = 0;
    while c < 16
        invariant
            c <= 16,
            prog@ == Seq::new(c as nat, |i: int| 0u8),
        decreases 16 - c,
    {
        prog.push(0);
        proof {
            assert(prog@ =~= Seq::new((c + 1) as nat, |i: int| 0u8));
        }
        c += 1;
    }
    let ghost base = out@;
    let n = ev.len();
    let mut i: usize = 0;
    while i < n
        invariant
            n == ev@.len(),
            i <= n,
            forall|j: int| 0 <= j < ev@.len() ==> #[trigger] event_in_range(ev@[j]),
            prog@.len() == 16,
            forall|k: int| 0 <= k < active@.len() ==> #[trigger] active@[k].channel < 16,
            (active@, prog@, out@.subrange(base.len() as int, out@.len() as int)) == track_run(track, ev@, i as nat),
            out@.len() >= base.len(),
            out@.subrange(0, base.len() as int) == base,
        decreases n - i,
    {
        let e = ev[i];
        let ghost st = track_run(track, ev@, i as nat);
        let ghost old_out = out@;
        assert(event_in_range(ev@[i as int]));
        proof {
            if let KeyOn(channel, key, vel) = e.1 {
                lemma_without_key_channels(active@, channel, key);
            }
            if let KeyOff(channel, key) = e.1 {
                lemma_without_key_channels(active@, channel, key);
            }
        }
        match e.1 {
            Program(channel, program) => {
                prog.set(channel as usize, program);
            },
            KeyOn(channel, key, vel) => {
                if vel > 0 {
                    let mut rest = remove_key(&active, channel, key);
                    rest.push(ActiveNote { channel, key, start: i, vel });
                    active = rest;
                } else {
                    match find_active(&active, channel, key) {
                        Some(a) => {
                            out.push(TickNote { track, start_event: a.start, end_event: Some(i), channel, key,
                                velocity: a.vel, instrument: prog[channel as usize], is_drum: channel == 9 });
                            active = remove_key(&active, channel, key);
                        },
                        None => {},
                    }
                }
            },
            KeyOff(channel, key) => {
                match find_active(&active, channel, key) {
                    Some(a) => {
                        out.push(TickNote { track, start_event: a.start, end_event: Some(i), channel, key,
                            velocity: a.vel, instrument: prog[channel as usize], is_drum: channel == 9 });
                        active = remove_key(&active, channel, key);
                    },
                    None => {},
                }
            },
            _ => {},
        }
        proof {
            assert(out@.subrange(0, base.len() as int) =~= base);
            if out@.len() > old_out.len() {
                assert(out@.subrange(base.len() as int, out@.len() as int)
                    =~= old_out.subrange(base.len() as int, old_out.len() as int).push(out@.last()));
            } else {
                assert(out@.subrange(base.len() as int, out@.len() as int)
                    =~= old_out.subrange(base.len() as int, old_out.len() as int));
            }
        }
        i += 1;
    }
    let ghost ended = out@;
    let m = active.len();
    let mut j: usize = 0;
    while j < m
        invariant
            m == active@.len(),
            j <= m,
            prog@.len() == 16,
            forall|k: int| 0 <= k < m ==> #[trigger] active@[k].channel < 16,
            out@ == ended + Seq::new(j as nat, |k: int| leftover_note(active@[k], prog@, track)),
        decreases m - j,
    {
        let a = active[j];
        out.push(TickNote { track, start_event: a.start, end_event: None, channel: a.channel, key: a.key,
            velocity: a.vel, instrument: prog[a.channel as usize], is_drum: a.channel == 9 });
        proof {
            assert(out@ =~= ended + Seq::new((j + 1) as nat, |k: int| leftover_note(active@[k], prog@, track)));
        }
        j += 1;
    }
    proof {
        assert(out@ =~= base + track_notes(track, ev@));
    }
}

/// The notes of all tracks, track by track; `NoNotes` when no note is
/// ever struck.
pub fn collect_notes(tracks: &Vec<Vec<MidiEvent>>) -> (r: Result<Vec<TickNote>, MidiError>)
    requires
        events_in_range(tracks_view(*tracks)),
    ensures
        all_notes(tracks_view(*tracks)).len() == 0 <==> r == Err::<Vec<TickNote>, MidiError>(MidiError::NoNotes),
        all_notes(tracks_view(*tracks)).len() > 0 <==> r is Ok,
        r matches Ok(v) ==> v@ == all_notes(tracks_view(*tracks)),
{
    let ghost tv = tracks_view(*tracks);
    let mut out: Vec<TickNote> = Vec::new();
    let n = tracks.len();
    let mut t: usize = 0;
    while t < n
        invariant
            n == tracks@.len(),
            tv == tracks_view(*tracks),
            events_in_range(tv),
            t <= n,
            out@ == notes_upto(tv, t as nat),
        decreases n - t,
    {
        assert(tv[t as int] == tracks@[t as int]@);
        assert forall|i: int| 0 <= i < tracks@[t as int]@.len() implies #[trigger] event_in_range(tracks@[t as int]@[i]) by {
            assert(event_in_range(tv[t as int][i]));
        }
        collect_track(t, &tracks[t], &mut out);
        t += 1;
    }
    if out.len() == 0 {
        Err(MidiError::NoNotes)
    } else {
        Ok(out)
    }
}

/// Reads a MIDI file as a score: `Parse` when `midly` cannot read it,
/// `NoNotes` when no note is ever struck, else its timing, its tracks and
/// their notes.
pub fn midi_score(bytes: &[u8]) -> (r: Result<MidiScore, MidiError>)
    ensures
        midi_tracks_parsed(bytes@) is None <==> r == Err::<MidiScore, MidiError>(MidiError::Parse),
        midi_tracks_parsed(bytes@) matches Some(tr) ==> (all_notes(tr).len() == 0
            <==> r == Err::<MidiScore, MidiError>(MidiError::NoNotes)),
        r matches Ok(s) ==> {
            &&& midi_tracks_parsed(bytes@) == Some(tracks_view(s.tracks))
            &&& midi_header_timing(bytes@) == Some(s.timing)
            &&& s.notes@ == all_notes(tracks_view(s.tracks))
        },
{
    let tracks = match parse_midi_tracks(bytes) {
        None => return Err(MidiError::Parse),
        Some(t) => t,
    };
    let timing = match parse_midi_timing(bytes) {
        None => return Err(MidiError::Parse),
        Some(t) => t,
    };
    match collect_notes(&tracks) {
        Ok(notes) => Ok(MidiScore { timing, tracks, notes }),
        Err(e) => Err(e),
    }
}

} // verus!
