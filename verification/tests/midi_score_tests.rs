use dukenukemrust::midi_score::{midi_score, MidiError, MidiEvent, MidiEventKind, MidiTiming, TickNote};

fn smf(track: &[u8]) -> Vec<u8> {
    let mut b = Vec::new();
    b.extend_from_slice(b"MThd");
    b.extend_from_slice(&6u32.to_be_bytes());
    b.extend_from_slice(&[0, 0, 0, 1, 0, 96]);
    b.extend_from_slice(b"MTrk");
    b.extend_from_slice(&(track.len() as u32).to_be_bytes());
    b.extend_from_slice(track);
    b
}

#[test]
fn midi_notes_are_paired_by_channel_and_key() {
    let bytes = smf(&[
        0x00, 0x90, 60, 100, // note on, channel 0
        0x60, 0x80, 60, 64, // note off 96 ticks later
        0x00, 0xC1, 5, // program change on channel 1
        0x00, 0x91, 62, 90, // note on, channel 1
        0x10, 0x91, 62, 0, // note on with velocity 0 ends it
        0x00, 0x99, 36, 80, // drum, left sounding
        0x00, 0xFF, 0x2F, 0x00, // end of track
    ]);
    let score = midi_score(&bytes).unwrap();
    assert_eq!(score.timing, MidiTiming::Metrical(96));
    assert_eq!(score.tracks.len(), 1);
    assert_eq!(score.tracks[0].len(), 7);
    assert_eq!(score.tracks[0][1], MidiEvent(96, MidiEventKind::KeyOff(0, 60)));
    assert_eq!(score.tracks[0][2], MidiEvent(0, MidiEventKind::Program(1, 5)));
    assert_eq!(score.tracks[0][6].1, MidiEventKind::Other);
    assert_eq!(
        score.notes,
        vec![
            TickNote { track: 0, start_event: 0, end_event: Some(1), channel: 0, key: 60, velocity: 100, instrument: 0, is_drum: false },
            TickNote { track: 0, start_event: 3, end_event: Some(4), channel: 1, key: 62, velocity: 90, instrument: 5, is_drum: false },
            TickNote { track: 0, start_event: 5, end_event: None, channel: 9, key: 36, velocity: 80, instrument: 0, is_drum: true },
        ]
    );
}

#[test]
fn midi_without_notes_or_header_is_refused() {
    let silent = smf(&[0x00, 0xC0, 3, 0x00, 0x80, 60, 0, 0x00, 0xFF, 0x2F, 0x00]);
    assert_eq!(midi_score(&silent).unwrap_err(), MidiError::NoNotes);
    assert_eq!(midi_score(b"not a midi file").unwrap_err(), MidiError::Parse);
    assert_eq!(midi_score(&[]).unwrap_err(), MidiError::Parse);
}

#[test]
fn midi_restruck_key_replaces_the_sounding_note() {
    let bytes = smf(&[
        0x00, 0x90, 60, 100,
        0x10, 0x90, 60, 50, // struck again before it ended: the first is dropped
        0x10, 0x80, 60, 0,
        0x00, 0xFF, 0x2F, 0x00,
    ]);
    let score = midi_score(&bytes).unwrap();
    assert_eq!(
        score.notes,
        vec![TickNote { track: 0, start_event: 1, end_event: Some(2), channel: 0, key: 60, velocity: 50, instrument: 0, is_drum: false }]
    );
}
