use dukenukemrust::sounds::{get_sound_by_name, request_duke_voice, DukeVoiceQueue};
use dukenukemrust::kwv::{KvvWave, Kwv, KwvError};
use dukenukemrust::midi::{LevelMidiTrack, MidiSynth};
use dukenukemrust::rts::{DukeRts, RtsError};
use dukenukemrust::voc::{VocError, VocSound};
use dukenukemrust::wav::{convert_pcm8, encode_wav, is_wav_writable};

#[test]
fn midi_test_midi_track_mapping() {
    assert_eq!(LevelMidiTrack::for_level(1, 1), LevelMidiTrack::E1L1Stalker);
    assert_eq!(LevelMidiTrack::for_level(1, 2), LevelMidiTrack::E1L2Dethtoll);
    assert_eq!(LevelMidiTrack::for_level(1, 3), LevelMidiTrack::E1L3Streets);
    assert_eq!(LevelMidiTrack::for_level(1, 4), LevelMidiTrack::E1L4Watrwrld);
    assert_eq!(LevelMidiTrack::for_level(1, 5), LevelMidiTrack::E1L5Snake1);
    assert_eq!(LevelMidiTrack::for_level(1, 6), LevelMidiTrack::E1L6TheCall);
    assert_eq!(LevelMidiTrack::E1L1Stalker.filename(), "STALKER.MID");
}

#[test]
fn midi_track_fallbacks_and_campaign_music() {
    assert_eq!(LevelMidiTrack::for_level(1, 7), LevelMidiTrack::E1L7Ahgeez);
    assert_eq!(LevelMidiTrack::for_level(3, 2), LevelMidiTrack::TitleGrabbag);
    assert_eq!(LevelMidiTrack::TitleGrabbag.filename(), "GRABBAG.MID");
    assert_eq!(LevelMidiTrack::filename_for_campaign_map(9, 9), "GRABBAG.MID");
    assert_eq!(LevelMidiTrack::filename_for_campaign_map(1, 1), "STALKER.MID");
    assert_eq!(MidiSynth::new(22050).sample_rate, 22050);
    assert_eq!(MidiSynth::default_rate().sample_rate, 22050);
}

#[test]
fn test_kwv_wave_to_wav_bytes() {
    let wave = KvvWave {
        name: "PISTOL".into(),
        data: vec![128, 200, 50, 128], // 8-bit unsigned PCM
        sample_rate: 11025,
    };

    let wav_bytes = wave.to_wav_bytes();
    // RIFF header starts with b"RIFF" and has b"WAVE"
    assert!(wav_bytes.starts_with(b"RIFF"));
    assert_eq!(&wav_bytes[8..12], b"WAVE");
}

#[test]
fn test_kwv_parse_empty() {
    // Version 0, num_waves 0
    let mut data = Vec::new();
    data.extend_from_slice(&0u32.to_le_bytes()); // Version 0
    data.extend_from_slice(&0u32.to_le_bytes()); // 0 waves

    let kwv = Kwv::from_bytes(&data).unwrap();
    assert_eq!(kwv.waves.len(), 0);
}

fn kwv_with_one_wave() -> Vec<u8> {
    let mut d = Vec::new();
    d.extend_from_slice(&0u32.to_le_bytes());
    d.extend_from_slice(&1u32.to_le_bytes());
    let mut name = [0u8; 16];
    name[..4].copy_from_slice(b"BOOM");
    d.extend_from_slice(&name);
    d.extend_from_slice(&3u32.to_le_bytes()); // length
    d.extend_from_slice(&[0u8; 12]); // loop start, loop length, fine tune
    d.extend_from_slice(&[1, 2, 3]);
    d
}

#[test]
fn kwv_parses_a_wave() {
    let kwv = Kwv::from_bytes(&kwv_with_one_wave()).unwrap();
    assert_eq!(kwv.waves.len(), 1);
    assert_eq!(kwv.waves[0].name, "BOOM");
    assert_eq!(kwv.waves[0].sample_rate, 11025);
    assert_eq!(kwv.waves[0].data, vec![1, 2, 3]);
}

#[test]
fn kwv_errors() {
    assert_eq!(Kwv::from_bytes(&[0, 0]).unwrap_err(), KwvError::UnexpectedEof);
    assert_eq!(Kwv::from_bytes(&[2, 0, 0, 0, 0, 0, 0, 0]).unwrap_err(), KwvError::UnsupportedVersion(2));
    let mut many = vec![0u8; 4];
    many.extend_from_slice(&10001u32.to_le_bytes());
    assert_eq!(Kwv::from_bytes(&many).unwrap_err(), KwvError::TooManyWaves(10001));
    let mut cut = kwv_with_one_wave();
    cut.pop();
    assert_eq!(Kwv::from_bytes(&cut).unwrap_err(), KwvError::UnexpectedEof);
}

#[test]
fn test_mock_voc_parsing() {
    let mut voc_bytes = Vec::new();
    // 20-byte magic
    voc_bytes.extend_from_slice(b"Creative Voice File\x1A");
    // header size = 26
    voc_bytes.extend_from_slice(&26u16.to_le_bytes());
    // version 1.10 = 0x010A
    voc_bytes.extend_from_slice(&0x010Au16.to_le_bytes());
    // 2's complement check: (~0x010A + 0x1234) & 0xFFFF
    let check = (!0x010Au16).wrapping_add(0x1234);
    voc_bytes.extend_from_slice(&check.to_le_bytes());

    // Block 1 (Sound data): tc = 165 (approx 11025Hz), pack_type = 0, 4 sample bytes
    voc_bytes.push(1); // type 1
    let block_len: u32 = 2 + 4;
    voc_bytes.push((block_len & 0xFF) as u8);
    voc_bytes.push(((block_len >> 8) & 0xFF) as u8);
    voc_bytes.push(((block_len >> 16) & 0xFF) as u8);
    voc_bytes.push(165); // tc
    voc_bytes.push(0); // 8-bit unsigned PCM
    voc_bytes.extend_from_slice(&[128, 200, 50, 128]); // 4 samples

    // Block 0 (Terminator)
    voc_bytes.push(0);

    let sound = VocSound::parse("TEST", &voc_bytes).expect("Should parse mock VOC");
    assert_eq!(sound.name, "TEST");
    assert_eq!(sound.pcm_samples_16bit.len(), 4);
    assert_eq!(sound.pcm_samples_16bit[0], 0); // 128 - 128 = 0
    assert_eq!(sound.pcm_samples_16bit[1], (200 - 128) << 8);

    let wav = sound.to_wav_bytes();
    assert!(wav.starts_with(b"RIFF"));
    assert_eq!(&wav[8..12], b"WAVE");
}

#[test]
fn voc_sample_rate_from_time_constant() {
    let mut v = Vec::new();
    v.extend_from_slice(b"Creative Voice File\x1A");
    v.extend_from_slice(&26u16.to_le_bytes());
    v.extend_from_slice(&[0x0A, 0x01, 0x29, 0x11]);
    v.extend_from_slice(&[1, 3, 0, 0, 156, 0, 255]);
    v.push(0);
    let s = VocSound::parse("X", &v).unwrap();
    // 1_000_000 / (256 - 156)
    assert_eq!(s.sample_rate, 10000);
    assert_eq!(s.channels, 1);
    assert_eq!(s.bits_per_sample, 16);
    assert_eq!(s.pcm_samples_16bit, vec![127 << 8]);
}

#[test]
fn voc_errors() {
    assert_eq!(VocSound::parse("A", &[0u8; 25]).unwrap_err(), VocError::TooShort);
    assert_eq!(VocSound::parse("A", &[0u8; 26]).unwrap_err(), VocError::BadMagic);
    let mut v = Vec::new();
    v.extend_from_slice(b"Creative Voice File\x1A");
    v.extend_from_slice(&20u16.to_le_bytes());
    v.extend_from_slice(&[0, 0, 0, 0]);
    assert_eq!(VocSound::parse("A", &v).unwrap_err(), VocError::InvalidHeaderSize(20));
}

#[test]
fn test_rts_wad_parsing() {
    let mut wad_bytes = Vec::new();
    wad_bytes.extend_from_slice(b"IWAD");
    wad_bytes.extend_from_slice(&1i32.to_le_bytes());
    wad_bytes.extend_from_slice(&16i32.to_le_bytes());
    wad_bytes.extend_from_slice(b"TEST");

    let mut name = [0u8; 8];
    name[0..4].copy_from_slice(b"DUKE");
    wad_bytes.extend_from_slice(&12i32.to_le_bytes());
    wad_bytes.extend_from_slice(&4i32.to_le_bytes());
    wad_bytes.extend_from_slice(&name);

    let rts = DukeRts::parse(&wad_bytes).expect("Should parse mock RTS");
    let sound = rts.get_sound("DUKE").expect("Should find lump DUKE");
    assert_eq!(sound, b"TEST");
}

#[test]
fn rts_lookup_is_case_insensitive_and_errors() {
    let mut w = Vec::new();
    w.extend_from_slice(b"IWAD");
    w.extend_from_slice(&1i32.to_le_bytes());
    w.extend_from_slice(&14i32.to_le_bytes());
    w.extend_from_slice(b"OK");
    w.extend_from_slice(&12i32.to_le_bytes());
    w.extend_from_slice(&2i32.to_le_bytes());
    w.extend_from_slice(b"yell\0\0\0\0");
    let rts = DukeRts::parse(&w).unwrap();
    assert_eq!(rts.get_sound("yell").unwrap(), b"OK");
    assert_eq!(rts.get_sound("YELL").unwrap(), b"OK");
    assert!(rts.get_sound("NONE").is_none());
    assert_eq!(DukeRts::parse(&[0u8; 11]).unwrap_err(), RtsError::TooShort);
    let mut bad = w.clone();
    bad.truncate(20);
    assert_eq!(DukeRts::parse(&bad).unwrap_err(), RtsError::CorruptInfotable);
    let mut negative = w.clone();
    negative[8..12].copy_from_slice(&(-1000i32).to_le_bytes());
    assert_eq!(DukeRts::parse(&negative).unwrap_err(), RtsError::CorruptInfotable);
}

#[test]
fn wav_encoding_header_and_samples() {
    let bytes = encode_wav(1, 11025, &[0, -1, 256]);
    assert_eq!(bytes.len(), 44 + 6);
    assert_eq!(&bytes[0..4], b"RIFF");
    assert_eq!(&bytes[4..8], &(36u32 + 6).to_le_bytes());
    assert_eq!(&bytes[8..16], b"WAVEfmt ");
    assert_eq!(&bytes[24..28], &11025u32.to_le_bytes());
    assert_eq!(&bytes[28..32], &22050u32.to_le_bytes());
    assert_eq!(&bytes[36..40], b"data");
    assert_eq!(&bytes[40..44], &6u32.to_le_bytes());
    assert_eq!(&bytes[44..], &[0, 0, 0xff, 0xff, 0, 1]);
    assert_eq!(convert_pcm8(128), 0);
    assert_eq!(convert_pcm8(0), -32768);
    assert_eq!(convert_pcm8(255), 127 << 8);
}

#[test]
fn voice_queue_priority_and_cooldown() {
    let mut voice = DukeVoiceQueue::default();
    assert!(voice.should_play(5)); // Low priority plays when idle
    assert!(!voice.should_play(2)); // Lower priority rejected while on cooldown
    assert!(!voice.should_play(5)); // Equal priority waits too
    assert!(voice.should_play(10)); // High priority overrides active line
    assert_eq!(voice, DukeVoiceQueue { active_priority: 10, cooldown_ms: 2000 });
    voice.tick(1500);
    assert_eq!(voice, DukeVoiceQueue { active_priority: 10, cooldown_ms: 500 });
    voice.tick(600);
    assert_eq!(voice, DukeVoiceQueue { active_priority: 0, cooldown_ms: 0 });
    assert!(voice.should_play(1));
}

#[test]
fn duke_voice_priorities() {
    let mut q = DukeVoiceQueue::default();
    assert!(request_duke_voice(&mut q, None));
    assert_eq!(q.active_priority, 5);
    assert!(!request_duke_voice(&mut q, Some("DUKE_QUOTE_3")));
    assert!(request_duke_voice(&mut q, Some("LOOKING_GOOD")));
    assert_eq!(q.active_priority, 8);
    assert!(request_duke_voice(&mut q, Some("REST_IN_PIECES")));
    assert_eq!(q.active_priority, 10);
    assert!(!request_duke_voice(&mut q, Some("HAIL_TO_THE_KING")));
}

#[test]
fn sound_names_resolve() {
    let names: Vec<String> = vec!["PISTOL".to_string(), "KICKHIT.VOC".to_string(), "GROWL1".to_string()];
    assert_eq!(get_sound_by_name(&names, "kickhit.voc"), Some(1));
    assert_eq!(get_sound_by_name(&names, "pistol.voc"), Some(0));
    assert_eq!(get_sound_by_name(&names, "Pistol.wav.voc"), Some(0));
    assert_eq!(get_sound_by_name(&names, "GROWL"), Some(2));
    assert_eq!(get_sound_by_name(&names, "GROWL12.VOC"), Some(2));
    assert_eq!(get_sound_by_name(&names, "GRAWL"), None);
    assert_eq!(get_sound_by_name(&names, "KICK"), Some(1));
    assert_eq!(get_sound_by_name(&names, "SQUISH"), None);
}

#[test]
fn wav_with_three_channels_uses_the_extensible_header() {
    let bytes = encode_wav(3, 8000, &[1, 2, -1]);
    assert_eq!(bytes.len(), 68 + 6);
    assert_eq!(&bytes[0..4], b"RIFF");
    assert_eq!(&bytes[4..8], &66u32.to_le_bytes());
    assert_eq!(&bytes[8..16], b"WAVEfmt ");
    assert_eq!(&bytes[16..20], &40u32.to_le_bytes());
    assert_eq!(&bytes[20..22], &[0xfe, 0xff]);
    assert_eq!(&bytes[22..24], &3u16.to_le_bytes());
    assert_eq!(&bytes[24..28], &8000u32.to_le_bytes());
    assert_eq!(&bytes[28..32], &48000u32.to_le_bytes());
    assert_eq!(&bytes[32..34], &6u16.to_le_bytes());
    assert_eq!(&bytes[34..40], &[16, 0, 22, 0, 16, 0]);
    assert_eq!(&bytes[40..44], &7u32.to_le_bytes());
    assert_eq!(&bytes[44..60], &[0x01, 0x00, 0x00, 0x00, 0x00, 0x00, 0x10, 0x00, 0x80, 0x00, 0x00, 0xaa, 0x00, 0x38, 0x9b, 0x71]);
    assert_eq!(&bytes[60..64], b"data");
    assert_eq!(&bytes[64..68], &6u32.to_le_bytes());
    assert_eq!(&bytes[68..74], &[1, 0, 2, 0, 0xff, 0xff]);
}

#[test]
fn wav_writable_bounds() {
    assert!(is_wav_writable(1, 11025, 10));
    assert!(!is_wav_writable(0, 11025, 10));
    assert!(!is_wav_writable(2, 11025, 3));
    assert!(!is_wav_writable(1, 0, 0));
    assert!(is_wav_writable(2, 11025, 2147483628));
    assert!(!is_wav_writable(2, 11025, 2147483630));
    assert!(!is_wav_writable(3, 11025, 2147483619));
    assert!(is_wav_writable(3, 11025, 2147483616));
}
