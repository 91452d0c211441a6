use dukenukemrust::demo::demo_bits;
use dukenukemrust::demo::{DemoError, DemoHeader, DemoPlayer, DemoRecorder, GameticInput, DEMO_BYTEVERSION};

#[test]
fn test_demo_gametic_input_packing_and_unpacking() {
    let input = GameticInput {
        avel: -45,
        horz: 12,
        fvel: 250,
        svel: -120,
        bits: demo_bits::JUMP | demo_bits::FIRE | demo_bits::QUICK_KICK,
    };

    let bytes = input.to_bytes();
    assert_eq!(bytes.len(), 10);

    let unpacked = GameticInput::from_bytes(&bytes).expect("Failed to unpack GameticInput");
    assert_eq!(unpacked.avel, -45);
    assert_eq!(unpacked.horz, 12);
    assert_eq!(unpacked.fvel, 250);
    assert_eq!(unpacked.svel, -120);
    assert_eq!(unpacked.bits & demo_bits::JUMP, demo_bits::JUMP);
    assert_eq!(unpacked.bits & demo_bits::FIRE, demo_bits::FIRE);
    assert_eq!(unpacked.bits & demo_bits::QUICK_KICK, demo_bits::QUICK_KICK);
    assert_eq!(unpacked.bits & demo_bits::CROUCH, 0);
}

#[test]
fn test_demo_header_packing() {
    let header = DemoHeader {
        total_tics: 1800, // 60 seconds @ 30 Hz
        version: DEMO_BYTEVERSION,
        episode: 1,
        level: 3,
        skill: 2,
    };

    let bytes = header.to_bytes();
    assert_eq!(bytes.len(), 8);

    let unpacked = DemoHeader::from_bytes(&bytes).expect("Failed to unpack DemoHeader");
    assert_eq!(unpacked.total_tics, 1800);
    assert_eq!(unpacked.version, DEMO_BYTEVERSION);
    assert_eq!(unpacked.episode, 1);
    assert_eq!(unpacked.level, 3);
    assert_eq!(unpacked.skill, 2);
}

#[test]
fn test_demo_recorder_and_player_pipeline() {
    let mut recorder = DemoRecorder::default();
    recorder.start(1, 1, 1);
    assert!(recorder.is_recording);

    recorder.record_frame(GameticInput {
        avel: 10,
        horz: 0,
        fvel: 100,
        svel: 0,
        bits: demo_bits::RUN,
    });
    recorder.record_frame(GameticInput {
        avel: 20,
        horz: 5,
        fvel: 100,
        svel: 0,
        bits: demo_bits::FIRE,
    });
    recorder.record_frame(GameticInput {
        avel: 0,
        horz: 0,
        fvel: 0,
        svel: 0,
        bits: demo_bits::JUMP,
    });

    assert_eq!(recorder.inputs.len(), 3);

    let mut player = DemoPlayer::default();
    player.is_playing = true;
    player.inputs = recorder.inputs.clone();
    player.current_tic = 0;

    let frame1 = player.next_input().unwrap();
    assert_eq!(frame1.avel, 10);
    assert_eq!(frame1.bits, demo_bits::RUN);

    let frame2 = player.next_input().unwrap();
    assert_eq!(frame2.avel, 20);
    assert_eq!(frame2.bits, demo_bits::FIRE);

    let frame3 = player.next_input().unwrap();
    assert_eq!(frame3.bits, demo_bits::JUMP);

    assert_eq!(player.next_input(), None);
    assert!(!player.is_playing);
}

#[test]
fn demo_byte_layout_is_little_endian() {
    let t = GameticInput { avel: -1, horz: 2, fvel: -2, svel: 258, bits: 0x0403_0201 };
    assert_eq!(t.to_bytes(), [0xff, 2, 0xfe, 0xff, 2, 1, 1, 2, 3, 4]);
    let h = DemoHeader { total_tics: 0x0102_0304, version: 116, episode: 4, level: 11, skill: 3 };
    assert_eq!(h.to_bytes(), [4, 3, 2, 1, 116, 4, 11, 3]);
    assert_eq!(GameticInput::from_bytes(&[0u8; 9]).unwrap_err(), DemoError::InputTooShort);
    assert_eq!(DemoHeader::from_bytes(&[0u8; 7]).unwrap_err(), DemoError::HeaderTooShort);
}

#[test]
fn demo_file_roundtrip_through_recorder_and_player() {
    let mut rec = DemoRecorder::default();
    assert!(!rec.is_recording);
    rec.record_frame(GameticInput::default()); // ignored while not recording
    rec.start(2, 5, 3);
    let a = GameticInput { avel: 5, horz: -5, fvel: 300, svel: -300, bits: demo_bits::OPEN };
    let b = GameticInput { avel: -128, horz: 127, fvel: i16::MIN, svel: i16::MAX, bits: demo_bits::ESCAPE };
    rec.record_frame(a);
    rec.record_frame(b);
    let bytes = rec.finish_to_bytes();
    assert!(!rec.is_recording);
    assert_eq!(bytes.len(), 8 + 20);

    let mut player = DemoPlayer::default();
    player.load_from_bytes(&bytes).unwrap();
    let h = player.header.unwrap();
    assert_eq!((h.total_tics, h.version, h.episode, h.level, h.skill), (2, DEMO_BYTEVERSION, 2, 5, 3));
    assert_eq!(player.next_input(), Some(a));
    assert_eq!(player.next_input(), Some(b));
    assert_eq!(player.next_input(), None);
    player.stop();
    assert_eq!(player.current_tic, 0);
    assert_eq!(DemoPlayer::default().load_from_bytes(&[1, 2, 3]).unwrap_err(), DemoError::FileTooSmall);
}

#[test]
fn demo_with_a_partial_tic_still_loads() {
    let mut player = DemoPlayer::default();
    let mut bytes = vec![0u8; 8 + 10 + 4];
    bytes[8] = 7;
    assert!(player.load_from_bytes(&bytes).is_ok());
    assert!(player.is_playing);
    assert_eq!(player.inputs.len(), 1);
    assert!(player.load_from_bytes(&[0u8; 8]).is_ok());
    assert_eq!(player.inputs.len(), 0);
}
