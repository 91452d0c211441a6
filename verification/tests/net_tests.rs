use dukenukemrust::net::{NetError, NetPacket};
use dukenukemrust::scoreboard::{toggle_scoreboard, DukematchState};

/// Packets compare field by field; their derived `Debug` text shows every field.
fn same(a: &NetPacket, b: &NetPacket) -> bool {
    format!("{:?}", a) == format!("{:?}", b)
}

#[test]
fn test_net_packet_serialization_roundtrip() {
    // 1. Connect
    let pkt1 = NetPacket::Connect { player_id: 2, name: "DukeNukem".to_string(), color_pal: 9 };
    let bytes1 = pkt1.to_bytes();
    let decoded1 = NetPacket::from_bytes(&bytes1).unwrap();
    assert!(same(&pkt1, &decoded1));

    // 2. InputSync
    let pkt2 = NetPacket::InputSync {
        player_id: 1,
        gametic: 12450,
        forward: 100,
        strafe: -50,
        yaw: 512,
        pitch: 0,
        actions: 0b101,
        weapon: 2,
    };
    let bytes2 = pkt2.to_bytes();
    let decoded2 = NetPacket::from_bytes(&bytes2).unwrap();
    assert!(same(&pkt2, &decoded2));

    // 3. PlayerStateSync (positions and angles as IEEE-754 bit patterns)
    let pkt3 = NetPacket::PlayerStateSync {
        player_id: 0,
        x: 10.5f32.to_bits(),
        y: 1.0f32.to_bits(),
        z: (-20.25f32).to_bits(),
        yaw: 1.57f32.to_bits(),
        pitch: (-0.2f32).to_bits(),
        health: 100,
        armor: 50,
    };
    let bytes3 = pkt3.to_bytes();
    let decoded3 = NetPacket::from_bytes(&bytes3).unwrap();
    assert!(same(&pkt3, &decoded3));

    // 4. FragEvent
    let pkt4 = NetPacket::FragEvent { killer_id: 0, victim_id: 1, weapon_type: 2 };
    let bytes4 = pkt4.to_bytes();
    let decoded4 = NetPacket::from_bytes(&bytes4).unwrap();
    assert!(same(&pkt4, &decoded4));

    // 5. ChatMessage
    let pkt5 = NetPacket::ChatMessage { sender_id: 0, message: "Hail to the king, baby!".to_string() };
    let bytes5 = pkt5.to_bytes();
    let decoded5 = NetPacket::from_bytes(&bytes5).unwrap();
    assert!(same(&pkt5, &decoded5));
}

#[test]
fn net_packet_wire_layout() {
    let bytes = NetPacket::FragEvent { killer_id: 3, victim_id: 4, weapon_type: 5 }.to_bytes();
    assert_eq!(bytes, vec![4, 3, 4, 5]);
    let bytes = NetPacket::Connect { player_id: 1, name: "Ab".to_string(), color_pal: 7 }.to_bytes();
    assert_eq!(bytes, vec![1, 1, 7, 2, b'A', b'b']);
    let bytes = NetPacket::ChatMessage { sender_id: 2, message: "é".to_string() }.to_bytes();
    assert_eq!(bytes, vec![5, 2, 2, 0xc3, 0xa9]);
}

#[test]
fn net_packet_errors() {
    assert_eq!(NetPacket::from_bytes(&[]).unwrap_err(), NetError::Empty);
    assert_eq!(NetPacket::from_bytes(&[9]).unwrap_err(), NetError::UnknownType(9));
    assert_eq!(NetPacket::from_bytes(&[1, 0]).unwrap_err(), NetError::InvalidConnect);
    assert_eq!(NetPacket::from_bytes(&[1, 0, 0, 3, b'a']).unwrap_err(), NetError::TruncatedName);
    assert_eq!(NetPacket::from_bytes(&[2, 0, 0]).unwrap_err(), NetError::InvalidInputSync);
    assert_eq!(NetPacket::from_bytes(&[3, 0]).unwrap_err(), NetError::InvalidPlayerStateSync);
    assert_eq!(NetPacket::from_bytes(&[4, 0, 0]).unwrap_err(), NetError::InvalidFragEvent);
    assert_eq!(NetPacket::from_bytes(&[5, 0]).unwrap_err(), NetError::InvalidChatMessage);
    assert_eq!(NetPacket::from_bytes(&[5, 0, 4, b'a']).unwrap_err(), NetError::TruncatedMessage);
}

#[test]
fn test_dukematch_frag_matrix_and_scoreboard() {
    let mut dm = DukematchState::default();
    dm.record_frag(0, 1);
    dm.record_frag(0, 2);
    dm.record_frag(1, 0);
    dm.record_frag(0, 0); // Player 0 suicide

    assert_eq!(dm.get_total_frags(0), 1); // 2 kills - 1 suicide = 1
    assert_eq!(dm.get_total_frags(1), 1); // 1 kill
    assert_eq!(dm.get_deaths(1), 1); // 1 death
    assert_eq!(dm.get_leader(), 0);
}

#[test]
fn dukematch_leader_ties_and_out_of_range_ids() {
    let mut dm = DukematchState::new();
    assert_eq!(dm.get_leader(), 0);
    dm.record_frag(9, 1); // ignored
    dm.record_frag(3, 4);
    dm.record_frag(3, 5);
    dm.record_frag(6, 2);
    dm.record_frag(6, 1);
    // a tie keeps the first player with the most frags
    assert_eq!(dm.get_leader(), 3);
    assert_eq!(dm.get_deaths(1), 1);
    assert_eq!(dm.get_deaths(0), 0);
    assert_eq!(dm.get_total_frags(9), 0);
    assert_eq!(dm.kill_limit, 25);
    assert_eq!(dm.player_names[0], "DUKE");
}

#[test]
fn scoreboard_toggles() {
    let mut s = DukematchState::default();
    let before = s.show_scoreboard;
    toggle_scoreboard(&mut s);
    assert_eq!(s.show_scoreboard, !before);
    toggle_scoreboard(&mut s);
    assert_eq!(s.show_scoreboard, before);
}
