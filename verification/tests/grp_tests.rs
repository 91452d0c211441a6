use dukenukemrust::grp::{str_eq_ignore_ascii_case, Grp, GrpError};

fn grp_bytes() -> Vec<u8> {
    let mut d = Vec::new();
    d.extend_from_slice(b"KenSilverman");
    d.extend_from_slice(&2u32.to_le_bytes());
    d.extend_from_slice(b"E1L1.MAP\0\0\0\0");
    d.extend_from_slice(&3u32.to_le_bytes());
    d.extend_from_slice(b"STALKER.MID\0");
    d.extend_from_slice(&5u32.to_le_bytes());
    d.extend_from_slice(&[1, 2, 3, 4, 5, 6, 7, 8]);
    d
}

#[test]
fn grp_directory_offsets_follow_sizes() {
    let g = Grp::from_directory(&grp_bytes(), "duke3d.grp".to_string()).unwrap();
    assert_eq!(g.file_path(), "duke3d.grp");
    assert_eq!(g.entries.len(), 2);
    assert_eq!(g.entries[0].name, "E1L1.MAP");
    assert_eq!(g.entries[0].size, 3);
    assert_eq!(g.entries[0].offset, 48);
    assert_eq!(g.entries[1].name, "STALKER.MID");
    assert_eq!(g.entries[1].offset, 51);
}

#[test]
fn grp_find_entry_ignores_case() {
    let g = Grp::from_directory(&grp_bytes(), "x".to_string()).unwrap();
    assert_eq!(g.find_entry("stalker.mid").unwrap().size, 5);
    assert_eq!(g.find_entry("E1L1.MAP").unwrap().offset, 48);
    assert!(g.find_entry("E1L2.MAP").is_none());
    assert!(str_eq_ignore_ascii_case("Duke", "dUKE"));
    assert!(!str_eq_ignore_ascii_case("Duke", "Duke3"));
}

#[test]
fn grp_errors() {
    assert_eq!(Grp::from_directory(b"KenSilver", "x".to_string()).unwrap_err(), GrpError::UnexpectedEof);
    assert_eq!(Grp::from_directory(b"KenSilverwoman..", "x".to_string()).unwrap_err(), GrpError::InvalidHeader);
    let mut d = grp_bytes();
    d.truncate(40);
    assert_eq!(Grp::from_directory(&d, "x".to_string()).unwrap_err(), GrpError::UnexpectedEof);
}
