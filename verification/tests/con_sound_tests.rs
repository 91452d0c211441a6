use dukenukemrust::con_sounds::{parse_defs_con_sounds, parse_user_con_sounds, symbol_lookup};
use dukenukemrust::sounds::build_default_sound_id_map;
use dukenukemrust::text::parse_i32_chars;

fn chars(s: &str) -> Vec<char> {
    s.chars().collect()
}

#[test]
fn defs_con_defines_symbols() {
    let defs = "// sound numbers\n  define KICK_HIT 0\r\nDEFINE pistol_fire 3 // comment\n\ndefine BAD x1\ndefine NEG -7\ndefine kick_hit 99\n";
    let mut table: Vec<(String, i32)> = Vec::new();
    parse_defs_con_sounds(defs, &mut table);
    assert_eq!(symbol_lookup(&table, "KICK_HIT"), Some(99));
    assert_eq!(symbol_lookup(&table, "PISTOL_FIRE"), Some(3));
    assert_eq!(symbol_lookup(&table, "NEG"), Some(-7));
    assert_eq!(symbol_lookup(&table, "BAD"), None);
    assert_eq!(symbol_lookup(&table, "pistol_fire"), None);
}

#[test]
fn user_con_names_files() {
    let mut table: Vec<(String, i32)> = Vec::new();
    parse_defs_con_sounds("define DUKE_GROWL 1001\ndefine KICK_HIT 0\n", &mut table);
    let mut ids = build_default_sound_id_map();
    parse_user_con_sounds(
        "definesound duke_growl growl.voc 0 0 0 0 0\n// definesound KICK_HIT nope.voc\ndefinesound UNKNOWN x.voc\nDefineSound kick_hit kick2.voc\n",
        &table,
        &mut ids,
    );
    assert_eq!(ids.get(&1001).map(|s| s.as_str()), Some("GROWL.VOC"));
    assert_eq!(ids.get(&0).map(|s| s.as_str()), Some("KICK2.VOC"));
    assert_eq!(ids.get(&3).map(|s| s.as_str()), Some("PISTOL.VOC"));
}

#[test]
fn i32_parsing_like_from_str() {
    assert_eq!(parse_i32_chars(&chars("42")), Some(42));
    assert_eq!(parse_i32_chars(&chars("+42")), Some(42));
    assert_eq!(parse_i32_chars(&chars("-42")), Some(-42));
    assert_eq!(parse_i32_chars(&chars("-2147483648")), Some(i32::MIN));
    assert_eq!(parse_i32_chars(&chars("2147483647")), Some(i32::MAX));
    assert_eq!(parse_i32_chars(&chars("2147483648")), None);
    assert_eq!(parse_i32_chars(&chars("-2147483649")), None);
    assert_eq!(parse_i32_chars(&chars("-+5")), None);
    assert_eq!(parse_i32_chars(&chars("-")), None);
    assert_eq!(parse_i32_chars(&chars("")), None);
    assert_eq!(parse_i32_chars(&chars("4a")), None);
}
