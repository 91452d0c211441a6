use dukenukemrust::config::DukeConfig;
use dukenukemrust::sounds::build_default_sound_id_map;

#[test]
fn test_config_ini_roundtrip() {
    let mut config = DukeConfig::default();
    config.screen_width = 1920;
    config.screen_height = 1080;
    config.fx_volume = 220;
    config.music_volume = 160;
    let mouse_sensitivity = 2.5f32;
    config.invert_mouse = true;
    config.crosshairs = true;

    let ini_str = config.to_ini(&format!("{:.2}", mouse_sensitivity));
    assert!(ini_str.contains("ScreenWidth = 1920"));
    assert!(ini_str.contains("FXVolume = 220"));
    assert!(ini_str.contains("Crosshairs = 1"));

    let (loaded, sensitivities) = DukeConfig::parse_ini(&ini_str);
    assert_eq!(loaded.screen_width, 1920);
    assert_eq!(loaded.screen_height, 1080);
    assert_eq!(loaded.fx_volume, 220);
    assert_eq!(loaded.music_volume, 160);
    let loaded_sensitivity: f32 = sensitivities.last().unwrap().parse().unwrap();
    assert!((loaded_sensitivity - 2.5).abs() < 0.01);
    assert!(loaded.invert_mouse);
    assert!(loaded.crosshairs);
}

#[test]
fn config_reader_skips_comments_and_bad_values() {
    let text = "; comment\n# another\n[ SOUND SETUP ]\r\nFXVolume = 300\nMusicVolume=+7 ; note\nSoundToggle = TRUE\nVoiceToggle = yes\n[Controls]\nMouseSensitivity = 1.5\nMouseSensitivity = x\nno equals sign\n[misc]\nRunMode = 0\n";
    let (c, sens) = DukeConfig::parse_ini(text);
    assert_eq!(c.fx_volume, 192); // 300 does not fit a byte: default kept
    assert_eq!(c.music_volume, 7);
    assert!(c.sound_toggle);
    assert!(!c.voice_toggle);
    assert!(!c.run_mode);
    assert_eq!(sens, vec!["1.5".to_string(), "x".to_string()]);
    assert_eq!(c.screen_width, 1280);
    let (d, none) = DukeConfig::parse_ini("");
    assert_eq!(d, DukeConfig::default());
    assert!(none.is_empty());
}

#[test]
fn config_text_layout() {
    let c = DukeConfig::default();
    let text = c.to_ini("1.00");
    assert_eq!(
        text,
        "[Screen Setup]\nScreenWidth = 1280\nScreenHeight = 720\n\n[Sound Setup]\nFXVolume = 192\nMusicVolume = 128\nSoundToggle = 1\nMusicToggle = 1\nVoiceToggle = 1\nAmbienceToggle = 1\n\n[Controls]\nMouseSensitivity = 1.00\nMouseAiming = 1\nMouseAimingFlipped = 0\n\n[Misc]\nRunMode = 1\nCrosshairs = 0\n"
    );
    assert_eq!(DukeConfig::parse_ini(&text).0, c);
}

#[test]
fn test_default_sound_mappings() {
    let map = build_default_sound_id_map();
    assert_eq!(map.get(&3), Some(&"PISTOL.VOC".to_string()));
    assert_eq!(map.get(&109), Some(&"SHOTGUN7.VOC".to_string()));
    assert_eq!(map.get(&76), Some(&"SWITCH1.VOC".to_string()));
    assert_eq!(map.get(&69), Some(&"SQUISH1A.VOC".to_string()));
}

#[test]
fn sound_map_size_and_gaps() {
    let map = build_default_sound_id_map();
    assert_eq!(map.len(), 82);
    assert!(map.get(&26).is_none());
    assert_eq!(map.get(&723), Some(&"GULP01.VOC".to_string()));
}
