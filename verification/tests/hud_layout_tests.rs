use dukenukemrust::font::{BIGALPHANUM, STARTALPHANUM, THREE_DIGIT_BASE};
use dukenukemrust::hud::{
    toggle_hud_mode, update_hud_display,
    classify_automap_line, next_automap_mode, AutomapLineKind, AutomapMode, HudMode, StatusbarState, BOTTOMSTATUSBAR,
    KEY_BLUE, KEY_YELLOW,
};
use dukenukemrust::player::PlayerController;

#[test]
fn test_statusbar_layout_computation() {
    let sbar = StatusbarState {
        hud_mode: HudMode::ClassicStatusbar,
        has_blue_key: true,
        has_red_key: false,
        has_yellow_key: true,
        message_text: "FOUND SECRET AREA".into(),
        message_timer_ms: 3000,
    };

    let player = PlayerController::default();
    let layout = sbar.compute_layout(&player);

    assert_eq!(layout.base_tile, BOTTOMSTATUSBAR);
    assert_eq!(layout.key_tiles.len(), 2); // Blue and Yellow keys
    assert!(layout.glyphs.len() > 10); // Numbers + message
}

#[test]
fn statusbar_numbers_and_modes() {
    let mut sbar = StatusbarState::default();
    let mut player = PlayerController::default();
    player.health = 7;
    player.armor = 1234;
    let l = sbar.compute_layout(&player);
    // "  7", "999", " 48": padding spaces draw nothing
    assert_eq!(l.glyphs.len(), 1 + 3 + 2);
    assert_eq!(l.glyphs[0].tile_id, THREE_DIGIT_BASE + 7);
    assert_eq!(l.glyphs[0].x, 24 + 16);
    assert_eq!(l.glyphs[1].tile_id, THREE_DIGIT_BASE + 9);
    assert!(l.key_tiles.is_empty());
    sbar.has_blue_key = true;
    sbar.has_yellow_key = true;
    let l = sbar.compute_layout(&player);
    assert_eq!(l.key_tiles, vec![(KEY_BLUE, 194, 172), (KEY_YELLOW, 194, 188)]);

    sbar.hud_mode = HudMode::FullscreenMini;
    player.health = -5;
    let l = sbar.compute_layout(&player);
    assert_eq!(l.base_tile, 0);
    assert!(l.key_tiles.is_empty());
    // "H:-5" + "A:1234" + "AMMO:48"
    assert_eq!(l.glyphs.len(), 4 + 6 + 7);
    assert_eq!(l.glyphs[0].tile_id, STARTALPHANUM + (b'H' as i16 - 33));
    sbar.hud_mode = HudMode::Hidden;
    assert!(sbar.compute_layout(&player).glyphs.is_empty());
    let _ = BIGALPHANUM;
}

#[test]
fn test_automap_line_classification() {
    // Single sided solid boundary wall
    assert_eq!(classify_automap_line(0, -1, false, false), AutomapLineKind::SingleSided);

    // Two sided portal with height step
    assert_eq!(classify_automap_line(0, 42, true, false), AutomapLineKind::TwoSidedStep);

    // Two sided blocking wall
    assert_eq!(classify_automap_line(1, 42, false, false), AutomapLineKind::TwoSidedBlocking);

    // Secret sector wall
    assert_eq!(classify_automap_line(0, 42, false, true), AutomapLineKind::SecretSector);
}

#[test]
fn automap_mode_cycles() {
    let m = next_automap_mode(AutomapMode::Off);
    assert_eq!(m, AutomapMode::Overlay);
    let m = next_automap_mode(m);
    assert_eq!(m, AutomapMode::Fullscreen);
    assert_eq!(next_automap_mode(m), AutomapMode::Off);
}

#[test]
fn hud_mode_cycles() {
    let mut sbar = StatusbarState::default();
    assert_eq!(sbar.hud_mode, HudMode::ClassicStatusbar);
    toggle_hud_mode(&mut sbar);
    assert_eq!(sbar.hud_mode, HudMode::FullscreenMini);
    toggle_hud_mode(&mut sbar);
    assert_eq!(sbar.hud_mode, HudMode::Hidden);
    toggle_hud_mode(&mut sbar);
    assert_eq!(sbar.hud_mode, HudMode::ClassicStatusbar);
}

#[test]
fn overlay_hud_texts() {
    let mut sbar = StatusbarState::default();
    sbar.message_text = "GOD MODE ON".to_string();
    sbar.message_timer_ms = 3000;
    let mut p = PlayerController::default();
    p.health = 1234;
    p.armor = -5;
    p.has_red_key = true;
    p.has_yellow_key = true;
    let t = update_hud_display(&mut sbar, &p, 1000);
    assert!(t.visible);
    assert_eq!(t.health, "HEALTH: 999");
    assert_eq!(t.armor, "ARMOR:   0");
    assert_eq!(t.ammo, "AMMO:  48");
    assert_eq!(t.keys, "KEYS: [R] [Y] ");
    assert_eq!(t.message, "GOD MODE ON");
    assert!(sbar.has_red_key && !sbar.has_blue_key);
    assert_eq!(sbar.message_timer_ms, 2000);
    let t = update_hud_display(&mut sbar, &PlayerController::default(), 2500);
    assert_eq!(t.message, "");
    assert_eq!(t.keys, "KEYS: -");
    assert_eq!(t.health, format!("HEALTH: {:>3}", 100));
}
