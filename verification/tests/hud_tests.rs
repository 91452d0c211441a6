use dukenukemrust::hud::{handle_automap_input, update_automap_discovery, AutomapKeys, AutomapMode, AutomapState};
use dukenukemrust::font::{DukeFont, DukeFontRenderer, GlyphDrawCall, BIGALPHANUM, MINIFONT, STARTALPHANUM, THREE_DIGIT_BASE};

#[test]
fn test_font_renderer_big_red() {
    let calls = DukeFontRenderer::layout_text(DukeFont::BigRed, "DUKE 3D", 10, 20);
    assert_eq!(calls.len(), 6); // 'D', 'U', 'K', 'E', '3', 'D' (space advances x)
    assert_eq!(calls[0].tile_id, BIGALPHANUM + 3); // 'D'
    assert_eq!(calls[0].x, 10);
    assert_eq!(calls[0].y, 20);
}

#[test]
fn test_font_renderer_digital_numbers() {
    let calls = DukeFontRenderer::layout_text(DukeFont::DigitalNumbers, "100%", 0, 0);
    assert_eq!(calls.len(), 4);
    assert_eq!(calls[0].tile_id, THREE_DIGIT_BASE + 1); // '1'
    assert_eq!(calls[1].tile_id, THREE_DIGIT_BASE + 0); // '0'
    assert_eq!(calls[2].tile_id, THREE_DIGIT_BASE + 0); // '0'
    assert_eq!(calls[3].tile_id, THREE_DIGIT_BASE + 10); // '%'
}

#[test]
fn font_pen_positions_advance() {
    let calls = DukeFontRenderer::layout_text(DukeFont::BigRed, "a b", 0, 5);
    assert_eq!(
        calls,
        vec![
            GlyphDrawCall { tile_id: BIGALPHANUM, x: 0, y: 5 },
            GlyphDrawCall { tile_id: BIGALPHANUM + 1, x: 26, y: 5 },
        ]
    );
    let small = DukeFontRenderer::layout_text(DukeFont::SmallBlue, "!", 3, 4);
    assert_eq!(small, vec![GlyphDrawCall { tile_id: STARTALPHANUM, x: 3, y: 4 }]);
    let mini = DukeFontRenderer::layout_text(DukeFont::Mini, "", 0, 0);
    assert!(mini.is_empty());
    let _ = MINIFONT;
}

#[test]
fn automap_discovery_reveals_sectors() {
    let mut automap = AutomapState::default();
    update_automap_discovery(&mut automap, false);
    assert_eq!(automap.discovered_sectors.len(), 1);
    assert!(automap.discovered_sectors.contains(&0));
    automap.discovered_sectors.insert(700);
    update_automap_discovery(&mut automap, true);
    assert_eq!(automap.discovered_sectors.len(), 501);
    assert!(automap.discovered_sectors.contains(&499) && automap.discovered_sectors.contains(&700));
    assert!(!automap.discovered_sectors.contains(&500));
}

#[test]
fn test_automap_mode_cycling() {
    let mut automap = AutomapState::default();
    assert_eq!(automap.mode, AutomapMode::Off);

    automap.mode = match automap.mode {
        AutomapMode::Off => AutomapMode::Overlay,
        AutomapMode::Overlay => AutomapMode::Fullscreen,
        AutomapMode::Fullscreen => AutomapMode::Off,
    };
    assert_eq!(automap.mode, AutomapMode::Overlay);

    automap.mode = match automap.mode {
        AutomapMode::Off => AutomapMode::Overlay,
        AutomapMode::Overlay => AutomapMode::Fullscreen,
        AutomapMode::Fullscreen => AutomapMode::Off,
    };
    assert_eq!(automap.mode, AutomapMode::Fullscreen);

    automap.mode = match automap.mode {
        AutomapMode::Off => AutomapMode::Overlay,
        AutomapMode::Overlay => AutomapMode::Fullscreen,
        AutomapMode::Fullscreen => AutomapMode::Off,
    };
    assert_eq!(automap.mode, AutomapMode::Off);
}

#[test]
fn automap_keys_cycle_and_follow() {
    let mut automap = AutomapState::default();
    // F does nothing while the map is off.
    assert_eq!(handle_automap_input(&mut automap, AutomapKeys { tab: false, follow: true }), None);
    assert!(automap.follow_player);
    assert_eq!(handle_automap_input(&mut automap, AutomapKeys { tab: true, follow: true }), Some(110));
    assert_eq!(automap.mode, AutomapMode::Overlay);
    assert!(!automap.follow_player);
    handle_automap_input(&mut automap, AutomapKeys { tab: true, follow: false });
    handle_automap_input(&mut automap, AutomapKeys { tab: true, follow: false });
    assert_eq!(automap.mode, AutomapMode::Off);
}
