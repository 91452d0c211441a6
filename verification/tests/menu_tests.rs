use dukenukemrust::game_flow::{
    handle_intermission_input, handle_level_completed_events, handle_menu_navigation, update_intermission_animation,
    GamePhase, IntermissionAnimationState, IntermissionExit, IntermissionStage, IntermissionStats, LevelProgress,
    update_cursor_animation, CursorAnimTimer, LevelEntity, LoadLevelEvent, MenuCursor, MenuKeys, SkillLevel,
};

fn keys(up: bool, down: bool, confirm: bool, escape: bool) -> MenuKeys {
    MenuKeys { up, down, confirm, escape }
}

#[test]
fn test_menu_cursor_navigation_wrap() {
    let mut cursor = MenuCursor { selected_index: 0, max_items: 4 };

    // Up wraps to max_items - 1
    cursor.selected_index = cursor.selected_index.checked_sub(1).unwrap_or(cursor.max_items - 1);
    assert_eq!(cursor.selected_index, 3);

    // Down wraps to 0
    cursor.selected_index = (cursor.selected_index + 1) % cursor.max_items;
    assert_eq!(cursor.selected_index, 0);

    // Increment to 1
    cursor.selected_index = (cursor.selected_index + 1) % cursor.max_items;
    assert_eq!(cursor.selected_index, 1);
}

#[test]
fn test_game_phase_states() {
    let default_phase = GamePhase::default();
    assert_eq!(default_phase, GamePhase::MainMenu);

    let paused = GamePhase::Paused;
    assert_ne!(paused, GamePhase::Playing);
}

#[test]
fn menu_new_game_flow() {
    let mut cursor = MenuCursor::default();
    let mut progress = LevelProgress::default();

    // Up from the first entry wraps to Quit, with the move click.
    let s = handle_menu_navigation(GamePhase::MainMenu, &mut cursor, &mut progress, keys(true, false, false, false));
    assert_eq!(cursor.selected_index, 3);
    assert_eq!(s.move_sound, Some(33));
    assert_eq!(s.next_phase, None);

    // Down wraps back to New Game; confirm opens the episode list.
    let s = handle_menu_navigation(GamePhase::MainMenu, &mut cursor, &mut progress, keys(false, true, true, false));
    assert_eq!(s.sound, Some(34));
    assert_eq!(s.next_phase, Some(GamePhase::EpisodeSelect));
    assert_eq!(cursor.selected_index, 0);

    // Pick the third episode.
    handle_menu_navigation(GamePhase::EpisodeSelect, &mut cursor, &mut progress, keys(false, true, false, false));
    let s = handle_menu_navigation(GamePhase::EpisodeSelect, &mut cursor, &mut progress, keys(false, true, true, false));
    assert_eq!(progress.current_episode, 3);
    assert_eq!(cursor.selected_index, 1);
    assert_eq!(s.next_phase, Some(GamePhase::SkillSelect));

    // Skill: Come Get Some, which starts the episode's first level.
    let s = handle_menu_navigation(GamePhase::SkillSelect, &mut cursor, &mut progress, keys(false, true, true, false));
    assert_eq!(progress.skill, SkillLevel::ComeGetSome);
    assert_eq!(progress.current_level, 1);
    assert_eq!(s.load_level, Some(LoadLevelEvent { episode: 3, level: 1 }));
    assert_eq!(s.next_phase, Some(GamePhase::Playing));
}

#[test]
fn menu_pause_and_quit() {
    let mut cursor = MenuCursor { selected_index: 2, max_items: 7 };
    let mut progress = LevelProgress::default();

    // While playing only Escape counts: it pauses.
    let s = handle_menu_navigation(GamePhase::Playing, &mut cursor, &mut progress, keys(true, false, true, false));
    assert_eq!(s.next_phase, None);
    assert_eq!(cursor, MenuCursor { selected_index: 2, max_items: 7 });
    let s = handle_menu_navigation(GamePhase::Playing, &mut cursor, &mut progress, keys(false, false, false, true));
    assert_eq!(s.next_phase, Some(GamePhase::Paused));
    assert_eq!(s.sound, Some(34));
    assert_eq!(cursor, MenuCursor { selected_index: 0, max_items: 4 });

    // Paused: down twice to Main Menu.
    handle_menu_navigation(GamePhase::Paused, &mut cursor, &mut progress, keys(false, true, false, false));
    let s = handle_menu_navigation(GamePhase::Paused, &mut cursor, &mut progress, keys(false, true, true, false));
    assert_eq!(s.next_phase, Some(GamePhase::MainMenu));
    assert_eq!(cursor.selected_index, 0);

    // Escape in the episode list goes back to the main menu.
    let s = handle_menu_navigation(GamePhase::EpisodeSelect, &mut cursor, &mut progress, keys(false, false, false, true));
    assert_eq!(s.next_phase, Some(GamePhase::MainMenu));
    assert_eq!(s.sound, Some(33));

    // Quit from the main menu.
    let s = handle_menu_navigation(GamePhase::MainMenu, &mut cursor, &mut progress, keys(true, false, true, false));
    assert!(s.exit);
    assert_eq!(s.next_phase, None);

    // The intermission screen handles its own keys.
    let before = cursor;
    let s = handle_menu_navigation(GamePhase::Intermission, &mut cursor, &mut progress, keys(true, true, true, true));
    assert_eq!(cursor, before);
    assert_eq!(s.move_sound, None);
    assert_eq!(s.sound, None);
}

#[test]
fn test_intermission_timed_stages_rollout() {
    let mut anim = IntermissionAnimationState::default();
    assert_eq!(anim.stage, IntermissionStage::BackgroundFadeIn);

    anim.timer = 600;
    if anim.timer >= 500 {
        anim.stage = IntermissionStage::KillsTally;
    }
    assert_eq!(anim.stage, IntermissionStage::KillsTally);

    anim.timer = 1_900;
    if anim.timer >= 1_800 {
        anim.stage = IntermissionStage::SecretsTally;
    }
    assert_eq!(anim.stage, IntermissionStage::SecretsTally);

    anim.timer = 3_100;
    if anim.timer >= 3_000 {
        anim.stage = IntermissionStage::TimeReveal;
    }
    assert_eq!(anim.stage, IntermissionStage::TimeReveal);

    anim.timer = 4_300;
    if anim.timer >= 4_200 {
        anim.stage = IntermissionStage::ReadyToProceed;
    }
    assert_eq!(anim.stage, IntermissionStage::ReadyToProceed);
}

#[test]
fn intermission_counts_up_and_moves_on() {
    let stats = IntermissionStats { kill_percentage: 50, secret_percentage: 100, time_taken_ms: 200_000, par_time_ms: 180_000 };
    let mut progress = LevelProgress::default();
    let mut anim = IntermissionAnimationState::default();
    assert_eq!(handle_level_completed_events(&mut progress, &mut anim), GamePhase::Intermission);
    assert!(progress.is_level_completed);

    assert_eq!(update_intermission_animation(&mut anim, 500, stats), None);
    assert_eq!(anim.stage, IntermissionStage::KillsTally);
    assert_eq!(update_intermission_animation(&mut anim, 650, stats), None);
    assert_eq!(anim.displayed_kills, 25);
    assert_eq!(update_intermission_animation(&mut anim, 650, stats), Some(110));
    assert_eq!(anim.displayed_kills, 50);
    assert_eq!(anim.stage, IntermissionStage::SecretsTally);
    assert_eq!(update_intermission_animation(&mut anim, 300, stats), None);
    assert_eq!(anim.displayed_secrets, 25);
    assert_eq!(update_intermission_animation(&mut anim, 900, stats), Some(110));
    assert_eq!(anim.stage, IntermissionStage::TimeReveal);
    assert_eq!(update_intermission_animation(&mut anim, 100, stats), None);
    // Par was missed but every secret was found: "Groovy!".
    assert_eq!(update_intermission_animation(&mut anim, 200, stats), Some(41));
    assert_eq!(update_intermission_animation(&mut anim, 200, stats), None);
    assert_eq!(anim.stage, IntermissionStage::TimeReveal);

    // Confirm before the end skips to it.
    assert_eq!(handle_intermission_input(&mut progress, &mut anim, stats), IntermissionExit::SkippedToEnd);
    assert_eq!(anim.stage, IntermissionStage::ReadyToProceed);
    assert_eq!(
        handle_intermission_input(&mut progress, &mut anim, stats),
        IntermissionExit::NextLevel(LoadLevelEvent { episode: 1, level: 2 })
    );
    assert!(!progress.is_level_completed);

    progress.current_level = 7;
    assert_eq!(handle_intermission_input(&mut progress, &mut anim, stats), IntermissionExit::EpisodeFinished);
    assert_eq!(progress.current_level, 1);
}

#[test]
fn test_load_level_event_structure() {
    let event = LoadLevelEvent { episode: 1, level: 2 };
    assert_eq!(event.episode, 1);
    assert_eq!(event.level, 2);

    let entity_marker = LevelEntity;
    assert_eq!(format!("{:?}", entity_marker), "LevelEntity");
}

#[test]
fn test_cursor_animation_tick() {
    let mut anim = CursorAnimTimer::default();
    assert_eq!(anim.frame, 0);

    anim.frame = (anim.frame + 1) % 4;
    assert_eq!(anim.frame, 1);

    anim.frame = (anim.frame + 3) % 4;
    assert_eq!(anim.frame, 0);

    for _ in 0..5 {
        update_cursor_animation(&mut anim);
    }
    assert_eq!(anim.frame, 1);
}

#[test]
fn level_timer_runs_while_playing_and_resets_on_advance() {
    let mut progress = LevelProgress::default();
    assert_eq!(progress.level_time_ms, 0);
    assert_eq!(progress.par_time_ms, 180_000);
    progress.update_level_time(GamePhase::Playing, 1_500);
    progress.update_level_time(GamePhase::Paused, 9_000);
    progress.update_level_time(GamePhase::Playing, 500);
    assert_eq!(progress.level_time_ms, 2_000);
    progress.update_level_time(GamePhase::Playing, u32::MAX);
    assert_eq!(progress.level_time_ms, u32::MAX);
    assert!(!progress.advance_to_next_level());
    assert_eq!(progress.current_level, 2);
    assert_eq!(progress.level_time_ms, 0);
    assert_eq!(progress.par_time_ms, 180_000);
}
