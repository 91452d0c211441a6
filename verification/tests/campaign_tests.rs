use dukenukemrust::midi::LevelMidiTrack;
use dukenukemrust::campaign::{
    all_campaign_maps, format_map_file_name, get_campaign_map, get_episode_level_count, get_episode_maps,
    CampaignProgression, LevelAdvanceResult,
};
use dukenukemrust::game_flow::{handle_level_select_input, LevelProgress, LevelSelectKeys, LevelSelectState, LoadLevelEvent};

#[test]
fn test_44_map_database_integrity() {
    let all = all_campaign_maps();
    assert_eq!(all.len(), 41); // 8 in E1, 11 in E2, 11 in E3, 11 in E4 = 41 total campaign levels

    for map in all {
        assert!(map.episode >= 1 && map.episode <= 4);
        assert!(map.level >= 1 && map.level <= 11);
        assert!(!map.title.is_empty());
        assert!(map.map_filename.starts_with('E'));
        assert!(map.music_filename.ends_with(".MID"));
        assert!(map.par_time_seconds > 0);
    }
}

#[test]
fn test_episode_1_progression_and_secret_exit() {
    let mut prog = CampaignProgression::default();
    assert_eq!(prog.current_episode, 1);
    assert_eq!(prog.current_level, 1);
    assert_eq!(prog.current_map_filename(), "E1L1.MAP");

    // L1 -> L2
    assert_eq!(prog.advance_level(false), LevelAdvanceResult::NextLevel { episode: 1, level: 2 });
    // L2 -> L3
    assert_eq!(prog.advance_level(false), LevelAdvanceResult::NextLevel { episode: 1, level: 3 });

    // L3 -> Secret Exit to E1L8
    assert_eq!(prog.advance_level(true), LevelAdvanceResult::SecretLevel { episode: 1, level: 8 });
    assert_eq!(prog.current_level, 8);
    assert_eq!(prog.current_map_filename(), "E1L8.MAP");

    // Completing E1L8 returns to E1L4
    assert_eq!(prog.advance_level(false), LevelAdvanceResult::ReturnFromSecret { episode: 1, level: 4 });
    assert_eq!(prog.current_level, 4);
    assert_eq!(prog.current_map_filename(), "E1L4.MAP");

    // L4 -> L5
    assert_eq!(prog.advance_level(false), LevelAdvanceResult::NextLevel { episode: 1, level: 5 });

    // L5 -> L6 (Boss)
    assert_eq!(prog.advance_level(false), LevelAdvanceResult::NextLevel { episode: 1, level: 6 });
    assert_eq!(prog.current_map_filename(), "E1L6.MAP");

    // Defeating L6 Boss completes Episode 1
    assert_eq!(prog.advance_level(false), LevelAdvanceResult::EpisodeCompleted { episode: 1 });
    assert!(prog.episode_completed);
}

#[test]
fn campaign_lookups_and_episode_lists() {
    let e2l11 = get_campaign_map(2, 11).unwrap();
    assert_eq!(e2l11.map_filename, "E2L11.MAP");
    assert!(get_campaign_map(5, 1).is_none());
    assert!(get_campaign_map(1, 9).is_none());
    assert_eq!(get_episode_level_count(1), 6);
    assert_eq!(get_episode_level_count(4), 10);
    assert_eq!(get_episode_level_count(7), 6);
    let e3 = get_episode_maps(3);
    assert_eq!(e3.len(), 11);
    assert!(e3.iter().enumerate().all(|(i, m)| m.episode == 3 && m.level == i + 1));
    assert_eq!(format_map_file_name(4, 10), "E4L10.MAP");
    assert_eq!(format_map_file_name(0, 0), "E0L0.MAP");
}

#[test]
fn campaign_secret_exit_without_secret_goes_on() {
    let mut prog = CampaignProgression::default();
    prog.kills_count = 9;
    // E1L1 has no secret level: a secret exit is an ordinary exit
    assert_eq!(prog.advance_level(true), LevelAdvanceResult::NextLevel { episode: 1, level: 2 });
    assert_eq!(prog.kills_count, 0);
    prog.secrets_found = 2;
    prog.reset_level_stats();
    assert_eq!(prog.secrets_found, 0);
    assert_eq!(prog.current_map_info().unwrap().map_filename, "E1L2.MAP");
}

#[test]
fn test_level_select_navigation_and_maps() {
    let mut ls = LevelSelectState::default();
    assert_eq!(ls.selected_episode, 1);
    assert_eq!(ls.selected_level, 1);

    let info = ls.get_current_map_info().unwrap();
    assert_eq!(info.map_filename, "E1L1.MAP");

    ls.next_level();
    assert_eq!(ls.selected_level, 2);
    assert_eq!(ls.get_current_map_info().unwrap().map_filename, "E1L2.MAP");

    ls.next_episode();
    assert_eq!(ls.selected_episode, 2);
    assert_eq!(ls.selected_level, 1);
    assert_eq!(ls.get_current_map_info().unwrap().map_filename, "E2L1.MAP");
}

#[test]
fn level_select_wraps_both_ways() {
    let mut ls = LevelSelectState::default();
    ls.prev_level();
    assert_eq!(ls.selected_level, 8);
    ls.next_level();
    assert_eq!(ls.selected_level, 1);
    ls.prev_episode();
    assert_eq!(ls.selected_episode, 4);
    ls.next_episode();
    assert_eq!(ls.selected_episode, 1);
    ls.is_open = true;
    assert_eq!(ls.warp_to_selected(), LoadLevelEvent { episode: 1, level: 1 });
    assert!(!ls.is_open);
    assert_eq!(ls.get_levels_for_episode(2).len(), 11);
}

#[test]
fn test_level_progression_episode1() {
    let mut progress = LevelProgress::default();
    assert_eq!(progress.current_map_filename(), "E1L1.MAP");

    // Advance through Episode 1
    assert!(!progress.advance_to_next_level());
    assert_eq!(progress.current_map_filename(), "E1L2.MAP");

    assert!(!progress.advance_to_next_level());
    assert_eq!(progress.current_map_filename(), "E1L3.MAP");

    assert!(!progress.advance_to_next_level());
    assert_eq!(progress.current_map_filename(), "E1L4.MAP");

    assert!(!progress.advance_to_next_level());
    assert_eq!(progress.current_map_filename(), "E1L5.MAP");

    assert!(!progress.advance_to_next_level());
    assert_eq!(progress.current_map_filename(), "E1L6.MAP");

    assert!(!progress.advance_to_next_level());
    assert_eq!(progress.current_map_filename(), "E1L7.MAP");

    // Boss level completed -> Episode finished
    assert!(progress.advance_to_next_level());
    assert_eq!(progress.current_level, 1);
}

fn ls_keys(toggle: bool, up: bool, down: bool, left: bool, right: bool, enter: bool, escape: bool) -> LevelSelectKeys {
    LevelSelectKeys { toggle, up, down, left, right, enter, escape }
}

#[test]
fn level_select_keys_warp() {
    let mut s = LevelSelectState::default();
    // Closed: arrows do nothing.
    assert_eq!(handle_level_select_input(&mut s, ls_keys(false, false, true, false, false, false, false)), None);
    assert_eq!(s.selected_episode, 1);
    // F3 opens; down picks episode 2 in the same frame.
    handle_level_select_input(&mut s, ls_keys(true, false, true, false, false, false, false));
    assert!(s.is_open);
    assert_eq!((s.selected_episode, s.selected_level), (2, 1));
    handle_level_select_input(&mut s, ls_keys(false, false, false, false, true, false, false));
    handle_level_select_input(&mut s, ls_keys(false, false, false, false, true, false, false));
    assert_eq!(s.selected_level, 3);
    handle_level_select_input(&mut s, ls_keys(false, false, false, true, false, false, false));
    assert_eq!(s.selected_level, 2);
    let ev = handle_level_select_input(&mut s, ls_keys(false, false, false, false, false, true, false));
    assert_eq!(ev, Some(LoadLevelEvent { episode: 2, level: 2 }));
    assert!(!s.is_open);
    handle_level_select_input(&mut s, ls_keys(true, false, false, false, false, false, false));
    handle_level_select_input(&mut s, ls_keys(false, false, false, false, false, false, true));
    assert!(!s.is_open);
}

#[test]
fn campaign_progression_resets_the_level_timer() {
    let mut prog = CampaignProgression::default();
    prog.level_time_ms = 42_000;
    prog.kills_count = 3;
    assert_eq!(prog.advance_level(false), LevelAdvanceResult::NextLevel { episode: 1, level: 2 });
    assert_eq!(prog.level_time_ms, 0);
    assert_eq!(prog.kills_count, 0);
}

#[test]
fn level_music_follows_the_map_table() {
    assert_eq!(LevelMidiTrack::filename_for_campaign_map(1, 1), "STALKER.MID");
    assert_eq!(LevelMidiTrack::filename_for_campaign_map(1, 6), "LORDCOFO.MID");
    assert_eq!(LevelMidiTrack::filename_for_campaign_map(2, 10), "INVADER.MID");
    assert_eq!(LevelMidiTrack::filename_for_campaign_map(5, 1), "GRABBAG.MID");
    for m in all_campaign_maps() {
        assert!(LevelMidiTrack::filename_for_campaign_map(m.episode, m.level).ends_with(".MID"));
    }
}
