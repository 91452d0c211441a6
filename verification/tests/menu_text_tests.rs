use dukenukemrust::game_flow::{GamePhase, IntermissionAnimationState, IntermissionStage, LevelProgress};
use dukenukemrust::menu_text::{
    cursor_indicator_text, intermission_item_text, menu_footer, menu_header, menu_item_color, menu_item_labels,
    menu_subheader, MenuItemColor,
};

#[test]
fn menu_titles_and_entries() {
    let mut progress = LevelProgress::default();
    progress.current_episode = 2;
    progress.current_level = 11;
    assert_eq!(menu_header(GamePhase::Intermission, &progress), "E2L11: LEVEL COMPLETED");
    assert_eq!(menu_header(GamePhase::Paused, &progress), "PAUSED");
    assert_eq!(menu_header(GamePhase::MainMenu, &progress), "DUKE NUKEM 3D");
    assert_eq!(menu_subheader(GamePhase::SkillSelect), "CHOOSE SKILL LEVEL");
    assert_eq!(menu_subheader(GamePhase::Playing), "");
    assert_eq!(menu_footer(GamePhase::Paused), "PRESS ESC TO RESUME • ENTER TO SELECT");
    assert_eq!(menu_footer(GamePhase::EpisodeSelect), "USE ARROWS / W/S TO MOVE • ENTER TO SELECT • ESC TO GO BACK");
    assert_eq!(menu_item_labels(GamePhase::SkillSelect), ["PIECE OF CAKE", "LET'S ROCK", "COME GET SOME", "DAMN I'M GOOD"]);
    assert_eq!(menu_item_labels(GamePhase::Intermission), ["", "", "", ""]);
    assert_eq!(menu_item_color(GamePhase::MainMenu, 1, 1), MenuItemColor::Gold);
    assert_eq!(menu_item_color(GamePhase::MainMenu, 2, 1), MenuItemColor::Grey);
    assert_eq!(menu_item_color(GamePhase::Intermission, 1, 1), MenuItemColor::White);
    assert_eq!(cursor_indicator_text(GamePhase::MainMenu, 1, 1, 5), " ►");
    assert_eq!(cursor_indicator_text(GamePhase::MainMenu, 1, 1, 7), "  ►");
    assert_eq!(cursor_indicator_text(GamePhase::MainMenu, 0, 1, 0), "");
    assert_eq!(cursor_indicator_text(GamePhase::Intermission, 1, 1, 0), "");
}

#[test]
fn statistics_lines() {
    let mut a = IntermissionAnimationState::default();
    a.displayed_kills = 7;
    a.displayed_secrets = 100;
    assert_eq!(intermission_item_text(0, &a, 125_000, 180_000), "");
    a.stage = IntermissionStage::KillsTally;
    assert_eq!(intermission_item_text(0, &a, 125_000, 180_000), "KILLS:      7%");
    assert_eq!(intermission_item_text(1, &a, 125_000, 180_000), "");
    a.stage = IntermissionStage::ReadyToProceed;
    assert_eq!(intermission_item_text(1, &a, 125_000, 180_000), "SECRETS:  100%");
    assert_eq!(intermission_item_text(2, &a, 125_000, 180_000), "TIME:     02:05 (PAR 03:00)");
    assert_eq!(intermission_item_text(3, &a, 125_000, 180_000), "");
    a.displayed_kills = -5;
    assert_eq!(intermission_item_text(0, &a, 0, 0), "KILLS:     -5%");
    assert_eq!(format!("KILLS:    {:>3}%", -5), "KILLS:     -5%");
    assert_eq!(format!("TIME:     {:02}:{:02} (PAR {:02}:{:02})", 2, 5, 3, 0), "TIME:     02:05 (PAR 03:00)");
}
