use dukenukemrust::console::commands::ConsoleAction;
use dukenukemrust::console::{ConsoleState, LogColor};
use dukenukemrust::player::PlayerController;

#[test]
fn test_console_state_log_and_history() {
    let mut console = ConsoleState::default();
    console.log("Test log entry", LogColor::White);
    assert_eq!(console.log_lines.len(), 3);
    assert_eq!(console.log_lines.last().unwrap().0, "Test log entry");
}

#[test]
fn test_console_command_parsing() {
    let mut console = ConsoleState::default();
    assert!(!console.is_open);

    console.log("God mode ON", LogColor::Yellow);
    console.history.push("god".to_string());
    console.history.push("noclip".to_string());
    console.history.push("give all".to_string());

    assert_eq!(console.history.len(), 3);
    assert_eq!(console.history[0], "god");
    assert_eq!(console.history[2], "give all");
}

fn last_line(c: &ConsoleState) -> String {
    c.log_lines.last().unwrap().0.clone()
}

#[test]
fn console_commands_act_on_the_player() {
    let mut c = ConsoleState::new();
    let mut player = Some(PlayerController::new());
    assert!(matches!(c.execute_command("  GOD ", &mut player), ConsoleAction::Nothing));
    assert!(player.unwrap().god_mode);
    assert_eq!(last_line(&c), "God Mode ON");
    assert_eq!(c.history, vec!["GOD".to_string()]);
    c.execute_command("give ammo", &mut player);
    assert_eq!(player.unwrap().weapons[3].ammo, 200);
    assert_eq!(last_line(&c), "All ammo replenished.");
    c.execute_command("give Bogus", &mut player);
    assert_eq!(last_line(&c), "Unknown give parameter 'bogus'");
    c.execute_command("kill", &mut player);
    assert_eq!(player.unwrap().health, 0);
    c.execute_command("give all", &mut player);
    let p = player.unwrap();
    assert_eq!((p.health, p.armor, p.inventory.jetpack_amount), (100, 100, 100));
    assert!(p.weapons.iter().all(|w| w.is_unlocked && w.ammo == w.max_ammo));
    let mut nobody: Option<PlayerController> = None;
    let before = c.log_lines.len();
    c.execute_command("noclip", &mut nobody);
    assert_eq!(c.log_lines.len(), before + 1); // only the echo
    assert_eq!(last_line(&c), "] noclip");
}

#[test]
fn console_warp_and_settings() {
    let mut c = ConsoleState::new();
    let mut player = None;
    match c.execute_command("map e2l11.map", &mut player) {
        ConsoleAction::LoadLevel(ev) => assert_eq!((ev.episode, ev.level), (2, 11)),
        other => panic!("unexpected {:?}", other),
    }
    assert_eq!(last_line(&c), "Warping to Episode 2 Level 11 (E2L11)...");
    match c.execute_command("warp x", &mut player) {
        ConsoleAction::LoadLevel(ev) => assert_eq!((ev.episode, ev.level), (1, 1)),
        other => panic!("unexpected {:?}", other),
    }
    match c.execute_command("map EEE3LX", &mut player) {
        ConsoleAction::LoadLevel(ev) => assert_eq!((ev.episode, ev.level), (3, 1)),
        other => panic!("unexpected {:?}", other),
    }
    assert!(matches!(c.execute_command("map", &mut player), ConsoleAction::Nothing));
    assert_eq!(last_line(&c), "Usage: map <eXlY> (e.g. map E1L1, map E1L3)");
    assert!(matches!(c.execute_command("r_crt off", &mut player), ConsoleAction::SetCrt(false)));
    assert_eq!(last_line(&c), "Retro CRT Post-Processing: DISABLED");
    assert!(matches!(c.execute_command("crt", &mut player), ConsoleAction::SetCrt(true)));
    assert!(matches!(c.execute_command("r_quantize TRUE", &mut player), ConsoleAction::SetQuantize(true)));
    match c.execute_command("r_scanlines 0.5", &mut player) {
        ConsoleAction::SetScanlines(Some(a)) => assert_eq!(a, "0.5"),
        other => panic!("unexpected {:?}", other),
    }
    assert!(matches!(c.execute_command("quit", &mut player), ConsoleAction::Quit));
    assert_eq!(last_line(&c), "Exiting application...");
    c.execute_command("frobnicate now", &mut player);
    assert_eq!(last_line(&c), "Unknown command 'frobnicate'. Type 'help' for commands.");
    c.execute_command("help", &mut player);
    assert_eq!(last_line(&c), "  quit / exit           - Exit application");
    c.execute_command("clear", &mut player);
    assert!(c.log_lines.is_empty());
    assert!(matches!(c.execute_command("   ", &mut player), ConsoleAction::Nothing));
}

#[test]
fn console_log_keeps_last_hundred_lines() {
    let mut c = ConsoleState::new();
    for i in 0..150 {
        c.log(&format!("line {}", i), LogColor::White);
    }
    assert_eq!(c.log_lines.len(), 100);
    assert_eq!(c.log_lines[0].0, "line 50");
}

#[test]
fn console_line_editing_and_history() {
    let mut c = ConsoleState::new();
    c.toggle_open();
    assert!(c.is_open);
    c.type_text("go");
    c.type_text("`");
    c.type_text("d");
    assert_eq!(c.input_buffer, "god");
    c.backspace();
    assert_eq!(c.input_buffer, "go");
    c.type_text("d");
    let mut player = Some(PlayerController::new());
    c.submit_input(&mut player);
    assert_eq!(c.input_buffer, "");
    c.execute_command("noclip", &mut player);
    c.history_up();
    assert_eq!(c.input_buffer, "noclip");
    c.history_up();
    assert_eq!(c.input_buffer, "god");
    c.history_up();
    assert_eq!(c.input_buffer, "god");
    c.history_down();
    assert_eq!(c.input_buffer, "noclip");
    c.history_down();
    assert_eq!(c.input_buffer, "");
    assert_eq!(c.history_index, None);
    c.close();
    assert!(!c.is_open);
}
