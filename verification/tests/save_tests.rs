use dukenukemrust::save::{get_quicksave_path, get_save_path_for_slot, handle_save_load_hotkeys, LoadGameEvent};

#[test]
fn save_paths() {
    assert_eq!(get_save_path_for_slot(0), "saves/game_0.sav");
    assert_eq!(get_save_path_for_slot(12), "saves/game_12.sav");
    assert_eq!(get_quicksave_path(), "saves/quicksave.sav");
}

#[test]
fn quicksave_and_quickload_keys() {
    let (save, load) = handle_save_load_hotkeys(true, true, false);
    let save = save.unwrap();
    assert_eq!(save.slot, None);
    assert_eq!(save.title, "Quicksave");
    assert_eq!(load, None);
    let (save, load) = handle_save_load_hotkeys(true, false, true);
    assert!(save.is_none());
    assert_eq!(load, Some(LoadGameEvent { slot: None }));
    let (save, load) = handle_save_load_hotkeys(false, true, true);
    assert!(save.is_none() && load.is_none());
}
