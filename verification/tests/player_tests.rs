use dukenukemrust::cheats::{evaluate_cheats, key_to_char, CheatState, KeyCode};
use dukenukemrust::game_flow::{LevelProgress, SkillLevel};
use dukenukemrust::player::arsenal::{get_highest_priority_available_weapon, ProjectileType};
use dukenukemrust::player::items::PickupKind;
use dukenukemrust::player::{PlayerController, PlayerMovementMode, WeaponType};

#[test]
fn test_player_controller_default_state() {
    let player = PlayerController::default();
    assert_eq!(player.health, 100);
    assert_eq!(player.current_weapon, WeaponType::Pistol);
    assert_eq!(player.weapons[WeaponType::Pistol as usize].ammo, 48);
    assert!(player.weapons[WeaponType::Pistol as usize].is_unlocked);
    assert!(player.weapons[WeaponType::Shotgun as usize].is_unlocked);
    assert!(!player.weapons[WeaponType::Rpg as usize].is_unlocked);
}

#[test]
fn test_steroids_and_medkit_buffs() {
    let mut player = PlayerController::default();
    player.health = 40;
    player.inventory.medkit_amount = 50;

    // Use medkit: 40 + 50 = 90
    let needed = player.max_health - player.health;
    let use_amount = needed.min(player.inventory.medkit_amount);
    player.health += use_amount;
    player.inventory.medkit_amount -= use_amount;

    assert_eq!(player.health, 90);
    assert_eq!(player.inventory.medkit_amount, 0);

    // Test steroids
    player.inventory.steroids_amount = 400;
    player.inventory.steroids_active = true;
    assert!(player.inventory.steroids_active);
}

#[test]
fn test_pistol_mag_and_ammo_consumption() {
    let mut player = PlayerController::default();
    let cur_idx = WeaponType::Pistol as usize;
    assert_eq!(player.pistol_mag, 12);

    // Fire 1 round
    player.pistol_mag -= 1;
    player.weapons[cur_idx].ammo -= 1;
    assert_eq!(player.pistol_mag, 11);
    assert_eq!(player.weapons[cur_idx].ammo, 47);
}

#[test]
fn test_weapon_unlock_and_switch() {
    let mut player = PlayerController::default();
    // Unlock RPG
    let rpg_idx = WeaponType::Rpg as usize;
    player.weapons[rpg_idx].is_unlocked = true;
    player.current_weapon = WeaponType::Rpg;
    assert_eq!(player.current_weapon, WeaponType::Rpg);
    assert_eq!(player.weapons[rpg_idx].ammo, 5);
}

#[test]
fn test_expander_weapon_data() {
    let mut player = PlayerController::default();
    let exp_idx = WeaponType::Expander as usize;
    player.weapons[exp_idx].is_unlocked = true;
    assert_eq!(player.weapons[exp_idx].name, "Expander");
    assert_eq!(player.weapons[exp_idx].ammo, 20);

    player.weapons[exp_idx].ammo -= 1;
    assert_eq!(player.weapons[exp_idx].ammo, 19);
}

#[test]
fn test_protective_boots_hazard_mitigation() {
    let mut player = PlayerController::default();
    player.inventory.boots_amount = 100;

    // Step on acid floor
    let acid_dmg = 10;
    if player.inventory.boots_amount > 0 {
        player.inventory.boots_amount -= acid_dmg;
    } else {
        player.health -= acid_dmg;
    }

    assert_eq!(player.inventory.boots_amount, 90);
    assert_eq!(player.health, 100); // Health protected by boots!
}

#[test]
fn test_player_item_pickup_collection() {
    let mut player = PlayerController::default();
    player.health = 50;
    player.armor = 20;

    // Collect small medkit (+10)
    player.health = (player.health + 10).min(100);
    assert_eq!(player.health, 60);

    // Collect Atomic Health (+50 up to 200)
    player.health = (player.health + 50).min(200);
    assert_eq!(player.health, 110);

    // Collect Armor Vest
    player.armor = 100;
    assert_eq!(player.armor, 100);

    // Collect Shotgun pickup
    player.weapons[WeaponType::Shotgun as usize].is_unlocked = true;
    player.weapons[WeaponType::Shotgun as usize].ammo += 10;
    assert!(player.weapons[WeaponType::Shotgun as usize].is_unlocked);
    assert_eq!(player.weapons[WeaponType::Shotgun as usize].ammo, 30); // 20 default + 10 = 30
}

#[test]
fn test_weapon_priority_auto_switch() {
    let mut player = PlayerController::default();
    player.current_weapon = WeaponType::Shotgun;
    player.weapons[WeaponType::Shotgun as usize].ammo = 0;
    player.weapons[WeaponType::Pistol as usize].is_unlocked = true;
    player.weapons[WeaponType::Pistol as usize].ammo = 48;

    let best = get_highest_priority_available_weapon(&player);
    assert_eq!(best, WeaponType::Pistol);

    // Unlock RPG
    player.weapons[WeaponType::Rpg as usize].is_unlocked = true;
    player.weapons[WeaponType::Rpg as usize].ammo = 5;
    let best = get_highest_priority_available_weapon(&player);
    assert_eq!(best, WeaponType::Rpg);
}

#[test]
fn test_quick_kick_steroid_damage_buff() {
    let mut player = PlayerController::default();
    let base_kick = 15;
    assert_eq!(base_kick, 15);

    player.inventory.steroids_active = true;
    let steroid_kick = if player.inventory.steroids_active { 40 } else { 15 };
    assert_eq!(steroid_kick, 40);
}

#[test]
fn test_pipebomb_throw_and_handremote_transition() {
    let mut player = PlayerController::default();
    player.current_weapon = WeaponType::Pipebomb;
    player.weapons[WeaponType::Pipebomb as usize].ammo = 5;

    // Throw pipebomb
    player.weapons[WeaponType::Pipebomb as usize].ammo -= 1;
    player.current_weapon = WeaponType::HandRemote;

    assert_eq!(player.current_weapon, WeaponType::HandRemote);
    assert_eq!(player.weapons[WeaponType::Pipebomb as usize].ammo, 4);
}

#[test]
fn kick_damage_and_weapon_keys() {
    let mut p = PlayerController::new();
    assert_eq!(p.kick_damage(), 15);
    p.inventory.steroids_active = true;
    assert_eq!(p.kick_damage(), 40);
    assert!(!p.select_weapon_key(5)); // RPG locked
    assert_eq!(p.current_weapon, WeaponType::Pistol);
    assert!(p.select_weapon_key(3));
    assert_eq!(p.current_weapon, WeaponType::Shotgun);
    assert!(!p.select_weapon_key(42));
    p.weapons[WeaponType::Shrinker as usize].is_unlocked = true;
    p.weapons[WeaponType::Expander as usize].is_unlocked = true;
    assert!(p.select_weapon_key(7));
    assert_eq!(p.current_weapon, WeaponType::Shrinker);
    assert!(p.select_weapon_key(7));
    assert_eq!(p.current_weapon, WeaponType::Expander);
    assert!(p.select_weapon_key(1));
    assert_eq!(p.current_weapon, WeaponType::Knee);
}

#[test]
fn pistol_fire_reload_and_switch() {
    let mut p = PlayerController::new();
    p.pistol_mag = 1;
    p.weapons[1].ammo = 5;
    let r = p.fire_current_weapon();
    let shot = r.shot.unwrap();
    assert_eq!(shot.sound_id, 3);
    assert_eq!(shot.projectile, Some(ProjectileType::HitscanBullet));
    assert_eq!(shot.damage, 12);
    assert!(r.started_reload);
    assert_eq!(p.pistol_mag, 4);
    assert_eq!(p.weapons[1].ammo, 4);
    assert_eq!(r.switched_to, None);

    // the last round empties the pistol: the shotgun is taken up
    p.pistol_mag = 1;
    p.weapons[1].ammo = 1;
    let r = p.fire_current_weapon();
    assert!(r.shot.is_some());
    assert!(!r.started_reload);
    assert_eq!(r.switched_to, Some(WeaponType::Shotgun));
    assert_eq!(p.current_weapon, WeaponType::Shotgun);

    let r = p.fire_current_weapon();
    assert_eq!(r.shot.unwrap().count, 7);
    assert_eq!(p.weapons[2].ammo, 19);
}

#[test]
fn pipebomb_and_devastator_fire() {
    let mut p = PlayerController::new();
    p.current_weapon = WeaponType::Pipebomb;
    p.weapons[5].is_unlocked = true;
    let r = p.fire_current_weapon();
    assert_eq!(r.shot.unwrap().projectile, Some(ProjectileType::Pipebomb));
    assert_eq!(p.current_weapon, WeaponType::HandRemote);
    // the detonator fires nothing; its empty slot sends the player to the best weapon
    let r = p.fire_current_weapon();
    assert!(r.shot.is_none());
    assert_eq!(r.switched_to, Some(WeaponType::Shotgun));

    p.current_weapon = WeaponType::Devastator;
    p.weapons[7].is_unlocked = true;
    let side = p.devastator_alt_side;
    let r = p.fire_current_weapon();
    assert_eq!(r.shot.unwrap().damage, 40);
    assert_eq!(p.devastator_alt_side, !side);
    assert_eq!(p.weapons[7].ammo, 19);
}

#[test]
fn pickups_cap_and_refuse() {
    let mut p = PlayerController::new();
    assert!(p.apply_pickup(PickupKind::SmallMedkit).is_none()); // full health
    p.health = 95;
    let n = p.apply_pickup(PickupKind::SmallMedkit).unwrap();
    assert_eq!(n.message, "SMALL MEDKIT (+10 HEALTH)");
    assert_eq!(p.health, 100);
    let n = p.apply_pickup(PickupKind::AtomicHealth).unwrap();
    assert_eq!(n.voice, Some("GETSOM01.VOC"));
    assert_eq!(p.health, 150);
    assert!(p.apply_pickup(PickupKind::ArmorVest).is_some());
    assert_eq!(p.armor, 100);
    assert!(p.apply_pickup(PickupKind::ArmorVest).is_none());
    p.weapons[1].ammo = 195;
    p.apply_pickup(PickupKind::PistolClip).unwrap();
    assert_eq!(p.weapons[1].ammo, 200);
    let n = p.apply_pickup(PickupKind::WeaponRpg).unwrap();
    assert_eq!(n.message, "YOU GOT THE RPG!");
    assert_eq!(p.current_weapon, WeaponType::Rpg);
    assert!(p.weapons[4].is_unlocked);
    assert_eq!(p.weapons[4].ammo, 10);
    p.apply_pickup(PickupKind::ChaingunBox).unwrap();
    assert_eq!(p.weapons[3].ammo, 100);
    assert_eq!(p.current_weapon, WeaponType::Rpg);
    p.apply_pickup(PickupKind::Steroids).unwrap();
    assert_eq!(p.inventory.steroids_amount, 400);
}

#[test]
fn inventory_use_and_tick() {
    let mut p = PlayerController::new();
    assert_eq!(p.use_steroids(), None);
    p.inventory.steroids_amount = 3;
    assert_eq!(p.use_steroids(), Some(723));
    assert!(p.inventory.steroids_active);
    p.inventory.holoduke_amount = 1;
    assert_eq!(p.toggle_holoduke(), Some(70));
    p.inventory.jetpack_amount = 2;
    assert_eq!(p.toggle_jetpack(), Some(49));
    assert_eq!(p.toggle_jetpack(), Some(51));
    assert_eq!(p.toggle_nightvision(), None);
    p.movement_mode = PlayerMovementMode::Diving;
    p.inventory.scuba_amount = 1;
    assert!(p.inventory_tick()); // holoduke runs out
    assert_eq!(p.inventory.steroids_amount, 1);
    assert!(p.inventory.steroids_active);
    assert_eq!(p.inventory.scuba_amount, 0);
    assert!(!p.inventory_tick());
    // 1 - 2 = -1: the charge went past zero, so the steroids stay on
    assert_eq!(p.inventory.steroids_amount, -1);
    assert!(p.inventory.steroids_active);

    p.health = 40;
    p.inventory.medkit_amount = 50;
    assert_eq!(p.use_medkit(), Some(722));
    assert_eq!(p.health, 90);
    assert_eq!(p.inventory.medkit_amount, 0);
    p.take_drowning_damage();
    assert_eq!(p.health, 80);
}

#[test]
fn test_cheat_code_parsing_and_evaluation() {
    let mut cheat_state = CheatState::default();
    let mut player = PlayerController::default();
    let mut progress = LevelProgress::default();

    // 1. God mode
    let res = evaluate_cheats("dnkroz", &mut cheat_state, &mut player, &mut progress);
    assert_eq!(res, Some("GOD MODE ON"));
    assert!(cheat_state.god_mode);
    assert_eq!(player.health, 100);

    let res2 = evaluate_cheats("dnkroz", &mut cheat_state, &mut player, &mut progress);
    assert_eq!(res2, Some("GOD MODE OFF"));
    assert!(!cheat_state.god_mode);

    // 2. All items/weapons (dnstuff)
    let res3 = evaluate_cheats("dnstuff", &mut cheat_state, &mut player, &mut progress);
    assert_eq!(res3, Some("ALL WEAPONS, ITEMS, KEYS"));
    assert_eq!(player.weapons[1].ammo, 200); // Pistol ammo
    assert_eq!(player.weapons[2].ammo, 50); // Shotgun ammo
    assert_eq!(player.weapons[4].ammo, 50); // RPG ammo
    assert!(player.has_blue_key);
    assert!(player.has_red_key);
    assert!(player.has_yellow_key);
    assert_eq!(player.inventory.jetpack_amount, 1600);

    // 3. No clip
    let res4 = evaluate_cheats("dnclip", &mut cheat_state, &mut player, &mut progress);
    assert_eq!(res4, Some("NO CLIPPING ON"));
    assert!(cheat_state.no_clip);

    // 4. Wildcard skill change (dnskill3)
    let res5 = evaluate_cheats("dnskill3", &mut cheat_state, &mut player, &mut progress);
    assert_eq!(res5, Some("SKILL LEVEL CHANGED"));
    assert_eq!(progress.skill, SkillLevel::ComeGetSome);
}

#[test]
fn cheat_keys_typed_one_by_one() {
    let mut cs = CheatState::default();
    let mut player = PlayerController::default();
    let mut progress = LevelProgress::default();
    let mut last = None;
    for ch in "xxxxxxxxxxdnkeys".chars() {
        last = cs.push_key(ch, &mut player, &mut progress);
    }
    assert_eq!(last, Some("ALL KEYS GIVEN"));
    assert!(player.has_yellow_key);
    assert_eq!(cs.buffer, "");
    assert_eq!(cs.push_key('q', &mut player, &mut progress), None);
    assert_eq!(cs.buffer, "q");
    // skill digits clamp to 1..=4
    assert_eq!(evaluate_cheats("dnskill9", &mut cs, &mut player, &mut progress), Some("SKILL LEVEL CHANGED"));
    assert_eq!(progress.skill, SkillLevel::DamnImGood);
    assert_eq!(evaluate_cheats("dnskill0", &mut cs, &mut player, &mut progress), Some("SKILL LEVEL CHANGED"));
    assert_eq!(progress.skill, SkillLevel::PieceOfCake);
    assert_eq!(evaluate_cheats("dnskil", &mut cs, &mut player, &mut progress), None);
    assert_eq!(evaluate_cheats("dnmonsters", &mut cs, &mut player, &mut progress), Some("MONSTERS OFF"));
}

#[test]
fn cheat_keys_type_characters() {
    assert_eq!(key_to_char(KeyCode::KeyD), Some('d'));
    assert_eq!(key_to_char(KeyCode::KeyZ), Some('z'));
    assert_eq!(key_to_char(KeyCode::Digit7), Some('7'));
    assert_eq!(key_to_char(KeyCode::Numpad0), Some('0'));
    assert_eq!(key_to_char(KeyCode::Other), None);

    let mut state = CheatState::default();
    let mut player = PlayerController::default();
    let mut progress = LevelProgress::default();
    let mut last = None;
    for k in [KeyCode::Other, KeyCode::KeyD, KeyCode::KeyN, KeyCode::KeyK, KeyCode::KeyR, KeyCode::KeyO, KeyCode::KeyZ] {
        if let Some(ch) = key_to_char(k) {
            last = state.push_key(ch, &mut player, &mut progress);
        }
    }
    assert!(last.is_some());
    assert!(state.god_mode);
    assert!(state.buffer.is_empty());
}
