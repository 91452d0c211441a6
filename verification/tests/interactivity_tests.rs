use dukenukemrust::interactivity::{
    apply_player_healing, ActivateTagEvent, BreakableGlass, CrackWall, DancerProp, ExplodingBarrel, FountainProp,
    InteractiveSwitch, KeycardPickup, NukeExitSwitch, PickupKind, PlayerHealEvent, SwitchPress, SwitchType, ToiletProp,
    Touchplate, WaterFountain,
};
use dukenukemrust::player::PlayerController;

#[test]
fn test_touchplate_and_switch_events() {
    let switch = InteractiveSwitch {
        switch_type: SwitchType::LightSwitch,
        on_tile: 135,
        off_tile: 134,
        is_on: false,
        lotag: 42,
        hitag: 0,
        sound_id: 10,
    };

    let event = ActivateTagEvent { lotag: switch.lotag };

    assert_eq!(event.lotag, 42);
}

#[test]
fn test_water_fountain_and_toilet_props() {
    let mut fountain = WaterFountain { uses_left: 10, is_broken: false, broken_tile: 567 };
    fountain.uses_left -= 1;
    assert_eq!(fountain.uses_left, 9);

    let mut toilet = ToiletProp { is_broken: false, broken_tile: 615, water_tile: 921, last_used_ms: 0, cooldown_ms: 0 };
    toilet.last_used_ms = 5_000;
    assert_eq!(toilet.last_used_ms, 5_000);
}

#[test]
fn test_destructible_props_and_crack_walls() {
    let mut barrel = ExplodingBarrel { health: 20, damage: 100, is_exploded: false };
    barrel.health -= 25;
    if barrel.health <= 0 {
        barrel.is_exploded = true;
    }
    assert!(barrel.is_exploded);

    let mut crack = CrackWall { health: 30, stage: 1, lotag: 15, is_blown: false };
    crack.health -= 35;
    if crack.health <= 0 {
        crack.is_blown = true;
        crack.stage = 4;
    }
    assert!(crack.is_blown);
    assert_eq!(crack.stage, 4);
}

#[test]
fn test_access_switch_keycard_requirement() {
    let mut player = PlayerController::default();
    assert!(!player.has_blue_key);

    let blue_switch = InteractiveSwitch {
        switch_type: SwitchType::AccessSwitch { key_required: 1 },
        on_tile: 130,
        off_tile: 131,
        is_on: false,
        lotag: 10,
        hitag: 0,
        sound_id: 76,
    };

    let can_activate = match blue_switch.switch_type {
        SwitchType::AccessSwitch { key_required } => match key_required {
            1 => player.has_blue_key,
            2 => player.has_red_key,
            3 => player.has_yellow_key,
            _ => true,
        },
        _ => true,
    };
    assert!(!can_activate);

    player.has_blue_key = true;
    let can_activate_now = match blue_switch.switch_type {
        SwitchType::AccessSwitch { key_required } => match key_required {
            1 => player.has_blue_key,
            2 => player.has_red_key,
            3 => player.has_yellow_key,
            _ => true,
        },
        _ => true,
    };
    assert!(can_activate_now);
}

#[test]
fn test_complete_pickup_matrix_classification() {
    let all_pickups = [
        PickupKind::SmallMedkit,
        PickupKind::LargeMedkit,
        PickupKind::PortableMedkit,
        PickupKind::AtomicHealth,
        PickupKind::ArmorVest,
        PickupKind::PistolClip,
        PickupKind::ShotgunBox,
        PickupKind::ChaingunBox,
        PickupKind::RpgRocket,
        PickupKind::PipebombBox,
        PickupKind::ShrinkerAmmo,
        PickupKind::DevastatorBox,
        PickupKind::FreezeAmmo,
        PickupKind::ExpanderAmmo,
        PickupKind::Steroids,
        PickupKind::ScubaTank,
        PickupKind::NightvisionGoggles,
        PickupKind::ProtectiveBoots,
        PickupKind::Jetpack,
        PickupKind::Holoduke,
        PickupKind::WeaponPistol,
        PickupKind::WeaponShotgun,
        PickupKind::WeaponChaingun,
        PickupKind::WeaponRpg,
        PickupKind::WeaponPipebomb,
        PickupKind::WeaponShrinker,
        PickupKind::WeaponDevastator,
        PickupKind::WeaponTripbomb,
        PickupKind::WeaponFreezer,
        PickupKind::WeaponExpander,
    ];
    assert_eq!(all_pickups.len(), 30);
}

#[test]
fn test_toilet_urination_and_flush_lifecycle() {
    let mut toilet = ToiletProp::default();
    let mut player = PlayerController::default();
    player.health = 80;

    let sfx1 = toilet.interact(&mut player);
    assert_eq!(sfx1, 34);
    assert_eq!(player.health, 90);
    assert_eq!(toilet.cooldown_ms, 220_000);

    let sfx2 = toilet.interact(&mut player);
    assert_eq!(sfx2, 35);
    assert_eq!(player.health, 90);

    toilet.cooldown_ms = 0;
    player.health = 95;
    let sfx3 = toilet.interact(&mut player);
    assert_eq!(sfx3, 34);
    assert_eq!(player.health, 100);
}

#[test]
fn test_water_fountain_drinking() {
    let mut fountain = FountainProp::default();
    let mut player = PlayerController::default();
    player.health = 98;

    let sfx1 = fountain.drink(&mut player);
    assert_eq!(sfx1, Some(36));
    assert_eq!(player.health, 99);

    let sfx2 = fountain.drink(&mut player);
    assert_eq!(sfx2, Some(36));
    assert_eq!(player.health, 100);

    let sfx3 = fountain.drink(&mut player);
    assert_eq!(sfx3, None);
    assert_eq!(player.health, 100);
}

#[test]
fn test_dancer_tipping_quotes() {
    let mut dancer = DancerProp::default();
    let quote1 = dancer.tip();
    assert_eq!(quote1, 38);
    assert_eq!(dancer.total_tips, 1);

    let quote2 = dancer.tip();
    assert_eq!(quote2, 37);
    assert_eq!(dancer.total_tips, 2);
}

#[test]
fn switch_press_denied_then_toggles() {
    let mut player = PlayerController::default();
    let mut s = InteractiveSwitch {
        switch_type: SwitchType::AccessSwitch { key_required: 2 },
        on_tile: 130,
        off_tile: 131,
        is_on: false,
        lotag: 10,
        hitag: 0,
        sound_id: 76,
    };
    assert_eq!(s.press(&player), SwitchPress::Denied { sound_id: 86 });
    assert!(!s.is_on);
    let card = KeycardPickup { key_type: 2 };
    assert_eq!(card.collect(&mut player), 65);
    assert!(player.has_red_key && !player.has_blue_key);
    assert_eq!(
        s.press(&player),
        SwitchPress::Toggled { sound_id: Some(76), tile: 130, tag: Some(ActivateTagEvent { lotag: 10 }) }
    );
    assert!(s.is_on);
    assert_eq!(s.press(&player), SwitchPress::Toggled { sound_id: Some(76), tile: 131, tag: Some(ActivateTagEvent { lotag: 10 }) });
    let mut quiet = InteractiveSwitch { switch_type: SwitchType::DipSwitch, on_tile: 1, off_tile: 2, is_on: true, lotag: 0, hitag: 0, sound_id: 0 };
    assert_eq!(quiet.press(&player), SwitchPress::Toggled { sound_id: None, tile: 2, tag: None });
}

#[test]
fn fountain_toilet_and_healing() {
    let mut f = WaterFountain { uses_left: 1, is_broken: false, broken_tile: 567 };
    assert_eq!(f.sip(), Some((PlayerHealEvent { amount: 1 }, 36)));
    assert_eq!(f.uses_left, 0);
    assert_eq!(f.sip(), None);

    let mut t = ToiletProp::default();
    assert_eq!(t.use_stall(), Some((PlayerHealEvent { amount: 10 }, 79)));
    assert_eq!(t.use_stall(), None);
    t.cooldown_ms = 1_500;
    t.tick(1_000);
    assert_eq!(t.cooldown_ms, 500);
    t.tick(1_000);
    assert_eq!(t.cooldown_ms, 0);

    let mut p = PlayerController::default();
    p.health = 95;
    apply_player_healing(&mut p, 10);
    assert_eq!(p.health, 100);
    p.health = 40;
    apply_player_healing(&mut p, 10);
    assert_eq!(p.health, 50);
}

#[test]
fn explosions_break_things() {
    let mut b = ExplodingBarrel { health: 20, damage: 100, is_exploded: false };
    assert_eq!(b.blast(10), None);
    assert_eq!(b.health, 10);
    assert_eq!(b.blast(10), Some(100));
    assert!(b.is_exploded);
    assert_eq!(b.blast(10), None);
    assert_eq!(b.health, 0);

    let mut c = CrackWall { health: 30, stage: 1, lotag: 15, is_blown: false };
    assert_eq!(c.blast(35), (true, Some(ActivateTagEvent { lotag: 15 })));
    assert_eq!(c.stage, 4);
    assert_eq!(c.blast(35), (false, None));

    let mut g = BreakableGlass { health: 5, is_broken: false, wall_idx: Some(3), sector_idx: None };
    assert!(g.shatter());
    assert!(!g.shatter());

    let mut n = NukeExitSwitch { is_activated: false, is_secret: false, lotag: 0, hitag: 0 };
    assert!(n.press());
    assert!(!n.press());

    let mut plate = Touchplate { lotag: 7, hitag: 0, triggered: false };
    assert_eq!(plate.step(true), Some(ActivateTagEvent { lotag: 7 }));
    assert_eq!(plate.step(true), None);
    assert_eq!(plate.step(false), None);
    assert_eq!(plate.step(true), Some(ActivateTagEvent { lotag: 7 }));
}
