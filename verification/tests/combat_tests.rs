use dukenukemrust::combat::{
    damage_player, map_tile_to_projectile, update_enemy_status_effects, projectile_bounces, wall_impact, DamageReaction, EnemyActor, EnemyAiState,
    EnemyKind, PopBlast, ProjectileType, SituationalSpawn, VoiceCue, WallImpact,
};
use dukenukemrust::player::PlayerController;

#[test]
fn test_enemy_actor_initialization() {
    let pigcop = EnemyActor::new_pigcop();
    assert_eq!(pigcop.health, 100);
    assert_eq!(pigcop.kind, EnemyKind::Pigcop);
    assert_eq!(pigcop.state, EnemyAiState::Idle);

    let liztroop = EnemyActor::new_liztroop();
    assert_eq!(liztroop.health, 30);
    assert_eq!(liztroop.kind, EnemyKind::Liztroop);

    let octabrain = EnemyActor::new_octabrain();
    assert_eq!(octabrain.health, 175);
}

#[test]
fn test_gib_threshold() {
    let mut enemy = EnemyActor::new_liztroop();
    enemy.health -= 80; // Health = -50 (<= -40 gib threshold)
    if enemy.health <= -40 {
        enemy.state = EnemyAiState::Gibbed;
    }
    assert_eq!(enemy.state, EnemyAiState::Gibbed);
}

#[test]
fn test_gib_state_duplicate_protection() {
    let mut enemy = EnemyActor::new_liztroop();
    enemy.health = -50;
    enemy.state = EnemyAiState::Gibbed;

    let mut second_hit_applied = false;
    if enemy.state != EnemyAiState::Gibbed {
        second_hit_applied = true;
    }
    assert!(!second_hit_applied);
    assert_eq!(enemy.state, EnemyAiState::Gibbed);
}

#[test]
fn test_con_actor_lifecycle_and_projectile_mapping() {
    let (p_laser, vel_laser, dmg_laser) = map_tile_to_projectile(1625);
    assert_eq!(p_laser, ProjectileType::AlienBlaster);
    assert_eq!(vel_laser, 50);
    assert_eq!(dmg_laser, 7);

    let (p_spit, vel_spit, dmg_spit) = map_tile_to_projectile(1636);
    assert_eq!(p_spit, ProjectileType::Spit);
    assert_eq!(vel_spit, 35);
    assert_eq!(dmg_spit, 8);

    let (p_shot, vel_shot, dmg_shot) = map_tile_to_projectile(2613);
    assert_eq!(p_shot, ProjectileType::ShotgunPellet);
    assert_eq!(vel_shot, 80);
    assert_eq!(dmg_shot, 10);

    let (p_chain, vel_chain, dmg_chain) = map_tile_to_projectile(2595);
    assert_eq!(p_chain, ProjectileType::HitscanBullet);
    assert_eq!(vel_chain, 150);
    assert_eq!(dmg_chain, 9);
}

#[test]
fn test_all_14_enemy_kinds_and_constructors() {
    let liz = EnemyActor::new_liztroop();
    assert_eq!(liz.health, 30);
    assert_eq!(liz.kind, EnemyKind::Liztroop);

    let cap = EnemyActor::new_captain();
    assert_eq!(cap.health, 60);
    assert_eq!(cap.kind, EnemyKind::AssaultCaptain);

    let pig = EnemyActor::new_pigcop();
    assert_eq!(pig.health, 100);

    let recon = EnemyActor::new_recon();
    assert_eq!(recon.health, 50);

    let tank = EnemyActor::new_tank();
    assert_eq!(tank.health, 500);

    let oct = EnemyActor::new_octabrain();
    assert_eq!(oct.health, 175);

    let egg = EnemyActor::new_egg();
    assert_eq!(egg.health, 20);

    let slimer = EnemyActor::new_slimer();
    assert_eq!(slimer.health, 1);

    let enf = EnemyActor::new_enforcer();
    assert_eq!(enf.health, 120);

    let comm = EnemyActor::new_commander();
    assert_eq!(comm.health, 350);

    let drone = EnemyActor::new_drone();
    assert_eq!(drone.health, 150);

    let shark = EnemyActor::new_shark();
    assert_eq!(shark.health, 35);

    let prot = EnemyActor::new_protector_drone();
    assert_eq!(prot.health, 300);

    let turret = EnemyActor::new_turret();
    assert_eq!(turret.health, 40);

    let b1 = EnemyActor::new_battlelord(false);
    assert_eq!(b1.health, 4500);
    assert_eq!(b1.kind, EnemyKind::Boss1Battlelord);

    let b1_mini = EnemyActor::new_battlelord(true);
    assert_eq!(b1_mini.health, 1000);
    assert_eq!(b1_mini.kind, EnemyKind::Boss1Mini);

    let b2 = EnemyActor::new_overlord();
    assert_eq!(b2.health, 4500);

    let b3 = EnemyActor::new_cycloid();
    assert_eq!(b3.health, 4500);

    let b4 = EnemyActor::new_queen();
    assert_eq!(b4.health, 6000);
}

#[test]
fn test_situational_spawn_dormancy() {
    let mut sit = SituationalSpawn {
        initial_picnum: 1741, // ONTOILET
        is_dormant: true,
    };
    assert!(sit.is_dormant);

    // Player seen / woke up
    let can_see = true;
    if can_see {
        sit.is_dormant = false;
    }
    assert!(!sit.is_dormant);
}

#[test]
fn test_map_tile_to_projectile_con_mapping() {
    assert_eq!(map_tile_to_projectile(1625), (ProjectileType::AlienBlaster, 50, 7));
    assert_eq!(map_tile_to_projectile(1636), (ProjectileType::Spit, 35, 8));
    assert_eq!(map_tile_to_projectile(1641), (ProjectileType::FreezeShard, 45, 20));
    assert_eq!(map_tile_to_projectile(1650), (ProjectileType::Mortar, 30, 50));
    assert_eq!(map_tile_to_projectile(2595), (ProjectileType::HitscanBullet, 150, 9));
    assert_eq!(map_tile_to_projectile(2605), (ProjectileType::Rocket, 45, 140));
    assert_eq!(map_tile_to_projectile(2613), (ProjectileType::ShotgunPellet, 80, 10));
    assert_eq!(map_tile_to_projectile(1360), (ProjectileType::PsiBlast, 30, 38));
}

#[test]
fn test_boss_lethal_stomp_damage() {
    let boss = EnemyActor::new_battlelord(false);
    let dist_to_player = 1.0;
    let is_lethal_stomp = dist_to_player <= 1.25 && matches!(boss.kind, EnemyKind::Boss1Battlelord);
    assert!(is_lethal_stomp);
    let stomp_damage = 1000;
    assert_eq!(stomp_damage, 1000);
}

#[test]
fn take_damage_flinch_die_and_gib() {
    let mut pig = EnemyActor::new_pigcop();
    let r = pig.take_damage(30);
    assert_eq!(pig.health, 70);
    assert_eq!(pig.state, EnemyAiState::Flinching);
    assert_eq!(r, DamageReaction { sound_id: Some(538), gib_count: 0, voice: VoiceCue::Silent });

    let r = pig.take_damage(70);
    assert_eq!(pig.health, 0);
    assert_eq!(pig.state, EnemyAiState::Dying);
    assert_eq!(r, DamageReaction { sound_id: Some(539), gib_count: 0, voice: VoiceCue::RandomQuip(20) });

    let mut liz = EnemyActor::new_liztroop();
    let r = liz.take_damage(80);
    assert_eq!(liz.health, -50);
    assert_eq!(liz.state, EnemyAiState::Gibbed);
    assert_eq!(r, DamageReaction { sound_id: Some(69), gib_count: 6, voice: VoiceCue::RandomQuip(30) });

    // A gibbed enemy takes nothing more.
    let before = liz;
    let r = liz.take_damage(500);
    assert_eq!(liz, before);
    assert_eq!(r, DamageReaction { sound_id: None, gib_count: 0, voice: VoiceCue::Silent });
}

#[test]
fn boss_death_and_frozen_shatter() {
    let mut queen = EnemyActor::new_queen();
    let r = queen.take_damage(6000);
    assert_eq!(queen.state, EnemyAiState::Dying);
    assert_eq!(r.voice, VoiceCue::RestInPieces);
    assert_eq!(r.sound_id, Some(512));

    let mut oct = EnemyActor::new_octabrain();
    oct.hit_by_projectile(ProjectileType::FreezeShard, 200);
    assert!(oct.is_frozen);
    assert_eq!(oct.state, EnemyAiState::Frozen);
    let r = oct.take_damage(1);
    assert_eq!(oct.health, -50);
    assert_eq!(oct.state, EnemyAiState::Gibbed);
    assert_eq!(r, DamageReaction { sound_id: Some(19), gib_count: 8, voice: VoiceCue::Silent });
}

#[test]
fn status_effects_begin_and_end() {
    let mut e = EnemyActor::new_pigcop();
    e.hit_by_projectile(ProjectileType::FreezeShard, 10);
    assert!(!e.is_frozen);
    e.hit_by_projectile(ProjectileType::ShrinkRay, 0);
    assert!(e.is_shrunk);
    assert_eq!(e.squish(), Some(1000));
    assert!(!e.is_shrunk);
    assert_eq!(e.squish(), None);

    e.hit_by_projectile(ProjectileType::ExpanderRay, 150);
    assert!(e.is_expanding);
    assert_eq!(e.state, EnemyAiState::Expanding);
    let blast = e.end_expansion();
    assert_eq!(blast, PopBlast { first_sound: 14, second_sound: 69, gib_count: 12, damage: 80 });
    assert_eq!(e.health, -100);
    assert_eq!(e.state, EnemyAiState::Gibbed);

    let mut f = EnemyActor::new_enforcer();
    f.is_frozen = true;
    f.state = EnemyAiState::Frozen;
    f.end_freeze();
    assert!(!f.is_frozen);
    assert_eq!(f.state, EnemyAiState::Seeking);
    assert_eq!(f.health, 1);

    let mut dead = EnemyActor::new_pigcop();
    dead.state = EnemyAiState::Dying;
    dead.hit_by_projectile(ProjectileType::ShrinkRay, 0);
    assert!(!dead.is_shrunk);
}

#[test]
fn player_damage_sounds() {
    let mut p = PlayerController::default();
    assert_eq!(damage_player(&mut p, 40), 37);
    assert_eq!(p.health, 60);
    assert_eq!(damage_player(&mut p, 60), 41);
    assert_eq!(p.health, 0);
    assert_eq!(damage_player(&mut p, 10), 37);
    assert_eq!(p.health, -10);
    p.health = i32::MIN + 1;
    damage_player(&mut p, 5);
    assert_eq!(p.health, i32::MIN);
}

#[test]
fn projectile_walls_and_bounces() {
    assert_eq!(projectile_bounces(ProjectileType::FreezeShard), 3);
    assert_eq!(projectile_bounces(ProjectileType::Pipebomb), 4);
    assert_eq!(projectile_bounces(ProjectileType::Rocket), 0);
    assert_eq!(wall_impact(ProjectileType::Mortar, 0), WallImpact::Explode);
    assert_eq!(wall_impact(ProjectileType::FreezeShard, 2), WallImpact::Bounce { sound_id: None });
    assert_eq!(wall_impact(ProjectileType::FreezeShard, 0), WallImpact::Shatter);
    assert_eq!(wall_impact(ProjectileType::Pipebomb, 1), WallImpact::Bounce { sound_id: Some(111) });
    assert_eq!(wall_impact(ProjectileType::Pipebomb, 0), WallImpact::Rest);
    assert_eq!(wall_impact(ProjectileType::HitscanBullet, 0), WallImpact::Puncture);
    assert_eq!(map_tile_to_projectile(2556), (ProjectileType::ShrinkRay, 40, 0));
    assert_eq!(map_tile_to_projectile(7), (ProjectileType::HitscanBullet, 100, 10));
}

#[test]
fn dormant_actor_wakes() {
    let mut s = SituationalSpawn { initial_picnum: 1741, is_dormant: true };
    assert!(!s.wake(false, false, false));
    assert!(s.is_dormant);
    assert!(s.wake(false, true, false));
    assert!(!s.is_dormant);
    assert!(s.wake(false, false, false));
}

#[test]
fn test_enemy_shrink_and_freeze_status() {
    let mut enemy = EnemyActor::new_pigcop();
    enemy.is_shrunk = true;
    assert!(enemy.is_shrunk);

    enemy.is_frozen = true;
    enemy.state = EnemyAiState::Frozen;
    assert_eq!(enemy.state, EnemyAiState::Frozen);
}

#[test]
fn test_enemy_freeze_and_glass_shatter() {
    let mut enemy = EnemyActor::new_pigcop();
    enemy.health = 0;
    enemy.is_frozen = true;
    enemy.state = EnemyAiState::Frozen;

    assert!(enemy.is_frozen);
    assert_eq!(enemy.state, EnemyAiState::Frozen);

    // Subsequent impact shatters frozen enemy
    enemy.state = EnemyAiState::Gibbed;
    enemy.health = -50;
    assert_eq!(enemy.state, EnemyAiState::Gibbed);
}

#[test]
fn status_timers_end_effects() {
    let mut e = EnemyActor::new_octabrain();
    e.is_shrunk = true;
    e.is_frozen = true;
    e.state = EnemyAiState::Frozen;
    assert_eq!(update_enemy_status_effects(&mut e, false, true, true), None);
    assert!(e.is_shrunk);
    assert!(!e.is_frozen);
    assert_eq!((e.state, e.health), (EnemyAiState::Seeking, 1));
    e.is_expanding = true;
    let b = update_enemy_status_effects(&mut e, true, true, true);
    assert_eq!(b, Some(PopBlast { first_sound: 14, second_sound: 69, gib_count: 12, damage: 80 }));
    assert!(!e.is_shrunk && !e.is_expanding);
    assert_eq!((e.state, e.health), (EnemyAiState::Gibbed, -100));
}
