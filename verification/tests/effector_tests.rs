use dukenukemrust::effectors::{
    handle_tag_activations, spawn_interactive_elements_from_map, update_sector_effectors, EffectorKind, SectorEffectorComponent, SpriteElement,
};
use dukenukemrust::interactivity::{ActivateTagEvent, Activator, Touchplate};
use dukenukemrust::map::{BuildMap, Sector, Sprite};
use dukenukemrust::level_loader::handle_load_level_events;
use dukenukemrust::game_flow::{LevelProgress, LoadLevelEvent};
use dukenukemrust::sprites::{is_left_out_at_skill, shape_of_sprite, SpriteCollider, SpriteShape};

#[test]
fn test_elevator_height_interpolation() {
    let mut elevator = SectorEffectorComponent {
        sector_idx: 2,
        lotag: 17,
        hitag: 0,
        kind: EffectorKind::Elevator {
            orig_floor_z: 10000,
            target_floor_z: 5000,
            current_floor_z: 10000,
            orig_ceil_z: 0,
            target_ceil_z: -5000,
            current_ceil_z: 0,
            speed: 10,
            is_at_top: true,
            auto_return_timer: None,
        },
        active: true,
    };

    if let EffectorKind::Elevator { ref mut current_floor_z, target_floor_z, .. } = elevator.kind {
        *current_floor_z = target_floor_z;
        assert_eq!(*current_floor_z, 5000);
    }
}

#[test]
fn test_drop_floor_effector_trigger() {
    let mut drop_floor = EffectorKind::DropFloor {
        orig_floor_z: 0,
        target_floor_z: 8192,
        current_floor_z: 0,
        speed: 10,
        is_dropped: false,
    };

    if let EffectorKind::DropFloor { ref mut is_dropped, .. } = drop_floor {
        *is_dropped = true;
    }

    if let EffectorKind::DropFloor { is_dropped, target_floor_z, .. } = drop_floor {
        assert!(is_dropped);
        assert_eq!(target_floor_z, 8192);
    }
}

#[test]
fn test_auto_close_door_effector_lifecycle() {
    let mut door = EffectorKind::AutoCloseDoor {
        orig_ceil_z: 0,
        open_ceil_z: -8192,
        current_ceil_z: 0,
        speed: 16,
        auto_close_timer: None,
        auto_close_delay: 5_000,
        is_open: false,
    };

    if let EffectorKind::AutoCloseDoor { ref mut is_open, ref mut auto_close_timer, auto_close_delay, .. } = door {
        *is_open = true;
        *auto_close_timer = Some(auto_close_delay);
    }

    if let EffectorKind::AutoCloseDoor { is_open, auto_close_timer, .. } = door {
        assert!(is_open);
        assert_eq!(auto_close_timer, Some(5_000));
    }

    if let EffectorKind::AutoCloseDoor { ref mut is_open, ref mut auto_close_timer, .. } = door {
        if let Some(ref mut timer) = auto_close_timer {
            *timer -= 5_000;
            if *timer == 0 {
                *is_open = false;
            }
        }
    }

    if let EffectorKind::AutoCloseDoor { is_open, .. } = door {
        assert!(!is_open);
    }
}

fn lift() -> SectorEffectorComponent {
    SectorEffectorComponent {
        sector_idx: 1,
        lotag: 17,
        hitag: 3,
        kind: EffectorKind::Elevator {
            orig_floor_z: 0,
            target_floor_z: -1000,
            current_floor_z: 0,
            orig_ceil_z: -2000,
            target_ceil_z: -3000,
            current_ceil_z: -2000,
            speed: 16,
            is_at_top: false,
            auto_return_timer: None,
        },
        active: false,
    }
}

fn floor_of(e: &SectorEffectorComponent) -> (i32, bool, Option<u32>) {
    match e.kind {
        EffectorKind::Elevator { current_floor_z, is_at_top, auto_return_timer, .. } => (current_floor_z, is_at_top, auto_return_timer),
        _ => panic!("not a lift"),
    }
}

#[test]
fn lift_rises_waits_and_returns() {
    let mut e = lift();
    e.update(16, 400);
    assert_eq!(floor_of(&e), (0, false, None)); // asleep until tagged

    e.activate_tag(3); // reached through its hitag
    assert!(e.active);
    assert_eq!(floor_of(&e), (0, true, Some(5_000)));

    e.update(25, 400);
    assert_eq!(floor_of(&e), (-400, true, Some(5_000)));
    e.update(25, 400);
    e.update(25, 400);
    assert_eq!(floor_of(&e), (-1000, true, Some(4_975)));
    e.update(4_975, 400);
    assert_eq!(floor_of(&e), (-1000, false, None));
    e.update(25, 600);
    e.update(25, 600);
    assert_eq!(floor_of(&e), (0, false, None));
    assert!(!e.active);
}

#[test]
fn door_ceiling_and_crusher_move() {
    let mut door = SectorEffectorComponent {
        sector_idx: 0,
        lotag: 5,
        hitag: 0,
        kind: EffectorKind::AutoCloseDoor {
            orig_ceil_z: 0,
            open_ceil_z: -2048,
            current_ceil_z: 0,
            speed: 16,
            auto_close_timer: None,
            auto_close_delay: 3_000,
            is_open: false,
        },
        active: false,
    };
    let mut others = vec![door, lift()];
    handle_tag_activations(&mut others, ActivateTagEvent { lotag: 5 });
    assert!(others[0].active);
    assert!(!others[1].active);
    door = others[0];
    door.update(10, 1024);
    door.update(10, 1024);
    match door.kind {
        EffectorKind::AutoCloseDoor { current_ceil_z, is_open, auto_close_timer, .. } => {
            assert_eq!((current_ceil_z, is_open, auto_close_timer), (-2048, true, Some(3_000)));
        }
        _ => panic!("not a door"),
    }
    door.update(3_000, 1024);
    match door.kind {
        EffectorKind::AutoCloseDoor { is_open, auto_close_timer, .. } => assert_eq!((is_open, auto_close_timer), (false, None)),
        _ => panic!("not a door"),
    }

    let mut crusher = SectorEffectorComponent {
        sector_idx: 0,
        lotag: 0,
        hitag: 0,
        kind: EffectorKind::CrusherSector { min_z: 0, max_z: 1000, current_z: 900, speed: 50, crushing_ceiling: true, moving_down: true },
        active: true,
    };
    crusher.update(10, 300);
    assert_eq!(
        crusher.kind,
        EffectorKind::CrusherSector { min_z: 0, max_z: 1000, current_z: 1000, speed: 50, crushing_ceiling: true, moving_down: false }
    );
    crusher.update(10, 300);
    assert_eq!(
        crusher.kind,
        EffectorKind::CrusherSector { min_z: 0, max_z: 1000, current_z: 700, speed: 50, crushing_ceiling: true, moving_down: false }
    );

    let mut pane = SectorEffectorComponent {
        sector_idx: 0,
        lotag: 0,
        hitag: 0,
        kind: EffectorKind::ShootingGlassPane { health: 0, is_shattered: false },
        active: true,
    };
    pane.update(10, 0);
    assert_eq!(pane.kind, EffectorKind::ShootingGlassPane { health: 0, is_shattered: true });
    assert!(!pane.active);
}

fn sprite(picnum: i16, lotag: i16, hitag: i16, z: i32, sectnum: i16) -> Sprite {
    Sprite {
        x: 0, y: 0, z, cstat: 0, picnum, shade: 0, pal: 0, clipdist: 0, _filler: 0, xrepeat: 0, yrepeat: 0,
        xoffset: 0, yoffset: 0, sectnum, statnum: 0, ang: 0, owner: 0, xvel: 0, yvel: 0, zvel: 0, lotag, hitag, extra: 0,
    }
}

#[test]
fn map_sprites_set_up_elements() {
    let map = BuildMap {
        version: 7, posx: 0, posy: 0, posz: 0, ang: 0, cursectnum: 0,
        sectors: Vec::new(),
        walls: Vec::new(),
        sprites: vec![
            sprite(1, 17, 4, 1000, 2),
            sprite(1, 21, 0, -500, 3),
            sprite(1, 12, 0, 0, 1),
            sprite(1, 15, 0, 0, 1),
            sprite(3, 9, 1, 0, 0),
            sprite(2, 8, 7, 0, 0),
            sprite(2000, 0, 0, 0, 0),
        ],
    };
    let v = spawn_interactive_elements_from_map(&map);
    assert_eq!(v.len(), 7);
    assert_eq!(
        v[0],
        SpriteElement::Effector(SectorEffectorComponent {
            sector_idx: 2, lotag: 17, hitag: 4,
            kind: EffectorKind::Elevator {
                orig_floor_z: 1000, target_floor_z: 1000 - 65536, current_floor_z: 1000,
                orig_ceil_z: 1000 - 131072, target_ceil_z: 1000 - 196608, current_ceil_z: 1000 - 131072,
                speed: 16, is_at_top: false, auto_return_timer: None,
            },
            active: false,
        })
    );
    assert_eq!(
        v[1],
        SpriteElement::Effector(SectorEffectorComponent {
            sector_idx: 3, lotag: 21, hitag: 0,
            kind: EffectorKind::DropFloor { orig_floor_z: -500, target_floor_z: 65036, current_floor_z: -500, speed: 20, is_dropped: false },
            active: false,
        })
    );
    assert_eq!(
        v[2],
        SpriteElement::Effector(SectorEffectorComponent {
            sector_idx: 1, lotag: 12, hitag: 0,
            kind: EffectorKind::LightSwitchOperator { is_on: true, on_shade: 0, off_shade: 25 },
            active: false,
        })
    );
    assert_eq!(v[3], SpriteElement::FrameLoopEffector);
    assert_eq!(v[4], SpriteElement::Touchplate(Touchplate { lotag: 9, hitag: 1, triggered: false }));
    assert_eq!(v[5], SpriteElement::Activator(Activator { lotag: 8, hitag: 7 }));
    assert_eq!(v[6], SpriteElement::Nothing);
}

#[test]
fn skill_filter_and_sprite_shapes() {
    // A pig cop tagged for skill 3 (lotag 4) is left out below Come Get Some.
    let pig = sprite(2000, 4, 0, 0, 0);
    assert!(is_left_out_at_skill(&pig, 0));
    assert!(is_left_out_at_skill(&pig, 2));
    assert!(!is_left_out_at_skill(&pig, 3));
    // An effector's lotag is a logic tag, never a difficulty.
    assert!(!is_left_out_at_skill(&sprite(1, 4, 0, 0, 0), 0));
    assert!(!is_left_out_at_skill(&sprite(2000, 5, 0, 0, 0), 0));

    let mut wall = sprite(500, 0, 0, 0, 0);
    wall.cstat = 16 | 1;
    assert_eq!(
        shape_of_sprite(&wall),
        SpriteShape {
            wall_aligned: true, floor_aligned: false, centered: false, billboard: false,
            collider: Some(SpriteCollider::WallSlab), health: 10, scale_divisor: 2048,
        }
    );
    let mut flat = sprite(500, 0, 0, 0, 0);
    flat.cstat = 32 | 128;
    assert_eq!(
        shape_of_sprite(&flat),
        SpriteShape {
            wall_aligned: false, floor_aligned: true, centered: true, billboard: false,
            collider: None, health: 10, scale_divisor: 2048,
        }
    );
    assert_eq!(
        shape_of_sprite(&pig),
        SpriteShape {
            wall_aligned: false, floor_aligned: false, centered: false, billboard: true,
            collider: Some(SpriteCollider::Cylinder), health: 100, scale_divisor: 4096,
        }
    );
}

#[test]
fn all_effectors_step_together() {
    let mut v = vec![lift(), lift()];
    v[1].activate_tag(17);
    update_sector_effectors(&mut v, 16, &vec![300, 300]);
    assert_eq!(floor_of(&v[0]), (0, false, None));
    assert_eq!(floor_of(&v[1]), (-300, true, Some(5_000)));
}

fn sector(lotag: i16, ceilingstat: i16) -> Sector {
    Sector {
        wallptr: 0, wallnum: 0, ceilingz: 0, floorz: 0, ceilingstat, floorstat: 0, ceilingpicnum: 0, ceilingheinum: 0,
        ceilingshade: 0, ceilingpal: 0, ceilingxpanning: 0, ceilingypanning: 0, floorpicnum: 0, floorheinum: 0,
        floorshade: 0, floorpal: 0, floorxpanning: 0, floorypanning: 0, visibility: 0, _filler: 0, lotag, hitag: 0, extra: 0,
    }
}

#[test]
fn loading_a_level_counts_its_statistics() {
    let map = BuildMap {
        version: 7, posx: 0, posy: 0, posz: 0, ang: 0, cursectnum: 0,
        sectors: vec![sector(0, 0), sector(32767, 1), sector(32767, 0)],
        walls: Vec::new(),
        sprites: vec![
            sprite(2000, 0, 0, 0, 0),
            sprite(1680, 3, 0, 0, 0),
            sprite(1820, 0, 0, 0, 0),
            sprite(143, 5, 0, 0, 0),
            sprite(143, 0, 0, 0, 0),
            sprite(146, 1, 0, 0, 0),
        ],
    };
    let mut progress = LevelProgress::default();
    progress.kills_count = 9;
    progress.is_level_completed = true;
    let sky = handle_load_level_events(&mut progress, LoadLevelEvent { episode: 2, level: 5 }, &map);
    assert_eq!(sky, Some(84));
    assert_eq!((progress.current_episode, progress.current_level), (2, 5));
    assert_eq!(progress.total_monsters, 3);
    assert_eq!(progress.total_secrets, 3);
    assert_eq!(progress.kills_count, 0);
    assert!(!progress.is_level_completed);

    let empty = BuildMap {
        version: 7, posx: 0, posy: 0, posz: 0, ang: 0, cursectnum: 0,
        sectors: vec![sector(0, 0)], walls: Vec::new(), sprites: Vec::new(),
    };
    assert_eq!(handle_load_level_events(&mut progress, LoadLevelEvent { episode: 1, level: 1 }, &empty), None);
    assert_eq!((progress.total_monsters, progress.total_secrets), (1, 1));
}

#[test]
fn stretch_ceiling_with_a_negative_step() {
    let stretch = |current: i32| SectorEffectorComponent {
        sector_idx: 0,
        lotag: 1,
        hitag: 0,
        kind: EffectorKind::StretchCeiling { orig_ceil_z: 0, target_ceil_z: 4096, current_ceil_z: current, speed: 4, is_stretched: true },
        active: true,
    };
    // at its target a negative step leaves it where it is, still moving
    let mut at = stretch(4096);
    at.update(16, -8);
    assert_eq!(at.kind, stretch(4096).kind);
    assert!(at.active);
    // short of it, a negative step moves it the other way
    let mut short = stretch(1000);
    short.update(16, -8);
    match short.kind {
        EffectorKind::StretchCeiling { current_ceil_z, .. } => assert_eq!(current_ceil_z, 992),
        _ => panic!("not a stretching ceiling"),
    }
    assert!(short.active);
}
