use dukenukemrust::combat::{EnemyKind, SituationalSpawn};
use dukenukemrust::interactivity::{InteractiveSwitch, KeycardPickup, NukeExitSwitch, PickupKind, SwitchType, ToiletProp};
use dukenukemrust::map::Sprite;
use dukenukemrust::sprites::{sprite_role, EnemySpawn, SpriteRole, TileNames};

fn names() -> TileNames {
    TileNames {
        lightswitch: 3000,
        spacedoorswitch: 3010,
        dipswitch: 3020,
        lightswitch2: 3030,
        powerswitch1: 3040,
        handswitch: 3050,
        pullswitch: 3060,
        accesscard: 60,
        cola: 51,
        sixpak: 52,
        atomichealth: 3070,
        shield: 54,
        ammo: 40,
        rpgammo: 44,
        hbombammo: 3080,
        ammolots: 3090,
        shotgunammo: 3100,
        devistatorammo: 3110,
        growammo: 3120,
        crystalammo: 3130,
        freezeammo: 37,
        steroids: 55,
        airtank: 56,
        jetpack: 57,
        heatsensor: 3140,
        boots: 61,
        holoduke: 3150,
        firstgunsprite: 21,
        chaingunsprite: 22,
        rpgsprite: 23,
        freezesprite: 3160,
        shrinkersprite: 3170,
        heavyhbomb: 3180,
        tripbombsprite: 27,
        shotgunsprite: 28,
        firstaid: 53,
        devistatorsprite: 29,
        growspriteicon: 3190,
        waterfountain: 3200,
        toilet: 3210,
        stall: 3220,
        viewscreen2: 3230,
        viewscreen: 3240,
        camera1: 3250,
        explodingbarrel: 3260,
        explodingbarrel2: 3270,
        firebarrel: 3280,
        crack1: 4000,
        crack4: 4003,
        glass: 3310,
        glass2: 3320,
        liztroop: 1680,
        liztroopducking: 1687,
        pigcop: 2000,
        pigcopstayput: 3340,
        pigcopdive: 3350,
        recon: 3360,
        tank: 3370,
        octabrain: 1960,
        octabrainstayput: 3380,
        egg: 3390,
        greenslime: 3400,
        lizman: 1820,
        lizmanjump: 1825,
        commander: 2120,
        commanderstayput: 3420,
        drone: 3430,
        shark: 3440,
        newbeast: 3450,
        newbeaststayput: 3460,
        newbeasthang: 3470,
        newbeastjump: 3480,
        rotategun: 3490,
        rat: 3500,
        ooz: 3510,
        ooz2: 3520,
        boss1: 2710,
        boss1stayput: 3530,
        boss2: 3540,
        boss3: 3550,
        boss4: 3560,
        boss4stayput: 3570,
        nukebutton: 142,
        waterfountainbroke: 3590,
        toiletbroke: 3600,
        stallbroke: 3610,
        toiletwater: 3620,
        viewscreenbroke: 3630,
        liztroopstayput: 1681,
        liztrooponetoilet: 1682,
        liztroopjustsit: 1683,
        liztroopjetpack: 1684,
        lizmanstayput: 1821,
    }
}

fn sprite(picnum: i16, pal: u8, lotag: i16, hitag: i16) -> Sprite {
    Sprite {
        x: 0, y: 0, z: 0, cstat: 0, picnum, shade: 0, pal, clipdist: 0, _filler: 0, xrepeat: 64, yrepeat: 64,
        xoffset: 0, yoffset: 0, sectnum: 3, statnum: 0, ang: 0, owner: -1, xvel: 0, yvel: 0, zvel: 0,
        lotag, hitag, extra: -1,
    }
}

#[test]
fn sprite_roles_of_pickups_and_keycards() {
    let n = names();
    assert_eq!(sprite_role(&sprite(51, 0, 0, 0), &n), SpriteRole::Pickup(PickupKind::SmallMedkit));
    assert_eq!(sprite_role(&sprite(40, 0, 0, 0), &n), SpriteRole::Pickup(PickupKind::PistolClip));
    assert_eq!(sprite_role(&sprite(58, 0, 0, 0), &n), SpriteRole::Pickup(PickupKind::NightvisionGoggles));
    assert_eq!(sprite_role(&sprite(60, 0, 0, 0), &n), SpriteRole::Keycard(KeycardPickup { key_type: 1 }));
    assert_eq!(sprite_role(&sprite(176, 0, 0, 0), &n), SpriteRole::Keycard(KeycardPickup { key_type: 2 }));
    assert_eq!(sprite_role(&sprite(177, 0, 0, 0), &n), SpriteRole::Keycard(KeycardPickup { key_type: 3 }));
    assert_eq!(sprite_role(&sprite(7, 0, 0, 0), &n), SpriteRole::Scenery);
}

#[test]
fn sprite_roles_of_switches_toilets_and_the_nuke_button() {
    let n = names();
    assert_eq!(
        sprite_role(&sprite(n.dipswitch, 0, 5, 9), &n),
        SpriteRole::Switch(InteractiveSwitch {
            switch_type: SwitchType::LightSwitch, on_tile: n.dipswitch + 1, off_tile: n.dipswitch,
            is_on: false, lotag: 5, hitag: 9, sound_id: 10,
        })
    );
    assert_eq!(
        sprite_role(&sprite(n.stall, 0, 0, 0), &n),
        SpriteRole::Toilet(ToiletProp { is_broken: false, broken_tile: n.stallbroke, water_tile: n.toiletwater, last_used_ms: 0, cooldown_ms: 0 })
    );
    assert_eq!(
        sprite_role(&sprite(144, 0, 1, 2), &n),
        SpriteRole::NukeButton(NukeExitSwitch { is_activated: false, is_secret: true, lotag: 1, hitag: 2 })
    );
    assert_eq!(sprite_role(&sprite(4002, 0, 6, 0), &n), SpriteRole::Crack(dukenukemrust::interactivity::CrackWall { health: 30, stage: 1, lotag: 6, is_blown: false }));
}

#[test]
fn sprite_roles_of_enemies() {
    let n = names();
    assert_eq!(
        sprite_role(&sprite(1683, 0, 0, 0), &n),
        SpriteRole::Enemy(EnemySpawn {
            kind: EnemyKind::Liztroop, actor_tile: 1680, actor_health: 30,
            spawn: Some(SituationalSpawn { initial_picnum: 1683, is_dormant: true }), flying: false,
        })
    );
    assert_eq!(
        sprite_role(&sprite(1684, 21, 0, 0), &n),
        SpriteRole::Enemy(EnemySpawn {
            kind: EnemyKind::AssaultCaptain, actor_tile: 1680, actor_health: 60,
            spawn: Some(SituationalSpawn { initial_picnum: 1684, is_dormant: false }), flying: true,
        })
    );
    assert_eq!(
        sprite_role(&sprite(2710, 21, 0, 0), &n),
        SpriteRole::Enemy(EnemySpawn {
            kind: EnemyKind::Boss1Mini, actor_tile: 2710, actor_health: 1000,
            spawn: Some(SituationalSpawn { initial_picnum: 2710, is_dormant: false }), flying: false,
        })
    );
    assert_eq!(
        sprite_role(&sprite(n.egg, 0, 0, 0), &n),
        SpriteRole::Enemy(EnemySpawn {
            kind: EnemyKind::ProtozoidEgg, actor_tile: n.egg, actor_health: 20,
            spawn: Some(SituationalSpawn { initial_picnum: n.egg, is_dormant: true }), flying: false,
        })
    );
    assert_eq!(sprite_role(&sprite(n.rat, 0, 0, 0), &n), SpriteRole::Critter { actor_tile: n.rat, actor_health: 5 });
    assert_eq!(sprite_role(&sprite(n.ooz2, 0, 0, 0), &n), SpriteRole::SlimeHazard);
}
