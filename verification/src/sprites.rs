//! How the map's sprites enter the level: which ones the chosen skill
//! leaves out, and the shape each one takes (how it is aligned, whether
//! it blocks, what collider it gets, how much punishment it takes). The
//! positions, scales and meshes are the renderer's.
use vstd::prelude::*;
use crate::map::Sprite;
use crate::combat::{EnemyKind, SituationalSpawn};
use crate::interactivity::{InteractiveSwitch, SwitchType, KeycardPickup, PickupKind, WaterFountain, ToiletProp,
    ExplodingBarrel, CrackWall, BreakableGlass, NukeExitSwitch};

verus! {

/// The monsters, items and player starts whose lotag 1..=4 is a
/// difficulty rather than a logic tag.
pub open spec fn skill_tagged(picnum: i16) -> bool {
    picnum == 2000 || picnum == 1680 || picnum == 1820 || picnum == 2120 || picnum == 1960
        || picnum == 2370 || picnum == 2710 || picnum == 4610 || picnum == 21 || picnum == 22
        || picnum == 23 || picnum == 27 || picnum == 28 || picnum == 29 || picnum == 33
        || picnum == 37 || picnum == 40 || picnum == 44 || picnum == 51 || picnum == 52
        || picnum == 53 || picnum == 54 || picnum == 55 || picnum == 56 || picnum == 57
        || picnum == 60 || picnum == 61 || picnum == 1405
}

/// Whether the sprite is left out at skill `skill_level` (0 = Piece of
/// Cake): a difficulty-tagged sprite with lotag `n` appears from skill
/// `n - 1` up.
pub open spec fn left_out_at_skill(s: Sprite, skill_level: u8) -> bool {
    0 < s.lotag <= 4 && s.lotag > skill_level + 1 && skill_tagged(s.picnum)
}

pub fn is_left_out_at_skill(s: &Sprite, skill_level: u8) -> (r: bool)
    ensures
        r == left_out_at_skill(*s, skill_level),
{
    if s.lotag > 0 && s.lotag <= 4 && (s.lotag as i32) > (skill_level as i32) + 1 {
        matches!(s.picnum,
            2000 | 1680 | 1820 | 2120 | 1960 | 2370 | 2710 | 4610 | 21 | 22 | 23 | 27
            | 28 | 29 | 33 | 37 | 40 | 44 | 51 | 52 | 53 | 54 | 55 | 56 | 57 | 60 | 61 | 1405)
    } else {
        false
    }
}

/// The collider a blocking sprite gets.
#[derive(Debug, Clone, Copy, PartialEq, Eq, Structural)]
pub enum SpriteCollider {
    /// A narrow upright cylinder, for sprites facing the camera.
    Cylinder,
    /// A thin upright slab, for wall-aligned sprites.
    WallSlab,
    /// A flat slab, for floor-aligned sprites.
    FloorSlab,
}

/// The shape a sprite takes in the level.
#[derive(Debug, Clone, Copy, PartialEq, Eq, Structural)]
pub struct SpriteShape {
    pub wall_aligned: bool,
    pub floor_aligned: bool,
    /// Centred on its position rather than standing on it.
    pub centered: bool,
    /// Turns to face the camera.
    pub billboard: bool,
    pub collider: Option<SpriteCollider>,
    /// What it takes to shoot it apart.
    pub health: i32,
    /// The scale's divisor: a wall- or floor-aligned sprite is twice as
    /// large per repeat unit.
    pub scale_divisor: u32,
}

/// The shape of a sprite, from its `cstat` bits (1 blocking, 16 wall
/// aligned, 32 floor aligned, 128 centred); the pig cop (tile 2000) is a
/// sturdier target and always blocks.
pub open spec fn sprite_shape(s: Sprite) -> SpriteShape {
    let wall = (s.cstat & 16) != 0;
    let floor = (s.cstat & 32) != 0;
    let enemy = s.picnum == 2000;
    let blocks = (s.cstat & 1) != 0 || enemy;
    SpriteShape {
        wall_aligned: wall,
        floor_aligned: floor,
        centered: (s.cstat & 128) != 0,
        billboard: !wall && !floor,
        collider: if !blocks { None }
            else if !wall && !floor { Some(SpriteCollider::Cylinder) }
            else if wall { Some(SpriteCollider::WallSlab) }
            else { Some(SpriteCollider::FloorSlab) },
        health: if enemy { 100 } else { 10 },
        scale_divisor: if wall || floor { 2048 } else { 4096 },
    }
}

pub fn shape_of_sprite(s: &Sprite) -> (r: SpriteShape)
    ensures
        r == sprite_shape(*s),
{
    let wall = (s.cstat & 16) != 0;
    let floor = (s.cstat & 32) != 0;
    let enemy = s.picnum == 2000;
    let blocks = (s.cstat & 1) != 0 || enemy;
    let collider = if !blocks {
        None
    } else if !wall && !floor {
        Some(SpriteCollider::Cylinder)
    } else if wall {
        Some(SpriteCollider::WallSlab)
    } else {
        Some(SpriteCollider::FloorSlab)
    };
    SpriteShape {
        wall_aligned: wall,
        floor_aligned: floor,
        centered: (s.cstat & 128) != 0,
        billboard: !wall && !floor,
        collider,
        health: if enemy { 100 } else { 10 },
        scale_divisor: if wall || floor { 2048 } else { 4096 },
    }
}

/// The tile numbers of the named tiles that the level builder recognises
/// among the map's sprites, as the game's tile name table gives them.
#[derive(Debug, Clone, Copy, PartialEq, Eq, Structural)]
pub struct TileNames {
    pub lightswitch: i16,
    pub spacedoorswitch: i16,
    pub dipswitch: i16,
    pub lightswitch2: i16,
    pub powerswitch1: i16,
    pub handswitch: i16,
    pub pullswitch: i16,
    pub accesscard: i16,
    pub cola: i16,
    pub sixpak: i16,
    pub atomichealth: i16,
    pub shield: i16,
    pub ammo: i16,
    pub rpgammo: i16,
    pub hbombammo: i16,
    pub ammolots: i16,
    pub shotgunammo: i16,
    pub devistatorammo: i16,
    pub growammo: i16,
    pub crystalammo: i16,
    pub freezeammo: i16,
    pub steroids: i16,
    pub airtank: i16,
    pub jetpack: i16,
    pub heatsensor: i16,
    pub boots: i16,
    pub holoduke: i16,
    pub firstgunsprite: i16,
    pub chaingunsprite: i16,
    pub rpgsprite: i16,
    pub freezesprite: i16,
    pub shrinkersprite: i16,
    pub heavyhbomb: i16,
    pub tripbombsprite: i16,
    pub shotgunsprite: i16,
    pub firstaid: i16,
    pub devistatorsprite: i16,
    pub growspriteicon: i16,
    pub waterfountain: i16,
    pub toilet: i16,
    pub stall: i16,
    pub viewscreen2: i16,
    pub viewscreen: i16,
    pub camera1: i16,
    pub explodingbarrel: i16,
    pub explodingbarrel2: i16,
    pub firebarrel: i16,
    pub crack1: i16,
    pub crack4: i16,
    pub glass: i16,
    pub glass2: i16,
    pub liztroop: i16,
    pub liztroopducking: i16,
    pub pigcop: i16,
    pub pigcopstayput: i16,
    pub pigcopdive: i16,
    pub recon: i16,
    pub tank: i16,
    pub octabrain: i16,
    pub octabrainstayput: i16,
    pub egg: i16,
    pub greenslime: i16,
    pub lizman: i16,
    pub lizmanjump: i16,
    pub commander: i16,
    pub commanderstayput: i16,
    pub drone: i16,
    pub shark: i16,
    pub newbeast: i16,
    pub newbeaststayput: i16,
    pub newbeasthang: i16,
    pub newbeastjump: i16,
    pub rotategun: i16,
    pub rat: i16,
    pub ooz: i16,
    pub ooz2: i16,
    pub boss1: i16,
    pub boss1stayput: i16,
    pub boss2: i16,
    pub boss3: i16,
    pub boss4: i16,
    pub boss4stayput: i16,
    pub nukebutton: i16,
    pub waterfountainbroke: i16,
    pub toiletbroke: i16,
    pub stallbroke: i16,
    pub toiletwater: i16,
    pub viewscreenbroke: i16,
    pub liztroopstayput: i16,
    pub liztrooponetoilet: i16,
    pub liztroopjustsit: i16,
    pub liztroopjetpack: i16,
    pub lizmanstayput: i16,
}

/// An enemy a sprite spawns: its kind, the script actor (tile and health)
/// that drives it, whether it waits dormant for the player (and the tile
/// it was placed as), and whether it flies.
#[derive(Debug, Clone, Copy, PartialEq, Eq, Structural)]
pub struct EnemySpawn {
    pub kind: EnemyKind,
    pub actor_tile: i16,
    pub actor_health: i32,
    pub spawn: Option<SituationalSpawn>,
    pub flying: bool,
}

/// What a sprite becomes in the level.
#[derive(Debug, Clone, Copy, PartialEq, Eq, Structural)]
pub enum SpriteRole {
    Switch(InteractiveSwitch),
    Keycard(KeycardPickup),
    Pickup(PickupKind),
    Fountain(WaterFountain),
    Toilet(ToiletProp),
    /// A monitor showing the camera tagged `camera_tag`.
    Viewscreen { camera_tag: i16, broken_tile: i16 },
    /// A security camera with tag `tag` (its sweep is the renderer's).
    SecurityCamera { tag: i16 },
    Barrel(ExplodingBarrel),
    Crack(CrackWall),
    Glass(BreakableGlass),
    Enemy(EnemySpawn),
    /// A small critter driven by a script actor.
    Critter { actor_tile: i16, actor_health: i32 },
    /// A pool of toxic slime that hurts whoever stands in it.
    SlimeHazard,
    NukeButton(NukeExitSwitch),
    /// Anything else: only drawn.
    Scenery,
}

/// The sprite's tile is one of the switches (whose pressed tile is the
/// next one).
pub open spec fn is_switch_tile(p: i16, n: TileNames) -> bool {
    p == n.lightswitch || p == n.spacedoorswitch || p == n.dipswitch || p == n.lightswitch2 || p == n.powerswitch1 || p == n.handswitch || p == n.pullswitch
}

/// What the sprite becomes, by its tile: the first of these groups that
/// holds the tile decides (switches, keycards, health, ammo, inventory and
/// weapon pickups, fountains, toilets, monitors, cameras, barrels, cracks,
/// glass, the enemies and bosses, the nuke button); the palette picks the
/// captain and the mini battlelord.
pub open spec fn spec_sprite_role(s: Sprite, n: TileNames) -> SpriteRole {
    let p = s.picnum;
    if p == n.lightswitch || p == n.spacedoorswitch || p == n.dipswitch || p == n.lightswitch2 || p == n.powerswitch1 || p == n.handswitch || p == n.pullswitch {
        SpriteRole::Switch(InteractiveSwitch { switch_type: SwitchType::LightSwitch, on_tile: (p + 1) as i16, off_tile: p, is_on: false, lotag: s.lotag, hitag: s.hitag, sound_id: 10 })
    } else if p == n.accesscard || p == 175i16 {
        SpriteRole::Keycard(KeycardPickup { key_type: 1 })
    } else if p == 176i16 {
        SpriteRole::Keycard(KeycardPickup { key_type: 2 })
    } else if p == 177i16 {
        SpriteRole::Keycard(KeycardPickup { key_type: 3 })
    } else if p == n.cola {
        SpriteRole::Pickup(PickupKind::SmallMedkit)
    } else if p == n.sixpak {
        SpriteRole::Pickup(PickupKind::LargeMedkit)
    } else if p == n.atomichealth {
        SpriteRole::Pickup(PickupKind::AtomicHealth)
    } else if p == n.shield {
        SpriteRole::Pickup(PickupKind::ArmorVest)
    } else if p == n.ammo {
        SpriteRole::Pickup(PickupKind::PistolClip)
    } else if p == n.rpgammo {
        SpriteRole::Pickup(PickupKind::ChaingunBox)
    } else if p == n.hbombammo {
        SpriteRole::Pickup(PickupKind::RpgRocket)
    } else if p == n.ammolots {
        SpriteRole::Pickup(PickupKind::PipebombBox)
    } else if p == n.shotgunammo {
        SpriteRole::Pickup(PickupKind::ShotgunBox)
    } else if p == n.devistatorammo {
        SpriteRole::Pickup(PickupKind::ShrinkerAmmo)
    } else if p == n.growammo {
        SpriteRole::Pickup(PickupKind::DevastatorBox)
    } else if p == n.crystalammo || p == n.freezeammo {
        SpriteRole::Pickup(PickupKind::FreezeAmmo)
    } else if p == n.steroids {
        SpriteRole::Pickup(PickupKind::Steroids)
    } else if p == n.airtank {
        SpriteRole::Pickup(PickupKind::ScubaTank)
    } else if p == n.jetpack {
        SpriteRole::Pickup(PickupKind::Jetpack)
    } else if p == n.heatsensor || p == 58i16 {
        SpriteRole::Pickup(PickupKind::NightvisionGoggles)
    } else if p == n.boots {
        SpriteRole::Pickup(PickupKind::ProtectiveBoots)
    } else if p == n.holoduke || p == 62i16 {
        SpriteRole::Pickup(PickupKind::Holoduke)
    } else if p == n.firstgunsprite {
        SpriteRole::Pickup(PickupKind::WeaponPistol)
    } else if p == n.chaingunsprite {
        SpriteRole::Pickup(PickupKind::WeaponChaingun)
    } else if p == n.rpgsprite {
        SpriteRole::Pickup(PickupKind::WeaponRpg)
    } else if p == n.freezesprite {
        SpriteRole::Pickup(PickupKind::WeaponFreezer)
    } else if p == n.shrinkersprite {
        SpriteRole::Pickup(PickupKind::WeaponShrinker)
    } else if p == n.heavyhbomb {
        SpriteRole::Pickup(PickupKind::WeaponPipebomb)
    } else if p == n.tripbombsprite {
        SpriteRole::Pickup(PickupKind::WeaponTripbomb)
    } else if p == n.shotgunsprite {
        SpriteRole::Pickup(PickupKind::WeaponShotgun)
    } else if p == n.firstaid {
        SpriteRole::Pickup(PickupKind::PortableMedkit)
    } else if p == n.devistatorsprite {
        SpriteRole::Pickup(PickupKind::WeaponDevastator)
    } else if p == n.growspriteicon {
        SpriteRole::Pickup(PickupKind::WeaponExpander)
    } else if p == n.waterfountain || p == 564i16 || p == 565i16 {
        SpriteRole::Fountain(WaterFountain { uses_left: 10, is_broken: false, broken_tile: n.waterfountainbroke })
    } else if p == n.toilet || p == n.stall {
        SpriteRole::Toilet(ToiletProp { is_broken: false, broken_tile: if p == n.toilet { n.toiletbroke } else { n.stallbroke }, water_tile: n.toiletwater, last_used_ms: 0, cooldown_ms: 0 })
    } else if p == n.viewscreen2 || p == n.viewscreen {
        SpriteRole::Viewscreen { camera_tag: s.hitag, broken_tile: n.viewscreenbroke }
    } else if p == n.camera1 || p == 500i16 {
        SpriteRole::SecurityCamera { tag: s.hitag }
    } else if p == n.explodingbarrel || p == n.explodingbarrel2 || p == n.firebarrel {
        SpriteRole::Barrel(ExplodingBarrel { health: 20, damage: 100, is_exploded: false })
    } else if (n.crack1 <= p && p <= n.crack4) {
        SpriteRole::Crack(CrackWall { health: 30, stage: 1, lotag: s.lotag, is_blown: false })
    } else if p == n.glass || p == n.glass2 {
        SpriteRole::Glass(BreakableGlass { health: 10, is_broken: false, wall_idx: None, sector_idx: Some(s.sectnum as usize) })
    } else if (n.liztroop <= p && p <= n.liztroopducking) {
        SpriteRole::Enemy(EnemySpawn { kind: if s.pal == 21 { EnemyKind::AssaultCaptain } else { EnemyKind::Liztroop }, actor_tile: n.liztroop, actor_health: if s.pal == 21 { 60 } else { 30 }, spawn: Some(SituationalSpawn { initial_picnum: p, is_dormant: p == n.liztroopstayput || p == n.liztrooponetoilet || p == n.liztroopjustsit || p == n.liztroopducking }), flying: p == n.liztroopjetpack })
    } else if p == n.pigcop || p == n.pigcopstayput || p == n.pigcopdive {
        SpriteRole::Enemy(EnemySpawn { kind: EnemyKind::Pigcop, actor_tile: n.pigcop, actor_health: 100, spawn: Some(SituationalSpawn { initial_picnum: p, is_dormant: p == n.pigcopstayput }), flying: false })
    } else if p == n.recon {
        SpriteRole::Enemy(EnemySpawn { kind: EnemyKind::ReconCar, actor_tile: n.recon, actor_health: 50, spawn: None, flying: true })
    } else if p == n.tank {
        SpriteRole::Enemy(EnemySpawn { kind: EnemyKind::RiotTank, actor_tile: n.tank, actor_health: 500, spawn: None, flying: false })
    } else if p == n.octabrain || p == n.octabrainstayput {
        SpriteRole::Enemy(EnemySpawn { kind: EnemyKind::Octabrain, actor_tile: n.octabrain, actor_health: 175, spawn: Some(SituationalSpawn { initial_picnum: p, is_dormant: p == n.octabrainstayput }), flying: true })
    } else if p == n.egg {
        SpriteRole::Enemy(EnemySpawn { kind: EnemyKind::ProtozoidEgg, actor_tile: n.egg, actor_health: 20, spawn: Some(SituationalSpawn { initial_picnum: n.egg, is_dormant: true }), flying: false })
    } else if p == n.greenslime {
        SpriteRole::Enemy(EnemySpawn { kind: EnemyKind::ProtozoidSlimer, actor_tile: n.greenslime, actor_health: 1, spawn: None, flying: false })
    } else if (n.lizman <= p && p <= n.lizmanjump) {
        SpriteRole::Enemy(EnemySpawn { kind: EnemyKind::Enforcer, actor_tile: n.lizman, actor_health: 120, spawn: Some(SituationalSpawn { initial_picnum: p, is_dormant: p == n.lizmanstayput }), flying: false })
    } else if p == n.commander || p == n.commanderstayput {
        SpriteRole::Enemy(EnemySpawn { kind: EnemyKind::AssaultCommander, actor_tile: n.commander, actor_health: 350, spawn: Some(SituationalSpawn { initial_picnum: p, is_dormant: p == n.commanderstayput }), flying: true })
    } else if p == n.drone {
        SpriteRole::Enemy(EnemySpawn { kind: EnemyKind::SentryDrone, actor_tile: n.drone, actor_health: 150, spawn: None, flying: true })
    } else if p == n.shark {
        SpriteRole::Enemy(EnemySpawn { kind: EnemyKind::Shark, actor_tile: n.shark, actor_health: 35, spawn: None, flying: true })
    } else if p == n.newbeast || p == n.newbeaststayput || p == n.newbeasthang || p == n.newbeastjump {
        SpriteRole::Enemy(EnemySpawn { kind: EnemyKind::ProtectorDrone, actor_tile: n.newbeast, actor_health: 300, spawn: Some(SituationalSpawn { initial_picnum: p, is_dormant: p == n.newbeasthang || p == n.newbeaststayput }), flying: false })
    } else if p == n.rotategun {
        SpriteRole::Enemy(EnemySpawn { kind: EnemyKind::Turret, actor_tile: n.rotategun, actor_health: 40, spawn: None, flying: false })
    } else if p == n.rat {
        SpriteRole::Critter { actor_tile: n.rat, actor_health: 5 }
    } else if p == n.ooz || p == n.ooz2 {
        SpriteRole::SlimeHazard
    } else if p == n.boss1 || p == n.boss1stayput {
        SpriteRole::Enemy(EnemySpawn { kind: if s.pal == 21 { EnemyKind::Boss1Mini } else { EnemyKind::Boss1Battlelord }, actor_tile: n.boss1, actor_health: if s.pal == 21 { 1000 } else { 4500 }, spawn: Some(SituationalSpawn { initial_picnum: p, is_dormant: p == n.boss1stayput }), flying: false })
    } else if p == n.boss2 {
        SpriteRole::Enemy(EnemySpawn { kind: EnemyKind::Boss2Overlord, actor_tile: n.boss2, actor_health: 4500, spawn: None, flying: false })
    } else if p == n.boss3 {
        SpriteRole::Enemy(EnemySpawn { kind: EnemyKind::Boss3Cycloid, actor_tile: n.boss3, actor_health: 4500, spawn: None, flying: false })
    } else if p == n.boss4 || p == n.boss4stayput {
        SpriteRole::Enemy(EnemySpawn { kind: EnemyKind::Boss4Queen, actor_tile: n.boss4, actor_health: 6000, spawn: None, flying: false })
    } else if (n.nukebutton <= p && p <= 145i16) {
        SpriteRole::NukeButton(NukeExitSwitch { is_activated: false, is_secret: s.lotag != 0, lotag: s.lotag, hitag: s.hitag })
    } else {
        SpriteRole::Scenery
    }
}

/// What the sprite becomes in the level.
pub fn sprite_role(s: &Sprite, n: &TileNames) -> (r: SpriteRole)
    requires
        is_switch_tile(s.picnum, *n) ==> s.picnum < i16::MAX,
    ensures
        r == spec_sprite_role(*s, *n),
{
    let p = s.picnum;
    if p == n.lightswitch || p == n.spacedoorswitch || p == n.dipswitch || p == n.lightswitch2 || p == n.powerswitch1 || p == n.handswitch || p == n.pullswitch {
        SpriteRole::Switch(InteractiveSwitch { switch_type: SwitchType::LightSwitch, on_tile: p + 1, off_tile: p, is_on: false, lotag: s.lotag, hitag: s.hitag, sound_id: 10 })
    } else if p == n.accesscard || p == 175i16 {
        SpriteRole::Keycard(KeycardPickup { key_type: 1 })
    } else if p == 176i16 {
        SpriteRole::Keycard(KeycardPickup { key_type: 2 })
    } else if p == 177i16 {
        SpriteRole::Keycard(KeycardPickup { key_type: 3 })
    } else if p == n.cola {
        SpriteRole::Pickup(PickupKind::SmallMedkit)
    } else if p == n.sixpak {
        SpriteRole::Pickup(PickupKind::LargeMedkit)
    } else if p == n.atomichealth {
        SpriteRole::Pickup(PickupKind::AtomicHealth)
    } else if p == n.shield {
        SpriteRole::Pickup(PickupKind::ArmorVest)
    } else if p == n.ammo {
        SpriteRole::Pickup(PickupKind::PistolClip)
    } else if p == n.rpgammo {
        SpriteRole::Pickup(PickupKind::ChaingunBox)
    } else if p == n.hbombammo {
        SpriteRole::Pickup(PickupKind::RpgRocket)
    } else if p == n.ammolots {
        SpriteRole::Pickup(PickupKind::PipebombBox)
    } else if p == n.shotgunammo {
        SpriteRole::Pickup(PickupKind::ShotgunBox)
    } else if p == n.devistatorammo {
        SpriteRole::Pickup(PickupKind::ShrinkerAmmo)
    } else if p == n.growammo {
        SpriteRole::Pickup(PickupKind::DevastatorBox)
    } else if p == n.crystalammo || p == n.freezeammo {
        SpriteRole::Pickup(PickupKind::FreezeAmmo)
    } else if p == n.steroids {
        SpriteRole::Pickup(PickupKind::Steroids)
    } else if p == n.airtank {
        SpriteRole::Pickup(PickupKind::ScubaTank)
    } else if p == n.jetpack {
        SpriteRole::Pickup(PickupKind::Jetpack)
    } else if p == n.heatsensor || p == 58i16 {
        SpriteRole::Pickup(PickupKind::NightvisionGoggles)
    } else if p == n.boots {
        SpriteRole::Pickup(PickupKind::ProtectiveBoots)
    } else if p == n.holoduke || p == 62i16 {
        SpriteRole::Pickup(PickupKind::Holoduke)
    } else if p == n.firstgunsprite {
        SpriteRole::Pickup(PickupKind::WeaponPistol)
    } else if p == n.chaingunsprite {
        SpriteRole::Pickup(PickupKind::WeaponChaingun)
    } else if p == n.rpgsprite {
        SpriteRole::Pickup(PickupKind::WeaponRpg)
    } else if p == n.freezesprite {
        SpriteRole::Pickup(PickupKind::WeaponFreezer)
    } else if p == n.shrinkersprite {
        SpriteRole::Pickup(PickupKind::WeaponShrinker)
    } else if p == n.heavyhbomb {
        SpriteRole::Pickup(PickupKind::WeaponPipebomb)
    } else if p == n.tripbombsprite {
        SpriteRole::Pickup(PickupKind::WeaponTripbomb)
    } else if p == n.shotgunsprite {
        SpriteRole::Pickup(PickupKind::WeaponShotgun)
    } else if p == n.firstaid {
        SpriteRole::Pickup(PickupKind::PortableMedkit)
    } else if p == n.devistatorsprite {
        SpriteRole::Pickup(PickupKind::WeaponDevastator)
    } else if p == n.growspriteicon {
        SpriteRole::Pickup(PickupKind::WeaponExpander)
    } else if p == n.waterfountain || p == 564i16 || p == 565i16 {
        SpriteRole::Fountain(WaterFountain { uses_left: 10, is_broken: false, broken_tile: n.waterfountainbroke })
    } else if p == n.toilet || p == n.stall {
        SpriteRole::Toilet(ToiletProp { is_broken: false, broken_tile: if p == n.toilet { n.toiletbroke } else { n.stallbroke }, water_tile: n.toiletwater, last_used_ms: 0, cooldown_ms: 0 })
    } else if p == n.viewscreen2 || p == n.viewscreen {
        SpriteRole::Viewscreen { camera_tag: s.hitag, broken_tile: n.viewscreenbroke }
    } else if p == n.camera1 || p == 500i16 {
        SpriteRole::SecurityCamera { tag: s.hitag }
    } else if p == n.explodingbarrel || p == n.explodingbarrel2 || p == n.firebarrel {
        SpriteRole::Barrel(ExplodingBarrel { health: 20, damage: 100, is_exploded: false })
    } else if (n.crack1 <= p && p <= n.crack4) {
        SpriteRole::Crack(CrackWall { health: 30, stage: 1, lotag: s.lotag, is_blown: false })
    } else if p == n.glass || p == n.glass2 {
        SpriteRole::Glass(BreakableGlass { health: 10, is_broken: false, wall_idx: None, sector_idx: Some(s.sectnum as usize) })
    } else if (n.liztroop <= p && p <= n.liztroopducking) {
        SpriteRole::Enemy(EnemySpawn { kind: if s.pal == 21 { EnemyKind::AssaultCaptain } else { EnemyKind::Liztroop }, actor_tile: n.liztroop, actor_health: if s.pal == 21 { 60 } else { 30 }, spawn: Some(SituationalSpawn { initial_picnum: p, is_dormant: p == n.liztroopstayput || p == n.liztrooponetoilet || p == n.liztroopjustsit || p == n.liztroopducking }), flying: p == n.liztroopjetpack })
    } else if p == n.pigcop || p == n.pigcopstayput || p == n.pigcopdive {
        SpriteRole::Enemy(EnemySpawn { kind: EnemyKind::Pigcop, actor_tile: n.pigcop, actor_health: 100, spawn: Some(SituationalSpawn { initial_picnum: p, is_dormant: p == n.pigcopstayput }), flying: false })
    } else if p == n.recon {
        SpriteRole::Enemy(EnemySpawn { kind: EnemyKind::ReconCar, actor_tile: n.recon, actor_health: 50, spawn: None, flying: true })
    } else if p == n.tank {
        SpriteRole::Enemy(EnemySpawn { kind: EnemyKind::RiotTank, actor_tile: n.tank, actor_health: 500, spawn: None, flying: false })
    } else if p == n.octabrain || p == n.octabrainstayput {
        SpriteRole::Enemy(EnemySpawn { kind: EnemyKind::Octabrain, actor_tile: n.octabrain, actor_health: 175, spawn: Some(SituationalSpawn { initial_picnum: p, is_dormant: p == n.octabrainstayput }), flying: true })
    } else if p == n.egg {
        SpriteRole::Enemy(EnemySpawn { kind: EnemyKind::ProtozoidEgg, actor_tile: n.egg, actor_health: 20, spawn: Some(SituationalSpawn { initial_picnum: n.egg, is_dormant: true }), flying: false })
    } else if p == n.greenslime {
        SpriteRole::Enemy(EnemySpawn { kind: EnemyKind::ProtozoidSlimer, actor_tile: n.greenslime, actor_health: 1, spawn: None, flying: false })
    } else if (n.lizman <= p && p <= n.lizmanjump) {
        SpriteRole::Enemy(EnemySpawn { kind: EnemyKind::Enforcer, actor_tile: n.lizman, actor_health: 120, spawn: Some(SituationalSpawn { initial_picnum: p, is_dormant: p == n.lizmanstayput }), flying: false })
    } else if p == n.commander || p == n.commanderstayput {
        SpriteRole::Enemy(EnemySpawn { kind: EnemyKind::AssaultCommander, actor_tile: n.commander, actor_health: 350, spawn: Some(SituationalSpawn { initial_picnum: p, is_dormant: p == n.commanderstayput }), flying: true })
    } else if p == n.drone {
        SpriteRole::Enemy(EnemySpawn { kind: EnemyKind::SentryDrone, actor_tile: n.drone, actor_health: 150, spawn: None, flying: true })
    } else if p == n.shark {
        SpriteRole::Enemy(EnemySpawn { kind: EnemyKind::Shark, actor_tile: n.shark, actor_health: 35, spawn: None, flying: true })
    } else if p == n.newbeast || p == n.newbeaststayput || p == n.newbeasthang || p == n.newbeastjump {
        SpriteRole::Enemy(EnemySpawn { kind: EnemyKind::ProtectorDrone, actor_tile: n.newbeast, actor_health: 300, spawn: Some(SituationalSpawn { initial_picnum: p, is_dormant: p == n.newbeasthang || p == n.newbeaststayput }), flying: false })
    } else if p == n.rotategun {
        SpriteRole::Enemy(EnemySpawn { kind: EnemyKind::Turret, actor_tile: n.rotategun, actor_health: 40, spawn: None, flying: false })
    } else if p == n.rat {
        SpriteRole::Critter { actor_tile: n.rat, actor_health: 5 }
    } else if p == n.ooz || p == n.ooz2 {
        SpriteRole::SlimeHazard
    } else if p == n.boss1 || p == n.boss1stayput {
        SpriteRole::Enemy(EnemySpawn { kind: if s.pal == 21 { EnemyKind::Boss1Mini } else { EnemyKind::Boss1Battlelord }, actor_tile: n.boss1, actor_health: if s.pal == 21 { 1000 } else { 4500 }, spawn: Some(SituationalSpawn { initial_picnum: p, is_dormant: p == n.boss1stayput }), flying: false })
    } else if p == n.boss2 {
        SpriteRole::Enemy(EnemySpawn { kind: EnemyKind::Boss2Overlord, actor_tile: n.boss2, actor_health: 4500, spawn: None, flying: false })
    } else if p == n.boss3 {
        SpriteRole::Enemy(EnemySpawn { kind: EnemyKind::Boss3Cycloid, actor_tile: n.boss3, actor_health: 4500, spawn: None, flying: false })
    } else if p == n.boss4 || p == n.boss4stayput {
        SpriteRole::Enemy(EnemySpawn { kind: EnemyKind::Boss4Queen, actor_tile: n.boss4, actor_health: 6000, spawn: None, flying: false })
    } else if (n.nukebutton <= p && p <= 145i16) {
        SpriteRole::NukeButton(NukeExitSwitch { is_activated: false, is_secret: s.lotag != 0, lotag: s.lotag, hitag: s.hitag })
    } else {
        SpriteRole::Scenery
    }
}

/// A harder skill never leaves out a sprite that an easier one keeps.
pub proof fn lemma_skill_monotone(s: Sprite, easy: u8, hard: u8)
    requires
        easy <= hard,
    ensures
        left_out_at_skill(s, hard) ==> left_out_at_skill(s, easy),
{
}

} // verus!
