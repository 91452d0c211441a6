//! The player's counters: health, armour, keycards, the twelve weapon slots
//! and the inventory. Timers, speeds and angles are frame-time state and
//! are kept by the engine beside this record.
pub mod arsenal;
pub mod items;

use vstd::prelude::*;

verus! {

/// The weapon slots, in slot order.
#[derive(Debug, Clone, Copy, PartialEq, Eq, Structural)]
pub enum WeaponType {
    Knee,
    Pistol,
    Shotgun,
    Chaingun,
    Rpg,
    Pipebomb,
    Shrinker,
    Devastator,
    Tripbomb,
    Freezethrower,
    HandRemote,
    Expander,
}

impl WeaponType {
    /// The weapon's slot in `PlayerController::weapons`.
    pub open spec fn spec_slot(self) -> int {
        match self {
            WeaponType::Knee => 0,
            WeaponType::Pistol => 1,
            WeaponType::Shotgun => 2,
            WeaponType::Chaingun => 3,
            WeaponType::Rpg => 4,
            WeaponType::Pipebomb => 5,
            WeaponType::Shrinker => 6,
            WeaponType::Devastator => 7,
            WeaponType::Tripbomb => 8,
            WeaponType::Freezethrower => 9,
            WeaponType::HandRemote => 10,
            WeaponType::Expander => 11,
        }
    }

    pub fn slot(self) -> (i: usize)
        ensures
            i == self.spec_slot(),
            i < 12,
    {
        match self {
            WeaponType::Knee => 0,
            WeaponType::Pistol => 1,
            WeaponType::Shotgun => 2,
            WeaponType::Chaingun => 3,
            WeaponType::Rpg => 4,
            WeaponType::Pipebomb => 5,
            WeaponType::Shrinker => 6,
            WeaponType::Devastator => 7,
            WeaponType::Tripbomb => 8,
            WeaponType::Freezethrower => 9,
            WeaponType::HandRemote => 10,
            WeaponType::Expander => 11,
        }
    }
}

/// How the player is moving; swimming and diving count as under water.
#[derive(Debug, Clone, Copy, PartialEq, Eq, Structural)]
pub enum PlayerMovementMode {
    Standing,
    Crouching,
    Swimming,
    Diving,
    JetpackFlying,
}

/// A weapon slot: what it is, its ammunition and whether it is unlocked.
#[derive(Debug, Clone, Copy)]
pub struct WeaponData {
    pub weapon_type: WeaponType,
    pub name: &'static str,
    pub ammo: i32,
    pub max_ammo: i32,
    pub base_tile: i16,
    pub is_unlocked: bool,
}

/// The carried items: a charge count for each, and which are switched on.
#[derive(Debug, Clone, Copy, PartialEq, Eq, Structural)]
pub struct InventoryState {
    pub steroids_amount: i32,
    pub steroids_active: bool,
    pub medkit_amount: i32,
    pub nightvision_amount: i32,
    pub nightvision_active: bool,
    pub scuba_amount: i32,
    pub boots_amount: i32,
    pub holoduke_amount: i32,
    pub holoduke_active: bool,
    pub jetpack_amount: i32,
    pub jetpack_active: bool,
}

#[derive(Debug, Clone, Copy)]
pub struct PlayerController {
    pub health: i32,
    pub max_health: i32,
    pub armor: i32,
    pub max_armor: i32,
    pub movement_mode: PlayerMovementMode,
    pub current_weapon: WeaponType,
    pub weapons: [WeaponData; 12],
    pub inventory: InventoryState,
    pub pistol_mag: i32,
    pub devastator_alt_side: bool,
    pub has_blue_key: bool,
    pub has_red_key: bool,
    pub has_yellow_key: bool,
    pub god_mode: bool,
    pub no_clip: bool,
}

/// The weapon in slot `i`.
pub open spec fn weapon_at(i: int) -> WeaponType {
    if i == 0 { WeaponType::Knee }
    else if i == 1 { WeaponType::Pistol }
    else if i == 2 { WeaponType::Shotgun }
    else if i == 3 { WeaponType::Chaingun }
    else if i == 4 { WeaponType::Rpg }
    else if i == 5 { WeaponType::Pipebomb }
    else if i == 6 { WeaponType::Shrinker }
    else if i == 7 { WeaponType::Devastator }
    else if i == 8 { WeaponType::Tripbomb }
    else if i == 9 { WeaponType::Freezethrower }
    else if i == 10 { WeaponType::HandRemote }
    else { WeaponType::Expander }
}

/// Starting ammunition, capacity and lock state of slot `i`.
pub open spec fn starting_ammo(i: int) -> (int, int, bool) {
    if i == 0 { (0, 0, true) }
    else if i == 1 { (48, 200, true) }
    else if i == 2 { (20, 50, true) }
    else if i == 3 { (50, 200, false) }
    else if i == 4 { (5, 50, false) }
    else if i == 5 { (5, 50, false) }
    else if i == 6 { (10, 50, false) }
    else if i == 7 { (20, 99, false) }
    else if i == 8 { (3, 10, false) }
    else if i == 9 { (25, 99, false) }
    else if i == 10 { (0, 0, true) }
    else { (20, 99, false) }
}

fn weapon(weapon_type: WeaponType, name: &'static str, ammo: i32, max_ammo: i32, base_tile: i16, is_unlocked: bool) -> (w: WeaponData)
    ensures
        w.weapon_type == weapon_type && w.name == name && w.ammo == ammo && w.max_ammo == max_ammo,
        w.base_tile == base_tile && w.is_unlocked == is_unlocked,
{
    WeaponData { weapon_type, name, ammo, max_ammo, base_tile, is_unlocked }
}

impl PlayerController {
    /// Every slot holds its own weapon.
    pub open spec fn slots_ok(self) -> bool {
        forall|i: int| 0 <= i < 12 ==> (#[trigger] self.weapons@[i]).weapon_type == weapon_at(i)
    }

    pub open spec fn slot(self, w: WeaponType) -> WeaponData {
        self.weapons@[w.spec_slot()]
    }

    /// A fresh player: full health, no armour, the boot, pistol (48 rounds,
    /// a full clip of 12), shotgun and detonator unlocked, pistol in hand.
    pub fn new() -> (p: Self)
        ensures
            p.health == 100 && p.max_health == 100 && p.armor == 0 && p.max_armor == 100,
            p.movement_mode == PlayerMovementMode::Standing,
            p.current_weapon == WeaponType::Pistol,
            p.slots_ok(),
            forall|i: int| 0 <= i < 12 ==> {
                let w = #[trigger] p.weapons@[i];
                &&& w.ammo == starting_ammo(i).0
                &&& w.max_ammo == starting_ammo(i).1
                &&& w.is_unlocked == starting_ammo(i).2
            },
            p.inventory == InventoryState::spec_default(),
            p.pistol_mag == 12,
            !p.devastator_alt_side,
            !p.has_blue_key && !p.has_red_key && !p.has_yellow_key,
            !p.god_mode && !p.no_clip,
    {
        let weapons = [
            weapon(WeaponType::Knee, "Mighty Boot", 0, 0, 2524, true),
            weapon(WeaponType::Pistol, "Pistol", 48, 200, 2524, true),
            weapon(WeaponType::Shotgun, "Shotgun", 20, 50, 2613, true),
            weapon(WeaponType::Chaingun, "Chaingun Cannon", 50, 200, 2548, false),
            weapon(WeaponType::Rpg, "RPG", 5, 50, 2562, false),
            weapon(WeaponType::Pipebomb, "Pipebomb", 5, 50, 2570, false),
            weapon(WeaponType::Shrinker, "Shrinker", 10, 50, 2580, false),
            weapon(WeaponType::Devastator, "Devastator", 20, 99, 2590, false),
            weapon(WeaponType::Tripbomb, "Laser Tripbomb", 3, 10, 2600, false),
            weapon(WeaponType::Freezethrower, "Freezethrower", 25, 99, 2610, false),
            weapon(WeaponType::HandRemote, "Pipebomb Detonator", 0, 0, 2575, true),
            weapon(WeaponType::Expander, "Expander", 20, 99, 2585, false),
        ];
        PlayerController {
            health: 100,
            max_health: 100,
            armor: 0,
            max_armor: 100,
            movement_mode: PlayerMovementMode::Standing,
            current_weapon: WeaponType::Pistol,
            weapons,
            inventory: InventoryState::new(),
            pistol_mag: 12,
            devastator_alt_side: false,
            has_blue_key: false,
            has_red_key: false,
            has_yellow_key: false,
            god_mode: false,
            no_clip: false,
        }
    }

    /// Swimming or diving.
    pub open spec fn spec_underwater(self) -> bool {
        self.movement_mode == PlayerMovementMode::Swimming || self.movement_mode == PlayerMovementMode::Diving
    }

    pub fn is_underwater(&self) -> (r: bool)
        ensures
            r == self.spec_underwater(),
    {
        self.movement_mode == PlayerMovementMode::Swimming || self.movement_mode == PlayerMovementMode::Diving
    }
}

impl Default for PlayerController {
    fn default() -> (p: Self)
        ensures
            p.health == 100 && p.max_health == 100 && p.armor == 0 && p.max_armor == 100,
            p.current_weapon == WeaponType::Pistol,
            p.slots_ok(),
            p.inventory == InventoryState::spec_default(),
            p.pistol_mag == 12,
    {
        PlayerController::new()
    }
}

impl InventoryState {
    /// Nothing carried, nothing switched on.
    pub open spec fn spec_default() -> InventoryState {
        InventoryState {
            steroids_amount: 0,
            steroids_active: false,
            medkit_amount: 0,
            nightvision_amount: 0,
            nightvision_active: false,
            scuba_amount: 0,
            boots_amount: 0,
            holoduke_amount: 0,
            holoduke_active: false,
            jetpack_amount: 0,
            jetpack_active: false,
        }
    }

    pub fn new() -> (s: Self)
        ensures
            s == Self::spec_default(),
    {
        InventoryState {
            steroids_amount: 0,
            steroids_active: false,
            medkit_amount: 0,
            nightvision_amount: 0,
            nightvision_active: false,
            scuba_amount: 0,
            boots_amount: 0,
            holoduke_amount: 0,
            holoduke_active: false,
            jetpack_amount: 0,
            jetpack_active: false,
        }
    }
}

} // verus!
