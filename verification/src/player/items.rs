//! Picking things up and using the inventory.
use vstd::prelude::*;
use super::{PlayerController, WeaponData, WeaponType, InventoryState};

verus! {

/// The items that lie about in a level.
#[derive(Debug, Clone, Copy, PartialEq, Eq, Structural)]
pub enum PickupKind {
    SmallMedkit,
    LargeMedkit,
    PortableMedkit,
    AtomicHealth,
    ArmorVest,
    PistolClip,
    ShotgunBox,
    ChaingunBox,
    RpgRocket,
    PipebombBox,
    ShrinkerAmmo,
    DevastatorBox,
    FreezeAmmo,
    ExpanderAmmo,
    Steroids,
    ScubaTank,
    NightvisionGoggles,
    ProtectiveBoots,
    Jetpack,
    Holoduke,
    WeaponPistol,
    WeaponShotgun,
    WeaponChaingun,
    WeaponRpg,
    WeaponPipebomb,
    WeaponShrinker,
    WeaponDevastator,
    WeaponTripbomb,
    WeaponFreezer,
    WeaponExpander,
}

/// What a collected item announces: the status-bar text and, for atomic
/// health, a Duke quote.
#[derive(Debug, Clone, Copy)]
pub struct PickupNotice {
    pub message: &'static str,
    pub voice: Option<&'static str>,
}

/// Ammunition items: (weapon, rounds added, cap, unlocks the weapon, puts
/// it in hand).
pub open spec fn ammo_gain(kind: PickupKind) -> Option<(WeaponType, int, int, bool, bool)> {
    match kind {
        PickupKind::PistolClip => Some((WeaponType::Pistol, 12, 200, false, false)),
        PickupKind::ShotgunBox => Some((WeaponType::Shotgun, 10, 50, true, false)),
        PickupKind::ChaingunBox => Some((WeaponType::Chaingun, 50, 400, true, false)),
        PickupKind::RpgRocket => Some((WeaponType::Rpg, 5, 50, true, false)),
        PickupKind::PipebombBox => Some((WeaponType::Pipebomb, 5, 50, true, false)),
        PickupKind::ShrinkerAmmo => Some((WeaponType::Shrinker, 5, 50, true, false)),
        PickupKind::DevastatorBox => Some((WeaponType::Devastator, 15, 99, true, false)),
        PickupKind::FreezeAmmo => Some((WeaponType::Freezethrower, 25, 99, true, false)),
        PickupKind::ExpanderAmmo => Some((WeaponType::Expander, 20, 99, true, false)),
        PickupKind::WeaponPistol => Some((WeaponType::Pistol, 12, 200, false, false)),
        PickupKind::WeaponShotgun => Some((WeaponType::Shotgun, 10, 50, true, true)),
        PickupKind::WeaponChaingun => Some((WeaponType::Chaingun, 50, 400, true, true)),
        PickupKind::WeaponRpg => Some((WeaponType::Rpg, 5, 50, true, true)),
        PickupKind::WeaponPipebomb => Some((WeaponType::Pipebomb, 5, 50, true, true)),
        PickupKind::WeaponShrinker => Some((WeaponType::Shrinker, 5, 50, true, true)),
        PickupKind::WeaponDevastator => Some((WeaponType::Devastator, 15, 99, true, true)),
        PickupKind::WeaponTripbomb => Some((WeaponType::Tripbomb, 5, 10, true, true)),
        PickupKind::WeaponFreezer => Some((WeaponType::Freezethrower, 25, 99, true, true)),
        PickupKind::WeaponExpander => Some((WeaponType::Expander, 20, 99, true, true)),
        _ => None,
    }
}

/// `min(v + add, cap)`.
pub open spec fn capped(v: int, add: int, cap: int) -> int {
    if v + add < cap { v + add } else { cap }
}

/// The inventory charge that an item tops up, as (current charge).
pub open spec fn item_charge(inv: InventoryState, kind: PickupKind) -> Option<i32> {
    match kind {
        PickupKind::PortableMedkit => Some(inv.medkit_amount),
        PickupKind::Steroids => Some(inv.steroids_amount),
        PickupKind::ScubaTank => Some(inv.scuba_amount),
        PickupKind::NightvisionGoggles => Some(inv.nightvision_amount),
        PickupKind::ProtectiveBoots => Some(inv.boots_amount),
        PickupKind::Jetpack => Some(inv.jetpack_amount),
        PickupKind::Holoduke => Some(inv.holoduke_amount),
        _ => None,
    }
}

/// Charge added by an inventory item, which is also its cap.
pub open spec fn item_cap(kind: PickupKind) -> int {
    if kind == PickupKind::Steroids { 400 } else { 100 }
}

/// The inventory with the item's charge set to `v`.
pub open spec fn with_charge(inv: InventoryState, kind: PickupKind, v: i32) -> InventoryState {
    match kind {
        PickupKind::PortableMedkit => InventoryState { medkit_amount: v, ..inv },
        PickupKind::Steroids => InventoryState { steroids_amount: v, ..inv },
        PickupKind::ScubaTank => InventoryState { scuba_amount: v, ..inv },
        PickupKind::NightvisionGoggles => InventoryState { nightvision_amount: v, ..inv },
        PickupKind::ProtectiveBoots => InventoryState { boots_amount: v, ..inv },
        PickupKind::Jetpack => InventoryState { jetpack_amount: v, ..inv },
        _ => InventoryState { holoduke_amount: v, ..inv },
    }
}

/// The status-bar text of each item.
pub open spec fn pickup_message(kind: PickupKind) -> &'static str {
    match kind {
        PickupKind::SmallMedkit => "SMALL MEDKIT (+10 HEALTH)",
        PickupKind::LargeMedkit => "MEDKIT PACK (+30 HEALTH)",
        PickupKind::PortableMedkit => "PORTABLE MEDKIT",
        PickupKind::AtomicHealth => "ATOMIC HEALTH (+50 HEALTH)",
        PickupKind::ArmorVest => "BODY ARMOR",
        PickupKind::PistolClip => "PISTOL CLIP (+12)",
        PickupKind::ShotgunBox => "SHOTGUN SHELLS (+10)",
        PickupKind::ChaingunBox => "CHAINGUN AMMO BOX (+50)",
        PickupKind::RpgRocket => "RPG ROCKETS (+5)",
        PickupKind::PipebombBox => "PIPEBOMBS (+5)",
        PickupKind::ShrinkerAmmo => "SHRINKER CRYSTALS (+5)",
        PickupKind::DevastatorBox => "DEVASTATOR ROCKETS (+15)",
        PickupKind::FreezeAmmo => "FREEZETHROWER AMMO (+25)",
        PickupKind::ExpanderAmmo => "EXPANDER AMMO (+20)",
        PickupKind::Steroids => "STEROIDS",
        PickupKind::ScubaTank => "SCUBA GEAR",
        PickupKind::NightvisionGoggles => "NIGHTVISION GOGGLES",
        PickupKind::ProtectiveBoots => "PROTECTIVE BOOTS",
        PickupKind::Jetpack => "JETPACK",
        PickupKind::Holoduke => "HOLODUKE",
        PickupKind::WeaponPistol => "PISTOL",
        PickupKind::WeaponShotgun => "YOU GOT THE SHOTGUN!",
        PickupKind::WeaponChaingun => "YOU GOT THE CHAINGUN CANNON!",
        PickupKind::WeaponRpg => "YOU GOT THE RPG!",
        PickupKind::WeaponPipebomb => "YOU GOT PIPEBOMBS!",
        PickupKind::WeaponShrinker => "YOU GOT THE SHRINKER!",
        PickupKind::WeaponDevastator => "YOU GOT THE DEVASTATOR!",
        PickupKind::WeaponTripbomb => "YOU GOT LASER TRIPBOMBS!",
        PickupKind::WeaponFreezer => "YOU GOT THE FREEZETHROWER!",
        PickupKind::WeaponExpander => "YOU GOT THE EXPANDER!",
    }
}

/// Health items: (amount added, the health they heal up to).
pub open spec fn heal_gain(kind: PickupKind) -> Option<(int, int)> {
    match kind {
        PickupKind::SmallMedkit => Some((10, 100)),
        PickupKind::LargeMedkit => Some((30, 100)),
        PickupKind::AtomicHealth => Some((50, 200)),
        _ => None,
    }
}

/// Whether the item is taken: health items only below the health they heal
/// to, the vest only below full armour, everything else always.
pub open spec fn takes(p: PlayerController, kind: PickupKind) -> bool {
    if let Some((_, top)) = heal_gain(kind) {
        p.health < top
    } else if kind == PickupKind::ArmorVest {
        p.armor < 100
    } else {
        true
    }
}

/// Machine limit: the counter the item adds to does not overflow `i32`.
pub open spec fn pickup_fits(p: PlayerController, kind: PickupKind) -> bool {
    &&& (ammo_gain(kind) matches Some((w, add, _, _, _)) ==> p.slot(w).ammo + add <= i32::MAX)
    &&& (item_charge(p.inventory, kind) matches Some(c) ==> c + item_cap(kind) <= i32::MAX)
}

fn add_capped(v: i32, add: i32, cap: i32) -> (r: i32)
    requires
        add >= 0,
        v + add <= i32::MAX,
    ensures
        r == capped(v as int, add as int, cap as int),
{
    let s = v + add;
    if s < cap { s } else { cap }
}

impl PlayerController {
    /// Collects an item touched by the player. Health heals up to 100 (200
    /// for atomic health) and is refused at or above that; the vest sets
    /// armour to 100 and is refused at 100 or more; ammunition is added up
    /// to the weapon's carrying cap, unlocking the weapon (and, for a weapon
    /// lying on the floor, putting it in hand); inventory items top up their
    /// charge to the cap. Returns the notice when the item is taken.
    pub fn apply_pickup(&mut self, kind: PickupKind) -> (r: Option<PickupNotice>)
        requires
            pickup_fits(*old(self), kind),
        ensures
            ({
                let p = *old(self);
                let q = *final(self);
                &&& (r is Some <==> takes(p, kind))
                &&& (r matches Some(n) ==> n.message == pickup_message(kind)
                        && n.voice == (if kind == PickupKind::AtomicHealth { Some("GETSOM01.VOC") } else { None }))
                &&& !takes(p, kind) ==> q == p
                &&& takes(p, kind) ==> {
                    &&& (heal_gain(kind) matches Some((add, top)) ==> q == PlayerController { health: capped(p.health as int, add, top) as i32, ..p })
                    &&& (kind == PickupKind::ArmorVest ==> q == PlayerController { armor: 100, ..p })
                    &&& (ammo_gain(kind) matches Some((w, add, cap, unlock, switch)) ==> {
                        &&& q.weapons@ == p.weapons@.update(w.spec_slot(), WeaponData {
                                ammo: capped(p.slot(w).ammo as int, add, cap) as i32,
                                is_unlocked: p.slot(w).is_unlocked || unlock,
                                ..p.slot(w)
                            })
                        &&& q.current_weapon == (if switch { w } else { p.current_weapon })
                        &&& q == PlayerController { weapons: q.weapons, current_weapon: q.current_weapon, ..p }
                    })
                    &&& (item_charge(p.inventory, kind) matches Some(c) ==>
                        q == PlayerController { inventory: with_charge(p.inventory, kind, capped(c as int, item_cap(kind), item_cap(kind)) as i32), ..p })
                }
            }),
    {
        let msg: &'static str;
        match kind {
            PickupKind::SmallMedkit | PickupKind::LargeMedkit | PickupKind::AtomicHealth => {
                let (add, top, m): (i32, i32, &'static str) = match kind {
                    PickupKind::SmallMedkit => (10, 100, "SMALL MEDKIT (+10 HEALTH)"),
                    PickupKind::LargeMedkit => (30, 100, "MEDKIT PACK (+30 HEALTH)"),
                    _ => (50, 200, "ATOMIC HEALTH (+50 HEALTH)"),
                };
                if self.health >= top {
                    return None;
                }
                self.health = add_capped(self.health, add, top);
                if kind == PickupKind::AtomicHealth {
                    return Some(PickupNotice { message: m, voice: Some("GETSOM01.VOC") });
                }
                msg = m;
            },
            PickupKind::ArmorVest => {
                if self.armor >= 100 {
                    return None;
                }
                self.armor = 100;
                msg = "BODY ARMOR";
            },
            PickupKind::PortableMedkit => {
                self.inventory.medkit_amount = add_capped(self.inventory.medkit_amount, 100, 100);
                msg = "PORTABLE MEDKIT";
            },
            PickupKind::Steroids => {
                self.inventory.steroids_amount = add_capped(self.inventory.steroids_amount, 400, 400);
                msg = "STEROIDS";
            },
            PickupKind::ScubaTank => {
                self.inventory.scuba_amount = add_capped(self.inventory.scuba_amount, 100, 100);
                msg = "SCUBA GEAR";
            },
            PickupKind::NightvisionGoggles => {
                self.inventory.nightvision_amount = add_capped(self.inventory.nightvision_amount, 100, 100);
                msg = "NIGHTVISION GOGGLES";
            },
            PickupKind::ProtectiveBoots => {
                self.inventory.boots_amount = add_capped(self.inventory.boots_amount, 100, 100);
                msg = "PROTECTIVE BOOTS";
            },
            PickupKind::Jetpack => {
                self.inventory.jetpack_amount = add_capped(self.inventory.jetpack_amount, 100, 100);
                msg = "JETPACK";
            },
            PickupKind::Holoduke => {
                self.inventory.holoduke_amount = add_capped(self.inventory.holoduke_amount, 100, 100);
                msg = "HOLODUKE";
            },
            _ => {
                let (w, add, cap, unlock, switch, m) = ammo_gain_of(kind);
                let i = w.slot();
                let mut wd = self.weapons[i];
                wd.ammo = add_capped(wd.ammo, add, cap);
                if unlock {
                    wd.is_unlocked = true;
                }
                self.weapons[i] = wd;
                if switch {
                    self.current_weapon = w;
                }
                msg = m;
            },
        }
        Some(PickupNotice { message: msg, voice: None })
    }
}

/// `v - d`, staying at `i32::MIN`.
pub open spec fn sat_sub(v: i32, d: int) -> i32 {
    if v - d < i32::MIN { i32::MIN } else { (v - d) as i32 }
}

/// One tenth-of-a-second tick of the inventory: active steroids burn 2
/// charge, active night vision, jetpack and holoduke 1 each, switching off
/// when the charge reaches exactly zero; the scuba tank loses 1 under water.
pub open spec fn inventory_ticked(inv: InventoryState, underwater: bool) -> InventoryState {
    let st = if inv.steroids_active { sat_sub(inv.steroids_amount, 2) } else { inv.steroids_amount };
    let nv = if inv.nightvision_active { sat_sub(inv.nightvision_amount, 1) } else { inv.nightvision_amount };
    let jp = if inv.jetpack_active { sat_sub(inv.jetpack_amount, 1) } else { inv.jetpack_amount };
    let hd = if inv.holoduke_active { sat_sub(inv.holoduke_amount, 1) } else { inv.holoduke_amount };
    InventoryState {
        steroids_amount: st,
        steroids_active: inv.steroids_active && st != 0,
        nightvision_amount: nv,
        nightvision_active: inv.nightvision_active && nv != 0,
        jetpack_amount: jp,
        jetpack_active: inv.jetpack_active && jp != 0,
        holoduke_amount: hd,
        holoduke_active: inv.holoduke_active && hd != 0,
        scuba_amount: if underwater && inv.scuba_amount > 0 { sat_sub(inv.scuba_amount, 1) } else { inv.scuba_amount },
        ..inv
    }
}

fn sat_sub_i32(v: i32, d: i32) -> (r: i32)
    requires
        0 <= d,
    ensures
        r == sat_sub(v, d as int),
{
    if v < i32::MIN + d { i32::MIN } else { v - d }
}

fn ticked(inv: InventoryState, underwater: bool) -> (r: InventoryState)
    ensures
        r == inventory_ticked(inv, underwater),
{
    let mut r = inv;
    if r.steroids_active {
        r.steroids_amount = sat_sub_i32(r.steroids_amount, 2);
        if r.steroids_amount == 0 {
            r.steroids_active = false;
        }
    }
    if r.nightvision_active {
        r.nightvision_amount = sat_sub_i32(r.nightvision_amount, 1);
        if r.nightvision_amount == 0 {
            r.nightvision_active = false;
        }
    }
    if r.jetpack_active {
        r.jetpack_amount = sat_sub_i32(r.jetpack_amount, 1);
        if r.jetpack_amount == 0 {
            r.jetpack_active = false;
        }
    }
    if r.holoduke_active {
        r.holoduke_amount = sat_sub_i32(r.holoduke_amount, 1);
        if r.holoduke_amount == 0 {
            r.holoduke_active = false;
        }
    }
    if underwater && r.scuba_amount > 0 {
        r.scuba_amount = sat_sub_i32(r.scuba_amount, 1);
    }
    r
}

impl PlayerController {
    /// Takes steroids (key U) when some are carried; returns the sound.
    pub fn use_steroids(&mut self) -> (sound: Option<u32>)
        ensures
            old(self).inventory.steroids_amount > 0 ==> sound == Some(723u32)
                && *final(self) == (PlayerController { inventory: InventoryState { steroids_active: true, ..old(self).inventory }, ..*old(self) }),
            old(self).inventory.steroids_amount <= 0 ==> sound is None && *final(self) == *old(self),
    {
        if self.inventory.steroids_amount > 0 {
            self.inventory.steroids_active = true;
            Some(723)
        } else {
            None
        }
    }

    /// Uses the portable medkit (key M) when hurt: heals as much as the
    /// medkit holds, up to full health; returns the sound.
    pub fn use_medkit(&mut self) -> (sound: Option<u32>)
        requires
            old(self).inventory.medkit_amount > 0 && old(self).health < old(self).max_health
                ==> old(self).max_health - old(self).health <= i32::MAX,
        ensures
            ({
                let p = *old(self);
                if p.inventory.medkit_amount > 0 && p.health < p.max_health {
                    let need = p.max_health - p.health;
                    let used = if need < p.inventory.medkit_amount { need } else { p.inventory.medkit_amount as int };
                    &&& sound == Some(722u32)
                    &&& *final(self) == (PlayerController {
                            health: (p.health + used) as i32,
                            inventory: InventoryState { medkit_amount: (p.inventory.medkit_amount - used) as i32, ..p.inventory },
                            ..p })
                    &&& final(self).health + final(self).inventory.medkit_amount == p.health + p.inventory.medkit_amount
                    &&& final(self).health <= p.max_health
                } else {
                    sound is None && *final(self) == p
                }
            }),
    {
        if self.inventory.medkit_amount > 0 && self.health < self.max_health {
            let needed = self.max_health - self.health;
            let use_amount = if needed < self.inventory.medkit_amount { needed } else { self.inventory.medkit_amount };
            self.health = self.health + use_amount;
            self.inventory.medkit_amount = self.inventory.medkit_amount - use_amount;
            Some(722)
        } else {
            None
        }
    }

    /// Switches the night-vision goggles (key N) when charged.
    pub fn toggle_nightvision(&mut self) -> (sound: Option<u32>)
        ensures
            old(self).inventory.nightvision_amount > 0 ==> sound == Some(649u32)
                && *final(self) == (PlayerController { inventory: InventoryState {
                    nightvision_active: !old(self).inventory.nightvision_active, ..old(self).inventory }, ..*old(self) }),
            old(self).inventory.nightvision_amount <= 0 ==> sound is None && *final(self) == *old(self),
    {
        if self.inventory.nightvision_amount > 0 {
            self.inventory.nightvision_active = !self.inventory.nightvision_active;
            Some(649)
        } else {
            None
        }
    }

    /// Switches the jetpack (key J) when charged; the sound tells on from off.
    pub fn toggle_jetpack(&mut self) -> (sound: Option<u32>)
        ensures
            old(self).inventory.jetpack_amount > 0 ==> sound == Some(if old(self).inventory.jetpack_active { 51u32 } else { 49u32 })
                && *final(self) == (PlayerController { inventory: InventoryState {
                    jetpack_active: !old(self).inventory.jetpack_active, ..old(self).inventory }, ..*old(self) }),
            old(self).inventory.jetpack_amount <= 0 ==> sound is None && *final(self) == *old(self),
    {
        if self.inventory.jetpack_amount > 0 {
            self.inventory.jetpack_active = !self.inventory.jetpack_active;
            if self.inventory.jetpack_active { Some(49) } else { Some(51) }
        } else {
            None
        }
    }

    /// Switches the holoduke decoy (key H) when charged.
    pub fn toggle_holoduke(&mut self) -> (sound: Option<u32>)
        ensures
            old(self).inventory.holoduke_amount > 0 ==> sound == Some(70u32)
                && *final(self) == (PlayerController { inventory: InventoryState {
                    holoduke_active: !old(self).inventory.holoduke_active, ..old(self).inventory }, ..*old(self) }),
            old(self).inventory.holoduke_amount <= 0 ==> sound is None && *final(self) == *old(self),
    {
        if self.inventory.holoduke_amount > 0 {
            self.inventory.holoduke_active = !self.inventory.holoduke_active;
            Some(70)
        } else {
            None
        }
    }

    /// One inventory tick (ten per second); returns whether the holoduke
    /// ran out on this tick. No charge ever grows.
    pub fn inventory_tick(&mut self) -> (holoduke_expired: bool)
        ensures
            *final(self) == (PlayerController { inventory: inventory_ticked(old(self).inventory, old(self).spec_underwater()), ..*old(self) }),
            holoduke_expired == (old(self).inventory.holoduke_active && !final(self).inventory.holoduke_active),
            final(self).inventory.steroids_amount <= old(self).inventory.steroids_amount,
            final(self).inventory.nightvision_amount <= old(self).inventory.nightvision_amount,
            final(self).inventory.jetpack_amount <= old(self).inventory.jetpack_amount,
            final(self).inventory.holoduke_amount <= old(self).inventory.holoduke_amount,
            final(self).inventory.scuba_amount <= old(self).inventory.scuba_amount,
    {
        let underwater = self.is_underwater();
        let was_on = self.inventory.holoduke_active;
        let inv = ticked(self.inventory, underwater);
        self.inventory = inv;
        was_on && !inv.holoduke_active
    }

    /// A second under water without air costs 10 health (never below
    /// `i32::MIN`).
    pub fn take_drowning_damage(&mut self)
        ensures
            *final(self) == (PlayerController { health: sat_sub(old(self).health, 10), ..*old(self) }),
    {
        self.health = sat_sub_i32(self.health, 10);
    }
}

/// The ammunition table as executable values, with the item's text.
fn ammo_gain_of(kind: PickupKind) -> (r: (WeaponType, i32, i32, bool, bool, &'static str))
    requires
        ammo_gain(kind) is Some,
    ensures
        ammo_gain(kind) == Some((r.0, r.1 as int, r.2 as int, r.3, r.4)),
        r.5 == pickup_message(kind),
{
    match kind {
        PickupKind::PistolClip => (WeaponType::Pistol, 12, 200, false, false, "PISTOL CLIP (+12)"),
        PickupKind::ShotgunBox => (WeaponType::Shotgun, 10, 50, true, false, "SHOTGUN SHELLS (+10)"),
        PickupKind::ChaingunBox => (WeaponType::Chaingun, 50, 400, true, false, "CHAINGUN AMMO BOX (+50)"),
        PickupKind::RpgRocket => (WeaponType::Rpg, 5, 50, true, false, "RPG ROCKETS (+5)"),
        PickupKind::PipebombBox => (WeaponType::Pipebomb, 5, 50, true, false, "PIPEBOMBS (+5)"),
        PickupKind::ShrinkerAmmo => (WeaponType::Shrinker, 5, 50, true, false, "SHRINKER CRYSTALS (+5)"),
        PickupKind::DevastatorBox => (WeaponType::Devastator, 15, 99, true, false, "DEVASTATOR ROCKETS (+15)"),
        PickupKind::FreezeAmmo => (WeaponType::Freezethrower, 25, 99, true, false, "FREEZETHROWER AMMO (+25)"),
        PickupKind::ExpanderAmmo => (WeaponType::Expander, 20, 99, true, false, "EXPANDER AMMO (+20)"),
        PickupKind::WeaponPistol => (WeaponType::Pistol, 12, 200, false, false, "PISTOL"),
        PickupKind::WeaponShotgun => (WeaponType::Shotgun, 10, 50, true, true, "YOU GOT THE SHOTGUN!"),
        PickupKind::WeaponChaingun => (WeaponType::Chaingun, 50, 400, true, true, "YOU GOT THE CHAINGUN CANNON!"),
        PickupKind::WeaponRpg => (WeaponType::Rpg, 5, 50, true, true, "YOU GOT THE RPG!"),
        PickupKind::WeaponPipebomb => (WeaponType::Pipebomb, 5, 50, true, true, "YOU GOT PIPEBOMBS!"),
        PickupKind::WeaponShrinker => (WeaponType::Shrinker, 5, 50, true, true, "YOU GOT THE SHRINKER!"),
        PickupKind::WeaponDevastator => (WeaponType::Devastator, 15, 99, true, true, "YOU GOT THE DEVASTATOR!"),
        PickupKind::WeaponTripbomb => (WeaponType::Tripbomb, 5, 10, true, true, "YOU GOT LASER TRIPBOMBS!"),
        PickupKind::WeaponFreezer => (WeaponType::Freezethrower, 25, 99, true, true, "YOU GOT THE FREEZETHROWER!"),
        _ => (WeaponType::Expander, 20, 99, true, true, "YOU GOT THE EXPANDER!"),
    }
}

} // verus!
