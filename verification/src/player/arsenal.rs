//! Weapon choice and firing: which weapon the number keys select, which
//! weapon an empty gun falls back to, and what one pull of the trigger
//! spends and launches.
use vstd::prelude::*;
use super::{PlayerController, WeaponData, WeaponType, weapon_at};
pub use crate::combat::ProjectileType;

verus! {

/// One pull of the trigger that went off: the sound, what flies (`count`
/// of them, each dealing `damage`), whether a spent casing is thrown (and
/// whether it is a shell), and whether a tripbomb is planted instead.
#[derive(Debug, Clone, Copy, PartialEq, Eq, Structural)]
pub struct Shot {
    pub sound_id: u32,
    pub projectile: Option<ProjectileType>,
    pub count: u32,
    pub damage: i32,
    pub casing: Option<bool>,
    pub plants_tripbomb: bool,
}

/// The outcome of firing: the shot, if one went off; whether the pistol
/// began reloading; the weapon switched to because the gun ran dry.
#[derive(Debug, Clone, Copy, PartialEq, Eq, Structural)]
pub struct FireResult {
    pub shot: Option<Shot>,
    pub started_reload: bool,
    pub switched_to: Option<WeaponType>,
}

/// Auto-switch order, best first.
pub open spec fn priority(k: int) -> WeaponType {
    if k == 0 { WeaponType::Devastator }
    else if k == 1 { WeaponType::Rpg }
    else if k == 2 { WeaponType::Chaingun }
    else if k == 3 { WeaponType::Shotgun }
    else if k == 4 { WeaponType::Pistol }
    else if k == 5 { WeaponType::Freezethrower }
    else if k == 6 { WeaponType::Shrinker }
    else if k == 7 { WeaponType::Expander }
    else if k == 8 { WeaponType::Pipebomb }
    else if k == 9 { WeaponType::Tripbomb }
    else { WeaponType::Knee }
}

/// A weapon can be switched to: the boot always, others when unlocked and
/// loaded.
pub open spec fn usable(p: PlayerController, w: WeaponType) -> bool {
    w == WeaponType::Knee || (p.slot(w).is_unlocked && p.slot(w).ammo > 0)
}

/// The first usable weapon in priority order from position `k` on.
pub open spec fn best_from(p: PlayerController, k: int) -> WeaponType
    decreases 11 - k,
{
    if k >= 10 { WeaponType::Knee }
    else if usable(p, priority(k)) { priority(k) }
    else { best_from(p, k + 1) }
}

pub open spec fn best_weapon(p: PlayerController) -> WeaponType {
    best_from(p, 0)
}

proof fn lemma_best_from(p: PlayerController, k: int)
    requires
        0 <= k <= 10,
    ensures
        usable(p, best_from(p, k)),
        exists|j: int| k <= j <= 10 && priority(j) == best_from(p, k)
            && forall|i: int| k <= i < j ==> !usable(p, #[trigger] priority(i)),
    decreases 10 - k,
{
    if k >= 10 {
        assert(priority(10) == WeaponType::Knee);
    } else if usable(p, priority(k)) {
        assert(forall|i: int| k <= i < k ==> !usable(p, #[trigger] priority(i)));
    } else {
        lemma_best_from(p, k + 1);
        let j = choose|j: int| k + 1 <= j <= 10 && priority(j) == best_from(p, k + 1)
            && forall|i: int| k + 1 <= i < j ==> !usable(p, #[trigger] priority(i));
        assert(forall|i: int| k <= i < j ==> !usable(p, #[trigger] priority(i)));
    }
}

/// The fallback weapon depends only on the weapon slots.
proof fn lemma_best_same_slots(p: PlayerController, q: PlayerController, k: int)
    requires
        p.weapons@ == q.weapons@,
    ensures
        best_from(p, k) == best_from(q, k),
    decreases 11 - k,
{
    if k < 10 {
        lemma_best_same_slots(p, q, k + 1);
    }
}

fn priority_at(k: usize) -> (w: WeaponType)
    requires
        k < 11,
    ensures
        w == priority(k as int),
{
    match k {
        0 => WeaponType::Devastator,
        1 => WeaponType::Rpg,
        2 => WeaponType::Chaingun,
        3 => WeaponType::Shotgun,
        4 => WeaponType::Pistol,
        5 => WeaponType::Freezethrower,
        6 => WeaponType::Shrinker,
        7 => WeaponType::Expander,
        8 => WeaponType::Pipebomb,
        9 => WeaponType::Tripbomb,
        _ => WeaponType::Knee,
    }
}

fn weapon_shot_of(w: WeaponType, steroids: bool) -> (s: Option<Shot>)
    ensures
        s == weapon_shot(w, steroids),
{
    match w {
        WeaponType::Knee => Some(Shot { sound_id: 0, projectile: Some(ProjectileType::MightyBoot), count: 1,
            damage: if steroids { 40 } else { 15 }, casing: None, plants_tripbomb: false }),
        WeaponType::Pistol => Some(Shot { sound_id: 3, projectile: Some(ProjectileType::HitscanBullet), count: 1,
            damage: 12, casing: Some(false), plants_tripbomb: false }),
        WeaponType::Shotgun => Some(Shot { sound_id: 109, projectile: Some(ProjectileType::ShotgunPellet), count: 7,
            damage: 9, casing: Some(true), plants_tripbomb: false }),
        WeaponType::Chaingun => Some(Shot { sound_id: 6, projectile: Some(ProjectileType::HitscanBullet), count: 1,
            damage: 10, casing: Some(false), plants_tripbomb: false }),
        WeaponType::Rpg => Some(Shot { sound_id: 7, projectile: Some(ProjectileType::Rocket), count: 1,
            damage: 120, casing: None, plants_tripbomb: false }),
        WeaponType::Pipebomb => Some(Shot { sound_id: 118, projectile: Some(ProjectileType::Pipebomb), count: 1,
            damage: 150, casing: None, plants_tripbomb: false }),
        WeaponType::Shrinker => Some(Shot { sound_id: 11, projectile: Some(ProjectileType::ShrinkRay), count: 1,
            damage: 0, casing: None, plants_tripbomb: false }),
        WeaponType::Devastator => Some(Shot { sound_id: 10, projectile: Some(ProjectileType::DevastatorMissile), count: 1,
            damage: 40, casing: None, plants_tripbomb: false }),
        WeaponType::Tripbomb => Some(Shot { sound_id: 16, projectile: None, count: 0,
            damage: 150, casing: None, plants_tripbomb: true }),
        WeaponType::Freezethrower => Some(Shot { sound_id: 110, projectile: Some(ProjectileType::FreezeShard), count: 1,
            damage: 15, casing: None, plants_tripbomb: false }),
        WeaponType::HandRemote => None,
        WeaponType::Expander => Some(Shot { sound_id: 11, projectile: Some(ProjectileType::ExpanderRay), count: 1,
            damage: 25, casing: None, plants_tripbomb: false }),
    }
}

/// The weapon selected by number key `key` (1-9, 0): key 7 picks the
/// shrinker, or the expander when the shrinker is in hand and the expander
/// is unlocked.
pub open spec fn key_weapon(p: PlayerController, key: u8) -> Option<WeaponType> {
    if key == 1 { Some(WeaponType::Knee) }
    else if key == 2 { Some(WeaponType::Pistol) }
    else if key == 3 { Some(WeaponType::Shotgun) }
    else if key == 4 { Some(WeaponType::Chaingun) }
    else if key == 5 { Some(WeaponType::Rpg) }
    else if key == 6 { Some(WeaponType::Pipebomb) }
    else if key == 7 {
        if p.current_weapon == WeaponType::Shrinker && p.slot(WeaponType::Expander).is_unlocked {
            Some(WeaponType::Expander)
        } else {
            Some(WeaponType::Shrinker)
        }
    }
    else if key == 8 { Some(WeaponType::Devastator) }
    else if key == 9 { Some(WeaponType::Tripbomb) }
    else if key == 0 { Some(WeaponType::Freezethrower) }
    else { None }
}

/// The shot of each weapon: sound, projectile, count, damage, casing,
/// tripbomb (`None` for the detonator, which fires nothing).
pub open spec fn weapon_shot(w: WeaponType, steroids: bool) -> Option<Shot> {
    match w {
        WeaponType::Knee => Some(Shot { sound_id: 0, projectile: Some(ProjectileType::MightyBoot), count: 1,
            damage: if steroids { 40 } else { 15 }, casing: None, plants_tripbomb: false }),
        WeaponType::Pistol => Some(Shot { sound_id: 3, projectile: Some(ProjectileType::HitscanBullet), count: 1,
            damage: 12, casing: Some(false), plants_tripbomb: false }),
        WeaponType::Shotgun => Some(Shot { sound_id: 109, projectile: Some(ProjectileType::ShotgunPellet), count: 7,
            damage: 9, casing: Some(true), plants_tripbomb: false }),
        WeaponType::Chaingun => Some(Shot { sound_id: 6, projectile: Some(ProjectileType::HitscanBullet), count: 1,
            damage: 10, casing: Some(false), plants_tripbomb: false }),
        WeaponType::Rpg => Some(Shot { sound_id: 7, projectile: Some(ProjectileType::Rocket), count: 1,
            damage: 120, casing: None, plants_tripbomb: false }),
        WeaponType::Pipebomb => Some(Shot { sound_id: 118, projectile: Some(ProjectileType::Pipebomb), count: 1,
            damage: 150, casing: None, plants_tripbomb: false }),
        WeaponType::Shrinker => Some(Shot { sound_id: 11, projectile: Some(ProjectileType::ShrinkRay), count: 1,
            damage: 0, casing: None, plants_tripbomb: false }),
        WeaponType::Devastator => Some(Shot { sound_id: 10, projectile: Some(ProjectileType::DevastatorMissile), count: 1,
            damage: 40, casing: None, plants_tripbomb: false }),
        WeaponType::Tripbomb => Some(Shot { sound_id: 16, projectile: None, count: 0,
            damage: 150, casing: None, plants_tripbomb: true }),
        WeaponType::Freezethrower => Some(Shot { sound_id: 110, projectile: Some(ProjectileType::FreezeShard), count: 1,
            damage: 15, casing: None, plants_tripbomb: false }),
        WeaponType::HandRemote => None,
        WeaponType::Expander => Some(Shot { sound_id: 11, projectile: Some(ProjectileType::ExpanderRay), count: 1,
            damage: 25, casing: None, plants_tripbomb: false }),
    }
}

/// `v - 1`, staying at `i32::MIN`.
pub open spec fn sat_dec(v: i32) -> i32 {
    if v == i32::MIN { v } else { (v - 1) as i32 }
}


/// Whether pulling the trigger with `p`'s weapon fires: the boot always;
/// the pistol with a round in the clip; the detonator never; the rest
/// while they have ammunition.
pub open spec fn fires(p: PlayerController) -> bool {
    let w = p.current_weapon;
    if w == WeaponType::Knee { true }
    else if w == WeaponType::Pistol { p.pistol_mag > 0 }
    else if w == WeaponType::HandRemote { false }
    else { p.slot(w).ammo > 0 }
}

/// Ammunition of the weapon in hand after the trigger pull.
pub open spec fn ammo_after(p: PlayerController) -> i32 {
    let w = p.current_weapon;
    let a = p.slot(w).ammo;
    if !fires(p) || w == WeaponType::Knee { a }
    else if w == WeaponType::Pistol { sat_dec(a) }
    else { (a - 1) as i32 }
}

/// The pistol reloads when its last round in the clip is fired and
/// ammunition remains.
pub open spec fn reloads(p: PlayerController) -> bool {
    p.current_weapon == WeaponType::Pistol && fires(p) && p.pistol_mag - 1 == 0 && ammo_after(p) > 0
}

/// The pistol clip after the trigger pull: one round less, refilled with
/// up to 12 rounds on a reload.
pub open spec fn mag_after(p: PlayerController) -> i32 {
    if reloads(p) {
        if ammo_after(p) < 12 { ammo_after(p) } else { 12 }
    } else if p.current_weapon == WeaponType::Pistol && fires(p) {
        (p.pistol_mag - 1) as i32
    } else {
        p.pistol_mag
    }
}

/// Throwing a pipebomb puts the detonator in hand.
pub open spec fn weapon_after_shot(p: PlayerController) -> WeaponType {
    if p.current_weapon == WeaponType::Pipebomb && fires(p) { WeaponType::HandRemote } else { p.current_weapon }
}

/// Devastator rockets leave from alternating sides.
pub open spec fn side_after(p: PlayerController) -> bool {
    if p.current_weapon == WeaponType::Devastator && fires(p) { !p.devastator_alt_side } else { p.devastator_alt_side }
}

/// The weapon an empty gun switches to: the first usable one in the
/// order devastator, RPG, chaingun, shotgun, pistol, freezethrower,
/// shrinker, expander, pipebombs, tripbombs, boot.
pub fn get_highest_priority_available_weapon(player: &PlayerController) -> (w: WeaponType)
    ensures
        w == best_weapon(*player),
        usable(*player, w),
        exists|j: int| 0 <= j <= 10 && priority(j) == w
            && forall|i: int| 0 <= i < j ==> !usable(*player, #[trigger] priority(i)),
{
    proof {
        lemma_best_from(*player, 0);
    }
    let mut k: usize = 0;
    while k < 10
        invariant
            k <= 10,
            best_from(*player, k as int) == best_from(*player, 0),
        decreases 10 - k,
    {
        let wt = priority_at(k);
        let idx = wt.slot();
        if wt == WeaponType::Knee || (player.weapons[idx].is_unlocked && player.weapons[idx].ammo > 0) {
            assert(usable(*player, wt));
            assert(best_from(*player, k as int) == wt);
            proof {
                lemma_best_from(*player, 0);
            }
            return wt;
        }
        assert(!usable(*player, wt));
        k += 1;
    }
    WeaponType::Knee
}

impl PlayerController {
    /// Number key `key` (1-9, 0) selects its weapon if that weapon is
    /// unlocked; returns whether the weapon in hand changed to it.
    pub fn select_weapon_key(&mut self, key: u8) -> (selected: bool)
        ensures
            selected == (key_weapon(*old(self), key) matches Some(w) && old(self).slot(w).is_unlocked),
            selected ==> final(self).current_weapon == key_weapon(*old(self), key)->0,
            !selected ==> final(self).current_weapon == old(self).current_weapon,
            final(self).weapons == old(self).weapons,
            final(self).inventory == old(self).inventory,
            final(self).health == old(self).health && final(self).armor == old(self).armor,
            final(self).pistol_mag == old(self).pistol_mag,
    {
        let choice = if key == 1 {
            Some(WeaponType::Knee)
        } else if key == 2 {
            Some(WeaponType::Pistol)
        } else if key == 3 {
            Some(WeaponType::Shotgun)
        } else if key == 4 {
            Some(WeaponType::Chaingun)
        } else if key == 5 {
            Some(WeaponType::Rpg)
        } else if key == 6 {
            Some(WeaponType::Pipebomb)
        } else if key == 7 {
            if self.current_weapon == WeaponType::Shrinker && self.weapons[11].is_unlocked {
                Some(WeaponType::Expander)
            } else {
                Some(WeaponType::Shrinker)
            }
        } else if key == 8 {
            Some(WeaponType::Devastator)
        } else if key == 9 {
            Some(WeaponType::Tripbomb)
        } else if key == 0 {
            Some(WeaponType::Freezethrower)
        } else {
            None
        };
        match choice {
            Some(w) => {
                let idx = w.slot();
                if self.weapons[idx].is_unlocked {
                    self.current_weapon = w;
                    true
                } else {
                    false
                }
            },
            None => false,
        }
    }

    /// Pulls the trigger of the weapon in hand (the caller has checked that
    /// the weapon is ready). A shot spends a round; the pistol also spends
    /// one from its clip and reloads when the clip empties; a thrown
    /// pipebomb puts the detonator in hand; the devastator alternates
    /// sides. Then, if the weapon fired from is empty (and is not the
    /// boot), the best usable weapon is taken up.
    pub fn fire_current_weapon(&mut self) -> (r: FireResult)
        ensures
            ({
                let p = *old(self);
                let w = p.current_weapon;
                let i = w.spec_slot();
                &&& r.shot == (if fires(p) { weapon_shot(w, p.inventory.steroids_active) } else { None })
                &&& r.started_reload == reloads(p)
                &&& final(self).weapons@ == p.weapons@.update(i, WeaponData { ammo: ammo_after(p), ..p.slot(w) })
                &&& final(self).pistol_mag == mag_after(p)
                &&& final(self).devastator_alt_side == side_after(p)
                &&& r.switched_to == (if ammo_after(p) == 0 && w != WeaponType::Knee
                        && best_weapon(*final(self)) != weapon_after_shot(p) { Some(best_weapon(*final(self))) } else { None })
                &&& final(self).current_weapon == (if r.switched_to is Some { r.switched_to->0 } else { weapon_after_shot(p) })
                &&& final(self).health == p.health && final(self).armor == p.armor
                &&& final(self).inventory == p.inventory
                &&& final(self).movement_mode == p.movement_mode
                &&& final(self).has_blue_key == p.has_blue_key && final(self).has_red_key == p.has_red_key
                &&& final(self).has_yellow_key == p.has_yellow_key
                &&& final(self).god_mode == p.god_mode && final(self).no_clip == p.no_clip
                &&& final(self).max_health == p.max_health && final(self).max_armor == p.max_armor
            }),
    {
        let w = self.current_weapon;
        let i = w.slot();
        let steroids = self.inventory.steroids_active;
        let mut wd = self.weapons[i];
        let mut shot: Option<Shot> = None;
        let mut started_reload = false;
        match w {
            WeaponType::Knee => {
                shot = Some(Shot { sound_id: 0, projectile: Some(ProjectileType::MightyBoot), count: 1,
                    damage: if steroids { 40 } else { 15 }, casing: None, plants_tripbomb: false });
            },
            WeaponType::Pistol => {
                if self.pistol_mag > 0 {
                    self.pistol_mag = self.pistol_mag - 1;
                    wd.ammo = if wd.ammo == i32::MIN { wd.ammo } else { wd.ammo - 1 };
                    shot = Some(Shot { sound_id: 3, projectile: Some(ProjectileType::HitscanBullet), count: 1,
                        damage: 12, casing: Some(false), plants_tripbomb: false });
                    if self.pistol_mag == 0 && wd.ammo > 0 {
                        started_reload = true;
                        self.pistol_mag = if wd.ammo < 12 { wd.ammo } else { 12 };
                    }
                }
            },
            WeaponType::HandRemote => {},
            _ => {
                if wd.ammo > 0 {
                    wd.ammo = wd.ammo - 1;
                    shot = weapon_shot_of(w, steroids);
                    if w == WeaponType::Pipebomb {
                        self.current_weapon = WeaponType::HandRemote;
                    }
                    if w == WeaponType::Devastator {
                        self.devastator_alt_side = !self.devastator_alt_side;
                    }
                }
            },
        }
        self.weapons[i] = wd;
        let mut switched_to: Option<WeaponType> = None;
        if wd.ammo == 0 && i != 0 {
            let next = get_highest_priority_available_weapon(self);
            let ghost before = *self;
            if next != self.current_weapon {
                self.current_weapon = next;
                switched_to = Some(next);
            }
            proof {
                lemma_best_same_slots(before, *self, 0);
            }
        }
        FireResult { shot, started_reload, switched_to }
    }

    /// The damage of a kick: 40 on steroids, else 15.
    pub fn kick_damage(&self) -> (d: i32)
        ensures
            d == (if self.inventory.steroids_active { 40int } else { 15int }),
    {
        if self.inventory.steroids_active { 40 } else { 15 }
    }
}

} // verus!
