//! The things a player uses or breaks in a level: switches and keycards,
//! fountains, toilets, dancers, the level's exit button, touchplates, and
//! what explosions do to barrels, cracked walls and windows. Whether the
//! player is near and facing a thing is decided by the frame loop from
//! positions; what then happens is decided here. Times are kept in whole
//! milliseconds.
use vstd::prelude::*;
use crate::player::PlayerController;
pub use crate::player::items::PickupKind;

verus! {

/// A request to trigger everything tagged with `lotag`.
#[derive(Debug, Clone, Copy, PartialEq, Eq, Structural)]
pub struct ActivateTagEvent {
    pub lotag: i16,
}

/// A request to heal the player by `amount`.
#[derive(Debug, Clone, Copy, PartialEq, Eq, Structural)]
pub struct PlayerHealEvent {
    pub amount: i32,
}

/// Health after healing by `amount`, capped at 100.
pub open spec fn healed(health: i32, amount: int) -> i32 {
    if health + amount < 100 { (health + amount) as i32 } else { 100 }
}

/// Heals the player by `amount`, up to 100.
pub fn apply_player_healing(player: &mut PlayerController, amount: i32)
    requires
        i32::MIN <= old(player).health + amount <= i32::MAX,
    ensures
        *final(player) == (PlayerController { health: healed(old(player).health, amount as int), ..*old(player) }),
{
    let h = player.health + amount;
    player.health = if h < 100 { h } else { 100 };
}

#[derive(Debug, Clone, Copy, PartialEq, Eq, Structural)]
pub enum SwitchType {
    LightSwitch,
    SpaceDoorSwitch,
    DipSwitch,
    TechSwitch,
    PowerSwitch,
    LockSwitch,
    HandSwitch,
    PullSwitch,
    AlienSwitch,
    /// Needs a keycard: 1 blue, 2 red, 3 yellow.
    AccessSwitch { key_required: u8 },
}

/// Whether the player may work a switch of this type.
pub open spec fn has_access(t: SwitchType, p: PlayerController) -> bool {
    match t {
        SwitchType::AccessSwitch { key_required } =>
            if key_required == 1 { p.has_blue_key }
            else if key_required == 2 { p.has_red_key }
            else if key_required == 3 { p.has_yellow_key }
            else { true },
        _ => true,
    }
}

/// A wall switch. The material that shows its tile is the renderer's.
#[derive(Debug, Clone, Copy, PartialEq, Eq, Structural)]
pub struct InteractiveSwitch {
    pub switch_type: SwitchType,
    pub on_tile: i16,
    pub off_tile: i16,
    pub is_on: bool,
    pub lotag: i16,
    pub hitag: i16,
    pub sound_id: i32,
}

/// What pressing a switch did.
#[derive(Debug, Clone, Copy, PartialEq, Eq, Structural)]
pub enum SwitchPress {
    /// The keycard is missing: the access-denied sound plays.
    Denied { sound_id: i32 },
    /// The switch flipped: its sound (when it has one), the tile to show
    /// now and the tag to trigger (when it has one).
    Toggled { sound_id: Option<i32>, tile: i16, tag: Option<ActivateTagEvent> },
}

/// A switch after the player presses it, and what the press did.
pub open spec fn switch_pressed(s: InteractiveSwitch, p: PlayerController) -> (InteractiveSwitch, SwitchPress) {
    if !has_access(s.switch_type, p) {
        (s, SwitchPress::Denied { sound_id: 86 })
    } else {
        let on = !s.is_on;
        (InteractiveSwitch { is_on: on, ..s },
         SwitchPress::Toggled {
            sound_id: if s.sound_id != 0 { Some(s.sound_id) } else { None },
            tile: if on { s.on_tile } else { s.off_tile },
            tag: if s.lotag != 0 { Some(ActivateTagEvent { lotag: s.lotag }) } else { None },
        })
    }
}

impl InteractiveSwitch {
    /// The player presses the switch.
    pub fn press(&mut self, player: &PlayerController) -> (r: SwitchPress)
        ensures
            (*final(self), r) == switch_pressed(*old(self), *player),
    {
        if let SwitchType::AccessSwitch { key_required } = self.switch_type {
            let has_key = match key_required {
                1 => player.has_blue_key,
                2 => player.has_red_key,
                3 => player.has_yellow_key,
                _ => true,
            };
            if !has_key {
                return SwitchPress::Denied { sound_id: 86 };
            }
        }
        self.is_on = !self.is_on;
        let sound_id = if self.sound_id != 0 { Some(self.sound_id) } else { None };
        let tile = if self.is_on { self.on_tile } else { self.off_tile };
        let tag = if self.lotag != 0 { Some(ActivateTagEvent { lotag: self.lotag }) } else { None };
        SwitchPress::Toggled { sound_id, tile, tag }
    }
}

/// A keycard lying in the level: 1 blue, 2 red, 3 yellow.
#[derive(Debug, Clone, Copy, PartialEq, Eq, Structural)]
pub struct KeycardPickup {
    pub key_type: u8,
}

impl KeycardPickup {
    /// The player picks the card up: returns the pickup sound.
    pub fn collect(&self, player: &mut PlayerController) -> (sound_id: i32)
        ensures
            sound_id == 65,
            *final(player) == (if self.key_type == 1 {
                PlayerController { has_blue_key: true, ..*old(player) }
            } else if self.key_type == 2 {
                PlayerController { has_red_key: true, ..*old(player) }
            } else if self.key_type == 3 {
                PlayerController { has_yellow_key: true, ..*old(player) }
            } else {
                *old(player)
            }),
    {
        match self.key_type {
            1 => player.has_blue_key = true,
            2 => player.has_red_key = true,
            3 => player.has_yellow_key = true,
            _ => {},
        }
        65
    }
}

/// A drinking fountain with a number of sips left.
#[derive(Debug, Clone, Copy, PartialEq, Eq, Structural)]
pub struct WaterFountain {
    pub uses_left: i32,
    pub is_broken: bool,
    pub broken_tile: i16,
}

impl WaterFountain {
    /// The player drinks: one sip fewer, and the heal and sound to send,
    /// unless the fountain is broken or dry.
    pub fn sip(&mut self) -> (r: Option<(PlayerHealEvent, i32)>)
        ensures
            (!old(self).is_broken && old(self).uses_left > 0) ==> {
                &&& *final(self) == (WaterFountain { uses_left: (old(self).uses_left - 1) as i32, ..*old(self) })
                &&& r == Some((PlayerHealEvent { amount: 1 }, 36i32))
            },
            !(!old(self).is_broken && old(self).uses_left > 0) ==> {
                &&& *final(self) == *old(self)
                &&& r is None
            },
    {
        if !self.is_broken && self.uses_left > 0 {
            self.uses_left -= 1;
            Some((PlayerHealEvent { amount: 1 }, 36))
        } else {
            None
        }
    }
}

/// A toilet: used once for a small heal when the player relieves himself
/// on it, and with its own cool-down between uses of the urinal gag.
#[derive(Debug, Clone, Copy, PartialEq, Eq, Structural)]
pub struct ToiletProp {
    pub is_broken: bool,
    pub broken_tile: i16,
    pub water_tile: i16,
    pub last_used_ms: u32,
    pub cooldown_ms: u32,
}

impl Default for ToiletProp {
    fn default() -> (t: Self)
        ensures
            t == (ToiletProp { is_broken: false, broken_tile: 970, water_tile: 971, last_used_ms: 0, cooldown_ms: 0 }),
    {
        ToiletProp { is_broken: false, broken_tile: 970, water_tile: 971, last_used_ms: 0, cooldown_ms: 0 }
    }
}

impl ToiletProp {
    /// Duke uses the toilet: when it has cooled down he urinates, healing
    /// 10 up to 100 and starting a cool-down of 220 s (sound 34); else it
    /// only flushes (sound 35).
    pub fn interact(&mut self, player: &mut PlayerController) -> (sound_id: usize)
        requires
            old(player).health + 10 <= i32::MAX,
        ensures
            old(self).cooldown_ms == 0 ==> {
                &&& *final(self) == (ToiletProp { cooldown_ms: 220_000, ..*old(self) })
                &&& *final(player) == (PlayerController { health: healed(old(player).health, 10), ..*old(player) })
                &&& sound_id == 34
            },
            old(self).cooldown_ms != 0 ==> {
                &&& *final(self) == *old(self)
                &&& *final(player) == *old(player)
                &&& sound_id == 35
            },
    {
        if self.cooldown_ms == 0 {
            let h = player.health + 10;
            player.health = if h < 100 { h } else { 100 };
            self.cooldown_ms = 220_000;
            34
        } else {
            35
        }
    }

    /// The player stands at the toilet and presses use: an unbroken toilet
    /// not used before gives a heal of 10 and the flush sound.
    pub fn use_stall(&mut self) -> (r: Option<(PlayerHealEvent, i32)>)
        ensures
            (!old(self).is_broken && old(self).last_used_ms == 0) ==> {
                &&& *final(self) == (ToiletProp { last_used_ms: 10_000, ..*old(self) })
                &&& r == Some((PlayerHealEvent { amount: 10 }, 79i32))
            },
            !(!old(self).is_broken && old(self).last_used_ms == 0) ==> {
                &&& *final(self) == *old(self)
                &&& r is None
            },
    {
        if !self.is_broken && self.last_used_ms == 0 {
            self.last_used_ms = 10_000;
            Some((PlayerHealEvent { amount: 10 }, 79))
        } else {
            None
        }
    }

    /// `dt_ms` of game time passed: the cool-down runs down to zero.
    pub fn tick(&mut self, dt_ms: u32)
        ensures
            *final(self) == (ToiletProp {
                cooldown_ms: if old(self).cooldown_ms > dt_ms { (old(self).cooldown_ms - dt_ms) as u32 } else { 0 },
                ..*old(self)
            }),
    {
        self.cooldown_ms = if self.cooldown_ms > dt_ms { self.cooldown_ms - dt_ms } else { 0 };
    }
}

/// A fountain Duke drinks from one point of health at a time.
#[derive(Debug, Clone, Copy, PartialEq, Eq, Structural, Default)]
pub struct FountainProp;

impl FountainProp {
    /// Drinks when hurt: one health point and the drinking sound.
    pub fn drink(&mut self, player: &mut PlayerController) -> (r: Option<usize>)
        ensures
            old(player).health < 100 ==> {
                &&& *final(player) == (PlayerController { health: (old(player).health + 1) as i32, ..*old(player) })
                &&& r == Some(36usize)
            },
            old(player).health >= 100 ==> {
                &&& *final(player) == *old(player)
                &&& r is None
            },
    {
        if player.health < 100 {
            player.health = player.health + 1;
            Some(36)
        } else {
            None
        }
    }
}

/// A dancer Duke tips; the tip timer shows the bill for a moment.
#[derive(Debug, Clone, Copy, PartialEq, Eq, Structural)]
pub struct DancerProp {
    pub tip_timer_ms: u32,
    pub total_tips: usize,
}

impl Default for DancerProp {
    fn default() -> (d: Self)
        ensures
            d == (DancerProp { tip_timer_ms: 0, total_tips: 0 }),
    {
        DancerProp { tip_timer_ms: 0, total_tips: 0 }
    }
}

impl DancerProp {
    /// One more tip: returns Duke's line, alternating between the two,
    /// "You wanna dance?" (38) on odd tips and "Shake it baby!" (37) on even.
    pub fn tip(&mut self) -> (quote: usize)
        requires
            old(self).total_tips < usize::MAX,
        ensures
            *final(self) == (DancerProp { tip_timer_ms: 1000, total_tips: (old(self).total_tips + 1) as usize }),
            quote == (if final(self).total_tips % 2 == 0 { 37usize } else { 38usize }),
    {
        self.tip_timer_ms = 1000;
        self.total_tips = self.total_tips + 1;
        if self.total_tips % 2 == 0 { 37 } else { 38 }
    }
}

/// The button that ends the level.
#[derive(Debug, Clone, Copy, PartialEq, Eq, Structural)]
pub struct NukeExitSwitch {
    pub is_activated: bool,
    pub is_secret: bool,
    pub lotag: i16,
    pub hitag: i16,
}

impl NukeExitSwitch {
    /// The player pushes the button: the first push ends the level (with
    /// the end-of-level sound 83); later pushes do nothing.
    pub fn press(&mut self) -> (ends_level: bool)
        ensures
            ends_level == !old(self).is_activated,
            *final(self) == (NukeExitSwitch { is_activated: true, ..*old(self) }),
    {
        if self.is_activated {
            false
        } else {
            self.is_activated = true;
            true
        }
    }
}

/// A floor plate that triggers its tag when the player steps on it. Its
/// radius is the frame loop's.
#[derive(Debug, Clone, Copy, PartialEq, Eq, Structural)]
pub struct Touchplate {
    pub lotag: i16,
    pub hitag: i16,
    pub triggered: bool,
}

impl Touchplate {
    /// One frame with the player on the plate (`inside`) or off it:
    /// stepping on triggers the tag once; stepping off re-arms the plate.
    pub fn step(&mut self, inside: bool) -> (ev: Option<ActivateTagEvent>)
        ensures
            final(self).lotag == old(self).lotag && final(self).hitag == old(self).hitag,
            final(self).triggered == inside,
            ev == (if inside && !old(self).triggered && old(self).lotag != 0 {
                Some(ActivateTagEvent { lotag: old(self).lotag })
            } else {
                None
            }),
    {
        if inside {
            if !self.triggered {
                self.triggered = true;
                if self.lotag != 0 {
                    return Some(ActivateTagEvent { lotag: self.lotag });
                }
            }
            None
        } else {
            self.triggered = false;
            None
        }
    }
}

/// A marker that carries a tag for other sprites to act on.
#[derive(Debug, Clone, Copy, PartialEq, Eq, Structural)]
pub struct Activator {
    pub lotag: i16,
    pub hitag: i16,
}

/// A barrel that blows up once its health is gone. The reach of its own
/// blast is the frame loop's.
#[derive(Debug, Clone, Copy, PartialEq, Eq, Structural)]
pub struct ExplodingBarrel {
    pub health: i32,
    pub damage: i32,
    pub is_exploded: bool,
}

impl ExplodingBarrel {
    /// An explosion of `damage` reaches the barrel: when that empties its
    /// health it explodes, returning its own blast damage (sound 14).
    pub fn blast(&mut self, damage: i32) -> (r: Option<i32>)
        requires
            old(self).is_exploded || i32::MIN <= old(self).health - damage <= i32::MAX,
        ensures
            old(self).is_exploded ==> *final(self) == *old(self) && r is None,
            !old(self).is_exploded ==> {
                &&& final(self).health == old(self).health - damage
                &&& final(self).damage == old(self).damage
                &&& final(self).is_exploded == (old(self).health - damage <= 0)
                &&& r == (if final(self).is_exploded { Some(old(self).damage) } else { None })
            },
    {
        if self.is_exploded {
            return None;
        }
        self.health = self.health - damage;
        if self.health <= 0 {
            self.is_exploded = true;
            Some(self.damage)
        } else {
            None
        }
    }
}

/// A cracked wall that an explosion can blow open.
#[derive(Debug, Clone, Copy, PartialEq, Eq, Structural)]
pub struct CrackWall {
    pub health: i32,
    pub stage: u8,
    pub lotag: i16,
    pub is_blown: bool,
}

impl CrackWall {
    /// An explosion of `damage` reaches the wall: when that empties its
    /// health it is blown open (last stage, sound 18) and its tag, if any,
    /// is triggered. Returns whether it was blown open now, and the tag.
    pub fn blast(&mut self, damage: i32) -> (r: (bool, Option<ActivateTagEvent>))
        requires
            old(self).is_blown || i32::MIN <= old(self).health - damage <= i32::MAX,
        ensures
            old(self).is_blown ==> *final(self) == *old(self) && r == (false, None::<ActivateTagEvent>),
            !old(self).is_blown ==> {
                &&& final(self).health == old(self).health - damage
                &&& final(self).lotag == old(self).lotag
                &&& final(self).is_blown == (old(self).health - damage <= 0)
                &&& final(self).stage == (if final(self).is_blown { 4u8 } else { old(self).stage })
                &&& r.0 == final(self).is_blown
                &&& r.1 == (if final(self).is_blown && old(self).lotag != 0 {
                        Some(ActivateTagEvent { lotag: old(self).lotag })
                    } else {
                        None
                    })
            },
    {
        if self.is_blown {
            return (false, None);
        }
        self.health = self.health - damage;
        if self.health <= 0 {
            self.is_blown = true;
            self.stage = 4;
            let tag = if self.lotag != 0 { Some(ActivateTagEvent { lotag: self.lotag }) } else { None };
            (true, tag)
        } else {
            (false, None)
        }
    }
}

/// A window pane.
#[derive(Debug, Clone, Copy, PartialEq, Eq, Structural)]
pub struct BreakableGlass {
    pub health: i32,
    pub is_broken: bool,
    pub wall_idx: Option<usize>,
    pub sector_idx: Option<usize>,
}

impl BreakableGlass {
    /// An explosion reaches the pane: an intact one breaks (sound 19).
    pub fn shatter(&mut self) -> (broke_now: bool)
        ensures
            broke_now == !old(self).is_broken,
            *final(self) == (BreakableGlass { is_broken: true, ..*old(self) }),
    {
        if self.is_broken {
            false
        } else {
            self.is_broken = true;
            true
        }
    }
}

/// Pressing a switch twice leaves it as it was, and each press triggers
/// the same tag; without the keycard nothing changes.
pub proof fn lemma_switch_twice(s: InteractiveSwitch, p: PlayerController)
    ensures
        switch_pressed(switch_pressed(s, p).0, p).0 == s,
        has_access(s.switch_type, p) ==> switch_pressed(switch_pressed(s, p).0, p).1->tag == switch_pressed(s, p).1->tag,
        !has_access(s.switch_type, p) ==> switch_pressed(s, p).0 == s,
{
}

} // verus!
