//! Sector effectors that move floors and ceilings by whole Build units:
//! lifts, drop floors, doors that close by themselves, stretching
//! ceilings and crushers, with the light switches and glass panes that
//! tags also reach. Each frame the loop works out how far an effector's
//! speed carries it (speed × frame seconds × 1000 for lifts and drop
//! floors, × 1024 for the rest, truncated) and passes that distance and
//! the frame time in milliseconds. Rotating and sliding effectors, whose
//! state is angles and fractions, are the frame loop's.
use vstd::prelude::*;
use crate::interactivity::{ActivateTagEvent, Activator, Touchplate};
use crate::map::{BuildMap, Sprite};

verus! {

#[derive(Debug, Clone, Copy, PartialEq, Eq, Structural)]
pub enum EffectorKind {
    /// SE 17 and 18: a lift between two floor heights; at the top it waits
    /// `auto_return_timer` milliseconds (when set) before going back down.
    Elevator {
        orig_floor_z: i32,
        target_floor_z: i32,
        current_floor_z: i32,
        orig_ceil_z: i32,
        target_ceil_z: i32,
        current_ceil_z: i32,
        speed: i32,
        is_at_top: bool,
        auto_return_timer: Option<u32>,
    },
    /// SE 12: a light switch operator.
    LightSwitchOperator { is_on: bool, on_shade: i8, off_shade: i8 },
    /// SE 21: a floor that drops once.
    DropFloor { orig_floor_z: i32, target_floor_z: i32, current_floor_z: i32, speed: i32, is_dropped: bool },
    /// SE 10: a door whose ceiling rises and that closes again after
    /// `auto_close_delay` milliseconds open.
    AutoCloseDoor {
        orig_ceil_z: i32,
        open_ceil_z: i32,
        current_ceil_z: i32,
        speed: i32,
        auto_close_timer: Option<u32>,
        auto_close_delay: u32,
        is_open: bool,
    },
    /// SE 20: a ceiling that stretches down and back.
    StretchCeiling { orig_ceil_z: i32, target_ceil_z: i32, current_ceil_z: i32, speed: i32, is_stretched: bool },
    /// SE 31 and 32: a crusher going up and down between two heights.
    CrusherSector { min_z: i32, max_z: i32, current_z: i32, speed: i32, crushing_ceiling: bool, moving_down: bool },
    /// SE 36: a pane that shatters when shot to pieces.
    ShootingGlassPane { health: i32, is_shattered: bool },
}

#[derive(Debug, Clone, Copy, PartialEq, Eq, Structural)]
pub struct SectorEffectorComponent {
    pub sector_idx: usize,
    pub lotag: i16,
    pub hitag: i16,
    pub kind: EffectorKind,
    pub active: bool,
}

/// Whether a tag event for `lotag` reaches the effector.
pub open spec fn tag_reaches(e: SectorEffectorComponent, lotag: i16) -> bool {
    e.lotag == lotag || (e.hitag != 0 && e.hitag == lotag)
}

/// What a tag does to an effector's own state: lifts, doors and stretching
/// ceilings reverse, a drop floor drops, a light switch flips.
pub open spec fn kind_toggled(k: EffectorKind) -> EffectorKind {
    match k {
        EffectorKind::Elevator { orig_floor_z, target_floor_z, current_floor_z, orig_ceil_z, target_ceil_z, current_ceil_z, speed, is_at_top, auto_return_timer } =>
            EffectorKind::Elevator {
                orig_floor_z, target_floor_z, current_floor_z, orig_ceil_z, target_ceil_z, current_ceil_z, speed,
                is_at_top: !is_at_top,
                auto_return_timer: if !is_at_top { Some(5000u32) } else { None },
            },
        EffectorKind::DropFloor { orig_floor_z, target_floor_z, current_floor_z, speed, is_dropped } =>
            EffectorKind::DropFloor { orig_floor_z, target_floor_z, current_floor_z, speed, is_dropped: true },
        EffectorKind::LightSwitchOperator { is_on, on_shade, off_shade } =>
            EffectorKind::LightSwitchOperator { is_on: !is_on, on_shade, off_shade },
        EffectorKind::AutoCloseDoor { orig_ceil_z, open_ceil_z, current_ceil_z, speed, auto_close_timer, auto_close_delay, is_open } =>
            EffectorKind::AutoCloseDoor {
                orig_ceil_z, open_ceil_z, current_ceil_z, speed, auto_close_delay,
                is_open: !is_open,
                auto_close_timer: if !is_open { Some(auto_close_delay) } else { auto_close_timer },
            },
        EffectorKind::StretchCeiling { orig_ceil_z, target_ceil_z, current_ceil_z, speed, is_stretched } =>
            EffectorKind::StretchCeiling { orig_ceil_z, target_ceil_z, current_ceil_z, speed, is_stretched: !is_stretched },
        _ => k,
    }
}

/// An effector after a tag event for `lotag`.
pub open spec fn tag_activated(e: SectorEffectorComponent, lotag: i16) -> SectorEffectorComponent {
    if tag_reaches(e, lotag) {
        SectorEffectorComponent { active: true, kind: kind_toggled(e.kind), ..e }
    } else {
        e
    }
}

/// `cur` moved `s` toward `target`, stopping on it (a negative `s` moves it
/// away; at the target with a negative `s` it stays).
pub open spec fn approach(cur: int, target: int, s: int) -> int {
    if (if cur >= target { cur - target } else { target - cur }) <= s { target }
    else if target > cur { cur + s } else if target < cur { cur - s } else { cur }
}

/// A countdown of `t` milliseconds after `dt` more: `None` once it has run out.
pub open spec fn count_down(t: u32, dt: u32) -> Option<u32> {
    if t <= dt { None } else { Some((t - dt) as u32) }
}

/// `x` is an `i32`.
pub open spec fn fits(x: int) -> bool {
    i32::MIN <= x <= i32::MAX
}

/// Moving `cur` by `s` toward `target` overflows nowhere: the distance and
/// its absolute value, the step taken with the direction's sign, the new
/// height and its offset from `orig` (which places the sector) are all
/// `i32`s.
pub open spec fn move_fits(cur: i32, target: i32, s: int, orig: i32) -> bool {
    &&& fits(target - cur)
    &&& target - cur != i32::MIN
    &&& (target < cur ==> s != i32::MIN)
    &&& fits(approach(cur as int, target as int, s))
    &&& fits(approach(cur as int, target as int, s) - orig)
}

/// One frame of the effector overflows nowhere with a movement of `step`
/// units (for lifts and drop floors at least 1), exactly as the frame loop
/// computes it: the moving kinds by `move_fits`, a door that stays put by
/// its offset, a crusher by its new height.
pub open spec fn tick_fits(k: EffectorKind, step: i32) -> bool {
    match k {
        EffectorKind::Elevator { orig_floor_z, target_floor_z, current_floor_z, is_at_top, .. } =>
            move_fits(current_floor_z, if is_at_top { target_floor_z } else { orig_floor_z },
                if step < 1 { 1 } else { step as int }, orig_floor_z),
        EffectorKind::DropFloor { orig_floor_z, target_floor_z, current_floor_z, is_dropped, .. } =>
            is_dropped ==> move_fits(current_floor_z, target_floor_z, if step < 1 { 1 } else { step as int }, orig_floor_z),
        EffectorKind::AutoCloseDoor { orig_ceil_z, open_ceil_z, current_ceil_z, is_open, .. } => {
            let target = if is_open { open_ceil_z } else { orig_ceil_z };
            &&& fits(target - current_ceil_z)
            &&& target != current_ceil_z ==> move_fits(current_ceil_z, target, step as int, orig_ceil_z)
            &&& target == current_ceil_z ==> fits(current_ceil_z - orig_ceil_z)
        },
        EffectorKind::StretchCeiling { orig_ceil_z, target_ceil_z, current_ceil_z, is_stretched, .. } =>
            move_fits(current_ceil_z, if is_stretched { target_ceil_z } else { orig_ceil_z }, step as int, orig_ceil_z),
        EffectorKind::CrusherSector { current_z, moving_down, .. } =>
            if moving_down { fits(current_z + step) } else { fits(current_z - step) },
        _ => true,
    }
}

/// One frame of an active effector: its new state and whether it stops
/// (goes inactive).
pub open spec fn kind_ticked(k: EffectorKind, dt: u32, step: i32) -> (EffectorKind, bool) {
    match k {
        EffectorKind::Elevator { orig_floor_z, target_floor_z, current_floor_z, orig_ceil_z, target_ceil_z, current_ceil_z, speed, is_at_top, auto_return_timer } => {
            let target = if is_at_top { target_floor_z } else { orig_floor_z };
            let s: int = if step < 1 { 1 } else { step as int };
            let d = if current_floor_z >= target { current_floor_z - target } else { target - current_floor_z };
            let cur = approach(current_floor_z as int, target as int, s) as i32;
            let mk = |at_top: bool, timer: Option<u32>| EffectorKind::Elevator {
                orig_floor_z, target_floor_z, current_floor_z: cur, orig_ceil_z, target_ceil_z, current_ceil_z, speed,
                is_at_top: at_top, auto_return_timer: timer,
            };
            if d <= s {
                if !is_at_top {
                    (mk(is_at_top, auto_return_timer), cur == orig_floor_z)
                } else {
                    match auto_return_timer {
                        Some(t) => match count_down(t, dt) {
                            None => (mk(false, None), false),
                            Some(t2) => (mk(true, Some(t2)), false),
                        },
                        None => (mk(true, None), true),
                    }
                }
            } else {
                (mk(is_at_top, auto_return_timer), false)
            }
        },
        EffectorKind::DropFloor { orig_floor_z, target_floor_z, current_floor_z, speed, is_dropped } => {
            if is_dropped {
                let s: int = if step < 1 { 1 } else { step as int };
                let d = if current_floor_z >= target_floor_z { current_floor_z - target_floor_z } else { target_floor_z - current_floor_z };
                (EffectorKind::DropFloor {
                    orig_floor_z, target_floor_z, speed, is_dropped,
                    current_floor_z: approach(current_floor_z as int, target_floor_z as int, s) as i32,
                }, d <= s)
            } else {
                (k, false)
            }
        },
        EffectorKind::AutoCloseDoor { orig_ceil_z, open_ceil_z, current_ceil_z, speed, auto_close_timer, auto_close_delay, is_open } => {
            let target = if is_open { open_ceil_z } else { orig_ceil_z };
            if target != current_ceil_z {
                (EffectorKind::AutoCloseDoor {
                    orig_ceil_z, open_ceil_z, speed, auto_close_timer, auto_close_delay, is_open,
                    current_ceil_z: approach(current_ceil_z as int, target as int, step as int) as i32,
                }, false)
            } else if is_open {
                match auto_close_timer {
                    Some(t) => match count_down(t, dt) {
                        None => (EffectorKind::AutoCloseDoor {
                            orig_ceil_z, open_ceil_z, current_ceil_z, speed, auto_close_delay,
                            auto_close_timer: None, is_open: false,
                        }, false),
                        Some(t2) => (EffectorKind::AutoCloseDoor {
                            orig_ceil_z, open_ceil_z, current_ceil_z, speed, auto_close_delay,
                            auto_close_timer: Some(t2), is_open,
                        }, false),
                    },
                    None => (k, false),
                }
            } else {
                (k, true)
            }
        },
        EffectorKind::StretchCeiling { orig_ceil_z, target_ceil_z, current_ceil_z, speed, is_stretched } => {
            let target = if is_stretched { target_ceil_z } else { orig_ceil_z };
            let d = if current_ceil_z >= target { current_ceil_z - target } else { target - current_ceil_z };
            (EffectorKind::StretchCeiling {
                orig_ceil_z, target_ceil_z, speed, is_stretched,
                current_ceil_z: approach(current_ceil_z as int, target as int, step as int) as i32,
            }, d <= step)
        },
        EffectorKind::CrusherSector { min_z, max_z, current_z, speed, crushing_ceiling, moving_down } => {
            if moving_down {
                let z = current_z + step;
                if z >= max_z {
                    (EffectorKind::CrusherSector { min_z, max_z, speed, crushing_ceiling, current_z: max_z, moving_down: false }, false)
                } else {
                    (EffectorKind::CrusherSector { min_z, max_z, speed, crushing_ceiling, current_z: z as i32, moving_down }, false)
                }
            } else {
                let z = current_z - step;
                if z <= min_z {
                    (EffectorKind::CrusherSector { min_z, max_z, speed, crushing_ceiling, current_z: min_z, moving_down: true }, false)
                } else {
                    (EffectorKind::CrusherSector { min_z, max_z, speed, crushing_ceiling, current_z: z as i32, moving_down }, false)
                }
            }
        },
        EffectorKind::ShootingGlassPane { health, is_shattered } => {
            if health <= 0 && !is_shattered {
                (EffectorKind::ShootingGlassPane { health, is_shattered: true }, true)
            } else {
                (k, false)
            }
        },
        _ => (k, false),
    }
}

/// An effector after one frame: inactive ones rest.
pub open spec fn effector_ticked(e: SectorEffectorComponent, dt: u32, step: i32) -> SectorEffectorComponent {
    if !e.active {
        e
    } else {
        let (k, stop) = kind_ticked(e.kind, dt, step);
        SectorEffectorComponent { kind: k, active: !stop, ..e }
    }
}

fn move_toward(cur: i32, target: i32, s: i32) -> (r: i32)
    requires
        fits(target - cur),
        target - cur != i32::MIN,
        target < cur ==> s != i32::MIN,
        fits(approach(cur as int, target as int, s as int)),
    ensures
        r == approach(cur as int, target as int, s as int),
{
    let d: i32 = if cur >= target { cur - target } else { target - cur };
    if d <= s {
        target
    } else if target > cur {
        cur + s
    } else if target < cur {
        cur - s
    } else {
        cur
    }
}

fn counted_down(t: u32, dt: u32) -> (r: Option<u32>)
    ensures
        r == count_down(t, dt),
{
    if t <= dt { None } else { Some(t - dt) }
}

impl SectorEffectorComponent {
    /// A tag event for `lotag`: a reached effector wakes and its state
    /// reverses (see `kind_toggled`).
    pub fn activate_tag(&mut self, lotag: i16)
        ensures
            *final(self) == tag_activated(*old(self), lotag),
    {
        if !(self.lotag == lotag || (self.hitag != 0 && self.hitag == lotag)) {
            return;
        }
        self.active = true;
        self.kind = match self.kind {
            EffectorKind::Elevator { orig_floor_z, target_floor_z, current_floor_z, orig_ceil_z, target_ceil_z, current_ceil_z, speed, is_at_top, auto_return_timer: _ } =>
                EffectorKind::Elevator {
                    orig_floor_z, target_floor_z, current_floor_z, orig_ceil_z, target_ceil_z, current_ceil_z, speed,
                    is_at_top: !is_at_top,
                    auto_return_timer: if !is_at_top { Some(5000) } else { None },
                },
            EffectorKind::DropFloor { orig_floor_z, target_floor_z, current_floor_z, speed, is_dropped: _ } =>
                EffectorKind::DropFloor { orig_floor_z, target_floor_z, current_floor_z, speed, is_dropped: true },
            EffectorKind::LightSwitchOperator { is_on, on_shade, off_shade } =>
                EffectorKind::LightSwitchOperator { is_on: !is_on, on_shade, off_shade },
            EffectorKind::AutoCloseDoor { orig_ceil_z, open_ceil_z, current_ceil_z, speed, auto_close_timer, auto_close_delay, is_open } =>
                EffectorKind::AutoCloseDoor {
                    orig_ceil_z, open_ceil_z, current_ceil_z, speed, auto_close_delay,
                    is_open: !is_open,
                    auto_close_timer: if !is_open { Some(auto_close_delay) } else { auto_close_timer },
                },
            EffectorKind::StretchCeiling { orig_ceil_z, target_ceil_z, current_ceil_z, speed, is_stretched } =>
                EffectorKind::StretchCeiling { orig_ceil_z, target_ceil_z, current_ceil_z, speed, is_stretched: !is_stretched },
            k => k,
        };
    }

    /// One frame of `dt_ms` milliseconds in which the effector's speed
    /// carries it `step` units (see `kind_ticked`).
    pub fn update(&mut self, dt_ms: u32, step: i32)
        requires
            old(self).active ==> tick_fits(old(self).kind, step),
        ensures
            *final(self) == effector_ticked(*old(self), dt_ms, step),
    {
        if !self.active {
            return;
        }
        let mut stop = false;
        self.kind = match self.kind {
            EffectorKind::Elevator { orig_floor_z, target_floor_z, current_floor_z, orig_ceil_z, target_ceil_z, current_ceil_z, speed, is_at_top, auto_return_timer } => {
                let target = if is_at_top { target_floor_z } else { orig_floor_z };
                let s = if step < 1 { 1 } else { step };
                let d: i32 = if current_floor_z >= target { current_floor_z - target } else { target - current_floor_z };
                let cur = move_toward(current_floor_z, target, s);
                let mut at_top = is_at_top;
                let mut timer = auto_return_timer;
                if d <= s {
                    if !is_at_top {
                        stop = cur == orig_floor_z;
                    } else {
                        match auto_return_timer {
                            Some(t) => {
                                match counted_down(t, dt_ms) {
                                    None => {
                                        at_top = false;
                                        timer = None;
                                    },
                                    Some(t2) => {
                                        timer = Some(t2);
                                    },
                                }
                            },
                            None => {
                                stop = true;
                            },
                        }
                    }
                }
                EffectorKind::Elevator {
                    orig_floor_z, target_floor_z, current_floor_z: cur, orig_ceil_z, target_ceil_z, current_ceil_z, speed,
                    is_at_top: at_top, auto_return_timer: timer,
                }
            },
            EffectorKind::DropFloor { orig_floor_z, target_floor_z, current_floor_z, speed, is_dropped } => {
                if is_dropped {
                    let s = if step < 1 { 1 } else { step };
                    let d: i32 = if current_floor_z >= target_floor_z { current_floor_z - target_floor_z } else { target_floor_z - current_floor_z };
                    stop = d <= s;
                    EffectorKind::DropFloor {
                        orig_floor_z, target_floor_z, speed, is_dropped,
                        current_floor_z: move_toward(current_floor_z, target_floor_z, s),
                    }
                } else {
                    self.kind
                }
            },
            EffectorKind::AutoCloseDoor { orig_ceil_z, open_ceil_z, current_ceil_z, speed, auto_close_timer, auto_close_delay, is_open } => {
                let target = if is_open { open_ceil_z } else { orig_ceil_z };
                if target != current_ceil_z {
                    EffectorKind::AutoCloseDoor {
                        orig_ceil_z, open_ceil_z, speed, auto_close_timer, auto_close_delay, is_open,
                        current_ceil_z: move_toward(current_ceil_z, target, step),
                    }
                } else if is_open {
                    match auto_close_timer {
                        Some(t) => match counted_down(t, dt_ms) {
                            None => EffectorKind::AutoCloseDoor {
                                orig_ceil_z, open_ceil_z, current_ceil_z, speed, auto_close_delay,
                                auto_close_timer: None, is_open: false,
                            },
                            Some(t2) => EffectorKind::AutoCloseDoor {
                                orig_ceil_z, open_ceil_z, current_ceil_z, speed, auto_close_delay,
                                auto_close_timer: Some(t2), is_open,
                            },
                        },
                        None => self.kind,
                    }
                } else {
                    stop = true;
                    self.kind
                }
            },
            EffectorKind::StretchCeiling { orig_ceil_z, target_ceil_z, current_ceil_z, speed, is_stretched } => {
                let target = if is_stretched { target_ceil_z } else { orig_ceil_z };
                let d: i32 = if current_ceil_z >= target { current_ceil_z - target } else { target - current_ceil_z };
                stop = d <= step;
                EffectorKind::StretchCeiling {
                    orig_ceil_z, target_ceil_z, speed, is_stretched,
                    current_ceil_z: move_toward(current_ceil_z, target, step),
                }
            },
            EffectorKind::CrusherSector { min_z, max_z, current_z, speed, crushing_ceiling, moving_down } => {
                if moving_down {
                    let z = current_z + step;
                    if z >= max_z {
                        EffectorKind::CrusherSector { min_z, max_z, speed, crushing_ceiling, current_z: max_z, moving_down: false }
                    } else {
                        EffectorKind::CrusherSector { min_z, max_z, speed, crushing_ceiling, current_z: z, moving_down }
                    }
                } else {
                    let z = current_z - step;
                    if z <= min_z {
                        EffectorKind::CrusherSector { min_z, max_z, speed, crushing_ceiling, current_z: min_z, moving_down: true }
                    } else {
                        EffectorKind::CrusherSector { min_z, max_z, speed, crushing_ceiling, current_z: z, moving_down }
                    }
                }
            },
            EffectorKind::ShootingGlassPane { health, is_shattered } => {
                if health <= 0 && !is_shattered {
                    stop = true;
                    EffectorKind::ShootingGlassPane { health, is_shattered: true }
                } else {
                    self.kind
                }
            },
            k => k,
        };
        if stop {
            self.active = false;
        }
    }
}

/// Sends a tag event to every effector in the level.
pub fn handle_tag_activations(effectors: &mut Vec<SectorEffectorComponent>, event: ActivateTagEvent)
    ensures
        final(effectors)@.len() == old(effectors)@.len(),
        forall|i: int| 0 <= i < final(effectors)@.len() ==> #[trigger] final(effectors)@[i] == tag_activated(old(effectors)@[i], event.lotag),
{
    let n = effectors.len();
    let mut i: usize = 0;
    while i < n
        invariant
            n == old(effectors)@.len(),
            effectors@.len() == n,
            i <= n,
            forall|j: int| 0 <= j < i ==> #[trigger] effectors@[j] == tag_activated(old(effectors)@[j], event.lotag),
            forall|j: int| i <= j < n ==> #[trigger] effectors@[j] == old(effectors)@[j],
        decreases n - i,
    {
        let mut e = effectors[i];
        e.activate_tag(event.lotag);
        effectors.set(i, e);
        i += 1;
    }
}

/// One frame for every effector of the level: `steps[i]` is how far the
/// speed of effector `i` carries it this frame.
pub fn update_sector_effectors(effectors: &mut Vec<SectorEffectorComponent>, dt_ms: u32, steps: &Vec<i32>)
    requires
        steps@.len() == old(effectors)@.len(),
        forall|i: int| 0 <= i < steps@.len() ==> (#[trigger] old(effectors)@[i]).active ==> tick_fits(old(effectors)@[i].kind, steps@[i]),
    ensures
        final(effectors)@.len() == old(effectors)@.len(),
        forall|i: int| 0 <= i < final(effectors)@.len() ==>
            #[trigger] final(effectors)@[i] == effector_ticked(old(effectors)@[i], dt_ms, steps@[i]),
{
    let n = effectors.len();
    let mut i: usize = 0;
    while i < n
        invariant
            n == old(effectors)@.len(),
            n == steps@.len(),
            effectors@.len() == n,
            i <= n,
            forall|j: int| 0 <= j < n ==> (#[trigger] old(effectors)@[j]).active ==> tick_fits(old(effectors)@[j].kind, steps@[j]),
            forall|j: int| 0 <= j < i ==> #[trigger] effectors@[j] == effector_ticked(old(effectors)@[j], dt_ms, steps@[j]),
            forall|j: int| i <= j < n ==> #[trigger] effectors@[j] == old(effectors)@[j],
        decreases n - i,
    {
        let mut e = effectors[i];
        e.update(dt_ms, steps[i]);
        effectors.set(i, e);
        i += 1;
    }
}

/// What a sprite of the map puts into the level.
#[derive(Debug, Clone, Copy, PartialEq, Eq, Structural)]
pub enum SpriteElement {
    /// A sector effector that moves by Build units.
    Effector(SectorEffectorComponent),
    /// A sector effector of a rotating, sliding, lighting or travelling
    /// kind, which the frame loop builds from the sprite.
    FrameLoopEffector,
    Touchplate(Touchplate),
    Activator(Activator),
    Nothing,
}

/// The kind of effector a sector effector sprite (tile 1) sets up, for the
/// kinds that move by Build units: lifts (lotag 17 and 18) rise 64 × 1024
/// units, a drop floor (21) falls as far, a light switch operator (12).
pub open spec fn sprite_effector_kind(s: Sprite) -> Option<EffectorKind> {
    if s.lotag == 17 || s.lotag == 18 {
        Some(EffectorKind::Elevator {
            orig_floor_z: s.z,
            target_floor_z: (s.z - 65536) as i32,
            current_floor_z: s.z,
            orig_ceil_z: (s.z - 131072) as i32,
            target_ceil_z: (s.z - 196608) as i32,
            current_ceil_z: (s.z - 131072) as i32,
            speed: 16,
            is_at_top: false,
            auto_return_timer: None,
        })
    } else if s.lotag == 12 {
        Some(EffectorKind::LightSwitchOperator { is_on: true, on_shade: 0, off_shade: 25 })
    } else if s.lotag == 21 {
        Some(EffectorKind::DropFloor {
            orig_floor_z: s.z,
            target_floor_z: (s.z + 65536) as i32,
            current_floor_z: s.z,
            speed: 20,
            is_dropped: false,
        })
    } else {
        None
    }
}

/// What a sprite sets up: tile 1 an effector, tile 3 a touchplate,
/// tile 2 an activator.
pub open spec fn sprite_element(s: Sprite) -> SpriteElement {
    if s.picnum == 1 {
        match sprite_effector_kind(s) {
            Some(k) => SpriteElement::Effector(SectorEffectorComponent {
                sector_idx: s.sectnum as usize,
                lotag: s.lotag,
                hitag: s.hitag,
                kind: k,
                active: false,
            }),
            None => SpriteElement::FrameLoopEffector,
        }
    } else if s.picnum == 3 {
        SpriteElement::Touchplate(Touchplate { lotag: s.lotag, hitag: s.hitag, triggered: false })
    } else if s.picnum == 2 {
        SpriteElement::Activator(Activator { lotag: s.lotag, hitag: s.hitag })
    } else {
        SpriteElement::Nothing
    }
}

/// A lift or drop floor sprite sits far enough from the ends of `i32` for
/// its heights to be worked out.
pub open spec fn sprite_heights_fit(s: Sprite) -> bool {
    s.picnum == 1 && (s.lotag == 17 || s.lotag == 18 || s.lotag == 21) ==> i32::MIN + 196608 <= s.z <= i32::MAX - 65536
}

pub fn sprite_to_element(s: &Sprite) -> (e: SpriteElement)
    requires
        sprite_heights_fit(*s),
    ensures
        e == sprite_element(*s),
{
    if s.picnum == 1 {
        let kind = if s.lotag == 17 || s.lotag == 18 {
            Some(EffectorKind::Elevator {
                orig_floor_z: s.z,
                target_floor_z: s.z - 65536,
                current_floor_z: s.z,
                orig_ceil_z: s.z - 131072,
                target_ceil_z: s.z - 196608,
                current_ceil_z: s.z - 131072,
                speed: 16,
                is_at_top: false,
                auto_return_timer: None,
            })
        } else if s.lotag == 12 {
            Some(EffectorKind::LightSwitchOperator { is_on: true, on_shade: 0, off_shade: 25 })
        } else if s.lotag == 21 {
            Some(EffectorKind::DropFloor {
                orig_floor_z: s.z,
                target_floor_z: s.z + 65536,
                current_floor_z: s.z,
                speed: 20,
                is_dropped: false,
            })
        } else {
            None
        };
        match kind {
            Some(k) => SpriteElement::Effector(SectorEffectorComponent {
                sector_idx: s.sectnum as usize,
                lotag: s.lotag,
                hitag: s.hitag,
                kind: k,
                active: false,
            }),
            None => SpriteElement::FrameLoopEffector,
        }
    } else if s.picnum == 3 {
        SpriteElement::Touchplate(Touchplate { lotag: s.lotag, hitag: s.hitag, triggered: false })
    } else if s.picnum == 2 {
        SpriteElement::Activator(Activator { lotag: s.lotag, hitag: s.hitag })
    } else {
        SpriteElement::Nothing
    }
}

/// What each sprite of the map sets up, in sprite order.
pub fn spawn_interactive_elements_from_map(map: &BuildMap) -> (v: Vec<SpriteElement>)
    requires
        forall|i: int| 0 <= i < map.sprites@.len() ==> sprite_heights_fit(#[trigger] map.sprites@[i]),
    ensures
        v@.len() == map.sprites@.len(),
        forall|i: int| 0 <= i < v@.len() ==> #[trigger] v@[i] == sprite_element(map.sprites@[i]),
{
    let mut v: Vec<SpriteElement> = Vec::new();
    let n = map.sprites.len();
    let mut i: usize = 0;
    while i < n
        invariant
            n == map.sprites@.len(),
            i <= n,
            v@.len() == i,
            forall|j: int| 0 <= j < map.sprites@.len() ==> sprite_heights_fit(#[trigger] map.sprites@[j]),
            forall|j: int| 0 <= j < i ==> #[trigger] v@[j] == sprite_element(map.sprites@[j]),
        decreases n - i,
    {
        let e = sprite_to_element(&map.sprites[i]);
        v.push(e);
        i += 1;
    }
    v
}

/// A lift or door moving toward its target never passes it: it ends on
/// the target or strictly between where it was and the target.
pub proof fn lemma_approach_stays_between(cur: int, target: int, s: int)
    requires
        0 <= s,
    ensures
        cur <= target ==> cur <= approach(cur, target, s) <= target,
        target <= cur ==> target <= approach(cur, target, s) <= cur,
        approach(cur, target, s) == target || (if cur <= target { approach(cur, target, s) - cur } else { cur - approach(cur, target, s) }) == s,
{
}

/// A light switch or a stretching ceiling reached twice by the same tag is
/// back in its first state (and awake).
pub proof fn lemma_tag_twice(e: SectorEffectorComponent, lotag: i16)
    requires
        tag_reaches(e, lotag),
        e.kind is LightSwitchOperator || e.kind is StretchCeiling,
    ensures
        tag_activated(tag_activated(e, lotag), lotag) == (SectorEffectorComponent { active: true, ..e }),
{
}

} // verus!
