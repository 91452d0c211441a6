//! Enemies: their kinds and starting health, the damage they take, what
//! ends their frozen, shrunk and inflated states, and what the enemy
//! script's shots turn into.
use vstd::prelude::*;
use crate::player::PlayerController;

verus! {

/// What a shot turns into.
#[derive(Debug, Clone, Copy, PartialEq, Eq, Structural)]
pub enum ProjectileType {
    HitscanBullet,
    ShotgunPellet,
    MightyBoot,
    Rocket,
    Pipebomb,
    ShrinkRay,
    DevastatorMissile,
    FreezeShard,
    ExpanderRay,
    AlienBlaster,
    PsiBlast,
    Mortar,
    Spit,
}

/// How many angles a sprite is drawn from.
#[derive(Debug, Clone, Copy, PartialEq, Eq, Structural)]
pub enum SpriteViewType {
    SingleView,
    FiveViewMirror,
    EightView,
}

#[derive(Debug, Clone, Copy, PartialEq, Eq, Structural)]
pub enum EnemyKind {
    Liztroop,
    AssaultCaptain,
    Pigcop,
    ReconCar,
    RiotTank,
    Octabrain,
    ProtozoidEgg,
    ProtozoidSlimer,
    Enforcer,
    AssaultCommander,
    SentryDrone,
    Shark,
    ProtectorDrone,
    Turret,
    Boss1Battlelord,
    Boss1Mini,
    Boss2Overlord,
    Boss3Cycloid,
    Boss4Queen,
}

#[derive(Debug, Clone, Copy, PartialEq, Eq, Structural)]
pub enum EnemyAiState {
    Idle,
    Patrol,
    Seeking,
    Attacking,
    Flinching,
    Frozen,
    Expanding,
    Dying,
    Gibbed,
}

/// What hurt something.
#[derive(Debug, Clone, Copy, PartialEq, Eq, Structural)]
pub enum DamageSource {
    PlayerWeapon(ProjectileType),
    EnemyWeapon(ProjectileType),
    Explosion,
    Environmental,
}

/// An enemy's kind, behaviour state, health and status flags. Its speed,
/// sight and attack ranges and the timers of its status effects are real
/// numbers that the frame loop keeps beside it.
#[derive(Debug, Clone, Copy, PartialEq, Eq, Structural)]
pub struct EnemyActor {
    pub kind: EnemyKind,
    pub state: EnemyAiState,
    pub health: i32,
    pub max_health: i32,
    pub is_shrunk: bool,
    pub is_frozen: bool,
    pub is_expanding: bool,
}

/// The health each kind of enemy starts with.
pub open spec fn base_health(kind: EnemyKind) -> i32 {
    match kind {
        EnemyKind::Liztroop => 30,
        EnemyKind::AssaultCaptain => 60,
        EnemyKind::Pigcop => 100,
        EnemyKind::ReconCar => 50,
        EnemyKind::RiotTank => 500,
        EnemyKind::Octabrain => 175,
        EnemyKind::ProtozoidEgg => 20,
        EnemyKind::ProtozoidSlimer => 1,
        EnemyKind::Enforcer => 120,
        EnemyKind::AssaultCommander => 350,
        EnemyKind::SentryDrone => 150,
        EnemyKind::Shark => 35,
        EnemyKind::ProtectorDrone => 300,
        EnemyKind::Turret => 40,
        EnemyKind::Boss1Battlelord => 4500,
        EnemyKind::Boss1Mini => 1000,
        EnemyKind::Boss2Overlord => 4500,
        EnemyKind::Boss3Cycloid => 4500,
        EnemyKind::Boss4Queen => 6000,
    }
}

/// An enemy of `kind` as it spawns: idle, at full health, no status effect.
pub open spec fn fresh_enemy(kind: EnemyKind) -> EnemyActor {
    EnemyActor {
        kind,
        state: EnemyAiState::Idle,
        health: base_health(kind),
        max_health: base_health(kind),
        is_shrunk: false,
        is_frozen: false,
        is_expanding: false,
    }
}

/// The end bosses, whose death Duke always remarks on.
pub open spec fn is_boss(kind: EnemyKind) -> bool {
    kind == EnemyKind::Boss1Battlelord || kind == EnemyKind::Boss2Overlord
        || kind == EnemyKind::Boss3Cycloid || kind == EnemyKind::Boss4Queen
}

/// The big enemies that crush a player standing at their feet.
pub open spec fn stomps(kind: EnemyKind) -> bool {
    is_boss(kind) || kind == EnemyKind::Boss1Mini
}

impl EnemyKind {
    pub fn is_boss(&self) -> (b: bool)
        ensures
            b == is_boss(*self),
    {
        matches!(self, EnemyKind::Boss1Battlelord | EnemyKind::Boss2Overlord | EnemyKind::Boss3Cycloid | EnemyKind::Boss4Queen)
    }

    pub fn stomps(&self) -> (b: bool)
        ensures
            b == stomps(*self),
    {
        self.is_boss() || matches!(self, EnemyKind::Boss1Mini)
    }
}

impl EnemyActor {
    fn spawn(kind: EnemyKind, hp: i32) -> (e: Self)
        requires
            hp == base_health(kind),
        ensures
            e == fresh_enemy(kind),
    {
        EnemyActor {
            kind,
            state: EnemyAiState::Idle,
            health: hp,
            max_health: hp,
            is_shrunk: false,
            is_frozen: false,
            is_expanding: false,
        }
    }

    pub fn new_pigcop() -> (e: Self)
        ensures
            e == fresh_enemy(EnemyKind::Pigcop),
    {
        Self::spawn(EnemyKind::Pigcop, 100)
    }

    pub fn new_liztroop() -> (e: Self)
        ensures
            e == fresh_enemy(EnemyKind::Liztroop),
    {
        Self::spawn(EnemyKind::Liztroop, 30)
    }

    pub fn new_captain() -> (e: Self)
        ensures
            e == fresh_enemy(EnemyKind::AssaultCaptain),
    {
        Self::spawn(EnemyKind::AssaultCaptain, 60)
    }

    pub fn new_octabrain() -> (e: Self)
        ensures
            e == fresh_enemy(EnemyKind::Octabrain),
    {
        Self::spawn(EnemyKind::Octabrain, 175)
    }

    pub fn new_enforcer() -> (e: Self)
        ensures
            e == fresh_enemy(EnemyKind::Enforcer),
    {
        Self::spawn(EnemyKind::Enforcer, 120)
    }

    pub fn new_recon() -> (e: Self)
        ensures
            e == fresh_enemy(EnemyKind::ReconCar),
    {
        Self::spawn(EnemyKind::ReconCar, 50)
    }

    pub fn new_tank() -> (e: Self)
        ensures
            e == fresh_enemy(EnemyKind::RiotTank),
    {
        Self::spawn(EnemyKind::RiotTank, 500)
    }

    pub fn new_egg() -> (e: Self)
        ensures
            e == fresh_enemy(EnemyKind::ProtozoidEgg),
    {
        Self::spawn(EnemyKind::ProtozoidEgg, 20)
    }

    pub fn new_slimer() -> (e: Self)
        ensures
            e == fresh_enemy(EnemyKind::ProtozoidSlimer),
    {
        Self::spawn(EnemyKind::ProtozoidSlimer, 1)
    }

    pub fn new_commander() -> (e: Self)
        ensures
            e == fresh_enemy(EnemyKind::AssaultCommander),
    {
        Self::spawn(EnemyKind::AssaultCommander, 350)
    }

    pub fn new_drone() -> (e: Self)
        ensures
            e == fresh_enemy(EnemyKind::SentryDrone),
    {
        Self::spawn(EnemyKind::SentryDrone, 150)
    }

    pub fn new_shark() -> (e: Self)
        ensures
            e == fresh_enemy(EnemyKind::Shark),
    {
        Self::spawn(EnemyKind::Shark, 35)
    }

    pub fn new_protector_drone() -> (e: Self)
        ensures
            e == fresh_enemy(EnemyKind::ProtectorDrone),
    {
        Self::spawn(EnemyKind::ProtectorDrone, 300)
    }

    pub fn new_turret() -> (e: Self)
        ensures
            e == fresh_enemy(EnemyKind::Turret),
    {
        Self::spawn(EnemyKind::Turret, 40)
    }

    /// The Battlelord, or its smaller version.
    pub fn new_battlelord(is_mini: bool) -> (e: Self)
        ensures
            e == fresh_enemy(if is_mini { EnemyKind::Boss1Mini } else { EnemyKind::Boss1Battlelord }),
    {
        if is_mini {
            Self::spawn(EnemyKind::Boss1Mini, 1000)
        } else {
            Self::spawn(EnemyKind::Boss1Battlelord, 4500)
        }
    }

    pub fn new_overlord() -> (e: Self)
        ensures
            e == fresh_enemy(EnemyKind::Boss2Overlord),
    {
        Self::spawn(EnemyKind::Boss2Overlord, 4500)
    }

    pub fn new_cycloid() -> (e: Self)
        ensures
            e == fresh_enemy(EnemyKind::Boss3Cycloid),
    {
        Self::spawn(EnemyKind::Boss3Cycloid, 4500)
    }

    pub fn new_queen() -> (e: Self)
        ensures
            e == fresh_enemy(EnemyKind::Boss4Queen),
    {
        Self::spawn(EnemyKind::Boss4Queen, 6000)
    }
}


/// Whether Duke speaks after a kill.
#[derive(Debug, Clone, Copy, PartialEq, Eq, Structural)]
pub enum VoiceCue {
    Silent,
    /// A random one-liner, said with this chance in percent.
    RandomQuip(u8),
    /// "Rest in pieces", after an end boss dies.
    RestInPieces,
}

/// What a hit on an enemy sets off: a sound, gibs flying (none when zero)
/// and a line from Duke.
#[derive(Debug, Clone, Copy, PartialEq, Eq, Structural)]
pub struct DamageReaction {
    pub sound_id: Option<i32>,
    pub gib_count: usize,
    pub voice: VoiceCue,
}

pub open spec fn death_sound(kind: EnemyKind) -> i32 {
    match kind {
        EnemyKind::Pigcop => 539,
        EnemyKind::Liztroop => 512,
        EnemyKind::Octabrain => 573,
        _ => 512,
    }
}

pub open spec fn pain_sound(kind: EnemyKind) -> i32 {
    match kind {
        EnemyKind::Pigcop => 538,
        EnemyKind::Liztroop => 511,
        EnemyKind::Octabrain => 572,
        _ => 511,
    }
}

/// Health at or below this blows the enemy apart.
pub const GIB_HEALTH: i32 = -40;

/// An enemy after a hit of `amount`, and what the hit sets off. A gibbed
/// enemy takes no more damage; a frozen one shatters; otherwise the health
/// drops by the amount, and the enemy is gibbed, dies or flinches.
pub open spec fn damaged(e: EnemyActor, amount: int) -> (EnemyActor, DamageReaction) {
    if e.state == EnemyAiState::Gibbed {
        (e, DamageReaction { sound_id: None, gib_count: 0, voice: VoiceCue::Silent })
    } else if e.state == EnemyAiState::Frozen {
        (EnemyActor { health: -50i32, state: EnemyAiState::Gibbed, ..e },
         DamageReaction { sound_id: Some(19), gib_count: 8, voice: VoiceCue::Silent })
    } else {
        let h = e.health - amount;
        if h <= GIB_HEALTH {
            (EnemyActor { health: h as i32, state: EnemyAiState::Gibbed, ..e },
             DamageReaction { sound_id: Some(69), gib_count: 6, voice: VoiceCue::RandomQuip(30) })
        } else if h <= 0 {
            (EnemyActor { health: h as i32, state: EnemyAiState::Dying, ..e },
             DamageReaction {
                sound_id: Some(death_sound(e.kind)),
                gib_count: 0,
                voice: if is_boss(e.kind) { VoiceCue::RestInPieces } else { VoiceCue::RandomQuip(20) },
            })
        } else {
            (EnemyActor { health: h as i32, state: EnemyAiState::Flinching, ..e },
             DamageReaction { sound_id: Some(pain_sound(e.kind)), gib_count: 0, voice: VoiceCue::Silent })
        }
    }
}

/// The hit must not take the health below the least `i32`.
pub open spec fn damage_fits(e: EnemyActor, amount: int) -> bool {
    e.state == EnemyAiState::Gibbed || e.state == EnemyAiState::Frozen
        || (i32::MIN <= e.health - amount <= i32::MAX)
}

/// `a - b` held within the range of `i32`.
pub open spec fn saturating_diff(a: int, b: int) -> int {
    if a - b < i32::MIN { i32::MIN as int } else if a - b > i32::MAX { i32::MAX as int } else { a - b }
}

/// A blast that a popped, inflated enemy sets off: two sounds, gibs and
/// damage around it.
#[derive(Debug, Clone, Copy, PartialEq, Eq, Structural)]
pub struct PopBlast {
    pub first_sound: i32,
    pub second_sound: i32,
    pub gib_count: usize,
    pub damage: i32,
}

impl EnemyActor {
    /// Takes a hit of `amount` (see `damaged`).
    pub fn take_damage(&mut self, amount: i32) -> (r: DamageReaction)
        requires
            damage_fits(*old(self), amount as int),
        ensures
            (*final(self), r) == damaged(*old(self), amount as int),
    {
        if self.state == EnemyAiState::Gibbed {
            return DamageReaction { sound_id: None, gib_count: 0, voice: VoiceCue::Silent };
        }
        if self.state == EnemyAiState::Frozen {
            self.health = -50;
            self.state = EnemyAiState::Gibbed;
            return DamageReaction { sound_id: Some(19), gib_count: 8, voice: VoiceCue::Silent };
        }
        self.health = self.health - amount;
        if self.health <= GIB_HEALTH {
            self.state = EnemyAiState::Gibbed;
            DamageReaction { sound_id: Some(69), gib_count: 6, voice: VoiceCue::RandomQuip(30) }
        } else if self.health <= 0 {
            self.state = EnemyAiState::Dying;
            let voice = if self.kind.is_boss() { VoiceCue::RestInPieces } else { VoiceCue::RandomQuip(20) };
            let die_snd: i32 = match self.kind {
                EnemyKind::Pigcop => 539,
                EnemyKind::Liztroop => 512,
                EnemyKind::Octabrain => 573,
                _ => 512,
            };
            DamageReaction { sound_id: Some(die_snd), gib_count: 0, voice }
        } else {
            self.state = EnemyAiState::Flinching;
            let pain_snd: i32 = match self.kind {
                EnemyKind::Pigcop => 538,
                EnemyKind::Liztroop => 511,
                EnemyKind::Octabrain => 572,
                _ => 511,
            };
            DamageReaction { sound_id: Some(pain_snd), gib_count: 0, voice: VoiceCue::Silent }
        }
    }

    /// A player's projectile of `kind` carrying `damage` struck the enemy.
    /// A shrink ray shrinks it; a freeze shard or expander shot that is
    /// going to bring its health to zero freezes or inflates it first.
    /// Dying and gibbed enemies are not struck.
    pub fn hit_by_projectile(&mut self, kind: ProjectileType, damage: i32)
        requires
            i32::MIN <= old(self).health - damage <= i32::MAX,
        ensures
            *final(self) == (if old(self).state == EnemyAiState::Dying || old(self).state == EnemyAiState::Gibbed {
                *old(self)
            } else if kind == ProjectileType::ShrinkRay {
                EnemyActor { is_shrunk: true, ..*old(self) }
            } else if kind == ProjectileType::FreezeShard && old(self).health - damage <= 0 {
                EnemyActor { is_frozen: true, state: EnemyAiState::Frozen, ..*old(self) }
            } else if kind == ProjectileType::ExpanderRay && old(self).health - damage <= 0 {
                EnemyActor { is_expanding: true, state: EnemyAiState::Expanding, ..*old(self) }
            } else {
                *old(self)
            }),
    {
        if self.state == EnemyAiState::Dying || self.state == EnemyAiState::Gibbed {
            return;
        }
        match kind {
            ProjectileType::ShrinkRay => {
                self.is_shrunk = true;
            },
            ProjectileType::FreezeShard => {
                if self.health - damage <= 0 {
                    self.is_frozen = true;
                    self.state = EnemyAiState::Frozen;
                }
            },
            ProjectileType::ExpanderRay => {
                if self.health - damage <= 0 {
                    self.is_expanding = true;
                    self.state = EnemyAiState::Expanding;
                }
            },
            _ => {},
        }
    }

    /// The player walked onto the shrunk enemy: returns the crushing
    /// damage to deal (`None` when it is not shrunk, or dying or gibbed)
    /// and ends the shrink.
    pub fn squish(&mut self) -> (dmg: Option<i32>)
        ensures
            (old(self).is_shrunk && old(self).state != EnemyAiState::Gibbed && old(self).state != EnemyAiState::Dying) ==> {
                &&& dmg == Some(1000i32)
                &&& *final(self) == (EnemyActor { is_shrunk: false, ..*old(self) })
            },
            !(old(self).is_shrunk && old(self).state != EnemyAiState::Gibbed && old(self).state != EnemyAiState::Dying) ==> {
                &&& dmg is None
                &&& *final(self) == *old(self)
            },
    {
        if self.is_shrunk && self.state != EnemyAiState::Gibbed && self.state != EnemyAiState::Dying {
            self.is_shrunk = false;
            Some(1000)
        } else {
            None
        }
    }

    /// The freeze wore off: the enemy thaws with one hit point and goes
    /// looking for the player.
    pub fn end_freeze(&mut self)
        ensures
            *final(self) == (EnemyActor { is_frozen: false, state: EnemyAiState::Seeking, health: 1, ..*old(self) }),
    {
        self.is_frozen = false;
        self.state = EnemyAiState::Seeking;
        self.health = 1;
    }

    /// The shrink wore off.
    pub fn end_shrink(&mut self)
        ensures
            *final(self) == (EnemyActor { is_shrunk: false, ..*old(self) }),
    {
        self.is_shrunk = false;
    }

    /// The inflation ran its course: the enemy pops.
    pub fn end_expansion(&mut self) -> (b: PopBlast)
        ensures
            *final(self) == (EnemyActor { is_expanding: false, state: EnemyAiState::Gibbed, health: -100i32, ..*old(self) }),
            b == (PopBlast { first_sound: 14, second_sound: 69, gib_count: 12, damage: 80 }),
    {
        self.is_expanding = false;
        self.state = EnemyAiState::Gibbed;
        self.health = -100;
        PopBlast { first_sound: 14, second_sound: 69, gib_count: 12, damage: 80 }
    }
}

/// An enemy after this frame's status timers: a shrink, freeze or
/// inflation whose timer ran out (as the frame loop reports) ends, in that
/// order.
pub open spec fn status_updated(e: EnemyActor, shrink_over: bool, freeze_over: bool, expansion_over: bool) -> EnemyActor {
    let e1 = if e.is_shrunk && shrink_over { EnemyActor { is_shrunk: false, ..e } } else { e };
    let e2 = if e1.is_frozen && freeze_over {
        EnemyActor { is_frozen: false, state: EnemyAiState::Seeking, health: 1, ..e1 }
    } else {
        e1
    };
    if e2.is_expanding && expansion_over {
        EnemyActor { is_expanding: false, state: EnemyAiState::Gibbed, health: -100i32, ..e2 }
    } else {
        e2
    }
}

/// Ends the status effects whose timers ran out this frame (see
/// `status_updated`); returns the blast of an enemy that popped.
pub fn update_enemy_status_effects(enemy: &mut EnemyActor, shrink_over: bool, freeze_over: bool, expansion_over: bool)
    -> (blast: Option<PopBlast>)
    ensures
        *final(enemy) == status_updated(*old(enemy), shrink_over, freeze_over, expansion_over),
        blast == (if status_updated(*old(enemy), shrink_over, freeze_over, false).is_expanding && expansion_over {
            Some(PopBlast { first_sound: 14, second_sound: 69, gib_count: 12, damage: 80 })
        } else {
            None
        }),
{
    if enemy.is_shrunk && shrink_over {
        enemy.end_shrink();
    }
    if enemy.is_frozen && freeze_over {
        enemy.end_freeze();
    }
    if enemy.is_expanding && expansion_over {
        Some(enemy.end_expansion())
    } else {
        None
    }
}

/// A player takes `amount` of damage: the health drops, held within `i32`,
/// and the sound is Duke dying when it reaches exactly zero, else his pain.
pub fn damage_player(player: &mut PlayerController, amount: i32) -> (sound_id: i32)
    ensures
        *final(player) == (PlayerController { health: saturating_diff(old(player).health as int, amount as int) as i32, ..*old(player) }),
        sound_id == (if final(player).health == 0 { 41i32 } else { 37i32 }),
{
    let d: i64 = player.health as i64 - amount as i64;
    let h: i32 = if d < i32::MIN as i64 { i32::MIN } else if d > i32::MAX as i64 { i32::MAX } else { d as i32 };
    player.health = h;
    if h == 0 { 41 } else { 37 }
}

/// What a shot of the enemy script's projectile tile becomes: its kind,
/// speed (whole units per second) and damage.
pub open spec fn tile_projectile(tile: i16) -> (ProjectileType, u32, i32) {
    if tile == 1625 { (ProjectileType::AlienBlaster, 50, 7) }
    else if tile == 1636 { (ProjectileType::Spit, 35, 8) }
    else if tile == 1641 { (ProjectileType::FreezeShard, 45, 20) }
    else if tile == 1646 || tile == 2556 { (ProjectileType::ShrinkRay, 40, 0) }
    else if tile == 1650 { (ProjectileType::Mortar, 30, 50) }
    else if tile == 2595 { (ProjectileType::HitscanBullet, 150, 9) }
    else if tile == 2605 { (ProjectileType::Rocket, 45, 140) }
    else if tile == 2613 { (ProjectileType::ShotgunPellet, 80, 10) }
    else if tile == 1360 { (ProjectileType::PsiBlast, 30, 38) }
    else { (ProjectileType::HitscanBullet, 100, 10) }
}

pub fn map_tile_to_projectile(tile: i16) -> (r: (ProjectileType, u32, i32))
    ensures
        r == tile_projectile(tile),
{
    match tile {
        1625 => (ProjectileType::AlienBlaster, 50, 7),
        1636 => (ProjectileType::Spit, 35, 8),
        1641 => (ProjectileType::FreezeShard, 45, 20),
        1646 | 2556 => (ProjectileType::ShrinkRay, 40, 0),
        1650 => (ProjectileType::Mortar, 30, 50),
        2595 => (ProjectileType::HitscanBullet, 150, 9),
        2605 => (ProjectileType::Rocket, 45, 140),
        2613 => (ProjectileType::ShotgunPellet, 80, 10),
        1360 => (ProjectileType::PsiBlast, 30, 38),
        _ => (ProjectileType::HitscanBullet, 100, 10),
    }
}

/// How many times a projectile of `kind` bounces off walls.
pub open spec fn spec_bounces(kind: ProjectileType) -> u8 {
    match kind {
        ProjectileType::FreezeShard => 3,
        ProjectileType::Pipebomb => 4,
        _ => 0,
    }
}

pub fn projectile_bounces(kind: ProjectileType) -> (b: u8)
    ensures
        b == spec_bounces(kind),
{
    match kind {
        ProjectileType::FreezeShard => 3,
        ProjectileType::Pipebomb => 4,
        _ => 0,
    }
}

/// What a projectile does when it meets a wall.
#[derive(Debug, Clone, Copy, PartialEq, Eq, Structural)]
pub enum WallImpact {
    /// Explodes with its damage, leaves a scorch mark and plays sound 115.
    Explode,
    /// Bounces off, one bounce fewer left; a pipebomb's bounce plays sound 111.
    Bounce { sound_id: Option<i32> },
    /// A spent freeze shard shatters (sound 118).
    Shatter,
    /// A pipebomb that has no bounce left comes to rest.
    Rest,
    /// Leaves a bullet hole and plays sound 110.
    Puncture,
}

/// The wall impact of a projectile of `kind` with `bounces` left.
pub open spec fn spec_wall_impact(kind: ProjectileType, bounces: u8) -> WallImpact {
    match kind {
        ProjectileType::Rocket | ProjectileType::DevastatorMissile | ProjectileType::Mortar => WallImpact::Explode,
        ProjectileType::FreezeShard => if bounces > 0 { WallImpact::Bounce { sound_id: None } } else { WallImpact::Shatter },
        ProjectileType::Pipebomb => if bounces > 0 { WallImpact::Bounce { sound_id: Some(111) } } else { WallImpact::Rest },
        _ => WallImpact::Puncture,
    }
}

pub fn wall_impact(kind: ProjectileType, bounces: u8) -> (w: WallImpact)
    ensures
        w == spec_wall_impact(kind, bounces),
{
    match kind {
        ProjectileType::Rocket | ProjectileType::DevastatorMissile | ProjectileType::Mortar => WallImpact::Explode,
        ProjectileType::FreezeShard => if bounces > 0 { WallImpact::Bounce { sound_id: None } } else { WallImpact::Shatter },
        ProjectileType::Pipebomb => if bounces > 0 { WallImpact::Bounce { sound_id: Some(111) } } else { WallImpact::Rest },
        _ => WallImpact::Puncture,
    }
}

/// An enemy placed to lie in wait (on a toilet, say) until it notices
/// the player.
#[derive(Debug, Clone, Copy, PartialEq, Eq, Structural)]
pub struct SituationalSpawn {
    pub initial_picnum: i16,
    pub is_dormant: bool,
}

impl SituationalSpawn {
    /// Wakes the actor when it sees the player, was hit or the player came
    /// close. Returns whether the actor acts this frame.
    pub fn wake(&mut self, can_see: bool, was_hit: bool, player_close: bool) -> (acts: bool)
        ensures
            final(self).initial_picnum == old(self).initial_picnum,
            final(self).is_dormant == (old(self).is_dormant && !(can_see || was_hit || player_close)),
            acts == !final(self).is_dormant,
    {
        if self.is_dormant {
            if can_see || was_hit || player_close {
                self.is_dormant = false;
            }
        }
        !self.is_dormant
    }
}

/// Once blown apart, an enemy stays so: no later hit changes it or sets
/// anything off.
pub proof fn lemma_gibbed_is_final(e: EnemyActor, amount: int)
    requires
        e.state == EnemyAiState::Gibbed,
    ensures
        damaged(e, amount).0 == e,
        damaged(e, amount).1.sound_id is None,
        damaged(e, amount).1.gib_count == 0,
{
}

/// A hit on a living, unfrozen enemy takes exactly its amount off the
/// health, and leaves it blown apart, dying or flinching by the health left.
pub proof fn lemma_damage_subtracts(e: EnemyActor, amount: int)
    requires
        e.state != EnemyAiState::Gibbed,
        e.state != EnemyAiState::Frozen,
        damage_fits(e, amount),
    ensures
        damaged(e, amount).0.health == e.health - amount,
        damaged(e, amount).0.kind == e.kind,
        damaged(e, amount).0.max_health == e.max_health,
        (damaged(e, amount).0.state == EnemyAiState::Gibbed) == (e.health - amount <= -40),
        (damaged(e, amount).0.state == EnemyAiState::Dying) == (-40 < e.health - amount <= 0),
        (damaged(e, amount).0.state == EnemyAiState::Flinching) == (e.health - amount > 0),
{
}

} // verus!
