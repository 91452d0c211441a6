//! Game phases, skill levels, level progress and the level-select menu.
use vstd::prelude::*;
use crate::campaign::{CampaignMapInfo, campaign_lookup, campaign_table, maps_of_episode, get_campaign_map,
    get_episode_maps, map_file_name, format_map_file_name};

verus! {

#[derive(Debug, Clone, Copy, PartialEq, Eq, Structural, Hash, Default)]
pub enum GamePhase {
    #[default]
    MainMenu,
    EpisodeSelect,
    SkillSelect,
    Playing,
    Intermission,
    Paused,
}

#[derive(Debug, Clone, Copy, PartialEq, Eq, Structural)]
pub enum SkillLevel {
    PieceOfCake,
    LetsRock,
    ComeGetSome,
    DamnImGood,
}

#[derive(Debug, Clone, Copy, PartialEq, Eq, Structural)]
pub enum Episode {
    LAMeltdown,
    LunarApocalypse,
    ShrapnelCity,
    ThePlutoniumPak,
}

/// Marks what belongs to the loaded level (and goes when it unloads).
#[derive(Debug, Clone, Copy, PartialEq, Eq, Structural, Default)]
pub struct LevelEntity;

/// A request to load the map of an episode and level.
#[derive(Debug, Clone, Copy, PartialEq, Eq, Structural)]
pub struct LoadLevelEvent {
    pub episode: usize,
    pub level: usize,
}

/// Progress through the current episode; the level timer counts the
/// milliseconds played on the current level, against the par time.
#[derive(Debug, Clone, Copy, PartialEq, Eq, Structural)]
pub struct LevelProgress {
    pub current_episode: usize,
    pub current_level: usize,
    pub skill: SkillLevel,
    pub kills_count: i32,
    pub total_monsters: i32,
    pub secrets_found: i32,
    pub total_secrets: i32,
    pub level_time_ms: u32,
    pub par_time_ms: u32,
    pub is_level_completed: bool,
}

impl Default for LevelProgress {
    fn default() -> (p: Self)
        ensures
            p.current_episode == 1 && p.current_level == 1 && p.skill == SkillLevel::LetsRock,
            p.kills_count == 0 && p.total_monsters == 50 && p.secrets_found == 0 && p.total_secrets == 4,
            p.level_time_ms == 0 && p.par_time_ms == 180_000,
            !p.is_level_completed,
    {
        LevelProgress::new()
    }
}

impl LevelProgress {
    pub fn new() -> (p: Self)
        ensures
            p.current_episode == 1 && p.current_level == 1 && p.skill == SkillLevel::LetsRock,
            p.kills_count == 0 && p.total_monsters == 50 && p.secrets_found == 0 && p.total_secrets == 4,
            p.level_time_ms == 0 && p.par_time_ms == 180_000,
            !p.is_level_completed,
    {
        LevelProgress {
            current_episode: 1,
            current_level: 1,
            skill: SkillLevel::LetsRock,
            kills_count: 0,
            total_monsters: 50,
            secrets_found: 0,
            total_secrets: 4,
            level_time_ms: 0,
            par_time_ms: 180_000,
            is_level_completed: false,
        }
    }

    pub fn current_map_filename(&self) -> (s: String)
        ensures
            s@ == map_file_name(self.current_episode, self.current_level),
    {
        format_map_file_name(self.current_episode, self.current_level)
    }

    /// Adds `dt_ms` to the level timer while the game is being played
    /// (saturating at `u32::MAX`); in any other phase nothing changes.
    pub fn update_level_time(&mut self, phase: GamePhase, dt_ms: u32)
        ensures
            *final(self) == (if phase == GamePhase::Playing {
                LevelProgress {
                    level_time_ms: (if old(self).level_time_ms + dt_ms > u32::MAX { u32::MAX as int }
                        else { old(self).level_time_ms + dt_ms }) as u32,
                    ..*old(self)
                }
            } else {
                *old(self)
            }),
    {
        if phase == GamePhase::Playing {
            self.level_time_ms = self.level_time_ms.saturating_add(dt_ms);
        }
    }

    /// Moves to the next level of the seven standard levels; past the last
    /// one, wraps to level 1 and reports the episode finished.
    pub fn advance_to_next_level(&mut self) -> (finished: bool)
        requires
            old(self).current_level < usize::MAX,
        ensures
            finished == (old(self).current_level + 1 > 7),
            final(self).current_level == (if finished { 1 } else { old(self).current_level + 1 }),
            final(self).current_episode == old(self).current_episode,
            final(self).kills_count == 0,
            final(self).secrets_found == 0,
            final(self).level_time_ms == 0,
            final(self).par_time_ms == old(self).par_time_ms,
            !final(self).is_level_completed,
            final(self).skill == old(self).skill,
            final(self).total_monsters == old(self).total_monsters,
            final(self).total_secrets == old(self).total_secrets,
    {
        self.current_level += 1;
        self.kills_count = 0;
        self.secrets_found = 0;
        self.level_time_ms = 0;
        self.is_level_completed = false;
        if self.current_level > 7 {
            self.current_level = 1;
            true
        } else {
            false
        }
    }
}

#[derive(Debug, Clone, Copy, PartialEq, Eq, Structural)]
pub struct LevelSelectState {
    pub is_open: bool,
    pub selected_episode: usize,
    pub selected_level: usize,
}

/// How many maps the database holds for an episode.
pub open spec fn episode_map_count(episode: usize) -> nat {
    maps_of_episode(campaign_table(), episode).len()
}

/// The next episode (after the fourth, the first), at its first level.
pub open spec fn after_next_episode(s: LevelSelectState) -> LevelSelectState {
    LevelSelectState {
        selected_episode: if s.selected_episode >= 4 { 1 } else { (s.selected_episode + 1) as usize },
        selected_level: 1,
        ..s
    }
}

/// The previous episode (before the first, the fourth), at its first level.
pub open spec fn after_prev_episode(s: LevelSelectState) -> LevelSelectState {
    LevelSelectState {
        selected_episode: if s.selected_episode <= 1 { 4 } else { (s.selected_episode - 1) as usize },
        selected_level: 1,
        ..s
    }
}

/// The next level of the episode's list, wrapping to the first; unchanged
/// when the episode has no maps.
pub open spec fn after_next_level(s: LevelSelectState) -> LevelSelectState {
    let max = episode_map_count(s.selected_episode);
    LevelSelectState {
        selected_level: if max == 0 { s.selected_level } else if s.selected_level >= max { 1 } else { (s.selected_level + 1) as usize },
        ..s
    }
}

/// The previous level of the episode's list, wrapping to the last;
/// unchanged when the episode has no maps.
pub open spec fn after_prev_level(s: LevelSelectState) -> LevelSelectState {
    let max = episode_map_count(s.selected_episode);
    LevelSelectState {
        selected_level: if max == 0 { s.selected_level } else if s.selected_level <= 1 { max as usize } else { (s.selected_level - 1) as usize },
        ..s
    }
}

impl Default for LevelSelectState {
    fn default() -> (s: Self)
        ensures
            !s.is_open && s.selected_episode == 1 && s.selected_level == 1,
    {
        LevelSelectState::new()
    }
}

impl LevelSelectState {
    pub fn new() -> (s: Self)
        ensures
            !s.is_open && s.selected_episode == 1 && s.selected_level == 1,
    {
        LevelSelectState { is_open: false, selected_episode: 1, selected_level: 1 }
    }

    pub fn next_episode(&mut self)
        ensures
            *final(self) == after_next_episode(*old(self)),
    {
        self.selected_episode = if self.selected_episode >= 4 { 1 } else { self.selected_episode + 1 };
        self.selected_level = 1;
    }

    pub fn prev_episode(&mut self)
        ensures
            *final(self) == after_prev_episode(*old(self)),
    {
        self.selected_episode = if self.selected_episode <= 1 { 4 } else { self.selected_episode - 1 };
        self.selected_level = 1;
    }

    pub fn next_level(&mut self)
        ensures
            *final(self) == after_next_level(*old(self)),
    {
        let max_levels = self.get_levels_for_episode(self.selected_episode).len();
        if max_levels > 0 {
            self.selected_level = if self.selected_level >= max_levels { 1 } else { self.selected_level + 1 };
        }
    }

    pub fn prev_level(&mut self)
        ensures
            *final(self) == after_prev_level(*old(self)),
    {
        let max_levels = self.get_levels_for_episode(self.selected_episode).len();
        if max_levels > 0 {
            self.selected_level = if self.selected_level <= 1 { max_levels } else { self.selected_level - 1 };
        }
    }

    pub fn get_levels_for_episode(&self, ep: usize) -> (v: Vec<CampaignMapInfo>)
        ensures
            v@ == maps_of_episode(campaign_table(), ep),
    {
        get_episode_maps(ep)
    }

    pub fn get_current_map_info(&self) -> (r: Option<CampaignMapInfo>)
        ensures
            r == campaign_lookup(self.selected_episode, self.selected_level),
    {
        get_campaign_map(self.selected_episode, self.selected_level)
    }

    /// Closes the menu and asks for the selected map.
    pub fn warp_to_selected(&mut self) -> (ev: LoadLevelEvent)
        ensures
            ev == (LoadLevelEvent { episode: old(self).selected_episode, level: old(self).selected_level }),
            !final(self).is_open,
            final(self).selected_episode == old(self).selected_episode,
            final(self).selected_level == old(self).selected_level,
    {
        self.is_open = false;
        LoadLevelEvent { episode: self.selected_episode, level: self.selected_level }
    }
}

/// The level-select keys pressed this frame: F3 opens and closes the
/// menu, the arrows pick the episode (up, down) and level (left, right),
/// Enter warps, Escape closes.
#[derive(Debug, Clone, Copy, PartialEq, Eq, Structural)]
pub struct LevelSelectKeys {
    pub toggle: bool,
    pub up: bool,
    pub down: bool,
    pub left: bool,
    pub right: bool,
    pub enter: bool,
    pub escape: bool,
}

/// The level-select menu after one frame of keys, and the level to load.
/// Only the first of up, down, left, right, Enter and Escape counts.
pub open spec fn level_select_step(s: LevelSelectState, k: LevelSelectKeys) -> (LevelSelectState, Option<LoadLevelEvent>) {
    let s1 = if k.toggle { LevelSelectState { is_open: !s.is_open, ..s } } else { s };
    if !s1.is_open {
        (s1, None)
    } else if k.up {
        (after_prev_episode(s1), None)
    } else if k.down {
        (after_next_episode(s1), None)
    } else if k.left {
        (after_prev_level(s1), None)
    } else if k.right {
        (after_next_level(s1), None)
    } else if k.enter {
        (LevelSelectState { is_open: false, ..s1 }, Some(LoadLevelEvent { episode: s1.selected_episode, level: s1.selected_level }))
    } else if k.escape {
        (LevelSelectState { is_open: false, ..s1 }, None)
    } else {
        (s1, None)
    }
}

/// Handles one frame of level-select keys (see `level_select_step`).
pub fn handle_level_select_input(state: &mut LevelSelectState, keys: LevelSelectKeys) -> (ev: Option<LoadLevelEvent>)
    ensures
        (*final(state), ev) == level_select_step(*old(state), keys),
{
    if keys.toggle {
        state.is_open = !state.is_open;
    }
    if !state.is_open {
        return None;
    }
    if keys.up {
        state.prev_episode();
        None
    } else if keys.down {
        state.next_episode();
        None
    } else if keys.left {
        state.prev_level();
        None
    } else if keys.right {
        state.next_level();
        None
    } else if keys.enter {
        Some(state.warp_to_selected())
    } else if keys.escape {
        state.is_open = false;
        None
    } else {
        None
    }
}

/// The menu cursor: the highlighted entry of a menu of `max_items`.
#[derive(Debug, Clone, Copy, PartialEq, Eq, Structural)]
pub struct MenuCursor {
    pub selected_index: usize,
    pub max_items: usize,
}

impl Default for MenuCursor {
    fn default() -> (c: Self)
        ensures
            c == (MenuCursor { selected_index: 0, max_items: 4 }),
    {
        MenuCursor { selected_index: 0, max_items: 4 }
    }
}

/// The spinning menu cursor's frame (of four). The 0.12 s timer that
/// turns it is the frame loop's.
#[derive(Debug, Clone, Copy, PartialEq, Eq, Structural, Default)]
pub struct CursorAnimTimer {
    pub frame: usize,
}

/// The cursor timer fired: the next frame, after the fourth the first.
pub fn update_cursor_animation(anim: &mut CursorAnimTimer)
    requires
        old(anim).frame < usize::MAX,
    ensures
        final(anim).frame == (old(anim).frame + 1) % 4,
{
    anim.frame = (anim.frame + 1) % 4;
}

/// The menu keys pressed this frame: up (arrow or W), down (arrow or S),
/// confirm (Enter or Space) and Escape.
#[derive(Debug, Clone, Copy, PartialEq, Eq, Structural)]
pub struct MenuKeys {
    pub up: bool,
    pub down: bool,
    pub confirm: bool,
    pub escape: bool,
}

/// What one frame of menu input asks for: the click of the moving cursor,
/// the sound of the choice, the phase to enter, the level to load, and
/// whether to quit.
#[derive(Debug, Clone, Copy, PartialEq, Eq, Structural)]
pub struct MenuStep {
    pub move_sound: Option<i32>,
    pub sound: Option<i32>,
    pub next_phase: Option<GamePhase>,
    pub load_level: Option<LoadLevelEvent>,
    pub exit: bool,
}

pub open spec fn no_step() -> MenuStep {
    MenuStep { move_sound: None, sound: None, next_phase: None, load_level: None, exit: false }
}

/// The cursor after up and down were handled (both may be pressed).
pub open spec fn cursor_moved(c: MenuCursor, k: MenuKeys) -> MenuCursor {
    if c.max_items == 0 {
        c
    } else {
        let i1 = if k.up { if c.selected_index > 0 { c.selected_index - 1 } else { c.max_items - 1 } } else { c.selected_index as int };
        let i2 = if k.down { (i1 + 1) % (c.max_items as int) } else { i1 };
        MenuCursor { selected_index: i2 as usize, ..c }
    }
}

/// The skill named by a menu entry.
pub open spec fn skill_at(i: usize) -> SkillLevel {
    if i == 0 { SkillLevel::PieceOfCake } else if i == 1 { SkillLevel::LetsRock }
    else if i == 2 { SkillLevel::ComeGetSome } else { SkillLevel::DamnImGood }
}

/// One frame of menu input in phase `ph`: the cursor and progress after
/// it, and what it asks for. While playing only Escape counts (it pauses);
/// the intermission screen handles its own keys. Elsewhere the cursor
/// moves first, then the entry is chosen or Escape goes back.
pub open spec fn menu_step(ph: GamePhase, c: MenuCursor, p: LevelProgress, k: MenuKeys)
    -> (MenuCursor, LevelProgress, MenuStep)
{
    if ph == GamePhase::Playing {
        if k.escape {
            (MenuCursor { selected_index: 0, max_items: 4 }, p,
             MenuStep { sound: Some(34), next_phase: Some(GamePhase::Paused), ..no_step() })
        } else {
            (c, p, no_step())
        }
    } else if ph == GamePhase::Intermission {
        (c, p, no_step())
    } else {
        let m = cursor_moved(c, k);
        let moved = c.max_items > 0 && (k.up || k.down);
        let base = MenuStep { move_sound: if moved { Some(33) } else { None }, ..no_step() };
        let c4 = MenuCursor { max_items: 4, ..m };
        let i = m.selected_index;
        match ph {
            GamePhase::MainMenu =>
                if k.confirm {
                    if i == 0 {
                        (MenuCursor { selected_index: 0, ..c4 }, p,
                         MenuStep { sound: Some(34), next_phase: Some(GamePhase::EpisodeSelect), ..base })
                    } else if i == 3 {
                        (c4, p, MenuStep { sound: Some(34), exit: true, ..base })
                    } else {
                        (c4, p, MenuStep { sound: Some(34), ..base })
                    }
                } else {
                    (c4, p, base)
                },
            GamePhase::EpisodeSelect =>
                if k.escape {
                    (MenuCursor { selected_index: 0, ..c4 }, p,
                     MenuStep { sound: Some(33), next_phase: Some(GamePhase::MainMenu), ..base })
                } else if k.confirm {
                    (MenuCursor { selected_index: 1, ..c4 }, LevelProgress { current_episode: (i + 1) as usize, ..p },
                     MenuStep { sound: Some(34), next_phase: Some(GamePhase::SkillSelect), ..base })
                } else {
                    (c4, p, base)
                },
            GamePhase::SkillSelect =>
                if k.escape {
                    (MenuCursor { selected_index: 0, ..c4 }, p,
                     MenuStep { sound: Some(33), next_phase: Some(GamePhase::EpisodeSelect), ..base })
                } else if k.confirm {
                    (c4, LevelProgress { skill: skill_at(i), current_level: 1, ..p },
                     MenuStep {
                        sound: Some(34),
                        next_phase: Some(GamePhase::Playing),
                        load_level: Some(LoadLevelEvent { episode: p.current_episode, level: 1 }),
                        ..base
                    })
                } else {
                    (c4, p, base)
                },
            _ =>
                if k.escape {
                    (c4, p, MenuStep { sound: Some(34), next_phase: Some(GamePhase::Playing), ..base })
                } else if k.confirm {
                    if i == 0 {
                        (c4, p, MenuStep { sound: Some(34), next_phase: Some(GamePhase::Playing), ..base })
                    } else if i == 2 {
                        (MenuCursor { selected_index: 0, ..c4 }, p,
                         MenuStep { sound: Some(34), next_phase: Some(GamePhase::MainMenu), ..base })
                    } else if i == 3 {
                        (c4, p, MenuStep { sound: Some(34), exit: true, ..base })
                    } else {
                        (c4, p, MenuStep { sound: Some(34), ..base })
                    }
                } else {
                    (c4, p, base)
                },
        }
    }
}

/// Handles one frame of menu keys in the phase `phase` (see `menu_step`).
pub fn handle_menu_navigation(phase: GamePhase, cursor: &mut MenuCursor, progress: &mut LevelProgress, keys: MenuKeys)
    -> (r: MenuStep)
    requires
        old(cursor).selected_index < usize::MAX,
    ensures
        (*final(cursor), *final(progress), r) == menu_step(phase, *old(cursor), *old(progress), keys),
{
    let mut step = MenuStep { move_sound: None, sound: None, next_phase: None, load_level: None, exit: false };
    if phase == GamePhase::Playing {
        if keys.escape {
            cursor.selected_index = 0;
            cursor.max_items = 4;
            step.sound = Some(34);
            step.next_phase = Some(GamePhase::Paused);
        }
        return step;
    }
    if phase == GamePhase::Intermission {
        return step;
    }
    let mut moved = false;
    if cursor.max_items > 0 {
        if keys.up {
            if cursor.selected_index > 0 {
                cursor.selected_index -= 1;
            } else {
                cursor.selected_index = cursor.max_items - 1;
            }
            moved = true;
        }
        if keys.down {
            cursor.selected_index = (cursor.selected_index + 1) % cursor.max_items;
            moved = true;
        }
    }
    if moved {
        step.move_sound = Some(33);
    }
    cursor.max_items = 4;
    match phase {
        GamePhase::MainMenu => {
            if keys.confirm {
                step.sound = Some(34);
                if cursor.selected_index == 0 {
                    cursor.selected_index = 0;
                    step.next_phase = Some(GamePhase::EpisodeSelect);
                } else if cursor.selected_index == 3 {
                    step.exit = true;
                }
            }
        },
        GamePhase::EpisodeSelect => {
            if keys.escape {
                cursor.selected_index = 0;
                step.sound = Some(33);
                step.next_phase = Some(GamePhase::MainMenu);
            } else if keys.confirm {
                step.sound = Some(34);
                progress.current_episode = cursor.selected_index + 1;
                cursor.selected_index = 1;
                step.next_phase = Some(GamePhase::SkillSelect);
            }
        },
        GamePhase::SkillSelect => {
            if keys.escape {
                cursor.selected_index = 0;
                step.sound = Some(33);
                step.next_phase = Some(GamePhase::EpisodeSelect);
            } else if keys.confirm {
                step.sound = Some(34);
                progress.skill = match cursor.selected_index {
                    0 => SkillLevel::PieceOfCake,
                    1 => SkillLevel::LetsRock,
                    2 => SkillLevel::ComeGetSome,
                    _ => SkillLevel::DamnImGood,
                };
                progress.current_level = 1;
                step.load_level = Some(LoadLevelEvent { episode: progress.current_episode, level: 1 });
                step.next_phase = Some(GamePhase::Playing);
            }
        },
        _ => {
            if keys.escape {
                step.sound = Some(34);
                step.next_phase = Some(GamePhase::Playing);
            } else if keys.confirm {
                step.sound = Some(34);
                if cursor.selected_index == 0 {
                    step.next_phase = Some(GamePhase::Playing);
                } else if cursor.selected_index == 2 {
                    cursor.selected_index = 0;
                    step.next_phase = Some(GamePhase::MainMenu);
                } else if cursor.selected_index == 3 {
                    step.exit = true;
                }
            }
        },
    }
    step
}

/// In a menu, the cursor stays on an entry: moving up or down from an
/// entry of a menu of `max_items` lands on an entry, and up then down
/// (pressed in two frames) comes back to where it was.
pub proof fn lemma_menu_cursor_wraps(c: MenuCursor)
    requires
        c.selected_index < c.max_items,
    ensures
        cursor_moved(c, MenuKeys { up: true, down: false, confirm: false, escape: false }).selected_index < c.max_items,
        cursor_moved(c, MenuKeys { up: false, down: true, confirm: false, escape: false }).selected_index < c.max_items,
        cursor_moved(cursor_moved(c, MenuKeys { up: true, down: false, confirm: false, escape: false }),
            MenuKeys { up: false, down: true, confirm: false, escape: false }) == c,
{
    let m = c.max_items as int;
    let i = c.selected_index as int;
    vstd::arithmetic::div_mod::lemma_mod_self_0(m);
    vstd::arithmetic::div_mod::lemma_small_mod(i as nat, m as nat);
    if i + 1 < m {
        vstd::arithmetic::div_mod::lemma_small_mod((i + 1) as nat, m as nat);
    }
}

#[derive(Debug, Clone, Copy, PartialEq, Eq, Structural, Default)]
pub enum IntermissionStage {
    #[default]
    BackgroundFadeIn,
    KillsTally,
    SecretsTally,
    TimeReveal,
    ReadyToProceed,
}

/// The statistics screen between levels: its stage, the time it has been
/// shown (milliseconds), the tallies counted up so far, and whether Duke
/// has remarked on the result.
#[derive(Debug, Clone, Copy, PartialEq, Eq, Structural, Default)]
pub struct IntermissionAnimationState {
    pub stage: IntermissionStage,
    pub timer: u32,
    pub displayed_kills: i32,
    pub displayed_secrets: i32,
    pub speech_played: bool,
}

/// A finished level's results: percentages of monsters killed and secrets
/// found, and the time taken against the par time (milliseconds).
#[derive(Debug, Clone, Copy, PartialEq, Eq, Structural)]
pub struct IntermissionStats {
    pub kill_percentage: i32,
    pub secret_percentage: i32,
    pub time_taken_ms: u32,
    pub par_time_ms: u32,
}

/// `total` scaled by how far `elapsed` is through `span` milliseconds,
/// rounded down (0 before the start, `total` from the end on).
pub open spec fn tally(total: int, elapsed: int, span: int) -> int {
    if elapsed <= 0 { 0 } else if elapsed >= span { total } else { total * elapsed / span }
}

/// The screen after `dt` more milliseconds, and the sound it plays: the
/// kill count runs up from 0.5 s to 1.8 s, the secret count to 3.0 s (each
/// ending with a shot, sound 110); at 3.3 s Duke says "Damn, I'm good!"
/// (40) when par was beaten, else "Groovy!" (41) when every secret was
/// found; from 4.2 s the player may go on.
pub open spec fn intermission_ticked(a: IntermissionAnimationState, dt: u32, st: IntermissionStats)
    -> (IntermissionAnimationState, Option<i32>)
{
    let t = a.timer + dt;
    let a1 = IntermissionAnimationState { timer: t as u32, ..a };
    match a.stage {
        IntermissionStage::BackgroundFadeIn =>
            (if t >= 500 { IntermissionAnimationState { stage: IntermissionStage::KillsTally, ..a1 } } else { a1 }, None),
        IntermissionStage::KillsTally =>
            if t >= 1800 {
                (IntermissionAnimationState { displayed_kills: st.kill_percentage, stage: IntermissionStage::SecretsTally, ..a1 }, Some(110))
            } else {
                (IntermissionAnimationState { displayed_kills: tally(st.kill_percentage as int, t - 500, 1300) as i32, ..a1 }, None)
            },
        IntermissionStage::SecretsTally =>
            if t >= 3000 {
                (IntermissionAnimationState { displayed_secrets: st.secret_percentage, stage: IntermissionStage::TimeReveal, ..a1 }, Some(110))
            } else {
                (IntermissionAnimationState { displayed_secrets: tally(st.secret_percentage as int, t - 1800, 1200) as i32, ..a1 }, None)
            },
        IntermissionStage::TimeReveal => {
            let speak = !a.speech_played && t >= 3300;
            let line: Option<i32> = if !speak { None }
                else if st.time_taken_ms <= st.par_time_ms { Some(40) }
                else if st.secret_percentage >= 100 { Some(41) }
                else { None };
            let a2 = IntermissionAnimationState { speech_played: a.speech_played || speak, ..a1 };
            (if t >= 4200 { IntermissionAnimationState { stage: IntermissionStage::ReadyToProceed, ..a2 } } else { a2 }, line)
        },
        IntermissionStage::ReadyToProceed => (a1, None),
    }
}

fn tally_exec(total: i32, elapsed: i64, span: i64) -> (r: i32)
    requires
        0 <= total <= 100,
        span == 1300 || span == 1200,
        -0x1_0000_0000 <= elapsed <= 0x1_0000_0000,
    ensures
        r == tally(total as int, elapsed as int, span as int),
{
    if elapsed <= 0 {
        0
    } else if elapsed >= span {
        total
    } else {
        proof {
            let ti = total as int;
            let ei = elapsed as int;
            let si = span as int;
            assert(0 <= ti * ei <= 100 * si) by (nonlinear_arith)
                requires 0 <= ti <= 100, 0 < ei < si;
            assert(0 <= (ti * ei) / si <= ti) by (nonlinear_arith)
                requires 0 <= ti <= 100, 0 < ei < si;
        }
        ((total as i64 * elapsed) / span) as i32
    }
}

/// Runs the statistics screen for `dt_ms` milliseconds (see
/// `intermission_ticked`); returns the sound to play.
pub fn update_intermission_animation(anim: &mut IntermissionAnimationState, dt_ms: u32, stats: IntermissionStats)
    -> (sound: Option<i32>)
    requires
        old(anim).timer + dt_ms <= u32::MAX,
        0 <= stats.kill_percentage <= 100,
        0 <= stats.secret_percentage <= 100,
    ensures
        (*final(anim), sound) == intermission_ticked(*old(anim), dt_ms, stats),
{
    anim.timer = anim.timer + dt_ms;
    let t = anim.timer;
    match anim.stage {
        IntermissionStage::BackgroundFadeIn => {
            if t >= 500 {
                anim.stage = IntermissionStage::KillsTally;
            }
            None
        },
        IntermissionStage::KillsTally => {
            if t >= 1800 {
                anim.displayed_kills = stats.kill_percentage;
                anim.stage = IntermissionStage::SecretsTally;
                Some(110)
            } else {
                anim.displayed_kills = tally_exec(stats.kill_percentage, t as i64 - 500, 1300);
                None
            }
        },
        IntermissionStage::SecretsTally => {
            if t >= 3000 {
                anim.displayed_secrets = stats.secret_percentage;
                anim.stage = IntermissionStage::TimeReveal;
                Some(110)
            } else {
                anim.displayed_secrets = tally_exec(stats.secret_percentage, t as i64 - 1800, 1200);
                None
            }
        },
        IntermissionStage::TimeReveal => {
            let mut line: Option<i32> = None;
            if !anim.speech_played && t >= 3300 {
                anim.speech_played = true;
                if stats.time_taken_ms <= stats.par_time_ms {
                    line = Some(40);
                } else if stats.secret_percentage >= 100 {
                    line = Some(41);
                }
            }
            if t >= 4200 {
                anim.stage = IntermissionStage::ReadyToProceed;
            }
            line
        },
        IntermissionStage::ReadyToProceed => None,
    }
}

/// The level was finished: the statistics screen starts from the top.
pub fn handle_level_completed_events(progress: &mut LevelProgress, anim: &mut IntermissionAnimationState) -> (next: GamePhase)
    ensures
        *final(progress) == (LevelProgress { is_level_completed: true, ..*old(progress) }),
        *final(anim) == (IntermissionAnimationState {
            stage: IntermissionStage::BackgroundFadeIn, timer: 0, displayed_kills: 0, displayed_secrets: 0, speech_played: false,
        }),
        next == GamePhase::Intermission,
{
    progress.is_level_completed = true;
    *anim = IntermissionAnimationState {
        stage: IntermissionStage::BackgroundFadeIn,
        timer: 0,
        displayed_kills: 0,
        displayed_secrets: 0,
        speech_played: false,
    };
    GamePhase::Intermission
}

/// What confirming on the statistics screen did.
#[derive(Debug, Clone, Copy, PartialEq, Eq, Structural)]
pub enum IntermissionExit {
    /// The animation was skipped to its end.
    SkippedToEnd,
    /// The episode is over: back to the main menu.
    EpisodeFinished,
    /// On to the next level.
    NextLevel(LoadLevelEvent),
}

/// The player confirms on the statistics screen: before the end of the
/// animation it skips to the final tallies; after it, the next level
/// loads, or the episode ends after its seventh level.
pub fn handle_intermission_input(progress: &mut LevelProgress, anim: &mut IntermissionAnimationState, stats: IntermissionStats)
    -> (r: IntermissionExit)
    requires
        old(progress).current_level < usize::MAX,
    ensures
        old(anim).stage != IntermissionStage::ReadyToProceed ==> {
            &&& r == IntermissionExit::SkippedToEnd
            &&& *final(anim) == (IntermissionAnimationState {
                displayed_kills: stats.kill_percentage,
                displayed_secrets: stats.secret_percentage,
                stage: IntermissionStage::ReadyToProceed,
                ..*old(anim)
            })
            &&& *final(progress) == *old(progress)
        },
        old(anim).stage == IntermissionStage::ReadyToProceed ==> {
            &&& *final(anim) == *old(anim)
            &&& final(progress).current_level == (if old(progress).current_level + 1 > 7 { 1 } else { old(progress).current_level + 1 })
            &&& final(progress).current_episode == old(progress).current_episode
            &&& final(progress).kills_count == 0 && final(progress).secrets_found == 0
            &&& !final(progress).is_level_completed
            &&& final(progress).skill == old(progress).skill
            &&& final(progress).total_monsters == old(progress).total_monsters
            &&& final(progress).total_secrets == old(progress).total_secrets
            &&& r == (if old(progress).current_level + 1 > 7 { IntermissionExit::EpisodeFinished } else {
                IntermissionExit::NextLevel(LoadLevelEvent { episode: old(progress).current_episode, level: (old(progress).current_level + 1) as usize })
            })
        },
{
    if anim.stage != IntermissionStage::ReadyToProceed {
        anim.displayed_kills = stats.kill_percentage;
        anim.displayed_secrets = stats.secret_percentage;
        anim.stage = IntermissionStage::ReadyToProceed;
        return IntermissionExit::SkippedToEnd;
    }
    let finished = progress.advance_to_next_level();
    if finished {
        IntermissionExit::EpisodeFinished
    } else {
        IntermissionExit::NextLevel(LoadLevelEvent { episode: progress.current_episode, level: progress.current_level })
    }
}

/// The stages only move forward, and the tallies never pass the results.
pub proof fn lemma_intermission_forward(a: IntermissionAnimationState, dt: u32, st: IntermissionStats)
    requires
        0 <= st.kill_percentage <= 100,
        0 <= st.secret_percentage <= 100,
        0 <= a.displayed_kills <= st.kill_percentage,
        0 <= a.displayed_secrets <= st.secret_percentage,
    ensures
        stage_rank(intermission_ticked(a, dt, st).0.stage) >= stage_rank(a.stage),
        0 <= intermission_ticked(a, dt, st).0.displayed_kills <= st.kill_percentage,
        0 <= intermission_ticked(a, dt, st).0.displayed_secrets <= st.secret_percentage,
{
    let t = a.timer + dt;
    if a.stage == IntermissionStage::KillsTally && t < 1800 {
        lemma_tally_bound(st.kill_percentage as int, t - 500, 1300);
    }
    if a.stage == IntermissionStage::SecretsTally && t < 3000 {
        lemma_tally_bound(st.secret_percentage as int, t - 1800, 1200);
    }
}

pub open spec fn stage_rank(s: IntermissionStage) -> int {
    match s {
        IntermissionStage::BackgroundFadeIn => 0,
        IntermissionStage::KillsTally => 1,
        IntermissionStage::SecretsTally => 2,
        IntermissionStage::TimeReveal => 3,
        IntermissionStage::ReadyToProceed => 4,
    }
}

proof fn lemma_tally_bound(total: int, elapsed: int, span: int)
    requires
        0 <= total,
        0 < span,
    ensures
        0 <= tally(total, elapsed, span) <= total,
{
    if 0 < elapsed < span {
        assert(0 <= total * elapsed / span <= total) by (nonlinear_arith)
            requires 0 <= total, 0 < elapsed < span;
    }
}

/// Stepping to the next level and back returns to the same selection,
/// for any level within the episode's list.
pub proof fn lemma_level_select_step_back(s: LevelSelectState)
    requires
        1 <= s.selected_level <= episode_map_count(s.selected_episode),
    ensures
        after_prev_level(after_next_level(s)) == s,
        after_next_level(after_prev_level(s)) == s,
{
    crate::campaign::lemma_maps_of_episode_len(campaign_table(), s.selected_episode);
    assert(campaign_table().len() == 41);
}

/// Stepping to the next episode and back returns to the same episode
/// (at its first level), for episodes 1..=4.
pub proof fn lemma_episode_select_step_back(s: LevelSelectState)
    requires
        1 <= s.selected_episode <= 4,
    ensures
        after_prev_episode(after_next_episode(s)) == (LevelSelectState { selected_level: 1, ..s }),
        after_next_episode(after_prev_episode(s)) == (LevelSelectState { selected_level: 1, ..s }),
{
}

} // verus!
