//! The status bar layout and the automap's line classes and modes.
use vstd::prelude::*;
use crate::font::{DukeFont, DukeFontRenderer, GlyphDrawCall, pen_x, layout, advance};
use crate::player::PlayerController;
use crate::text::{decimal, push_decimal, string_from_chars};
use std::collections::HashSet;

verus! {

pub const BOTTOMSTATUSBAR: i16 = 2462;
pub const KEY_BLUE: i16 = 175;
pub const KEY_RED: i16 = 176;
pub const KEY_YELLOW: i16 = 177;

#[derive(Debug, Clone, Copy, PartialEq, Eq, Structural)]
pub enum HudMode {
    ClassicStatusbar,
    FullscreenMini,
    Hidden,
}

/// What the status bar shows. The message stays up while its timer (in
/// milliseconds) has time left.
#[derive(Debug, Clone)]
pub struct StatusbarState {
    pub hud_mode: HudMode,
    pub has_blue_key: bool,
    pub has_red_key: bool,
    pub has_yellow_key: bool,
    pub message_text: String,
    pub message_timer_ms: u32,
}

impl Default for StatusbarState {
    fn default() -> (s: Self)
        ensures
            s.hud_mode == HudMode::ClassicStatusbar,
            !s.has_blue_key && !s.has_red_key && !s.has_yellow_key,
            s.message_text@ == Seq::<char>::empty(),
            s.message_timer_ms == 0,
    {
        StatusbarState {
            hud_mode: HudMode::ClassicStatusbar,
            has_blue_key: false,
            has_red_key: false,
            has_yellow_key: false,
            message_text: String::new(),
            message_timer_ms: 0,
        }
    }
}

/// The background tile, the glyphs and the keycard tiles (tile, x, y).
#[derive(Debug, Clone)]
pub struct StatusbarLayout {
    pub base_tile: i16,
    pub glyphs: Vec<GlyphDrawCall>,
    pub key_tiles: Vec<(i16, i32, i32)>,
}

/// `v` clamped to 0..=999.
pub open spec fn clamp999(v: i32) -> nat {
    (if v < 0 { 0 } else if v > 999 { 999 } else { v as int }) as nat
}

/// A number right-aligned in three places (`{:>3}`).
pub open spec fn pad3(n: nat) -> Seq<char> {
    let d = decimal(n);
    if d.len() >= 3 { d } else if d.len() == 2 { seq![' '] + d } else { seq![' ', ' '] + d }
}

/// A signed number as `{}` writes it.
pub open spec fn signed_decimal(v: int) -> Seq<char> {
    if v < 0 { seq!['-'] + decimal((-v) as nat) } else { decimal(v as nat) }
}

pub open spec fn ammo_shown(p: PlayerController) -> i32 {
    p.slot(p.current_weapon).ammo
}

/// The glyphs of a text in a font, from a pen position.
pub open spec fn text_glyphs(font: DukeFont, s: Seq<char>, x: int, y: i32) -> Seq<GlyphDrawCall> {
    layout(font, s, x, y, s.len() as int)
}

/// The keycard tiles shown for the keys held.
pub open spec fn key_tiles_of(s: StatusbarState) -> Seq<(i16, i32, i32)> {
    (if s.has_blue_key { seq![(KEY_BLUE, 194i32, 172i32)] } else { Seq::empty() })
        + (if s.has_red_key { seq![(KEY_RED, 194i32, 180i32)] } else { Seq::empty() })
        + (if s.has_yellow_key { seq![(KEY_YELLOW, 194i32, 188i32)] } else { Seq::empty() })
}

/// The message is drawn while its timer runs and it has text.
pub open spec fn shows_message(s: StatusbarState) -> bool {
    s.message_timer_ms > 0 && s.message_text@.len() > 0
}

/// The glyphs of each HUD mode.
pub open spec fn hud_glyphs(s: StatusbarState, p: PlayerController) -> Seq<GlyphDrawCall> {
    match s.hud_mode {
        HudMode::ClassicStatusbar =>
            text_glyphs(DukeFont::DigitalNumbers, pad3(clamp999(p.health)), 24, 176)
            + text_glyphs(DukeFont::DigitalNumbers, pad3(clamp999(p.armor)), 64, 176)
            + text_glyphs(DukeFont::DigitalNumbers, pad3(clamp999(ammo_shown(p))), 224, 176)
            + (if shows_message(s) { text_glyphs(DukeFont::SmallBlue, s.message_text@, 10, 10) } else { Seq::empty() }),
        HudMode::FullscreenMini =>
            text_glyphs(DukeFont::SmallBlue, seq!['H', ':'] + signed_decimal(p.health as int), 10, 185)
            + text_glyphs(DukeFont::SmallBlue, seq!['A', ':'] + signed_decimal(p.armor as int), 70, 185)
            + text_glyphs(DukeFont::SmallBlue, seq!['A', 'M', 'M', 'O', ':'] + signed_decimal(ammo_shown(p) as int), 240, 185),
        HudMode::Hidden => Seq::empty(),
    }
}

/// Every glyph of the fonts advances the pen by at most 14.
proof fn lemma_pen_bound(font: DukeFont, s: Seq<char>, x0: int, i: int)
    requires
        0 <= i <= s.len(),
    ensures
        pen_x(font, s, x0, i) <= x0 + 14 * i,
    decreases i,
{
    if i > 0 {
        lemma_pen_bound(font, s, x0, i - 1);
    }
}

pub open spec fn pow10(k: nat) -> nat
    decreases k,
{
    if k == 0 { 1 } else { 10 * pow10((k - 1) as nat) }
}

proof fn lemma_decimal_len(n: nat, k: nat)
    requires
        k >= 1,
        n < pow10(k),
    ensures
        decimal(n).len() <= k,
    decreases k,
{
    if n >= 10 {
        assert(k >= 2) by {
            if k == 1 {
                assert(pow10(1) == 10);
            }
        }
        assert(n / 10 < pow10((k - 1) as nat)) by (nonlinear_arith)
            requires n < pow10(k), k >= 1, pow10(k) == 10 * pow10((k - 1) as nat);
        lemma_decimal_len(n / 10, (k - 1) as nat);
    }
}

proof fn lemma_pow10_10()
    ensures
        pow10(10) == 10000000000nat,
{
    reveal_with_fuel(pow10, 11);
}

/// The digits of an `i32` in decimal, with a minus sign when negative.
fn push_signed(out: &mut Vec<char>, v: i32)
    ensures
        final(out)@ == old(out)@ + signed_decimal(v as int),
        signed_decimal(v as int).len() <= 11,
{
    proof {
        lemma_pow10_10();
        if v < 0 {
            lemma_decimal_len((-v) as nat, 10);
        } else {
            lemma_decimal_len(v as nat, 10);
        }
    }
    if v < 0 {
        out.push('-');
        let m: u64 = if v == i32::MIN { 2147483648 } else { (-v) as u64 };
        push_decimal(out, m);
        assert(final(out)@ =~= old(out)@ + signed_decimal(v as int));
    } else {
        push_decimal(out, v as u64);
    }
}

fn clamp999_exec(v: i32) -> (r: u64)
    ensures
        r == clamp999(v),
{
    if v < 0 { 0 } else if v > 999 { 999 } else { v as u64 }
}

fn push_pad3(out: &mut Vec<char>, n: u64)
    requires
        n <= 999,
    ensures
        final(out)@ == old(out)@ + pad3(n as nat),
        pad3(n as nat).len() == 3,
{
    proof {
        reveal_with_fuel(decimal, 4);
    }
    if n < 10 {
        out.push(' ');
        out.push(' ');
    } else if n < 100 {
        out.push(' ');
    }
    push_decimal(out, n);
    assert(final(out)@ =~= old(out)@ + pad3(n as nat));
}

fn append_calls(dst: &mut Vec<GlyphDrawCall>, src: Vec<GlyphDrawCall>)
    ensures
        final(dst)@ == old(dst)@ + src@,
{
    let mut i: usize = 0;
    let ghost base = dst@;
    while i < src.len()
        invariant
            i <= src@.len(),
            dst@ == base + src@.subrange(0, i as int),
        decreases src@.len() - i,
    {
        dst.push(src[i]);
        i += 1;
    }
    assert(src@.subrange(0, src@.len() as int) =~= src@);
}

/// Lays out `s` when its pen stays within bounds: short texts always do.
fn glyphs_for(font: DukeFont, s: &Vec<char>, x: i32, y: i32) -> (calls: Vec<GlyphDrawCall>)
    requires
        pen_x(font, s@, x as int, s@.len() as int) <= i32::MAX,
    ensures
        calls@ == text_glyphs(font, s@, x as int, y),
{
    let t = string_from_chars(s.as_slice());
    DukeFontRenderer::layout_text(font, t.as_str(), x, y)
}

impl StatusbarState {
    /// The status bar for a player. The classic bar shows health, armour
    /// and the ammunition of the weapon in hand (0-999, right-aligned in
    /// three places), the keycards held and the pending message; the
    /// fullscreen mode shows the three numbers as text; hidden shows
    /// nothing.
    pub fn compute_layout(&self, player: &PlayerController) -> (l: StatusbarLayout)
        requires
            shows_message(*self) && self.hud_mode == HudMode::ClassicStatusbar
                ==> pen_x(DukeFont::SmallBlue, self.message_text@, 10, self.message_text@.len() as int) <= i32::MAX,
        ensures
            l.base_tile == (if self.hud_mode == HudMode::ClassicStatusbar { BOTTOMSTATUSBAR } else { 0i16 }),
            l.glyphs@ == hud_glyphs(*self, *player),
            l.key_tiles@ == (if self.hud_mode == HudMode::ClassicStatusbar { key_tiles_of(*self) } else { Seq::empty() }),
    {
        let mut glyphs: Vec<GlyphDrawCall> = Vec::new();
        let mut key_tiles: Vec<(i16, i32, i32)> = Vec::new();
        let ammo = player.weapons[player.current_weapon.slot()].ammo;
        match self.hud_mode {
            HudMode::ClassicStatusbar => {
                let mut hs: Vec<char> = Vec::new();
                push_pad3(&mut hs, clamp999_exec(player.health));
                proof { lemma_pen_bound(DukeFont::DigitalNumbers, hs@, 24, 3); }
                append_calls(&mut glyphs, glyphs_for(DukeFont::DigitalNumbers, &hs, 24, 176));
                let mut ars: Vec<char> = Vec::new();
                push_pad3(&mut ars, clamp999_exec(player.armor));
                proof { lemma_pen_bound(DukeFont::DigitalNumbers, ars@, 64, 3); }
                append_calls(&mut glyphs, glyphs_for(DukeFont::DigitalNumbers, &ars, 64, 176));
                let mut ams: Vec<char> = Vec::new();
                push_pad3(&mut ams, clamp999_exec(ammo));
                proof { lemma_pen_bound(DukeFont::DigitalNumbers, ams@, 224, 3); }
                append_calls(&mut glyphs, glyphs_for(DukeFont::DigitalNumbers, &ams, 224, 176));
                if self.has_blue_key {
                    key_tiles.push((KEY_BLUE, 194, 172));
                }
                if self.has_red_key {
                    key_tiles.push((KEY_RED, 194, 180));
                }
                if self.has_yellow_key {
                    key_tiles.push((KEY_YELLOW, 194, 188));
                }
                proof {
                    assert(key_tiles@ =~= key_tiles_of(*self));
                }
                let ghost before = glyphs@;
                if self.message_timer_ms > 0 && !self.message_text.as_str().is_empty() {
                    let msg = crate::text::chars_of(self.message_text.as_str());
                    assert(msg@.len() > 0);
                    append_calls(&mut glyphs, glyphs_for(DukeFont::SmallBlue, &msg, 10, 10));
                } else {
                    proof {
                        assert(glyphs@ =~= before + Seq::<GlyphDrawCall>::empty());
                    }
                }
                StatusbarLayout { base_tile: BOTTOMSTATUSBAR, glyphs, key_tiles }
            },
            HudMode::FullscreenMini => {
                let mut hs: Vec<char> = Vec::new();
                hs.push('H');
                hs.push(':');
                push_signed(&mut hs, player.health);
                proof { lemma_pen_bound(DukeFont::SmallBlue, hs@, 10, hs@.len() as int); }
                append_calls(&mut glyphs, glyphs_for(DukeFont::SmallBlue, &hs, 10, 185));
                let mut ars: Vec<char> = Vec::new();
                ars.push('A');
                ars.push(':');
                push_signed(&mut ars, player.armor);
                proof { lemma_pen_bound(DukeFont::SmallBlue, ars@, 70, ars@.len() as int); }
                append_calls(&mut glyphs, glyphs_for(DukeFont::SmallBlue, &ars, 70, 185));
                let mut ams: Vec<char> = Vec::new();
                ams.push('A');
                ams.push('M');
                ams.push('M');
                ams.push('O');
                ams.push(':');
                push_signed(&mut ams, ammo);
                proof { lemma_pen_bound(DukeFont::SmallBlue, ams@, 240, ams@.len() as int); }
                append_calls(&mut glyphs, glyphs_for(DukeFont::SmallBlue, &ams, 240, 185));
                proof {
                    assert(hs@ =~= seq!['H', ':'] + signed_decimal(player.health as int));
                    assert(ars@ =~= seq!['A', ':'] + signed_decimal(player.armor as int));
                    assert(ams@ =~= seq!['A', 'M', 'M', 'O', ':'] + signed_decimal(ammo as int));
                }
                StatusbarLayout { base_tile: 0, glyphs, key_tiles }
            },
            HudMode::Hidden => StatusbarLayout { base_tile: 0, glyphs, key_tiles },
        }
    }
}

#[derive(Debug, Clone, Copy, PartialEq, Eq, Structural)]
pub enum AutomapMode {
    Off,
    Overlay,
    Fullscreen,
}

/// Tab cycles the automap: off, overlay, fullscreen, off.
pub open spec fn spec_next_automap_mode(mode: AutomapMode) -> AutomapMode {
    match mode {
        AutomapMode::Off => AutomapMode::Overlay,
        AutomapMode::Overlay => AutomapMode::Fullscreen,
        AutomapMode::Fullscreen => AutomapMode::Off,
    }
}

pub fn next_automap_mode(mode: AutomapMode) -> (r: AutomapMode)
    ensures
        r == spec_next_automap_mode(mode),
{
    match mode {
        AutomapMode::Off => AutomapMode::Overlay,
        AutomapMode::Overlay => AutomapMode::Fullscreen,
        AutomapMode::Fullscreen => AutomapMode::Off,
    }
}

/// The texts of the overlay HUD, and whether it shows at all.
#[derive(Debug, Clone)]
pub struct HudTexts {
    pub visible: bool,
    pub health: String,
    pub armor: String,
    pub ammo: String,
    pub keys: String,
    pub message: String,
}

/// "KEYS: " and the keycards held ("[B] ", "[R] ", "[Y] "), or "-".
pub open spec fn keys_line(p: PlayerController) -> Seq<char> {
    let k = (if p.has_blue_key { "[B] "@ } else { Seq::<char>::empty() })
        + (if p.has_red_key { "[R] "@ } else { Seq::<char>::empty() })
        + (if p.has_yellow_key { "[Y] "@ } else { Seq::<char>::empty() });
    "KEYS: "@ + (if k.len() == 0 { "-"@ } else { k })
}

fn labelled_pad3(label: &str, v: i32) -> (s: String)
    ensures
        s@ == label@ + pad3(clamp999(v)),
{
    let mut out: Vec<char> = Vec::new();
    crate::config::append_lit(&mut out, label);
    push_pad3(&mut out, clamp999_exec(v));
    string_from_chars(out.as_slice())
}

/// One frame of the overlay HUD, `dt_ms` milliseconds long: the status bar
/// takes the player's keycards, its message timer runs down, and the texts
/// show health, armour and the current weapon's ammunition (each within
/// 0..=999, right-aligned in three places), the keycards, and the message
/// while its timer lasts.
pub fn update_hud_display(sbar: &mut StatusbarState, player: &PlayerController, dt_ms: u32) -> (t: HudTexts)
    ensures
        final(sbar).hud_mode == old(sbar).hud_mode,
        final(sbar).message_text@ == old(sbar).message_text@,
        final(sbar).has_blue_key == player.has_blue_key,
        final(sbar).has_red_key == player.has_red_key,
        final(sbar).has_yellow_key == player.has_yellow_key,
        final(sbar).message_timer_ms == (if old(sbar).message_timer_ms > dt_ms { (old(sbar).message_timer_ms - dt_ms) as u32 } else { 0 }),
        t.visible == (old(sbar).hud_mode != HudMode::Hidden),
        t.health@ == "HEALTH: "@ + pad3(clamp999(player.health)),
        t.armor@ == "ARMOR: "@ + pad3(clamp999(player.armor)),
        t.ammo@ == "AMMO: "@ + pad3(clamp999(ammo_shown(*player))),
        t.keys@ == keys_line(*player),
        t.message@ == (if final(sbar).message_timer_ms > 0 { old(sbar).message_text@ } else { Seq::<char>::empty() }),
{
    sbar.has_blue_key = player.has_blue_key;
    sbar.has_red_key = player.has_red_key;
    sbar.has_yellow_key = player.has_yellow_key;
    if sbar.message_timer_ms > 0 {
        sbar.message_timer_ms = if sbar.message_timer_ms > dt_ms { sbar.message_timer_ms - dt_ms } else { 0 };
    }
    let visible = match sbar.hud_mode {
        HudMode::Hidden => false,
        _ => true,
    };
    let health = labelled_pad3("HEALTH: ", player.health);
    let armor = labelled_pad3("ARMOR: ", player.armor);
    let ammo = labelled_pad3("AMMO: ", player.weapons[player.current_weapon.slot()].ammo);
    let mut k: Vec<char> = Vec::new();
    if player.has_blue_key {
        crate::config::append_lit(&mut k, "[B] ");
    }
    if player.has_red_key {
        crate::config::append_lit(&mut k, "[R] ");
    }
    if player.has_yellow_key {
        crate::config::append_lit(&mut k, "[Y] ");
    }
    let mut line: Vec<char> = Vec::new();
    crate::config::append_lit(&mut line, "KEYS: ");
    let ghost kk = k@;
    if k.len() == 0 {
        crate::config::append_lit(&mut line, "-");
    } else {
        let mut i: usize = 0;
        let ghost head = line@;
        while i < k.len()
            invariant
                i <= k@.len(),
                k@ == kk,
                line@ == head + kk.subrange(0, i as int),
            decreases k@.len() - i,
        {
            line.push(k[i]);
            assert(kk.subrange(0, i + 1) =~= kk.subrange(0, i as int).push(kk[i as int]));
            i += 1;
        }
        assert(kk.subrange(0, kk.len() as int) =~= kk);
    }
    proof {
        let e = Seq::<char>::empty();
        let kb = if player.has_blue_key { "[B] "@ } else { e };
        let kr = if player.has_red_key { "[R] "@ } else { e };
        let ky = if player.has_yellow_key { "[Y] "@ } else { e };
        assert(kk =~= kb + kr + ky);
    }
    let keys = string_from_chars(line.as_slice());
    let message = if sbar.message_timer_ms > 0 { sbar.message_text.clone() } else { String::new() };
    HudTexts { visible, health, armor, ammo, keys, message }
}

/// F5 (or Minus) cycles the status bar: classic, fullscreen mini, hidden.
pub fn toggle_hud_mode(sbar: &mut StatusbarState)
    ensures
        *final(sbar) == (StatusbarState {
            hud_mode: match old(sbar).hud_mode {
                HudMode::ClassicStatusbar => HudMode::FullscreenMini,
                HudMode::FullscreenMini => HudMode::Hidden,
                HudMode::Hidden => HudMode::ClassicStatusbar,
            },
            ..*old(sbar)
        }),
{
    sbar.hud_mode = match sbar.hud_mode {
        HudMode::ClassicStatusbar => HudMode::FullscreenMini,
        HudMode::FullscreenMini => HudMode::Hidden,
        HudMode::Hidden => HudMode::ClassicStatusbar,
    };
}

/// The automap's mode, whether it follows the player, and the sectors seen
/// so far. (Its zoom and pan offset are real numbers the renderer keeps.)
#[derive(Debug)]
pub struct AutomapState {
    pub mode: AutomapMode,
    pub follow_player: bool,
    pub discovered_sectors: HashSet<usize>,
}

impl Default for AutomapState {
    fn default() -> (a: Self)
        ensures
            a.mode == AutomapMode::Off,
            a.follow_player,
            a.discovered_sectors@ == Set::<usize>::empty(),
    {
        AutomapState { mode: AutomapMode::Off, follow_player: true, discovered_sectors: HashSet::new() }
    }
}

/// The automap keys pressed this frame: Tab and F.
#[derive(Debug, Clone, Copy, PartialEq, Eq, Structural)]
pub struct AutomapKeys {
    pub tab: bool,
    pub follow: bool,
}

/// Tab cycles the mode (with sound 110); while the map shows, F toggles
/// following the player. Returns the sound to play.
pub fn handle_automap_input(automap: &mut AutomapState, keys: AutomapKeys) -> (sound: Option<i32>)
    ensures
        final(automap).mode == (if keys.tab { spec_next_automap_mode(old(automap).mode) } else { old(automap).mode }),
        final(automap).follow_player == (if keys.follow && final(automap).mode != AutomapMode::Off {
            !old(automap).follow_player
        } else {
            old(automap).follow_player
        }),
        final(automap).discovered_sectors@ == old(automap).discovered_sectors@,
        sound == (if keys.tab { Some(110i32) } else { None }),
{
    let mut sound = None;
    if keys.tab {
        automap.mode = next_automap_mode(automap.mode);
        sound = Some(110);
    }
    if automap.mode != AutomapMode::Off && keys.follow {
        automap.follow_player = !automap.follow_player;
    }
    sound
}

/// Marks sectors as seen on the automap: with the map-revealing cheat on,
/// sectors 0..500; otherwise the sector the player starts in (0).
pub fn update_automap_discovery(automap: &mut AutomapState, show_all_map: bool)
    ensures
        final(automap).mode == old(automap).mode,
        final(automap).follow_player == old(automap).follow_player,
        show_all_map ==> final(automap).discovered_sectors@ == old(automap).discovered_sectors@.union(Set::new(|s: usize| s < 500)),
        !show_all_map ==> final(automap).discovered_sectors@ == old(automap).discovered_sectors@.insert(0),
{
    if show_all_map {
        let ghost start = automap.discovered_sectors@;
        let mut s: usize = 0;
        while s < 500
            invariant
                s <= 500,
                automap.mode == old(automap).mode,
                automap.follow_player == old(automap).follow_player,
                start == old(automap).discovered_sectors@,
                automap.discovered_sectors@ == start.union(Set::new(|t: usize| t < s)),
            decreases 500 - s,
        {
            automap.discovered_sectors.insert(s);
            proof {
                assert(automap.discovered_sectors@ =~= start.union(Set::new(|t: usize| t < s + 1)));
            }
            s += 1;
        }
        return;
    }
    automap.discovered_sectors.insert(0);
}

/// How an automap line is drawn.
#[derive(Debug, Clone, Copy, PartialEq, Eq, Structural)]
pub enum AutomapLineKind {
    SingleSided,
    TwoSidedStep,
    TwoSidedBlocking,
    SecretSector,
}

/// Secret sectors first; then walls without a neighbour are single-sided,
/// blocking two-sided walls (cstat bit 0) are marked, two-sided walls
/// with a floor or ceiling step are steps, and the rest draw as
/// single-sided.
pub fn classify_automap_line(wall_cstat: u16, next_wall: i16, has_height_step: bool, is_secret_sector: bool) -> (k: AutomapLineKind)
    ensures
        k == (if is_secret_sector { AutomapLineKind::SecretSector }
            else if next_wall < 0 { AutomapLineKind::SingleSided }
            else if wall_cstat & 1 != 0 { AutomapLineKind::TwoSidedBlocking }
            else if has_height_step { AutomapLineKind::TwoSidedStep }
            else { AutomapLineKind::SingleSided }),
{
    if is_secret_sector {
        AutomapLineKind::SecretSector
    } else if next_wall < 0 {
        AutomapLineKind::SingleSided
    } else if (wall_cstat & 1) != 0 {
        AutomapLineKind::TwoSidedBlocking
    } else if has_height_step {
        AutomapLineKind::TwoSidedStep
    } else {
        AutomapLineKind::SingleSided
    }
}

} // verus!
