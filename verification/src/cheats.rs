//! The classic "dn..." cheat codes, typed during play.
use vstd::prelude::*;
use vstd::string::StringSliceAdditionalSpecFns;
use vstd::utf8::encode_utf8;
use crate::game_flow::{LevelProgress, SkillLevel};
use crate::player::{PlayerController, WeaponData, InventoryState};
use crate::text::{chars_of, string_from_chars, chars_ends_with, chars_contain, ends_with, contains_seq};

verus! {

/// Toggles set by cheats, and the last keys typed.
#[derive(Debug, Clone)]
pub struct CheatState {
    pub buffer: String,
    pub god_mode: bool,
    pub no_clip: bool,
    pub show_all_map: bool,
    pub cashman: bool,
    pub show_coords: bool,
    pub show_fps: bool,
    pub monsters_disabled: bool,
}

impl Default for CheatState {
    fn default() -> (s: Self)
        ensures
            s.buffer@ == Seq::<char>::empty(),
            !s.god_mode && !s.no_clip && !s.show_all_map && !s.cashman,
            !s.show_coords && !s.show_fps && !s.monsters_disabled,
    {
        CheatState {
            buffer: String::new(),
            god_mode: false,
            no_clip: false,
            show_all_map: false,
            cashman: false,
            show_coords: false,
            show_fps: false,
            monsters_disabled: false,
        }
    }
}

/// The cheats, in the order the typed text is tested for them.
#[derive(Debug, Clone, Copy, PartialEq, Eq, Structural)]
pub enum Cheat {
    Kroz,
    Stuff,
    Items,
    Clip,
    Cashman,
    Hyper,
    ShowMap,
    Monsters,
    Rate,
    Coords,
    Keys,
    Weapons,
    Inventory,
    Skill(u32),
}

/// The skill number a typed digit selects: the digit clamped to 1..=4.
pub open spec fn skill_digit(c: char) -> u32 {
    let d = (c as u32) - 48;
    (if d < 1 { 1 } else if d > 4 { 4 } else { d }) as u32
}

/// The cheat that typed text `b` (of `byte_len` UTF-8 bytes) ends in, if
/// any. Text of at least 8 bytes that contains "dnskill" and ends in a
/// digit sets the skill.
#[verifier::opaque]
pub open spec fn cheat_of(b: Seq<char>, byte_len: int) -> Option<Cheat> {
    if ends_with(b, "dnkroz"@) || ends_with(b, "dncornholio"@) { Some(Cheat::Kroz) }
    else if ends_with(b, "dnstuff"@) { Some(Cheat::Stuff) }
    else if ends_with(b, "dnitems"@) { Some(Cheat::Items) }
    else if ends_with(b, "dnclip"@) { Some(Cheat::Clip) }
    else if ends_with(b, "dncashman"@) { Some(Cheat::Cashman) }
    else if ends_with(b, "dnhyper"@) { Some(Cheat::Hyper) }
    else if ends_with(b, "dnshowmap"@) { Some(Cheat::ShowMap) }
    else if ends_with(b, "dnmonsters"@) { Some(Cheat::Monsters) }
    else if ends_with(b, "dnrate"@) { Some(Cheat::Rate) }
    else if ends_with(b, "dncoords"@) { Some(Cheat::Coords) }
    else if ends_with(b, "dnkeys"@) { Some(Cheat::Keys) }
    else if ends_with(b, "dnweapons"@) { Some(Cheat::Weapons) }
    else if ends_with(b, "dninventory"@) { Some(Cheat::Inventory) }
    else if byte_len >= 8 && contains_seq(b, "dnskill"@) && b.len() > 0 && '0' <= b.last() && b.last() <= '9' {
        Some(Cheat::Skill(skill_digit(b.last())))
    } else { None }
}

/// Ammunition each slot gets from "dnstuff" and "dnweapons".
pub open spec fn stuff_ammo(i: int) -> i32 {
    if i == 0 || i == 10 { 0 }
    else if i == 1 || i == 3 { 200 }
    else if i == 7 || i == 9 { 99 }
    else if i == 8 { 10 }
    else { 50 }
}

/// Every inventory charge filled the way the cheats fill it.
pub open spec fn full_inventory(inv: InventoryState) -> InventoryState {
    InventoryState {
        steroids_amount: 400,
        medkit_amount: 100,
        nightvision_amount: 1200,
        scuba_amount: 6400,
        boots_amount: 200,
        holoduke_amount: 2400,
        jetpack_amount: 1600,
        ..inv
    }
}

pub open spec fn gives_weapons(c: Cheat) -> bool {
    c == Cheat::Stuff || c == Cheat::Weapons
}

/// The player after cheat `c`, apart from the weapon slots.
pub open spec fn cheat_player(p: PlayerController, c: Cheat) -> PlayerController {
    match c {
        Cheat::Kroz => PlayerController { health: 100, ..p },
        Cheat::Stuff | Cheat::Items => PlayerController { armor: 100, has_blue_key: true, has_red_key: true,
            has_yellow_key: true, inventory: full_inventory(p.inventory), ..p },
        Cheat::Hyper => PlayerController { inventory: InventoryState { steroids_amount: 400, steroids_active: true, ..p.inventory }, ..p },
        Cheat::Keys => PlayerController { has_blue_key: true, has_red_key: true, has_yellow_key: true, ..p },
        Cheat::Inventory => PlayerController { inventory: full_inventory(p.inventory), ..p },
        _ => p,
    }
}

/// The cheat toggles after cheat `c`.
pub open spec fn cheat_flags(s: CheatState, c: Cheat) -> CheatState {
    match c {
        Cheat::Kroz => CheatState { god_mode: !s.god_mode, ..s },
        Cheat::Clip => CheatState { no_clip: !s.no_clip, ..s },
        Cheat::Cashman => CheatState { cashman: !s.cashman, ..s },
        Cheat::ShowMap => CheatState { show_all_map: !s.show_all_map, ..s },
        Cheat::Monsters => CheatState { monsters_disabled: !s.monsters_disabled, ..s },
        Cheat::Rate => CheatState { show_fps: !s.show_fps, ..s },
        Cheat::Coords => CheatState { show_coords: !s.show_coords, ..s },
        _ => s,
    }
}

pub open spec fn skill_of(n: u32) -> SkillLevel {
    if n == 1 { SkillLevel::PieceOfCake }
    else if n == 2 { SkillLevel::LetsRock }
    else if n == 3 { SkillLevel::ComeGetSome }
    else if n == 4 { SkillLevel::DamnImGood }
    else { SkillLevel::LetsRock }
}

/// The status-bar text of cheat `c`, given the toggles after it.
pub open spec fn cheat_message(c: Cheat, s: CheatState) -> &'static str {
    match c {
        Cheat::Kroz => if s.god_mode { "GOD MODE ON" } else { "GOD MODE OFF" },
        Cheat::Stuff => "ALL WEAPONS, ITEMS, KEYS",
        Cheat::Items => "ALL ITEMS AND KEYS",
        Cheat::Clip => if s.no_clip { "NO CLIPPING ON" } else { "NO CLIPPING OFF" },
        Cheat::Cashman => if s.cashman { "CASHMAN ON" } else { "CASHMAN OFF" },
        Cheat::Hyper => "HYPER STEROIDS ACTIVE",
        Cheat::ShowMap => if s.show_all_map { "SHOW ALL MAP ON" } else { "SHOW ALL MAP OFF" },
        Cheat::Monsters => if s.monsters_disabled { "MONSTERS OFF" } else { "MONSTERS ON" },
        Cheat::Rate => if s.show_fps { "TICK RATE ON" } else { "TICK RATE OFF" },
        Cheat::Coords => if s.show_coords { "SHOW COORDS ON" } else { "SHOW COORDS OFF" },
        Cheat::Keys => "ALL KEYS GIVEN",
        Cheat::Weapons => "ALL WEAPONS GIVEN",
        Cheat::Inventory => "ALL INVENTORY GIVEN",
        Cheat::Skill(_) => "SKILL LEVEL CHANGED",
    }
}

/// What cheat `c` does to the player, the toggles and the level progress.
pub open spec fn cheat_applied(c: Cheat, s0: CheatState, s1: CheatState, p0: PlayerController, p1: PlayerController,
    g0: LevelProgress, g1: LevelProgress) -> bool {
    &&& s1 == cheat_flags(s0, c)
    &&& p1 == PlayerController { weapons: p1.weapons, ..cheat_player(p0, c) }
    &&& (gives_weapons(c) ==> forall|i: int| 0 <= i < 12 ==> #[trigger] p1.weapons@[i]
            == (WeaponData { is_unlocked: true, ammo: stuff_ammo(i), ..p0.weapons@[i] }))
    &&& (!gives_weapons(c) ==> p1.weapons == p0.weapons)
    &&& g1 == (if let Cheat::Skill(n) = c { LevelProgress { skill: skill_of(n), ..g0 } } else { g0 })
}

fn stuff_ammo_of(i: usize) -> (a: i32)
    ensures
        a == stuff_ammo(i as int),
{
    if i == 0 || i == 10 { 0 }
    else if i == 1 || i == 3 { 200 }
    else if i == 7 || i == 9 { 99 }
    else if i == 8 { 10 }
    else { 50 }
}

fn ends_in(b: &[char], lit: &str) -> (r: bool)
    ensures
        r == ends_with(b@, lit@),
{
    let t = chars_of(lit);
    chars_ends_with(b, t.as_slice())
}

/// Which cheat the typed text ends in.
pub fn detect_cheat(buffer: &str) -> (c: Option<Cheat>)
    ensures
        c == cheat_of(buffer@, buffer.len() as int),
{
    reveal(cheat_of);
    let b = chars_of(buffer);
    let bs = b.as_slice();
    if ends_in(bs, "dnkroz") || ends_in(bs, "dncornholio") { return Some(Cheat::Kroz); }
    if ends_in(bs, "dnstuff") { return Some(Cheat::Stuff); }
    if ends_in(bs, "dnitems") { return Some(Cheat::Items); }
    if ends_in(bs, "dnclip") { return Some(Cheat::Clip); }
    if ends_in(bs, "dncashman") { return Some(Cheat::Cashman); }
    if ends_in(bs, "dnhyper") { return Some(Cheat::Hyper); }
    if ends_in(bs, "dnshowmap") { return Some(Cheat::ShowMap); }
    if ends_in(bs, "dnmonsters") { return Some(Cheat::Monsters); }
    if ends_in(bs, "dnrate") { return Some(Cheat::Rate); }
    if ends_in(bs, "dncoords") { return Some(Cheat::Coords); }
    if ends_in(bs, "dnkeys") { return Some(Cheat::Keys); }
    if ends_in(bs, "dnweapons") { return Some(Cheat::Weapons); }
    if ends_in(bs, "dninventory") { return Some(Cheat::Inventory); }
    if buffer.len() >= 8 {
        let pat = chars_of("dnskill");
        if chars_contain(bs, pat.as_slice()) && b.len() > 0 {
            let last = b[b.len() - 1];
            if '0' <= last && last <= '9' {
                let d = (last as u32) - 48;
                let n: u32 = if d < 1 { 1 } else if d > 4 { 4 } else { d };
                return Some(Cheat::Skill(n));
            }
        }
    }
    None
}

fn give_all_weapons(p: &mut PlayerController)
    ensures
        *final(p) == (PlayerController { weapons: final(p).weapons, ..*old(p) }),
        forall|i: int| 0 <= i < 12 ==> #[trigger] final(p).weapons@[i]
            == (WeaponData { is_unlocked: true, ammo: stuff_ammo(i), ..old(p).weapons@[i] }),
{
    let mut i: usize = 0;
    while i < 12
        invariant
            i <= 12,
            *p == (PlayerController { weapons: p.weapons, ..*old(p) }),
            forall|j: int| 0 <= j < i ==> #[trigger] p.weapons@[j]
                == (WeaponData { is_unlocked: true, ammo: stuff_ammo(j), ..old(p).weapons@[j] }),
            forall|j: int| i <= j < 12 ==> #[trigger] p.weapons@[j] == old(p).weapons@[j],
        decreases 12 - i,
    {
        let mut w = p.weapons[i];
        w.is_unlocked = true;
        w.ammo = stuff_ammo_of(i);
        p.weapons[i] = w;
        i += 1;
    }
}

fn fill_inventory(inv: InventoryState) -> (r: InventoryState)
    ensures
        r == full_inventory(inv),
{
    InventoryState {
        steroids_amount: 400,
        medkit_amount: 100,
        nightvision_amount: 1200,
        scuba_amount: 6400,
        boots_amount: 200,
        holoduke_amount: 2400,
        jetpack_amount: 1600,
        ..inv
    }
}

/// Applies the cheat that the typed text ends in, if any, and returns its
/// status-bar text.
pub fn evaluate_cheats(buffer: &str, cheat_state: &mut CheatState, player: &mut PlayerController,
    progress: &mut LevelProgress) -> (r: Option<&'static str>)
    ensures
        match cheat_of(buffer@, buffer.len() as int) {
            None => r is None && *final(cheat_state) == *old(cheat_state) && *final(player) == *old(player)
                && *final(progress) == *old(progress),
            Some(c) => r == Some(cheat_message(c, *final(cheat_state)))
                && cheat_applied(c, *old(cheat_state), *final(cheat_state), *old(player), *final(player),
                    *old(progress), *final(progress)),
        },
{
    match detect_cheat(buffer) {
        Some(c) => Some(apply_cheat(c, cheat_state, player, progress)),
        None => None,
    }
}

pub open spec fn is_toggle(c: Cheat) -> bool {
    c == Cheat::Clip || c == Cheat::Cashman || c == Cheat::ShowMap || c == Cheat::Monsters
        || c == Cheat::Rate || c == Cheat::Coords
}

pub open spec fn is_player_cheat(c: Cheat) -> bool {
    c == Cheat::Stuff || c == Cheat::Items || c == Cheat::Hyper || c == Cheat::Keys
        || c == Cheat::Weapons || c == Cheat::Inventory
}

/// The cheats that flip a display or rule toggle.
fn apply_toggle(c: Cheat, cheat_state: &mut CheatState) -> (r: &'static str)
    requires
        is_toggle(c),
    ensures
        *final(cheat_state) == cheat_flags(*old(cheat_state), c),
        r == cheat_message(c, *final(cheat_state)),
{
    match c {
        Cheat::Clip => {
            cheat_state.no_clip = !cheat_state.no_clip;
            if cheat_state.no_clip { "NO CLIPPING ON" } else { "NO CLIPPING OFF" }
        },
        Cheat::Cashman => {
            cheat_state.cashman = !cheat_state.cashman;
            if cheat_state.cashman { "CASHMAN ON" } else { "CASHMAN OFF" }
        },
        Cheat::ShowMap => {
            cheat_state.show_all_map = !cheat_state.show_all_map;
            if cheat_state.show_all_map { "SHOW ALL MAP ON" } else { "SHOW ALL MAP OFF" }
        },
        Cheat::Monsters => {
            cheat_state.monsters_disabled = !cheat_state.monsters_disabled;
            if cheat_state.monsters_disabled { "MONSTERS OFF" } else { "MONSTERS ON" }
        },
        Cheat::Rate => {
            cheat_state.show_fps = !cheat_state.show_fps;
            if cheat_state.show_fps { "TICK RATE ON" } else { "TICK RATE OFF" }
        },
        _ => {
            cheat_state.show_coords = !cheat_state.show_coords;
            if cheat_state.show_coords { "SHOW COORDS ON" } else { "SHOW COORDS OFF" }
        },
    }
}

/// The cheats that hand the player weapons, items or keys.
fn apply_player_cheat(c: Cheat, player: &mut PlayerController) -> (r: &'static str)
    requires
        is_player_cheat(c),
    ensures
        *final(player) == (PlayerController { weapons: final(player).weapons, ..cheat_player(*old(player), c) }),
        gives_weapons(c) ==> forall|i: int| 0 <= i < 12 ==> #[trigger] final(player).weapons@[i]
            == (WeaponData { is_unlocked: true, ammo: stuff_ammo(i), ..old(player).weapons@[i] }),
        !gives_weapons(c) ==> final(player).weapons == old(player).weapons,
        forall|s: CheatState| r == #[trigger] cheat_message(c, s),
{
    match c {
        Cheat::Stuff => {
            give_all_weapons(player);
            player.armor = 100;
            player.has_blue_key = true;
            player.has_red_key = true;
            player.has_yellow_key = true;
            player.inventory = fill_inventory(player.inventory);
            "ALL WEAPONS, ITEMS, KEYS"
        },
        Cheat::Items => {
            player.armor = 100;
            player.has_blue_key = true;
            player.has_red_key = true;
            player.has_yellow_key = true;
            player.inventory = fill_inventory(player.inventory);
            "ALL ITEMS AND KEYS"
        },
        Cheat::Hyper => {
            player.inventory.steroids_amount = 400;
            player.inventory.steroids_active = true;
            "HYPER STEROIDS ACTIVE"
        },
        Cheat::Keys => {
            player.has_blue_key = true;
            player.has_red_key = true;
            player.has_yellow_key = true;
            "ALL KEYS GIVEN"
        },
        Cheat::Weapons => {
            give_all_weapons(player);
            "ALL WEAPONS GIVEN"
        },
        _ => {
            player.inventory = fill_inventory(player.inventory);
            "ALL INVENTORY GIVEN"
        },
    }
}

/// Carries out cheat `c`.
pub fn apply_cheat(c: Cheat, cheat_state: &mut CheatState, player: &mut PlayerController,
    progress: &mut LevelProgress) -> (r: &'static str)
    ensures
        r == cheat_message(c, *final(cheat_state)),
        cheat_applied(c, *old(cheat_state), *final(cheat_state), *old(player), *final(player),
            *old(progress), *final(progress)),
{
    if let Cheat::Skill(n) = c {
        progress.skill = if n == 1 {
            SkillLevel::PieceOfCake
        } else if n == 2 {
            SkillLevel::LetsRock
        } else if n == 3 {
            SkillLevel::ComeGetSome
        } else if n == 4 {
            SkillLevel::DamnImGood
        } else {
            SkillLevel::LetsRock
        };
        return "SKILL LEVEL CHANGED";
    }
    if c == Cheat::Kroz {
        cheat_state.god_mode = !cheat_state.god_mode;
        player.health = 100;
        return if cheat_state.god_mode { "GOD MODE ON" } else { "GOD MODE OFF" };
    }
    if is_toggle_exec(c) {
        apply_toggle(c, cheat_state)
    } else {
        apply_player_cheat(c, player)
    }
}

fn is_toggle_exec(c: Cheat) -> (r: bool)
    ensures
        r == is_toggle(c),
{
    match c {
        Cheat::Clip | Cheat::Cashman | Cheat::ShowMap | Cheat::Monsters | Cheat::Rate | Cheat::Coords => true,
        _ => false,
    }
}

/// What `str::len` gives for text `b`: its UTF-8 length.
pub open spec fn byte_count(b: Seq<char>) -> int {
    (encode_utf8(b).len() as usize) as int
}

/// The typed text after key `ch`: appended, then the first character
/// dropped if the text is longer than 15 bytes.
pub open spec fn typed(b: Seq<char>, ch: char) -> Seq<char> {
    let b1 = b.push(ch);
    if byte_count(b1) > 15 { b1.drop_first() } else { b1 }
}

fn drop_first_char(v: &Vec<char>) -> (r: Vec<char>)
    requires
        v@.len() > 0,
    ensures
        r@ == v@.drop_first(),
{
    let mut r: Vec<char> = Vec::new();
    let mut i: usize = 1;
    while i < v.len()
        invariant
            1 <= i <= v@.len(),
            r@ == v@.subrange(1, i as int),
        decreases v@.len() - i,
    {
        r.push(v[i]);
        i += 1;
    }
    r
}

/// A key of the keyboard, as far as typing cheats goes.
#[derive(Debug, Clone, Copy, PartialEq, Eq, Structural)]
pub enum KeyCode {
    KeyA,
    KeyB,
    KeyC,
    KeyD,
    KeyE,
    KeyF,
    KeyG,
    KeyH,
    KeyI,
    KeyJ,
    KeyK,
    KeyL,
    KeyM,
    KeyN,
    KeyO,
    KeyP,
    KeyQ,
    KeyR,
    KeyS,
    KeyT,
    KeyU,
    KeyV,
    KeyW,
    KeyX,
    KeyY,
    KeyZ,
    Digit0,
    Digit1,
    Digit2,
    Digit3,
    Digit4,
    Digit5,
    Digit6,
    Digit7,
    Digit8,
    Digit9,
    Numpad0,
    Numpad1,
    Numpad2,
    Numpad3,
    Numpad4,
    Numpad5,
    Numpad6,
    Numpad7,
    Numpad8,
    Numpad9,
    /// Any other key.
    Other,
}

/// The character a key types into the cheat text: letters lower-case,
/// the digits of both rows of digit keys.
pub open spec fn key_char(key: KeyCode) -> Option<char> {
    match key {
        KeyCode::KeyA => Some('a'),
        KeyCode::KeyB => Some('b'),
        KeyCode::KeyC => Some('c'),
        KeyCode::KeyD => Some('d'),
        KeyCode::KeyE => Some('e'),
        KeyCode::KeyF => Some('f'),
        KeyCode::KeyG => Some('g'),
        KeyCode::KeyH => Some('h'),
        KeyCode::KeyI => Some('i'),
        KeyCode::KeyJ => Some('j'),
        KeyCode::KeyK => Some('k'),
        KeyCode::KeyL => Some('l'),
        KeyCode::KeyM => Some('m'),
        KeyCode::KeyN => Some('n'),
        KeyCode::KeyO => Some('o'),
        KeyCode::KeyP => Some('p'),
        KeyCode::KeyQ => Some('q'),
        KeyCode::KeyR => Some('r'),
        KeyCode::KeyS => Some('s'),
        KeyCode::KeyT => Some('t'),
        KeyCode::KeyU => Some('u'),
        KeyCode::KeyV => Some('v'),
        KeyCode::KeyW => Some('w'),
        KeyCode::KeyX => Some('x'),
        KeyCode::KeyY => Some('y'),
        KeyCode::KeyZ => Some('z'),
        KeyCode::Digit0 | KeyCode::Numpad0 => Some('0'),
        KeyCode::Digit1 | KeyCode::Numpad1 => Some('1'),
        KeyCode::Digit2 | KeyCode::Numpad2 => Some('2'),
        KeyCode::Digit3 | KeyCode::Numpad3 => Some('3'),
        KeyCode::Digit4 | KeyCode::Numpad4 => Some('4'),
        KeyCode::Digit5 | KeyCode::Numpad5 => Some('5'),
        KeyCode::Digit6 | KeyCode::Numpad6 => Some('6'),
        KeyCode::Digit7 | KeyCode::Numpad7 => Some('7'),
        KeyCode::Digit8 | KeyCode::Numpad8 => Some('8'),
        KeyCode::Digit9 | KeyCode::Numpad9 => Some('9'),
        KeyCode::Other => None,
    }
}

pub fn key_to_char(key: KeyCode) -> (r: Option<char>)
    ensures
        r == key_char(key),
{
    match key {
        KeyCode::KeyA => Some('a'),
        KeyCode::KeyB => Some('b'),
        KeyCode::KeyC => Some('c'),
        KeyCode::KeyD => Some('d'),
        KeyCode::KeyE => Some('e'),
        KeyCode::KeyF => Some('f'),
        KeyCode::KeyG => Some('g'),
        KeyCode::KeyH => Some('h'),
        KeyCode::KeyI => Some('i'),
        KeyCode::KeyJ => Some('j'),
        KeyCode::KeyK => Some('k'),
        KeyCode::KeyL => Some('l'),
        KeyCode::KeyM => Some('m'),
        KeyCode::KeyN => Some('n'),
        KeyCode::KeyO => Some('o'),
        KeyCode::KeyP => Some('p'),
        KeyCode::KeyQ => Some('q'),
        KeyCode::KeyR => Some('r'),
        KeyCode::KeyS => Some('s'),
        KeyCode::KeyT => Some('t'),
        KeyCode::KeyU => Some('u'),
        KeyCode::KeyV => Some('v'),
        KeyCode::KeyW => Some('w'),
        KeyCode::KeyX => Some('x'),
        KeyCode::KeyY => Some('y'),
        KeyCode::KeyZ => Some('z'),
        KeyCode::Digit0 | KeyCode::Numpad0 => Some('0'),
        KeyCode::Digit1 | KeyCode::Numpad1 => Some('1'),
        KeyCode::Digit2 | KeyCode::Numpad2 => Some('2'),
        KeyCode::Digit3 | KeyCode::Numpad3 => Some('3'),
        KeyCode::Digit4 | KeyCode::Numpad4 => Some('4'),
        KeyCode::Digit5 | KeyCode::Numpad5 => Some('5'),
        KeyCode::Digit6 | KeyCode::Numpad6 => Some('6'),
        KeyCode::Digit7 | KeyCode::Numpad7 => Some('7'),
        KeyCode::Digit8 | KeyCode::Numpad8 => Some('8'),
        KeyCode::Digit9 | KeyCode::Numpad9 => Some('9'),
        KeyCode::Other => None,
    }
}

impl CheatState {
    /// Adds a typed character to the cheat text and applies the cheat the
    /// text now ends in; the text is cleared when a cheat fires.
    pub fn push_key(&mut self, ch: char, player: &mut PlayerController, progress: &mut LevelProgress) -> (r: Option<&'static str>)
        ensures
            ({
                let b = typed(old(self).buffer@, ch);
                let s0 = CheatState { buffer: final(self).buffer, ..*old(self) };
                match cheat_of(b, byte_count(b)) {
                    None => r is None && final(self).buffer@ == b && s0 == *final(self)
                        && *final(player) == *old(player) && *final(progress) == *old(progress),
                    Some(c) => r == Some(cheat_message(c, *final(self))) && final(self).buffer@ == Seq::<char>::empty()
                        && cheat_applied(c, s0, *final(self), *old(player), *final(player), *old(progress), *final(progress)),
                }
            }),
    {
        let mut cs = chars_of(self.buffer.as_str());
        cs.push(ch);
        let s1 = string_from_chars(cs.as_slice());
        let buf = if s1.as_str().len() > 15 {
            let rest = drop_first_char(&cs);
            string_from_chars(rest.as_slice())
        } else {
            s1
        };
        let res = evaluate_cheats(buf.as_str(), self, player, progress);
        if res.is_some() {
            self.buffer = String::new();
        } else {
            self.buffer = buf;
        }
        res
    }
}

} // verus!
