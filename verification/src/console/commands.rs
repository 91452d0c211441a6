//! Console commands: how an entered line is read, and what each command
//! does to the log, the player and the engine.
use vstd::prelude::*;
use super::{ConsoleState, LogColor, LogLine, log_push, log_all};
use crate::game_flow::LoadLevelEvent;
use crate::grp::{eq_ignore_ascii_case, str_eq_ignore_ascii_case};
use crate::player::{PlayerController, WeaponData, InventoryState};
use crate::text::{
    chars_of, string_from_chars, to_lowercase, to_uppercase, trim_ws, split_words, chars_eq, chars_starts_with,
    chars_contain, parse_usize_chars, chars_strip_suffixes, push_decimal, words, trim_by, is_unicode_whitespace,
    lowercase, uppercase, starts_with, contains_seq, parse_usize, strip_suffixes, leading,
    decimal, lemma_words_last, lemma_leading_is, lemma_decimal_digits, lemma_parse_decimal, all_digits, is_digit,
    is_ascii_char, ascii_upper, occurs_at, ends_with,
};
use crate::campaign::map_file_name;

verus! {

/// A command as read from an entered line (arguments as typed, except
/// that the `give` item is lower-cased).
pub enum CommandView {
    Help,
    Clear,
    God,
    NoClip,
    Kill,
    Give(Option<Seq<char>>),
    Warp(Option<Seq<char>>),
    KillMonsters,
    Crt(bool),
    Scanlines(Option<Seq<char>>),
    Quantize(bool),
    Stats(bool),
    Quit,
    Unknown(Seq<char>),
}

/// What the engine is asked to do after a command.
#[derive(Debug, Clone)]
pub enum ConsoleAction {
    Nothing,
    LoadLevel(LoadLevelEvent),
    SetCrt(bool),
    /// The scanline intensity argument as typed, if any; the engine reads
    /// the number (0.25 when absent or unreadable) and reports it.
    SetScanlines(Option<String>),
    SetQuantize(bool),
    Quit,
}

/// A switch argument: absent, starting with "1", or "true"/"on" in any
/// case means on.
pub open spec fn flag_arg(args: Seq<Seq<char>>) -> bool {
    args.len() == 0 || starts_with(args[0], seq!['1'])
        || eq_ignore_ascii_case(args[0], "true"@) || eq_ignore_ascii_case(args[0], "on"@)
}

/// Reads the trimmed, non-empty line `t`: the first word, lower-cased,
/// names the command; the words after it are its arguments.
pub open spec fn parse_command(t: Seq<char>) -> CommandView {
    let w = words(t);
    let head = lowercase(w[0]);
    let args = w.drop_first();
    let arg0 = if args.len() > 0 { Some(args[0]) } else { None };
    if head == "help"@ { CommandView::Help }
    else if head == "clear"@ { CommandView::Clear }
    else if head == "god"@ || head == "godmode"@ { CommandView::God }
    else if head == "noclip"@ || head == "clip"@ { CommandView::NoClip }
    else if head == "kill"@ || head == "suicide"@ { CommandView::Kill }
    else if head == "give"@ { CommandView::Give(if args.len() > 0 { Some(lowercase(args[0])) } else { None }) }
    else if head == "map"@ || head == "warp"@ { CommandView::Warp(arg0) }
    else if head == "killmonsters"@ { CommandView::KillMonsters }
    else if head == "r_crt"@ || head == "crt"@ { CommandView::Crt(flag_arg(args)) }
    else if head == "r_scanlines"@ { CommandView::Scanlines(arg0) }
    else if head == "r_quantize"@ { CommandView::Quantize(flag_arg(args)) }
    else if head == "r_stats"@ || head == "stats"@ { CommandView::Stats(flag_arg(args)) }
    else if head == "quit"@ || head == "exit"@ { CommandView::Quit }
    else { CommandView::Unknown(head) }
}

/// Index of the first `c` in `s` (its length when absent).
pub open spec fn index_of(s: Seq<char>, c: char) -> int
    decreases s.len(),
{
    if s.len() == 0 { 0 } else if s[0] == c { 0 } else { 1 + index_of(s.drop_first(), c) }
}

pub open spec fn or_one(o: Option<usize>) -> usize {
    match o { Some(v) => v, None => 1 }
}

/// The episode and level named by a `map` argument such as "e1l3" or
/// "E2L11.MAP": upper-cased, it must start with E and hold an L; the
/// leading Es are dropped, the text is split at each L, and the first two
/// pieces (the second without trailing ".MAP"s) are read as numbers, each
/// defaulting to 1.
pub open spec fn map_target(arg: Seq<char>) -> (usize, usize) {
    let m = uppercase(arg);
    if starts_with(m, seq!['E']) && contains_seq(m, seq!['L']) {
        let rest = m.subrange(leading(m, |c: char| c == 'E') as int, m.len() as int);
        let i0 = index_of(rest, 'L');
        let p0 = rest.subrange(0, i0);
        if i0 < rest.len() {
            let after = rest.subrange(i0 + 1, rest.len() as int);
            let p1 = after.subrange(0, index_of(after, 'L'));
            (or_one(parse_usize(p0)), or_one(parse_usize(strip_suffixes(p1, ".MAP"@))))
        } else {
            (or_one(parse_usize(p0)), 1)
        }
    } else {
        (1, 1)
    }
}

pub open spec fn on_off(b: bool) -> Seq<char> {
    if b { "ENABLED"@ } else { "DISABLED"@ }
}

pub open spec fn warp_text(ep: usize, lvl: usize) -> Seq<char> {
    "Warping to Episode "@ + decimal(ep as nat) + " Level "@ + decimal(lvl as nat) + " (E"@ + decimal(ep as nat)
        + seq!['L'] + decimal(lvl as nat) + ")..."@
}

pub open spec fn help_lines() -> Seq<LogLine> {
    seq![
        ("Available Commands:"@, LogColor::Sky),
        ("  map <name>            - Warp to map (e.g. map E1L1, map E1L3)"@, LogColor::White),
        ("  god                   - Toggle God Mode"@, LogColor::White),
        ("  noclip                - Toggle No-Clip Mode"@, LogColor::White),
        ("  give <all|weapons|ammo|keys|health|armor> - Replenish items"@, LogColor::White),
        ("  kill                  - Commit suicide"@, LogColor::White),
        ("  killmonsters          - Eliminate all enemies in map"@, LogColor::White),
        ("  clear                 - Clear console text buffer"@, LogColor::White),
        ("  quit / exit           - Exit application"@, LogColor::White),
    ]
}

/// The message of `give <k>` for a present player.
pub open spec fn give_line(k: Seq<char>) -> LogLine {
    if k == "all"@ { ("All weapons, ammo, keys, and items granted."@, LogColor::Green) }
    else if k == "weapons"@ { ("All weapons unlocked."@, LogColor::Green) }
    else if k == "ammo"@ { ("All ammo replenished."@, LogColor::Green) }
    else if k == "keys"@ { ("All access keycards granted."@, LogColor::Green) }
    else if k == "health"@ { ("Health restored to 100."@, LogColor::Green) }
    else if k == "armor"@ { ("Armor restored to 100."@, LogColor::Green) }
    else { ("Unknown give parameter '"@ + k + "'"@, LogColor::Error) }
}

/// The lines a command adds to the log (after its echo). Commands on the
/// player say nothing when there is no player.
pub open spec fn command_lines(c: CommandView, p: Option<PlayerController>) -> Seq<LogLine> {
    match c {
        CommandView::Help => help_lines(),
        CommandView::Clear => Seq::empty(),
        CommandView::God => match p {
            Some(q) => seq![(if !q.god_mode { "God Mode ON"@ } else { "God Mode OFF"@ }, LogColor::Yellow)],
            None => Seq::empty(),
        },
        CommandView::NoClip => match p {
            Some(q) => seq![(if !q.no_clip { "No-Clip ON"@ } else { "No-Clip OFF"@ }, LogColor::Yellow)],
            None => Seq::empty(),
        },
        CommandView::Kill => if p is Some { seq![("Player committed suicide."@, LogColor::Red)] } else { Seq::empty() },
        CommandView::Give(None) => seq![("Usage: give <all | weapons | ammo | keys | health | armor>"@, LogColor::Error)],
        CommandView::Give(Some(k)) => if p is Some { seq![give_line(k)] } else { Seq::empty() },
        CommandView::Warp(None) => seq![("Usage: map <eXlY> (e.g. map E1L1, map E1L3)"@, LogColor::Error)],
        CommandView::Warp(Some(a)) => seq![(warp_text(map_target(a).0, map_target(a).1), LogColor::Lime)],
        CommandView::KillMonsters => seq![("All monsters in level eliminated."@, LogColor::Orange)],
        CommandView::Crt(b) => seq![("Retro CRT Post-Processing: "@ + on_off(b), LogColor::Aqua)],
        CommandView::Scanlines(_) => Seq::empty(),
        CommandView::Quantize(b) => seq![("256-Color VGA Palette Quantization: "@ + on_off(b), LogColor::Aqua)],
        CommandView::Stats(b) => seq![("Engine Performance Profiler: "@ + on_off(b), LogColor::Aqua)],
        CommandView::Quit => seq![("Exiting application..."@, LogColor::Crimson)],
        CommandView::Unknown(h) => seq![("Unknown command '"@ + h + "'. Type 'help' for commands."@, LogColor::Error)],
    }
}

/// `give all`: full health and armour, every keycard, 100 charge of every
/// item, every weapon unlocked and loaded to capacity. The other items
/// each grant their part of that.
pub open spec fn give_applied(k: Seq<char>, a: PlayerController, b: PlayerController) -> bool {
    if k == "all"@ {
        &&& b == PlayerController { weapons: b.weapons, health: 100, armor: 100, has_blue_key: true, has_red_key: true,
            has_yellow_key: true, inventory: InventoryState { scuba_amount: 100, boots_amount: 100, jetpack_amount: 100,
                nightvision_amount: 100, steroids_amount: 100, medkit_amount: 100, holoduke_amount: 100, ..a.inventory }, ..a }
        &&& forall|i: int| 0 <= i < 12 ==> #[trigger] b.weapons@[i]
            == (WeaponData { is_unlocked: true, ammo: a.weapons@[i].max_ammo, ..a.weapons@[i] })
    } else if k == "weapons"@ {
        &&& b == PlayerController { weapons: b.weapons, ..a }
        &&& forall|i: int| 0 <= i < 12 ==> #[trigger] b.weapons@[i] == (WeaponData { is_unlocked: true, ..a.weapons@[i] })
    } else if k == "ammo"@ {
        &&& b == PlayerController { weapons: b.weapons, ..a }
        &&& forall|i: int| 0 <= i < 12 ==> #[trigger] b.weapons@[i] == (WeaponData { ammo: a.weapons@[i].max_ammo, ..a.weapons@[i] })
    } else if k == "keys"@ {
        b == PlayerController { has_blue_key: true, has_red_key: true, has_yellow_key: true, ..a }
    } else if k == "health"@ {
        b == PlayerController { health: 100, ..a }
    } else if k == "armor"@ {
        b == PlayerController { armor: 100, ..a }
    } else {
        b == a
    }
}

/// What a command does to the player (no player, no change).
pub open spec fn player_after(c: CommandView, p0: Option<PlayerController>, p1: Option<PlayerController>) -> bool {
    match p0 {
        None => p1 is None,
        Some(a) => match p1 {
            None => false,
            Some(b) => match c {
                CommandView::God => b == PlayerController { god_mode: !a.god_mode, ..a },
                CommandView::NoClip => b == PlayerController { no_clip: !a.no_clip, ..a },
                CommandView::Kill => b == PlayerController { health: 0, ..a },
                CommandView::Give(Some(k)) => give_applied(k, a, b),
                _ => b == a,
            },
        },
    }
}

/// The engine request of a command.
pub open spec fn action_of(c: CommandView, a: ConsoleAction) -> bool {
    match c {
        CommandView::Warp(Some(x)) => a == ConsoleAction::LoadLevel(LoadLevelEvent { episode: map_target(x).0, level: map_target(x).1 }),
        CommandView::Crt(b) => a == ConsoleAction::SetCrt(b),
        CommandView::Scanlines(x) => match a {
            ConsoleAction::SetScanlines(y) => match x {
                None => y is None,
                Some(xs) => y matches Some(ys) && ys@ == xs,
            },
            _ => false,
        },
        CommandView::Quantize(b) => a == ConsoleAction::SetQuantize(b),
        CommandView::Quit => a == ConsoleAction::Quit,
        _ => a == ConsoleAction::Nothing,
    }
}


/// A command read from a line, with its arguments as characters.
pub enum Command {
    Help,
    Clear,
    God,
    NoClip,
    Kill,
    Give(Option<Vec<char>>),
    Warp(Option<Vec<char>>),
    KillMonsters,
    Crt(bool),
    Scanlines(Option<Vec<char>>),
    Quantize(bool),
    Stats(bool),
    Quit,
    Unknown(Vec<char>),
}

pub open spec fn opt_chars(o: Option<Vec<char>>) -> Option<Seq<char>> {
    match o { Some(v) => Some(v@), None => None }
}

impl View for Command {
    type V = CommandView;

    open spec fn view(&self) -> CommandView {
        match self {
            Command::Help => CommandView::Help,
            Command::Clear => CommandView::Clear,
            Command::God => CommandView::God,
            Command::NoClip => CommandView::NoClip,
            Command::Kill => CommandView::Kill,
            Command::Give(k) => CommandView::Give(opt_chars(*k)),
            Command::Warp(a) => CommandView::Warp(opt_chars(*a)),
            Command::KillMonsters => CommandView::KillMonsters,
            Command::Crt(b) => CommandView::Crt(*b),
            Command::Scanlines(a) => CommandView::Scanlines(opt_chars(*a)),
            Command::Quantize(b) => CommandView::Quantize(*b),
            Command::Stats(b) => CommandView::Stats(*b),
            Command::Quit => CommandView::Quit,
            Command::Unknown(h) => CommandView::Unknown(h@),
        }
    }
}

fn is_word(h: &[char], lit: &str) -> (r: bool)
    ensures
        r == (h@ == lit@),
{
    let l = chars_of(lit);
    chars_eq(h, l.as_slice())
}

fn lower_chars(v: &[char]) -> (r: Vec<char>)
    ensures
        r@ == lowercase(v@),
{
    let s = string_from_chars(v);
    let l = to_lowercase(s.as_str());
    chars_of(l.as_str())
}

fn copy_chars(v: &Vec<char>) -> (r: Vec<char>)
    ensures
        r@ == v@,
{
    let mut r: Vec<char> = Vec::new();
    let mut i: usize = 0;
    while i < v.len()
        invariant
            i <= v@.len(),
            r@ == v@.subrange(0, i as int),
        decreases v@.len() - i,
    {
        r.push(v[i]);
        i += 1;
    }
    assert(v@.subrange(0, v@.len() as int) =~= v@);
    r
}

fn flag_of(ws: &Vec<Vec<char>>) -> (b: bool)
    requires
        ws@.len() >= 1,
    ensures
        b == flag_arg(ws@.map_values(|v: Vec<char>| v@).drop_first()),
{
    let ghost args = ws@.map_values(|v: Vec<char>| v@).drop_first();
    if ws.len() < 2 {
        return true;
    }
    assert(args[0] == ws@[1]@);
    let a = ws[1].as_slice();
    let one = vec!['1'];
    if chars_starts_with(a, one.as_slice()) {
        assert(one@ =~= seq!['1']);
        return true;
    }
    assert(one@ =~= seq!['1']);
    let s = string_from_chars(a);
    str_eq_ignore_ascii_case(s.as_str(), "true") || str_eq_ignore_ascii_case(s.as_str(), "on")
}

/// Reads the command of a trimmed line that holds a non-space character.
pub fn read_command(t: &[char]) -> (c: Command)
    requires
        words(t@).len() > 0,
    ensures
        c@ == parse_command(t@),
{
    let ws = split_words(t);
    let ghost wv = ws@.map_values(|v: Vec<char>| v@);
    assert(wv =~= words(t@));
    let head = lower_chars(ws[0].as_slice());
    let h = head.as_slice();
    let n = ws.len();
    proof {
        assert(wv[0] == ws@[0]@);
        if n > 1 {
            assert(wv.drop_first()[0] == ws@[1]@);
        }
    }
    if is_word(h, "help") { return Command::Help; }
    if is_word(h, "clear") { return Command::Clear; }
    if is_word(h, "god") || is_word(h, "godmode") { return Command::God; }
    if is_word(h, "noclip") || is_word(h, "clip") { return Command::NoClip; }
    if is_word(h, "kill") || is_word(h, "suicide") { return Command::Kill; }
    if is_word(h, "give") {
        if n > 1 {
            return Command::Give(Some(lower_chars(ws[1].as_slice())));
        }
        return Command::Give(None);
    }
    if is_word(h, "map") || is_word(h, "warp") {
        if n > 1 {
            return Command::Warp(Some(copy_chars(&ws[1])));
        }
        return Command::Warp(None);
    }
    if is_word(h, "killmonsters") { return Command::KillMonsters; }
    if is_word(h, "r_crt") || is_word(h, "crt") { return Command::Crt(flag_of(&ws)); }
    if is_word(h, "r_scanlines") {
        if n > 1 {
            return Command::Scanlines(Some(copy_chars(&ws[1])));
        }
        return Command::Scanlines(None);
    }
    if is_word(h, "r_quantize") { return Command::Quantize(flag_of(&ws)); }
    if is_word(h, "r_stats") || is_word(h, "stats") { return Command::Stats(flag_of(&ws)); }
    if is_word(h, "quit") || is_word(h, "exit") { return Command::Quit; }
    Command::Unknown(head)
}

/// `index_of` is the first position holding `c`.
proof fn lemma_index_of(s: Seq<char>, c: char, i: int)
    requires
        0 <= i <= s.len(),
        forall|j: int| 0 <= j < i ==> s[j] != c,
        i < s.len() ==> s[i] == c,
    ensures
        index_of(s, c) == i,
    decreases i,
{
    if i > 0 {
        assert forall|j: int| 0 <= j < i - 1 implies s.drop_first()[j] != c by {
            assert(s.drop_first()[j] == s[j + 1]);
        }
        lemma_index_of(s.drop_first(), c, i - 1);
    }
}

fn find_char(s: &[char], c: char) -> (i: usize)
    ensures
        i == index_of(s@, c),
        i <= s@.len(),
{
    let mut i: usize = 0;
    while i < s.len() && s[i] != c
        invariant
            i <= s@.len(),
            forall|j: int| 0 <= j < i ==> s@[j] != c,
        decreases s@.len() - i,
    {
        i += 1;
    }
    proof { lemma_index_of(s@, c, i as int); }
    i
}

fn sub_chars(s: &[char], a: usize, b: usize) -> (r: Vec<char>)
    requires
        a <= b <= s@.len(),
    ensures
        r@ == s@.subrange(a as int, b as int),
{
    let mut r: Vec<char> = Vec::new();
    let mut i = a;
    while i < b
        invariant
            a <= i <= b <= s@.len(),
            r@ == s@.subrange(a as int, i as int),
        decreases b - i,
    {
        r.push(s[i]);
        i += 1;
    }
    r
}

fn or_one_exec(o: Option<usize>) -> (v: usize)
    ensures
        v == or_one(o),
{
    match o { Some(v) => v, None => 1 }
}

/// The episode and level a `map` argument names.
pub fn warp_target(arg: &[char]) -> (r: (usize, usize))
    ensures
        r == map_target(arg@),
{
    let s = string_from_chars(arg);
    let up = to_uppercase(s.as_str());
    let m = chars_of(up.as_str());
    let ell = vec!['L'];
    assert(ell@ =~= seq!['L']);
    if !(m.len() > 0 && m[0] == 'E') {
        assert(!starts_with(m@, seq!['E'])) by {
            if m@.len() >= 1 {
                assert(m@.subrange(0, 1)[0] == m@[0]);
            }
        }
        return (1, 1);
    }
    assert(m@.subrange(0, 1) =~= seq!['E']);
    if !chars_contain(m.as_slice(), ell.as_slice()) {
        return (1, 1);
    }
    let n = m.len();
    let mut a: usize = 0;
    while a < n && m[a] == 'E'
        invariant
            n == m@.len(),
            a <= n,
            forall|i: int| 0 <= i < a ==> #[trigger] m@[i] == 'E',
        decreases n - a,
    {
        a += 1;
    }
    proof {
        let p = |c: char| c == 'E';
        assert forall|i: int| 0 <= i < a implies p(#[trigger] m@[i]) by {}
        lemma_leading_is(m@, p, a as int);
    }
    let rest = sub_chars(m.as_slice(), a, n);
    let i0 = find_char(rest.as_slice(), 'L');
    let p0 = sub_chars(rest.as_slice(), 0, i0);
    let ep = or_one_exec(parse_usize_chars(p0.as_slice()));
    if i0 < rest.len() {
        let after = sub_chars(rest.as_slice(), i0 + 1, rest.len());
        let i1 = find_char(after.as_slice(), 'L');
        let p1 = sub_chars(after.as_slice(), 0, i1);
        let suffix = chars_of(".MAP");
        let p1s = chars_strip_suffixes(p1.as_slice(), suffix.as_slice());
        let lvl = or_one_exec(parse_usize_chars(p1s.as_slice()));
        (ep, lvl)
    } else {
        (ep, 1)
    }
}

fn push_lit(v: &mut Vec<char>, s: &str)
    ensures
        final(v)@ == old(v)@ + s@,
{
    let t = chars_of(s);
    let mut i: usize = 0;
    let ghost base = v@;
    while i < t.len()
        invariant
            i <= t@.len(),
            t@ == s@,
            v@ == base + t@.subrange(0, i as int),
        decreases t@.len() - i,
    {
        v.push(t[i]);
        i += 1;
    }
    assert(t@.subrange(0, t@.len() as int) =~= t@);
}

fn push_all(v: &mut Vec<char>, s: &[char])
    ensures
        final(v)@ == old(v)@ + s@,
{
    let mut i: usize = 0;
    let ghost base = v@;
    while i < s.len()
        invariant
            i <= s@.len(),
            v@ == base + s@.subrange(0, i as int),
        decreases s@.len() - i,
    {
        v.push(s[i]);
        i += 1;
    }
    assert(s@.subrange(0, s@.len() as int) =~= s@);
}

proof fn lemma_log_all_push(l: Seq<LogLine>, es: Seq<LogLine>, e: LogLine)
    ensures
        log_all(l, es.push(e)) == log_push(log_all(l, es), e),
{
    assert(es.push(e).drop_last() =~= es);
}

proof fn lemma_log_all_one(l: Seq<LogLine>, e: LogLine)
    ensures
        log_all(l, seq![e]) == log_push(l, e),
{
    lemma_log_all_push(l, Seq::empty(), e);
    assert(Seq::<LogLine>::empty().push(e) =~= seq![e]);
}

fn unlock_weapons(p: &mut PlayerController, unlock: bool, refill: bool)
    ensures
        *final(p) == (PlayerController { weapons: final(p).weapons, ..*old(p) }),
        forall|i: int| 0 <= i < 12 ==> #[trigger] final(p).weapons@[i] == (WeaponData {
            is_unlocked: if unlock { true } else { old(p).weapons@[i].is_unlocked },
            ammo: if refill { old(p).weapons@[i].max_ammo } else { old(p).weapons@[i].ammo },
            ..old(p).weapons@[i] }),
{
    let mut i: usize = 0;
    while i < 12
        invariant
            i <= 12,
            *p == (PlayerController { weapons: p.weapons, ..*old(p) }),
            forall|j: int| 0 <= j < i ==> #[trigger] p.weapons@[j] == (WeaponData {
                is_unlocked: if unlock { true } else { old(p).weapons@[j].is_unlocked },
                ammo: if refill { old(p).weapons@[j].max_ammo } else { old(p).weapons@[j].ammo },
                ..old(p).weapons@[j] }),
            forall|j: int| i <= j < 12 ==> #[trigger] p.weapons@[j] == old(p).weapons@[j],
        decreases 12 - i,
    {
        let mut w = p.weapons[i];
        if unlock {
            w.is_unlocked = true;
        }
        if refill {
            w.ammo = w.max_ammo;
        }
        p.weapons[i] = w;
        i += 1;
    }
}

/// Applies `give <k>` to a player and returns its log line.
fn give(k: &[char], p: &mut PlayerController) -> (line: (Vec<char>, LogColor))
    ensures
        give_applied(k@, *old(p), *final(p)),
        (line.0@, line.1) == give_line(k@),
{
    let mut text: Vec<char> = Vec::new();
    if is_word(k, "all") {
        p.health = 100;
        p.armor = 100;
        p.has_blue_key = true;
        p.has_red_key = true;
        p.has_yellow_key = true;
        p.inventory.scuba_amount = 100;
        p.inventory.boots_amount = 100;
        p.inventory.jetpack_amount = 100;
        p.inventory.nightvision_amount = 100;
        p.inventory.steroids_amount = 100;
        p.inventory.medkit_amount = 100;
        p.inventory.holoduke_amount = 100;
        unlock_weapons(p, true, true);
        push_lit(&mut text, "All weapons, ammo, keys, and items granted.");
        (text, LogColor::Green)
    } else if is_word(k, "weapons") {
        unlock_weapons(p, true, false);
        push_lit(&mut text, "All weapons unlocked.");
        (text, LogColor::Green)
    } else if is_word(k, "ammo") {
        unlock_weapons(p, false, true);
        push_lit(&mut text, "All ammo replenished.");
        (text, LogColor::Green)
    } else if is_word(k, "keys") {
        p.has_blue_key = true;
        p.has_red_key = true;
        p.has_yellow_key = true;
        push_lit(&mut text, "All access keycards granted.");
        (text, LogColor::Green)
    } else if is_word(k, "health") {
        p.health = 100;
        push_lit(&mut text, "Health restored to 100.");
        (text, LogColor::Green)
    } else if is_word(k, "armor") {
        p.armor = 100;
        push_lit(&mut text, "Armor restored to 100.");
        (text, LogColor::Green)
    } else {
        push_lit(&mut text, "Unknown give parameter '");
        push_all(&mut text, k);
        push_lit(&mut text, "'");
        (text, LogColor::Error)
    }
}

fn on_off_text(prefix: &str, b: bool) -> (v: Vec<char>)
    ensures
        v@ == prefix@ + on_off(b),
{
    let mut v: Vec<char> = Vec::new();
    push_lit(&mut v, prefix);
    if b {
        push_lit(&mut v, "ENABLED");
    } else {
        push_lit(&mut v, "DISABLED");
    }
    v
}

fn warp_message(ep: usize, lvl: usize) -> (v: Vec<char>)
    ensures
        v@ == warp_text(ep, lvl),
{
    let mut v: Vec<char> = Vec::new();
    push_lit(&mut v, "Warping to Episode ");
    push_decimal(&mut v, ep as u64);
    push_lit(&mut v, " Level ");
    push_decimal(&mut v, lvl as u64);
    push_lit(&mut v, " (E");
    push_decimal(&mut v, ep as u64);
    v.push('L');
    push_decimal(&mut v, lvl as u64);
    push_lit(&mut v, ")...");
    v
}

fn to_string_opt(o: Option<Vec<char>>) -> (r: Option<String>)
    ensures
        match opt_chars(o) {
            None => r is None,
            Some(xs) => r matches Some(ys) && ys@ == xs,
        },
{
    match o {
        Some(v) => Some(string_from_chars(v.as_slice())),
        None => None,
    }
}

impl ConsoleState {
    fn log_chars(&mut self, text: &[char], color: LogColor)
        ensures
            final(self).log_view() == log_push(old(self).log_view(), (text@, color)),
            final(self).is_open == old(self).is_open,
            final(self).input_buffer == old(self).input_buffer,
            final(self).history == old(self).history,
            final(self).history_index == old(self).history_index,
    {
        let s = string_from_chars(text);
        self.log(s.as_str(), color);
    }

    fn log_one(&mut self, text: &str, color: LogColor)
        ensures
            final(self).log_view() == log_all(old(self).log_view(), seq![(text@, color)]),
            final(self).is_open == old(self).is_open,
            final(self).input_buffer == old(self).input_buffer,
            final(self).history == old(self).history,
            final(self).history_index == old(self).history_index,
    {
        proof { lemma_log_all_one(self.log_view(), (text@, color)); }
        self.log(text, color);
    }

    fn log_help(&mut self)
        ensures
            final(self).log_view() == log_all(old(self).log_view(), help_lines()),
            final(self).is_open == old(self).is_open,
            final(self).input_buffer == old(self).input_buffer,
            final(self).history == old(self).history,
            final(self).history_index == old(self).history_index,
    {
        let ghost l0 = self.log_view();
        let ghost h = help_lines();
        self.log("Available Commands:", LogColor::Sky);
        self.log("  map <name>            - Warp to map (e.g. map E1L1, map E1L3)", LogColor::White);
        self.log("  god                   - Toggle God Mode", LogColor::White);
        self.log("  noclip                - Toggle No-Clip Mode", LogColor::White);
        self.log("  give <all|weapons|ammo|keys|health|armor> - Replenish items", LogColor::White);
        self.log("  kill                  - Commit suicide", LogColor::White);
        self.log("  killmonsters          - Eliminate all enemies in map", LogColor::White);
        self.log("  clear                 - Clear console text buffer", LogColor::White);
        self.log("  quit / exit           - Exit application", LogColor::White);
        proof {
            assert(log_all(l0, h.subrange(0, 0)) == l0);
            assert(h.subrange(0, 9) =~= h);
            lemma_log_all_push(l0, h.subrange(0, 8), h[8]);
            lemma_log_all_push(l0, h.subrange(0, 7), h[7]);
            lemma_log_all_push(l0, h.subrange(0, 6), h[6]);
            lemma_log_all_push(l0, h.subrange(0, 5), h[5]);
            lemma_log_all_push(l0, h.subrange(0, 4), h[4]);
            lemma_log_all_push(l0, h.subrange(0, 3), h[3]);
            lemma_log_all_push(l0, h.subrange(0, 2), h[2]);
            lemma_log_all_push(l0, h.subrange(0, 1), h[1]);
            lemma_log_all_push(l0, h.subrange(0, 0), h[0]);
            assert(h.subrange(0, 8).push(h[8]) =~= h.subrange(0, 9));
            assert(h.subrange(0, 7).push(h[7]) =~= h.subrange(0, 8));
            assert(h.subrange(0, 6).push(h[6]) =~= h.subrange(0, 7));
            assert(h.subrange(0, 5).push(h[5]) =~= h.subrange(0, 6));
            assert(h.subrange(0, 4).push(h[4]) =~= h.subrange(0, 5));
            assert(h.subrange(0, 3).push(h[3]) =~= h.subrange(0, 4));
            assert(h.subrange(0, 2).push(h[2]) =~= h.subrange(0, 3));
            assert(h.subrange(0, 1).push(h[1]) =~= h.subrange(0, 2));
            assert(h.subrange(0, 0).push(h[0]) =~= h.subrange(0, 1));
        }
    }

    /// Carries out a command that has been read.
    pub fn run_command(&mut self, c: Command, player: &mut Option<PlayerController>) -> (a: ConsoleAction)
        ensures
            final(self).log_view() == (if c@ is Clear { Seq::<LogLine>::empty() }
                else { log_all(old(self).log_view(), command_lines(c@, *old(player))) }),
            player_after(c@, *old(player), *final(player)),
            action_of(c@, a),
            final(self).is_open == old(self).is_open,
            final(self).input_buffer == old(self).input_buffer,
            final(self).history == old(self).history,
            final(self).history_index == old(self).history_index,
    {
        let ghost l0 = self.log_view();
        match c {
            Command::Help => {
                self.log_help();
                ConsoleAction::Nothing
            },
            Command::Clear => {
                self.log_lines.clear();
                assert(self.log_view() =~= Seq::<LogLine>::empty());
                ConsoleAction::Nothing
            },
            Command::God => {
                if let Some(mut p) = *player {
                    p.god_mode = !p.god_mode;
                    *player = Some(p);
                    self.log_one(if p.god_mode { "God Mode ON" } else { "God Mode OFF" }, LogColor::Yellow);
                }
                ConsoleAction::Nothing
            },
            Command::NoClip => {
                if let Some(mut p) = *player {
                    p.no_clip = !p.no_clip;
                    *player = Some(p);
                    self.log_one(if p.no_clip { "No-Clip ON" } else { "No-Clip OFF" }, LogColor::Yellow);
                }
                ConsoleAction::Nothing
            },
            Command::Kill => {
                if let Some(mut p) = *player {
                    p.health = 0;
                    *player = Some(p);
                    self.log_one("Player committed suicide.", LogColor::Red);
                }
                ConsoleAction::Nothing
            },
            Command::Give(None) => {
                self.log_one("Usage: give <all | weapons | ammo | keys | health | armor>", LogColor::Error);
                ConsoleAction::Nothing
            },
            Command::Give(Some(k)) => {
                if let Some(mut p) = *player {
                    let (text, color) = give(k.as_slice(), &mut p);
                    *player = Some(p);
                    proof { lemma_log_all_one(self.log_view(), (text@, color)); }
                    self.log_chars(text.as_slice(), color);
                }
                ConsoleAction::Nothing
            },
            Command::Warp(None) => {
                self.log_one("Usage: map <eXlY> (e.g. map E1L1, map E1L3)", LogColor::Error);
                ConsoleAction::Nothing
            },
            Command::Warp(Some(arg)) => {
                let (ep, lvl) = warp_target(arg.as_slice());
                let text = warp_message(ep, lvl);
                proof { lemma_log_all_one(self.log_view(), (text@, LogColor::Lime)); }
                self.log_chars(text.as_slice(), LogColor::Lime);
                ConsoleAction::LoadLevel(LoadLevelEvent { episode: ep, level: lvl })
            },
            Command::KillMonsters => {
                self.log_one("All monsters in level eliminated.", LogColor::Orange);
                ConsoleAction::Nothing
            },
            Command::Crt(b) => {
                let text = on_off_text("Retro CRT Post-Processing: ", b);
                proof { lemma_log_all_one(self.log_view(), (text@, LogColor::Aqua)); }
                self.log_chars(text.as_slice(), LogColor::Aqua);
                ConsoleAction::SetCrt(b)
            },
            Command::Scanlines(arg) => {
                assert(log_all(l0, Seq::<LogLine>::empty()) == l0);
                ConsoleAction::SetScanlines(to_string_opt(arg))
            },
            Command::Quantize(b) => {
                let text = on_off_text("256-Color VGA Palette Quantization: ", b);
                proof { lemma_log_all_one(self.log_view(), (text@, LogColor::Aqua)); }
                self.log_chars(text.as_slice(), LogColor::Aqua);
                ConsoleAction::SetQuantize(b)
            },
            Command::Stats(b) => {
                let text = on_off_text("Engine Performance Profiler: ", b);
                proof { lemma_log_all_one(self.log_view(), (text@, LogColor::Aqua)); }
                self.log_chars(text.as_slice(), LogColor::Aqua);
                ConsoleAction::Nothing
            },
            Command::Quit => {
                self.log_one("Exiting application...", LogColor::Crimson);
                ConsoleAction::Quit
            },
            Command::Unknown(h) => {
                let mut text: Vec<char> = Vec::new();
                push_lit(&mut text, "Unknown command '");
                push_all(&mut text, h.as_slice());
                push_lit(&mut text, "'. Type 'help' for commands.");
                proof { lemma_log_all_one(self.log_view(), (text@, LogColor::Error)); }
                self.log_chars(text.as_slice(), LogColor::Error);
                ConsoleAction::Nothing
            },
        }
    }
}

/// The echo of an entered line.
pub open spec fn echo_line(t: Seq<char>) -> LogLine {
    ("] "@ + t, LogColor::Yellow)
}

/// `str::trim`.
pub open spec fn trimmed(s: Seq<char>) -> Seq<char> {
    trim_by(s, |c: char| is_unicode_whitespace(c))
}

impl ConsoleState {
    /// Runs an entered line. A blank line does nothing. Otherwise the
    /// trimmed line joins the history (browsing ends), is echoed to the log,
    /// and its command is carried out on the player, if any.
    pub fn execute_command(&mut self, cmd_str: &str, player: &mut Option<PlayerController>) -> (a: ConsoleAction)
        ensures
            ({
                let t = trimmed(cmd_str@);
                if t.len() == 0 {
                    &&& *final(self) == *old(self)
                    &&& *final(player) == *old(player)
                    &&& a == ConsoleAction::Nothing
                } else {
                    let c = parse_command(t);
                    let l1 = log_push(old(self).log_view(), echo_line(t));
                    &&& final(self).history_view() == old(self).history_view().push(t)
                    &&& final(self).history_index is None
                    &&& final(self).is_open == old(self).is_open
                    &&& final(self).input_buffer == old(self).input_buffer
                    &&& final(self).log_view() == (if c is Clear { Seq::<LogLine>::empty() } else { log_all(l1, command_lines(c, *old(player))) })
                    &&& player_after(c, *old(player), *final(player))
                    &&& action_of(c, a)
                }
            }),
    {
        let cs = chars_of(cmd_str);
        let t = trim_ws(&cs);
        if t.len() == 0 {
            return ConsoleAction::Nothing;
        }
        proof {
            let s = cmd_str@;
            let p = |c: char| is_unicode_whitespace(c);
            crate::text::lemma_leading_bound(s, p);
            let a = leading(s, p) as int;
            assert(t@ == trim_by(s, p));
            assert(a != s.len());
            crate::text::lemma_trailing_bound(s, p);
            assert(t@ == s.subrange(a, s.len() - crate::text::trailing(s, p) as int));
            assert(t@[0] == s[a]);
            assert(!is_unicode_whitespace(t@[0]));
            lemma_words_last(t@);
        }
        let entry = string_from_chars(t.as_slice());
        self.history.push(entry);
        self.history_index = None;
        let mut echo: Vec<char> = Vec::new();
        push_lit(&mut echo, "] ");
        push_all(&mut echo, t.as_slice());
        self.log_chars(echo.as_slice(), LogColor::Yellow);
        proof {
            assert(self.history_view() =~= old(self).history_view().push(t@));
        }
        let c = read_command(t.as_slice());
        self.run_command(c, player)
    }

    /// Enter: runs the input line, which is emptied first.
    pub fn submit_input(&mut self, player: &mut Option<PlayerController>) -> (a: ConsoleAction)
        ensures
            ({
                let t = trimmed(old(self).input_buffer@);
                &&& final(self).input_buffer@ == Seq::<char>::empty()
                &&& final(self).is_open == old(self).is_open
                &&& if t.len() == 0 {
                    &&& final(self).history == old(self).history
                    &&& final(self).history_index == old(self).history_index
                    &&& final(self).log_lines == old(self).log_lines
                    &&& *final(player) == *old(player)
                    &&& a == ConsoleAction::Nothing
                } else {
                    let c = parse_command(t);
                    let l1 = log_push(old(self).log_view(), echo_line(t));
                    &&& final(self).history_view() == old(self).history_view().push(t)
                    &&& final(self).history_index is None
                    &&& final(self).log_view() == (if c is Clear { Seq::<LogLine>::empty() } else { log_all(l1, command_lines(c, *old(player))) })
                    &&& player_after(c, *old(player), *final(player))
                    &&& action_of(c, a)
                }
            }),
    {
        let cmd = self.input_buffer.clone();
        self.input_buffer = String::new();
        self.execute_command(cmd.as_str(), player)
    }

    /// Escape closes the console.
    pub fn close(&mut self)
        ensures
            *final(self) == (ConsoleState { is_open: false, ..*old(self) }),
    {
        self.is_open = false;
    }
}


proof fn lemma_digits_not(d: Seq<char>, c: char)
    requires
        all_digits(d),
        !is_digit(c),
    ensures
        forall|j: int| 0 <= j < d.len() ==> d[j] != c,
{
    assert forall|j: int| 0 <= j < d.len() implies d[j] != c by {
        assert(is_digit(d[j]));
    }
}

/// The `map` command understands the campaign's own map file names: given
/// "E<episode>L<level>.MAP" it warps to that episode and level.
pub proof fn lemma_map_command_accepts_map_names(ep: usize, lvl: usize)
    ensures
        map_target(map_file_name(ep, lvl)) == (ep, lvl),
{
    let de = decimal(ep as nat);
    let dl = decimal(lvl as nat);
    let suffix = seq!['.', 'M', 'A', 'P'];
    let s = map_file_name(ep, lvl);
    let a = de.len() as int;
    let b = dl.len() as int;
    reveal_strlit(".MAP");
    assert(".MAP"@ =~= suffix);
    lemma_decimal_digits(ep as nat);
    lemma_decimal_digits(lvl as nat);
    lemma_parse_decimal(ep as nat, usize::MAX as nat);
    lemma_parse_decimal(lvl as nat, usize::MAX as nat);
    assert(s =~= seq!['E'] + de + seq!['L'] + dl + suffix);
    // The name is plain ASCII and already upper case.
    assert forall|i: int| 0 <= i < s.len() implies is_ascii_char(#[trigger] s[i]) && ascii_upper(s[i]) == s[i] by {
        if 1 <= i < 1 + a {
            assert(s[i] == de[i - 1]);
            assert(is_digit(de[i - 1]));
        } else if 2 + a <= i < 2 + a + b {
            assert(s[i] == dl[i - 2 - a]);
            assert(is_digit(dl[i - 2 - a]));
        }
    }
    assert(uppercase(s) =~= s);
    assert(starts_with(s, seq!['E'])) by {
        assert(s.subrange(0, 1) =~= seq!['E']);
    }
    assert(contains_seq(s, seq!['L'])) by {
        assert(occurs_at(s, seq!['L'], 1 + a)) by {
            assert(s.subrange(1 + a, 2 + a) =~= seq!['L']);
        }
    }
    // Exactly one leading E.
    let p = |c: char| c == 'E';
    assert(!p(s[1])) by {
        assert(s[1] == de[0]);
        assert(is_digit(de[0]));
    }
    lemma_leading_is(s, p, 1);
    let rest = s.subrange(1, s.len() as int);
    assert(rest =~= de + seq!['L'] + dl + suffix);
    lemma_digits_not(de, 'L');
    assert(forall|j: int| 0 <= j < a ==> rest[j] != 'L') by {
        assert forall|j: int| 0 <= j < a implies rest[j] != 'L' by {
            assert(rest[j] == de[j]);
        }
    }
    lemma_index_of(rest, 'L', a);
    assert(rest.subrange(0, a) =~= de);
    let after = rest.subrange(a + 1, rest.len() as int);
    assert(after =~= dl + suffix);
    lemma_digits_not(dl, 'L');
    assert forall|j: int| 0 <= j < after.len() implies after[j] != 'L' by {
        if j < b {
            assert(after[j] == dl[j]);
        } else {
            assert(after[j] == suffix[j - b]);
        }
    }
    lemma_index_of(after, 'L', after.len() as int);
    assert(after.subrange(0, after.len() as int) =~= after);
    // Trailing ".MAP" comes off once; the digits before it end in a digit.
    assert(ends_with(after, suffix)) by {
        assert(after.subrange(after.len() - 4, after.len() as int) =~= suffix);
    }
    assert(after.subrange(0, after.len() - 4) =~= dl);
    assert(!ends_with(dl, suffix)) by {
        if ends_with(dl, suffix) {
            assert(dl.subrange(b - 4, b)[3] == dl.last());
            assert(is_digit(dl[b - 1]));
        }
    }
    assert(strip_suffixes(dl, suffix) == dl);
    assert(strip_suffixes(after, suffix) == dl);
}

} // verus!
