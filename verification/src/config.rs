//! The settings file (duke3d.cfg): INI sections of `Key = value` lines.
use vstd::prelude::*;
use crate::grp::{eq_ignore_ascii_case, str_eq_ignore_ascii_case};
use crate::text::{
    chars_of, string_from_chars, to_lowercase, trim_ws, trim_by, is_unicode_whitespace, lowercase,
    parse_uint, parse_uint_chars, decimal, push_decimal, chars_eq, lower_seq, lemma_parse_decimal,
};

verus! {

/// The settings, apart from the mouse sensitivity, which the engine keeps
/// as a real number.
#[derive(Debug, Clone, Copy, PartialEq, Eq, Structural)]
pub struct DukeConfig {
    pub screen_width: u32,
    pub screen_height: u32,
    pub fx_volume: u8,
    pub music_volume: u8,
    pub sound_toggle: bool,
    pub music_toggle: bool,
    pub voice_toggle: bool,
    pub ambience_toggle: bool,
    pub mouse_aiming: bool,
    pub invert_mouse: bool,
    pub run_mode: bool,
    pub crosshairs: bool,
}

impl DukeConfig {
    pub open spec fn spec_default() -> DukeConfig {
        DukeConfig {
            screen_width: 1280,
            screen_height: 720,
            fx_volume: 192,
            music_volume: 128,
            sound_toggle: true,
            music_toggle: true,
            voice_toggle: true,
            ambience_toggle: true,
            mouse_aiming: true,
            invert_mouse: false,
            run_mode: true,
            crosshairs: false,
        }
    }

    pub fn new() -> (c: Self)
        ensures
            c == Self::spec_default(),
    {
        DukeConfig {
            screen_width: 1280,
            screen_height: 720,
            fx_volume: 192,
            music_volume: 128,
            sound_toggle: true,
            music_toggle: true,
            voice_toggle: true,
            ambience_toggle: true,
            mouse_aiming: true,
            invert_mouse: false,
            run_mode: true,
            crosshairs: false,
        }
    }
}

impl Default for DukeConfig {
    /// 1280x720, effects at 192 and music at 128, all sound on, mouse
    /// aiming and run mode on, no inverted mouse and no crosshair.
    fn default() -> (c: Self)
        ensures
            c == Self::spec_default(),
    {
        DukeConfig::new()
    }
}

/// `s` split at every `c` (`str::split`): one more piece than separators.
pub open spec fn split_at_char(s: Seq<char>, c: char) -> Seq<Seq<char>>
    decreases s.len(),
{
    if s.len() == 0 {
        seq![Seq::empty()]
    } else {
        let p = split_at_char(s.drop_last(), c);
        if s.last() == c { p.push(Seq::empty()) } else { p.update(p.len() - 1, p.last().push(s.last())) }
    }
}

proof fn lemma_split_nonempty(s: Seq<char>, c: char)
    ensures
        split_at_char(s, c).len() >= 1,
    decreases s.len(),
{
    if s.len() > 0 {
        lemma_split_nonempty(s.drop_last(), c);
    }
}

/// Splits characters at every `c`.
pub fn split_chars(s: &[char], c: char) -> (r: Vec<Vec<char>>)
    ensures
        r@.len() == split_at_char(s@, c).len(),
        forall|i: int| 0 <= i < r@.len() ==> (#[trigger] r@[i])@ == split_at_char(s@, c)[i],
{
    let mut r: Vec<Vec<char>> = Vec::new();
    r.push(Vec::new());
    assert(s@.subrange(0, 0) =~= Seq::<char>::empty());
    let n = s.len();
    let mut i: usize = 0;
    while i < n
        invariant
            n == s@.len(),
            i <= n,
            r@.len() == split_at_char(s@.subrange(0, i as int), c).len(),
            r@.len() >= 1,
            forall|k: int| 0 <= k < r@.len() ==> (#[trigger] r@[k])@ == split_at_char(s@.subrange(0, i as int), c)[k],
        decreases n - i,
    {
        let ghost cur = s@.subrange(0, i + 1);
        assert(cur.drop_last() =~= s@.subrange(0, i as int));
        if s[i] == c {
            r.push(Vec::new());
        } else {
            let mut last = r.pop().unwrap();
            last.push(s[i]);
            r.push(last);
        }
        assert forall|k: int| 0 <= k < r@.len() implies (#[trigger] r@[k])@ == split_at_char(cur, c)[k] by {
            if k < r@.len() - 1 {
            }
        }
        i += 1;
    }
    assert(s@.subrange(0, n as int) =~= s@);
    r
}

/// `str::trim`.
pub open spec fn trimmed(s: Seq<char>) -> Seq<char> {
    trim_by(s, |c: char| is_unicode_whitespace(c))
}

/// Index of the first `c` in `s` (its length when absent).
pub open spec fn first_index(s: Seq<char>, c: char) -> int
    decreases s.len(),
{
    if s.len() == 0 { 0 } else if s[0] == c { 0 } else { 1 + first_index(s.drop_first(), c) }
}

/// A switch value: "1", or "true" in any case.
pub open spec fn truthy(v: Seq<char>) -> bool {
    v == seq!['1'] || eq_ignore_ascii_case(v, "true"@)
}

/// Reader state: the settings so far, the current section (lower-cased)
/// and the mouse sensitivity values met, in order.
pub type IniState = (DukeConfig, Seq<char>, Seq<Seq<char>>);

/// The effect of `key = val` in `section`.
pub open spec fn ini_assign(st: IniState, key: Seq<char>, val: Seq<char>) -> IniState {
    let (c, sec, sens) = st;
    if sec == "screen setup"@ && key == "screenwidth"@ {
        (match parse_uint(val, u32::MAX as nat) { Some(w) => DukeConfig { screen_width: w as u32, ..c }, None => c }, sec, sens)
    } else if sec == "screen setup"@ && key == "screenheight"@ {
        (match parse_uint(val, u32::MAX as nat) { Some(h) => DukeConfig { screen_height: h as u32, ..c }, None => c }, sec, sens)
    } else if sec == "sound setup"@ && key == "fxvolume"@ {
        (match parse_uint(val, u8::MAX as nat) { Some(v) => DukeConfig { fx_volume: v as u8, ..c }, None => c }, sec, sens)
    } else if sec == "sound setup"@ && key == "musicvolume"@ {
        (match parse_uint(val, u8::MAX as nat) { Some(v) => DukeConfig { music_volume: v as u8, ..c }, None => c }, sec, sens)
    } else if sec == "sound setup"@ && key == "soundtoggle"@ {
        (DukeConfig { sound_toggle: truthy(val), ..c }, sec, sens)
    } else if sec == "sound setup"@ && key == "musictoggle"@ {
        (DukeConfig { music_toggle: truthy(val), ..c }, sec, sens)
    } else if sec == "sound setup"@ && key == "voicetoggle"@ {
        (DukeConfig { voice_toggle: truthy(val), ..c }, sec, sens)
    } else if sec == "sound setup"@ && key == "ambiencetoggle"@ {
        (DukeConfig { ambience_toggle: truthy(val), ..c }, sec, sens)
    } else if sec == "controls"@ && key == "mousesensitivity"@ {
        (c, sec, sens.push(val))
    } else if sec == "controls"@ && key == "mouseaiming"@ {
        (DukeConfig { mouse_aiming: truthy(val), ..c }, sec, sens)
    } else if sec == "controls"@ && key == "mouseaimingflipped"@ {
        (DukeConfig { invert_mouse: truthy(val), ..c }, sec, sens)
    } else if sec == "misc"@ && key == "runmode"@ {
        (DukeConfig { run_mode: truthy(val), ..c }, sec, sens)
    } else if sec == "misc"@ && key == "crosshairs"@ {
        (DukeConfig { crosshairs: truthy(val), ..c }, sec, sens)
    } else {
        st
    }
}

/// One line of the file: blank lines and `;`/`#` comments are skipped,
/// `[name]` opens a section, and `key = value ; comment` assigns (key and
/// section compared lower-cased).
pub open spec fn ini_line(st: IniState, line: Seq<char>) -> IniState {
    let l = trimmed(line);
    if l.len() == 0 || l[0] == ';' || l[0] == '#' {
        st
    } else if l[0] == '[' && l.last() == ']' {
        (st.0, lowercase(trimmed(l.subrange(1, l.len() - 1))), st.2)
    } else if first_index(l, '=') < l.len() {
        let i = first_index(l, '=');
        let key = lowercase(trimmed(l.subrange(0, i)));
        let rest = l.subrange(i + 1, l.len() as int);
        let val = trimmed(rest.subrange(0, first_index(rest, ';')));
        ini_assign(st, key, val)
    } else {
        st
    }
}

/// The reader state after the first `k` lines.
pub open spec fn ini_lines(st: IniState, lines: Seq<Seq<char>>, k: int) -> IniState
    decreases k,
{
    if k <= 0 { st } else { ini_line(ini_lines(st, lines, k - 1), lines[k - 1]) }
}

/// The settings a file's text gives, starting from the defaults, and the
/// mouse sensitivity values it holds.
pub open spec fn ini_parsed(content: Seq<char>) -> IniState {
    let lines = split_at_char(content, '\n');
    ini_lines((DukeConfig::spec_default(), Seq::empty(), Seq::empty()), lines, lines.len() as int)
}

proof fn lemma_first_index(s: Seq<char>, c: char, i: int)
    requires
        0 <= i <= s.len(),
        forall|j: int| 0 <= j < i ==> s[j] != c,
        i < s.len() ==> s[i] == c,
    ensures
        first_index(s, c) == i,
    decreases i,
{
    if i > 0 {
        assert forall|j: int| 0 <= j < i - 1 implies s.drop_first()[j] != c by {
            assert(s.drop_first()[j] == s[j + 1]);
        }
        lemma_first_index(s.drop_first(), c, i - 1);
    }
}

fn find_first(s: &[char], c: char) -> (i: usize)
    ensures
        i == first_index(s@, c),
        i <= s@.len(),
{
    let mut i: usize = 0;
    while i < s.len() && s[i] != c
        invariant
            i <= s@.len(),
            forall|j: int| 0 <= j < i ==> s@[j] != c,
        decreases s@.len() - i,
    {
        i += 1;
    }
    proof { lemma_first_index(s@, c, i as int); }
    i
}

fn slice_chars(s: &[char], a: usize, b: usize) -> (r: Vec<char>)
    requires
        a <= b <= s@.len(),
    ensures
        r@ == s@.subrange(a as int, b as int),
{
    let mut r: Vec<char> = Vec::new();
    let mut i = a;
    while i < b
        invariant
            a <= i <= b <= s@.len(),
            r@ == s@.subrange(a as int, i as int),
        decreases b - i,
    {
        r.push(s[i]);
        i += 1;
    }
    r
}

fn lower(v: &[char]) -> (r: Vec<char>)
    ensures
        r@ == lowercase(v@),
{
    let s = string_from_chars(v);
    let l = to_lowercase(s.as_str());
    chars_of(l.as_str())
}

fn same(h: &[char], lit: &str) -> (r: bool)
    ensures
        r == (h@ == lit@),
{
    let l = chars_of(lit);
    chars_eq(h, l.as_slice())
}

fn truthy_exec(v: &[char]) -> (r: bool)
    ensures
        r == truthy(v@),
{
    let one = vec!['1'];
    assert(one@ =~= seq!['1']);
    if chars_eq(v, one.as_slice()) {
        return true;
    }
    let s = string_from_chars(v);
    str_eq_ignore_ascii_case(s.as_str(), "true")
}

pub open spec fn sens_view(v: Seq<String>) -> Seq<Seq<char>> {
    v.map_values(|s: String| s@)
}

fn assign(cfg: &mut DukeConfig, sec: &[char], key: &[char], val: &[char], sens: &mut Vec<String>)
    ensures
        (*final(cfg), sec@, sens_view(final(sens)@)) == ini_assign((*old(cfg), sec@, sens_view(old(sens)@)), key@, val@),
{
    if same(sec, "screen setup") && same(key, "screenwidth") {
        if let Some(w) = parse_uint_chars(val, 4294967295) { cfg.screen_width = w as u32; }
    } else if same(sec, "screen setup") && same(key, "screenheight") {
        if let Some(h) = parse_uint_chars(val, 4294967295) { cfg.screen_height = h as u32; }
    } else if same(sec, "sound setup") && same(key, "fxvolume") {
        if let Some(v) = parse_uint_chars(val, 255) { cfg.fx_volume = v as u8; }
    } else if same(sec, "sound setup") && same(key, "musicvolume") {
        if let Some(v) = parse_uint_chars(val, 255) { cfg.music_volume = v as u8; }
    } else if same(sec, "sound setup") && same(key, "soundtoggle") {
        cfg.sound_toggle = truthy_exec(val);
    } else if same(sec, "sound setup") && same(key, "musictoggle") {
        cfg.music_toggle = truthy_exec(val);
    } else if same(sec, "sound setup") && same(key, "voicetoggle") {
        cfg.voice_toggle = truthy_exec(val);
    } else if same(sec, "sound setup") && same(key, "ambiencetoggle") {
        cfg.ambience_toggle = truthy_exec(val);
    } else if same(sec, "controls") && same(key, "mousesensitivity") {
        sens.push(string_from_chars(val));
        assert(sens_view(sens@) =~= sens_view(old(sens)@).push(val@));
    } else if same(sec, "controls") && same(key, "mouseaiming") {
        cfg.mouse_aiming = truthy_exec(val);
    } else if same(sec, "controls") && same(key, "mouseaimingflipped") {
        cfg.invert_mouse = truthy_exec(val);
    } else if same(sec, "misc") && same(key, "runmode") {
        cfg.run_mode = truthy_exec(val);
    } else if same(sec, "misc") && same(key, "crosshairs") {
        cfg.crosshairs = truthy_exec(val);
    }
}

fn read_line(cfg: &mut DukeConfig, sec: &mut Vec<char>, sens: &mut Vec<String>, line: &Vec<char>)
    ensures
        (*final(cfg), final(sec)@, sens_view(final(sens)@)) == ini_line((*old(cfg), old(sec)@, sens_view(old(sens)@)), line@),
{
    let l = trim_ws(line);
    let n = l.len();
    if n == 0 || l[0] == ';' || l[0] == '#' {
        return;
    }
    if l[0] == '[' && l[n - 1] == ']' {
        let inner = slice_chars(l.as_slice(), 1, n - 1);
        let t = trim_ws(&inner);
        *sec = lower(t.as_slice());
        return;
    }
    let i = find_first(l.as_slice(), '=');
    if i < n {
        let kraw = slice_chars(l.as_slice(), 0, i);
        let kt = trim_ws(&kraw);
        let key = lower(kt.as_slice());
        let rest = slice_chars(l.as_slice(), i + 1, n);
        let j = find_first(rest.as_slice(), ';');
        let vraw = slice_chars(rest.as_slice(), 0, j);
        let val = trim_ws(&vraw);
        assign(cfg, sec.as_slice(), key.as_slice(), val.as_slice(), sens);
    }
}

impl DukeConfig {
    /// Reads a settings file's text over the defaults. Returns the settings
    /// and every mouse sensitivity value in the file, in order (the engine
    /// keeps the last one that reads as a number).
    pub fn parse_ini(content: &str) -> (r: (DukeConfig, Vec<String>))
        ensures
            (r.0, sens_view(r.1@)) == ({
                let st = ini_parsed(content@);
                (st.0, st.2)
            }),
    {
        let cs = chars_of(content);
        let lines = split_chars(cs.as_slice(), '\n');
        let ghost ls = split_at_char(cs@, '\n');
        let mut cfg = DukeConfig::new();
        let mut sec: Vec<char> = Vec::new();
        let mut sens: Vec<String> = Vec::new();
        let mut k: usize = 0;
        assert(sens_view(sens@) =~= Seq::<Seq<char>>::empty());
        while k < lines.len()
            invariant
                k <= lines@.len(),
                lines@.len() == ls.len(),
                ls == split_at_char(content@, '\n'),
                forall|i: int| 0 <= i < lines@.len() ==> (#[trigger] lines@[i])@ == ls[i],
                (cfg, sec@, sens_view(sens@)) == ini_lines((DukeConfig::spec_default(), Seq::empty(), Seq::empty()), ls, k as int),
            decreases lines@.len() - k,
        {
            read_line(&mut cfg, &mut sec, &mut sens, &lines[k]);
            k += 1;
        }
        (cfg, sens)
    }
}

pub open spec fn flag_digit(b: bool) -> Seq<char> {
    if b { seq!['1'] } else { seq!['0'] }
}

/// A `Key = value` line.
pub open spec fn key_line(k: Seq<char>, v: Seq<char>) -> Seq<char> {
    k + seq![' ', '=', ' '] + v
}

/// A `[Section]` line.
pub open spec fn section_line(n: Seq<char>) -> Seq<char> {
    seq!['['] + n + seq![']']
}

/// The lines `to_ini` writes: four sections, one `Key = value` line per
/// setting, switches as 0/1, a blank line between sections.
pub open spec fn config_lines(c: DukeConfig, sensitivity: Seq<char>) -> Seq<Seq<char>> {
    seq![
        section_line("Screen Setup"@),
        key_line("ScreenWidth"@, decimal(c.screen_width as nat)),
        key_line("ScreenHeight"@, decimal(c.screen_height as nat)),
        Seq::empty(),
        section_line("Sound Setup"@),
        key_line("FXVolume"@, decimal(c.fx_volume as nat)),
        key_line("MusicVolume"@, decimal(c.music_volume as nat)),
        key_line("SoundToggle"@, flag_digit(c.sound_toggle)),
        key_line("MusicToggle"@, flag_digit(c.music_toggle)),
        key_line("VoiceToggle"@, flag_digit(c.voice_toggle)),
        key_line("AmbienceToggle"@, flag_digit(c.ambience_toggle)),
        Seq::empty(),
        section_line("Controls"@),
        key_line("MouseSensitivity"@, sensitivity),
        key_line("MouseAiming"@, flag_digit(c.mouse_aiming)),
        key_line("MouseAimingFlipped"@, flag_digit(c.invert_mouse)),
        Seq::empty(),
        section_line("Misc"@),
        key_line("RunMode"@, flag_digit(c.run_mode)),
        key_line("Crosshairs"@, flag_digit(c.crosshairs)),
    ]
}

/// Lines, each followed by a line feed.
pub open spec fn lines_text(ls: Seq<Seq<char>>) -> Seq<char>
    decreases ls.len(),
{
    if ls.len() == 0 { Seq::empty() } else { lines_text(ls.drop_last()) + ls.last() + seq!['\n'] }
}

/// The text `to_ini` writes.
pub open spec fn ini_text(c: DukeConfig, sensitivity: Seq<char>) -> Seq<char> {
    lines_text(config_lines(c, sensitivity))
}

proof fn lemma_lines_push(ls: Seq<Seq<char>>, l: Seq<char>)
    ensures
        lines_text(ls.push(l)) == lines_text(ls) + l + seq!['\n'],
{
    assert(ls.push(l).drop_last() =~= ls);
}

pub fn append_lit(v: &mut Vec<char>, s: &str)
    ensures
        final(v)@ == old(v)@ + s@,
{
    let t = chars_of(s);
    let mut i: usize = 0;
    let ghost base = v@;
    while i < t.len()
        invariant
            i <= t@.len(),
            t@ == s@,
            v@ == base + t@.subrange(0, i as int),
        decreases t@.len() - i,
    {
        v.push(t[i]);
        i += 1;
    }
    assert(t@.subrange(0, t@.len() as int) =~= t@);
}

/// Appends a switch value and ends the line.
fn append_flag(v: &mut Vec<char>, b: bool)
    ensures
        final(v)@ == old(v)@ + flag_digit(b) + seq!['\n'],
{
    v.push(if b { '1' } else { '0' });
    v.push('\n');
    assert(final(v)@ =~= old(v)@ + flag_digit(b) + seq!['\n']);
}

/// Appends `Key = `.
fn append_key(v: &mut Vec<char>, k: &str)
    ensures
        final(v)@ == old(v)@ + k@ + seq![' ', '=', ' '],
{
    append_lit(v, k);
    v.push(' ');
    v.push('=');
    v.push(' ');
    assert(final(v)@ =~= old(v)@ + k@ + seq![' ', '=', ' ']);
}

/// Appends a `[Section]` line.
fn append_section(v: &mut Vec<char>, n: &str)
    ensures
        final(v)@ == old(v)@ + section_line(n@) + seq!['\n'],
{
    v.push('[');
    append_lit(v, n);
    v.push(']');
    v.push('\n');
    assert(final(v)@ =~= old(v)@ + section_line(n@) + seq!['\n']);
}

fn append_key_decimal(v: &mut Vec<char>, k: &str, n: u64)
    ensures
        final(v)@ == old(v)@ + key_line(k@, decimal(n as nat)) + seq!['\n'],
{
    append_key(v, k);
    push_decimal(v, n);
    v.push('\n');
    assert(final(v)@ =~= old(v)@ + key_line(k@, decimal(n as nat)) + seq!['\n']);
}

fn append_key_flag(v: &mut Vec<char>, k: &str, b: bool)
    ensures
        final(v)@ == old(v)@ + key_line(k@, flag_digit(b)) + seq!['\n'],
{
    append_key(v, k);
    append_flag(v, b);
    assert(final(v)@ =~= old(v)@ + key_line(k@, flag_digit(b)) + seq!['\n']);
}

fn append_key_text(v: &mut Vec<char>, k: &str, t: &str)
    ensures
        final(v)@ == old(v)@ + key_line(k@, t@) + seq!['\n'],
{
    append_key(v, k);
    append_lit(v, t);
    v.push('\n');
    assert(final(v)@ =~= old(v)@ + key_line(k@, t@) + seq!['\n']);
}

fn append_blank(v: &mut Vec<char>)
    ensures
        final(v)@ == old(v)@ + Seq::<char>::empty() + seq!['\n'],
{
    v.push('\n');
    assert(final(v)@ =~= old(v)@ + Seq::<char>::empty() + seq!['\n']);
}

impl DukeConfig {
    /// The settings as file text; `mouse_sensitivity` is the sensitivity
    /// already written with two decimals.
    pub fn to_ini(&self, mouse_sensitivity: &str) -> (s: String)
        ensures
            s@ == ini_text(*self, mouse_sensitivity@),
    {
        let ghost mut done: Seq<Seq<char>> = Seq::empty();
        let mut v: Vec<char> = Vec::new();
        assert(v@ =~= lines_text(done));
        append_section(&mut v, "Screen Setup");
        proof { lemma_lines_push(done, section_line("Screen Setup"@)); done = done.push(section_line("Screen Setup"@)); }
        append_key_decimal(&mut v, "ScreenWidth", self.screen_width as u64);
        proof { lemma_lines_push(done, key_line("ScreenWidth"@, decimal(self.screen_width as nat))); done = done.push(key_line("ScreenWidth"@, decimal(self.screen_width as nat))); }
        append_key_decimal(&mut v, "ScreenHeight", self.screen_height as u64);
        proof { lemma_lines_push(done, key_line("ScreenHeight"@, decimal(self.screen_height as nat))); done = done.push(key_line("ScreenHeight"@, decimal(self.screen_height as nat))); }
        append_blank(&mut v);
        proof { lemma_lines_push(done, Seq::empty()); done = done.push(Seq::empty()); }
        append_section(&mut v, "Sound Setup");
        proof { lemma_lines_push(done, section_line("Sound Setup"@)); done = done.push(section_line("Sound Setup"@)); }
        append_key_decimal(&mut v, "FXVolume", self.fx_volume as u64);
        proof { lemma_lines_push(done, key_line("FXVolume"@, decimal(self.fx_volume as nat))); done = done.push(key_line("FXVolume"@, decimal(self.fx_volume as nat))); }
        append_key_decimal(&mut v, "MusicVolume", self.music_volume as u64);
        proof { lemma_lines_push(done, key_line("MusicVolume"@, decimal(self.music_volume as nat))); done = done.push(key_line("MusicVolume"@, decimal(self.music_volume as nat))); }
        append_key_flag(&mut v, "SoundToggle", self.sound_toggle);
        proof { lemma_lines_push(done, key_line("SoundToggle"@, flag_digit(self.sound_toggle))); done = done.push(key_line("SoundToggle"@, flag_digit(self.sound_toggle))); }
        append_key_flag(&mut v, "MusicToggle", self.music_toggle);
        proof { lemma_lines_push(done, key_line("MusicToggle"@, flag_digit(self.music_toggle))); done = done.push(key_line("MusicToggle"@, flag_digit(self.music_toggle))); }
        append_key_flag(&mut v, "VoiceToggle", self.voice_toggle);
        proof { lemma_lines_push(done, key_line("VoiceToggle"@, flag_digit(self.voice_toggle))); done = done.push(key_line("VoiceToggle"@, flag_digit(self.voice_toggle))); }
        append_key_flag(&mut v, "AmbienceToggle", self.ambience_toggle);
        proof { lemma_lines_push(done, key_line("AmbienceToggle"@, flag_digit(self.ambience_toggle))); done = done.push(key_line("AmbienceToggle"@, flag_digit(self.ambience_toggle))); }
        append_blank(&mut v);
        proof { lemma_lines_push(done, Seq::empty()); done = done.push(Seq::empty()); }
        append_section(&mut v, "Controls");
        proof { lemma_lines_push(done, section_line("Controls"@)); done = done.push(section_line("Controls"@)); }
        append_key_text(&mut v, "MouseSensitivity", mouse_sensitivity);
        proof { lemma_lines_push(done, key_line("MouseSensitivity"@, mouse_sensitivity@)); done = done.push(key_line("MouseSensitivity"@, mouse_sensitivity@)); }
        append_key_flag(&mut v, "MouseAiming", self.mouse_aiming);
        proof { lemma_lines_push(done, key_line("MouseAiming"@, flag_digit(self.mouse_aiming))); done = done.push(key_line("MouseAiming"@, flag_digit(self.mouse_aiming))); }
        append_key_flag(&mut v, "MouseAimingFlipped", self.invert_mouse);
        proof { lemma_lines_push(done, key_line("MouseAimingFlipped"@, flag_digit(self.invert_mouse))); done = done.push(key_line("MouseAimingFlipped"@, flag_digit(self.invert_mouse))); }
        append_blank(&mut v);
        proof { lemma_lines_push(done, Seq::empty()); done = done.push(Seq::empty()); }
        append_section(&mut v, "Misc");
        proof { lemma_lines_push(done, section_line("Misc"@)); done = done.push(section_line("Misc"@)); }
        append_key_flag(&mut v, "RunMode", self.run_mode);
        proof { lemma_lines_push(done, key_line("RunMode"@, flag_digit(self.run_mode))); done = done.push(key_line("RunMode"@, flag_digit(self.run_mode))); }
        append_key_flag(&mut v, "Crosshairs", self.crosshairs);
        proof { lemma_lines_push(done, key_line("Crosshairs"@, flag_digit(self.crosshairs))); done = done.push(key_line("Crosshairs"@, flag_digit(self.crosshairs))); }
        assert(done =~= config_lines(*self, mouse_sensitivity@));
        string_from_chars(v.as_slice())
    }
}

/// No character of `s` is `c`.
pub open spec fn free_of(s: Seq<char>, c: char) -> bool {
    forall|i: int| 0 <= i < s.len() ==> s[i] != c
}

pub proof fn lemma_split_append_free(p: Seq<char>, l: Seq<char>, c: char)
    requires
        free_of(l, c),
    ensures
        split_at_char(p + l, c) == split_at_char(p, c).update(split_at_char(p, c).len() - 1, split_at_char(p, c).last() + l),
    decreases l.len(),
{
    lemma_split_nonempty(p, c);
    if l.len() == 0 {
        assert(p + l =~= p);
        assert(split_at_char(p, c).last() + l =~= split_at_char(p, c).last());
        assert(split_at_char(p, c).update(split_at_char(p, c).len() - 1, split_at_char(p, c).last()) =~= split_at_char(p, c));
    } else {
        let l0 = l.drop_last();
        assert(free_of(l0, c)) by {
            assert forall|i: int| 0 <= i < l0.len() implies l0[i] != c by {
                assert(l0[i] == l[i]);
            }
        }
        lemma_split_append_free(p, l0, c);
        assert((p + l).drop_last() =~= p + l0);
        assert((p + l).last() == l.last());
        assert(l.last() != c);
        let sp = split_at_char(p, c);
        let q = split_at_char(p + l0, c);
        assert(q == sp.update(sp.len() - 1, sp.last() + l0));
        assert(q.len() == sp.len());
        assert(q.last() == sp.last() + l0);
        assert((sp.last() + l0).push(l.last()) =~= sp.last() + l);
        assert(split_at_char(p + l, c) == q.update(q.len() - 1, q.last().push(l.last())));
        assert(q.update(q.len() - 1, q.last().push(l.last())) =~= sp.update(sp.len() - 1, sp.last() + l));
    }
}

/// Splitting text made of lines at line feeds gives back the lines and
/// the empty rest after the last line feed.
pub proof fn lemma_split_lines(ls: Seq<Seq<char>>)
    requires
        forall|i: int| 0 <= i < ls.len() ==> free_of(#[trigger] ls[i], '\n'),
    ensures
        split_at_char(lines_text(ls), '\n') == ls.push(Seq::empty()),
    decreases ls.len(),
{
    if ls.len() == 0 {
        assert(split_at_char(Seq::empty(), '\n') =~= seq![Seq::<char>::empty()]);
        assert(ls.push(Seq::empty()) =~= seq![Seq::<char>::empty()]);
    } else {
        let ls0 = ls.drop_last();
        assert forall|i: int| 0 <= i < ls0.len() implies free_of(#[trigger] ls0[i], '\n') by {
            assert(ls0[i] == ls[i]);
        }
        lemma_split_lines(ls0);
        let x = lines_text(ls0);
        let l = ls.last();
        assert(free_of(l, '\n')) by {
            assert(l == ls[ls.len() - 1]);
        }
        lemma_split_append_free(x, l, '\n');
        let t = lines_text(ls);
        assert(t == x + l + seq!['\n']);
        assert(t.drop_last() =~= x + l);
        assert(t.last() == '\n');
        let sx = split_at_char(x, '\n');
        assert(sx.update(sx.len() - 1, sx.last() + l) =~= ls);
    }
}

proof fn lemma_trim_id(s: Seq<char>)
    requires
        s.len() > 0,
        !is_unicode_whitespace(s[0]),
        !is_unicode_whitespace(s.last()),
    ensures
        trimmed(s) == s,
{
    let p = |c: char| is_unicode_whitespace(c);
    crate::text::lemma_leading_is(s, p, 0);
    crate::text::lemma_trailing_is(s, p, 0);
    assert(s.subrange(0, s.len() as int) =~= s);
}

proof fn lemma_trimmed_ends(v: Seq<char>)
    requires
        trimmed(v) == v,
        v.len() > 0,
    ensures
        !is_unicode_whitespace(v[0]),
        !is_unicode_whitespace(v.last()),
{
    let p = |c: char| is_unicode_whitespace(c);
    crate::text::lemma_leading_bound(v, p);
    crate::text::lemma_trailing_bound(v, p);
}

proof fn lemma_trim_space_prefix(v: Seq<char>)
    requires
        trimmed(v) == v,
    ensures
        trimmed(seq![' '] + v) == v,
{
    let p = |c: char| is_unicode_whitespace(c);
    let s = seq![' '] + v;
    if v.len() == 0 {
        crate::text::lemma_leading_is(s, p, 1);
        assert(v =~= Seq::<char>::empty());
    } else {
        lemma_trimmed_ends(v);
        assert(s[1] == v[0]);
        crate::text::lemma_leading_is(s, p, 1);
        assert(s.last() == v.last());
        crate::text::lemma_trailing_is(s, p, 0);
        assert(s.subrange(1, s.len() as int) =~= v);
    }
}

proof fn lemma_trim_space_suffix(k: Seq<char>)
    requires
        k.len() > 0,
        !is_unicode_whitespace(k[0]),
        !is_unicode_whitespace(k.last()),
    ensures
        trimmed(k + seq![' ']) == k,
{
    let p = |c: char| is_unicode_whitespace(c);
    let s = k + seq![' '];
    assert(s[0] == k[0]);
    crate::text::lemma_leading_is(s, p, 0);
    assert(s[s.len() - 2] == k.last());
    crate::text::lemma_trailing_is(s, p, 1);
    assert(s.subrange(0, s.len() - 1) =~= k);
}

/// A name usable as a key: letters without spaces or `=`.
pub open spec fn plain_key(k: Seq<char>) -> bool {
    &&& k.len() > 0
    &&& forall|i: int| 0 <= i < k.len() ==> !is_unicode_whitespace(#[trigger] k[i]) && k[i] != '='
    &&& k[0] != ';' && k[0] != '#' && k[0] != '['
}

/// A `Key = value` line assigns the value to the lower-cased key.
proof fn lemma_key_line(st: IniState, k: Seq<char>, v: Seq<char>)
    requires
        plain_key(k),
        trimmed(v) == v,
        free_of(v, ';'),
    ensures
        ini_line(st, key_line(k, v)) == ini_assign(st, lowercase(k), v),
{
    let line = key_line(k, v);
    let n = k.len() as int;
    assert(line[0] == k[0]);
    assert(!is_unicode_whitespace(k[n - 1]));
    let l = if v.len() == 0 { k + seq![' ', '='] } else { line };
    if v.len() == 0 {
        let p = |c: char| is_unicode_whitespace(c);
        assert(line =~= k + seq![' ', '=', ' ']);
        crate::text::lemma_leading_is(line, p, 0);
        crate::text::lemma_trailing_is(line, p, 1);
        assert(line.subrange(0, line.len() - 1) =~= l);
        assert(trimmed(line) == l);
    } else {
        lemma_trimmed_ends(v);
        assert(line.last() == v.last());
        lemma_trim_id(line);
    }
    assert(l[0] == k[0]);
    assert(l.len() > 0);
    assert forall|j: int| 0 <= j < n + 1 implies l[j] != '=' by {
        if j < n {
            assert(l[j] == k[j]);
        } else {
            assert(l[j] == ' ');
        }
    }
    assert(l[n + 1] == '=');
    lemma_first_index(l, '=', n + 1);
    assert(l.subrange(0, n + 1) =~= k + seq![' ']);
    lemma_trim_space_suffix(k);
    let rest = l.subrange(n + 2, l.len() as int);
    if v.len() == 0 {
        assert(rest =~= Seq::<char>::empty());
        lemma_first_index(rest, ';', 0);
        assert(rest.subrange(0, 0) =~= Seq::<char>::empty());
        let e = Seq::<char>::empty();
        assert(trimmed(e) =~= e);
        assert(v =~= e);
    } else {
        assert(rest =~= seq![' '] + v);
        assert forall|j: int| 0 <= j < rest.len() implies rest[j] != ';' by {
            if j > 0 {
                assert(rest[j] == v[j - 1]);
            }
        }
        lemma_first_index(rest, ';', rest.len() as int);
        assert(rest.subrange(0, rest.len() as int) =~= rest);
        lemma_trim_space_prefix(v);
    }
}

/// A `[Name]` line opens the lower-cased section.
proof fn lemma_section_line(st: IniState, name: Seq<char>)
    requires
        name.len() > 0,
        !is_unicode_whitespace(name[0]),
        !is_unicode_whitespace(name.last()),
    ensures
        ini_line(st, section_line(name)) == (st.0, lowercase(name), st.2),
{
    let line = section_line(name);
    lemma_trim_id(line);
    assert(line.subrange(1, line.len() - 1) =~= name);
    lemma_trim_id(name);
}

proof fn lemma_blank_line(st: IniState)
    ensures
        ini_line(st, Seq::empty()) == st,
{
    let e = Seq::<char>::empty();
    assert(trimmed(e) =~= e);
}

proof fn lemma_free_key_line(k: Seq<char>, v: Seq<char>, c: char)
    requires
        free_of(k, c),
        free_of(v, c),
        c != ' ' && c != '=',
    ensures
        free_of(key_line(k, v), c),
{
    let l = key_line(k, v);
    assert forall|i: int| 0 <= i < l.len() implies l[i] != c by {
        if i < k.len() {
            assert(l[i] == k[i]);
        } else if i >= k.len() + 3 {
            assert(l[i] == v[i - k.len() - 3]);
        }
    }
}

proof fn lemma_free_section_line(n: Seq<char>, c: char)
    requires
        free_of(n, c),
        c != '[' && c != ']',
    ensures
        free_of(section_line(n), c),
{
    let l = section_line(n);
    assert forall|i: int| 0 <= i < l.len() implies l[i] != c by {
        if 1 <= i <= n.len() {
            assert(l[i] == n[i - 1]);
        }
    }
}

/// A decimal number is a value the reader takes back unchanged.
proof fn lemma_decimal_value(n: nat)
    ensures
        trimmed(decimal(n)) == decimal(n),
        free_of(decimal(n), ';'),
        free_of(decimal(n), '\n'),
{
    crate::text::lemma_decimal_digits(n);
    let d = decimal(n);
    assert(crate::text::is_digit(d[0]));
    assert(crate::text::is_digit(d[d.len() - 1]));
    lemma_trim_id(d);
    assert forall|i: int| 0 <= i < d.len() implies d[i] != ';' && d[i] != '\n' by {
        assert(crate::text::is_digit(d[i]));
    }
}

proof fn lemma_flag_value(b: bool)
    ensures
        trimmed(flag_digit(b)) == flag_digit(b),
        free_of(flag_digit(b), ';'),
        free_of(flag_digit(b), '\n'),
        truthy(flag_digit(b)) == b,
{
    lemma_trim_id(flag_digit(b));
    reveal_strlit("true");
    if !b {
        assert(flag_digit(b)[0] != seq!['1'][0]);
        assert(lower_seq(flag_digit(b)).len() != lower_seq("true"@).len());
    }
}

proof fn lemma_ini_names()
    ensures
        lowercase("Screen Setup"@) == "screen setup"@,
        "Screen Setup"@.len() > 0 && !is_unicode_whitespace("Screen Setup"@[0]) && !is_unicode_whitespace("Screen Setup"@.last()),
        free_of("Screen Setup"@, '\n'),
        lowercase("Sound Setup"@) == "sound setup"@,
        "Sound Setup"@.len() > 0 && !is_unicode_whitespace("Sound Setup"@[0]) && !is_unicode_whitespace("Sound Setup"@.last()),
        free_of("Sound Setup"@, '\n'),
        lowercase("Controls"@) == "controls"@,
        "Controls"@.len() > 0 && !is_unicode_whitespace("Controls"@[0]) && !is_unicode_whitespace("Controls"@.last()),
        free_of("Controls"@, '\n'),
        lowercase("Misc"@) == "misc"@,
        "Misc"@.len() > 0 && !is_unicode_whitespace("Misc"@[0]) && !is_unicode_whitespace("Misc"@.last()),
        free_of("Misc"@, '\n'),
        lowercase("ScreenWidth"@) == "screenwidth"@,
        plain_key("ScreenWidth"@),
        free_of("ScreenWidth"@, '\n'),
        lowercase("ScreenHeight"@) == "screenheight"@,
        plain_key("ScreenHeight"@),
        free_of("ScreenHeight"@, '\n'),
        lowercase("FXVolume"@) == "fxvolume"@,
        plain_key("FXVolume"@),
        free_of("FXVolume"@, '\n'),
        lowercase("MusicVolume"@) == "musicvolume"@,
        plain_key("MusicVolume"@),
        free_of("MusicVolume"@, '\n'),
        lowercase("SoundToggle"@) == "soundtoggle"@,
        plain_key("SoundToggle"@),
        free_of("SoundToggle"@, '\n'),
        lowercase("MusicToggle"@) == "musictoggle"@,
        plain_key("MusicToggle"@),
        free_of("MusicToggle"@, '\n'),
        lowercase("VoiceToggle"@) == "voicetoggle"@,
        plain_key("VoiceToggle"@),
        free_of("VoiceToggle"@, '\n'),
        lowercase("AmbienceToggle"@) == "ambiencetoggle"@,
        plain_key("AmbienceToggle"@),
        free_of("AmbienceToggle"@, '\n'),
        lowercase("MouseSensitivity"@) == "mousesensitivity"@,
        plain_key("MouseSensitivity"@),
        free_of("MouseSensitivity"@, '\n'),
        lowercase("MouseAiming"@) == "mouseaiming"@,
        plain_key("MouseAiming"@),
        free_of("MouseAiming"@, '\n'),
        lowercase("MouseAimingFlipped"@) == "mouseaimingflipped"@,
        plain_key("MouseAimingFlipped"@),
        free_of("MouseAimingFlipped"@, '\n'),
        lowercase("RunMode"@) == "runmode"@,
        plain_key("RunMode"@),
        free_of("RunMode"@, '\n'),
        lowercase("Crosshairs"@) == "crosshairs"@,
        plain_key("Crosshairs"@),
        free_of("Crosshairs"@, '\n'),
{
    reveal_strlit("Screen Setup");
    reveal_strlit("screen setup");
    assert(lower_seq("Screen Setup"@) =~= "screen setup"@);
    reveal_strlit("Sound Setup");
    reveal_strlit("sound setup");
    assert(lower_seq("Sound Setup"@) =~= "sound setup"@);
    reveal_strlit("Controls");
    reveal_strlit("controls");
    assert(lower_seq("Controls"@) =~= "controls"@);
    reveal_strlit("Misc");
    reveal_strlit("misc");
    assert(lower_seq("Misc"@) =~= "misc"@);
    reveal_strlit("ScreenWidth");
    reveal_strlit("screenwidth");
    assert(lower_seq("ScreenWidth"@) =~= "screenwidth"@);
    reveal_strlit("ScreenHeight");
    reveal_strlit("screenheight");
    assert(lower_seq("ScreenHeight"@) =~= "screenheight"@);
    reveal_strlit("FXVolume");
    reveal_strlit("fxvolume");
    assert(lower_seq("FXVolume"@) =~= "fxvolume"@);
    reveal_strlit("MusicVolume");
    reveal_strlit("musicvolume");
    assert(lower_seq("MusicVolume"@) =~= "musicvolume"@);
    reveal_strlit("SoundToggle");
    reveal_strlit("soundtoggle");
    assert(lower_seq("SoundToggle"@) =~= "soundtoggle"@);
    reveal_strlit("MusicToggle");
    reveal_strlit("musictoggle");
    assert(lower_seq("MusicToggle"@) =~= "musictoggle"@);
    reveal_strlit("VoiceToggle");
    reveal_strlit("voicetoggle");
    assert(lower_seq("VoiceToggle"@) =~= "voicetoggle"@);
    reveal_strlit("AmbienceToggle");
    reveal_strlit("ambiencetoggle");
    assert(lower_seq("AmbienceToggle"@) =~= "ambiencetoggle"@);
    reveal_strlit("MouseSensitivity");
    reveal_strlit("mousesensitivity");
    assert(lower_seq("MouseSensitivity"@) =~= "mousesensitivity"@);
    reveal_strlit("MouseAiming");
    reveal_strlit("mouseaiming");
    assert(lower_seq("MouseAiming"@) =~= "mouseaiming"@);
    reveal_strlit("MouseAimingFlipped");
    reveal_strlit("mouseaimingflipped");
    assert(lower_seq("MouseAimingFlipped"@) =~= "mouseaimingflipped"@);
    reveal_strlit("RunMode");
    reveal_strlit("runmode");
    assert(lower_seq("RunMode"@) =~= "runmode"@);
    reveal_strlit("Crosshairs");
    reveal_strlit("crosshairs");
    assert(lower_seq("Crosshairs"@) =~= "crosshairs"@);
}


proof fn lemma_reveal_sections()
    ensures
        "screen setup"@ != "sound setup"@,
        "screen setup"@ != "controls"@,
        "screen setup"@ != "misc"@,
        "sound setup"@ != "controls"@,
        "sound setup"@ != "misc"@,
        "controls"@ != "misc"@,
{
    reveal_strlit("screen setup");
    reveal_strlit("sound setup");
    reveal_strlit("controls");
    reveal_strlit("misc");
    assert("screen setup"@.len() == 12);
    assert("sound setup"@.len() == 11);
    assert("controls"@.len() == 8);
    assert("misc"@.len() == 4);
}

/// What the keys of the screen section do there.
proof fn lemma_assign_screen(c: DukeConfig, sens: Seq<Seq<char>>, v: Seq<char>)
    ensures
        ini_assign((c, "screen setup"@, sens), "screenwidth"@, v) == (match parse_uint(v, u32::MAX as nat) {
            Some(w) => DukeConfig { screen_width: w as u32, ..c },
            None => c,
        }, "screen setup"@, sens),
        ini_assign((c, "screen setup"@, sens), "screenheight"@, v) == (match parse_uint(v, u32::MAX as nat) {
            Some(h) => DukeConfig { screen_height: h as u32, ..c },
            None => c,
        }, "screen setup"@, sens),
{
    reveal_strlit("screenwidth");
    reveal_strlit("screenheight");
    assert("screenheight"@.len() != "screenwidth"@.len());
}

/// What the keys of the sound section do there.
proof fn lemma_assign_sound(c: DukeConfig, sens: Seq<Seq<char>>, v: Seq<char>)
    ensures
        ini_assign((c, "sound setup"@, sens), "fxvolume"@, v) == (match parse_uint(v, u8::MAX as nat) {
            Some(x) => DukeConfig { fx_volume: x as u8, ..c },
            None => c,
        }, "sound setup"@, sens),
        ini_assign((c, "sound setup"@, sens), "musicvolume"@, v) == (match parse_uint(v, u8::MAX as nat) {
            Some(x) => DukeConfig { music_volume: x as u8, ..c },
            None => c,
        }, "sound setup"@, sens),
        ini_assign((c, "sound setup"@, sens), "soundtoggle"@, v) == (DukeConfig { sound_toggle: truthy(v), ..c }, "sound setup"@, sens),
        ini_assign((c, "sound setup"@, sens), "musictoggle"@, v) == (DukeConfig { music_toggle: truthy(v), ..c }, "sound setup"@, sens),
        ini_assign((c, "sound setup"@, sens), "voicetoggle"@, v) == (DukeConfig { voice_toggle: truthy(v), ..c }, "sound setup"@, sens),
        ini_assign((c, "sound setup"@, sens), "ambiencetoggle"@, v) == (DukeConfig { ambience_toggle: truthy(v), ..c }, "sound setup"@, sens),
{
    lemma_reveal_sections();
    reveal_strlit("fxvolume");
    reveal_strlit("musicvolume");
    reveal_strlit("soundtoggle");
    reveal_strlit("musictoggle");
    reveal_strlit("voicetoggle");
    reveal_strlit("ambiencetoggle");
    assert("musicvolume"@[0] != "fxvolume"@[0]);
    assert("soundtoggle"@[0] != "fxvolume"@[0] && "soundtoggle"@[0] != "musicvolume"@[0]);
    assert("musictoggle"@[5] != "musicvolume"@[5] && "musictoggle"@[0] != "fxvolume"@[0] && "musictoggle"@[0] != "soundtoggle"@[0]);
    assert("voicetoggle"@[0] != "fxvolume"@[0] && "voicetoggle"@[0] != "musicvolume"@[0]);
    assert("voicetoggle"@[0] != "soundtoggle"@[0] && "voicetoggle"@[0] != "musictoggle"@[0]);
    assert("ambiencetoggle"@[0] != "fxvolume"@[0] && "ambiencetoggle"@[0] != "musicvolume"@[0]);
    assert("ambiencetoggle"@[0] != "soundtoggle"@[0] && "ambiencetoggle"@[0] != "musictoggle"@[0]);
    assert("ambiencetoggle"@[0] != "voicetoggle"@[0]);
}

/// What the keys of the controls and misc sections do there.
proof fn lemma_assign_controls(c: DukeConfig, sens: Seq<Seq<char>>, v: Seq<char>)
    ensures
        ini_assign((c, "controls"@, sens), "mousesensitivity"@, v) == (c, "controls"@, sens.push(v)),
        ini_assign((c, "controls"@, sens), "mouseaiming"@, v) == (DukeConfig { mouse_aiming: truthy(v), ..c }, "controls"@, sens),
        ini_assign((c, "controls"@, sens), "mouseaimingflipped"@, v) == (DukeConfig { invert_mouse: truthy(v), ..c }, "controls"@, sens),
        ini_assign((c, "misc"@, sens), "runmode"@, v) == (DukeConfig { run_mode: truthy(v), ..c }, "misc"@, sens),
        ini_assign((c, "misc"@, sens), "crosshairs"@, v) == (DukeConfig { crosshairs: truthy(v), ..c }, "misc"@, sens),
{
    lemma_reveal_sections();
    reveal_strlit("mousesensitivity");
    reveal_strlit("mouseaiming");
    reveal_strlit("mouseaimingflipped");
    reveal_strlit("runmode");
    reveal_strlit("crosshairs");
    assert("mouseaiming"@.len() != "mousesensitivity"@.len());
    assert("mouseaimingflipped"@.len() != "mousesensitivity"@.len());
    assert("mouseaimingflipped"@.len() != "mouseaiming"@.len());
    assert("crosshairs"@.len() != "runmode"@.len());
}

/// Every line `to_ini` writes is free of line feeds when the sensitivity
/// text is.
proof fn lemma_config_lines_free(c: DukeConfig, t: Seq<char>)
    requires
        free_of(t, '\n'),
    ensures
        forall|i: int| 0 <= i < config_lines(c, t).len() ==> free_of(#[trigger] config_lines(c, t)[i], '\n'),
{
    lemma_ini_names();
    let l = config_lines(c, t);
    let e = Seq::<char>::empty();
    assert(free_of(e, '\n'));
    lemma_decimal_value(c.screen_width as nat);
    lemma_decimal_value(c.screen_height as nat);
    lemma_decimal_value(c.fx_volume as nat);
    lemma_decimal_value(c.music_volume as nat);
    lemma_flag_value(c.sound_toggle);
    lemma_flag_value(c.music_toggle);
    lemma_flag_value(c.voice_toggle);
    lemma_flag_value(c.ambience_toggle);
    lemma_flag_value(c.mouse_aiming);
    lemma_flag_value(c.invert_mouse);
    lemma_flag_value(c.run_mode);
    lemma_flag_value(c.crosshairs);
    lemma_free_section_line("Screen Setup"@, '\n');
    lemma_free_section_line("Sound Setup"@, '\n');
    lemma_free_section_line("Controls"@, '\n');
    lemma_free_section_line("Misc"@, '\n');
    lemma_free_key_line("ScreenWidth"@, decimal(c.screen_width as nat), '\n');
    lemma_free_key_line("ScreenHeight"@, decimal(c.screen_height as nat), '\n');
    lemma_free_key_line("FXVolume"@, decimal(c.fx_volume as nat), '\n');
    lemma_free_key_line("MusicVolume"@, decimal(c.music_volume as nat), '\n');
    lemma_free_key_line("SoundToggle"@, flag_digit(c.sound_toggle), '\n');
    lemma_free_key_line("MusicToggle"@, flag_digit(c.music_toggle), '\n');
    lemma_free_key_line("VoiceToggle"@, flag_digit(c.voice_toggle), '\n');
    lemma_free_key_line("AmbienceToggle"@, flag_digit(c.ambience_toggle), '\n');
    lemma_free_key_line("MouseSensitivity"@, t, '\n');
    lemma_free_key_line("MouseAiming"@, flag_digit(c.mouse_aiming), '\n');
    lemma_free_key_line("MouseAimingFlipped"@, flag_digit(c.invert_mouse), '\n');
    lemma_free_key_line("RunMode"@, flag_digit(c.run_mode), '\n');
    lemma_free_key_line("Crosshairs"@, flag_digit(c.crosshairs), '\n');
}

proof fn lemma_ini_step(st0: IniState, ls: Seq<Seq<char>>, k: int)
    requires
        1 <= k,
    ensures
        ini_lines(st0, ls, k) == ini_line(ini_lines(st0, ls, k - 1), ls[k - 1]),
{
}

/// Reading what `to_ini` wrote gives back every setting, the last section
/// and the one sensitivity text.
pub proof fn lemma_ini_roundtrip(c: DukeConfig, t: Seq<char>)
    requires
        free_of(t, '\n'),
        free_of(t, ';'),
        trimmed(t) == t,
    ensures
        ini_parsed(ini_text(c, t)) == (c, "misc"@, seq![t]),
{
    lemma_config_lines_free(c, t);
    let l = config_lines(c, t);
    lemma_split_lines(l);
    let ls = l.push(Seq::empty());
    assert(split_at_char(ini_text(c, t), '\n') == ls);
    lemma_ini_names();
    let st0: IniState = (DukeConfig::spec_default(), Seq::empty(), Seq::empty());
    assert(ls.len() == 21);
    assert(ini_parsed(ini_text(c, t)) == ini_lines(st0, ls, 21));
    assert(ini_lines(st0, ls, 21) == (c, "misc"@, seq![t])) by {
        lemma_ini_fold(c, t, st0, ls);
    }
}

/// The reader's state after each line of what `to_ini` wrote.
proof fn lemma_ini_fold(c: DukeConfig, t: Seq<char>, st0: IniState, ls: Seq<Seq<char>>)
    requires
        free_of(t, ';'),
        trimmed(t) == t,
        st0 == (DukeConfig::spec_default(), Seq::<char>::empty(), Seq::<Seq<char>>::empty()),
        ls == config_lines(c, t).push(Seq::empty()),
    ensures
        ini_lines(st0, ls, 21) == (c, "misc"@, seq![t]),
{
    lemma_ini_names();
    let d = DukeConfig::spec_default();
    let e = Seq::<Seq<char>>::empty();
    let sc = "screen setup"@;
    // [Screen Setup]
    assert(ls[0] == section_line("Screen Setup"@));
    lemma_ini_step(st0, ls, 1);
    lemma_section_line(st0, "Screen Setup"@);
    assert(ini_lines(st0, ls, 1) == (d, sc, e));
    let w = decimal(c.screen_width as nat);
    assert(ls[1] == key_line("ScreenWidth"@, w));
    lemma_ini_step(st0, ls, 2);
    lemma_decimal_value(c.screen_width as nat);
    lemma_parse_decimal(c.screen_width as nat, u32::MAX as nat);
    lemma_key_line((d, sc, e), "ScreenWidth"@, w);
    lemma_assign_screen(d, e, w);
    let d2 = DukeConfig { screen_width: c.screen_width, ..d };
    assert(ini_lines(st0, ls, 2) == (d2, sc, e));
    let h = decimal(c.screen_height as nat);
    assert(ls[2] == key_line("ScreenHeight"@, h));
    lemma_ini_step(st0, ls, 3);
    lemma_decimal_value(c.screen_height as nat);
    lemma_parse_decimal(c.screen_height as nat, u32::MAX as nat);
    lemma_key_line((d2, sc, e), "ScreenHeight"@, h);
    lemma_assign_screen(d2, e, h);
    let d3 = DukeConfig { screen_height: c.screen_height, ..d2 };
    assert(ini_lines(st0, ls, 3) == (d3, sc, e));
    assert(ls[3] == Seq::<char>::empty());
    lemma_ini_step(st0, ls, 4);
    lemma_blank_line((d3, sc, e));
    // [Sound Setup]
    assert(ls[4] == section_line("Sound Setup"@));
    lemma_ini_step(st0, ls, 5);
    lemma_section_line((d3, sc, e), "Sound Setup"@);
    assert(ini_lines(st0, ls, 5) == (d3, "sound setup"@, e));
    lemma_sound_fold(c, t, st0, ls, d3);
    let d11 = DukeConfig {
        fx_volume: c.fx_volume,
        music_volume: c.music_volume,
        sound_toggle: c.sound_toggle,
        music_toggle: c.music_toggle,
        voice_toggle: c.voice_toggle,
        ambience_toggle: c.ambience_toggle,
        ..d3
    };
    assert(ls[11] == Seq::<char>::empty());
    lemma_ini_step(st0, ls, 12);
    lemma_blank_line((d11, "sound setup"@, e));
    assert(ini_lines(st0, ls, 12) == (d11, "sound setup"@, e));
    lemma_tail_fold(c, t, st0, ls, d11);
}

proof fn lemma_sound_fold(c: DukeConfig, t: Seq<char>, st0: IniState, ls: Seq<Seq<char>>, d3: DukeConfig)
    requires
        ls == config_lines(c, t).push(Seq::empty()),
        ini_lines(st0, ls, 5) == (d3, "sound setup"@, Seq::<Seq<char>>::empty()),
    ensures
        ini_lines(st0, ls, 11) == (DukeConfig {
            fx_volume: c.fx_volume,
            music_volume: c.music_volume,
            sound_toggle: c.sound_toggle,
            music_toggle: c.music_toggle,
            voice_toggle: c.voice_toggle,
            ambience_toggle: c.ambience_toggle,
            ..d3
        }, "sound setup"@, Seq::<Seq<char>>::empty()),
{
    lemma_ini_names();
    let e = Seq::<Seq<char>>::empty();
    let ss = "sound setup"@;
    let fx = decimal(c.fx_volume as nat);
    assert(ls[5] == key_line("FXVolume"@, fx));
    lemma_ini_step(st0, ls, 6);
    lemma_decimal_value(c.fx_volume as nat);
    lemma_parse_decimal(c.fx_volume as nat, u8::MAX as nat);
    lemma_key_line((d3, ss, e), "FXVolume"@, fx);
    lemma_assign_sound(d3, e, fx);
    let d6 = DukeConfig { fx_volume: c.fx_volume, ..d3 };
    assert(ini_lines(st0, ls, 6) == (d6, ss, e));
    let mv = decimal(c.music_volume as nat);
    assert(ls[6] == key_line("MusicVolume"@, mv));
    lemma_ini_step(st0, ls, 7);
    lemma_decimal_value(c.music_volume as nat);
    lemma_parse_decimal(c.music_volume as nat, u8::MAX as nat);
    lemma_key_line((d6, ss, e), "MusicVolume"@, mv);
    lemma_assign_sound(d6, e, mv);
    let d7 = DukeConfig { music_volume: c.music_volume, ..d6 };
    assert(ini_lines(st0, ls, 7) == (d7, ss, e));
    let fe = flag_digit(c.sound_toggle);
    assert(ls[7] == key_line("SoundToggle"@, fe));
    lemma_ini_step(st0, ls, 8);
    lemma_flag_value(c.sound_toggle);
    lemma_key_line((d7, ss, e), "SoundToggle"@, fe);
    lemma_assign_sound(d7, e, fe);
    let d8 = DukeConfig { sound_toggle: c.sound_toggle, ..d7 };
    assert(ini_lines(st0, ls, 8) == (d8, ss, e));
    let ff = flag_digit(c.music_toggle);
    assert(ls[8] == key_line("MusicToggle"@, ff));
    lemma_ini_step(st0, ls, 9);
    lemma_flag_value(c.music_toggle);
    lemma_key_line((d8, ss, e), "MusicToggle"@, ff);
    lemma_assign_sound(d8, e, ff);
    let d9 = DukeConfig { music_toggle: c.music_toggle, ..d8 };
    assert(ini_lines(st0, ls, 9) == (d9, ss, e));
    let fg = flag_digit(c.voice_toggle);
    assert(ls[9] == key_line("VoiceToggle"@, fg));
    lemma_ini_step(st0, ls, 10);
    lemma_flag_value(c.voice_toggle);
    lemma_key_line((d9, ss, e), "VoiceToggle"@, fg);
    lemma_assign_sound(d9, e, fg);
    let d10 = DukeConfig { voice_toggle: c.voice_toggle, ..d9 };
    assert(ini_lines(st0, ls, 10) == (d10, ss, e));
    let fh = flag_digit(c.ambience_toggle);
    assert(ls[10] == key_line("AmbienceToggle"@, fh));
    lemma_ini_step(st0, ls, 11);
    lemma_flag_value(c.ambience_toggle);
    lemma_key_line((d10, ss, e), "AmbienceToggle"@, fh);
    lemma_assign_sound(d10, e, fh);
    assert(ini_lines(st0, ls, 11) == (DukeConfig { ambience_toggle: c.ambience_toggle, ..d10 }, ss, e));
}

proof fn lemma_tail_fold(c: DukeConfig, t: Seq<char>, st0: IniState, ls: Seq<Seq<char>>, d11: DukeConfig)
    requires
        free_of(t, ';'),
        trimmed(t) == t,
        ls == config_lines(c, t).push(Seq::empty()),
        ini_lines(st0, ls, 12) == (d11, "sound setup"@, Seq::<Seq<char>>::empty()),
        d11.screen_width == c.screen_width,
        d11.screen_height == c.screen_height,
        d11.fx_volume == c.fx_volume,
        d11.music_volume == c.music_volume,
        d11.sound_toggle == c.sound_toggle,
        d11.music_toggle == c.music_toggle,
        d11.voice_toggle == c.voice_toggle,
        d11.ambience_toggle == c.ambience_toggle,
    ensures
        ini_lines(st0, ls, 21) == (c, "misc"@, seq![t]),
{
    lemma_ini_names();
    let e = Seq::<Seq<char>>::empty();
    let cs = "controls"@;
    let ms = "misc"@;
    let one = seq![t];
    assert(ls[12] == section_line("Controls"@));
    lemma_ini_step(st0, ls, 13);
    lemma_section_line((d11, "sound setup"@, e), "Controls"@);
    assert(ini_lines(st0, ls, 13) == (d11, cs, e));
    assert(ls[13] == key_line("MouseSensitivity"@, t));
    lemma_ini_step(st0, ls, 14);
    lemma_key_line((d11, cs, e), "MouseSensitivity"@, t);
    lemma_assign_controls(d11, e, t);
    assert(e.push(t) =~= one);
    assert(ini_lines(st0, ls, 14) == (d11, cs, one));
    let fa = flag_digit(c.mouse_aiming);
    assert(ls[14] == key_line("MouseAiming"@, fa));
    lemma_ini_step(st0, ls, 15);
    lemma_flag_value(c.mouse_aiming);
    lemma_key_line((d11, cs, one), "MouseAiming"@, fa);
    lemma_assign_controls(d11, one, fa);
    let d15 = DukeConfig { mouse_aiming: c.mouse_aiming, ..d11 };
    assert(ini_lines(st0, ls, 15) == (d15, cs, one));
    let fb = flag_digit(c.invert_mouse);
    assert(ls[15] == key_line("MouseAimingFlipped"@, fb));
    lemma_ini_step(st0, ls, 16);
    lemma_flag_value(c.invert_mouse);
    lemma_key_line((d15, cs, one), "MouseAimingFlipped"@, fb);
    lemma_assign_controls(d15, one, fb);
    let d16 = DukeConfig { invert_mouse: c.invert_mouse, ..d15 };
    assert(ini_lines(st0, ls, 16) == (d16, cs, one));
    assert(ls[16] == Seq::<char>::empty());
    lemma_ini_step(st0, ls, 17);
    lemma_blank_line((d16, cs, one));
    assert(ls[17] == section_line("Misc"@));
    lemma_ini_step(st0, ls, 18);
    lemma_section_line((d16, cs, one), "Misc"@);
    assert(ini_lines(st0, ls, 18) == (d16, ms, one));
    let fc = flag_digit(c.run_mode);
    assert(ls[18] == key_line("RunMode"@, fc));
    lemma_ini_step(st0, ls, 19);
    lemma_flag_value(c.run_mode);
    lemma_key_line((d16, ms, one), "RunMode"@, fc);
    lemma_assign_controls(d16, one, fc);
    let d19 = DukeConfig { run_mode: c.run_mode, ..d16 };
    assert(ini_lines(st0, ls, 19) == (d19, ms, one));
    let fd = flag_digit(c.crosshairs);
    assert(ls[19] == key_line("Crosshairs"@, fd));
    lemma_ini_step(st0, ls, 20);
    lemma_flag_value(c.crosshairs);
    lemma_key_line((d19, ms, one), "Crosshairs"@, fd);
    lemma_assign_controls(d19, one, fd);
    let d20 = DukeConfig { crosshairs: c.crosshairs, ..d19 };
    assert(ini_lines(st0, ls, 20) == (d20, ms, one));
    assert(d20 == c);
    assert(ls[20] == Seq::<char>::empty());
    lemma_ini_step(st0, ls, 21);
    lemma_blank_line((d20, ms, one));
}

} // verus!
