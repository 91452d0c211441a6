//! The texts of the menu screens: titles, entries, footers, the spinning
//! cursor and the lines of the statistics screen. Times are whole
//! milliseconds; colours and layout are the renderer's.
use vstd::prelude::*;
use crate::config::append_lit;
use crate::game_flow::{GamePhase, IntermissionAnimationState, IntermissionStage, LevelProgress, stage_rank};
use crate::hud::signed_decimal;
use crate::text::{decimal, push_decimal, string_from_chars};

verus! {

/// The title: the finished level on the statistics screen, "PAUSED"
/// while paused, the game's name elsewhere.
pub open spec fn header_text(ph: GamePhase, episode: usize, level: usize) -> Seq<char> {
    match ph {
        GamePhase::Intermission => seq!['E'] + decimal(episode as nat) + seq!['L'] + decimal(level as nat) + ": LEVEL COMPLETED"@,
        GamePhase::Paused => "PAUSED"@,
        _ => "DUKE NUKEM 3D"@,
    }
}

pub open spec fn subheader_text(ph: GamePhase) -> Seq<char> {
    match ph {
        GamePhase::MainMenu => "MAIN MENU"@,
        GamePhase::EpisodeSelect => "SELECT AN EPISODE"@,
        GamePhase::SkillSelect => "CHOOSE SKILL LEVEL"@,
        GamePhase::Paused => "OPTIONS & STATUS"@,
        GamePhase::Intermission => "MISSION STATISTICS"@,
        _ => ""@,
    }
}

pub open spec fn footer_text(ph: GamePhase) -> Seq<char> {
    match ph {
        GamePhase::Intermission => "PRESS SPACE OR ENTER TO CONTINUE TO NEXT LEVEL"@,
        GamePhase::Paused => "PRESS ESC TO RESUME • ENTER TO SELECT"@,
        GamePhase::MainMenu => "USE ARROWS / W/S TO MOVE • ENTER TO SELECT"@,
        _ => "USE ARROWS / W/S TO MOVE • ENTER TO SELECT • ESC TO GO BACK"@,
    }
}

/// The four entries of a menu (blank where the phase has none).
pub open spec fn item_label(ph: GamePhase, i: int) -> Seq<char> {
    match ph {
        GamePhase::MainMenu =>
            if i == 0 { "NEW GAME"@ } else if i == 1 { "OPTIONS"@ } else if i == 2 { "LOAD GAME"@ } else { "QUIT"@ },
        GamePhase::EpisodeSelect =>
            if i == 0 { "1: L.A. MELTDOWN"@ } else if i == 1 { "2: LUNAR APOCALYPSE"@ }
            else if i == 2 { "3: SHRAPNEL CITY"@ } else { "4: THE PLUTONIUM PAK"@ },
        GamePhase::SkillSelect =>
            if i == 0 { "PIECE OF CAKE"@ } else if i == 1 { "LET'S ROCK"@ }
            else if i == 2 { "COME GET SOME"@ } else { "DAMN I'M GOOD"@ },
        GamePhase::Paused =>
            if i == 0 { "RESUME GAME"@ } else if i == 1 { "OPTIONS"@ } else if i == 2 { "MAIN MENU"@ } else { "QUIT TO DESKTOP"@ },
        _ => ""@,
    }
}

pub fn menu_header(phase: GamePhase, progress: &LevelProgress) -> (s: String)
    ensures
        s@ == header_text(phase, progress.current_episode, progress.current_level),
{
    match phase {
        GamePhase::Intermission => {
            let mut v: Vec<char> = Vec::new();
            v.push('E');
            push_decimal(&mut v, progress.current_episode as u64);
            v.push('L');
            push_decimal(&mut v, progress.current_level as u64);
            append_lit(&mut v, ": LEVEL COMPLETED");
            assert(v@ =~= seq!['E'] + decimal(progress.current_episode as nat) + seq!['L']
                + decimal(progress.current_level as nat) + ": LEVEL COMPLETED"@);
            string_from_chars(v.as_slice())
        },
        GamePhase::Paused => "PAUSED".to_string(),
        _ => "DUKE NUKEM 3D".to_string(),
    }
}

pub fn menu_subheader(phase: GamePhase) -> (s: &'static str)
    ensures
        s@ == subheader_text(phase),
{
    match phase {
        GamePhase::MainMenu => "MAIN MENU",
        GamePhase::EpisodeSelect => "SELECT AN EPISODE",
        GamePhase::SkillSelect => "CHOOSE SKILL LEVEL",
        GamePhase::Paused => "OPTIONS & STATUS",
        GamePhase::Intermission => "MISSION STATISTICS",
        _ => "",
    }
}

pub fn menu_footer(phase: GamePhase) -> (s: &'static str)
    ensures
        s@ == footer_text(phase),
{
    match phase {
        GamePhase::Intermission => "PRESS SPACE OR ENTER TO CONTINUE TO NEXT LEVEL",
        GamePhase::Paused => "PRESS ESC TO RESUME • ENTER TO SELECT",
        GamePhase::MainMenu => "USE ARROWS / W/S TO MOVE • ENTER TO SELECT",
        _ => "USE ARROWS / W/S TO MOVE • ENTER TO SELECT • ESC TO GO BACK",
    }
}

pub fn menu_item_labels(phase: GamePhase) -> (r: [&'static str; 4])
    ensures
        forall|i: int| 0 <= i < 4 ==> (#[trigger] r[i])@ == item_label(phase, i),
{
    match phase {
        GamePhase::MainMenu => ["NEW GAME", "OPTIONS", "LOAD GAME", "QUIT"],
        GamePhase::EpisodeSelect => ["1: L.A. MELTDOWN", "2: LUNAR APOCALYPSE", "3: SHRAPNEL CITY", "4: THE PLUTONIUM PAK"],
        GamePhase::SkillSelect => ["PIECE OF CAKE", "LET'S ROCK", "COME GET SOME", "DAMN I'M GOOD"],
        GamePhase::Paused => ["RESUME GAME", "OPTIONS", "MAIN MENU", "QUIT TO DESKTOP"],
        _ => ["", "", "", ""],
    }
}

/// `s` right-aligned in `w` places (`{:>w}`).
pub open spec fn right_aligned(s: Seq<char>, w: nat) -> Seq<char> {
    if s.len() >= w { s } else { Seq::new((w - s.len()) as nat, |i: int| ' ') + s }
}

/// A number in at least two places, zero-filled (`{:02}`).
pub open spec fn two_digits(n: nat) -> Seq<char> {
    if n < 10 { seq!['0'] + decimal(n) } else { decimal(n) }
}

/// The lines of the statistics screen, each shown once its stage is
/// reached: kills and secrets as percentages, then the time against par
/// (minutes:seconds).
pub open spec fn intermission_line(idx: int, a: IntermissionAnimationState, time_ms: u32, par_ms: u32) -> Seq<char> {
    if idx == 0 && stage_rank(a.stage) >= 1 {
        "KILLS:    "@ + right_aligned(signed_decimal(a.displayed_kills as int), 3) + "%"@
    } else if idx == 1 && stage_rank(a.stage) >= 2 {
        "SECRETS:  "@ + right_aligned(signed_decimal(a.displayed_secrets as int), 3) + "%"@
    } else if idx == 2 && stage_rank(a.stage) >= 3 {
        "TIME:     "@ + two_digits((time_ms / 60000) as nat) + ":"@ + two_digits(((time_ms / 1000) % 60) as nat)
            + " (PAR "@ + two_digits((par_ms / 60000) as nat) + ":"@ + two_digits(((par_ms / 1000) % 60) as nat) + ")"@
    } else {
        Seq::empty()
    }
}

fn push_two_digits(out: &mut Vec<char>, n: u64)
    ensures
        final(out)@ == old(out)@ + two_digits(n as nat),
{
    if n < 10 {
        out.push('0');
        push_decimal(out, n);
        assert(out@ =~= old(out)@ + (seq!['0'] + decimal(n as nat)));
    } else {
        push_decimal(out, n);
    }
}

fn push_right3_signed(out: &mut Vec<char>, v: i32)
    ensures
        final(out)@ == old(out)@ + right_aligned(signed_decimal(v as int), 3),
{
    let mut d: Vec<char> = Vec::new();
    if v < 0 {
        d.push('-');
        let m: u64 = (0i64 - v as i64) as u64;
        push_decimal(&mut d, m);
        assert(d@ =~= signed_decimal(v as int));
    } else {
        push_decimal(&mut d, v as u64);
        assert(d@ =~= signed_decimal(v as int));
    }
    let ghost sd = d@;
    let n = d.len();
    let mut k: usize = n;
    let ghost base = out@;
    while k < 3
        invariant
            n == sd.len(),
            n <= k <= 3 || (n > 3 && k == n),
            out@ == base + Seq::new((k - n) as nat, |i: int| ' '),
        decreases 3 - k,
    {
        out.push(' ');
        assert(out@ =~= base + Seq::new((k + 1 - n) as nat, |i: int| ' '));
        k += 1;
    }
    let ghost pad = out@;
    let mut j: usize = 0;
    while j < n
        invariant
            j <= n,
            n == d@.len(),
            d@ == sd,
            out@ == pad + sd.subrange(0, j as int),
        decreases n - j,
    {
        out.push(d[j]);
        assert(sd.subrange(0, j + 1) =~= sd.subrange(0, j as int).push(sd[j as int]));
        j += 1;
    }
    assert(sd.subrange(0, n as int) =~= sd);
    proof {
        if n >= 3 {
            assert(Seq::new(0nat, |i: int| ' ') =~= Seq::<char>::empty());
            assert(pad =~= base);
        }
    }
    assert(out@ =~= base + right_aligned(sd, 3));
}

/// The statistics-screen line `idx` (see `intermission_line`).
pub fn intermission_item_text(idx: usize, anim: &IntermissionAnimationState, time_taken_ms: u32, par_time_ms: u32)
    -> (s: String)
    ensures
        s@ == intermission_line(idx as int, *anim, time_taken_ms, par_time_ms),
{
    let rank: u8 = match anim.stage {
        IntermissionStage::BackgroundFadeIn => 0,
        IntermissionStage::KillsTally => 1,
        IntermissionStage::SecretsTally => 2,
        IntermissionStage::TimeReveal => 3,
        IntermissionStage::ReadyToProceed => 4,
    };
    let mut v: Vec<char> = Vec::new();
    if idx == 0 && rank >= 1 {
        append_lit(&mut v, "KILLS:    ");
        push_right3_signed(&mut v, anim.displayed_kills);
        append_lit(&mut v, "%");
    } else if idx == 1 && rank >= 2 {
        append_lit(&mut v, "SECRETS:  ");
        push_right3_signed(&mut v, anim.displayed_secrets);
        append_lit(&mut v, "%");
    } else if idx == 2 && rank >= 3 {
        append_lit(&mut v, "TIME:     ");
        push_two_digits(&mut v, (time_taken_ms / 60000) as u64);
        append_lit(&mut v, ":");
        push_two_digits(&mut v, ((time_taken_ms / 1000) % 60) as u64);
        append_lit(&mut v, " (PAR ");
        push_two_digits(&mut v, (par_time_ms / 60000) as u64);
        append_lit(&mut v, ":");
        push_two_digits(&mut v, ((par_time_ms / 1000) % 60) as u64);
        append_lit(&mut v, ")");
    }
    assert(v@ =~= intermission_line(idx as int, *anim, time_taken_ms, par_time_ms));
    string_from_chars(v.as_slice())
}

/// The spinning cursor beside the highlighted entry of a menu (none on
/// the statistics screen), turning through four frames.
pub open spec fn cursor_text(ph: GamePhase, idx: usize, selected: usize, frame: usize) -> Seq<char> {
    if ph != GamePhase::Intermission && idx == selected {
        let f = frame % 4;
        if f == 0 || f == 2 { "► "@ } else if f == 1 { " ►"@ } else { "  ►"@ }
    } else {
        ""@
    }
}

pub fn cursor_indicator_text(phase: GamePhase, idx: usize, selected: usize, frame: usize) -> (s: &'static str)
    ensures
        s@ == cursor_text(phase, idx, selected, frame),
{
    if phase != GamePhase::Intermission && idx == selected {
        let f = frame % 4;
        if f == 0 || f == 2 { "► " } else if f == 1 { " ►" } else { "  ►" }
    } else {
        ""
    }
}

/// How a menu entry is coloured.
#[derive(Debug, Clone, Copy, PartialEq, Eq, Structural)]
pub enum MenuItemColor {
    /// The highlighted entry.
    Gold,
    Grey,
    /// The statistics lines.
    White,
}

pub fn menu_item_color(phase: GamePhase, idx: usize, selected: usize) -> (c: MenuItemColor)
    ensures
        c == (if phase == GamePhase::Intermission { MenuItemColor::White }
            else if idx == selected { MenuItemColor::Gold } else { MenuItemColor::Grey }),
{
    if phase == GamePhase::Intermission {
        MenuItemColor::White
    } else if idx == selected {
        MenuItemColor::Gold
    } else {
        MenuItemColor::Grey
    }
}

} // verus!
