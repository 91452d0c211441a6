//! The built-in table from sound numbers to the VOC files of Duke Nukem
//! 3D, used when no CON script names them, and the queue that keeps
//! Duke's voice lines from talking over each other.
use vstd::prelude::*;
use std::collections::HashMap;
use crate::text::{
    chars_of, chars_contain, contains_seq, uppercase, to_uppercase, strip_suffixes, chars_strip_suffixes, starts_with,
    chars_starts_with, chars_eq,
};

verus! {

/// The VOC file of each sound number the game uses.
pub open spec fn default_sound(id: i32) -> Option<&'static str> {
    match id {
        0 => Some("KICKHIT.VOC"),
        1 => Some("RICOCHET.VOC"),
        2 => Some("BULITHIT.VOC"),
        3 => Some("PISTOL.VOC"),
        4 => Some("CLIPOUT.VOC"),
        5 => Some("CLIPIN.VOC"),
        6 => Some("CHAINGUN.VOC"),
        7 => Some("RPGFIRE.VOC"),
        8 => Some("POOLBALL.VOC"),
        9 => Some("BOMBEXPL.VOC"),
        10 => Some("CATFIRE.VOC"),
        11 => Some("SHRINKER.VOC"),
        12 => Some("SHRINK.VOC"),
        13 => Some("PBOMBBNC.VOC"),
        14 => Some("BOMBEXPL.VOC"),
        15 => Some("LSRBMBPT.VOC"),
        16 => Some("LSRBMBWN.VOC"),
        17 => Some("BOMBEXPL.VOC"),
        18 => Some("VENTBUST.VOC"),
        19 => Some("GLASS.VOC"),
        20 => Some("GLASHEVY.VOC"),
        21 => Some("SHORTED.VOC"),
        22 => Some("SPLASH.VOC"),
        23 => Some("HLMINHAL.VOC"),
        24 => Some("HLMEXHAL.VOC"),
        25 => Some("GASP.VOC"),
        28 => Some("PISSING.VOC"),
        36 => Some("DRINK18.VOC"),
        37 => Some("DAMN03.VOC"),
        38 => Some("EXERT.VOC"),
        39 => Some("HARTBEAT.VOC"),
        40 => Some("WETFEET.VOC"),
        41 => Some("DMDEATH.VOC"),
        42 => Some("LAND02.VOC"),
        43 => Some("DUCTWLK.VOC"),
        44 => Some("COOL01.VOC"),
        45 => Some("YES.VOC"),
        49 => Some("JETPAKON.VOC"),
        50 => Some("JETPAKI.VOC"),
        51 => Some("JETPAKOF.VOC"),
        52 => Some("ROAM06.VOC"),
        62 => Some("PREDPN.VOC"),
        63 => Some("PREDDY.VOC"),
        64 => Some("LIZSPIT.VOC"),
        69 => Some("SQUISH1A.VOC"),
        70 => Some("TELEPORT.VOC"),
        71 => Some("GBELEV01.VOC"),
        73 => Some("GBELEV02.VOC"),
        74 => Some("CDOOR1B.VOC"),
        75 => Some("SUBWAY.VOC"),
        76 => Some("SWITCH1.VOC"),
        77 => Some("FAN.VOC"),
        78 => Some("GROOVY02.VOC"),
        79 => Some("FLUSH.VOC"),
        81 => Some("TRUMBLE.VOC"),
        82 => Some("ALARM1A.VOC"),
        83 => Some("ENDSEQ.VOC"),
        109 => Some("SHOTGUN7.VOC"),
        110 => Some("FREEZE.VOC"),
        118 => Some("WPNSEL21.VOC"),
        649 => Some("GOGGLE12.VOC"),
        670 => Some("COOL01.VOC"),
        671 => Some("GETSOM1A.VOC"),
        672 => Some("GROOVY02.VOC"),
        674 => Some("HAIL01.VOC"),
        722 => Some("AHH04.VOC"),
        723 => Some("GULP01.VOC"),
        507 => Some("ROAM06.VOC"),
        509 => Some("PREDRG.VOC"),
        510 => Some("GBLASR01.VOC"),
        511 => Some("PREDPN.VOC"),
        512 => Some("PREDDY.VOC"),
        533 => Some("ROAM29.VOC"),
        536 => Some("PIGRG.VOC"),
        537 => Some("SHOTGUN7.VOC"),
        538 => Some("PIGPN.VOC"),
        539 => Some("PIGDY.VOC"),
        568 => Some("OCTARM.VOC"),
        569 => Some("OCTARG.VOC"),
        570 => Some("OCTAAT1.VOC"),
        572 => Some("OCTAPN.VOC"),
        573 => Some("OCTADY.VOC"),
        _ => None,
    }
}

fn default_sound_of(id: i32) -> (r: Option<&'static str>)
    ensures
        r == default_sound(id),
{
    match id {
        0 => Some("KICKHIT.VOC"),
        1 => Some("RICOCHET.VOC"),
        2 => Some("BULITHIT.VOC"),
        3 => Some("PISTOL.VOC"),
        4 => Some("CLIPOUT.VOC"),
        5 => Some("CLIPIN.VOC"),
        6 => Some("CHAINGUN.VOC"),
        7 => Some("RPGFIRE.VOC"),
        8 => Some("POOLBALL.VOC"),
        9 => Some("BOMBEXPL.VOC"),
        10 => Some("CATFIRE.VOC"),
        11 => Some("SHRINKER.VOC"),
        12 => Some("SHRINK.VOC"),
        13 => Some("PBOMBBNC.VOC"),
        14 => Some("BOMBEXPL.VOC"),
        15 => Some("LSRBMBPT.VOC"),
        16 => Some("LSRBMBWN.VOC"),
        17 => Some("BOMBEXPL.VOC"),
        18 => Some("VENTBUST.VOC"),
        19 => Some("GLASS.VOC"),
        20 => Some("GLASHEVY.VOC"),
        21 => Some("SHORTED.VOC"),
        22 => Some("SPLASH.VOC"),
        23 => Some("HLMINHAL.VOC"),
        24 => Some("HLMEXHAL.VOC"),
        25 => Some("GASP.VOC"),
        28 => Some("PISSING.VOC"),
        36 => Some("DRINK18.VOC"),
        37 => Some("DAMN03.VOC"),
        38 => Some("EXERT.VOC"),
        39 => Some("HARTBEAT.VOC"),
        40 => Some("WETFEET.VOC"),
        41 => Some("DMDEATH.VOC"),
        42 => Some("LAND02.VOC"),
        43 => Some("DUCTWLK.VOC"),
        44 => Some("COOL01.VOC"),
        45 => Some("YES.VOC"),
        49 => Some("JETPAKON.VOC"),
        50 => Some("JETPAKI.VOC"),
        51 => Some("JETPAKOF.VOC"),
        52 => Some("ROAM06.VOC"),
        62 => Some("PREDPN.VOC"),
        63 => Some("PREDDY.VOC"),
        64 => Some("LIZSPIT.VOC"),
        69 => Some("SQUISH1A.VOC"),
        70 => Some("TELEPORT.VOC"),
        71 => Some("GBELEV01.VOC"),
        73 => Some("GBELEV02.VOC"),
        74 => Some("CDOOR1B.VOC"),
        75 => Some("SUBWAY.VOC"),
        76 => Some("SWITCH1.VOC"),
        77 => Some("FAN.VOC"),
        78 => Some("GROOVY02.VOC"),
        79 => Some("FLUSH.VOC"),
        81 => Some("TRUMBLE.VOC"),
        82 => Some("ALARM1A.VOC"),
        83 => Some("ENDSEQ.VOC"),
        109 => Some("SHOTGUN7.VOC"),
        110 => Some("FREEZE.VOC"),
        118 => Some("WPNSEL21.VOC"),
        649 => Some("GOGGLE12.VOC"),
        670 => Some("COOL01.VOC"),
        671 => Some("GETSOM1A.VOC"),
        672 => Some("GROOVY02.VOC"),
        674 => Some("HAIL01.VOC"),
        722 => Some("AHH04.VOC"),
        723 => Some("GULP01.VOC"),
        507 => Some("ROAM06.VOC"),
        509 => Some("PREDRG.VOC"),
        510 => Some("GBLASR01.VOC"),
        511 => Some("PREDPN.VOC"),
        512 => Some("PREDDY.VOC"),
        533 => Some("ROAM29.VOC"),
        536 => Some("PIGRG.VOC"),
        537 => Some("SHOTGUN7.VOC"),
        538 => Some("PIGPN.VOC"),
        539 => Some("PIGDY.VOC"),
        568 => Some("OCTARM.VOC"),
        569 => Some("OCTARG.VOC"),
        570 => Some("OCTAAT1.VOC"),
        572 => Some("OCTAPN.VOC"),
        573 => Some("OCTADY.VOC"),
        _ => None,
    }
}

/// The table of sound numbers to VOC file names.
pub fn build_default_sound_id_map() -> (m: HashMap<i32, String>)
    ensures
        forall|id: i32| #[trigger] m@.contains_key(id) <==> default_sound(id) is Some,
        forall|id: i32| m@.contains_key(id) ==> (#[trigger] m@[id])@ == default_sound(id)->0@,
{
    let mut m: HashMap<i32, String> = HashMap::new();
    let mut id: i32 = 0;
    while id < 1024
        invariant
            0 <= id <= 1024,
            forall|k: i32| #[trigger] m@.contains_key(k) <==> (0 <= k < id && default_sound(k) is Some),
            forall|k: i32| m@.contains_key(k) ==> (#[trigger] m@[k])@ == default_sound(k)->0@,
        decreases 1024 - id,
    {
        if let Some(f) = default_sound_of(id) {
            m.insert(id, f.to_owned());
        }
        id += 1;
    }
    proof {
        assert forall|k: i32| default_sound(k) is Some implies 0 <= k < 1024 by {}
    }
    m
}

/// Duke's voice: the priority of the line being spoken and how many
/// milliseconds remain before another line of any priority may start.
#[derive(Debug, Clone, Copy, PartialEq, Eq, Structural, Default)]
pub struct DukeVoiceQueue {
    pub active_priority: u8,
    pub cooldown_ms: u32,
}

/// The queue after a line of `priority` asks to be spoken, and whether it
/// may: when the voice is quiet, or the line outranks the one being spoken
/// (an equal one waits). A line that plays holds the voice for 2 s.
pub open spec fn voice_requested(q: DukeVoiceQueue, priority: u8) -> (DukeVoiceQueue, bool) {
    if q.cooldown_ms == 0 || priority > q.active_priority {
        (DukeVoiceQueue { active_priority: priority, cooldown_ms: 2000 }, true)
    } else {
        (q, false)
    }
}

/// The queue after `dt` milliseconds: the cool-down runs down, and when it
/// ends no line is active any more.
pub open spec fn voice_ticked(q: DukeVoiceQueue, dt: u32) -> DukeVoiceQueue {
    if q.cooldown_ms == 0 {
        q
    } else if q.cooldown_ms <= dt {
        DukeVoiceQueue { active_priority: 0, cooldown_ms: 0 }
    } else {
        DukeVoiceQueue { cooldown_ms: (q.cooldown_ms - dt) as u32, ..q }
    }
}

impl DukeVoiceQueue {
    /// Whether a line of `priority` may be spoken now (see `voice_requested`).
    pub fn should_play(&mut self, priority: u8) -> (play: bool)
        ensures
            (*final(self), play) == voice_requested(*old(self), priority),
    {
        if self.cooldown_ms == 0 || priority > self.active_priority {
            self.active_priority = priority;
            self.cooldown_ms = 2000;
            true
        } else {
            false
        }
    }

    /// `dt_ms` milliseconds pass (see `voice_ticked`).
    pub fn tick(&mut self, dt_ms: u32)
        ensures
            *final(self) == voice_ticked(*old(self), dt_ms),
    {
        if self.cooldown_ms > 0 {
            self.cooldown_ms = if self.cooldown_ms > dt_ms { self.cooldown_ms - dt_ms } else { 0 };
            if self.cooldown_ms == 0 {
                self.active_priority = 0;
            }
        }
    }
}

/// How urgent a line of Duke's is: the boss-kill and taunt lines 10,
/// "looking good" 8, any other named line and a random quote 5.
pub open spec fn voice_priority(name: Option<Seq<char>>) -> u8 {
    match name {
        Some(n) =>
            if contains_seq(n, "REST_IN_PIECES"@) || contains_seq(n, "EAT_SHIT"@) || contains_seq(n, "HAIL"@) { 10 }
            else if contains_seq(n, "LOOKING_GOOD"@) { 8 }
            else { 5 },
        None => 5,
    }
}

fn name_contains(n: &Vec<char>, part: &str) -> (r: bool)
    ensures
        r == contains_seq(n@, part@),
{
    let p = chars_of(part);
    chars_contain(n.as_slice(), p.as_slice())
}

/// Duke wants to say the named line (a random quote when `None`): returns
/// whether it plays now (see `voice_requested`); when it does, the music
/// ducks for 2.5 s.
pub fn request_duke_voice(queue: &mut DukeVoiceQueue, name: Option<&str>) -> (play: bool)
    ensures
        (*final(queue), play) == voice_requested(*old(queue), voice_priority(match name { Some(n) => Some(n@), None => None })),
{
    let priority: u8 = match name {
        Some(n) => {
            let cs = chars_of(n);
            if name_contains(&cs, "REST_IN_PIECES") || name_contains(&cs, "EAT_SHIT") || name_contains(&cs, "HAIL") {
                10
            } else if name_contains(&cs, "LOOKING_GOOD") {
                8
            } else {
                5
            }
        },
        None => 5,
    };
    queue.should_play(priority)
}

/// A line that plays is never drowned out by a line of its own priority
/// or lower before its two seconds are up, and a refused line changes
/// nothing.
pub proof fn lemma_voice_priority(q: DukeVoiceQueue, p: u8, later: u8, dt: u32)
    requires
        later <= p,
        dt < 2000,
    ensures
        voice_requested(q, p).1 ==> !voice_requested(voice_ticked(voice_requested(q, p).0, dt), later).1,
        !voice_requested(q, p).1 ==> voice_requested(q, p).0 == q,
{
}

/// A sound name upper-cased, then without trailing ".VOC" and ".WAV".
pub open spec fn bare_sound_name(upper: Seq<char>) -> Seq<char> {
    strip_suffixes(strip_suffixes(upper, ".VOC"@), ".WAV"@)
}

/// Whether a loaded name and a looked-up bare name extend one another.
pub open spec fn prefix_related(key: Seq<char>, bare: Seq<char>) -> bool {
    starts_with(key, bare) || starts_with(bare, key)
}

/// Finds a loaded sound by name, among the names of the loaded sounds:
/// first the name upper-cased, then without its ".VOC"/".WAV" ending, then
/// any loaded name that extends it or that it extends. Which of several
/// such names comes back is not fixed (the names are kept unordered).
pub fn get_sound_by_name(names: &Vec<String>, name: &str) -> (r: Option<usize>)
    ensures
        ({
            let u = uppercase(name@);
            let b = bare_sound_name(u);
            let exact = exists|i: int| 0 <= i < names@.len() && (#[trigger] names@[i])@ == u;
            let bare = exists|i: int| 0 <= i < names@.len() && (#[trigger] names@[i])@ == b;
            let near = exists|i: int| 0 <= i < names@.len() && prefix_related((#[trigger] names@[i])@, b);
            &&& (r is Some ==> r->0 < names@.len())
            &&& (exact ==> r is Some && names@[r->0 as int]@ == u)
            &&& (!exact && bare ==> r is Some && names@[r->0 as int]@ == b)
            &&& (!exact && !bare && near ==> r is Some && prefix_related(names@[r->0 as int]@, b))
            &&& (!exact && !bare && !near ==> r is None)
        }),
{
    let upper = to_uppercase(name);
    let u = chars_of(upper.as_str());
    let voc = chars_of(".VOC");
    let wav = chars_of(".WAV");
    let b1 = chars_strip_suffixes(u.as_slice(), voc.as_slice());
    let b = chars_strip_suffixes(b1.as_slice(), wav.as_slice());
    let n = names.len();
    let mut i: usize = 0;
    while i < n
        invariant
            n == names@.len(),
            i <= n,
            u@ == uppercase(name@),
            forall|j: int| 0 <= j < i ==> (#[trigger] names@[j])@ != u@,
        decreases n - i,
    {
        let k = chars_of(names[i].as_str());
        if chars_eq(k.as_slice(), u.as_slice()) {
            return Some(i);
        }
        i += 1;
    }
    i = 0;
    while i < n
        invariant
            n == names@.len(),
            i <= n,
            b@ == bare_sound_name(uppercase(name@)),
            forall|j: int| 0 <= j < n ==> (#[trigger] names@[j])@ != u@,
            u@ == uppercase(name@),
            forall|j: int| 0 <= j < i ==> (#[trigger] names@[j])@ != b@,
        decreases n - i,
    {
        let k = chars_of(names[i].as_str());
        if chars_eq(k.as_slice(), b.as_slice()) {
            return Some(i);
        }
        i += 1;
    }
    i = 0;
    while i < n
        invariant
            n == names@.len(),
            i <= n,
            b@ == bare_sound_name(uppercase(name@)),
            u@ == uppercase(name@),
            forall|j: int| 0 <= j < n ==> (#[trigger] names@[j])@ != u@,
            forall|j: int| 0 <= j < n ==> (#[trigger] names@[j])@ != b@,
            forall|j: int| 0 <= j < i ==> !prefix_related((#[trigger] names@[j])@, b@),
        decreases n - i,
    {
        let k = chars_of(names[i].as_str());
        if chars_starts_with(k.as_slice(), b.as_slice()) || chars_starts_with(b.as_slice(), k.as_slice()) {
            return Some(i);
        }
        i += 1;
    }
    None
}

} // verus!
