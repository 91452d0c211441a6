//! Where saved games live: one numbered file per slot and a quicksave, in
//! the `saves` directory.
use vstd::prelude::*;
use crate::text::{decimal, push_decimal, string_from_chars};

verus! {

/// "saves/" — the directory that holds every saved game.
pub open spec fn save_dir() -> Seq<char> {
    seq!['s', 'a', 'v', 'e', 's', '/']
}

/// "saves/game_<slot>.sav".
pub open spec fn slot_path(slot: usize) -> Seq<char> {
    save_dir() + seq!['g', 'a', 'm', 'e', '_'] + decimal(slot as nat) + seq!['.', 's', 'a', 'v']
}

/// "saves/quicksave.sav".
pub open spec fn quicksave_path() -> Seq<char> {
    save_dir() + seq!['q', 'u', 'i', 'c', 'k', 's', 'a', 'v', 'e', '.', 's', 'a', 'v']
}

fn push_save_dir(cs: &mut Vec<char>)
    ensures
        final(cs)@ == old(cs)@ + save_dir(),
{
    cs.push('s');
    cs.push('a');
    cs.push('v');
    cs.push('e');
    cs.push('s');
    cs.push('/');
    assert(final(cs)@ =~= old(cs)@ + save_dir());
}

/// The path of save slot `slot`, relative to the working directory.
pub fn get_save_path_for_slot(slot: usize) -> (p: String)
    ensures
        p@ == slot_path(slot),
{
    let mut cs: Vec<char> = Vec::new();
    push_save_dir(&mut cs);
    cs.push('g');
    cs.push('a');
    cs.push('m');
    cs.push('e');
    cs.push('_');
    push_decimal(&mut cs, slot as u64);
    cs.push('.');
    cs.push('s');
    cs.push('a');
    cs.push('v');
    assert(cs@ =~= slot_path(slot));
    string_from_chars(cs.as_slice())
}

/// The path of the quicksave, relative to the working directory.
pub fn get_quicksave_path() -> (p: String)
    ensures
        p@ == quicksave_path(),
{
    let mut cs: Vec<char> = Vec::new();
    push_save_dir(&mut cs);
    cs.push('q');
    cs.push('u');
    cs.push('i');
    cs.push('c');
    cs.push('k');
    cs.push('s');
    cs.push('a');
    cs.push('v');
    cs.push('e');
    cs.push('.');
    cs.push('s');
    cs.push('a');
    cs.push('v');
    assert(cs@ =~= quicksave_path());
    string_from_chars(cs.as_slice())
}

/// A request to save: to a numbered slot, or the quicksave when `None`.
#[derive(Debug, Clone, PartialEq, Eq)]
pub struct SaveGameEvent {
    pub slot: Option<usize>,
    pub title: String,
}

/// A request to load a numbered slot, or the quicksave when `None`.
#[derive(Debug, Clone, Copy, PartialEq, Eq, Structural)]
pub struct LoadGameEvent {
    pub slot: Option<usize>,
}

/// While playing, F6 quicksaves (titled "Quicksave") and F9 quickloads.
pub fn handle_save_load_hotkeys(playing: bool, f6: bool, f9: bool) -> (r: (Option<SaveGameEvent>, Option<LoadGameEvent>))
    ensures
        (r.0 is Some) == (playing && f6),
        r.0 matches Some(e) ==> e.slot is None && e.title@ == "Quicksave"@,
        r.1 == (if playing && f9 { Some(LoadGameEvent { slot: None }) } else { None }),
{
    if !playing {
        return (None, None);
    }
    let save = if f6 { Some(SaveGameEvent { slot: None, title: "Quicksave".to_string() }) } else { None };
    let load = if f9 { Some(LoadGameEvent { slot: None }) } else { None };
    (save, load)
}

} // verus!
