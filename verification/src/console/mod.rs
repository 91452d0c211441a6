//! The developer console: its scroll-back log, command history and line
//! editing, and the commands it understands.
pub mod commands;

use vstd::prelude::*;
use crate::text::{chars_of, string_from_chars};

verus! {

/// The colours console lines are drawn in.
#[derive(Debug, Clone, Copy, PartialEq, Eq, Structural)]
pub enum LogColor {
    /// Start-up banner and granted items.
    Green,
    /// Start-up hint.
    Grey,
    /// Echoed commands and mode toggles.
    Yellow,
    /// The help header.
    Sky,
    /// Help lines.
    White,
    /// Suicide.
    Red,
    /// Usage errors and unknown input.
    Error,
    /// Warping.
    Lime,
    /// Monster removal.
    Orange,
    /// Render settings.
    Aqua,
    /// Exit.
    Crimson,
}

/// The console. At most 100 log lines are kept.
#[derive(Debug, Clone)]
pub struct ConsoleState {
    pub is_open: bool,
    pub input_buffer: String,
    pub history: Vec<String>,
    pub history_index: Option<usize>,
    pub log_lines: Vec<(String, LogColor)>,
}

pub type LogLine = (Seq<char>, LogColor);

/// Appends a line, dropping the oldest when more than 100 are held.
pub open spec fn log_push(l: Seq<LogLine>, e: LogLine) -> Seq<LogLine> {
    let l2 = l.push(e);
    if l2.len() > 100 { l2.drop_first() } else { l2 }
}

/// Appends several lines in order.
pub open spec fn log_all(l: Seq<LogLine>, es: Seq<LogLine>) -> Seq<LogLine>
    decreases es.len(),
{
    if es.len() == 0 { l } else { log_push(log_all(l, es.drop_last()), es.last()) }
}

impl Default for ConsoleState {
    fn default() -> (c: Self)
        ensures
            !c.is_open,
            c.input_buffer@ == Seq::<char>::empty(),
            c.history@.len() == 0,
            c.history_index is None,
            c.log_view() == seq![
                ("Duke Nukem 3D Developer Console Initialized."@, LogColor::Green),
                ("Type 'help' for a list of available commands."@, LogColor::Grey)],
    {
        ConsoleState::new()
    }
}

impl ConsoleState {
    pub open spec fn log_view(self) -> Seq<LogLine> {
        self.log_lines@.map_values(|e: (String, LogColor)| (e.0@, e.1))
    }

    pub open spec fn history_view(self) -> Seq<Seq<char>> {
        self.history@.map_values(|h: String| h@)
    }

    /// A closed console with the two start-up lines.
    pub fn new() -> (c: Self)
        ensures
            !c.is_open,
            c.input_buffer@ == Seq::<char>::empty(),
            c.history@.len() == 0,
            c.history_index is None,
            c.log_view() == seq![
                ("Duke Nukem 3D Developer Console Initialized."@, LogColor::Green),
                ("Type 'help' for a list of available commands."@, LogColor::Grey)],
    {
        let mut log_lines: Vec<(String, LogColor)> = Vec::new();
        let a = "Duke Nukem 3D Developer Console Initialized.".to_owned();
        let b = "Type 'help' for a list of available commands.".to_owned();
        log_lines.push((a, LogColor::Green));
        log_lines.push((b, LogColor::Grey));
        let c = ConsoleState {
            is_open: false,
            input_buffer: String::new(),
            history: Vec::new(),
            history_index: None,
            log_lines,
        };
        assert(c.log_view() =~= seq![
            ("Duke Nukem 3D Developer Console Initialized."@, LogColor::Green),
            ("Type 'help' for a list of available commands."@, LogColor::Grey)]);
        c
    }

    /// Adds a line to the log.
    pub fn log(&mut self, text: &str, color: LogColor)
        ensures
            final(self).log_view() == log_push(old(self).log_view(), (text@, color)),
            final(self).is_open == old(self).is_open,
            final(self).input_buffer == old(self).input_buffer,
            final(self).history == old(self).history,
            final(self).history_index == old(self).history_index,
    {
        let line = text.to_owned();
        self.log_lines.push((line, color));
        if self.log_lines.len() > 100 {
            self.log_lines.remove(0);
        }
        proof {
            let l2 = old(self).log_view().push((text@, color));
            if l2.len() > 100 {
                assert(self.log_view() =~= l2.drop_first());
            } else {
                assert(self.log_view() =~= l2);
            }
        }
    }

    /// The backquote key: opens or closes the console; opening clears the
    /// input line and leaves history browsing.
    pub fn toggle_open(&mut self)
        ensures
            final(self).is_open == !old(self).is_open,
            final(self).is_open ==> final(self).input_buffer@ == Seq::<char>::empty() && final(self).history_index is None,
            !final(self).is_open ==> final(self).input_buffer == old(self).input_buffer
                && final(self).history_index == old(self).history_index,
            final(self).history == old(self).history,
            final(self).log_lines == old(self).log_lines,
    {
        self.is_open = !self.is_open;
        if self.is_open {
            self.input_buffer = String::new();
            self.history_index = None;
        }
    }

    /// Up arrow: steps back through the history (from the newest entry when
    /// not browsing yet) and copies the entry into the input line.
    pub fn history_up(&mut self)
        requires
            old(self).history@.len() > 0 ==> (old(self).history_index matches Some(i) ==> i <= old(self).history@.len()),
        ensures
            ({
                let h = old(self).history@;
                if h.len() == 0 {
                    *final(self) == *old(self)
                } else {
                    let next: int = match old(self).history_index {
                        Some(i) => if i > 0 { i - 1 } else { 0 },
                        None => h.len() - 1,
                    };
                    &&& final(self).history_index == Some(next as usize)
                    &&& final(self).input_buffer@ == h[next]@
                    &&& final(self).history == old(self).history
                    &&& final(self).log_lines == old(self).log_lines
                    &&& final(self).is_open == old(self).is_open
                }
            }),
    {
        let n = self.history.len();
        if n == 0 {
            return;
        }
        let next: usize = match self.history_index {
            Some(i) => if i > 0 { i - 1 } else { 0 },
            None => n - 1,
        };
        self.history_index = Some(next);
        self.input_buffer = self.history[next].clone();
    }

    /// Down arrow: steps forward through the history; past the newest entry
    /// it leaves browsing with an empty input line.
    pub fn history_down(&mut self)
        requires
            old(self).history_index matches Some(i) ==> i < usize::MAX,
        ensures
            ({
                let h = old(self).history@;
                match old(self).history_index {
                    None => *final(self) == *old(self),
                    Some(i) => {
                        &&& final(self).history == old(self).history
                        &&& final(self).log_lines == old(self).log_lines
                        &&& final(self).is_open == old(self).is_open
                        &&& if i + 1 < h.len() {
                            final(self).history_index == Some((i + 1) as usize) && final(self).input_buffer@ == h[i + 1]@
                        } else {
                            final(self).history_index is None && final(self).input_buffer@ == Seq::<char>::empty()
                        }
                    },
                }
            }),
    {
        if let Some(i) = self.history_index {
            if i + 1 < self.history.len() {
                self.history_index = Some(i + 1);
                self.input_buffer = self.history[i + 1].clone();
            } else {
                self.history_index = None;
                self.input_buffer = String::new();
            }
        }
    }

    /// Backspace: removes the last character of the input line.
    pub fn backspace(&mut self)
        ensures
            final(self).input_buffer@ == (if old(self).input_buffer@.len() > 0 { old(self).input_buffer@.drop_last() } else { Seq::empty() }),
            final(self).history == old(self).history,
            final(self).history_index == old(self).history_index,
            final(self).log_lines == old(self).log_lines,
            final(self).is_open == old(self).is_open,
    {
        let mut cs = chars_of(self.input_buffer.as_str());
        if cs.len() > 0 {
            cs.pop();
        }
        self.input_buffer = string_from_chars(cs.as_slice());
    }

    /// Typed text is appended to the input line, except the backquote and
    /// tilde that open and close the console.
    pub fn type_text(&mut self, s: &str)
        ensures
            final(self).input_buffer@ == (if s@ == "`"@ || s@ == "~"@ { old(self).input_buffer@ } else { old(self).input_buffer@ + s@ }),
            final(self).history == old(self).history,
            final(self).history_index == old(self).history_index,
            final(self).log_lines == old(self).log_lines,
            final(self).is_open == old(self).is_open,
    {
        let t = chars_of(s);
        let bq = chars_of("`");
        let tl = chars_of("~");
        if crate::text::chars_eq(t.as_slice(), bq.as_slice()) || crate::text::chars_eq(t.as_slice(), tl.as_slice()) {
            return;
        }
        let mut cs = chars_of(self.input_buffer.as_str());
        let mut i: usize = 0;
        let ghost base = cs@;
        while i < t.len()
            invariant
                i <= t@.len(),
                cs@ == base + t@.subrange(0, i as int),
            decreases t@.len() - i,
        {
            cs.push(t[i]);
            i += 1;
        }
        assert(t@.subrange(0, t@.len() as int) =~= t@);
        self.input_buffer = string_from_chars(cs.as_slice());
    }
}

} // verus!
