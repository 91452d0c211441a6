//! Sound names from the game's CON scripts: DEFS.CON gives each sound
//! symbol its number (`define NAME NUMBER`), USER.CON gives each symbol its
//! VOC file (`definesound NAME FILE ...`). Symbols and files are compared
//! upper-cased.
use vstd::prelude::*;
use std::collections::HashMap;
use crate::config::{split_at_char, split_chars, trimmed, free_of, lemma_split_append_free};
use crate::grp::{eq_ignore_ascii_case, str_eq_ignore_ascii_case};
use crate::text::{
    chars_of, string_from_chars, to_uppercase, trim_ws, uppercase, words, split_words, starts_with,
    parse_i32, parse_i32_chars, chars_eq,
};

verus! {

/// The words of a CON line; none for a blank line or a `//` comment.
pub open spec fn con_words(line: Seq<char>) -> Seq<Seq<char>> {
    let t = trimmed(line);
    if t.len() == 0 || starts_with(t, seq!['/', '/']) { Seq::empty() } else { words(t) }
}

/// The symbol (upper-cased) and number of a `define NAME NUMBER` line.
pub open spec fn define_of(line: Seq<char>) -> Option<(Seq<char>, int)> {
    let p = con_words(line);
    if p.len() >= 3 && eq_ignore_ascii_case(p[0], "define"@) {
        match parse_i32(p[2]) { Some(v) => Some((uppercase(p[1]), v)), None => None }
    } else {
        None
    }
}

/// The symbol and file (both upper-cased) of a `definesound NAME FILE` line.
pub open spec fn definesound_of(line: Seq<char>) -> Option<(Seq<char>, Seq<char>)> {
    let p = con_words(line);
    if p.len() >= 3 && eq_ignore_ascii_case(p[0], "definesound"@) {
        Some((uppercase(p[1]), uppercase(p[2])))
    } else {
        None
    }
}

/// A symbol table held as a list of (name, number) entries, a later entry
/// overriding an earlier one of the same name.
pub open spec fn symbols_of(v: Seq<(String, i32)>) -> Map<Seq<char>, i32>
    decreases v.len(),
{
    if v.len() == 0 { Map::empty() } else { symbols_of(v.drop_last()).insert(v.last().0@, v.last().1) }
}

/// `m` with the definitions of the first `k` lines added in order.
pub open spec fn defines_upto(m: Map<Seq<char>, i32>, lines: Seq<Seq<char>>, k: int) -> Map<Seq<char>, i32>
    decreases k,
{
    if k <= 0 {
        m
    } else {
        let prev = defines_upto(m, lines, k - 1);
        match define_of(lines[k - 1]) { Some((n, v)) => prev.insert(n, v as i32), None => prev }
    }
}

/// `m` with every definition of the text added, line by line.
pub open spec fn con_defines(m: Map<Seq<char>, i32>, content: Seq<char>) -> Map<Seq<char>, i32> {
    let ls = split_at_char(content, '\n');
    defines_upto(m, ls, ls.len() as int)
}

/// `m` with the files of the first `k` lines' sounds whose symbol `syms`
/// numbers.
pub open spec fn sounds_upto(m: Map<i32, Seq<char>>, syms: Map<Seq<char>, i32>, lines: Seq<Seq<char>>, k: int)
    -> Map<i32, Seq<char>>
    decreases k,
{
    if k <= 0 {
        m
    } else {
        let prev = sounds_upto(m, syms, lines, k - 1);
        match definesound_of(lines[k - 1]) {
            Some((n, f)) => if syms.contains_key(n) { prev.insert(syms[n], f) } else { prev },
            None => prev,
        }
    }
}

/// `m` with the files of every sound of the text whose symbol is known.
pub open spec fn con_sounds(m: Map<i32, Seq<char>>, syms: Map<Seq<char>, i32>, content: Seq<char>) -> Map<i32, Seq<char>> {
    let ls = split_at_char(content, '\n');
    sounds_upto(m, syms, ls, ls.len() as int)
}

/// The sound table's file names as character sequences.
pub open spec fn files_view(m: Map<i32, String>) -> Map<i32, Seq<char>> {
    m.map_values(|s: String| s@)
}

fn line_words(line: &Vec<char>) -> (r: Vec<Vec<char>>)
    ensures
        r@.len() == con_words(line@).len(),
        forall|i: int| 0 <= i < r@.len() ==> (#[trigger] r@[i])@ == con_words(line@)[i],
{
    let t = trim_ws(line);
    let comment = t.len() >= 2 && t[0] == '/' && t[1] == '/';
    proof {
        let s2 = seq!['/', '/'];
        if t@.len() >= 2 {
            if comment {
                assert(t@.subrange(0, 2) =~= s2);
            } else {
                assert(t@.subrange(0, 2)[0] == t@[0]);
                assert(t@.subrange(0, 2)[1] == t@[1]);
            }
        }
    }
    if t.len() == 0 || comment {
        return Vec::new();
    }
    split_words(t.as_slice())
}

fn upper_of(w: &Vec<char>) -> (s: String)
    ensures
        s@ == uppercase(w@),
{
    let raw = string_from_chars(w.as_slice());
    to_uppercase(raw.as_str())
}

/// Entries of other names past `i` do not change what a name maps to.
proof fn lemma_symbols_suffix(v: Seq<(String, i32)>, i: int, k: Seq<char>)
    requires
        0 <= i <= v.len(),
        forall|j: int| i <= j < v.len() ==> (#[trigger] v[j]).0@ != k,
    ensures
        symbols_of(v).contains_key(k) == symbols_of(v.subrange(0, i)).contains_key(k),
        symbols_of(v).contains_key(k) ==> symbols_of(v)[k] == symbols_of(v.subrange(0, i))[k],
    decreases v.len() - i,
{
    if i < v.len() {
        let w = v.drop_last();
        assert forall|j: int| i <= j < w.len() implies (#[trigger] w[j]).0@ != k by {
            assert(w[j] == v[j]);
        }
        lemma_symbols_suffix(w, i, k);
        assert(w.subrange(0, i) =~= v.subrange(0, i));
        assert(v.last() == v[v.len() - 1]);
    } else {
        assert(v.subrange(0, i) =~= v);
    }
}

/// The number a symbol has in the table: that of its last entry.
pub fn symbol_lookup(table: &Vec<(String, i32)>, name: &str) -> (r: Option<i32>)
    ensures
        r == (if symbols_of(table@).contains_key(name@) { Some(symbols_of(table@)[name@]) } else { None::<i32> }),
{
    let key = chars_of(name);
    let n = table.len();
    let mut i: usize = n;
    while i > 0
        invariant
            i <= n,
            n == table@.len(),
            key@ == name@,
            forall|j: int| i <= j < n ==> (#[trigger] table@[j]).0@ != name@,
        decreases i,
    {
        let e = chars_of(table[i - 1].0.as_str());
        if chars_eq(e.as_slice(), key.as_slice()) {
            proof {
                lemma_symbols_suffix(table@, i as int, name@);
                assert(table@.subrange(0, i as int).drop_last() =~= table@.subrange(0, i - 1));
                assert(table@.subrange(0, i as int).last() == table@[i - 1]);
            }
            return Some(table[i - 1].1);
        }
        i -= 1;
    }
    proof {
        lemma_symbols_suffix(table@, 0, name@);
    }
    None
}

/// Adds the `define` lines of DEFS.CON to the symbol table.
pub fn parse_defs_con_sounds(content: &str, name_to_id: &mut Vec<(String, i32)>)
    ensures
        symbols_of(final(name_to_id)@) == con_defines(symbols_of(old(name_to_id)@), content@),
{
    let cs = chars_of(content);
    let lines = split_chars(cs.as_slice(), '\n');
    let ghost ls = split_at_char(content@, '\n');
    let ghost m0 = symbols_of(name_to_id@);
    let mut k: usize = 0;
    while k < lines.len()
        invariant
            k <= lines@.len(),
            lines@.len() == ls.len(),
            ls == split_at_char(content@, '\n'),
            m0 == symbols_of(old(name_to_id)@),
            forall|i: int| 0 <= i < lines@.len() ==> (#[trigger] lines@[i])@ == ls[i],
            symbols_of(name_to_id@) == defines_upto(m0, ls, k as int),
        decreases lines@.len() - k,
    {
        let parts = line_words(&lines[k]);
        proof { assert(lines@[k as int]@ == ls[k as int]); }
        if parts.len() >= 3 {
            let head = string_from_chars(parts[0].as_slice());
            if str_eq_ignore_ascii_case(head.as_str(), "define") {
                if let Some(id) = parse_i32_chars(parts[2].as_slice()) {
                    let sym = upper_of(&parts[1]);
                    let ghost before = name_to_id@;
                    name_to_id.push((sym, id));
                    proof {
                        assert(name_to_id@.drop_last() =~= before);
                    }
                }
            }
        }
        k += 1;
    }
}

/// Adds the files of USER.CON's `definesound` lines to the sound table,
/// for the symbols that DEFS.CON numbered.
pub fn parse_user_con_sounds(content: &str, name_to_id: &Vec<(String, i32)>, id_map: &mut HashMap<i32, String>)
    ensures
        files_view(final(id_map)@) == con_sounds(files_view(old(id_map)@), symbols_of(name_to_id@), content@),
{
    let cs = chars_of(content);
    let lines = split_chars(cs.as_slice(), '\n');
    let ghost ls = split_at_char(content@, '\n');
    let ghost m0 = files_view(id_map@);
    let ghost syms = symbols_of(name_to_id@);
    let mut k: usize = 0;
    while k < lines.len()
        invariant
            k <= lines@.len(),
            lines@.len() == ls.len(),
            ls == split_at_char(content@, '\n'),
            m0 == files_view(old(id_map)@),
            syms == symbols_of(name_to_id@),
            forall|i: int| 0 <= i < lines@.len() ==> (#[trigger] lines@[i])@ == ls[i],
            files_view(id_map@) == sounds_upto(m0, syms, ls, k as int),
        decreases lines@.len() - k,
    {
        let parts = line_words(&lines[k]);
        proof { assert(lines@[k as int]@ == ls[k as int]); }
        if parts.len() >= 3 {
            let head = string_from_chars(parts[0].as_slice());
            if str_eq_ignore_ascii_case(head.as_str(), "definesound") {
                let sym = upper_of(&parts[1]);
                let file = upper_of(&parts[2]);
                if let Some(id) = symbol_lookup(name_to_id, sym.as_str()) {
                    let ghost before = id_map@;
                    let ghost fv = file@;
                    id_map.insert(id, file);
                    proof {
                        assert(files_view(id_map@) =~= files_view(before).insert(id, fv));
                    }
                }
            }
        }
        k += 1;
    }
}

/// A `define` line read into any table gives its symbol its number,
/// whatever the table held before.
pub proof fn lemma_define_then_lookup(m: Map<Seq<char>, i32>, line: Seq<char>)
    requires
        define_of(line) is Some,
        free_of(line, '\n'),
    ensures
        (match define_of(line) {
            Some((n, v)) => con_defines(m, line).contains_key(n) && con_defines(m, line)[n] == v as i32,
            None => false,
        }),
{
    let e = Seq::<char>::empty();
    lemma_split_append_free(e, line, '\n');
    assert(e + line =~= line);
    assert(split_at_char(e, '\n') =~= seq![e]);
    let ls = split_at_char(line, '\n');
    assert(ls =~= seq![line]);
    assert(defines_upto(m, ls, 0) == m);
}

} // verus!
