//! Text helpers: decoding byte names, trimming, ASCII case, decimal digits.
use vstd::prelude::*;

verus! {

/// What `String::from_utf8_lossy` makes of bytes that are not valid UTF-8
/// (each invalid sequence becomes U+FFFD).
pub uninterp spec fn utf8_lossy_invalid(bytes: Seq<u8>) -> Seq<char>;

/// What `String::from_utf8_lossy` makes of `bytes`: for valid UTF-8 the
/// decoded characters.
pub open spec fn utf8_lossy_chars(bytes: Seq<u8>) -> Seq<char> {
    if vstd::utf8::valid_utf8(bytes) { vstd::utf8::decode_utf8(bytes) } else { utf8_lossy_invalid(bytes) }
}

/// What `str::to_uppercase` makes of `s` (full Unicode case mapping).
pub uninterp spec fn unicode_uppercase(s: Seq<char>) -> Seq<char>;

/// `str::to_uppercase`: on ASCII text, ASCII upper-casing.
pub open spec fn uppercase(s: Seq<char>) -> Seq<char> {
    if all_ascii(s) { upper_seq(s) } else { unicode_uppercase(s) }
}

/// What `str::to_lowercase` makes of `s` (full Unicode case mapping).
pub uninterp spec fn unicode_lowercase(s: Seq<char>) -> Seq<char>;

/// `str::to_lowercase`: on ASCII text, ASCII lower-casing.
pub open spec fn lowercase(s: Seq<char>) -> Seq<char> {
    if all_ascii(s) { lower_seq(s) } else { unicode_lowercase(s) }
}

/// Rust's `char::is_whitespace`: the Unicode `White_Space` property.
pub open spec fn is_unicode_whitespace(c: char) -> bool {
    let u = c as u32;
    (0x09 <= u <= 0x0d) || u == 0x20 || u == 0x85 || u == 0xa0 || u == 0x1680
        || (0x2000 <= u <= 0x200a) || u == 0x2028 || u == 0x2029 || u == 0x202f
        || u == 0x205f || u == 0x3000
}

pub open spec fn is_ascii_char(c: char) -> bool {
    (c as u32) < 128
}

pub open spec fn all_ascii(s: Seq<char>) -> bool {
    forall|i: int| 0 <= i < s.len() ==> is_ascii_char(#[trigger] s[i])
}

pub open spec fn ascii_upper(c: char) -> char {
    if 'a' <= c && c <= 'z' { ((c as u32) - 32) as char } else { c }
}

pub open spec fn ascii_lower(c: char) -> char {
    if 'A' <= c && c <= 'Z' { ((c as u32) + 32) as char } else { c }
}

pub open spec fn upper_seq(s: Seq<char>) -> Seq<char> {
    Seq::new(s.len(), |i: int| ascii_upper(s[i]))
}

pub open spec fn lower_seq(s: Seq<char>) -> Seq<char> {
    Seq::new(s.len(), |i: int| ascii_lower(s[i]))
}

/// Number of leading characters of `s` that satisfy `p`.
pub open spec fn leading(s: Seq<char>, p: spec_fn(char) -> bool) -> nat
    decreases s.len(),
{
    if s.len() > 0 && p(s[0]) { 1 + leading(s.drop_first(), p) } else { 0 }
}

/// Number of trailing characters of `s` that satisfy `p`.
pub open spec fn trailing(s: Seq<char>, p: spec_fn(char) -> bool) -> nat
    decreases s.len(),
{
    if s.len() > 0 && p(s.last()) { 1 + trailing(s.drop_last(), p) } else { 0 }
}

/// `s` with every leading and trailing character satisfying `p` removed.
pub open spec fn trim_by(s: Seq<char>, p: spec_fn(char) -> bool) -> Seq<char> {
    let a = leading(s, p) as int;
    if a == s.len() {
        Seq::empty()
    } else {
        s.subrange(a, s.len() - trailing(s, p) as int)
    }
}

pub open spec fn is_nul(c: char) -> bool {
    c == '\0'
}

/// `trim_matches('\0')` followed by `trim()`.
pub open spec fn trim_name(s: Seq<char>) -> Seq<char> {
    trim_by(trim_by(s, |c: char| is_nul(c)), |c: char| is_unicode_whitespace(c))
}

/// A fixed-width byte field read as text the way the asset loaders do it:
/// lossy UTF-8, then NULs and whitespace trimmed from both ends.
pub open spec fn field_name(bytes: Seq<u8>) -> Seq<char> {
    trim_name(utf8_lossy_chars(bytes))
}

/// Decodes bytes as UTF-8, replacing invalid sequences (`String::from_utf8_lossy`).
#[verifier::external_body]
pub fn lossy_utf8(bytes: &[u8]) -> (s: String)
    ensures
        vstd::utf8::valid_utf8(bytes@) ==> s@ == vstd::utf8::decode_utf8(bytes@),
        !vstd::utf8::valid_utf8(bytes@) ==> s@ == utf8_lossy_invalid(bytes@),
{
    String::from_utf8_lossy(bytes).to_string()
}

/// Upper-cases a string with full Unicode case mapping (`str::to_uppercase`).
#[verifier::external_body]
pub fn to_uppercase(s: &str) -> (r: String)
    ensures
        r@ == uppercase(s@),
        !all_ascii(s@) ==> r@ == unicode_uppercase(s@),
        all_ascii(s@) ==> r@ == upper_seq(s@),
{
    s.to_uppercase()
}

/// Lower-cases a string with full Unicode case mapping (`str::to_lowercase`).
#[verifier::external_body]
pub fn to_lowercase(s: &str) -> (r: String)
    ensures
        r@ == lowercase(s@),
        !all_ascii(s@) ==> r@ == unicode_lowercase(s@),
        all_ascii(s@) ==> r@ == lower_seq(s@),
{
    s.to_lowercase()
}

/// The characters of a string, in order.
pub fn chars_of(s: &str) -> (v: Vec<char>)
    ensures
        v@ == s@,
{
    broadcast use vstd::string::axiom_spec_iter;
    let mut v: Vec<char> = Vec::new();
    for c in it: s.chars()
        invariant
            v@ == it.seq().take(it.index() as int),
    {
        v.push(c);
    }
    assert(v@ =~= s@);
    v
}

/// A string made of the given characters (`String: FromIterator<char>`).
#[verifier::external_body]
pub fn string_from_chars(v: &[char]) -> (s: String)
    ensures
        s@ == v@,
{
    v.iter().collect()
}

/// Whether `c` is whitespace in the sense of `char::is_whitespace`.
pub fn is_whitespace(c: char) -> (r: bool)
    ensures
        r == is_unicode_whitespace(c),
{
    let u = c as u32;
    (0x09 <= u && u <= 0x0d) || u == 0x20 || u == 0x85 || u == 0xa0 || u == 0x1680
        || (0x2000 <= u && u <= 0x200a) || u == 0x2028 || u == 0x2029 || u == 0x202f
        || u == 0x205f || u == 0x3000
}

pub proof fn lemma_leading_bound(s: Seq<char>, p: spec_fn(char) -> bool)
    ensures
        leading(s, p) <= s.len(),
        forall|i: int| 0 <= i < leading(s, p) ==> p(#[trigger] s[i]),
        leading(s, p) < s.len() ==> !p(s[leading(s, p) as int]),
    decreases s.len(),
{
    if s.len() > 0 && p(s[0]) {
        lemma_leading_bound(s.drop_first(), p);
        assert forall|i: int| 0 <= i < leading(s, p) implies p(#[trigger] s[i]) by {
            if i > 0 {
                assert(s[i] == s.drop_first()[i - 1]);
            }
        }
    }
}

pub proof fn lemma_trailing_bound(s: Seq<char>, p: spec_fn(char) -> bool)
    ensures
        trailing(s, p) <= s.len(),
        forall|i: int| s.len() - trailing(s, p) <= i < s.len() ==> p(#[trigger] s[i]),
        trailing(s, p) < s.len() ==> !p(s[s.len() - 1 - trailing(s, p)]),
    decreases s.len(),
{
    if s.len() > 0 && p(s.last()) {
        lemma_trailing_bound(s.drop_last(), p);
        assert forall|i: int| s.len() - trailing(s, p) <= i < s.len() implies p(#[trigger] s[i]) by {
            if i < s.len() - 1 {
                assert(s[i] == s.drop_last()[i]);
            }
        }
    }
}

/// Characterises `leading` by its first failing position.
pub proof fn lemma_leading_is(s: Seq<char>, p: spec_fn(char) -> bool, a: int)
    requires
        0 <= a <= s.len(),
        forall|i: int| 0 <= i < a ==> p(#[trigger] s[i]),
        a < s.len() ==> !p(s[a]),
    ensures
        leading(s, p) == a,
    decreases s.len(),
{
    if a > 0 {
        assert forall|i: int| 0 <= i < a - 1 implies p(#[trigger] s.drop_first()[i]) by {
            assert(s.drop_first()[i] == s[i + 1]);
        }
        lemma_leading_is(s.drop_first(), p, a - 1);
    }
}

/// Characterises `trailing` by its last failing position.
pub proof fn lemma_trailing_is(s: Seq<char>, p: spec_fn(char) -> bool, b: int)
    requires
        0 <= b <= s.len(),
        forall|i: int| s.len() - b <= i < s.len() ==> p(#[trigger] s[i]),
        b < s.len() ==> !p(s[s.len() - 1 - b]),
    ensures
        trailing(s, p) == b,
    decreases s.len(),
{
    if b > 0 {
        assert forall|i: int| s.drop_last().len() - (b - 1) <= i < s.drop_last().len() implies p(#[trigger] s.drop_last()[i]) by {
            assert(s.drop_last()[i] == s[i]);
        }
        lemma_trailing_is(s.drop_last(), p, b - 1);
    }
}

/// Removes leading and trailing NULs (`trim_matches('\0')`).
fn trim_nul(v: &Vec<char>) -> (r: Vec<char>)
    ensures
        r@ == trim_by(v@, |c: char| is_nul(c)),
{
    let ghost p = |c: char| is_nul(c);
    let n = v.len();
    let mut a: usize = 0;
    while a < n && v[a] == '\0'
        invariant
            n == v@.len(),
            a <= n,
            forall|i: int| 0 <= i < a ==> is_nul(#[trigger] v@[i]),
        decreases n - a,
    {
        a += 1;
    }
    proof { lemma_leading_is(v@, p, a as int); }
    if a == n {
        return Vec::new();
    }
    let mut b: usize = n;
    while b > a && v[b - 1] == '\0'
        invariant
            n == v@.len(),
            a < n,
            !is_nul(v@[a as int]),
            a <= b <= n,
            forall|i: int| b <= i < n ==> is_nul(#[trigger] v@[i]),
        decreases b,
    {
        b -= 1;
    }
    proof { lemma_trailing_is(v@, p, (n - b) as int); }
    let mut r: Vec<char> = Vec::new();
    let mut i = a;
    while i < b
        invariant
            a <= i <= b <= n,
            n == v@.len(),
            r@ == v@.subrange(a as int, i as int),
        decreases b - i,
    {
        r.push(v[i]);
        i += 1;
    }
    r
}

/// Removes leading and trailing whitespace (`str::trim`).
pub fn trim_ws(v: &Vec<char>) -> (r: Vec<char>)
    ensures
        r@ == trim_by(v@, |c: char| is_unicode_whitespace(c)),
{
    let ghost p = |c: char| is_unicode_whitespace(c);
    let n = v.len();
    let mut a: usize = 0;
    while a < n && is_whitespace(v[a])
        invariant
            n == v@.len(),
            a <= n,
            forall|i: int| 0 <= i < a ==> is_unicode_whitespace(#[trigger] v@[i]),
        decreases n - a,
    {
        a += 1;
    }
    proof { lemma_leading_is(v@, p, a as int); }
    if a == n {
        return Vec::new();
    }
    let mut b: usize = n;
    while b > a && is_whitespace(v[b - 1])
        invariant
            n == v@.len(),
            a < n,
            !is_unicode_whitespace(v@[a as int]),
            a <= b <= n,
            forall|i: int| b <= i < n ==> is_unicode_whitespace(#[trigger] v@[i]),
        decreases b,
    {
        b -= 1;
    }
    proof { lemma_trailing_is(v@, p, (n - b) as int); }
    let mut r: Vec<char> = Vec::new();
    let mut i = a;
    while i < b
        invariant
            a <= i <= b <= n,
            n == v@.len(),
            r@ == v@.subrange(a as int, i as int),
        decreases b - i,
    {
        r.push(v[i]);
        i += 1;
    }
    r
}

/// Reads a fixed-width name field: lossy UTF-8, then NULs and whitespace
/// trimmed from both ends.
pub fn decode_field_name(bytes: &[u8]) -> (s: String)
    ensures
        s@ == field_name(bytes@),
{
    let raw = lossy_utf8(bytes);
    let cs = chars_of(raw.as_str());
    let t1 = trim_nul(&cs);
    let t2 = trim_ws(&t1);
    string_from_chars(t2.as_slice())
}

/// `s` ends with `t`.
pub open spec fn ends_with(s: Seq<char>, t: Seq<char>) -> bool {
    t.len() <= s.len() && s.subrange(s.len() - t.len(), s.len() as int) == t
}

/// `s` starts with `t`.
pub open spec fn starts_with(s: Seq<char>, t: Seq<char>) -> bool {
    t.len() <= s.len() && s.subrange(0, t.len() as int) == t
}

/// `t` occurs in `s` at position `i`.
pub open spec fn occurs_at(s: Seq<char>, t: Seq<char>, i: int) -> bool {
    0 <= i && i + t.len() <= s.len() && s.subrange(i, i + t.len()) == t
}

/// `t` occurs somewhere in `s`.
pub open spec fn contains_seq(s: Seq<char>, t: Seq<char>) -> bool {
    exists|i: int| occurs_at(s, t, i)
}

/// Whether `s[at..]` begins with `t`.
pub fn chars_match_at(s: &[char], t: &[char], at: usize) -> (r: bool)
    ensures
        r == occurs_at(s@, t@, at as int),
{
    let n = s.len();
    let m = t.len();
    if at > n || m > n - at {
        return false;
    }
    let mut k: usize = 0;
    while k < m
        invariant
            at + m <= n,
            n == s@.len(),
            m == t@.len(),
            k <= m,
            forall|j: int| 0 <= j < k ==> s@[at + j] == t@[j],
        decreases m - k,
    {
        if s[at + k] != t[k] {
            assert(s@.subrange(at as int, at + m)[k as int] != t@[k as int]);
            return false;
        }
        k += 1;
    }
    assert(s@.subrange(at as int, at + m) =~= t@);
    true
}

pub fn chars_ends_with(s: &[char], t: &[char]) -> (r: bool)
    ensures
        r == ends_with(s@, t@),
{
    if t.len() > s.len() {
        return false;
    }
    chars_match_at(s, t, s.len() - t.len())
}

pub fn chars_starts_with(s: &[char], t: &[char]) -> (r: bool)
    ensures
        r == starts_with(s@, t@),
{
    chars_match_at(s, t, 0)
}

pub fn chars_contain(s: &[char], t: &[char]) -> (r: bool)
    ensures
        r == contains_seq(s@, t@),
{
    let n = s.len();
    let mut i: usize = 0;
    while i < n
        invariant
            n == s@.len(),
            i <= n,
            forall|j: int| 0 <= j < i ==> !occurs_at(s@, t@, j),
        decreases n - i,
    {
        if chars_match_at(s, t, i) {
            return true;
        }
        i += 1;
    }
    if chars_match_at(s, t, n) {
        return true;
    }
    assert forall|j: int| !occurs_at(s@, t@, j) by {
        if 0 <= j && j < n {
        } else if j > n {
            assert(!occurs_at(s@, t@, j));
        }
    }
    false
}


/// The whitespace-separated words of `s` (`str::split_whitespace`),
/// defined from the last character back.
pub open spec fn words(s: Seq<char>) -> Seq<Seq<char>>
    decreases s.len(),
{
    if s.len() == 0 {
        Seq::empty()
    } else if is_unicode_whitespace(s.last()) {
        words(s.drop_last())
    } else {
        let w = words(s.drop_last());
        if s.len() > 1 && !is_unicode_whitespace(s[s.len() - 2]) {
            w.update(w.len() - 1, w.last().push(s.last()))
        } else {
            w.push(seq![s.last()])
        }
    }
}

/// Text that ends in a non-whitespace character, or holds one anywhere,
/// has at least one word.
pub proof fn lemma_words_last(s: Seq<char>)
    ensures
        s.len() > 0 && !is_unicode_whitespace(s.last()) ==> words(s).len() > 0,
        (exists|i: int| 0 <= i < s.len() && !is_unicode_whitespace(#[trigger] s[i])) ==> words(s).len() > 0,
    decreases s.len(),
{
    if s.len() > 0 {
        lemma_words_last(s.drop_last());
        if exists|i: int| 0 <= i < s.len() && !is_unicode_whitespace(#[trigger] s[i]) {
            let i = choose|i: int| 0 <= i < s.len() && !is_unicode_whitespace(#[trigger] s[i]);
            if i < s.len() - 1 {
                assert(!is_unicode_whitespace(s.drop_last()[i]));
            }
        }
    }
}

/// Splits characters into whitespace-separated words.
pub fn split_words(s: &[char]) -> (r: Vec<Vec<char>>)
    ensures
        r@.len() == words(s@).len(),
        forall|i: int| 0 <= i < r@.len() ==> (#[trigger] r@[i])@ == words(s@)[i],
{
    let n = s.len();
    let mut r: Vec<Vec<char>> = Vec::new();
    let mut i: usize = 0;
    while i < n
        invariant
            n == s@.len(),
            i <= n,
            r@.len() == words(s@.subrange(0, i as int)).len(),
            forall|k: int| 0 <= k < r@.len() ==> (#[trigger] r@[k])@ == words(s@.subrange(0, i as int))[k],
        decreases n - i,
    {
        let c = s[i];
        let ghost pre = s@.subrange(0, i as int);
        let ghost cur = s@.subrange(0, i + 1);
        assert(cur.drop_last() =~= pre);
        assert(cur.last() == c);
        if is_whitespace(c) {
        } else if i > 0 && !is_whitespace(s[i - 1]) {
            assert(cur[cur.len() - 2] == s@[i - 1]);
            assert(pre.last() == s@[i - 1]);
            proof {
                lemma_words_last(pre);
            }
            let mut last = r.pop().unwrap();
            last.push(c);
            r.push(last);
            assert forall|k: int| 0 <= k < r@.len() implies (#[trigger] r@[k])@ == words(cur)[k] by {
                if k < r@.len() - 1 {
                }
            }
        } else {
            let mut w: Vec<char> = Vec::new();
            w.push(c);
            assert(w@ =~= seq![c]);
            r.push(w);
            assert forall|k: int| 0 <= k < r@.len() implies (#[trigger] r@[k])@ == words(cur)[k] by {
                if k < r@.len() - 1 {
                }
            }
        }
        i += 1;
    }
    assert(s@.subrange(0, n as int) =~= s@);
    r
}

/// Whether two character sequences are equal.
pub fn chars_eq(a: &[char], b: &[char]) -> (r: bool)
    ensures
        r == (a@ == b@),
{
    if a.len() != b.len() {
        return false;
    }
    let r = chars_match_at(a, b, 0);
    proof {
        assert(a@.subrange(0, b@.len() as int) =~= a@);
    }
    r
}

pub open spec fn is_digit(c: char) -> bool {
    '0' <= c && c <= '9'
}

pub open spec fn all_digits(d: Seq<char>) -> bool {
    forall|i: int| 0 <= i < d.len() ==> is_digit(#[trigger] d[i])
}

/// The value of a run of ASCII digits.
pub open spec fn digits_value(d: Seq<char>) -> nat
    decreases d.len(),
{
    if d.len() == 0 { 0 } else { digits_value(d.drop_last()) * 10 + ((d.last() as u32) - 48) as nat }
}

/// `from_str` of an unsigned integer type whose largest value is `max`:
/// an optional `+`, then one or more ASCII digits whose value is at most
/// `max`.
pub open spec fn parse_uint(s: Seq<char>, max: nat) -> Option<nat> {
    let d = if s.len() > 0 && s[0] == '+' { s.drop_first() } else { s };
    if d.len() == 0 || !all_digits(d) || digits_value(d) > max {
        None
    } else {
        Some(digits_value(d))
    }
}

/// `usize::from_str`.
pub open spec fn parse_usize(s: Seq<char>) -> Option<usize> {
    match parse_uint(s, usize::MAX as nat) { Some(v) => Some(v as usize), None => None }
}

/// `i32::from_str`: an optional sign, then one or more ASCII digits, the
/// value within the range of `i32`.
pub open spec fn parse_i32(s: Seq<char>) -> Option<int> {
    if s.len() > 0 && s[0] == '-' {
        let d = s.drop_first();
        if d.len() == 0 || !all_digits(d) || digits_value(d) > 0x8000_0000 {
            None
        } else {
            Some(-(digits_value(d) as int))
        }
    } else {
        match parse_uint(s, i32::MAX as nat) { Some(v) => Some(v as int), None => None }
    }
}

/// A number's digits are worth at least as much as any prefix of them.
proof fn lemma_digits_prefix_bound(d: Seq<char>, k: int)
    requires
        0 <= k <= d.len(),
        all_digits(d),
    ensures
        digits_value(d.subrange(0, k)) <= digits_value(d),
    decreases d.len(),
{
    if k < d.len() {
        assert(d.drop_last().subrange(0, k) =~= d.subrange(0, k));
        assert(all_digits(d.drop_last())) by {
            assert forall|i: int| 0 <= i < d.drop_last().len() implies is_digit(#[trigger] d.drop_last()[i]) by {
                assert(d.drop_last()[i] == d[i]);
            }
        }
        lemma_digits_prefix_bound(d.drop_last(), k);
    } else {
        assert(d.subrange(0, k) =~= d);
    }
}

/// Parses an unsigned decimal number of at most `max`, the way the
/// integer types' `from_str` does.
pub fn parse_uint_chars(s: &[char], max: u64) -> (r: Option<u64>)
    ensures
        match parse_uint(s@, max as nat) { Some(v) => r == Some(v as u64), None => r is None },
{
    let n = s.len();
    let start: usize = if n > 0 && s[0] == '+' { 1 } else { 0 };
    let ghost d = if s@.len() > 0 && s@[0] == '+' { s@.drop_first() } else { s@ };
    assert(d =~= s@.subrange(start as int, n as int));
    if start == n {
        return None;
    }
    let mut v: u64 = 0;
    let mut i: usize = start;
    while i < n
        invariant
            n == s@.len(),
            start <= i <= n,
            start < n,
            d == s@.subrange(start as int, n as int),
            d == (if s@.len() > 0 && s@[0] == '+' { s@.drop_first() } else { s@ }),
            all_digits(s@.subrange(start as int, i as int)),
            v == digits_value(s@.subrange(start as int, i as int)),
            v <= max,
        decreases n - i,
    {
        let c = s[i];
        let ghost pre = s@.subrange(start as int, i as int);
        let ghost cur = s@.subrange(start as int, i + 1);
        assert(cur.drop_last() =~= pre);
        assert(d.subrange(0, i + 1 - start) =~= cur);
        if !('0' <= c && c <= '9') {
            assert(!is_digit(d[i - start]));
            return None;
        }
        assert(all_digits(cur)) by {
            assert forall|k: int| 0 <= k < cur.len() implies is_digit(#[trigger] cur[k]) by {
                if k < cur.len() - 1 {
                    assert(cur[k] == pre[k]);
                }
            }
        }
        let dv = (c as u32 - 48) as u64;
        assert(cur.last() == c);
        assert(digits_value(cur) == v * 10 + dv);
        match v.checked_mul(10) {
            Some(m) => match m.checked_add(dv) {
                Some(nv) => {
                    if nv > max {
                        proof {
                            if all_digits(d) {
                                lemma_digits_prefix_bound(d, (i + 1 - start) as int);
                            }
                        }
                        return None;
                    }
                    v = nv;
                },
                None => {
                    proof {
                        if all_digits(d) {
                            lemma_digits_prefix_bound(d, (i + 1 - start) as int);
                        }
                    }
                    return None;
                },
            },
            None => {
                proof {
                    if all_digits(d) {
                        lemma_digits_prefix_bound(d, (i + 1 - start) as int);
                    }
                }
                return None;
            },
        }
        i += 1;
    }
    Some(v)
}

/// Parses a decimal `i32`, the way `i32::from_str` does.
pub fn parse_i32_chars(s: &[char]) -> (r: Option<i32>)
    ensures
        match parse_i32(s@) { Some(v) => r == Some(v as i32), None => r is None },
{
    let n = s.len();
    if n > 0 && s[0] == '-' {
        let mut rest: Vec<char> = Vec::new();
        let mut i: usize = 1;
        while i < n
            invariant
                1 <= i <= n,
                n == s@.len(),
                rest@ == s@.subrange(1, i as int),
            decreases n - i,
        {
            rest.push(s[i]);
            i += 1;
        }
        assert(rest@ =~= s@.drop_first());
        if rest.len() > 0 && rest[0] == '+' {
            assert(!crate::text::is_digit(rest@[0]));
            return None;
        }
        match parse_uint_chars(rest.as_slice(), 0x8000_0000) {
            Some(v) => {
                let neg: i64 = 0i64 - (v as i64);
                Some(neg as i32)
            },
            None => None,
        }
    } else {
        match parse_uint_chars(s, 0x7fff_ffff) {
            Some(v) => Some(v as i32),
            None => None,
        }
    }
}

/// Parses a number the way `usize::from_str` does.
pub fn parse_usize_chars(s: &[char]) -> (r: Option<usize>)
    ensures
        r == parse_usize(s@),
{
    match parse_uint_chars(s, usize::MAX as u64) {
        Some(v) => Some(v as usize),
        None => None,
    }
}

/// `s` with every trailing copy of `t` removed (`str::trim_end_matches`).
pub open spec fn strip_suffixes(s: Seq<char>, t: Seq<char>) -> Seq<char>
    decreases s.len(),
{
    if t.len() > 0 && ends_with(s, t) { strip_suffixes(s.subrange(0, s.len() - t.len()), t) } else { s }
}

pub fn chars_strip_suffixes(s: &[char], t: &[char]) -> (r: Vec<char>)
    ensures
        r@ == strip_suffixes(s@, t@),
{
    let m = t.len();
    let mut end = s.len();
    assert(s@.subrange(0, end as int) =~= s@);
    while m > 0 && end >= m && chars_match_at(s, t, end - m)
        invariant
            end <= s@.len(),
            m == t@.len(),
            strip_suffixes(s@.subrange(0, end as int), t@) == strip_suffixes(s@, t@),
        decreases end,
    {
        let ghost cur = s@.subrange(0, end as int);
        assert(cur.subrange(cur.len() - m, cur.len() as int) =~= s@.subrange(end - m, end as int));
        assert(cur.subrange(0, cur.len() - m) =~= s@.subrange(0, end - m));
        end = end - m;
    }
    proof {
        let cur = s@.subrange(0, end as int);
        if m > 0 && end >= m {
            assert(cur.subrange(cur.len() - m, cur.len() as int) =~= s@.subrange(end - m, end as int));
        }
        assert(!(m > 0 && ends_with(cur, t@)));
    }
    let mut r: Vec<char> = Vec::new();
    let mut i: usize = 0;
    while i < end
        invariant
            end <= s@.len(),
            i <= end,
            r@ == s@.subrange(0, i as int),
        decreases end - i,
    {
        r.push(s[i]);
        i += 1;
    }
    r
}

/// The decimal digits of `n` (no sign, no leading zeros; "0" for zero).
pub open spec fn decimal(n: nat) -> Seq<char>
    decreases n,
{
    if n < 10 {
        seq![(('0' as u32) + n) as char]
    } else {
        decimal(n / 10).push((('0' as u32) + (n % 10)) as char)
    }
}

/// The decimal digits of `n` are digits, at least one, worth `n`.
pub proof fn lemma_decimal_digits(n: nat)
    ensures
        decimal(n).len() >= 1,
        all_digits(decimal(n)),
        digits_value(decimal(n)) == n,
    decreases n,
{
    let d = decimal(n);
    assert(d.last() == (('0' as u32) + (n % 10)) as char);
    assert((d.last() as u32) == 48 + n % 10);
    if n >= 10 {
        lemma_decimal_digits(n / 10);
        assert(d.drop_last() =~= decimal(n / 10));
        assert forall|i: int| 0 <= i < d.len() implies is_digit(#[trigger] d[i]) by {
            if i < d.len() - 1 {
                assert(d[i] == decimal(n / 10)[i]);
            }
        }
        assert(digits_value(d) == digits_value(decimal(n / 10)) * 10 + (n % 10));
        assert((n / 10) * 10 + n % 10 == n);
    } else {
        assert(d.drop_last() =~= Seq::<char>::empty());
        assert(digits_value(d.drop_last()) == 0);
    }
}

/// A number written in decimal reads back as itself.
pub proof fn lemma_parse_decimal(n: nat, max: nat)
    requires
        n <= max,
    ensures
        parse_uint(decimal(n), max) == Some(n),
{
    lemma_decimal_digits(n);
}

/// Appends the decimal digits of `n` to `out`.
pub fn push_decimal(out: &mut Vec<char>, n: u64)
    ensures
        final(out)@ == old(out)@ + decimal(n as nat),
    decreases n,
{
    if n >= 10 {
        push_decimal(out, n / 10);
    }
    let d = (n % 10) as u32;
    let c = char_from_digit(d);
    out.push(c);
    proof {
        if n >= 10 {
            assert(decimal(n as nat) == decimal((n / 10) as nat).push(c));
        }
    }
}

/// The ASCII digit for `d` in `0..10`.
pub fn char_from_digit(d: u32) -> (c: char)
    requires
        d < 10,
    ensures
        c == (('0' as u32) + d) as char,
{
    match d {
        0 => '0',
        1 => '1',
        2 => '2',
        3 => '3',
        4 => '4',
        5 => '5',
        6 => '6',
        7 => '7',
        8 => '8',
        _ => '9',
    }
}

} // verus!
