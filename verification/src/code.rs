//! Reading a map code out of what a user typed.
//!
//! Three shapes of input carry a code, tried in this order: the echo of the
//! chat command (`!bsr ` and the code), a link to the map's page (the hex
//! digits that follow `beatsaver.com/maps/`), and the bare code (one to five
//! hex digits, with any white space around them). Anything else is a search
//! query.

use vstd::prelude::*;
use vstd::string::*;
use crate::text::to_chars;

verus! {

/// The longest bare code, in characters.
pub const MAX_CODE_LEN: usize = 5;

/// What the echo of the chat command starts with.
pub open spec fn command_prefix() -> Seq<char> {
    "!bsr "@
}

/// What precedes the code in a link to a map's page.
pub open spec fn link_marker() -> Seq<char> {
    "beatsaver.com/maps/"@
}

/// A hexadecimal digit, in either case.
pub open spec fn is_hex_digit(c: char) -> bool {
    ('0' <= c && c <= '9') || ('a' <= c && c <= 'f') || ('A' <= c && c <= 'F')
}

/// A character with the Unicode property `White_Space`.
pub open spec fn is_whitespace(c: char) -> bool {
    ('\u{9}' <= c && c <= '\u{d}') || c == ' ' || c == '\u{85}' || c == '\u{a0}' || c
        == '\u{1680}' || ('\u{2000}' <= c && c <= '\u{200a}') || c == '\u{2028}' || c
        == '\u{2029}' || c == '\u{202f}' || c == '\u{205f}' || c == '\u{3000}'
}

/// Whether `pattern` stands in `s` at index `i`.
pub open spec fn occurs_at(s: Seq<char>, pattern: Seq<char>, i: int) -> bool {
    0 <= i && i + pattern.len() <= s.len() && s.subrange(i, i + pattern.len()) == pattern
}

/// Whether a link to a map starts at index `i`: the marker, and a hex digit
/// after it.
pub open spec fn link_at(s: Seq<char>, i: int) -> bool {
    occurs_at(s, link_marker(), i) && i + link_marker().len() < s.len() && is_hex_digit(
        s[i + link_marker().len()],
    )
}

/// The first index at or after `from` at which a link starts; the length of
/// `s` if there is none.
pub open spec fn first_link(s: Seq<char>, from: int) -> int
    decreases s.len() - from,
{
    if from < 0 || from >= s.len() {
        s.len() as int
    } else if link_at(s, from) {
        from
    } else {
        first_link(s, from + 1)
    }
}

/// The end of the run of hex digits that starts at `from`.
pub open spec fn hex_run_end(s: Seq<char>, from: int) -> int
    decreases s.len() - from,
{
    if from < 0 || from >= s.len() || !is_hex_digit(s[from]) {
        from
    } else {
        hex_run_end(s, from + 1)
    }
}

/// The first index at or after `from` of a character that is no white space;
/// the length of `s` if there is none.
pub open spec fn trim_start_index(s: Seq<char>, from: int) -> int
    decreases s.len() - from,
{
    if from < 0 || from >= s.len() {
        s.len() as int
    } else if !is_whitespace(s[from]) {
        from
    } else {
        trim_start_index(s, from + 1)
    }
}

/// The end of `s` without the white space at the end of `s[from..to]`.
pub open spec fn trim_end_index(s: Seq<char>, from: int, to: int) -> int
    decreases to - from,
{
    if to <= from || to > s.len() {
        from
    } else if !is_whitespace(s[to - 1]) {
        to
    } else {
        trim_end_index(s, from, to - 1)
    }
}

/// `s` without the white space at its start and at its end.
pub open spec fn trimmed(s: Seq<char>) -> Seq<char> {
    let from = trim_start_index(s, 0);
    s.subrange(from, trim_end_index(s, from, s.len() as int))
}

/// Whether `t` is a bare code: one to five hex digits and nothing else.
pub open spec fn is_bare_code(t: Seq<char>) -> bool {
    &&& 1 <= t.len() <= MAX_CODE_LEN
    &&& forall|i: int| 0 <= i < t.len() ==> is_hex_digit(#[trigger] t[i])
}

/// The code that an input carries, if it carries one.
pub open spec fn extracted(s: Seq<char>) -> Option<Seq<char>> {
    if occurs_at(s, command_prefix(), 0) {
        Some(s.subrange(command_prefix().len() as int, s.len() as int))
    } else if first_link(s, 0) < s.len() {
        let start = first_link(s, 0) + link_marker().len();
        Some(s.subrange(start, hex_run_end(s, start)))
    } else if is_bare_code(trimmed(s)) {
        Some(trimmed(s))
    } else {
        None
    }
}

/// `first_link` finds the least index at which a link starts.
pub proof fn lemma_first_link_is_least(s: Seq<char>, from: int)
    requires
        0 <= from <= s.len(),
    ensures
        from <= first_link(s, from) <= s.len(),
        first_link(s, from) < s.len() ==> link_at(s, first_link(s, from)),
        forall|j: int| from <= j < first_link(s, from) ==> !link_at(s, j),
    decreases s.len() - from,
{
    if from < s.len() && !link_at(s, from) {
        lemma_first_link_is_least(s, from + 1);
    }
}

/// A run of hex digits ends where the first other character stands, or the
/// text ends.
pub proof fn lemma_hex_run_ends(s: Seq<char>, from: int, end: int)
    requires
        0 <= from <= end <= s.len(),
        forall|j: int| from <= j < end ==> is_hex_digit(#[trigger] s[j]),
        end == s.len() || !is_hex_digit(s[end]),
    ensures
        hex_run_end(s, from) == end,
    decreases end - from,
{
    if from < end {
        lemma_hex_run_ends(s, from + 1, end);
    }
}

/// Trimming removes exactly the white space around a text that neither
/// starts nor ends with white space.
pub proof fn lemma_trimmed_of_padded(left: Seq<char>, core: Seq<char>, right: Seq<char>)
    requires
        forall|i: int| 0 <= i < left.len() ==> is_whitespace(#[trigger] left[i]),
        forall|i: int| 0 <= i < right.len() ==> is_whitespace(#[trigger] right[i]),
        core.len() > 0,
        !is_whitespace(core[0]),
        !is_whitespace(core[core.len() - 1]),
    ensures
        trimmed(left + core + right) == core,
{
    let s = left + core + right;
    let lo = left.len() as int;
    let hi = lo + core.len();
    assert forall|j: int| 0 <= j < lo implies is_whitespace(#[trigger] s[j]) by {
        assert(s[j] == left[j]);
    }
    assert forall|j: int| hi <= j < s.len() implies is_whitespace(#[trigger] s[j]) by {
        assert(s[j] == right[j - hi]);
    }
    assert(s[lo] == core[0]);
    assert(s[hi - 1] == core[core.len() - 1]);
    lemma_trim_start(s, 0, lo);
    lemma_trim_end(s, lo, hi, s.len() as int);
    assert(s.subrange(lo, hi) =~= core);
}

/// White space from `from` up to `lo`, and none at `lo`: the text starts at
/// `lo`.
proof fn lemma_trim_start(s: Seq<char>, from: int, lo: int)
    requires
        0 <= from <= lo <= s.len(),
        forall|j: int| from <= j < lo ==> is_whitespace(#[trigger] s[j]),
        lo == s.len() || !is_whitespace(s[lo]),
    ensures
        trim_start_index(s, from) == lo,
    decreases lo - from,
{
    if from < lo {
        lemma_trim_start(s, from + 1, lo);
    }
}

/// White space from `hi` up to `to`, and none before `hi`: the text ends at
/// `hi`.
proof fn lemma_trim_end(s: Seq<char>, from: int, hi: int, to: int)
    requires
        0 <= from <= hi <= to <= s.len(),
        forall|j: int| hi <= j < to ==> is_whitespace(#[trigger] s[j]),
        hi == from || !is_whitespace(s[hi - 1]),
    ensures
        trim_end_index(s, from, to) == hi,
    decreases to - hi,
{
    if hi < to {
        lemma_trim_end(s, from, hi, to - 1);
    }
}

/// Whatever follows the command prefix is the code: any text at all, the
/// empty text included.
pub proof fn lemma_prefixed_input(rest: Seq<char>)
    ensures
        extracted(command_prefix() + rest) == Some(rest),
{
    let s = command_prefix() + rest;
    let n = command_prefix().len() as int;
    assert(s.subrange(0, n) =~= command_prefix());
    assert(s.subrange(n, s.len() as int) =~= rest);
}

/// The code of a link is the run of hex digits after the marker, whatever
/// stands before the link and after the code: for an input that is no echo of
/// the command and holds no earlier link.
pub proof fn lemma_link_input(before: Seq<char>, code: Seq<char>, after: Seq<char>)
    requires
        code.len() > 0,
        forall|i: int| 0 <= i < code.len() ==> is_hex_digit(#[trigger] code[i]),
        after.len() == 0 || !is_hex_digit(after[0]),
        !occurs_at(before + link_marker() + code + after, command_prefix(), 0),
        forall|j: int|
            0 <= j < before.len() ==> !link_at(before + link_marker() + code + after, j),
    ensures
        extracted(before + link_marker() + code + after) == Some(code),
{
    let s = before + link_marker() + code + after;
    let at = before.len() as int;
    let start = at + link_marker().len();
    let end = start + code.len();
    assert(s.subrange(at, start) =~= link_marker());
    assert(s[start] == code[0]);
    assert(link_at(s, at));
    lemma_first_link_is_least(s, 0);
    assert(first_link(s, 0) == at);
    assert forall|j: int| start <= j < end implies is_hex_digit(#[trigger] s[j]) by {
        assert(s[j] == code[j - start]);
    }
    if end < s.len() {
        assert(s[end] == after[0]);
    }
    lemma_hex_run_ends(s, start, end);
    assert(s.subrange(start, end) =~= code);
}

/// White space around a bare code changes nothing: the padded input and the
/// code alone both give the code.
pub proof fn lemma_padding_ignored(left: Seq<char>, token: Seq<char>, right: Seq<char>)
    requires
        forall|i: int| 0 <= i < left.len() ==> is_whitespace(#[trigger] left[i]),
        forall|i: int| 0 <= i < right.len() ==> is_whitespace(#[trigger] right[i]),
        is_bare_code(token),
    ensures
        extracted(left + token + right) == Some(token),
        extracted(token) == Some(token),
{
    lemma_blank_or_hex_input(left, token, right);
    let none = Seq::<char>::empty();
    assert(none + token + none =~= token);
    lemma_blank_or_hex_input(none, token, none);
}

/// An input of white space and hex digits only is no echo of the command
/// and holds no link, so a bare code in it is found.
proof fn lemma_blank_or_hex_input(left: Seq<char>, token: Seq<char>, right: Seq<char>)
    requires
        forall|i: int| 0 <= i < left.len() ==> is_whitespace(#[trigger] left[i]),
        forall|i: int| 0 <= i < right.len() ==> is_whitespace(#[trigger] right[i]),
        is_bare_code(token),
    ensures
        extracted(left + token + right) == Some(token),
{
    let s = left + token + right;
    let lo = left.len() as int;
    let hi = lo + token.len();
    assert forall|j: int| 0 <= j < s.len() implies is_whitespace(#[trigger] s[j]) || is_hex_digit(
        s[j],
    ) by {
        if j < lo {
            assert(s[j] == left[j]);
        } else if j < hi {
            assert(s[j] == token[j - lo]);
        } else {
            assert(s[j] == right[j - hi]);
        }
    }
    reveal_strlit("!bsr ");
    reveal_strlit("beatsaver.com/maps/");
    if occurs_at(s, command_prefix(), 0) {
        assert(s.subrange(0, command_prefix().len() as int)[0] == s[0]);
        assert(command_prefix()[0] == '!');
        assert(false);
    }
    lemma_first_link_is_least(s, 0);
    let at = first_link(s, 0);
    if at < s.len() {
        assert(link_at(s, at));
        assert(s.subrange(at, at + link_marker().len())[3] == s[at + 3]);
        assert(link_marker()[3] == 's');
        assert(false);
    }
    assert(is_hex_digit(token[0]));
    assert(is_hex_digit(token[token.len() - 1]));
    lemma_trimmed_of_padded(left, token, right);
}

/// Whether `c` is a hexadecimal digit.
pub fn hex_digit(c: char) -> (hex: bool)
    ensures
        hex == is_hex_digit(c),
{
    ('0' <= c && c <= '9') || ('a' <= c && c <= 'f') || ('A' <= c && c <= 'F')
}

/// Whether `c` is white space.
pub fn whitespace(c: char) -> (blank: bool)
    ensures
        blank == is_whitespace(c),
{
    ('\u{9}' <= c && c <= '\u{d}') || c == ' ' || c == '\u{85}' || c == '\u{a0}' || c
        == '\u{1680}' || ('\u{2000}' <= c && c <= '\u{200a}') || c == '\u{2028}' || c
        == '\u{2029}' || c == '\u{202f}' || c == '\u{205f}' || c == '\u{3000}'
}

/// Whether `pattern` stands in `s` at index `i`.
fn stands_at(s: &Vec<char>, pattern: &Vec<char>, i: usize) -> (found: bool)
    requires
        i <= s.len(),
    ensures
        found == occurs_at(s@, pattern@, i as int),
{
    if pattern.len() > s.len() - i {
        return false;
    }
    let mut j: usize = 0;
    while j < pattern.len()
        invariant
            j <= pattern.len(),
            i + pattern.len() <= s.len(),
            forall|k: int| 0 <= k < j ==> s@[i + k] == pattern@[k],
        decreases pattern.len() - j,
    {
        if s[i + j] != pattern[j] {
            assert(s@.subrange(i as int, i + pattern.len())[j as int] != pattern@[j as int]);
            return false;
        }
        j += 1;
    }
    assert(s@.subrange(i as int, i + pattern.len()) =~= pattern@);
    true
}

/// Where the code of the first link in `s` stands, if `s` holds a link.
fn link_code(s: &Vec<char>) -> (span: Option<(usize, usize)>)
    ensures
        match span {
            Some((start, end)) => {
                &&& first_link(s@, 0) < s@.len()
                &&& start == first_link(s@, 0) + link_marker().len()
                &&& end == hex_run_end(s@, start as int)
                &&& start <= end <= s@.len()
            },
            None => first_link(s@, 0) == s@.len(),
        },
{
    let n: usize = s.len();
    let marker: Vec<char> = to_chars("beatsaver.com/maps/");
    let mut i: usize = 0;
    while i < n
        invariant
            i <= n,
            n == s@.len(),
            marker@ == link_marker(),
            first_link(s@, 0) == first_link(s@, i as int),
        decreases n - i,
    {
        if stands_at(s, &marker, i) && marker.len() < n - i && hex_digit(s[i + marker.len()]) {
            let start: usize = i + marker.len();
            let mut end: usize = start;
            while end < n && hex_digit(s[end])
                invariant
                    start <= end <= n,
                    n == s@.len(),
                    hex_run_end(s@, start as int) == hex_run_end(s@, end as int),
                decreases n - end,
            {
                end += 1;
            }
            return Some((start, end));
        }
        i += 1;
    }
    None
}

/// Where `s` without the white space around it stands in `s`.
fn trim_bounds(s: &Vec<char>) -> (span: (usize, usize))
    ensures
        span.0 == trim_start_index(s@, 0),
        span.1 == trim_end_index(s@, span.0 as int, s@.len() as int),
        span.0 <= span.1 <= s@.len(),
{
    let n: usize = s.len();
    let mut from: usize = 0;
    while from < n && whitespace(s[from])
        invariant
            from <= n,
            n == s@.len(),
            trim_start_index(s@, 0) == trim_start_index(s@, from as int),
        decreases n - from,
    {
        from += 1;
    }
    let mut to: usize = n;
    while to > from && whitespace(s[to - 1])
        invariant
            from <= to <= n,
            n == s@.len(),
            trim_end_index(s@, from as int, n as int) == trim_end_index(s@, from as int, to as int),
        decreases to,
    {
        to -= 1;
    }
    (from, to)
}

/// Whether `s[from..to]` holds hex digits only.
fn all_hex(s: &Vec<char>, from: usize, to: usize) -> (hex: bool)
    requires
        from <= to <= s.len(),
    ensures
        hex == forall|j: int| from <= j < to ==> is_hex_digit(#[trigger] s@[j]),
{
    let mut k: usize = from;
    while k < to
        invariant
            from <= k <= to <= s.len(),
            forall|j: int| from <= j < k ==> is_hex_digit(#[trigger] s@[j]),
        decreases to - k,
    {
        if !hex_digit(s[k]) {
            return false;
        }
        k += 1;
    }
    true
}

/// The code that `input` carries: what follows `!bsr `, else the hex digits
/// after the first `beatsaver.com/maps/` that hex digits follow, else the
/// input without the white space around it where that is one to five hex
/// digits. `None` where the input is none of these, and so a search query.
pub fn find_bsr(input: &str) -> (code: Option<String>)
    ensures
        match code {
            Some(text) => extracted(input@) == Some(text@),
            None => extracted(input@) is None,
        },
{
    let chars: Vec<char> = to_chars(input);
    let prefix: Vec<char> = to_chars("!bsr ");
    if stands_at(&chars, &prefix, 0) {
        return Some(String::from_str(input.substring_char(prefix.len(), chars.len())));
    }
    if let Some((start, end)) = link_code(&chars) {
        return Some(String::from_str(input.substring_char(start, end)));
    }
    let (from, to) = trim_bounds(&chars);
    let ghost core = trimmed(chars@);
    assert(core == chars@.subrange(from as int, to as int));
    if to - from < 1 || to - from > MAX_CODE_LEN {
        return None;
    }
    let hex: bool = all_hex(&chars, from, to);
    assert(hex == is_bare_code(core)) by {
        if hex {
            assert forall|j: int| 0 <= j < core.len() implies is_hex_digit(#[trigger] core[j]) by {
                assert(core[j] == chars@[from + j]);
            }
        } else {
            let j = choose|j: int| from <= j < to && !is_hex_digit(#[trigger] chars@[j]);
            assert(core[j - from] == chars@[j]);
        }
    }
    if hex {
        Some(String::from_str(input.substring_char(from, to)))
    } else {
        None
    }
}

} // verus!
