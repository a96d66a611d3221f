//! Text: numbers written out, words found in a line, one line found in another.

use vstd::prelude::*;
use vstd::string::{StrSliceExecFns, StringExecFns};

verus! {

/// The decimal digit `d` as a one-character sequence.
pub open spec fn digit_text(d: int) -> Seq<char> {
    if d == 0 {
        "0"@
    } else if d == 1 {
        "1"@
    } else if d == 2 {
        "2"@
    } else if d == 3 {
        "3"@
    } else if d == 4 {
        "4"@
    } else if d == 5 {
        "5"@
    } else if d == 6 {
        "6"@
    } else if d == 7 {
        "7"@
    } else if d == 8 {
        "8"@
    } else {
        "9"@
    }
}

/// The decimal notation of `n`, without leading zeros.
pub open spec fn decimal_text(n: nat) -> Seq<char>
    decreases n,
{
    if n < 10 {
        digit_text(n as int)
    } else {
        decimal_text(n / 10) + digit_text((n % 10) as int)
    }
}

fn digit_str(d: u8) -> (s: &'static str)
    requires
        d < 10,
    ensures
        s@ == digit_text(d as int),
{
    if d == 0 {
        "0"
    } else if d == 1 {
        "1"
    } else if d == 2 {
        "2"
    } else if d == 3 {
        "3"
    } else if d == 4 {
        "4"
    } else if d == 5 {
        "5"
    } else if d == 6 {
        "6"
    } else if d == 7 {
        "7"
    } else if d == 8 {
        "8"
    } else {
        "9"
    }
}

/// Writes `n` in decimal notation.
pub fn decimal(n: u8) -> (s: String)
    ensures
        s@ == decimal_text(n as nat),
{
    proof {
        reveal_with_fuel(decimal_text, 3);
    }
    if n < 10 {
        String::from_str(digit_str(n))
    } else if n < 100 {
        String::from_str(digit_str(n / 10)).concat(digit_str(n % 10))
    } else {
        let hundreds: u8 = n / 100;
        let tens: u8 = (n / 10) % 10;
        String::from_str(digit_str(hundreds)).concat(digit_str(tens)).concat(digit_str(n % 10))
    }
}

/// Whether std counts `c` as whitespace: what `char::is_whitespace` returns for it.
pub uninterp spec fn whitespace(c: char) -> bool;

/// The lowercase form that std gives `s`: what `str::to_lowercase` returns for it.
pub uninterp spec fn lowercase(s: Seq<char>) -> Seq<char>;

/// Asks std whether `c` is whitespace, by `char::is_whitespace`.
///
/// Taken on trust: that the answer depends on `c` alone. It is what [`whitespace`]
/// names; which characters those are is left to std.
#[verifier::external_body]
fn is_space(c: char) -> (b: bool)
    ensures
        b == whitespace(c),
{
    c.is_whitespace()
}

/// Has std put `s` in lowercase, by `str::to_lowercase`.
///
/// Taken on trust: that the result depends on the characters of `s` alone. It is
/// what [`lowercase`] names; how each character is mapped is left to std.
#[verifier::external_body]
fn lowercased(s: &str) -> (lower: String)
    ensures
        lower@ == lowercase(s@),
{
    s.to_lowercase()
}

/// The first place at or after `from` where `text` has no whitespace, or its end.
pub open spec fn skip_spaces(text: Seq<char>, from: int) -> int
    decreases text.len() - from,
{
    if 0 <= from < text.len() && whitespace(text[from]) {
        skip_spaces(text, from + 1)
    } else {
        from
    }
}

/// The first place at or after `from` where `text` has whitespace, or its end.
pub open spec fn skip_word(text: Seq<char>, from: int) -> int
    decreases text.len() - from,
{
    if 0 <= from < text.len() && !whitespace(text[from]) {
        skip_word(text, from + 1)
    } else {
        from
    }
}

/// Where the first word of `text` begins.
pub open spec fn word_start(text: Seq<char>) -> int {
    skip_spaces(text, 0)
}

/// Where the first word of `text` ends.
pub open spec fn word_end(text: Seq<char>) -> int {
    skip_word(text, word_start(text))
}

/// The first word of `text`: its first run of characters that are no whitespace.
/// It is empty where `text` has no such character.
pub open spec fn first_word(text: Seq<char>) -> Seq<char> {
    text.subrange(word_start(text), word_end(text))
}

/// Whether `pattern` stands in `text` at place `at`.
pub open spec fn occurs_at(text: Seq<char>, pattern: Seq<char>, at: int) -> bool {
    0 <= at && at + pattern.len() <= text.len() && text.subrange(at, at + pattern.len())
        == pattern
}

/// Whether `pattern` stands somewhere in `text`.
pub open spec fn occurs_in(text: Seq<char>, pattern: Seq<char>) -> bool {
    exists|at: int| occurs_at(text, pattern, at)
}

/// The characters of `s`, one by one.
pub fn chars_of(s: &str) -> (v: Vec<char>)
    ensures
        v@ == s@,
{
    let mut v: Vec<char> = Vec::new();
    for c in it: s.chars()
        invariant
            v@ == it.seq().take(it.index() as int),
            it.seq() == s@,
    {
        v.push(c);
    }
    v
}

/// Finds the first word of `text`: where it begins and where it ends.
pub fn first_word_bounds(text: &Vec<char>) -> (bounds: (usize, usize))
    ensures
        bounds.0 == word_start(text@),
        bounds.1 == word_end(text@),
        bounds.0 <= bounds.1 <= text.len(),
{
    let mut start: usize = 0;
    while start < text.len() && is_space(text[start])
        invariant
            start <= text.len(),
            skip_spaces(text@, 0) == skip_spaces(text@, start as int),
        decreases text.len() - start,
    {
        start += 1;
    }
    let mut end: usize = start;
    while end < text.len() && !is_space(text[end])
        invariant
            start <= end <= text.len(),
            skip_word(text@, start as int) == skip_word(text@, end as int),
        decreases text.len() - end,
    {
        end += 1;
    }
    (start, end)
}

/// The first word of `s` in lowercase, where that word begins with `mark`.
pub fn marked_word(s: &str, mark: char) -> (word: Option<String>)
    ensures
        word is Some <==> first_word(s@).len() > 0 && first_word(s@)[0] == mark,
        word matches Some(w) ==> w@ == lowercase(first_word(s@)),
{
    let text = chars_of(s);
    let (start, end) = first_word_bounds(&text);
    if start < end && text[start] == mark {
        Some(lowercased(s.substring_char(start, end)))
    } else {
        None
    }
}

/// Whether `pattern` stands somewhere in `text`.
pub fn contains(text: &Vec<char>, pattern: &Vec<char>) -> (found: bool)
    ensures
        found == occurs_in(text@, pattern@),
{
    if pattern.len() > text.len() {
        return false;
    }
    let last: usize = text.len() - pattern.len();
    let mut at: usize = 0;
    while at <= last
        invariant
            last == text.len() - pattern.len(),
            at <= last + 1,
            forall|a: int| 0 <= a < at ==> !occurs_at(text@, pattern@, a),
        decreases last + 1 - at,
    {
        let mut k: usize = 0;
        while k < pattern.len() && text[at + k] == pattern[k]
            invariant
                last == text.len() - pattern.len(),
                at <= last,
                k <= pattern.len(),
                forall|j: int| 0 <= j < k ==> text@[at + j] == pattern@[j],
            decreases pattern.len() - k,
        {
            k += 1;
        }
        if k == pattern.len() {
            assert(text@.subrange(at as int, at + pattern.len()) =~= pattern@);
            assert(occurs_at(text@, pattern@, at as int));
            return true;
        }
        assert(!occurs_at(text@, pattern@, at as int)) by {
            if occurs_at(text@, pattern@, at as int) {
                assert(text@.subrange(at as int, at + pattern.len())[k as int] == text@[at + k]);
            }
        }
        at += 1;
    }
    false
}

} // verus!
