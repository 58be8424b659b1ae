//! Searching in text: substrings, lines and whitespace-separated tokens,
//! stated over sequences of characters.

use vstd::prelude::*;
use vstd::string::*;

verus! {

/// `pattern` occurs in `text` starting at index `at`.
pub open spec fn occurs_at(text: Seq<char>, at: int, pattern: Seq<char>) -> bool {
    &&& 0 <= at
    &&& at + pattern.len() <= text.len()
    &&& text.subrange(at, at + pattern.len()) == pattern
}

/// `pattern` occurs somewhere in `text`.
pub open spec fn contains(text: Seq<char>, pattern: Seq<char>) -> bool {
    exists|at: int| occurs_at(text, at, pattern)
}

/// `at` satisfies `p` and no smaller natural number does.
pub open spec fn is_least(p: spec_fn(int) -> bool, at: int) -> bool {
    &&& 0 <= at
    &&& p(at)
    &&& forall|j: int| 0 <= j < at ==> !#[trigger] p(j)
}

/// The least natural number that satisfies `p`, if any does.
pub open spec fn least(p: spec_fn(int) -> bool) -> Option<int> {
    if exists|at: int| is_least(p, at) {
        Some(choose|at: int| is_least(p, at))
    } else {
        None
    }
}

/// A number that is least with `p` is the least one.
pub proof fn lemma_least_is(p: spec_fn(int) -> bool, at: int)
    requires
        is_least(p, at),
    ensures
        least(p) == Some(at),
{
    let c = choose|c: int| is_least(p, c);
    if c < at {
        assert(!p(c));
    } else if at < c {
        assert(!p(at));
    }
}

/// The least number with `p`, where there is one, satisfies `p`.
pub proof fn lemma_least_holds(p: spec_fn(int) -> bool)
    requires
        least(p) is Some,
    ensures
        is_least(p, least(p)->0),
{
}

/// Where no natural number satisfies `p`, there is no least one.
pub proof fn lemma_least_none(p: spec_fn(int) -> bool)
    requires
        forall|j: int| 0 <= j ==> !#[trigger] p(j),
    ensures
        least(p) is None,
{
    if exists|at: int| is_least(p, at) {
        let c = choose|c: int| is_least(p, c);
        assert(!p(c));
    }
}

/// The characters of a string slice, in order.
pub fn chars_of(s: &str) -> (out: Vec<char>)
    ensures
        out@ == s@,
{
    let mut out: Vec<char> = Vec::new();
    for c in it: s.chars()
        invariant
            it.seq() == s@,
            out@ == it.seq().take(it.index() as int),
    {
        out.push(c);
    }
    out
}

/// Whether two string slices hold the same characters.
pub fn str_eq(a: &str, b: &str) -> (same: bool)
    ensures
        same == (a@ == b@),
{
    a.to_owned() == b.to_owned()
}

/// Whether `pattern` occurs in `text` at index `at`.
pub fn matches_at(text: &[char], at: usize, pattern: &[char]) -> (found: bool)
    ensures
        found == occurs_at(text@, at as int, pattern@),
{
    if at > text.len() || pattern.len() > text.len() - at {
        return false;
    }
    let mut k: usize = 0;
    while k < pattern.len()
        invariant
            at + pattern.len() <= text.len(),
            k <= pattern.len(),
            forall|j: int| 0 <= j < k ==> text@[at + j] == pattern@[j],
        decreases pattern.len() - k,
    {
        if text[at + k] != pattern[k] {
            proof {
                let sub = text@.subrange(at as int, at + pattern.len());
                assert(sub[k as int] == text@[at + k]);
            }
            return false;
        }
        k += 1;
    }
    assert(text@.subrange(at as int, at + pattern.len()) =~= pattern@);
    true
}

/// The first index at which `pattern` occurs in `text`.
pub fn find(text: &[char], pattern: &[char]) -> (at: Option<usize>)
    ensures
        at == match least(|i: int| occurs_at(text@, i, pattern@)) {
            Some(i) => Some(i as usize),
            None => None,
        },
        at is Some == contains(text@, pattern@),
{
    let ghost p = |i: int| occurs_at(text@, i, pattern@);
    let mut i: usize = 0;
    while i < text.len()
        invariant
            i <= text.len(),
            p == (|i: int| occurs_at(text@, i, pattern@)),
            forall|j: int| 0 <= j < i ==> !#[trigger] p(j),
        decreases text.len() - i,
    {
        if matches_at(text, i, pattern) {
            proof {
                assert(p(i as int));
                lemma_least_is(p, i as int);
            }
            return Some(i);
        }
        i += 1;
    }
    if matches_at(text, i, pattern) {
        proof {
            assert(p(i as int));
            lemma_least_is(p, i as int);
        }
        return Some(i);
    }
    proof {
        assert forall|j: int| 0 <= j implies !#[trigger] p(j) by {
            if j >= i {
                assert(!occurs_at(text@, j, pattern@));
            }
        }
        lemma_least_none(p);
        assert forall|j: int| !occurs_at(text@, j, pattern@) by {
            if 0 <= j {
                assert(!p(j));
            }
        }
    }
    None
}

/// Whether `pattern` occurs somewhere in `text`.
pub fn str_contains(text: &str, pattern: &str) -> (found: bool)
    ensures
        found == contains(text@, pattern@),
{
    let text_chars = chars_of(text);
    let pattern_chars = chars_of(pattern);
    find(text_chars.as_slice(), pattern_chars.as_slice()).is_some()
}

/// The characters that separate tokens: the ASCII whitespace.
pub open spec fn is_whitespace(c: char) -> bool {
    c == ' ' || c == '\t' || c == '\n' || c == '\x0C' || c == '\r'
}

/// A line starts at `at`: at the start of the text, or after a line feed.
pub open spec fn is_line_start(text: Seq<char>, at: int) -> bool {
    &&& 0 <= at <= text.len()
    &&& at == 0 || text[at - 1] == '\n'
}

/// A token starts at `at`: a character that is no whitespace, at the start
/// of the text or after whitespace.
pub open spec fn is_token_start(text: Seq<char>, at: int) -> bool {
    &&& 0 <= at < text.len()
    &&& !is_whitespace(text[at])
    &&& at == 0 || is_whitespace(text[at - 1])
}

/// The first index from `from` on that holds a character of `stop`, or the
/// end of the text.
pub open spec fn first_stop(text: Seq<char>, from: int, stop: spec_fn(char) -> bool) -> int {
    match least(|e: int| from <= e && (e >= text.len() || stop(text[e]))) {
        Some(e) => e,
        None => text.len() as int,
    }
}

/// The first line that begins with `marker`, without its line feed. A
/// carriage return before the line feed stays with the line.
pub open spec fn marked_line(text: Seq<char>, marker: Seq<char>) -> Option<Seq<char>> {
    match least(|at: int| is_line_start(text, at) && occurs_at(text, at, marker)) {
        Some(at) => Some(text.subrange(at, first_stop(text, at, |c: char| c == '\n'))),
        None => None,
    }
}

/// The first token that begins with `marker`.
pub open spec fn marked_token(text: Seq<char>, marker: Seq<char>) -> Option<Seq<char>> {
    match least(|at: int| is_token_start(text, at) && occurs_at(text, at, marker)) {
        Some(at) => Some(text.subrange(at, first_stop(text, at, |c: char| is_whitespace(c)))),
        None => None,
    }
}

/// Whether a character is ASCII whitespace.
pub fn whitespace(c: char) -> (ws: bool)
    ensures
        ws == is_whitespace(c),
{
    c == ' ' || c == '\t' || c == '\n' || c == '\x0C' || c == '\r'
}

/// A copy of the characters from `from` up to `to`; of none where that is
/// no range of the text.
pub fn copy_range(text: &[char], from: usize, to: usize) -> (part: Vec<char>)
    ensures
        part@ == if from <= to <= text.len() {
            text@.subrange(from as int, to as int)
        } else {
            Seq::<char>::empty()
        },
{
    let mut part: Vec<char> = Vec::new();
    if from > to || to > text.len() {
        return part;
    }
    let mut i: usize = from;
    while i < to
        invariant
            from <= i <= to <= text.len(),
            part@ == text@.subrange(from as int, i as int),
        decreases to - i,
    {
        part.push(text[i]);
        assert(part@ =~= text@.subrange(from as int, i + 1));
        i += 1;
    }
    part
}

/// Where the line that holds index `from` ends.
pub fn line_end(text: &[char], from: usize) -> (end: usize)
    ensures
        end == first_stop(text@, from as int, |c: char| c == '\n'),
        from <= end,
        from <= text.len() ==> end <= text.len(),
        forall|j: int| from <= j < end ==> text@[j] != '\n',
        end < text.len() ==> text@[end as int] == '\n',
{
    let ghost p = |e: int| from <= e && (e >= text@.len() || (|c: char| c == '\n')(text@[e]));
    let mut e: usize = from;
    while e < text.len() && text[e] != '\n'
        invariant
            from <= e,
            from <= text.len() ==> e <= text.len(),
            from > text.len() ==> e == from,
            forall|j: int| from <= j < e ==> text@[j] != '\n',
        decreases text.len() - e,
    {
        e += 1;
    }
    proof {
        assert(p(e as int));
        assert forall|j: int| 0 <= j < e implies !#[trigger] p(j) by {}
        lemma_least_is(p, e as int);
    }
    e
}

/// Where the token that holds index `from` ends.
pub fn token_end(text: &[char], from: usize) -> (end: usize)
    ensures
        end == first_stop(text@, from as int, |c: char| is_whitespace(c)),
        from <= end,
        from <= text.len() ==> end <= text.len(),
        forall|j: int| from <= j < end ==> !is_whitespace(text@[j]),
        end < text.len() ==> is_whitespace(text@[end as int]),
{
    let ghost p = |e: int|
        from <= e && (e >= text@.len() || (|c: char| is_whitespace(c))(text@[e]));
    let mut e: usize = from;
    while e < text.len() && !whitespace(text[e])
        invariant
            from <= e,
            from <= text.len() ==> e <= text.len(),
            from > text.len() ==> e == from,
            forall|j: int| from <= j < e ==> !is_whitespace(text@[j]),
        decreases text.len() - e,
    {
        e += 1;
    }
    proof {
        assert(p(e as int));
        assert forall|j: int| 0 <= j < e implies !#[trigger] p(j) by {}
        lemma_least_is(p, e as int);
    }
    e
}

/// The first line that begins with `marker`, without its line feed.
pub fn find_marked_line(text: &[char], marker: &[char]) -> (line: Option<Vec<char>>)
    ensures
        match marked_line(text@, marker@) {
            Some(found) => line is Some && line->0@ == found,
            None => line is None,
        },
{
    let ghost p = |at: int| is_line_start(text@, at) && occurs_at(text@, at, marker@);
    let mut at: usize = 0;
    loop
        invariant
            at <= text.len(),
            is_line_start(text@, at as int),
            p == (|at: int| is_line_start(text@, at) && occurs_at(text@, at, marker@)),
            forall|j: int| 0 <= j < at ==> !#[trigger] p(j),
        decreases text.len() - at,
    {
        let end = line_end(text, at);
        if matches_at(text, at, marker) {
            let line = copy_range(text, at, end);
            proof {
                assert(p(at as int));
                lemma_least_is(p, at as int);
            }
            return Some(line);
        }
        if end >= text.len() {
            proof {
                assert forall|j: int| 0 <= j implies !#[trigger] p(j) by {
                    if at < j <= text.len() {
                        assert(text@[j - 1] != '\n');
                    }
                }
                lemma_least_none(p);
            }
            return None;
        }
        proof {
            assert forall|j: int| 0 <= j < end + 1 implies !#[trigger] p(j) by {
                if at < j {
                    assert(text@[j - 1] != '\n');
                }
            }
        }
        at = end + 1;
    }
}

/// The first token that begins with `marker`.
pub fn find_marked_token(text: &[char], marker: &[char]) -> (token: Option<Vec<char>>)
    ensures
        match marked_token(text@, marker@) {
            Some(found) => token is Some && token->0@ == found,
            None => token is None,
        },
{
    let ghost p = |at: int| is_token_start(text@, at) && occurs_at(text@, at, marker@);
    let mut at: usize = 0;
    while at < text.len()
        invariant
            at <= text.len(),
            p == (|at: int| is_token_start(text@, at) && occurs_at(text@, at, marker@)),
            forall|j: int| 0 <= j < at ==> !#[trigger] p(j),
        decreases text.len() - at,
    {
        if !whitespace(text[at]) && (at == 0 || whitespace(text[at - 1])) && matches_at(
            text,
            at,
            marker,
        ) {
            let end = token_end(text, at);
            let token = copy_range(text, at, end);
            proof {
                assert(p(at as int));
                lemma_least_is(p, at as int);
            }
            return Some(token);
        }
        at += 1;
    }
    proof {
        assert forall|j: int| 0 <= j implies !#[trigger] p(j) by {}
        lemma_least_none(p);
    }
    None
}

} // verus!
