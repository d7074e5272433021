//! Word-level helpers of the SQL editor's completion popup. Positions count
//! characters.

use vstd::prelude::*;
use crate::text::{chars_of, push_all, push_range, string_of_range};

verus! {

/// The characters `char::is_whitespace` accepts (Unicode `White_Space`).
pub open spec fn is_white(c: char) -> bool {
    c == ' ' || ('\t' <= c && c <= '\r') || c == '\u{85}' || c == '\u{A0}' || c == '\u{1680}' || (
    '\u{2000}' <= c && c <= '\u{200A}') || c == '\u{2028}' || c == '\u{2029}' || c == '\u{202F}'
        || c == '\u{205F}' || c == '\u{3000}'
}

fn white(c: char) -> (r: bool)
    ensures
        r == is_white(c),
{
    c == ' ' || ('\t' <= c && c <= '\r') || c == '\u{85}' || c == '\u{A0}' || c == '\u{1680}' || (
    '\u{2000}' <= c && c <= '\u{200A}') || c == '\u{2028}' || c == '\u{2029}' || c == '\u{202F}'
        || c == '\u{205F}' || c == '\u{3000}'
}

/// Where `t[..e]` ends once trailing whitespace is dropped.
pub open spec fn trimmed_end(t: Seq<char>, e: int) -> int
    decreases e,
{
    if e <= 0 {
        0
    } else if is_white(t[e - 1]) {
        trimmed_end(t, e - 1)
    } else {
        e
    }
}

/// Where the word that ends at `e` starts: just after the last whitespace
/// before `e`, or at 0.
pub open spec fn word_start(t: Seq<char>, e: int) -> int
    decreases e,
{
    if e <= 0 {
        0
    } else if is_white(t[e - 1]) {
        e
    } else {
        word_start(t, e - 1)
    }
}

/// Where the word that goes on at `i` ends: at the first whitespace from `i`
/// on, or at the end.
pub open spec fn word_end(t: Seq<char>, i: int) -> int
    decreases t.len() - i,
{
    if i >= t.len() {
        t.len() as int
    } else if is_white(t[i]) {
        i
    } else {
        word_end(t, i + 1)
    }
}

/// The word being typed before the cursor: none right after a space, else the
/// last whitespace-separated word before the cursor, if there is one.
pub open spec fn current_word_spec(t: Seq<char>, cursor: int) -> Option<Seq<char>> {
    if cursor > 0 && t[cursor - 1] == ' ' {
        None
    } else {
        let e = trimmed_end(t, cursor);
        if e == 0 {
            None
        } else {
            Some(t.subrange(word_start(t, e), e))
        }
    }
}

proof fn lemma_trimmed_end(t: Seq<char>, e: int)
    requires
        0 <= e,
    ensures
        0 <= trimmed_end(t, e) <= e,
    decreases e,
{
    if e > 0 && is_white(t[e - 1]) {
        lemma_trimmed_end(t, e - 1);
    }
}

proof fn lemma_word_start(t: Seq<char>, e: int)
    requires
        0 <= e,
    ensures
        0 <= word_start(t, e) <= e,
    decreases e,
{
    if e > 0 && !is_white(t[e - 1]) {
        lemma_word_start(t, e - 1);
    }
}

proof fn lemma_word_end(t: Seq<char>, i: int)
    requires
        0 <= i <= t.len(),
    ensures
        i <= word_end(t, i) <= t.len(),
    decreases t.len() - i,
{
    if i < t.len() && !is_white(t[i]) {
        lemma_word_end(t, i + 1);
    }
}

fn find_word_start(t: &Vec<char>, e: usize) -> (r: usize)
    requires
        e <= t@.len(),
    ensures
        r == word_start(t@, e as int),
{
    let mut k = e;
    while k > 0 && !white(t[k - 1])
        invariant
            k <= e <= t@.len(),
            word_start(t@, e as int) == word_start(t@, k as int),
        decreases k,
    {
        k = k - 1;
    }
    k
}

/// The word being typed before `cursor`.
pub fn get_current_word(text: &str, cursor: usize) -> (r: Option<String>)
    requires
        cursor <= text@.len(),
    ensures
        match current_word_spec(text@, cursor as int) {
            Some(w) => r matches Some(x) && x@ == w,
            None => r is None,
        },
{
    let t = chars_of(text);
    if cursor > 0 && t[cursor - 1] == ' ' {
        return None;
    }
    let mut e = cursor;
    while e > 0 && white(t[e - 1])
        invariant
            e <= cursor <= t@.len(),
            trimmed_end(t@, cursor as int) == trimmed_end(t@, e as int),
        decreases e,
    {
        e = e - 1;
    }
    if e == 0 {
        return None;
    }
    let s = find_word_start(&t, e);
    proof {
        lemma_word_start(t@, e as int);
    }
    Some(string_of_range(&t, s, e))
}

/// Replaces the word under the cursor, from the whitespace before it to the
/// whitespace after it, by `word`.
pub fn replace_current_word(text: &str, cursor: usize, word: &str) -> (r: String)
    requires
        cursor <= text@.len(),
    ensures
        r@ == text@.subrange(0, word_start(text@, cursor as int)) + word@ + text@.subrange(
            word_end(text@, cursor as int),
            text@.len() as int,
        ),
{
    let t = chars_of(text);
    let start = find_word_start(&t, cursor);
    proof {
        lemma_word_start(t@, cursor as int);
        lemma_word_end(t@, cursor as int);
    }
    let mut end = cursor;
    while end < t.len() && !white(t[end])
        invariant
            cursor <= end <= t@.len(),
            word_end(t@, cursor as int) == word_end(t@, end as int),
        decreases t@.len() - end,
    {
        end = end + 1;
    }
    let mut out = string_of_range(&t, 0, start);
    let w = chars_of(word);
    push_all(&mut out, &w);
    push_range(&mut out, &t, end, t.len());
    out
}

/// The column and line of the cursor, both counted from 0.
pub open spec fn coordinates_spec(t: Seq<char>) -> (int, int)
    decreases t.len(),
{
    if t.len() == 0 {
        (0, 0)
    } else {
        let p = coordinates_spec(t.drop_last());
        if t.last() == '\n' {
            (0, p.1 + 1)
        } else {
            (p.0 + 1, p.1)
        }
    }
}

proof fn lemma_coordinates_bound(t: Seq<char>)
    ensures
        0 <= coordinates_spec(t).0 <= t.len(),
        0 <= coordinates_spec(t).1 <= t.len(),
    decreases t.len(),
{
    if t.len() > 0 {
        lemma_coordinates_bound(t.drop_last());
    }
}

/// Where the cursor stands on screen: the column and the line of the
/// character at `cursor`, counting the characters before it.
pub fn get_coordinates(text: &str, cursor: usize) -> (r: (usize, usize))
    ensures
        r.0 as int == coordinates_spec(text@.subrange(0, if cursor < text@.len() { cursor as int } else { text@.len() as int })).0,
        r.1 as int == coordinates_spec(text@.subrange(0, if cursor < text@.len() { cursor as int } else { text@.len() as int })).1,
{
    let t = chars_of(text);
    let n = if cursor < t.len() { cursor } else { t.len() };
    let mut x: usize = 0;
    let mut y: usize = 0;
    let mut i: usize = 0;
    while i < n
        invariant
            n <= t@.len(),
            i <= n,
            x as int == coordinates_spec(t@.subrange(0, i as int)).0,
            y as int == coordinates_spec(t@.subrange(0, i as int)).1,
        decreases n - i,
    {
        proof {
            let u = t@.subrange(0, i + 1);
            assert(u.drop_last() == t@.subrange(0, i as int));
            lemma_coordinates_bound(t@.subrange(0, i as int));
        }
        if t[i] == '\n' {
            y = y + 1;
            x = 0;
        } else {
            x = x + 1;
        }
        i = i + 1;
    }
    (x, y)
}

} // verus!
