//! The template language embedded in SQL and JSON strings: `${name}`
//! placeholders, compiled into an ordered parameter list and a string with a
//! `?` positional marker in place of each placeholder.

use vstd::prelude::*;
use crate::text::{ascii_letter, ascii_alnum, chars_of, is_ascii_letter, is_ascii_alnum, string_of_range};

verus! {

/// A `${` that does not open a well-formed placeholder.
#[derive(Debug, PartialEq, Eq, Structural)]
pub enum TemplateError {
    /// The position, in characters, of the `$`.
    MalformedPlaceholder(usize),
}

pub open spec fn is_name_start(c: char) -> bool {
    is_ascii_letter(c) || c == '.'
}

pub open spec fn is_name_char(c: char) -> bool {
    is_ascii_alnum(c) || c == '_' || c == '.'
}

/// A `${` begins at `i`.
pub open spec fn opens_at(s: Seq<char>, i: int) -> bool {
    0 <= i && i + 1 < s.len() && s[i] == '$' && s[i + 1] == '{'
}

/// The number of name characters in a row from `j` on.
pub open spec fn name_len(s: Seq<char>, j: int) -> nat
    decreases s.len() - j,
{
    if 0 <= j < s.len() && is_name_char(s[j]) {
        1 + name_len(s, j + 1)
    } else {
        0
    }
}

/// `${` + a name + `}` begins at `i`: the name starts with a letter or a dot
/// and goes on with letters, digits, `_` and `.`.
pub open spec fn placeholder_at(s: Seq<char>, i: int) -> bool {
    let e = i + 2 + name_len(s, i + 2);
    &&& opens_at(s, i)
    &&& i + 2 < s.len()
    &&& is_name_start(s[i + 2])
    &&& e < s.len()
    &&& s[e] == '}'
}

/// The name of the placeholder at `i`.
pub open spec fn placeholder_name(s: Seq<char>, i: int) -> Seq<char> {
    s.subrange(i + 2, i + 2 + name_len(s, i + 2))
}

/// Where the text after the placeholder at `i` begins.
pub open spec fn placeholder_next(s: Seq<char>, i: int) -> int {
    i + 3 + name_len(s, i + 2)
}

/// Compiling `s` from position `i` on: the names of the placeholders, left to
/// right, and the text with `?` for each placeholder; or the position of the
/// first `${` that opens no well-formed placeholder.
pub open spec fn compile_from(s: Seq<char>, i: int) -> Result<(Seq<Seq<char>>, Seq<char>), int>
    decreases s.len() - i,
{
    if i < 0 || i >= s.len() {
        Ok((seq![], seq![]))
    } else if opens_at(s, i) {
        if placeholder_at(s, i) {
            match compile_from(s, placeholder_next(s, i)) {
                Ok(r) => Ok((seq![placeholder_name(s, i)] + r.0, seq!['?'] + r.1)),
                Err(p) => Err(p),
            }
        } else {
            Err(i)
        }
    } else {
        match compile_from(s, i + 1) {
            Ok(r) => Ok((r.0, seq![s[i]] + r.1)),
            Err(p) => Err(p),
        }
    }
}

pub open spec fn compile_spec(s: Seq<char>) -> Result<(Seq<Seq<char>>, Seq<char>), int> {
    compile_from(s, 0)
}

pub open spec fn views(v: Seq<String>) -> Seq<Seq<char>> {
    v.map_values(|x: String| x@)
}

/// `s` from `i` on with every placeholder whose name is in `vars` replaced by
/// `?`; everything else stays as it is.
pub open spec fn rewrite_from(s: Seq<char>, vars: Seq<Seq<char>>, i: int) -> Seq<char>
    decreases s.len() - i,
{
    if i < 0 || i >= s.len() {
        seq![]
    } else if placeholder_at(s, i) && vars.contains(placeholder_name(s, i)) {
        seq!['?'] + rewrite_from(s, vars, placeholder_next(s, i))
    } else {
        seq![s[i]] + rewrite_from(s, vars, i + 1)
    }
}

fn name_start(c: char) -> (r: bool)
    ensures
        r == is_name_start(c),
{
    ascii_letter(c) || c == '.'
}

fn name_char(c: char) -> (r: bool)
    ensures
        r == is_name_char(c),
{
    ascii_alnum(c) || c == '_' || c == '.'
}

/// The end of the run of name characters that starts at `j`.
fn scan_name(s: &Vec<char>, j: usize) -> (e: usize)
    requires
        j <= s@.len(),
    ensures
        e == j + name_len(s@, j as int),
        e <= s@.len(),
{
    let mut e = j;
    while e < s.len() && name_char(s[e])
        invariant
            j <= e <= s@.len(),
            name_len(s@, j as int) == (e - j) + name_len(s@, e as int),
        decreases s@.len() - e,
    {
        e = e + 1;
    }
    e
}

/// Whether a placeholder begins at `i`, and where its closing brace is.
pub fn check_placeholder(s: &Vec<char>, i: usize) -> (r: Option<usize>)
    requires
        i < s@.len(),
    ensures
        r is Some <==> placeholder_at(s@, i as int),
        r is Some ==> r->0 == i + 2 + name_len(s@, i + 2),
{
    if s.len() - i > 2 && s[i] == '$' && s[i + 1] == '{' && name_start(s[i + 2]) {
        let e = scan_name(s, i + 2);
        if e < s.len() && s[e] == '}' {
            Some(e)
        } else {
            None
        }
    } else {
        None
    }
}

/// Compiles a template: the names of its placeholders in left-to-right order,
/// repeated names included, and the template with `?` in place of each
/// placeholder. A `${` that opens no well-formed placeholder is an error.
pub fn compile(input: &str) -> (r: Result<(Vec<String>, String), TemplateError>)
    ensures
        match compile_spec(input@) {
            Ok(c) => r matches Ok(v) && views(v.0@) == c.0 && v.1@ == c.1,
            Err(p) => r == Err::<(Vec<String>, String), TemplateError>(
                TemplateError::MalformedPlaceholder(p as usize),
            ),
        },
{
    let s = chars_of(input);
    let n = s.len();
    let mut names: Vec<String> = Vec::new();
    let mut out = String::new();
    let mut i: usize = 0;
    while i < n
        invariant
            n == s@.len(),
            s@ == input@,
            i <= n,
            match compile_from(s@, i as int) {
                Ok(c) => compile_spec(s@) == Ok::<(Seq<Seq<char>>, Seq<char>), int>(
                    (views(names@) + c.0, out@ + c.1),
                ),
                Err(p) => compile_spec(s@) == Err::<(Seq<Seq<char>>, Seq<char>), int>(p),
            },
        decreases n - i,
    {
        if n - i > 1 && s[i] == '$' && s[i + 1] == '{' {
            match check_placeholder(&s, i) {
                Some(e) => {
                    let name = string_of_range(&s, i + 2, e);
                    proof {
                        let c = compile_from(s@, e + 1);
                        if let Ok(c) = c {
                            assert(views(names@.push(name)) == views(names@).push(name@));
                            assert(views(names@) + (seq![name@] + c.0) == views(names@).push(name@) + c.0);
                            assert(out@ + (seq!['?'] + c.1) == out@.push('?') + c.1);
                        }
                    }
                    names.push(name);
                    out.push('?');
                    i = e + 1;
                },
                None => {
                    return Err(TemplateError::MalformedPlaceholder(i));
                },
            }
        } else {
            proof {
                let c = compile_from(s@, i + 1);
                if let Ok(c) = c {
                    assert(out@ + (seq![s@[i as int]] + c.1) == out@.push(s@[i as int]) + c.1);
                }
            }
            out.push(s[i]);
            i = i + 1;
        }
    }
    proof {
        assert(views(names@) + Seq::<Seq<char>>::empty() == views(names@));
        assert(out@ + Seq::<char>::empty() == out@);
    }
    Ok((names, out))
}


/// The names of the placeholders of a template, in left-to-right order.
pub fn parse_query(input: &str) -> (r: Result<Vec<String>, TemplateError>)
    ensures
        match compile_spec(input@) {
            Ok(c) => r matches Ok(v) && views(v@) == c.0,
            Err(p) => r == Err::<Vec<String>, TemplateError>(
                TemplateError::MalformedPlaceholder(p as usize),
            ),
        },
{
    match compile(input) {
        Ok((names, _)) => Ok(names),
        Err(e) => Err(e),
    }
}

fn contains_name(vars: &Vec<String>, name: &Vec<char>, from: usize, to: usize) -> (r: bool)
    requires
        from <= to <= name@.len(),
    ensures
        r == views(vars@).contains(name@.subrange(from as int, to as int)),
{
    let t = string_of_range(name, from, to);
    let mut k: usize = 0;
    while k < vars.len()
        invariant
            k <= vars@.len(),
            t@ == name@.subrange(from as int, to as int),
            forall|m: int| 0 <= m < k ==> views(vars@)[m] != t@,
        decreases vars@.len() - k,
    {
        if vars[k] == t {
            assert(views(vars@)[k as int] == t@);
            return true;
        }
        k = k + 1;
    }
    false
}

/// Replaces each placeholder whose name is in `variables` by `?`; all other
/// text, other placeholders included, is kept.
pub fn replace_variables_in_query(input: &str, variables: Vec<String>) -> (r: String)
    ensures
        r@ == rewrite_from(input@, views(variables@), 0),
{
    let s = chars_of(input);
    let n = s.len();
    let ghost vars = views(variables@);
    let mut out = String::new();
    let mut i: usize = 0;
    while i < n
        invariant
            n == s@.len(),
            s@ == input@,
            i <= n,
            vars == views(variables@),
            rewrite_from(s@, vars, 0) == out@ + rewrite_from(s@, vars, i as int),
        decreases n - i,
    {
        let mut done = false;
        if s[i] == '$' {
            if let Some(e) = check_placeholder(&s, i) {
                if contains_name(&variables, &s, i + 2, e) {
                    assert(out@ + (seq!['?'] + rewrite_from(s@, vars, e + 1)) == out@.push('?') + rewrite_from(s@, vars, e + 1));
                    out.push('?');
                    i = e + 1;
                    done = true;
                }
            }
        }
        if !done {
            assert(out@ + (seq![s@[i as int]] + rewrite_from(s@, vars, i + 1)) == out@.push(s@[i as int]) + rewrite_from(s@, vars, i + 1));
            out.push(s[i]);
            i = i + 1;
        }
    }
    assert(out@ + Seq::<char>::empty() == out@);
    out
}


/// How many times `c` occurs in `t`.
pub open spec fn count_char(t: Seq<char>, c: char) -> nat
    decreases t.len(),
{
    if t.len() == 0 {
        0
    } else {
        (if t[0] == c { 1nat } else { 0nat }) + count_char(t.drop_first(), c)
    }
}

/// How many times `${` occurs in `t`.
pub open spec fn count_opens(t: Seq<char>) -> nat
    decreases t.len(),
{
    if t.len() == 0 {
        0
    } else {
        (if opens_at(t, 0) { 1nat } else { 0nat }) + count_opens(t.drop_first())
    }
}

pub open spec fn suffix(s: Seq<char>, i: int) -> Seq<char> {
    s.subrange(i, s.len() as int)
}

proof fn lemma_name_chars(s: Seq<char>, j: int)
    requires
        0 <= j,
    ensures
        j + name_len(s, j) <= s.len() || name_len(s, j) == 0,
        forall|k: int| j <= k < j + name_len(s, j) ==> k < s.len() && #[trigger] is_name_char(s[k]),
    decreases s.len() - j,
{
    if 0 <= j < s.len() && is_name_char(s[j]) {
        lemma_name_chars(s, j + 1);
    }
}

/// Dropping characters that are neither `?` nor `$` changes neither count.
proof fn lemma_skip(s: Seq<char>, a: int, b: int)
    requires
        0 <= a <= b <= s.len(),
        forall|k: int| a <= k < b ==> s[k] != '?' && s[k] != '$',
    ensures
        count_char(suffix(s, a), '?') == count_char(suffix(s, b), '?'),
        count_opens(suffix(s, a)) == count_opens(suffix(s, b)),
    decreases b - a,
{
    if a < b {
        assert(suffix(s, a).drop_first() == suffix(s, a + 1));
        lemma_skip(s, a + 1, b);
    }
}

proof fn lemma_counts_from(s: Seq<char>, i: int)
    requires
        0 <= i <= s.len(),
    ensures
        compile_from(s, i) matches Ok(c) ==> c.0.len() == count_opens(suffix(s, i))
            && count_char(c.1, '?') == c.0.len() + count_char(suffix(s, i), '?'),
    decreases s.len() - i,
{
    if i < s.len() {
        let t = suffix(s, i);
        assert(t.drop_first() == suffix(s, i + 1));
        if opens_at(s, i) {
            if placeholder_at(s, i) {
                let nx = placeholder_next(s, i);
                lemma_counts_from(s, nx);
                lemma_name_chars(s, i + 2);
                assert forall|k: int| i + 1 <= k < nx implies s[k] != '?' && s[k] != '$' by {
                    if i + 2 <= k < nx - 1 {
                        assert(is_name_char(s[k]));
                    }
                }
                lemma_skip(s, i + 1, nx);
                if let Ok(c) = compile_from(s, nx) {
                    assert((seq!['?'] + c.1).drop_first() == c.1);
                }
            }
        } else {
            lemma_counts_from(s, i + 1);
            if let Ok(c) = compile_from(s, i + 1) {
                assert((seq![s[i]] + c.1).drop_first() == c.1);
            }
        }
    } else {
        assert(suffix(s, i).len() == 0);
    }
}

/// Compiling a template yields one name per `${` in it, and the result holds
/// one more `?` per name than the template did: a template without `?` of its
/// own comes out with exactly as many markers as placeholders.
pub proof fn lemma_round_trip(s: Seq<char>)
    ensures
        compile_spec(s) matches Ok(c) ==> c.0.len() == count_opens(s)
            && count_char(c.1, '?') == c.0.len() + count_char(s, '?'),
{
    assert(suffix(s, 0) == s);
    lemma_counts_from(s, 0);
}

proof fn lemma_first_char(s: Seq<char>, i: int)
    requires
        0 <= i < s.len(),
        compile_from(s, i) is Ok,
    ensures
        compile_from(s, i)->Ok_0.1.len() > 0,
        compile_from(s, i)->Ok_0.1[0] == (if opens_at(s, i) { '?' } else { s[i] }),
{
}

proof fn lemma_no_opens_out(s: Seq<char>, i: int)
    requires
        0 <= i <= s.len(),
    ensures
        compile_from(s, i) matches Ok(c) ==> count_opens(c.1) == 0,
    decreases s.len() - i,
{
    if i < s.len() {
        if opens_at(s, i) {
            if placeholder_at(s, i) {
                let nx = placeholder_next(s, i);
                lemma_no_opens_out(s, nx);
                if let Ok(c) = compile_from(s, nx) {
                    assert((seq!['?'] + c.1).drop_first() == c.1);
                }
            }
        } else {
            lemma_no_opens_out(s, i + 1);
            if let Ok(c) = compile_from(s, i + 1) {
                let r = seq![s[i]] + c.1;
                assert(r.drop_first() == c.1);
                if i + 1 < s.len() {
                    lemma_first_char(s, i + 1);
                }
            }
        }
    }
}

proof fn lemma_plain_text(t: Seq<char>, i: int)
    requires
        0 <= i <= t.len(),
        count_opens(suffix(t, i)) == 0,
    ensures
        compile_from(t, i) == Ok::<(Seq<Seq<char>>, Seq<char>), int>((seq![], suffix(t, i))),
    decreases t.len() - i,
{
    if i < t.len() {
        assert(suffix(t, i).drop_first() == suffix(t, i + 1));
        lemma_plain_text(t, i + 1);
        assert(seq![t[i]] + suffix(t, i + 1) == suffix(t, i));
    } else {
        assert(suffix(t, i) == Seq::<char>::empty());
    }
}

/// A string with no `${` in it compiles to no names and to itself.
pub proof fn lemma_plain_text_unchanged(t: Seq<char>)
    requires
        count_opens(t) == 0,
    ensures
        compile_spec(t) == Ok::<(Seq<Seq<char>>, Seq<char>), int>((seq![], t)),
{
    assert(suffix(t, 0) == t);
    lemma_plain_text(t, 0);
}

/// Compiling what a compile produced changes nothing and finds no names.
pub proof fn lemma_compile_idempotent(s: Seq<char>)
    ensures
        compile_spec(s) matches Ok(c) ==> compile_spec(c.1) == Ok::<(Seq<Seq<char>>, Seq<char>), int>(
            (seq![], c.1),
        ),
{
    lemma_no_opens_out(s, 0);
    if let Ok(c) = compile_spec(s) {
        lemma_plain_text_unchanged(c.1);
    }
}

proof fn lemma_rewrite_from(s: Seq<char>, vars: Seq<Seq<char>>, i: int)
    requires
        0 <= i <= s.len(),
        compile_from(s, i) is Ok,
        forall|k: int| 0 <= k < compile_from(s, i)->Ok_0.0.len()
            ==> vars.contains(#[trigger] compile_from(s, i)->Ok_0.0[k]),
    ensures
        rewrite_from(s, vars, i) == compile_from(s, i)->Ok_0.1,
    decreases s.len() - i,
{
    if i < s.len() {
        if opens_at(s, i) {
            let nx = placeholder_next(s, i);
            let c = compile_from(s, nx)->Ok_0;
            assert(compile_from(s, i)->Ok_0.0[0] == placeholder_name(s, i));
            assert forall|k: int| 0 <= k < c.0.len() implies vars.contains(#[trigger] c.0[k]) by {
                assert(compile_from(s, i)->Ok_0.0[k + 1] == c.0[k]);
            }
            lemma_rewrite_from(s, vars, nx);
        } else {
            assert(compile_from(s, i)->Ok_0.0 == compile_from(s, i + 1)->Ok_0.0);
            lemma_rewrite_from(s, vars, i + 1);
        }
    }
}

/// Replacing the names that compiling found gives the compiled text.
pub proof fn lemma_compile_rewrite(s: Seq<char>)
    ensures
        compile_spec(s) matches Ok(c) ==> rewrite_from(s, c.0, 0) == c.1,
{
    if let Ok(c) = compile_spec(s) {
        assert forall|k: int| 0 <= k < c.0.len() implies c.0.contains(#[trigger] c.0[k]) by {}
        lemma_rewrite_from(s, c.0, 0);
    }
}

} // verus!
