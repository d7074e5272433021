//! Rendering a webhook's argument template: each `${path}` placeholder is
//! replaced by the text of the cell its path leads to. The first segment of a
//! path names a value; each further `.segment` goes one level down, a number
//! into an array and any other segment into an object.

use vstd::prelude::*;
use crate::binding::{first_key, find_key};
use crate::template::{check_placeholder, placeholder_at, placeholder_name, placeholder_next};
use crate::text::{ascii_digit, chars_of, is_ascii_digit, string_of_range};
use crate::value::ColType;
use crate::values::ValueMap;
use vstd::string::StringExecFns;

verus! {

/// `p` cut at each `.`; an empty `p` gives one empty segment.
pub open spec fn split_dots(p: Seq<char>) -> Seq<Seq<char>>
    decreases p.len(),
{
    if p.len() == 0 {
        seq![seq![]]
    } else {
        let r = split_dots(p.drop_last());
        if p.last() == '.' {
            r.push(seq![])
        } else {
            r.update(r.len() - 1, r.last().push(p.last()))
        }
    }
}

proof fn lemma_split_nonempty(p: Seq<char>)
    ensures
        split_dots(p).len() >= 1,
    decreases p.len(),
{
    if p.len() > 0 {
        lemma_split_nonempty(p.drop_last());
    }
}

/// The segments of a path. A leading `.` belongs to the first segment, so a
/// claim such as `.USER_ID` is one segment.
pub open spec fn path_segments(p: Seq<char>) -> Seq<Seq<char>> {
    if p.len() > 0 && p[0] == '.' {
        let s = split_dots(p.drop_first());
        s.update(0, seq!['.'] + s[0])
    } else {
        split_dots(p)
    }
}

pub open spec fn all_digits(t: Seq<char>) -> bool {
    t.len() > 0 && forall|k: int| 0 <= k < t.len() ==> is_ascii_digit(#[trigger] t[k])
}

pub open spec fn digit_value(c: char) -> nat {
    ((c as u32) - ('0' as u32)) as nat
}

/// The number that a run of decimal digits writes.
pub open spec fn digits_value(t: Seq<char>) -> nat
    decreases t.len(),
{
    if t.len() == 0 {
        0
    } else {
        digits_value(t.drop_last()) * 10 + digit_value(t.last())
    }
}

/// The cell that the segments lead to from `c`, if they lead anywhere.
pub open spec fn descend(c: ColType, segs: Seq<Seq<char>>) -> Option<ColType>
    decreases segs.len(),
{
    if segs.len() == 0 {
        Some(c)
    } else {
        let seg = segs[0];
        if all_digits(seg) {
            match c {
                ColType::Array(Some(v)) => if digits_value(seg) < v@.len() {
                    descend(v@[digits_value(seg) as int], segs.drop_first())
                } else {
                    None
                },
                _ => None,
            }
        } else {
            match c {
                ColType::Object(Some(es)) => match first_key(es@, seg) {
                    Some(j) => descend(es@[j].1, segs.drop_first()),
                    None => None,
                },
                _ => None,
            }
        }
    }
}

/// The cell a path leads to among the named values.
pub open spec fn resolve_spec(values: ValueMap, p: Seq<char>) -> Option<ColType> {
    let segs = path_segments(p);
    match values.spec_get(segs[0]) {
        Some(Some(c)) => descend(c, segs.drop_first()),
        _ => None,
    }
}


pub open spec fn seg_views(v: Seq<Vec<char>>) -> Seq<Seq<char>> {
    v.map_values(|x: Vec<char>| x@)
}

fn split_chars(cs: &Vec<char>, from: usize) -> (r: Vec<Vec<char>>)
    requires
        from <= cs@.len(),
    ensures
        seg_views(r@) == split_dots(cs@.subrange(from as int, cs@.len() as int)),
{
    let mut done: Vec<Vec<char>> = Vec::new();
    let mut cur: Vec<char> = Vec::new();
    let mut i = from;
    assert(seg_views(done@).push(cur@) =~= seq![seq![]]);
    while i < cs.len()
        invariant
            from <= i <= cs@.len(),
            split_dots(cs@.subrange(from as int, i as int)) == seg_views(done@).push(cur@),
        decreases cs@.len() - i,
    {
        let ghost t = cs@.subrange(from as int, i + 1);
        assert(t.drop_last() == cs@.subrange(from as int, i as int));
        assert(t.last() == cs@[i as int]);
        let ghost before = seg_views(done@).push(cur@);
        if cs[i] == '.' {
            let old_cur = cur;
            cur = Vec::new();
            done.push(old_cur);
            assert(seg_views(done@).push(cur@) =~= before.push(seq![]));
        } else {
            cur.push(cs[i]);
            assert(seg_views(done@).push(cur@) =~= before.update(before.len() - 1, before.last().push(cs@[i as int])));
        }
        i = i + 1;
    }
    assert(cs@.subrange(from as int, i as int) == cs@.subrange(from as int, cs@.len() as int));
    done.push(cur);
    done
}

/// The segments of a path.
pub fn segments_of(p: &str) -> (r: Vec<Vec<char>>)
    ensures
        seg_views(r@) == path_segments(p@),
        r@.len() >= 1,
{
    let cs = chars_of(p);
    if cs.len() > 0 && cs[0] == '.' {
        let mut segs = split_chars(&cs, 1);
        proof {
            assert(cs@.subrange(1, cs@.len() as int) == p@.drop_first());
            lemma_split_nonempty(p@.drop_first());
        }
        let mut first: Vec<char> = Vec::new();
        first.push('.');
        let mut k: usize = 0;
        while k < segs[0].len()
            invariant
                segs@.len() >= 1,
                k <= segs@[0]@.len(),
                first@ == seq!['.'] + segs@[0]@.subrange(0, k as int),
            decreases segs@[0]@.len() - k,
        {
            first.push(segs[0][k]);
            k = k + 1;
        }
        assert(segs@[0]@.subrange(0, k as int) == segs@[0]@);
        let ghost before = seg_views(segs@);
        segs[0] = first;
        assert(seg_views(segs@) =~= before.update(0, seq!['.'] + before[0]));
        segs
    } else {
        let segs = split_chars(&cs, 0);
        proof {
            assert(cs@.subrange(0, cs@.len() as int) == p@);
            lemma_split_nonempty(p@);
        }
        segs
    }
}


proof fn lemma_digits_grow(t: Seq<char>, k: int)
    requires
        0 <= k <= t.len(),
    ensures
        digits_value(t.subrange(0, k)) <= digits_value(t),
    decreases t.len(),
{
    if k < t.len() {
        assert(t.drop_last().subrange(0, k) == t.subrange(0, k));
        lemma_digits_grow(t.drop_last(), k);
    } else {
        assert(t.subrange(0, k) == t);
    }
}

fn all_digit_chars(t: &Vec<char>) -> (r: bool)
    ensures
        r == all_digits(t@),
{
    if t.len() == 0 {
        return false;
    }
    let mut k: usize = 0;
    while k < t.len()
        invariant
            k <= t@.len(),
            forall|m: int| 0 <= m < k ==> is_ascii_digit(#[trigger] t@[m]),
        decreases t@.len() - k,
    {
        if !ascii_digit(t[k]) {
            return false;
        }
        k = k + 1;
    }
    true
}

/// The number a run of digits writes, where it is below `bound`.
fn parse_index(t: &Vec<char>, bound: usize) -> (r: Option<usize>)
    requires
        all_digits(t@),
    ensures
        r is Some <==> digits_value(t@) < bound,
        r matches Some(i) ==> i == digits_value(t@),
{
    if bound == 0 {
        return None;
    }
    let mut acc: usize = 0;
    let mut k: usize = 0;
    while k < t.len()
        invariant
            all_digits(t@),
            k <= t@.len(),
            acc == digits_value(t@.subrange(0, k as int)),
            acc < bound,
        decreases t@.len() - k,
    {
        let ghost u = t@.subrange(0, k + 1);
        assert(u.drop_last() == t@.subrange(0, k as int));
        assert(u.last() == t@[k as int]);
        let d = (t[k] as u32 - '0' as u32) as u128;
        assert(is_ascii_digit(t@[k as int]));
        let next: u128 = acc as u128 * 10 + d;
        if next >= bound as u128 {
            proof {
                lemma_digits_grow(t@, k + 1);
            }
            return None;
        }
        acc = next as usize;
        k = k + 1;
    }
    assert(t@.subrange(0, k as int) == t@);
    Some(acc)
}

/// The cell a path leads to among the named values, if any.
pub fn resolve_path<'a>(values: &'a ValueMap, path: &str) -> (r: Option<&'a ColType>)
    ensures
        match resolve_spec(*values, path@) {
            Some(c) => r matches Some(x) && *x == c,
            None => r is None,
        },
{
    let segs = segments_of(path);
    let ghost sv = seg_views(segs@);
    let head = string_of_range(&segs[0], 0, segs[0].len());
    assert(head@ == sv[0]) by {
        assert(segs@[0]@.subrange(0, segs@[0]@.len() as int) == segs@[0]@);
    }
    let mut cur: &ColType = match values.get(head.as_str()) {
        Some(Some(c)) => c,
        _ => return None,
    };
    let ghost start = *cur;
    assert(sv.subrange(1, sv.len() as int) == sv.drop_first());
    let mut k: usize = 1;
    while k < segs.len()
        invariant
            1 <= k <= segs@.len(),
            sv == seg_views(segs@),
            resolve_spec(*values, path@) == descend(start, sv.drop_first()),
            descend(start, sv.drop_first()) == descend(*cur, sv.subrange(k as int, sv.len() as int)),
        decreases segs@.len() - k,
    {
        let ghost rest = sv.subrange(k as int, sv.len() as int);
        assert(rest[0] == segs@[k as int]@);
        assert(rest.drop_first() == sv.subrange(k + 1, sv.len() as int));
        let seg = &segs[k];
        if all_digit_chars(seg) {
            match cur {
                ColType::Array(Some(v)) => match parse_index(seg, v.len()) {
                    Some(ix) => {
                        cur = &v[ix];
                    },
                    None => {
                        assert(descend(*cur, rest) is None);
                        return None;
                    },
                },
                _ => return None,
            }
        } else {
            match cur {
                ColType::Object(Some(es)) => {
                    let key = string_of_range(seg, 0, seg.len());
                    assert(seg@.subrange(0, seg@.len() as int) == seg@);
                    match find_key(es, key.as_str()) {
                        Some(j) => {
                            cur = &es[j].1;
                        },
                        None => {
                            assert(descend(*cur, rest) is None);
                            return None;
                        },
                    }
                },
                _ => return None,
            }
        }
        k = k + 1;
    }
    assert(sv.subrange(k as int, sv.len() as int).len() == 0);
    Some(cur)
}


pub open spec fn digit_char(d: nat) -> char {
    if d == 0 { '0' } else if d == 1 { '1' } else if d == 2 { '2' } else if d == 3 { '3' }
    else if d == 4 { '4' } else if d == 5 { '5' } else if d == 6 { '6' } else if d == 7 { '7' }
    else if d == 8 { '8' } else { '9' }
}

/// The decimal digits of `n`, without leading zeros.
pub open spec fn decimal(n: nat) -> Seq<char>
    decreases n,
{
    if n < 10 {
        seq![digit_char(n)]
    } else {
        decimal(n / 10).push(digit_char(n % 10))
    }
}

/// The decimal text of an integer, with a `-` when it is negative.
pub open spec fn int_text(v: int) -> Seq<char> {
    if v < 0 {
        seq!['-'] + decimal((-v) as nat)
    } else {
        decimal(v as nat)
    }
}

fn digit_to_char(d: u64) -> (r: char)
    requires
        d < 10,
    ensures
        r == digit_char(d as nat),
{
    if d == 0 { '0' } else if d == 1 { '1' } else if d == 2 { '2' } else if d == 3 { '3' }
    else if d == 4 { '4' } else if d == 5 { '5' } else if d == 6 { '6' } else if d == 7 { '7' }
    else if d == 8 { '8' } else { '9' }
}

/// Appends the decimal digits of `n`.
pub fn push_decimal(s: &mut String, n: u64)
    ensures
        final(s)@ == old(s)@ + decimal(n as nat),
    decreases n,
{
    if n >= 10 {
        push_decimal(s, n / 10);
        s.push(digit_to_char(n % 10));
        assert(old(s)@ + decimal(n as nat) == old(s)@ + decimal((n / 10) as nat) + seq![digit_char((n % 10) as nat)]);
    } else {
        s.push(digit_to_char(n));
        assert(old(s)@ + decimal(n as nat) == old(s)@.push(digit_char(n as nat)));
    }
}

/// Appends the decimal text of `v`.
pub fn push_int(s: &mut String, v: i64)
    ensures
        final(s)@ == old(s)@ + int_text(v as int),
{
    if v < 0 {
        s.push('-');
        let m: u64 = (-(v as i128)) as u64;
        push_decimal(s, m);
        assert(old(s)@ + int_text(v as int) == old(s)@.push('-') + decimal(m as nat));
    } else {
        push_decimal(s, v as u64);
    }
}

/// The text a cell is written as inside a payload: numbers and booleans bare,
/// strings in double quotes, reals, dates, times and JSON as their text, an
/// absent value as `null`. A present array or object has no such text.
pub open spec fn render_spec(c: ColType) -> Option<Seq<char>> {
    match c {
        ColType::Integer(Some(v)) => Some(int_text(v as int)),
        ColType::UnsignedInteger(Some(v)) => Some(decimal(v as nat)),
        ColType::Real(Some(t)) => Some(t@),
        ColType::String(Some(t)) => Some(seq!['"'] + t@ + seq!['"']),
        ColType::Bool(Some(b)) => Some(if b { "true"@ } else { "false"@ }),
        ColType::Date(Some(t)) => Some(t@),
        ColType::Time(Some(t)) => Some(t@),
        ColType::Datetime(Some(t)) => Some(t@),
        ColType::Json(Some(t)) => Some(t@),
        ColType::Array(Some(_)) => None,
        ColType::Object(Some(_)) => None,
        _ => Some("null"@),
    }
}

/// What replaces the placeholder with path `p`: the text of the cell it
/// resolves to, or nothing where it resolves to no cell with a text.
pub open spec fn substitution(values: ValueMap, p: Seq<char>) -> Seq<char> {
    match resolve_spec(values, p) {
        Some(c) => match render_spec(c) {
            Some(t) => t,
            None => seq![],
        },
        None => seq![],
    }
}

/// `s` from `i` on, with each placeholder replaced by its substitution.
pub open spec fn render_from(s: Seq<char>, values: ValueMap, i: int) -> Seq<char>
    decreases s.len() - i,
{
    if i < 0 || i >= s.len() {
        seq![]
    } else if placeholder_at(s, i) {
        substitution(values, placeholder_name(s, i)) + render_from(s, values, placeholder_next(s, i))
    } else {
        seq![s[i]] + render_from(s, values, i + 1)
    }
}

fn push_cell(s: &mut String, c: &ColType)
    ensures
        final(s)@ == old(s)@ + (match render_spec(*c) {
            Some(t) => t,
            None => seq![],
        }),
{
    match c {
        ColType::Integer(Some(v)) => push_int(s, *v),
        ColType::UnsignedInteger(Some(v)) => push_decimal(s, *v),
        ColType::Real(Some(t)) => s.append(t.as_str()),
        ColType::String(Some(t)) => {
            s.push('"');
            s.append(t.as_str());
            s.push('"');
            assert(old(s)@ + (seq!['"'] + t@ + seq!['"']) == old(s)@.push('"') + t@ + seq!['"']);
        },
        ColType::Bool(Some(b)) => if *b {
            s.append("true")
        } else {
            s.append("false")
        },
        ColType::Date(Some(t)) => s.append(t.as_str()),
        ColType::Time(Some(t)) => s.append(t.as_str()),
        ColType::Datetime(Some(t)) => s.append(t.as_str()),
        ColType::Json(Some(t)) => s.append(t.as_str()),
        ColType::Array(Some(_)) => {
            assert(old(s)@ + Seq::<char>::empty() == old(s)@);
        },
        ColType::Object(Some(_)) => {
            assert(old(s)@ + Seq::<char>::empty() == old(s)@);
        },
        _ => s.append("null"),
    }
}

/// Renders a webhook's argument template: each well-formed placeholder is
/// replaced by the text of the cell its path resolves to among `values`, or by
/// nothing where it resolves to none; all other text is kept.
pub fn replace_variables_with_values(input: &str, values: &ValueMap) -> (r: String)
    ensures
        r@ == render_from(input@, *values, 0),
{
    let s = chars_of(input);
    let n = s.len();
    let mut out = String::new();
    let mut i: usize = 0;
    while i < n
        invariant
            n == s@.len(),
            s@ == input@,
            i <= n,
            render_from(s@, *values, 0) == out@ + render_from(s@, *values, i as int),
        decreases n - i,
    {
        let mut done = false;
        if s[i] == '$' {
            if let Some(e) = check_placeholder(&s, i) {
                let path = string_of_range(&s, i + 2, e);
                let ghost before = out@;
                match resolve_path(values, path.as_str()) {
                    Some(c) => push_cell(&mut out, c),
                    None => {},
                }
                assert(out@ == before + substitution(*values, placeholder_name(s@, i as int)));
                assert(before + (substitution(*values, placeholder_name(s@, i as int)) + render_from(s@, *values, e + 1))
                    == out@ + render_from(s@, *values, e + 1));
                i = e + 1;
                done = true;
            }
        }
        if !done {
            assert(out@ + (seq![s@[i as int]] + render_from(s@, *values, i + 1)) == out@.push(s@[i as int]) + render_from(s@, *values, i + 1));
            out.push(s[i]);
            i = i + 1;
        }
    }
    assert(out@ + Seq::<char>::empty() == out@);
    out
}

} // verus!
