//! Query names may hold `/`, yet each is served as one path segment under
//! `/api/`: a `/` in the name travels as `_`.

use vstd::prelude::*;
use crate::text::{chars_of, push_all};

verus! {

/// `s` with every `from` written as `to`.
pub open spec fn swap_char(s: Seq<char>, from: char, to: char) -> Seq<char> {
    s.map_values(|c: char| if c == from { to } else { c })
}

fn swap_chars(s: &Vec<char>, from: char, to: char) -> (r: Vec<char>)
    ensures
        r@ == swap_char(s@, from, to),
{
    let mut r: Vec<char> = Vec::new();
    let mut i: usize = 0;
    while i < s.len()
        invariant
            i <= s@.len(),
            r@ == swap_char(s@.subrange(0, i as int), from, to),
        decreases s@.len() - i,
    {
        let c = if s[i] == from { to } else { s[i] };
        proof {
            assert(swap_char(s@.subrange(0, i + 1), from, to) == swap_char(s@.subrange(0, i as int), from, to).push(c));
        }
        r.push(c);
        i = i + 1;
    }
    assert(s@.subrange(0, s@.len() as int) == s@);
    r
}

pub open spec fn api_prefix() -> Seq<char> {
    seq!['/', 'a', 'p', 'i', '/']
}

/// The path a request is routed by: a path under `/api/` keeps that prefix
/// and has every further `/` written as `_`; any other path is left alone.
pub open spec fn route_path_spec(path: Seq<char>) -> Seq<char> {
    if path.len() >= 5 && path.subrange(0, 5) == api_prefix() {
        api_prefix() + swap_char(path.subrange(5, path.len() as int), '/', '_')
    } else {
        path
    }
}

/// The path a request is routed by.
pub fn route_path(path: &str) -> (r: String)
    ensures
        r@ == route_path_spec(path@),
{
    let p = chars_of(path);
    let is_api = p.len() >= 5 && p[0] == '/' && p[1] == 'a' && p[2] == 'p' && p[3] == 'i' && p[4] == '/';
    let mut out = String::new();
    if is_api {
        assert(p@.subrange(0, 5) == api_prefix());
        let mut rest: Vec<char> = Vec::new();
        let mut k: usize = 5;
        while k < p.len()
            invariant
                5 <= k <= p@.len(),
                rest@ == p@.subrange(5, k as int),
            decreases p@.len() - k,
        {
            rest.push(p[k]);
            k = k + 1;
        }
        let prefix: Vec<char> = vec!['/', 'a', 'p', 'i', '/'];
        push_all(&mut out, &prefix);
        push_all(&mut out, &swap_chars(&rest, '/', '_'));
        assert(prefix@ == api_prefix());
    } else {
        proof {
            if p@.len() >= 5 {
                assert(p@.subrange(0, 5) != api_prefix()) by {
                    if p@.subrange(0, 5) == api_prefix() {
                        assert(p@[0] == p@.subrange(0, 5)[0]);
                        assert(p@[1] == p@.subrange(0, 5)[1]);
                        assert(p@[2] == p@.subrange(0, 5)[2]);
                        assert(p@[3] == p@.subrange(0, 5)[3]);
                        assert(p@[4] == p@.subrange(0, 5)[4]);
                    }
                }
            }
        }
        push_all(&mut out, &p);
    }
    out
}

/// The query name a routed path segment stands for: every `_` read as `/`.
pub fn query_name_of(segment: &str) -> (r: String)
    ensures
        r@ == swap_char(segment@, '_', '/'),
{
    let mut out = String::new();
    push_all(&mut out, &swap_chars(&chars_of(segment), '_', '/'));
    out
}

/// A query name without `_` comes back unchanged from its route segment.
pub proof fn lemma_name_round_trip(name: Seq<char>)
    requires
        !name.contains('_'),
    ensures
        swap_char(swap_char(name, '/', '_'), '_', '/') == name,
{
    assert forall|k: int| 0 <= k < name.len() implies swap_char(swap_char(name, '/', '_'), '_', '/')[k]
        == name[k] by {
        assert(name[k] != '_');
    }
    assert(swap_char(swap_char(name, '/', '_'), '_', '/') =~= name);
}

} // verus!
