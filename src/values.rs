//! The named values a webhook payload can refer to: the request's parameters,
//! the caller's identity claims and, after the query ran, its result.

use vstd::prelude::*;
use crate::binding::{
    claim_cell, first_key, first_key_from, find_key, is_reserved, json_get, json_member,
    lemma_first_key_from, Claim,
};
use crate::model::User;
use crate::text::chars_of;
use crate::value::{cell_of_json, json_cell, ColType, JsonValue};

verus! {

/// Names bound to cells; binding a name again replaces what it was bound to.
/// A name may be bound to nothing (`None`) when the request did not supply it.
#[derive(Debug)]
pub struct ValueMap {
    entries: Vec<(String, Option<ColType>)>,
}

proof fn lemma_same_keys<V>(a: Seq<(String, V)>, b: Seq<(String, V)>, k: Seq<char>, i: int)
    requires
        a.len() == b.len(),
        forall|j: int| 0 <= j < a.len() ==> (#[trigger] a[j]).0@ == b[j].0@,
    ensures
        first_key_from(a, k, i) == first_key_from(b, k, i),
    decreases a.len() - i,
{
    if 0 <= i < a.len() {
        lemma_same_keys(a, b, k, i + 1);
    }
}

proof fn lemma_push_key<V>(a: Seq<(String, V)>, x: (String, V), k: Seq<char>, i: int)
    requires
        0 <= i <= a.len(),
    ensures
        first_key_from(a.push(x), k, i) == (match first_key_from(a, k, i) {
            Some(j) => Some(j),
            None => if x.0@ == k { Some(a.len() as int) } else { None },
        }),
    decreases a.len() - i,
{
    if i < a.len() {
        assert(a.push(x)[i] == a[i]);
        lemma_push_key(a, x, k, i + 1);
    } else {
        assert(a.push(x)[i] == x);
        assert(first_key_from(a.push(x), k, i + 1) is None);
    }
}

impl ValueMap {
    /// What `k` is bound to, if it is bound.
    pub closed spec fn spec_get(&self, k: Seq<char>) -> Option<Option<ColType>> {
        match first_key(self.entries@, k) {
            Some(i) => Some(self.entries@[i].1),
            None => None,
        }
    }

    /// An empty map.
    pub fn new() -> (r: ValueMap)
        ensures
            forall|k: Seq<char>| r.spec_get(k) is None,
    {
        ValueMap { entries: Vec::new() }
    }

    /// Binds `key` to `value`, in place of what it was bound to.
    pub fn insert(&mut self, key: String, value: Option<ColType>)
        ensures
            final(self).spec_get(key@) == Some(value),
            forall|k: Seq<char>| k != key@ ==> final(self).spec_get(k) == old(self).spec_get(k),
    {
        match find_key(&self.entries, key.as_str()) {
            Some(i) => {
                let ghost before = self.entries@;
                self.entries[i] = (key, value);
                proof {
                    assert forall|k: Seq<char>| k != key@ implies self.spec_get(k) == old(self).spec_get(
                        k,
                    ) by {
                        lemma_same_keys(before, self.entries@, k, 0);
                        lemma_first_key_from(before, k, 0);
                    }
                    lemma_same_keys(before, self.entries@, key@, 0);
                }
            },
            None => {
                let ghost before = self.entries@;
                let ghost kv = key@;
                let ghost x = (key, value);
                self.entries.push((key, value));
                proof {
                    assert(self.entries@ == before.push(x));
                    assert forall|k: Seq<char>| k != kv implies self.spec_get(k) == old(self).spec_get(
                        k,
                    ) by {
                        lemma_push_key(before, x, k, 0);
                        lemma_first_key_from(before, k, 0);
                    }
                    lemma_push_key(before, x, kv, 0);
                }
            },
        }
    }

    /// What `key` is bound to, if it is bound.
    pub fn get(&self, key: &str) -> (r: Option<&Option<ColType>>)
        ensures
            match self.spec_get(key@) {
                Some(v) => r matches Some(x) && *x == v,
                None => r is None,
            },
    {
        match find_key(&self.entries, key) {
            Some(i) => Some(&self.entries[i].1),
            None => None,
        }
    }
}

/// `o` is what the payload member `m` turns into.
pub open spec fn member_cell(m: Option<JsonValue>, o: Option<ColType>) -> bool {
    match m {
        Some(v) => o matches Some(c) && json_cell(v, c),
        None => o is None,
    }
}

pub open spec fn is_claim_name(k: Seq<char>) -> bool {
    k == ".USER_ID"@ || k == ".USER_EMAIL"@ || k == ".USER_ROLE"@
}

/// The values a webhook of this request can refer to: each parameter that is
/// not reserved, bound to its payload member or to nothing, and, when a caller
/// is present, the three identity claims under their canonical names.
pub fn build_values(params: &Vec<String>, user: &Option<User>, data: &JsonValue) -> (r: ValueMap)
    ensures
        forall|i: int|
            0 <= i < params@.len() && !is_reserved(#[trigger] params@[i]@) ==> (r.spec_get(params@[i]@) matches Some(o)
                && member_cell(json_get(*data, params@[i]@), o)),
        forall|k: Seq<char>|
            (#[trigger] r.spec_get(k)) is Some && !is_claim_name(k) ==> !is_reserved(k) && exists|i: int|
                0 <= i < params@.len() && (#[trigger] params@[i])@ == k,
        forall|k: Seq<char>| #[trigger] r.spec_get(k) is Some && is_reserved(k) ==> user is Some && is_claim_name(k),
        *user matches Some(u) ==> r.spec_get(".USER_ID"@) == Some(Some(claim_cell(Claim::UserId, u)))
            && r.spec_get(".USER_EMAIL"@) == Some(Some(claim_cell(Claim::UserEmail, u)))
            && r.spec_get(".USER_ROLE"@) == Some(Some(claim_cell(Claim::UserRole, u))),
{
    proof {
        reveal_strlit(".USER_ID");
        reveal_strlit(".USER_EMAIL");
        reveal_strlit(".USER_ROLE");
    }
    let mut r = ValueMap::new();
    let mut i: usize = 0;
    while i < params.len()
        invariant
            i <= params@.len(),
            forall|j: int|
                0 <= j < i && !is_reserved(#[trigger] params@[j]@) ==> (r.spec_get(params@[j]@) matches Some(o)
                    && member_cell(json_get(*data, params@[j]@), o)),
            forall|k: Seq<char>|
                (#[trigger] r.spec_get(k)) is Some ==> !is_reserved(k) && exists|j: int|
                    0 <= j < i && (#[trigger] params@[j])@ == k,
        decreases params@.len() - i,
    {
        let p = &params[i];
        let reserved = {
            let cs = chars_of(p.as_str());
            cs.len() > 0 && cs[0] == '.'
        };
        if !reserved {
            let o = match json_member(data, p.as_str()) {
                Some(v) => Some(cell_of_json(v)),
                None => None,
            };
            let ghost old_r = r;
            r.insert(p.clone(), o);
            proof {
                assert forall|k: Seq<char>| (#[trigger] r.spec_get(k)) is Some implies !is_reserved(k)
                    && exists|j: int| 0 <= j < i + 1 && (#[trigger] params@[j])@ == k by {
                    if k == params@[i as int]@ {
                        assert(params@[i as int]@ == k);
                    } else {
                        assert(old_r.spec_get(k) is Some);
                    }
                }
            }
        }
        i = i + 1;
    }
    match user {
        Some(u) => {
            proof {
                assert(".USER_ID"@.len() == 8 && ".USER_EMAIL"@.len() == 11 && ".USER_ROLE"@.len() == 10);
            }
            let ghost r0 = r;
            r.insert(String::from_str(".USER_ID"), Some(ColType::Integer(Some(u.id))));
            r.insert(String::from_str(".USER_EMAIL"), Some(ColType::String(Some(u.email.clone()))));
            r.insert(
                String::from_str(".USER_ROLE"),
                Some(
                    ColType::String(
                        match &u.role {
                            Some(x) => Some(x.clone()),
                            None => None,
                        },
                    ),
                ),
            );
            proof {
                assert forall|k: Seq<char>| (#[trigger] r.spec_get(k)) is Some && !is_claim_name(k) implies r.spec_get(k)
                    == r0.spec_get(k) by {}
            }
        },
        None => {},
    }
    r
}

} // verus!
