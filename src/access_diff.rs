//! Which role grants to add and which to remove when a query's whitelist is
//! edited.

use vstd::prelude::*;

verus! {

pub open spec fn strictly_increasing(s: Seq<i64>) -> bool {
    forall|i: int, j: int| 0 <= i < j < s.len() ==> s[i] < s[j]
}

/// Compares the old and the new whitelist of a query, both given as role ids
/// in increasing order: the first result holds the ids only the new one has
/// (to grant), the second the ids only the old one has (to revoke), each in
/// increasing order.
pub fn remaining_ids(arr1: Vec<i64>, arr2: Vec<i64>) -> (r: (Vec<i64>, Vec<i64>))
    requires
        strictly_increasing(arr1@),
        strictly_increasing(arr2@),
    ensures
        strictly_increasing(r.0@),
        strictly_increasing(r.1@),
        forall|x: i64| #[trigger] r.0@.contains(x) <==> arr2@.contains(x) && !arr1@.contains(x),
        forall|x: i64| #[trigger] r.1@.contains(x) <==> arr1@.contains(x) && !arr2@.contains(x),
{
    let mut i: usize = 0;
    let mut j: usize = 0;
    let len1 = arr1.len();
    let len2 = arr2.len();
    let mut insertable: Vec<i64> = Vec::new();
    let mut deletable: Vec<i64> = Vec::new();

    while i < len1 || j < len2
        invariant
            len1 == arr1@.len(),
            len2 == arr2@.len(),
            i <= len1,
            j <= len2,
            strictly_increasing(arr1@),
            strictly_increasing(arr2@),
            forall|x: i64| (#[trigger] insertable@.contains(x)) ==> arr2@.subrange(0, j as int).contains(x),
            forall|x: i64| (#[trigger] deletable@.contains(x)) ==> arr1@.subrange(0, i as int).contains(x),
            forall|p: int, q: int| 0 <= p < i && j <= q < len2 ==> arr1@[p] < arr2@[q],
            forall|p: int, q: int| 0 <= q < j && i <= p < len1 ==> arr2@[q] < arr1@[p],
            strictly_increasing(insertable@),
            strictly_increasing(deletable@),
            forall|k: int| 0 <= k < insertable@.len() && j < len2 ==> insertable@[k] < arr2@[j as int],
            forall|k: int| 0 <= k < deletable@.len() && i < len1 ==> deletable@[k] < arr1@[i as int],
            forall|x: i64| #[trigger] insertable@.contains(x) <==> arr2@.subrange(0, j as int).contains(x)
                && !arr1@.contains(x),
            forall|x: i64| #[trigger] deletable@.contains(x) <==> arr1@.subrange(0, i as int).contains(x)
                && !arr2@.contains(x),
        decreases len1 - i + len2 - j,
    {
        let ghost old_ins = insertable@;
        let ghost old_del = deletable@;
        let ghost i0 = i as int;
        let ghost j0 = j as int;
        if i < len1 && j < len2 && arr1[i] == arr2[j] {
            i = i + 1;
            j = j + 1;
            proof {
                assert(arr1@.subrange(0, i as int) == arr1@.subrange(0, i0).push(arr1@[i0]));
                assert(arr2@.subrange(0, j as int) == arr2@.subrange(0, j0).push(arr2@[j0]));
                {
                    assert forall|x: i64| #[trigger] insertable@.contains(x) <==> arr2@.subrange(0, j as int).contains(x)
                        && !arr1@.contains(x) by {
                        if x == arr2@[j0] {
                            assert(arr1@[i0] == x);
                        }
                    }
                    assert forall|x: i64| #[trigger] deletable@.contains(x) <==> arr1@.subrange(0, i as int).contains(x)
                        && !arr2@.contains(x) by {
                        if x == arr1@[i0] {
                            assert(arr2@[j0] == x);
                        }
                    }
                }
            }
        } else if i < len1 && (j >= len2 || arr1[i] < arr2[j]) {
            let x = arr1[i];
            deletable.push(x);
            i = i + 1;
            proof {
                assert(arr1@.subrange(0, i as int) == arr1@.subrange(0, i0).push(x));
                assert forall|y: i64| (#[trigger] deletable@.contains(y)) implies arr1@.subrange(0, i as int).contains(y) by {
                    if y != x {
                        assert(old_del.contains(y));
                        let k = choose|k: int| 0 <= k < i0 && #[trigger] arr1@.subrange(0, i0)[k] == y;
                        assert(arr1@.subrange(0, i as int)[k] == y);
                    } else {
                        assert(arr1@.subrange(0, i as int)[i0] == x);
                    }
                }
                {
                    assert forall|q: int| 0 <= q < len2 implies arr2@[q] != x by {
                        if q < j0 {
                        } else {
                            assert(arr2@[j0] <= arr2@[q]);
                        }
                    }
                    assert(!arr2@.contains(x));
                    assert forall|y: i64| #[trigger] deletable@.contains(y) <==> arr1@.subrange(0, i as int).contains(y)
                        && !arr2@.contains(y) by {
                        if y != x {
                            assert(deletable@ == old_del.push(x));
                            if deletable@.contains(y) {
                                let k = choose|k: int| 0 <= k < deletable@.len() && #[trigger] deletable@[k] == y;
                                assert(old_del[k] == y);
                            }
                            if old_del.contains(y) {
                                let k = choose|k: int| 0 <= k < old_del.len() && #[trigger] old_del[k] == y;
                                assert(deletable@[k] == y);
                            }
                        } else {
                            assert(deletable@[deletable@.len() - 1] == x);
                        }
                    }
                    assert forall|a: int, b: int| 0 <= a < b < deletable@.len() implies deletable@[a] < deletable@[b] by {
                        if b == deletable@.len() - 1 {
                            assert(old_del[a] < arr1@[i0]);
                        }
                    }
                    assert forall|p: int, q: int| 0 <= p < i && j <= q < len2 implies arr1@[p] < arr2@[q] by {
                        if p == i0 {
                            assert(arr2@[j0] <= arr2@[q]);
                        }
                    }
                }
            }
        } else {
            let x = arr2[j];
            insertable.push(x);
            j = j + 1;
            proof {
                assert(arr2@.subrange(0, j as int) == arr2@.subrange(0, j0).push(x));
                assert forall|y: i64| (#[trigger] insertable@.contains(y)) implies arr2@.subrange(0, j as int).contains(y) by {
                    if y != x {
                        assert(old_ins.contains(y));
                        let k = choose|k: int| 0 <= k < j0 && #[trigger] arr2@.subrange(0, j0)[k] == y;
                        assert(arr2@.subrange(0, j as int)[k] == y);
                    } else {
                        assert(arr2@.subrange(0, j as int)[j0] == x);
                    }
                }
                {
                    assert forall|p: int| 0 <= p < len1 implies arr1@[p] != x by {
                        if p < i0 {
                        } else {
                            assert(arr1@[i0] <= arr1@[p]);
                        }
                    }
                    assert(!arr1@.contains(x));
                    assert forall|y: i64| #[trigger] insertable@.contains(y) <==> arr2@.subrange(0, j as int).contains(y)
                        && !arr1@.contains(y) by {
                        if y != x {
                            assert(insertable@ == old_ins.push(x));
                            if insertable@.contains(y) {
                                let k = choose|k: int| 0 <= k < insertable@.len() && #[trigger] insertable@[k] == y;
                                assert(old_ins[k] == y);
                            }
                            if old_ins.contains(y) {
                                let k = choose|k: int| 0 <= k < old_ins.len() && #[trigger] old_ins[k] == y;
                                assert(insertable@[k] == y);
                            }
                        } else {
                            assert(insertable@[insertable@.len() - 1] == x);
                        }
                    }
                    assert forall|a: int, b: int| 0 <= a < b < insertable@.len() implies insertable@[a] < insertable@[b] by {
                        if b == insertable@.len() - 1 {
                            assert(old_ins[a] < arr2@[j0]);
                        }
                    }
                    assert forall|p: int, q: int| 0 <= q < j && i <= p < len1 implies arr2@[q] < arr1@[p] by {
                        if q == j0 {
                            assert(arr1@[i0] <= arr1@[p]);
                        }
                    }
                }
            }
        }
    }
    proof {
        assert(arr1@.subrange(0, len1 as int) == arr1@);
        assert(arr2@.subrange(0, len2 as int) == arr2@);
    }
    (insertable, deletable)
}

} // verus!
