use vstd::prelude::*;

verus! {

/// Each element is below the next.
pub open spec fn strictly_increasing(s: Seq<u64>) -> bool {
    forall|i: int, j: int| 0 <= i < j < s.len() ==> s[i] < s[j]
}

/// The first position whose element is not below `x`, or the length.
fn lower_bound(v: &Vec<u64>, x: u64) -> (p: usize)
    requires
        strictly_increasing(v@),
    ensures
        p <= v@.len(),
        forall|i: int| 0 <= i < p ==> v@[i] < x,
        forall|i: int| p <= i < v@.len() ==> v@[i] >= x,
{
    let mut p: usize = 0;
    while p < v.len() && v[p] < x
        invariant
            strictly_increasing(v@),
            p <= v@.len(),
            forall|i: int| 0 <= i < p ==> v@[i] < x,
        decreases v@.len() - p,
    {
        p = p + 1;
    }
    proof {
        assert forall|i: int| p <= i < v@.len() implies v@[i] >= x by {
            if i > p {
                assert(v@[p as int] < v@[i]);
            }
        }
    }
    p
}

/// Adds `x` to a strictly increasing list, in its place; nothing if it is there.
pub(crate) fn sorted_insert(v: &mut Vec<u64>, x: u64)
    requires
        strictly_increasing(old(v)@),
    ensures
        strictly_increasing(final(v)@),
        forall|y: u64| final(v)@.contains(y) <==> (old(v)@.contains(y) || y == x),
{
    let p = lower_bound(v, x);
    if p < v.len() && v[p] == x {
        assert(v@[p as int] == x);
        return;
    }
    let ghost s = v@;
    assert(s == old(v)@);
    v.insert(p, x);
    proof {
        assert forall|y: u64| v@.contains(y) <==> (s.contains(y) || y == x) by {
            if s.contains(y) {
                let i = choose|i: int| 0 <= i < s.len() && s[i] == y;
                if i < p {
                    assert(v@[i] == y);
                } else {
                    assert(v@[i + 1] == y);
                }
            }
            if y == x {
                assert(v@[p as int] == x);
            }
            if v@.contains(y) {
                let i = choose|i: int| 0 <= i < v@.len() && v@[i] == y;
                if i < p {
                    assert(s[i] == y);
                } else if i > p {
                    assert(s[i - 1] == y);
                }
            }
        }
        assert(forall|y: u64| v@.contains(y) <==> (old(v)@.contains(y) || y == x));
        assert(strictly_increasing(v@));
    }
}

/// Takes `x` out of a strictly increasing list; nothing if it is not there.
pub(crate) fn sorted_remove(v: &mut Vec<u64>, x: u64)
    requires
        strictly_increasing(old(v)@),
    ensures
        strictly_increasing(final(v)@),
        forall|y: u64| final(v)@.contains(y) <==> (old(v)@.contains(y) && y != x),
{
    let p = lower_bound(v, x);
    if p < v.len() && v[p] == x {
        let ghost s = v@;
        v.remove(p);
        proof {
            assert forall|y: u64| v@.contains(y) <==> (s.contains(y) && y != x) by {
                if s.contains(y) && y != x {
                    let i = choose|i: int| 0 <= i < s.len() && s[i] == y;
                    if i < p {
                        assert(v@[i] == y);
                    } else {
                        assert(i != p);
                        assert(v@[i - 1] == y);
                    }
                }
                if v@.contains(y) {
                    let i = choose|i: int| 0 <= i < v@.len() && v@[i] == y;
                    if i < p {
                        assert(s[i] == y);
                        assert(s[i] < x);
                    } else {
                        assert(s[i + 1] == y);
                        assert(s[p as int] < s[i + 1]);
                    }
                }
            }
        }
    } else {
        proof {
            assert forall|y: u64| v@.contains(y) implies y != x by {
                let i = choose|i: int| 0 <= i < v@.len() && v@[i] == y;
                if i < p {
                } else if i > p {
                    assert(v@[p as int] < v@[i]);
                    assert(v@[p as int] >= x);
                }
            }
        }
    }
}

} // verus!
