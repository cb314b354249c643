//! Lists of entities used as sets: sorted, without repetition.

use vstd::prelude::*;

verus! {

/// Whether a list is strictly increasing, so that it holds each of its
/// entities once, in order.
pub open spec fn strictly_increasing(s: Seq<u64>) -> bool {
    forall|i: int, j: int| 0 <= i < j < s.len() ==> s[i] < s[j]
}

/// The entities of `v`, sorted and each once: the result of sorting a list
/// and removing repetitions.
pub fn sorted_unique(v: &Vec<u64>) -> (r: Vec<u64>)
    ensures
        strictly_increasing(r@),
        forall|x: u64| r@.contains(x) <==> v@.contains(x),
{
    let mut r: Vec<u64> = Vec::new();
    let n = v.len();
    let mut k: usize = 0;
    while k < n
        invariant
            n == v@.len(),
            k <= n,
            strictly_increasing(r@),
            forall|x: u64| r@.contains(x) <==> v@.take(k as int).contains(x),
        decreases n - k,
    {
        let x = v[k];
        let mut i: usize = 0;
        while i < r.len() && r[i] < x
            invariant
                i <= r@.len(),
                forall|j: int| 0 <= j < i ==> r@[j] < x,
            decreases r@.len() - i,
        {
            i = i + 1;
        }
        let ghost before = r@;
        if i < r.len() && r[i] == x {
            assert(r@[i as int] == x);
            assert(r@.contains(x));
        } else {
            r.insert(i, x);
            assert(forall|j: int| 0 <= j < i ==> r@[j] == before[j]);
            assert(forall|j: int| i < j < r@.len() ==> r@[j] == before[j - 1]);
            assert(r@[i as int] == x);
            assert forall|a: int, b: int| 0 <= a < b < r@.len() implies r@[a] < r@[b] by {
                if b == i {
                } else if a == i {
                    assert(before[b - 1] >= x);
                    if b - 1 > i {
                        assert(before[i as int] < before[b - 1]);
                    }
                } else {
                }
            }
            assert forall|y: u64| r@.contains(y) implies before.contains(y) || y == x by {
                let j = choose|j: int| 0 <= j < r@.len() && r@[j] == y;
                if j < i {
                    assert(before[j] == y);
                } else if j > i {
                    assert(before[j - 1] == y);
                }
            }
            assert forall|y: u64| before.contains(y) || y == x implies r@.contains(y) by {
                if y == x {
                    assert(r@[i as int] == x);
                } else {
                    let j = choose|j: int| 0 <= j < before.len() && before[j] == y;
                    if j < i {
                        assert(r@[j] == y);
                    } else {
                        assert(r@[j + 1] == y);
                    }
                }
            }
        }
        let ghost pre = v@.take(k as int);
        let ghost post = v@.take(k + 1);
        assert forall|y: u64| post.contains(y) <==> pre.contains(y) || y == x by {
            if post.contains(y) {
                let j = choose|j: int| 0 <= j < post.len() && post[j] == y;
                if j < k {
                    assert(pre[j] == y);
                }
            }
            if pre.contains(y) {
                let j = choose|j: int| 0 <= j < pre.len() && pre[j] == y;
                assert(post[j] == y);
            }
            if y == x {
                assert(post[k as int] == y);
            }
        }
        assert(forall|y: u64| r@.contains(y) <==> before.contains(y) || y == x);
        assert(forall|y: u64| before.contains(y) <==> pre.contains(y));
        assert(forall|y: u64| r@.contains(y) <==> post.contains(y));
        k = k + 1;
    }
    assert(v@.take(n as int) =~= v@);
    r
}

} // verus!
