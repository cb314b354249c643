//! Choosing which collisions count. The geometry is done by the caller in
//! floating point; each candidate pair arrives with a distance key that
//! orders the pairs by distance.

use vstd::prelude::*;

verus! {

/// Terrain collisions are checked on every other frame, and also on any frame
/// that comes more than this long after the last one.
pub const LATE_FRAME: u64 = 30_000_000;

/// Advances the frame counter and says whether player-terrain collisions are
/// checked on this frame: on even frames, or when the frame is late.
pub fn check_collisions(frame_id: &mut u64, elapsed: u64) -> (r: bool)
    requires
        *old(frame_id) < u64::MAX,
    ensures
        *final(frame_id) == *old(frame_id) + 1,
        r == (*old(frame_id) % 2 == 0 || elapsed > LATE_FRAME),
{
    let id = *frame_id;
    *frame_id = id + 1;
    id % 2 == 0 || elapsed > LATE_FRAME
}

/// A candidate collision between an entity `a` and an entity `b`.
#[derive(Debug, Copy, Clone, PartialEq, Eq, Structural)]
pub struct CollisionPair {
    pub a: u64,
    pub a_layer: u16,
    pub b: u64,
    pub b_layer: u16,
    /// Orders the pairs by the distance between their centres.
    pub dist: u64,
}

/// The pairs whose two entities are on different layers (teams).
pub open spec fn spec_cross_layer(ps: Seq<CollisionPair>) -> Seq<CollisionPair>
    decreases ps.len(),
{
    if ps.len() == 0 {
        Seq::empty()
    } else {
        let rest = spec_cross_layer(ps.drop_last());
        if ps.last().a_layer != ps.last().b_layer {
            rest.push(ps.last())
        } else {
            rest
        }
    }
}

/// Keeps the pairs of entities on different layers, in order: missiles and
/// mobs do not hit their own team.
pub fn retain_cross_layer(pairs: &Vec<CollisionPair>) -> (r: Vec<CollisionPair>)
    ensures
        r@ == spec_cross_layer(pairs@),
{
    let mut out: Vec<CollisionPair> = Vec::new();
    let n = pairs.len();
    let mut i: usize = 0;
    while i < n
        invariant
            n == pairs@.len(),
            i <= n,
            out@ == spec_cross_layer(pairs@.take(i as int)),
        decreases n - i,
    {
        assert(pairs@.take(i + 1).drop_last() =~= pairs@.take(i as int));
        if pairs[i].a_layer != pairs[i].b_layer {
            out.push(pairs[i]);
        }
        i = i + 1;
    }
    assert(pairs@.take(n as int) =~= pairs@);
    out
}

/// The result of keeping, for each entity `a`, its nearest pair: one pair
/// per entity, in increasing order of entity; each is one of the candidates,
/// no candidate for its entity is nearer, and every entity of the candidates
/// has one.
pub open spec fn spec_nearest_per_entity(ps: Seq<CollisionPair>, r: Seq<CollisionPair>) -> bool {
    &&& forall|i: int, j: int| 0 <= i < j < r.len() ==> r[i].a < r[j].a
    &&& forall|i: int| 0 <= i < r.len() ==> ps.contains(#[trigger] r[i])
    &&& forall|i: int, k: int|
        0 <= i < r.len() && 0 <= k < ps.len() && ps[k].a == r[i].a ==> #[trigger] r[i].dist
            <= #[trigger] ps[k].dist
    &&& forall|k: int| 0 <= k < ps.len() ==> has_entity(r, #[trigger] ps[k].a)
}

/// Whether some pair of `r` is for entity `a`.
pub open spec fn has_entity(r: Seq<CollisionPair>, a: u64) -> bool {
    exists|i: int| 0 <= i < r.len() && r[i].a == a
}

proof fn lemma_nearest_replace(
    pre: Seq<CollisionPair>,
    p: CollisionPair,
    before: Seq<CollisionPair>,
    i: int,
    after: Seq<CollisionPair>,
)
    requires
        spec_nearest_per_entity(pre, before),
        0 <= i < before.len(),
        before[i].a == p.a,
        after == (if p.dist < before[i].dist {
            before.update(i, p)
        } else {
            before
        }),
    ensures
        spec_nearest_per_entity(pre.push(p), after),
{
    let post = pre.push(p);
    assert(after.len() == before.len());
    assert(forall|j: int| 0 <= j < after.len() ==> after[j].a == before[j].a);
    assert forall|x: int, y: int| 0 <= x < y < after.len() implies after[x].a < after[y].a by {
        assert(before[x].a < before[y].a);
    }
    assert forall|j: int| 0 <= j < after.len() implies post.contains(#[trigger] after[j]) by {
        if after[j] == p {
            assert(post[pre.len() as int] == p);
        } else {
            assert(after[j] == before[j]);
            let m = choose|m: int| 0 <= m < pre.len() && pre[m] == before[j];
            assert(post[m] == pre[m]);
        }
    }
    assert forall|j: int, m: int|
        0 <= j < after.len() && 0 <= m < post.len() && post[m].a == after[j].a implies #[trigger] after[j].dist
        <= #[trigger] post[m].dist by {
        if j != i {
            assert(after[j] == before[j]);
            if m == pre.len() {
                if j < i {
                    assert(before[j].a < before[i].a);
                } else {
                    assert(before[i].a < before[j].a);
                }
            } else {
                assert(post[m] == pre[m]);
            }
        } else if m < pre.len() {
            assert(post[m] == pre[m]);
            assert(before[i].dist <= pre[m].dist);
        }
    }
    assert forall|m: int| 0 <= m < post.len() implies has_entity(after, #[trigger] post[m].a) by {
        if m < pre.len() {
            assert(post[m] == pre[m]);
            assert(has_entity(before, pre[m].a));
            let j = choose|j: int| 0 <= j < before.len() && before[j].a == pre[m].a;
            assert(after[j].a == before[j].a);
        } else {
            assert(after[i].a == post[m].a);
        }
    }
}

proof fn lemma_nearest_insert(
    pre: Seq<CollisionPair>,
    p: CollisionPair,
    before: Seq<CollisionPair>,
    i: int,
)
    requires
        spec_nearest_per_entity(pre, before),
        0 <= i <= before.len(),
        forall|j: int| 0 <= j < i ==> before[j].a < p.a,
        i < before.len() ==> before[i].a > p.a,
    ensures
        spec_nearest_per_entity(pre.push(p), before.insert(i, p)),
{
    let post = pre.push(p);
    let after = before.insert(i, p);
    assert(forall|j: int| 0 <= j < i ==> after[j] == before[j]);
    assert(forall|j: int| i < j < after.len() ==> after[j] == before[j - 1]);
    assert forall|x: int, y: int| 0 <= x < y < after.len() implies after[x].a < after[y].a by {
        if x == i {
            if y - 1 > i {
                assert(before[i].a < before[y - 1].a);
            }
        }
    }
    assert forall|j: int| 0 <= j < after.len() implies post.contains(#[trigger] after[j]) by {
        if j == i {
            assert(post[pre.len() as int] == p);
        } else {
            let jj = if j < i { j } else { j - 1 };
            assert(after[j] == before[jj]);
            let m = choose|m: int| 0 <= m < pre.len() && pre[m] == before[jj];
            assert(post[m] == pre[m]);
        }
    }
    assert forall|j: int, m: int|
        0 <= j < after.len() && 0 <= m < post.len() && post[m].a == after[j].a implies #[trigger] after[j].dist
        <= #[trigger] post[m].dist by {
        if j == i {
            if m < pre.len() {
                assert(post[m] == pre[m]);
                assert(has_entity(before, pre[m].a));
                let jj = choose|jj: int| 0 <= jj < before.len() && before[jj].a == pre[m].a;
                if jj > i {
                    assert(before[i].a < before[jj].a);
                }
            }
        } else {
            let jj = if j < i { j } else { j - 1 };
            assert(after[j] == before[jj]);
            if m < pre.len() {
                assert(post[m] == pre[m]);
            } else {
                if jj > i {
                    assert(before[i].a < before[jj].a);
                }
            }
        }
    }
    assert forall|m: int| 0 <= m < post.len() implies has_entity(after, #[trigger] post[m].a) by {
        if m < pre.len() {
            assert(post[m] == pre[m]);
            assert(has_entity(before, pre[m].a));
            let jj = choose|jj: int| 0 <= jj < before.len() && before[jj].a == pre[m].a;
            if jj < i {
                assert(after[jj] == before[jj]);
                assert(0 <= jj < after.len() && after[jj].a == post[m].a);
            } else {
                assert(after[jj + 1] == before[jj]);
                assert(0 <= jj + 1 < after.len() && after[jj + 1].a == post[m].a);
            }
        } else {
            assert(after[i].a == post[m].a);
        }
    }
}

/// Only the collision with the smallest distance counts for each entity, so
/// that a missile explodes once and hits one player. Among pairs at the same
/// distance any one may be kept.
pub fn nearest_per_entity(pairs: &Vec<CollisionPair>) -> (r: Vec<CollisionPair>)
    ensures
        spec_nearest_per_entity(pairs@, r@),
{
    let mut r: Vec<CollisionPair> = Vec::new();
    let n = pairs.len();
    let mut k: usize = 0;
    while k < n
        invariant
            n == pairs@.len(),
            k <= n,
            spec_nearest_per_entity(pairs@.take(k as int), r@),
        decreases n - k,
    {
        let p = pairs[k];
        assert(pairs@.take(k + 1) =~= pairs@.take(k as int).push(p));
        let mut i: usize = 0;
        while i < r.len() && r[i].a < p.a
            invariant
                i <= r@.len(),
                forall|j: int| 0 <= j < i ==> r@[j].a < p.a,
            decreases r@.len() - i,
        {
            i = i + 1;
        }
        let ghost before = r@;
        if i < r.len() && r[i].a == p.a {
            if p.dist < r[i].dist {
                r.set(i, p);
            }
            proof {
                lemma_nearest_replace(pairs@.take(k as int), p, before, i as int, r@);
            }
        } else {
            r.insert(i, p);
            proof {
                lemma_nearest_insert(pairs@.take(k as int), p, before, i as int);
            }
        }
        k = k + 1;
    }
    assert(pairs@.take(n as int) =~= pairs@);
    r
}

} // verus!
