//! Despawning missiles that have flown their range and mobs whose time is up.

use vstd::prelude::*;

verus! {

/// The entities whose flag is set, in order.
pub open spec fn spec_flagged(s: Seq<(u64, bool)>) -> Seq<u64>
    decreases s.len(),
{
    if s.len() == 0 {
        Seq::empty()
    } else if s.last().1 {
        spec_flagged(s.drop_last()).push(s.last().0)
    } else {
        spec_flagged(s.drop_last())
    }
}

/// The entities that expired before `now`, in order.
pub open spec fn spec_expired(s: Seq<(u64, u64)>, now: u64) -> Seq<u64>
    decreases s.len(),
{
    if s.len() == 0 {
        Seq::empty()
    } else if s.last().1 < now {
        spec_expired(s.drop_last(), now).push(s.last().0)
    } else {
        spec_expired(s.drop_last(), now)
    }
}

/// The missiles that have flown farther than their range; each is given with
/// whether its distance from its start exceeds its range.
pub fn despawn_missiles(missiles: &Vec<(u64, bool)>) -> (r: Vec<u64>)
    ensures
        r@ == spec_flagged(missiles@),
{
    let mut out: Vec<u64> = Vec::new();
    let n = missiles.len();
    let mut i: usize = 0;
    while i < n
        invariant
            n == missiles@.len(),
            i <= n,
            out@ == spec_flagged(missiles@.take(i as int)),
        decreases n - i,
    {
        assert(missiles@.take(i + 1).drop_last() =~= missiles@.take(i as int));
        if missiles[i].1 {
            out.push(missiles[i].0);
        }
        i = i + 1;
    }
    assert(missiles@.take(n as int) =~= missiles@);
    out
}

/// The mobs whose expiry time is before `this_frame`.
pub fn despawn_mobs(mobs: &Vec<(u64, u64)>, this_frame: u64) -> (r: Vec<u64>)
    ensures
        r@ == spec_expired(mobs@, this_frame),
{
    let mut out: Vec<u64> = Vec::new();
    let n = mobs.len();
    let mut i: usize = 0;
    while i < n
        invariant
            n == mobs@.len(),
            i <= n,
            out@ == spec_expired(mobs@.take(i as int), this_frame),
        decreases n - i,
    {
        assert(mobs@.take(i + 1).drop_last() =~= mobs@.take(i as int));
        if mobs[i].1 < this_frame {
            out.push(mobs[i].0);
        }
        i = i + 1;
    }
    assert(mobs@.take(n as int) =~= mobs@);
    out
}

/// The despawn system for a frame: the missiles whose lifetime ended and the
/// mobs that expired.
pub fn update(missiles: &Vec<(u64, bool)>, mobs: &Vec<(u64, u64)>, this_frame: u64) -> (r: (
    Vec<u64>,
    Vec<u64>,
))
    ensures
        r.0@ == spec_flagged(missiles@),
        r.1@ == spec_expired(mobs@, this_frame),
{
    (despawn_missiles(missiles), despawn_mobs(mobs, this_frame))
}

} // verus!
