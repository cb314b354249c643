//! What each player sees: the entities within its horizon, and the events
//! sent when entities come into it or leave it.

use vstd::prelude::*;

use crate::system::sets::{sorted_unique, strictly_increasing};

verus! {

/// The entities of `a` that are not in `b`, in the order of `a`.
pub open spec fn spec_minus(a: Seq<u64>, b: Seq<u64>) -> Seq<u64>
    decreases a.len(),
{
    if a.len() == 0 {
        Seq::empty()
    } else {
        let rest = spec_minus(a.drop_last(), b);
        if b.contains(a.last()) {
            rest
        } else {
            rest.push(a.last())
        }
    }
}

/// Whether `x` is one of the entities of `v`.
pub fn contains(v: &Vec<u64>, x: u64) -> (r: bool)
    ensures
        r == v@.contains(x),
{
    let n = v.len();
    let mut i: usize = 0;
    while i < n
        invariant
            n == v@.len(),
            i <= n,
            forall|j: int| 0 <= j < i ==> v@[j] != x,
        decreases n - i,
    {
        if v[i] == x {
            return true;
        }
        i = i + 1;
    }
    false
}

/// The entities of `a` that are not in `b`.
pub fn minus(a: &Vec<u64>, b: &Vec<u64>) -> (r: Vec<u64>)
    ensures
        r@ == spec_minus(a@, b@),
{
    let mut out: Vec<u64> = Vec::new();
    let n = a.len();
    let mut i: usize = 0;
    while i < n
        invariant
            n == a@.len(),
            i <= n,
            out@ == spec_minus(a@.take(i as int), b@),
        decreases n - i,
    {
        assert(a@.take(i + 1).drop_last() =~= a@.take(i as int));
        if !contains(b, a[i]) {
            out.push(a[i]);
        }
        i = i + 1;
    }
    assert(a@.take(n as int) =~= a@);
    out
}

/// The changes to a player's horizon: the entities it no longer sees (those
/// it saw and does not see now) and the entities it newly sees.
pub fn horizon_changes(old: &Vec<u64>, new: &Vec<u64>) -> (r: (Vec<u64>, Vec<u64>))
    ensures
        r.0@ == spec_minus(old@, new@),
        r.1@ == spec_minus(new@, old@),
{
    (minus(old, new), minus(new, old))
}

/// What a player sees: the other players, the missiles and the mobs within
/// its horizon, each once.
pub fn visible_entities(
    player: u64,
    players: &Vec<u64>,
    missiles: &Vec<u64>,
    mobs: &Vec<u64>,
) -> (r: Vec<u64>)
    ensures
        strictly_increasing(r@),
        forall|x: u64|
            r@.contains(x) <==> ((players@.contains(x) && x != player) || missiles@.contains(x)
                || mobs@.contains(x)),
{
    let me = vec![player];
    let mut all = minus(players, &me);
    proof {
        assert forall|x: u64| all@.contains(x) <==> (players@.contains(x) && x != player) by {
            lemma_minus_contains(players@, me@, x);
            assert(me@[0] == player);
            if me@.contains(x) {
                let j = choose|j: int| 0 <= j < me@.len() && me@[j] == x;
            }
        }
    }
    let ghost own = all@;
    let mut m = missiles.clone();
    let mut b = mobs.clone();
    all.append(&mut m);
    all.append(&mut b);
    assert(all@ =~= own + missiles@ + mobs@);
    assert forall|x: u64| all@.contains(x) <==> (own.contains(x) || missiles@.contains(x)
        || mobs@.contains(x)) by {
        if all@.contains(x) {
            let j = choose|j: int| 0 <= j < all@.len() && all@[j] == x;
            if j < own.len() {
                assert(own[j] == x);
            } else if j < own.len() + missiles@.len() {
                assert(missiles@[j - own.len()] == x);
            } else {
                assert(mobs@[j - own.len() - missiles@.len()] == x);
            }
        }
        if own.contains(x) {
            let j = choose|j: int| 0 <= j < own.len() && own[j] == x;
            assert(all@[j] == x);
        }
        if missiles@.contains(x) {
            let j = choose|j: int| 0 <= j < missiles@.len() && missiles@[j] == x;
            assert(all@[own.len() + j] == x);
        }
        if mobs@.contains(x) {
            let j = choose|j: int| 0 <= j < mobs@.len() && mobs@[j] == x;
            assert(all@[own.len() + missiles@.len() + j] == x);
        }
    }
    sorted_unique(&all)
}

/// The players whose horizon is updated on `frame`, each given with the
/// frame it spawned on: all but those that spawned on `frame` itself, in
/// order.
pub open spec fn spec_horizon_players(spawn_frames: Seq<(u64, u64)>, frame: u64) -> Seq<u64>
    decreases spawn_frames.len(),
{
    if spawn_frames.len() == 0 {
        Seq::empty()
    } else {
        let rest = spec_horizon_players(spawn_frames.drop_last(), frame);
        if spawn_frames.last().1 != frame {
            rest.push(spawn_frames.last().0)
        } else {
            rest
        }
    }
}

/// Starts the horizon events of a frame: the frame counter goes up by one,
/// and the players to update are returned. Players that spawned on the new
/// frame are skipped and keep their visible sets.
pub fn horizon_frame(frame: &mut u64, spawn_frames: &Vec<(u64, u64)>) -> (r: Vec<u64>)
    requires
        *old(frame) < u64::MAX,
    ensures
        *final(frame) == *old(frame) + 1,
        r@ == spec_horizon_players(spawn_frames@, *final(frame)),
{
    *frame = *frame + 1;
    let now = *frame;
    let mut out: Vec<u64> = Vec::new();
    let n = spawn_frames.len();
    let mut i: usize = 0;
    while i < n
        invariant
            n == spawn_frames@.len(),
            i <= n,
            out@ == spec_horizon_players(spawn_frames@.take(i as int), now),
        decreases n - i,
    {
        assert(spawn_frames@.take(i + 1).drop_last() =~= spawn_frames@.take(i as int));
        let (player, spawned) = spawn_frames[i];
        if spawned != now {
            out.push(player);
        }
        i = i + 1;
    }
    assert(spawn_frames@.take(n as int) =~= spawn_frames@);
    out
}

/// The frame that a new entity records as its spawn frame: the current
/// frame, or 0 before the first frame.
pub fn spawn_frame(current: Option<u64>) -> (r: u64)
    ensures
        r == match current {
            Some(f) => f,
            None => 0,
        },
{
    match current {
        Some(f) => f,
        None => 0,
    }
}

/// A player's visible set after new missiles or a new mob appear within its
/// horizon: the entities it saw and the new ones, each once.
pub fn record_new_entities(visible: &Vec<u64>, new: &Vec<u64>) -> (r: Vec<u64>)
    ensures
        strictly_increasing(r@),
        forall|x: u64| r@.contains(x) <==> (visible@.contains(x) || new@.contains(x)),
{
    let mut all = visible.clone();
    let mut added = new.clone();
    let ghost a = visible@;
    all.append(&mut added);
    assert(all@ =~= a + new@);
    assert forall|x: u64| all@.contains(x) <==> (a.contains(x) || new@.contains(x)) by {
        if all@.contains(x) {
            let j = choose|j: int| 0 <= j < all@.len() && all@[j] == x;
            if j < a.len() {
                assert(a[j] == x);
            } else {
                assert(new@[j - a.len()] == x);
            }
        }
        if a.contains(x) {
            let j = choose|j: int| 0 <= j < a.len() && a[j] == x;
            assert(all@[j] == x);
        }
        if new@.contains(x) {
            let j = choose|j: int| 0 <= j < new@.len() && new@[j] == x;
            assert(all@[a.len() + j] == x);
        }
    }
    sorted_unique(&all)
}

/// An entity is in `spec_minus(a, b)` exactly when it is in `a` and not in
/// `b`.
pub proof fn lemma_minus_contains(a: Seq<u64>, b: Seq<u64>, x: u64)
    ensures
        spec_minus(a, b).contains(x) <==> (a.contains(x) && !b.contains(x)),
    decreases a.len(),
{
    if a.len() > 0 {
        lemma_minus_contains(a.drop_last(), b, x);
        let rest = spec_minus(a.drop_last(), b);
        if a.contains(x) && !a.drop_last().contains(x) {
            assert(a.last() == x) by {
                let j = choose|j: int| 0 <= j < a.len() && a[j] == x;
                if j < a.len() - 1 {
                    assert(a.drop_last()[j] == x);
                }
            }
        }
        if a.drop_last().contains(x) {
            let j = choose|j: int| 0 <= j < a.len() - 1 && a.drop_last()[j] == x;
            assert(a[j] == x);
        }
        if !b.contains(a.last()) {
            assert(rest.push(a.last()).last() == a.last());
            if rest.push(a.last()).contains(x) && x != a.last() {
                let j = choose|j: int| 0 <= j < rest.len() + 1 && rest.push(a.last())[j] == x;
                assert(rest[j] == x);
            }
            if rest.contains(x) {
                let j = choose|j: int| 0 <= j < rest.len() && rest[j] == x;
                assert(rest.push(a.last())[j] == x);
            }
        }
    }
}

/// The horizon events tell the whole change: an entity leaves the horizon
/// exactly when it was seen and is no longer, it enters exactly when it is
/// seen and was not before, and applying both to what was seen gives what is
/// seen now.
pub proof fn lemma_horizon_changes(old: Seq<u64>, new: Seq<u64>, x: u64)
    ensures
        spec_minus(old, new).contains(x) <==> (old.contains(x) && !new.contains(x)),
        spec_minus(new, old).contains(x) <==> (new.contains(x) && !old.contains(x)),
        new.contains(x) <==> ((old.contains(x) && !spec_minus(old, new).contains(x))
            || spec_minus(new, old).contains(x)),
{
    lemma_minus_contains(old, new, x);
    lemma_minus_contains(new, old, x);
}

} // verus!
