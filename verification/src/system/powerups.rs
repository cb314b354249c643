//! Expiring powerups.

use vstd::prelude::*;

verus! {

/// The players whose powerup has expired at `now`, in order.
pub open spec fn spec_powerups_expired(s: Seq<(u64, Option<u64>)>, now: u64) -> Seq<u64>
    decreases s.len(),
{
    if s.len() == 0 {
        Seq::empty()
    } else {
        let rest = spec_powerups_expired(s.drop_last(), now);
        match s.last().1 {
            Some(expiry) => if expiry <= now {
                rest.push(s.last().0)
            } else {
                rest
            },
            None => rest,
        }
    }
}

/// The powerup system for a frame: the players, each given with the expiry
/// time of its powerup if it has one, whose powerup expires at or before
/// `this_frame`. Each gets a `PowerupExpire` event and loses its powerup.
pub fn update(players: &Vec<(u64, Option<u64>)>, this_frame: u64) -> (r: Vec<u64>)
    ensures
        r@ == spec_powerups_expired(players@, this_frame),
{
    let mut out: Vec<u64> = Vec::new();
    let n = players.len();
    let mut i: usize = 0;
    while i < n
        invariant
            n == players@.len(),
            i <= n,
            out@ == spec_powerups_expired(players@.take(i as int), this_frame),
        decreases n - i,
    {
        assert(players@.take(i + 1).drop_last() =~= players@.take(i as int));
        match players[i].1 {
            Some(expiry) => {
                if expiry <= this_frame {
                    out.push(players[i].0);
                }
            },
            None => {},
        }
        i = i + 1;
    }
    assert(players@.take(n as int) =~= players@);
    out
}

} // verus!
