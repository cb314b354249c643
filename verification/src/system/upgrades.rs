//! Keeping clients informed of their upgrades.

use vstd::prelude::*;

use crate::component::Upgrades;

verus! {

/// A player's upgrades and the upgrades it was last told of.
#[derive(Debug, Copy, Clone, PartialEq, Eq, Structural)]
pub struct UpgradeState {
    pub entity: u64,
    pub upgrades: Upgrades,
    pub prev: Upgrades,
}

/// A player's state once it has been told of its upgrades.
pub open spec fn spec_told(p: UpgradeState) -> UpgradeState {
    UpgradeState { prev: p.upgrades, ..p }
}

/// Upgrades with `n` more unused ones.
pub open spec fn spec_with_more_unused(u: Upgrades, n: u16) -> Upgrades {
    Upgrades { unused: (u.unused + n) as u16, ..u }
}

/// The players that must be told of their upgrades, in order, each with
/// whether its speed changed, which forces a position update too.
pub open spec fn spec_outdated(s: Seq<UpgradeState>) -> Seq<(u64, bool)>
    decreases s.len(),
{
    if s.len() == 0 {
        Seq::empty()
    } else {
        let rest = spec_outdated(s.drop_last());
        let p = s.last();
        if p.upgrades != p.prev {
            rest.push((p.entity, p.upgrades.speed != p.prev.speed))
        } else {
            rest
        }
    }
}

/// The upgrade system for a frame: finds the players whose upgrades changed
/// since they were last told, and records that they now are.
pub fn update(players: &mut Vec<UpgradeState>) -> (r: Vec<(u64, bool)>)
    ensures
        r@ == spec_outdated(old(players)@),
        final(players)@.len() == old(players)@.len(),
        forall|i: int|
            0 <= i < final(players)@.len() ==> #[trigger] final(players)@[i] == spec_told(
                old(players)@[i],
            ),
{
    let mut out: Vec<(u64, bool)> = Vec::new();
    let n = players.len();
    let mut i: usize = 0;
    while i < n
        invariant
            n == players@.len(),
            n == old(players)@.len(),
            i <= n,
            out@ == spec_outdated(old(players)@.take(i as int)),
            forall|j: int|
                0 <= j < i ==> #[trigger] players@[j] == spec_told(old(players)@[j]),
            forall|j: int| i <= j < n ==> #[trigger] players@[j] == old(players)@[j],
        decreases n - i,
    {
        assert(old(players)@.take(i + 1).drop_last() =~= old(players)@.take(i as int));
        let p = players[i];
        if p.upgrades != p.prev {
            out.push((p.entity, p.upgrades.speed != p.prev.speed));
        }
        players.set(i, UpgradeState { prev: p.upgrades, ..p });
        i = i + 1;
    }
    assert(old(players)@.take(n as int) =~= old(players)@);
    out
}

/// A player picked up an upgrade: it gains an unused upgrade, and it is told
/// of it at once, so its last told upgrades become the new ones.
pub fn on_upgrade_pickup(upgrades: &mut Upgrades, prev: &mut Upgrades)
    requires
        old(upgrades).unused < u16::MAX,
    ensures
        *final(upgrades) == spec_with_more_unused(*old(upgrades), 1),
        *final(prev) == *final(upgrades),
{
    upgrades.unused = upgrades.unused + 1;
    *prev = *upgrades;
}

/// A player received a powerup that carries `num` upgrades: they are added to
/// its unused upgrades, and it is told of them at once. A powerup without
/// upgrades changes nothing.
pub fn on_powerup_upgrades(upgrades: &mut Upgrades, prev: &mut Upgrades, num: u16)
    requires
        old(upgrades).unused + num <= u16::MAX,
    ensures
        num == 0 ==> *final(upgrades) == *old(upgrades) && *final(prev) == *old(prev),
        num != 0 ==> *final(upgrades) == spec_with_more_unused(*old(upgrades), num) && *final(prev)
            == *final(upgrades),
{
    if num == 0 {
        return;
    }
    upgrades.unused = upgrades.unused + num;
    *prev = *upgrades;
}

/// After the upgrade system runs, every player is up to date: running it
/// again finds nobody to tell.
pub proof fn lemma_update_settles(s: Seq<UpgradeState>)
    requires
        forall|i: int| 0 <= i < s.len() ==> #[trigger] s[i].prev == s[i].upgrades,
    ensures
        spec_outdated(s).len() == 0,
    decreases s.len(),
{
    if s.len() > 0 {
        assert(s.last().prev == s.last().upgrades);
        lemma_update_settles(s.drop_last());
    }
}

} // verus!
