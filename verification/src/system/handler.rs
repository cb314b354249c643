//! The decisions of the event handlers: who hears what, and the small
//! conversions of the packets they send.

use vstd::prelude::*;

use crate::component::KeyState;
use crate::system::command::{has_name, spec_has_name};
use crate::system::specials::SpecialKind;

verus! {

/// Which players a packet is sent to.
#[derive(Debug, Copy, Clone, PartialEq, Eq, Structural)]
pub enum Audience {
    /// The players that can see the position.
    Visible,
    /// The players of the team that can see the position.
    TeamVisible,
}

/// Who hears what a player says in a chat bubble, or sees its position
/// updates: a cloaked prowler is seen by its own team only.
pub fn say_audience(special: SpecialKind, active: bool) -> (r: Audience)
    ensures
        r == if special == SpecialKind::Stealth && active {
            Audience::TeamVisible
        } else {
            Audience::Visible
        },
{
    if special == SpecialKind::Stealth && active {
        Audience::TeamVisible
    } else {
        Audience::Visible
    }
}

/// Who is sent a position update, a bounce or a say of a player: its team
/// alone when it is stealthed.
pub fn update_audience(stealthed: bool) -> (r: Audience)
    ensures
        r == if stealthed {
            Audience::TeamVisible
        } else {
            Audience::Visible
        },
{
    if stealthed {
        Audience::TeamVisible
    } else {
        Audience::Visible
    }
}

/// The players that a whisper is sent to: the target, then the sender, and
/// the sender once when it whispers to itself.
pub fn whisper_recipients(sender: u64, target: u64) -> (r: Vec<u64>)
    ensures
        sender != target ==> r@ == seq![target, sender],
        sender == target ==> r@ == seq![sender],
{
    let mut r: Vec<u64> = Vec::new();
    if sender != target {
        r.push(target);
    }
    r.push(sender);
    r
}

/// The duration of a powerup in milliseconds as sent in a `PlayerPowerup`
/// packet: whole seconds and the milliseconds of the fraction, cut to the
/// low 32 bits.
pub fn powerup_duration_millis(secs: u64, nanos: u32) -> (r: u32)
    requires
        nanos < 1_000_000_000,
        secs * 1000 + nanos / 1_000_000 <= u64::MAX,
    ensures
        r == (secs * 1000 + nanos / 1_000_000) % 0x1_0000_0000,
{
    let total: u64 = secs * 1000 + (nanos / 1_000_000) as u64;
    assert(total as u32 == total % 0x1_0000_0000) by (bit_vector);
    total as u32
}

/// A count as sent in the detailed FFA scores: the value, or `u16::MAX` if it
/// does not fit.
pub fn saturate_u16(v: u64) -> (r: u16)
    ensures
        r == if v > u16::MAX {
            u16::MAX
        } else {
            v as u16
        },
{
    if v > u16::MAX as u64 {
        u16::MAX
    } else {
        v as u16
    }
}

/// The kind of entity that leaves a player's horizon.
#[derive(Debug, Copy, Clone, PartialEq, Eq, Structural)]
pub enum LeaveHorizonType {
    Player,
    Mob,
}

/// What a player is told when an entity leaves its horizon: a player leaves
/// as a player, and a missile or a mob as a mob. An entity that is none of
/// these, or more than one, is not reported.
pub fn leave_horizon_type(is_player: bool, is_missile: bool, is_mob: bool) -> (r: Option<
    LeaveHorizonType,
>)
    ensures
        r == if is_player && !is_missile && !is_mob {
            Some(LeaveHorizonType::Player)
        } else if !is_player && (is_missile != is_mob) {
            Some(LeaveHorizonType::Mob)
        } else {
            None
        },
{
    match (is_player, is_missile, is_mob) {
        (true, false, false) => Some(LeaveHorizonType::Player),
        (false, true, false) => Some(LeaveHorizonType::Mob),
        (false, false, true) => Some(LeaveHorizonType::Mob),
        _ => None,
    }
}

/// Why a missile went away.
#[derive(Debug, Copy, Clone, PartialEq, Eq, Structural)]
pub enum MissileDespawnType {
    HitPlayer,
    HitTerrain,
    LifetimeEnded,
}

/// How a despawn is described to clients.
#[derive(Debug, Copy, Clone, PartialEq, Eq, Structural)]
pub enum DespawnType {
    LifetimeEnded,
    Collided,
}

/// The packets sent when a missile despawns: the despawn type, and whether a
/// `MobDespawnCoords` packet (for the explosion) is sent before it, which is
/// for every missile that hit something.
pub fn missile_despawn(ty: MissileDespawnType) -> (r: (DespawnType, bool))
    ensures
        r == if ty == MissileDespawnType::LifetimeEnded {
            (DespawnType::LifetimeEnded, false)
        } else {
            (DespawnType::Collided, true)
        },
{
    let despawn = match ty {
        MissileDespawnType::HitPlayer => DespawnType::Collided,
        MissileDespawnType::HitTerrain => DespawnType::Collided,
        MissileDespawnType::LifetimeEnded => DespawnType::LifetimeEnded,
    };
    (despawn, ty != MissileDespawnType::LifetimeEnded)
}

/// The players that a missile kills, in order and each once: those whose
/// health fell to zero or below by its hit.
pub open spec fn spec_killed(hits: Seq<(u64, bool)>) -> Seq<u64>
    decreases hits.len(),
{
    if hits.len() == 0 {
        Seq::empty()
    } else {
        let rest = spec_killed(hits.drop_last());
        if hits.last().1 && !rest.contains(hits.last().0) {
            rest.push(hits.last().0)
        } else {
            rest
        }
    }
}

/// The kill events of a missile hit: each player hit, with whether its
/// health is now zero or below, is killed once however often it is hit.
pub fn players_killed(hits: &Vec<(u64, bool)>) -> (r: Vec<u64>)
    ensures
        r@ == spec_killed(hits@),
{
    let mut out: Vec<u64> = Vec::new();
    let n = hits.len();
    let mut i: usize = 0;
    while i < n
        invariant
            n == hits@.len(),
            i <= n,
            out@ == spec_killed(hits@.take(i as int)),
        decreases n - i,
    {
        assert(hits@.take(i + 1).drop_last() =~= hits@.take(i as int));
        let (player, dead) = hits[i];
        if dead && !crate::system::visibility::contains(&out, player) {
            out.push(player);
        }
        i = i + 1;
    }
    assert(hits@.take(n as int) =~= hits@);
    out
}

/// The players that a missile hits, each given with whether it is alive and
/// whether its health is zero or below after the hit: the living ones, each
/// with that second flag. Dead players take no hit.
pub open spec fn spec_alive_hits(entries: Seq<(u64, bool, bool)>) -> Seq<(u64, bool)>
    decreases entries.len(),
{
    if entries.len() == 0 {
        Seq::empty()
    } else {
        let rest = spec_alive_hits(entries.drop_last());
        let e = entries.last();
        if e.1 {
            rest.push((e.0, e.2))
        } else {
            rest
        }
    }
}

/// The players of a list of hits.
pub open spec fn spec_hit_players(hits: Seq<(u64, bool)>) -> Seq<u64> {
    hits.map_values(|h: (u64, bool)| h.0)
}

/// The events of a missile hitting players, each given with whether it is
/// alive and whether its health is zero or below after the hit: the players
/// hit (the living ones, in order, one `PlayerHit` each), then the players
/// killed (once each). All the hits are dispatched before any kill.
pub fn missile_hits(entries: &Vec<(u64, bool, bool)>) -> (r: (Vec<u64>, Vec<u64>))
    ensures
        r.0@ == spec_hit_players(spec_alive_hits(entries@)),
        r.1@ == spec_killed(spec_alive_hits(entries@)),
{
    let mut hits: Vec<(u64, bool)> = Vec::new();
    let mut players: Vec<u64> = Vec::new();
    let n = entries.len();
    let mut i: usize = 0;
    while i < n
        invariant
            n == entries@.len(),
            i <= n,
            hits@ == spec_alive_hits(entries@.take(i as int)),
            players@ == spec_hit_players(hits@),
        decreases n - i,
    {
        assert(entries@.take(i + 1).drop_last() =~= entries@.take(i as int));
        let (player, alive, dead) = entries[i];
        if alive {
            hits.push((player, dead));
            players.push(player);
            assert(players@ =~= spec_hit_players(hits@));
        }
        i = i + 1;
    }
    assert(entries@.take(n as int) =~= entries@);
    let killed = players_killed(&hits);
    (players, killed)
}

/// Every player killed by a missile was hit by it.
pub proof fn lemma_killed_were_hit(hits: Seq<(u64, bool)>, x: u64)
    ensures
        spec_killed(hits).contains(x) ==> spec_hit_players(hits).contains(x),
    decreases hits.len(),
{
    if hits.len() > 0 {
        let init = hits.drop_last();
        lemma_killed_were_hit(init, x);
        if spec_killed(hits).contains(x) {
            if spec_killed(init).contains(x) {
                let j = choose|j: int| 0 <= j < spec_hit_players(init).len() && spec_hit_players(init)[j] == x;
                assert(spec_hit_players(hits)[j] == x);
            } else {
                let k = hits.len() - 1;
                assert(spec_killed(hits) == spec_killed(init).push(hits.last().0));
                assert(spec_killed(init).push(hits.last().0).last() == hits.last().0);
                assert(x == hits.last().0);
                assert(spec_hit_players(hits)[k] == x);
            }
        }
    }
}

/// The plain state of a player that a respawn resets.
#[derive(Debug, Copy, Clone, PartialEq, Eq, Structural)]
pub struct PlayerFlags {
    pub keystate: KeyState,
    pub alive: bool,
    pub spectating: bool,
    pub special_active: bool,
    pub spectate_target: Option<u64>,
}

/// The name of the powerup that a respawned player is given, when the
/// configuration has one by that name.
pub open spec fn spec_spawn_shield() -> Seq<char> {
    seq!['s', 'p', 'a', 'w', 'n', '-', 's', 'h', 'i', 'e', 'l', 'd']
}

/// The state of a player after a respawn: no keys held, not stealthed,
/// alive, not spectating, its special inactive and watching nobody.
pub open spec fn spec_respawned_flags() -> PlayerFlags {
    PlayerFlags {
        keystate: KeyState {
            up: false,
            down: false,
            left: false,
            right: false,
            fire: false,
            special: false,
            stealthed: false,
        },
        alive: true,
        spectating: false,
        special_active: false,
        spectate_target: None,
    }
}

/// Resets the plain state of a respawning player, and says whether it is
/// given the spawn shield: whether the configuration, given by the names of
/// its powerups, has one named `spawn-shield`. Its position, speed, health and
/// energy are reset by the caller.
pub fn reset_player(flags: &mut PlayerFlags, powerups: &Vec<String>) -> (grant_shield: bool)
    ensures
        *final(flags) == spec_respawned_flags(),
        grant_shield == spec_has_name(powerups@, spec_spawn_shield()),
{
    *flags = PlayerFlags {
        keystate: KeyState {
            up: false,
            down: false,
            left: false,
            right: false,
            fire: false,
            special: false,
            stealthed: false,
        },
        alive: true,
        spectating: false,
        special_active: false,
        spectate_target: None,
    };
    let name = "spawn-shield";
    proof {
        reveal_strlit("spawn-shield");
        assert(name@ =~= spec_spawn_shield());
    }
    has_name(powerups, name)
}

/// No player is killed twice by one missile.
pub proof fn lemma_killed_once(hits: Seq<(u64, bool)>)
    ensures
        forall|i: int, j: int|
            0 <= i < j < spec_killed(hits).len() ==> spec_killed(hits)[i] != spec_killed(hits)[j],
    decreases hits.len(),
{
    if hits.len() > 0 {
        lemma_killed_once(hits.drop_last());
        let rest = spec_killed(hits.drop_last());
        if hits.last().1 && !rest.contains(hits.last().0) {
            let s = rest.push(hits.last().0);
            assert forall|i: int, j: int| 0 <= i < j < s.len() implies s[i] != s[j] by {
                if j == rest.len() {
                    assert(s[i] == rest[i]);
                }
            }
        }
    }
}

/// The players, each given with the player it watches, that watch `player`,
/// in order.
pub open spec fn spec_watchers(spectating: Seq<(u64, Option<u64>)>, player: u64) -> Seq<u64>
    decreases spectating.len(),
{
    if spectating.len() == 0 {
        Seq::empty()
    } else {
        let rest = spec_watchers(spectating.drop_last(), player);
        if spectating.last().1 == Some(player) {
            rest.push(spectating.last().0)
        } else {
            rest
        }
    }
}

/// The spectators that look for a new target when `player` starts to
/// spectate: those that were watching it.
pub fn watchers_of(spectating: &Vec<(u64, Option<u64>)>, player: u64) -> (r: Vec<u64>)
    ensures
        r@ == spec_watchers(spectating@, player),
{
    let mut out: Vec<u64> = Vec::new();
    let n = spectating.len();
    let mut i: usize = 0;
    while i < n
        invariant
            n == spectating@.len(),
            i <= n,
            out@ == spec_watchers(spectating@.take(i as int), player),
        decreases n - i,
    {
        assert(spectating@.take(i + 1).drop_last() =~= spectating@.take(i as int));
        let (watcher, target) = spectating[i];
        if target == Some(player) {
            out.push(watcher);
        }
        i = i + 1;
    }
    assert(spectating@.take(n as int) =~= spectating@);
    out
}

} // verus!
