//! The special abilities of the planes: the predator boost, the tornado
//! multishot, the goliath repel, the prowler cloak and the mohawk strafe.

use vstd::prelude::*;

use crate::component::KeyState;
use crate::protocol::datatypes::keycode::KeyCode;
use crate::system::sets::{sorted_unique, strictly_increasing};

verus! {

/// The special ability that a plane has.
#[derive(Debug, Copy, Clone, PartialEq, Eq, Hash, Structural)]
pub enum SpecialKind {
    Boost,
    Multishot,
    Repel,
    Strafe,
    Stealth,
}

/// The time from `last` to `now`, or zero when `last` is later than `now`.
pub open spec fn spec_since(last: u64, now: u64) -> u64 {
    if now >= last {
        (now - last) as u64
    } else {
        0
    }
}

/// Whether at least `delay` has passed from `last` to `now`; no time has
/// passed when `last` is later than `now`.
pub open spec fn spec_elapsed(last: u64, now: u64, delay: u64) -> bool {
    spec_since(last, now) >= delay
}

fn elapsed(last: u64, now: u64, delay: u64) -> (r: bool)
    ensures
        r == spec_elapsed(last, now, delay),
{
    let since = if now >= last {
        now - last
    } else {
        0
    };
    since >= delay
}

/// A boosting predator whose energy no longer covers the boost stops
/// boosting. Returns whether an `EventBoost` that ends the boost is sent:
/// for every living predator short of energy, whether or not it was
/// boosting.
pub fn kill_predator_boost_when_out_of_energy(
    special: SpecialKind,
    enough_energy: bool,
    alive: bool,
    active: &mut bool,
) -> (r: bool)
    ensures
        r == (special == SpecialKind::Boost && !enough_energy && alive),
        *final(active) == if r { false } else { *old(active) },
{
    if special != SpecialKind::Boost {
        return false;
    }
    if enough_energy || !alive {
        return false;
    }
    *active = false;
    true
}

/// The new boost state of a predator after a key event, given the keys it
/// now holds.
pub open spec fn spec_boost_after_key(
    key: KeyCode,
    keystate: KeyState,
    special: SpecialKind,
    enough_energy: bool,
    active: bool,
) -> bool {
    if !(key == KeyCode::Up || key == KeyCode::Down || key == KeyCode::Special) || special
        != SpecialKind::Boost {
        active
    } else if !keystate.special {
        false
    } else if active {
        keystate.up || keystate.down
    } else {
        enough_energy && (keystate.up || keystate.down)
    }
}

/// Tracks the predator boost on a key event: holding the special key with up
/// or down boosts, when there is energy to start; releasing the special key,
/// or both up and down, ends it. Returns the `EventBoost` to send, carrying
/// the new state; one is sent exactly when the state changes.
pub fn track_predator_boost(
    key: KeyCode,
    keystate: &KeyState,
    special: SpecialKind,
    enough_energy: bool,
    active: &mut bool,
) -> (r: Option<bool>)
    ensures
        *final(active) == spec_boost_after_key(key, *keystate, special, enough_energy, *old(active)),
        r == if *final(active) != *old(active) {
            Some(*final(active))
        } else {
            None
        },
{
    match key {
        KeyCode::Up | KeyCode::Down | KeyCode::Special => {},
        _ => return None,
    }
    if special != SpecialKind::Boost {
        return None;
    }
    if !keystate.special {
        if *active {
            *active = false;
            return Some(false);
        }
        return None;
    }
    if *active {
        if !keystate.up && !keystate.down {
            *active = false;
            return Some(false);
        }
        None
    } else {
        if !enough_energy {
            return None;
        }
        if keystate.up || keystate.down {
            *active = true;
            return Some(true);
        }
        None
    }
}

/// Whether a tornado fires its multishot this frame: it holds the special
/// key, is alive, has the multishot, the delay since its last shot has
/// passed, and it has the energy.
pub fn tornado_special_fire(
    special: SpecialKind,
    special_key: bool,
    alive: bool,
    last_fire: u64,
    this_frame: u64,
    delay: u64,
    enough_energy: bool,
) -> (r: bool)
    ensures
        r == (special_key && alive && special == SpecialKind::Multishot && spec_elapsed(
            last_fire,
            this_frame,
            delay,
        ) && enough_energy),
{
    if !special_key || !alive {
        return false;
    }
    if special != SpecialKind::Multishot {
        return false;
    }
    if !elapsed(last_fire, this_frame, delay) || !enough_energy {
        return false;
    }
    true
}

/// Whether a goliath repels this frame: it has the repel, holds the special
/// key, is alive, the delay since its last special has passed and it has the
/// energy. When it does, its last special time becomes `this_frame`.
pub fn goliath_repel(
    special: SpecialKind,
    special_key: bool,
    alive: bool,
    last_special: &mut u64,
    this_frame: u64,
    delay: u64,
    enough_energy: bool,
) -> (r: bool)
    ensures
        r == (special == SpecialKind::Repel && special_key && alive && spec_elapsed(
            *old(last_special),
            this_frame,
            delay,
        ) && enough_energy),
        *final(last_special) == if r { this_frame } else { *old(last_special) },
{
    if special != SpecialKind::Repel {
        return false;
    }
    if !special_key || !alive || !elapsed(*last_special, this_frame, delay) || !enough_energy {
        return false;
    }
    *last_special = this_frame;
    true
}

/// The players and missiles that a repel pushes away, each once and in
/// order of entity.
pub fn repelled_entities(players: &Vec<u64>, missiles: &Vec<u64>) -> (r: (Vec<u64>, Vec<u64>))
    ensures
        strictly_increasing(r.0@),
        strictly_increasing(r.1@),
        forall|x: u64| r.0@.contains(x) <==> players@.contains(x),
        forall|x: u64| r.1@.contains(x) <==> missiles@.contains(x),
{
    (sorted_unique(players), sorted_unique(missiles))
}

/// What pressing the special key does to a prowler.
#[derive(Debug, Copy, Clone, PartialEq, Eq, Structural)]
pub struct Cloak {
    /// The new stealth state sent in an `EventStealth`.
    pub stealthed: bool,
    /// Whether going into stealth costs energy and restarts the delay.
    pub spend: bool,
}

/// A prowler toggles its cloak when it presses the special key while alive.
/// Cloaking needs the delay since the last special to have passed and the
/// energy, and spends them; uncloaking is always possible.
pub fn prowler_cloak(
    key: KeyCode,
    pressed: bool,
    special: SpecialKind,
    alive: bool,
    active: bool,
    last_special: u64,
    this_frame: u64,
    delay: u64,
    enough_energy: bool,
) -> (r: Option<Cloak>)
    ensures
        r == if key != KeyCode::Special || special != SpecialKind::Stealth || !pressed || !alive {
            None
        } else if active {
            Some(Cloak { stealthed: false, spend: false })
        } else if spec_elapsed(last_special, this_frame, delay) && enough_energy {
            Some(Cloak { stealthed: true, spend: true })
        } else {
            None
        },
{
    if key != KeyCode::Special {
        return None;
    }
    if special != SpecialKind::Stealth {
        return None;
    }
    if !pressed || !alive {
        return None;
    }
    if !active {
        if !elapsed(last_special, this_frame, delay) {
            return None;
        }
        if !enough_energy {
            return None;
        }
        return Some(Cloak { stealthed: true, spend: true });
    }
    Some(Cloak { stealthed: false, spend: false })
}

/// A cloaked prowler uncloaks when it fires, is hit or is repelled: whether
/// an `EventStealth` ending the stealth is sent.
pub fn prowler_decloak(special: SpecialKind, active: bool) -> (r: bool)
    ensures
        r == (special == SpecialKind::Stealth && active),
{
    special == SpecialKind::Stealth && active
}

/// Whether an entity hit by a missile, given by its special and whether the
/// special is active (`None` when it is not a player), is a cloaked prowler.
pub open spec fn spec_cloaked(e: Option<(SpecialKind, bool)>) -> bool {
    match e {
        Some((special, active)) => special == SpecialKind::Stealth && active,
        None => false,
    }
}

/// The players that a missile hit uncloaks: going through the entities it
/// hit in order, each cloaked prowler uncloaks, and the first entity that is
/// not a cloaked prowler ends the search.
pub open spec fn spec_decloak_on_hit(hit: Seq<(u64, Option<(SpecialKind, bool)>)>) -> Seq<u64>
    decreases hit.len(),
{
    if hit.len() == 0 {
        Seq::empty()
    } else if spec_cloaked(hit[0].1) {
        seq![hit[0].0] + spec_decloak_on_hit(hit.drop_first())
    } else {
        Seq::empty()
    }
}

/// The players that get an `EventStealth` ending their stealth when a
/// missile hits the given entities, each given with its special and whether
/// that is active (`None` for an entity that is not a player).
pub fn prowler_decloak_on_hit(hit: &Vec<(u64, Option<(SpecialKind, bool)>)>) -> (r: Vec<u64>)
    ensures
        r@ == spec_decloak_on_hit(hit@),
{
    let mut out: Vec<u64> = Vec::new();
    let n = hit.len();
    let mut i: usize = 0;
    assert(hit@.skip(0) =~= hit@);
    while i < n
        invariant
            n == hit@.len(),
            i <= n,
            spec_decloak_on_hit(hit@) == out@ + spec_decloak_on_hit(hit@.skip(i as int)),
        decreases n - i,
    {
        let (player, state) = hit[i];
        assert(hit@.skip(i as int)[0] == hit@[i as int]);
        assert(hit@.skip(i as int).drop_first() =~= hit@.skip(i + 1));
        let cloaked = match state {
            Some((special, active)) => special == SpecialKind::Stealth && active,
            None => false,
        };
        if !cloaked {
            assert(out@ + Seq::<u64>::empty() =~= out@);
            return out;
        }
        let ghost before = out@;
        out.push(player);
        assert(before + (seq![player] + spec_decloak_on_hit(hit@.skip(i + 1))) =~= out@
            + spec_decloak_on_hit(hit@.skip(i + 1)));
        i = i + 1;
    }
    assert(out@ + Seq::<u64>::empty() =~= out@);
    out
}

/// A mohawk pressing or releasing the special key (to strafe) needs its next
/// position update sent at once.
pub fn update_mohawk_on_strafe(key: KeyCode, special: SpecialKind) -> (r: bool)
    ensures
        r == (key == KeyCode::Special && special == SpecialKind::Strafe),
{
    key == KeyCode::Special && special == SpecialKind::Strafe
}

/// The boost state changes only with a key event that reports the new state,
/// and a predator boosts only while it holds the special key with up or down.
pub proof fn lemma_boost_only_with_keys(
    key: KeyCode,
    keystate: KeyState,
    special: SpecialKind,
    enough_energy: bool,
    active: bool,
)
    requires
        key == KeyCode::Up || key == KeyCode::Down || key == KeyCode::Special,
        special == SpecialKind::Boost,
    ensures
        spec_boost_after_key(key, keystate, special, enough_energy, active) ==> keystate.special
            && (keystate.up || keystate.down),
        !active && spec_boost_after_key(key, keystate, special, enough_energy, active)
            ==> enough_energy,
{
}

/// The boost of a predator after an `Up`, `Down` or `Special` key event: it
/// boosts exactly when it holds the special key together with up or down,
/// and was boosting already or has the energy to start. Any other key, or a
/// plane without the boost, leaves the state as it was.
pub proof fn lemma_boost_after_key(
    key: KeyCode,
    keystate: KeyState,
    special: SpecialKind,
    enough_energy: bool,
    active: bool,
)
    ensures
        (key == KeyCode::Up || key == KeyCode::Down || key == KeyCode::Special) && special
            == SpecialKind::Boost ==> spec_boost_after_key(
            key,
            keystate,
            special,
            enough_energy,
            active,
        ) == (keystate.special && (keystate.up || keystate.down) && (active || enough_energy)),
        !(key == KeyCode::Up || key == KeyCode::Down || key == KeyCode::Special) || special
            != SpecialKind::Boost ==> spec_boost_after_key(
            key,
            keystate,
            special,
            enough_energy,
            active,
        ) == active,
{
}

} // verus!
