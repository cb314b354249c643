//! Key presses and missile fire.

use vstd::prelude::*;

use crate::component::KeyState;
use crate::protocol::datatypes::keycode::KeyCode;
use crate::system::specials::spec_elapsed;

verus! {

/// What the fire system needs to know of a player.
#[derive(Debug, Copy, Clone, PartialEq, Eq, Structural)]
pub struct FireInput {
    pub entity: u64,
    pub alive: bool,
    /// Whether the fire key is held.
    pub fire: bool,
    pub last_fire: u64,
    /// The minimum delay between two shots of the player's plane.
    pub fire_delay: u64,
    /// Whether the player has the energy for a shot.
    pub enough_energy: bool,
    /// Whether the player carries an inferno.
    pub inferno: bool,
}

/// The number of missiles that a player fires this frame: none unless it is
/// alive, holds the fire key, its fire delay has passed and it has the
/// energy; three with an inferno and one otherwise.
pub open spec fn spec_fire_count(p: FireInput, this_frame: u64) -> Option<u32> {
    if !p.alive || !p.fire || !spec_elapsed(p.last_fire, this_frame, p.fire_delay)
        || !p.enough_energy {
        None
    } else if p.inferno {
        Some(3)
    } else {
        Some(1)
    }
}

pub fn fire_count(p: &FireInput, this_frame: u64) -> (r: Option<u32>)
    ensures
        r == spec_fire_count(*p, this_frame),
{
    let since = if this_frame >= p.last_fire {
        this_frame - p.last_fire
    } else {
        0
    };
    if !p.alive || !p.fire || since < p.fire_delay || !p.enough_energy {
        return None;
    }
    let mut count: u32 = 1;
    if p.inferno {
        count = count * 2 + 1;
    }
    Some(count)
}

/// The shots of a frame: for each player that fires, in order, the player
/// and its missile count.
pub open spec fn spec_fire_events(ps: Seq<FireInput>, this_frame: u64) -> Seq<(u64, u32)>
    decreases ps.len(),
{
    if ps.len() == 0 {
        Seq::empty()
    } else {
        let rest = spec_fire_events(ps.drop_last(), this_frame);
        match spec_fire_count(ps.last(), this_frame) {
            Some(c) => rest.push((ps.last().entity, c)),
            None => rest,
        }
    }
}

/// The fire system for a frame: which players fire, and how many missiles
/// each. The energy of each shot is taken by the caller.
pub fn update(players: &Vec<FireInput>, this_frame: u64) -> (r: Vec<(u64, u32)>)
    ensures
        r@ == spec_fire_events(players@, this_frame),
{
    let mut events: Vec<(u64, u32)> = Vec::new();
    let n = players.len();
    let mut i: usize = 0;
    while i < n
        invariant
            n == players@.len(),
            i <= n,
            events@ == spec_fire_events(players@.take(i as int), this_frame),
        decreases n - i,
    {
        assert(players@.take(i + 1).drop_last() =~= players@.take(i as int));
        if let Some(c) = fire_count(&players[i], this_frame) {
            events.push((players[i].entity, c));
        }
        i = i + 1;
    }
    assert(players@.take(n as int) =~= players@);
    events
}

/// The key state after a key of the client changes.
pub open spec fn spec_keystate_after(k: KeyState, key: KeyCode, state: bool) -> KeyState {
    match key {
        KeyCode::Up => KeyState { up: state, ..k },
        KeyCode::Down => KeyState { down: state, ..k },
        KeyCode::Left => KeyState { left: state, ..k },
        KeyCode::Right => KeyState { right: state, ..k },
        KeyCode::Fire => KeyState { fire: state, ..k },
        KeyCode::Special => KeyState { special: state, ..k },
    }
}

/// Updates the key state when a new key event comes in, and records the
/// event as the player's last action, at `this_frame`.
pub fn update_keystate(
    key: KeyCode,
    state: bool,
    keystate: &mut KeyState,
    last_action: &mut u64,
    this_frame: u64,
)
    ensures
        *final(keystate) == spec_keystate_after(*old(keystate), key, state),
        *final(last_action) == this_frame,
{
    match key {
        KeyCode::Up => keystate.up = state,
        KeyCode::Down => keystate.down = state,
        KeyCode::Left => keystate.left = state,
        KeyCode::Right => keystate.right = state,
        KeyCode::Fire => keystate.fire = state,
        KeyCode::Special => keystate.special = state,
    }
    *last_action = this_frame;
}

/// Whether a key forces the next position update to be sent at once: the
/// keys that change the plane's direction or speed.
pub fn force_update_packet(key: KeyCode) -> (r: bool)
    ensures
        r == (key == KeyCode::Up || key == KeyCode::Down || key == KeyCode::Left || key
            == KeyCode::Right),
{
    match key {
        KeyCode::Up | KeyCode::Down | KeyCode::Left | KeyCode::Right => true,
        _ => false,
    }
}

/// A key event changes that key alone, and the last event for a key decides
/// its state.
pub proof fn lemma_keystate_last_event_wins(k: KeyState, key: KeyCode, a: bool, b: bool)
    ensures
        spec_keystate_after(spec_keystate_after(k, key, a), key, b) == spec_keystate_after(
            k,
            key,
            b,
        ),
        spec_keystate_after(k, key, a).stealthed == k.stealthed,
{
}

/// A key event sets the field of the key it names to the new state and
/// leaves every other field as it was: `Up` sets `up`, `Down` sets `down`,
/// `Left` sets `left`, `Right` sets `right`, `Fire` sets `fire` and `Special`
/// sets `special`; `stealthed` never changes.
pub proof fn lemma_key_event_sets_its_key(k: KeyState, key: KeyCode, state: bool)
    ensures
        spec_keystate_after(k, key, state).up == if key == KeyCode::Up { state } else { k.up },
        spec_keystate_after(k, key, state).down == if key == KeyCode::Down { state } else { k.down },
        spec_keystate_after(k, key, state).left == if key == KeyCode::Left { state } else { k.left },
        spec_keystate_after(k, key, state).right == if key == KeyCode::Right { state } else { k.right },
        spec_keystate_after(k, key, state).fire == if key == KeyCode::Fire { state } else { k.fire },
        spec_keystate_after(k, key, state).special == if key == KeyCode::Special {
            state
        } else {
            k.special
        },
        spec_keystate_after(k, key, state).stealthed == k.stealthed,
{
}

} // verus!
