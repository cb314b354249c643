//! Plane movement decisions. The arithmetic on positions and speeds is done
//! by the caller in floating point; what is decided here is which way a plane
//! turns and accelerates, and when its position is broadcast.

use vstd::prelude::*;

use crate::component::KeyState;
use crate::system::specials::SpecialKind;

verus! {

/// The minimum time between two regular position updates of a plane.
pub const UPDATE_INTERVAL: u64 = 1_000_000_000;

/// How a plane moves this frame.
#[derive(Debug, Copy, Clone, PartialEq, Eq, Structural)]
pub struct MovementPlan {
    /// Whether the boost multiplies its acceleration and top speed.
    pub boosted: bool,
    /// Whether it turns left (its rotation decreases).
    pub turn_left: bool,
    /// Whether it turns right, after any left turn.
    pub turn_right: bool,
    /// The direction in which it accelerates, if any, in eighths of a turn
    /// (multiples of π/4) added to its rotation after turning.
    pub direction: Option<i8>,
}

/// Whether a plane strafes: a mohawk holding the special key with left or
/// right.
pub open spec fn spec_strafing(k: KeyState, special: SpecialKind) -> bool {
    special == SpecialKind::Strafe && k.special && (k.left || k.right)
}

/// The movement of a plane. A strafing plane does not turn but moves
/// sideways, and forward or backward keys tilt that sideways direction by an
/// eighth of a turn; otherwise left and right turn the plane, up accelerates
/// forward and down backward.
pub open spec fn spec_movement_plan(k: KeyState, special: SpecialKind, active: bool) -> MovementPlan {
    let strafe = spec_strafing(k, special);
    let side: Option<i8> = if strafe {
        if k.right {
            Some(2i8)
        } else {
            Some(-2i8)
        }
    } else {
        None
    };
    let direction = if k.up {
        match side {
            Some(a) => if k.right {
                Some((a - 1) as i8)
            } else if k.left {
                Some((a + 1) as i8)
            } else {
                Some(a)
            },
            None => Some(0i8),
        }
    } else if k.down {
        match side {
            Some(a) => if k.right {
                Some((a + 1) as i8)
            } else if k.left {
                Some((a - 1) as i8)
            } else {
                Some(a)
            },
            None => Some(4i8),
        }
    } else {
        side
    };
    MovementPlan {
        boosted: special == SpecialKind::Boost && active,
        turn_left: !strafe && k.left,
        turn_right: !strafe && k.right,
        direction,
    }
}

pub fn movement_plan(keystate: &KeyState, special: SpecialKind, active: bool) -> (r: MovementPlan)
    ensures
        r == spec_movement_plan(*keystate, special, active),
{
    let strafe = special == SpecialKind::Strafe && keystate.special && (keystate.left
        || keystate.right);
    let mut movement_angle: Option<i8> = None;
    if strafe {
        if keystate.left {
            movement_angle = Some(-2);
        }
        if keystate.right {
            movement_angle = Some(2);
        }
    }
    if keystate.up {
        if let Some(angle) = movement_angle {
            if keystate.right {
                movement_angle = Some(angle - 1);
            } else if keystate.left {
                movement_angle = Some(angle + 1);
            }
        } else {
            movement_angle = Some(0);
        }
    } else if keystate.down {
        if let Some(angle) = movement_angle {
            if keystate.right {
                movement_angle = Some(angle + 1);
            } else if keystate.left {
                movement_angle = Some(angle - 1);
            }
        } else {
            movement_angle = Some(4);
        }
    }
    MovementPlan {
        boosted: special == SpecialKind::Boost && active,
        turn_left: !strafe && keystate.left,
        turn_right: !strafe && keystate.right,
        direction: movement_angle,
    }
}

/// A plane that strafes never turns, and a plane that does not strafe
/// accelerates straight forward or straight backward.
pub proof fn lemma_strafe_excludes_turning(k: KeyState, special: SpecialKind, active: bool)
    ensures
        spec_strafing(k, special) ==> !spec_movement_plan(k, special, active).turn_left
            && !spec_movement_plan(k, special, active).turn_right,
        !spec_strafing(k, special) ==> match spec_movement_plan(k, special, active).direction {
            Some(d) => d == 0 || d == 4,
            None => true,
        },
{
}

/// The direction of a plane, in eighths of a turn from its nose (positive to
/// the right). A strafing plane moves sideways, to the right when right is
/// held and otherwise to the left; forward tilts that by an eighth towards
/// the nose and backward by an eighth towards the tail, so the backward
/// direction mirrors the forward one. A plane that does not strafe moves
/// forward with up, backward with down alone, and otherwise does not
/// accelerate; it turns with left and right.
pub proof fn lemma_movement_directions(k: KeyState, special: SpecialKind, active: bool)
    ensures
        spec_strafing(k, special) && k.right ==> spec_movement_plan(k, special, active).direction
            == if k.up {
            Some(1i8)
        } else if k.down {
            Some(3i8)
        } else {
            Some(2i8)
        },
        spec_strafing(k, special) && !k.right ==> spec_movement_plan(k, special, active).direction
            == if k.up {
            Some(-1i8)
        } else if k.down {
            Some(-3i8)
        } else {
            Some(-2i8)
        },
        !spec_strafing(k, special) ==> spec_movement_plan(k, special, active).direction == if k.up {
            Some(0i8)
        } else if k.down {
            Some(4i8)
        } else {
            None
        },
        !spec_strafing(k, special) ==> spec_movement_plan(k, special, active).turn_left == k.left
            && spec_movement_plan(k, special, active).turn_right == k.right,
        spec_movement_plan(k, special, active).boosted == (special == SpecialKind::Boost && active),
{
}

/// The entity whose position a spectator takes: the player it watches, unless
/// it watches nobody or itself, in which case it stays at the origin.
pub fn spectator_position_source(player: u64, target: Option<u64>) -> (r: Option<u64>)
    ensures
        r == match target {
            Some(t) => if t != player {
                Some(t)
            } else {
                None
            },
            None => None,
        },
{
    match target {
        Some(t) if t != player => Some(t),
        _ => None,
    }
}

/// Whether the regular position update of a player is due: it is alive and
/// its last update is at least `UPDATE_INTERVAL` old. When it is, the time of
/// its last update becomes `this_frame`.
pub fn update_packet_due(alive: bool, last_update: &mut u64, this_frame: u64) -> (r: bool)
    ensures
        r == (alive && this_frame >= *old(last_update) && this_frame - *old(last_update)
            >= UPDATE_INTERVAL),
        *final(last_update) == if r { this_frame } else { *old(last_update) },
{
    if !alive {
        return false;
    }
    if this_frame < *last_update || this_frame - *last_update < UPDATE_INTERVAL {
        return false;
    }
    *last_update = this_frame;
    true
}

} // verus!
