//! Steering: which controls are held, and how the heading turns and wraps.
//!
//! A heading is a whole number of half-degrees, clockwise from straight up.
//! The turn rate of one and a half degrees per frame and the full turn of
//! 360 degrees are then the whole numbers 3 and 720, and a heading converts
//! to degrees exactly.

use crate::keys::{is_key_pressed, pressed, KeyManager};
use vstd::prelude::*;

verus! {

/// Half-degrees by which a held turn key changes the heading in one frame.
pub const ROTATION_SPEED: i32 = 3;

/// Half-degrees in a full turn.
pub const FULL_TURN: i32 = 720;

/// The three controls of the ship, as read at the start of a frame.
#[derive(Clone, Copy, Debug, PartialEq, Eq, Structural)]
pub struct Controls {
    /// Turn against the clock: the key `"Left"` is held.
    pub left: bool,
    /// Turn with the clock: the key `"Right"` is held.
    pub right: bool,
    /// Thrust along the heading: the key `"Up"` is held.
    pub up: bool,
}

/// Reads the three controls from the key states.
pub fn read_controls(key_manager: &KeyManager) -> (controls: Controls)
    ensures
        controls.left == pressed(key_manager@, "Left"@),
        controls.right == pressed(key_manager@, "Right"@),
        controls.up == pressed(key_manager@, "Up"@),
{
    Controls {
        left: is_key_pressed(key_manager, "Left"),
        right: is_key_pressed(key_manager, "Right"),
        up: is_key_pressed(key_manager, "Up"),
    }
}

/// The heading after the turn keys have acted for one frame: left takes the
/// rotation speed off, right puts it on, and both together cancel.
pub open spec fn turned(rot: int, controls: Controls) -> int {
    let after_left = if controls.left {
        rot - ROTATION_SPEED
    } else {
        rot
    };
    if controls.right {
        after_left + ROTATION_SPEED
    } else {
        after_left
    }
}

/// The heading after the wrap rule: a heading above a full turn loses one
/// full turn, a heading below zero gains one, and any other stays. The rule
/// corrects once; it is no remainder.
pub open spec fn wrapped(rot: int) -> int {
    if rot > FULL_TURN {
        rot - FULL_TURN
    } else if rot < 0 {
        rot + FULL_TURN
    } else {
        rot
    }
}

/// Applies the turn keys to the heading `rot` for one frame. The result is
/// not wrapped yet: thrust is taken along it before the wrap rule runs.
pub fn turn(rot: i32, controls: Controls) -> (next: i32)
    requires
        i32::MIN <= turned(rot as int, controls) <= i32::MAX,
    ensures
        next == turned(rot as int, controls),
{
    if controls.left && !controls.right {
        rot - ROTATION_SPEED
    } else if controls.right && !controls.left {
        rot + ROTATION_SPEED
    } else {
        rot
    }
}

/// Applies the wrap rule to the heading `rot`.
pub fn wrap(rot: i32) -> (next: i32)
    ensures
        next == wrapped(rot as int),
{
    if rot > FULL_TURN {
        rot - FULL_TURN
    } else if rot < 0 {
        rot + FULL_TURN
    } else {
        rot
    }
}

/// What one frame does about the heading.
#[derive(Clone, Copy, Debug, PartialEq, Eq, Structural)]
pub struct Steering {
    /// The heading along which this frame's thrust is added, if the thrust
    /// control is held: the turned heading, before the wrap rule.
    pub thrust: Option<i32>,
    /// The heading at the end of the frame: turned, then wrapped.
    pub rot: i32,
}

/// Steers for one frame: the turn keys act on the heading `rot`, thrust is
/// asked for along the turned heading if its control is held, and the wrap
/// rule gives the heading that the frame ends with.
pub fn steer(rot: i32, controls: Controls) -> (steering: Steering)
    requires
        i32::MIN <= turned(rot as int, controls) <= i32::MAX,
    ensures
        steering.rot == wrapped(turned(rot as int, controls)),
        steering.thrust.is_some() == controls.up,
        steering.thrust matches Some(along) ==> along == turned(rot as int, controls),
{
    let turned_rot = turn(rot, controls);
    Steering {
        thrust: if controls.up {
            Some(turned_rot)
        } else {
            None
        },
        rot: wrap(turned_rot),
    }
}

/// The heading after `frames` frames in which the same controls are held:
/// each frame turns and then wraps.
pub open spec fn held(rot: int, controls: Controls, frames: nat) -> int
    decreases frames,
{
    if frames == 0 {
        rot
    } else {
        wrapped(turned(held(rot, controls, (frames - 1) as nat), controls))
    }
}

/// The turn keys move the heading by at most the rotation speed.
pub proof fn lemma_turn_is_bounded(rot: int, controls: Controls)
    ensures
        rot - ROTATION_SPEED <= turned(rot, controls) <= rot + ROTATION_SPEED,
{
}

/// One correction is enough for one frame: a heading of at least zero and
/// under a full turn, moved by no more than the rotation speed, wraps to a
/// heading of at least zero and under a full turn again. The one exception
/// is a move that lands on the full turn exactly, which the wrap rule
/// leaves in place.
pub proof fn lemma_wrap_keeps_heading_in_range(rot: int, delta: int)
    requires
        0 <= rot < FULL_TURN,
        -ROTATION_SPEED <= delta <= ROTATION_SPEED,
        rot + delta != FULL_TURN,
    ensures
        0 <= wrapped(rot + delta) < FULL_TURN,
{
}

/// A heading between zero and a full turn, both included, stays there
/// through any frame. It ends the frame on the full turn itself only if it
/// began there and did not move, or was turned onto it.
pub proof fn lemma_frame_keeps_heading_within_full_turn(rot: int, controls: Controls)
    requires
        0 <= rot <= FULL_TURN,
    ensures
        0 <= wrapped(turned(rot, controls)) <= FULL_TURN,
        wrapped(turned(rot, controls)) == FULL_TURN <==> turned(rot, controls) == FULL_TURN,
{
}

/// The wrap rule changes a heading by a full turn or not at all, and leaves
/// every heading between zero and a full turn as it is.
pub proof fn lemma_wrap_corrects_once(rot: int)
    ensures
        wrapped(rot) == rot || wrapped(rot) == rot - FULL_TURN || wrapped(rot) == rot + FULL_TURN,
        0 <= rot <= FULL_TURN ==> wrapped(rot) == rot,
        rot > 2 * FULL_TURN ==> wrapped(rot) > FULL_TURN,
        rot < -FULL_TURN ==> wrapped(rot) < 0,
{
}

/// With no turn key held, or with both, the heading does not move.
pub proof fn lemma_idle_keeps_heading(rot: int, controls: Controls, frames: nat)
    requires
        0 <= rot <= FULL_TURN,
        controls.left == controls.right,
    ensures
        held(rot, controls, frames) == rot,
    decreases frames,
{
    if frames > 0 {
        lemma_idle_keeps_heading(rot, controls, (frames - 1) as nat);
    }
}

/// While only the left key is held, the heading falls by the rotation speed
/// each frame, modulo a full turn.
pub proof fn lemma_left_turns_count_down(rot: int, controls: Controls, frames: nat)
    requires
        0 <= rot < FULL_TURN,
        controls.left,
        !controls.right,
    ensures
        held(rot, controls, frames) == (rot - ROTATION_SPEED * frames) % (FULL_TURN as int),
    decreases frames,
{
    if frames > 0 {
        lemma_left_turns_count_down(rot, controls, (frames - 1) as nat);
    }
}

/// A full circle to the left ends where it began: 240 frames of the left key
/// alone bring every heading under a full turn back to itself.
pub proof fn lemma_full_circle_left(rot: int, controls: Controls)
    requires
        0 <= rot < FULL_TURN,
        controls.left,
        !controls.right,
    ensures
        held(rot, controls, 240) == rot,
{
    lemma_left_turns_count_down(rot, controls, 240);
}

/// While only the right key is held, the heading rises by the rotation
/// speed each frame and starts over just above zero once it has passed the
/// full turn; the full turn itself is reached and kept for one frame.
pub proof fn lemma_right_turns_count_up(rot: int, controls: Controls, frames: nat)
    requires
        0 < rot <= FULL_TURN,
        !controls.left,
        controls.right,
    ensures
        held(rot, controls, frames) == (rot + ROTATION_SPEED * frames - 1) % (FULL_TURN as int)
            + 1,
    decreases frames,
{
    if frames > 0 {
        lemma_right_turns_count_up(rot, controls, (frames - 1) as nat);
    }
}

/// A full circle to the right ends where it began, for every heading above
/// zero and up to the full turn. From zero it ends on the full turn instead.
pub proof fn lemma_full_circle_right(rot: int, controls: Controls)
    requires
        0 <= rot <= FULL_TURN,
        !controls.left,
        controls.right,
    ensures
        rot > 0 ==> held(rot, controls, 240) == rot,
        rot == 0 ==> held(rot, controls, 240) == FULL_TURN,
{
    if rot > 0 {
        lemma_right_turns_count_up(rot, controls, 240);
    } else {
        assert(held(rot, controls, 1) == ROTATION_SPEED) by {
            reveal_with_fuel(held, 2);
        }
        lemma_right_turns_count_up(ROTATION_SPEED as int, controls, 239);
        lemma_held_frames_add(rot, controls, 1, 239);
    }
}

/// Holding the same controls for `first` frames and for `more` frames after
/// them is holding them for `first + more` frames.
pub proof fn lemma_held_frames_add(rot: int, controls: Controls, first: nat, more: nat)
    ensures
        held(held(rot, controls, first), controls, more) == held(rot, controls, first + more),
    decreases more,
{
    if more > 0 {
        lemma_held_frames_add(rot, controls, first, (more - 1) as nat);
    }
}

} // verus!
