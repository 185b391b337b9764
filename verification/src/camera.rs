//! The discrete part of the camera's per-frame update: folding the frame's
//! movement requests into one camera-space direction.
//!
//! Rotating that direction into world space, clamping the speed and
//! integrating the position are floating-point work and stay with the
//! renderer front end; what is decided here is exact: which axes the held
//! keys add up to, with opposite keys cancelling before any clamping.

use vstd::prelude::*;
use crate::input::MoveDirection;
use crate::input::SceneAction;

verus! {

/// The camera-space unit axis a movement key stands for: x right, y up,
/// z out of the screen (so forward is negative z).
pub open spec fn spec_move_axis(direction: MoveDirection) -> (int, int, int) {
    match direction {
        MoveDirection::Forward => (0, 0, -1),
        MoveDirection::Left => (-1, 0, 0),
        MoveDirection::Backward => (0, 0, 1),
        MoveDirection::Right => (1, 0, 0),
        MoveDirection::Up => (0, 1, 0),
        MoveDirection::Down => (0, -1, 0),
    }
}

/// The sum of the axes of all movement requests in the sequence; rotation
/// requests contribute nothing.
pub open spec fn spec_sum_axes(actions: Seq<SceneAction>) -> (int, int, int)
    decreases actions.len(),
{
    if actions.len() == 0 {
        (0, 0, 0)
    } else {
        let rest = spec_sum_axes(actions.drop_last());
        match actions.last() {
            SceneAction::Move(direction) => {
                let axis = spec_move_axis(direction);
                (rest.0 + axis.0, rest.1 + axis.1, rest.2 + axis.2)
            },
            _ => rest,
        }
    }
}

/// Each component of the sum of axes is bounded by the number of actions.
proof fn lemma_sum_axes_bounded(actions: Seq<SceneAction>)
    ensures
        -actions.len() <= spec_sum_axes(actions).0 <= actions.len(),
        -actions.len() <= spec_sum_axes(actions).1 <= actions.len(),
        -actions.len() <= spec_sum_axes(actions).2 <= actions.len(),
    decreases actions.len(),
{
    if actions.len() > 0 {
        lemma_sum_axes_bounded(actions.drop_last());
    }
}

/// The camera-space unit axis a movement key stands for.
pub fn move_axis(direction: MoveDirection) -> (axis: (i128, i128, i128))
    ensures
        (axis.0 as int, axis.1 as int, axis.2 as int) == spec_move_axis(direction),
{
    match direction {
        MoveDirection::Forward => (0, 0, -1),
        MoveDirection::Left => (-1, 0, 0),
        MoveDirection::Backward => (0, 0, 1),
        MoveDirection::Right => (1, 0, 0),
        MoveDirection::Up => (0, 1, 0),
        MoveDirection::Down => (0, -1, 0),
    }
}

/// The sum of the mouse-look deltas of all rotation requests in the
/// sequence; movement requests contribute nothing.
pub open spec fn spec_sum_rotation_deltas(actions: Seq<SceneAction>) -> (int, int)
    decreases actions.len(),
{
    if actions.len() == 0 {
        (0, 0)
    } else {
        let rest = spec_sum_rotation_deltas(actions.drop_last());
        match actions.last() {
            SceneAction::RotateCamera { delta } => (rest.0 + delta.x, rest.1 + delta.y),
            _ => rest,
        }
    }
}

/// Each component of the sum of rotation deltas is bounded by the number of
/// actions times the range of one delta component.
proof fn lemma_sum_rotation_deltas_bounded(actions: Seq<SceneAction>)
    ensures
        -32768 * actions.len() <= spec_sum_rotation_deltas(actions).0 <= 32767 * actions.len(),
        -32768 * actions.len() <= spec_sum_rotation_deltas(actions).1 <= 32767 * actions.len(),
    decreases actions.len(),
{
    if actions.len() > 0 {
        lemma_sum_rotation_deltas_bounded(actions.drop_last());
    }
}

/// Folds a frame's scene actions into one mouse-look delta: the exact sum of
/// the rotation requests' deltas, still in thousandths of normalized screen
/// space. The caller scales it by the sensitivity and the camera's
/// projection, and applies it through the pitch clamp.
pub fn aggregate_rotation_deltas(actions: &Vec<SceneAction>) -> (sum: (i128, i128))
    ensures
        (sum.0 as int, sum.1 as int) == spec_sum_rotation_deltas(actions@),
{
    let mut sum: (i128, i128) = (0, 0);
    let mut i: usize = 0;
    while i < actions.len()
        invariant
            i <= actions.len(),
            (sum.0 as int, sum.1 as int) == spec_sum_rotation_deltas(
                actions@.subrange(0, i as int),
            ),
        decreases actions.len() - i,
    {
        proof {
            lemma_sum_rotation_deltas_bounded(actions@.subrange(0, i as int));
            let next = actions@.subrange(0, i + 1 as int);
            assert(next.drop_last() =~= actions@.subrange(0, i as int));
            assert(next.last() == actions@[i as int]);
            assert(actions@.subrange(0, i as int).len() <= i as int);
        }
        match actions[i] {
            SceneAction::RotateCamera { delta } => {
                sum = (sum.0 + delta.x as i128, sum.1 + delta.y as i128);
            },
            _ => {},
        }
        i = i + 1;
    }
    proof {
        assert(actions@.subrange(0, actions@.len() as int) =~= actions@);
    }
    sum
}

/// Folds a frame's scene actions into one camera-space movement direction:
/// the sum of the axes of the movement requests, so that simultaneous
/// opposite keys cancel exactly. The caller rotates the result into world
/// space and applies the speed clamp.
pub fn aggregate_move_axes(actions: &Vec<SceneAction>) -> (sum: (i128, i128, i128))
    ensures
        (sum.0 as int, sum.1 as int, sum.2 as int) == spec_sum_axes(actions@),
{
    let mut sum: (i128, i128, i128) = (0, 0, 0);
    let mut i: usize = 0;
    while i < actions.len()
        invariant
            i <= actions.len(),
            (sum.0 as int, sum.1 as int, sum.2 as int) == spec_sum_axes(
                actions@.subrange(0, i as int),
            ),
        decreases actions.len() - i,
    {
        proof {
            lemma_sum_axes_bounded(actions@.subrange(0, i as int));
            let next = actions@.subrange(0, i + 1 as int);
            assert(next.drop_last() =~= actions@.subrange(0, i as int));
            assert(next.last() == actions@[i as int]);
            assert(actions@.subrange(0, i as int).len() <= i as int);
        }
        match actions[i] {
            SceneAction::Move(direction) => {
                let axis = move_axis(direction);
                sum = (sum.0 + axis.0, sum.1 + axis.1, sum.2 + axis.2);
            },
            _ => {},
        }
        i = i + 1;
    }
    proof {
        assert(actions@.subrange(0, actions@.len() as int) =~= actions@);
    }
    sum
}

} // verus!
