//! Camera motion commands and the integer bookkeeping behind free-camera
//! movement.
//!
//! The camera itself flies through floating-point space, which stays with
//! the renderer.  What is decided here is *how far along each of the
//! camera's three axes* a set of simultaneously pressed movement commands
//! asks to go: each `Forward` contributes `+1` along the view axis and
//! each `Backward` contributes `-1`, and likewise for the right and up
//! axes.  The renderer scales the camera's basis vectors by these counts
//! to recover the velocity sum.

use vstd::prelude::*;

verus! {

/// A single movement command for the free camera.
#[derive(Clone, Copy, Debug, PartialEq, Eq, Structural)]
pub enum CameraMotion {
    Forward,
    Backward,
    Left,
    Right,
    Up,
    Down,
}

/// Contribution of one motion command along the camera's view axis.
pub open spec fn forward_weight(m: CameraMotion) -> int {
    match m {
        CameraMotion::Forward => 1,
        CameraMotion::Backward => -1,
        _ => 0,
    }
}

/// Contribution of one motion command along the camera's right axis.
pub open spec fn right_weight(m: CameraMotion) -> int {
    match m {
        CameraMotion::Right => 1,
        CameraMotion::Left => -1,
        _ => 0,
    }
}

/// Contribution of one motion command along the camera's up axis.
pub open spec fn up_weight(m: CameraMotion) -> int {
    match m {
        CameraMotion::Up => 1,
        CameraMotion::Down => -1,
        _ => 0,
    }
}

/// Net view-axis steps requested by a sequence of motion commands.
pub open spec fn forward_sum(s: Seq<CameraMotion>) -> int
    decreases s.len(),
{
    if s.len() == 0 {
        0
    } else {
        forward_sum(s.drop_last()) + forward_weight(s.last())
    }
}

/// Net right-axis steps requested by a sequence of motion commands.
pub open spec fn right_sum(s: Seq<CameraMotion>) -> int
    decreases s.len(),
{
    if s.len() == 0 {
        0
    } else {
        right_sum(s.drop_last()) + right_weight(s.last())
    }
}

/// Net up-axis steps requested by a sequence of motion commands.
pub open spec fn up_sum(s: Seq<CameraMotion>) -> int
    decreases s.len(),
{
    if s.len() == 0 {
        0
    } else {
        up_sum(s.drop_last()) + up_weight(s.last())
    }
}

/// Net number of steps requested along each camera axis by a set of
/// simultaneously pressed movement commands.
#[derive(Clone, Copy, Debug, PartialEq, Eq, Structural)]
pub struct MotionDeltas {
    pub forward: i64,
    pub right: i64,
    pub up: i64,
}

impl MotionDeltas {
    /// True when no net movement is requested, in which case the camera's
    /// position is left untouched.
    pub fn is_zero(&self) -> (r: bool)
        ensures
            r == (self.forward == 0 && self.right == 0 && self.up == 0),
    {
        self.forward == 0 && self.right == 0 && self.up == 0
    }
}

/// Each axis sum is bounded in magnitude by the number of commands.
pub proof fn lemma_axis_sums_bounded(s: Seq<CameraMotion>)
    ensures
        -s.len() <= forward_sum(s) <= s.len(),
        -s.len() <= right_sum(s) <= s.len(),
        -s.len() <= up_sum(s) <= s.len(),
    decreases s.len(),
{
    if s.len() > 0 {
        lemma_axis_sums_bounded(s.drop_last());
    }
}

/// Net axis deltas of the given movement commands: the `forward` field is
/// the number of `Forward` commands minus the number of `Backward` ones,
/// and likewise for `right` and `up`.
pub fn motion_deltas(directions: &Vec<CameraMotion>) -> (r: MotionDeltas)
    requires
        directions@.len() <= i64::MAX,
    ensures
        r.forward == forward_sum(directions@),
        r.right == right_sum(directions@),
        r.up == up_sum(directions@),
{
    let mut forward: i64 = 0;
    let mut right: i64 = 0;
    let mut up: i64 = 0;
    let mut i: usize = 0;
    while i < directions.len()
        invariant
            i <= directions@.len(),
            directions@.len() <= i64::MAX,
            forward == forward_sum(directions@.take(i as int)),
            right == right_sum(directions@.take(i as int)),
            up == up_sum(directions@.take(i as int)),
        decreases directions@.len() - i,
    {
        proof {
            lemma_axis_sums_bounded(directions@.take(i as int));
            assert(directions@.take(i + 1).drop_last() =~= directions@.take(i as int));
            assert(directions@.take(i + 1).last() == directions@[i as int]);
        }
        match directions[i] {
            CameraMotion::Forward => forward = forward + 1,
            CameraMotion::Backward => forward = forward - 1,
            CameraMotion::Right => right = right + 1,
            CameraMotion::Left => right = right - 1,
            CameraMotion::Up => up = up + 1,
            CameraMotion::Down => up = up - 1,
        }
        i = i + 1;
    }
    proof {
        assert(directions@.take(directions@.len() as int) =~= directions@);
    }
    MotionDeltas { forward, right, up }
}

} // verus!
