//! Motion intents: the closed set of commands handed to the external motion
//! executor once per cycle, and the step geometry they are built from.

use vstd::prelude::*;

use crate::arc::Arc;
use crate::frames::{Ground, Point};
use crate::line_segment::LineSegment;
use crate::orientation::Orientation;
use crate::transform::Rotation;

verus! {

/// Which camera a head motion should favor.
#[derive(Clone, Copy, Debug, PartialEq, Eq, Structural)]
pub enum CameraPosition {
    Top,
    Bottom,
}

/// What the head should do while the body moves.
#[derive(Clone, Copy, Debug, PartialEq, Eq)]
pub enum HeadMotion {
    LookAt { target: Point<Ground>, camera: Option<CameraPosition> },
    LookForward,
}

/// What an arm should do while walking.
#[derive(Clone, Copy, Debug, PartialEq, Eq, Structural)]
pub enum ArmMotion {
    Swing,
    PullTight,
}

/// How the body heading is chosen along a path.
#[derive(Clone, Copy, Debug, PartialEq, Eq)]
pub enum OrientationMode {
    AlignWithPath,
    Override(Rotation),
}

/// One piece of a planned path.
#[derive(Clone, Copy, Debug, PartialEq, Eq)]
pub enum PathSegment {
    LineSegment(LineSegment<Ground>),
    Arc(Arc<Ground>, Orientation),
}

/// The per-cycle motion intent: a closed union dispatched by pattern match.
#[derive(Debug, PartialEq, Eq)]
pub enum MotionCommand {
    Stand { head: HeadMotion },
    Walk {
        head: HeadMotion,
        path: Vec<PathSegment>,
        left_arm: ArmMotion,
        right_arm: ArmMotion,
        orientation_mode: OrientationMode,
    },
    InWalkKick { head: HeadMotion, kicking_side: crate::world::Side },
}

/// The largest step the walking engine may take, in ticks and milliradians.
#[derive(Clone, Copy, Debug, PartialEq, Eq, Structural)]
pub struct Step {
    pub forward: i64,
    pub left: i64,
    pub turn: i64,
}

} // verus!
