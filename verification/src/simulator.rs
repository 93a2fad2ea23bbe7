//! The decision core of the behavior simulator's stepping rule: where a
//! motion command moves a simulated robot within one cycle. The loop around
//! it — driving every robot, printing, mutating the pose — is simulator
//! plumbing outside the verified core.

use vstd::prelude::*;

use crate::frames::{Ground, Point};
use crate::math::{div_round_i128, div_round_spec};
use crate::motion::{MotionCommand, PathSegment};

verus! {

/// The position a simulated robot is advanced toward for one cycle: half
/// the end point of the first planned path segment of a walk; no movement
/// for the other commands. In-walk kicks are not simulated.
pub open spec fn spec_planned_step_position(command: MotionCommand) -> Option<Point<Ground>> {
    match command {
        MotionCommand::Walk { path, .. } => {
            let end = match path[0] {
                PathSegment::LineSegment(segment) => segment.1,
                PathSegment::Arc(arc, _) => arc.end,
            };
            Some(
                Point {
                    x: div_round_spec(end.x as int, 2) as i64,
                    y: div_round_spec(end.y as int, 2) as i64,
                    frame: core::marker::PhantomData,
                },
            )
        },
        _ => None,
    }
}

/// Executable form of [`spec_planned_step_position`].
pub fn planned_step_position(command: &MotionCommand) -> (r: Option<Point<Ground>>)
    requires
        command matches MotionCommand::Walk { path, .. } ==> path.len() >= 1,
        !(command matches MotionCommand::InWalkKick { .. }),
    ensures
        r == spec_planned_step_position(*command),
{
    match command {
        MotionCommand::Walk { path, .. } => {
            let end = match &path[0] {
                PathSegment::LineSegment(segment) => segment.1,
                PathSegment::Arc(arc, _) => arc.end,
            };
            proof {
                crate::math::lemma_div_round_mag(end.x as int, 2, 0x7fff_ffff_ffff_ffff);
                crate::math::lemma_div_round_mag(end.y as int, 2, 0x7fff_ffff_ffff_ffff);
            }
            let half_x = div_round_i128(end.x as i128, 2);
            let half_y = div_round_i128(end.y as i128, 2);
            Some(Point::new(half_x as i64, half_y as i64))
        },
        _ => None,
    }
}

} // verus!
