//! Calibration line sets and their projection onto the ground plane.
//!
//! The projection itself (`pixel_to_ground`) is the external camera
//! projection interface: it is carried out by a collaborator and handed in
//! per point, so the verified part is the assembly and the structured error
//! context naming exactly which point of which line failed.

use vstd::prelude::*;

use crate::frames::{Ground, Pixel, Point};
use crate::line::{Line, Line2};

verus! {

/// A set of three named calibration lines in the frame `F`.
#[derive(Debug, PartialEq, Eq)]
#[verifier::reject_recursive_types(F)]
pub struct Lines<F> {
    pub border_line: Line2<F>,
    pub goal_box_line: Line2<F>,
    pub connecting_line: Line2<F>,
}

impl<F> Copy for Lines<F> {}

impl<F> Clone for Lines<F> {
    fn clone(&self) -> (r: Self)
        ensures
            r == *self,
    {
        Lines {
            border_line: self.border_line.clone(),
            goal_box_line: self.goal_box_line.clone(),
            connecting_line: self.connecting_line.clone(),
        }
    }
}

/// Projected field lines per camera, as the vision pipeline reports them.
#[derive(Debug, PartialEq, Eq)]
pub struct ProjectedFieldLines {
    pub top: Vec<Line2<Pixel>>,
    pub bottom: Vec<Line2<Pixel>>,
}

/// Why the external projection could not map a pixel to the ground plane.
#[derive(Clone, Copy, Debug, PartialEq, Eq, Structural)]
pub enum ProjectionError {
    NotOnProjectionPlane,
    BehindCamera,
}

/// Which calibration line a failure belongs to.
#[derive(Clone, Copy, Debug, PartialEq, Eq, Structural)]
pub enum LineLabel {
    Border,
    GoalBox,
    Connecting,
}

/// Which endpoint of the line failed.
#[derive(Clone, Copy, Debug, PartialEq, Eq, Structural)]
pub enum PointSlot {
    Start,
    End,
}

/// A projection failure with the context of the point that caused it.
#[derive(Clone, Copy, Debug, PartialEq, Eq, Structural)]
pub enum LinesError {
    NotProjected { source: ProjectionError, which: LineLabel, point: PointSlot },
}

impl Lines<Pixel> {
    /// Assembles the ground-frame lines from the six per-point results of
    /// the external projection, in reading order; the first failure wins
    /// and is reported with the name of its point.
    pub fn to_projected(
        &self,
        border_start: Result<Point<Ground>, ProjectionError>,
        border_end: Result<Point<Ground>, ProjectionError>,
        goal_box_start: Result<Point<Ground>, ProjectionError>,
        goal_box_end: Result<Point<Ground>, ProjectionError>,
        connecting_start: Result<Point<Ground>, ProjectionError>,
        connecting_end: Result<Point<Ground>, ProjectionError>,
    ) -> (r: Result<Lines<Ground>, LinesError>)
        ensures
            (r is Ok) <==> (border_start is Ok && border_end is Ok && goal_box_start is Ok
                && goal_box_end is Ok && connecting_start is Ok && connecting_end is Ok),
            r matches Ok(lines) ==> {
                &&& lines.border_line == Line(border_start->Ok_0, border_end->Ok_0)
                &&& lines.goal_box_line == Line(goal_box_start->Ok_0, goal_box_end->Ok_0)
                &&& lines.connecting_line == Line(connecting_start->Ok_0, connecting_end->Ok_0)
            },
            border_start matches Err(e) ==> r == Err::<Lines<Ground>, LinesError>(
                LinesError::NotProjected {
                    source: e,
                    which: LineLabel::Border,
                    point: PointSlot::Start,
                },
            ),
            border_start is Ok ==> (border_end matches Err(e) ==> r == Err::<
                Lines<Ground>,
                LinesError,
            >(
                LinesError::NotProjected {
                    source: e,
                    which: LineLabel::Border,
                    point: PointSlot::End,
                },
            )),
            border_start is Ok && border_end is Ok ==> (goal_box_start matches Err(e) ==> r
                == Err::<Lines<Ground>, LinesError>(
                LinesError::NotProjected {
                    source: e,
                    which: LineLabel::GoalBox,
                    point: PointSlot::Start,
                },
            )),
            border_start is Ok && border_end is Ok && goal_box_start is Ok ==> (
            goal_box_end matches Err(e) ==> r == Err::<Lines<Ground>, LinesError>(
                LinesError::NotProjected {
                    source: e,
                    which: LineLabel::GoalBox,
                    point: PointSlot::End,
                },
            )),
            border_start is Ok && border_end is Ok && goal_box_start is Ok && goal_box_end is Ok
                ==> (connecting_start matches Err(e) ==> r == Err::<Lines<Ground>, LinesError>(
                LinesError::NotProjected {
                    source: e,
                    which: LineLabel::Connecting,
                    point: PointSlot::Start,
                },
            )),
            border_start is Ok && border_end is Ok && goal_box_start is Ok && goal_box_end is Ok
                && connecting_start is Ok ==> (connecting_end matches Err(e) ==> r == Err::<
                Lines<Ground>,
                LinesError,
            >(
                LinesError::NotProjected {
                    source: e,
                    which: LineLabel::Connecting,
                    point: PointSlot::End,
                },
            )),
    {
        let border_line = Line(
            project_point_and_map_error(border_start, LineLabel::Border, PointSlot::Start)?,
            project_point_and_map_error(border_end, LineLabel::Border, PointSlot::End)?,
        );
        let goal_box_line = Line(
            project_point_and_map_error(goal_box_start, LineLabel::GoalBox, PointSlot::Start)?,
            project_point_and_map_error(goal_box_end, LineLabel::GoalBox, PointSlot::End)?,
        );
        let connecting_line = Line(
            project_point_and_map_error(
                connecting_start,
                LineLabel::Connecting,
                PointSlot::Start,
            )?,
            project_point_and_map_error(connecting_end, LineLabel::Connecting, PointSlot::End)?,
        );
        Ok(Lines { border_line, goal_box_line, connecting_line })
    }
}

/// Wraps one projection result with the context of its point.
fn project_point_and_map_error(
    projected: Result<Point<Ground>, ProjectionError>,
    which: LineLabel,
    point: PointSlot,
) -> (r: Result<Point<Ground>, LinesError>)
    ensures
        projected matches Ok(p) ==> r == Ok::<Point<Ground>, LinesError>(p),
        projected matches Err(e) ==> r == Err::<Point<Ground>, LinesError>(
            LinesError::NotProjected { source: e, which, point },
        ),
{
    match projected {
        Ok(point_on_ground) => Ok(point_on_ground),
        Err(source) => Err(LinesError::NotProjected { source, which, point }),
    }
}

} // verus!
