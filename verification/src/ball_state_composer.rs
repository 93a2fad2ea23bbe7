//! Merges the robot's own ball observation, the team's relayed observation
//! and the game phase into one ball state per cycle.
//!
//! The only state carried across cycles is the last known field side of the
//! ball; it flips only when the ball's field y coordinate crosses zero by
//! the hysteresis margin, so sensor noise near the centerline cannot make
//! the side chatter.

use vstd::prelude::*;

use crate::frames::{Field, Ground, Point, Vector};
use crate::transform::{spec_apply_x, spec_apply_y, spec_inverse, Transform};
use crate::world::{BallPosition, BallState, PenaltyShotDirection, PrimaryState, Side};

verus! {

/// Hysteresis margin on the ball's field y coordinate, in ticks.
pub const BALL_SIDE_HYSTERESIS: i64 = 1_000;

/// Threshold comparison with hysteresis: while the comparison held last
/// time, the threshold is lowered by the margin; while it did not, it is
/// raised, so small oscillations of `value` cannot flip the result.
pub open spec fn spec_greater_than_with_hysteresis(
    last: bool,
    value: int,
    threshold: int,
    hysteresis: int,
) -> bool {
    value > threshold + if last {
        -hysteresis
    } else {
        hysteresis
    }
}

/// Executable form of [`spec_greater_than_with_hysteresis`].
pub fn greater_than_with_hysteresis(last: bool, value: i64, threshold: i64, hysteresis: i64) -> (r:
    bool)
    requires
        -1_000_000_000 <= threshold <= 1_000_000_000,
        0 <= hysteresis <= 1_000_000_000,
    ensures
        r == spec_greater_than_with_hysteresis(
            last,
            value as int,
            threshold as int,
            hysteresis as int,
        ),
{
    if last {
        value > threshold - hysteresis
    } else {
        value > threshold + hysteresis
    }
}

/// The side the ball is classified on, given the side it was on before and
/// its field y coordinate.
pub open spec fn spec_ball_side(was: Side, field_y: int) -> Side {
    if spec_greater_than_with_hysteresis(
        was == Side::Left,
        field_y,
        0,
        BALL_SIDE_HYSTERESIS as int,
    ) {
        Side::Left
    } else {
        Side::Right
    }
}

/// Once the ball is on one side, the classification flips only when the
/// field y coordinate crosses zero by more than the hysteresis margin: from
/// `Left` it stays `Left` for every `y > -BALL_SIDE_HYSTERESIS` and flips
/// for every `y <= -BALL_SIDE_HYSTERESIS`, and symmetrically from `Right`.
pub proof fn lemma_ball_side_hysteresis(y: int)
    ensures
        y > -BALL_SIDE_HYSTERESIS ==> spec_ball_side(Side::Left, y) == Side::Left,
        y <= -BALL_SIDE_HYSTERESIS ==> spec_ball_side(Side::Left, y) == Side::Right,
        y > BALL_SIDE_HYSTERESIS ==> spec_ball_side(Side::Right, y) == Side::Left,
        y <= BALL_SIDE_HYSTERESIS ==> spec_ball_side(Side::Right, y) == Side::Right,
{
}

/// The composer's cross-cycle state: the hysteresis memory alone.
pub struct BallStateComposer {
    pub last_ball_field_side: Side,
}

impl BallStateComposer {
    pub fn new() -> (r: BallStateComposer)
        ensures
            r.last_ball_field_side == Side::Left,
    {
        BallStateComposer { last_ball_field_side: Side::Left }
    }

    /// One composition cycle. In `Ready` the ball is suppressed by rule;
    /// otherwise the robot's own observation wins, then a team observation
    /// carried through the localization; with neither there is no ball.
    /// The side memory is updated only when a localization is available.
    pub fn cycle(
        &mut self,
        primary_state: PrimaryState,
        ball_position: Option<&BallPosition>,
        team_ball: Option<&BallPosition>,
        robot_to_field: Option<&Transform<Ground, Field>>,
        penalty_shot_direction: Option<PenaltyShotDirection>,
    ) -> (r: Option<BallState>)
        requires
            ball_position matches Some(b) ==> b.wf(),
            team_ball matches Some(b) ==> b.wf(),
            robot_to_field matches Some(t) ==> t.bounded() && crate::math::abs_int(t.x as int) <= crate::math::FIELD_LIMIT
                && crate::math::abs_int(t.y as int) <= crate::math::FIELD_LIMIT,
        ensures
            (r is Some) <==> (primary_state != PrimaryState::Ready && (ball_position is Some || (
            team_ball is Some && robot_to_field is Some))),
            r is None ==> final(self).last_ball_field_side == old(self).last_ball_field_side,
            r matches Some(b) ==> ({
                let own = ball_position is Some;
                let pos_x = if own {
                    ball_position->Some_0.position.x as int
                } else {
                    spec_apply_x(
                        spec_inverse(*robot_to_field->Some_0),
                        team_ball->Some_0.position.x as int,
                        team_ball->Some_0.position.y as int,
                    )
                };
                let pos_y = if own {
                    ball_position->Some_0.position.y as int
                } else {
                    spec_apply_y(
                        spec_inverse(*robot_to_field->Some_0),
                        team_ball->Some_0.position.x as int,
                        team_ball->Some_0.position.y as int,
                    )
                };
                &&& b.ball_in_ground.x == pos_x
                &&& b.ball_in_ground.y == pos_y
                &&& b.ball_in_ground_velocity == (if own {
                    ball_position->Some_0.velocity
                } else {
                    Vector::<Ground> { x: 0i64, y: 0i64, frame: core::marker::PhantomData }
                })
                &&& b.penalty_shot_direction == penalty_shot_direction
                &&& (robot_to_field matches Some(t) ==> {
                    &&& b.ball_in_field.x == spec_apply_x(*t, pos_x, pos_y)
                    &&& b.ball_in_field.y == spec_apply_y(*t, pos_x, pos_y)
                    &&& b.field_side == spec_ball_side(
                        old(self).last_ball_field_side,
                        b.ball_in_field.y as int,
                    )
                    &&& final(self).last_ball_field_side == b.field_side
                })
                &&& (robot_to_field is None ==> {
                    &&& b.ball_in_field.x == pos_x
                    &&& b.ball_in_field.y == pos_y
                    &&& b.field_side == Side::Left
                    &&& final(self).last_ball_field_side == old(self).last_ball_field_side
                })
            }),
    {
        match (primary_state, ball_position, team_ball, robot_to_field) {
            (PrimaryState::Ready, _, _, _) => None,
            (_, Some(ball_position), _, robot_to_field) => Some(
                self.create_ball_state(
                    ball_position.position,
                    ball_position.velocity,
                    robot_to_field,
                    penalty_shot_direction,
                ),
            ),
            (_, None, Some(team_ball), Some(robot_to_field)) => {
                let field_to_ground = robot_to_field.inverse();
                let own_position = field_to_ground.apply_point(team_ball.position.retagged());
                Some(
                    self.create_ball_state(
                        own_position.retagged(),
                        Vector::zero(),
                        Some(robot_to_field),
                        penalty_shot_direction,
                    ),
                )
            },
            _ => None,
        }
    }

    /// Resolves one ball position into a [`BallState`], updating the side
    /// memory when a localization is available and defaulting to `Left`
    /// without touching the memory when none is.
    fn create_ball_state(
        &mut self,
        position: Point<Ground>,
        velocity: Vector<Ground>,
        robot_to_field: Option<&Transform<Ground, Field>>,
        penalty_shot_direction: Option<PenaltyShotDirection>,
    ) -> (r: BallState)
        requires
            crate::math::abs_int(position.x as int) <= 4 * crate::math::FIELD_LIMIT,
            crate::math::abs_int(position.y as int) <= 4 * crate::math::FIELD_LIMIT,
            velocity.wf(),
            robot_to_field matches Some(t) ==> t.bounded() && crate::math::abs_int(t.x as int) <= crate::math::FIELD_LIMIT
                && crate::math::abs_int(t.y as int) <= crate::math::FIELD_LIMIT,
        ensures
            r.ball_in_ground == position,
            r.ball_in_ground_velocity == velocity,
            r.penalty_shot_direction == penalty_shot_direction,
            robot_to_field matches Some(t) ==> {
                &&& r.ball_in_field.x == spec_apply_x(*t, position.x as int, position.y as int)
                &&& r.ball_in_field.y == spec_apply_y(*t, position.x as int, position.y as int)
                &&& r.field_side == spec_ball_side(
                    old(self).last_ball_field_side,
                    r.ball_in_field.y as int,
                )
                &&& final(self).last_ball_field_side == r.field_side
            },
            robot_to_field is None ==> {
                &&& r.ball_in_field.x == position.x
                &&& r.ball_in_field.y == position.y
                &&& r.field_side == Side::Left
                &&& final(self).last_ball_field_side == old(self).last_ball_field_side
            },
    {
        let was_in_left_half = self.last_ball_field_side == Side::Left;
        match robot_to_field {
            Some(robot_to_field) => {
                let ball_in_field = robot_to_field.apply_point(position);
                let is_in_left_half = greater_than_with_hysteresis(
                    was_in_left_half,
                    ball_in_field.y,
                    0,
                    BALL_SIDE_HYSTERESIS,
                );
                let field_side = if is_in_left_half {
                    Side::Left
                } else {
                    Side::Right
                };
                self.last_ball_field_side = field_side;
                BallState {
                    ball_in_ground: position,
                    ball_in_ground_velocity: velocity,
                    ball_in_field,
                    field_side,
                    penalty_shot_direction,
                }
            },
            None => BallState {
                ball_in_ground: position,
                ball_in_ground_velocity: velocity,
                ball_in_field: position.retagged(),
                field_side: Side::Left,
                penalty_shot_direction,
            },
        }
    }
}

} // verus!
