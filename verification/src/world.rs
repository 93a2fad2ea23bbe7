//! The per-cycle world model: game-controller state, ball state and the
//! robot's own localization, rebuilt fresh every cycle.

use vstd::prelude::*;

use crate::frames::{Field, Ground, Point, Vector};
use crate::math::{abs_int, FIELD_LIMIT};
use crate::transform::Transform;

verus! {

/// Which half of the field, by the sign of the field y coordinate.
#[derive(Clone, Copy, Debug, PartialEq, Eq, Structural)]
pub enum Side {
    Left,
    Right,
}

/// Which team an event belongs to.
#[derive(Clone, Copy, Debug, PartialEq, Eq, Structural)]
pub enum Team {
    Own,
    Opponent,
    Uncertain,
}

/// The rules-driven phase of the game.
#[derive(Clone, Copy, Debug, PartialEq, Eq, Structural)]
pub enum GamePhase {
    Normal,
    PenaltyShootout { kicking_team: Team },
}

/// A set-play sub-state announced by the game controller.
#[derive(Clone, Copy, Debug, PartialEq, Eq, Structural)]
pub enum SubState {
    CornerKick,
    GoalKick,
    KickIn,
    PenaltyKick,
    PushingFreeKick,
}

/// The robot's rules-driven lifecycle phase.
#[derive(Clone, Copy, Debug, PartialEq, Eq, Structural)]
pub enum PrimaryState {
    Initial,
    Ready,
    Setup,
    Playing,
    Penalized,
    Finished,
}

/// The smoothed game state as the filter reports it.
#[derive(Clone, Copy, Debug, PartialEq, Eq, Structural)]
pub enum FilteredGameState {
    Initial,
    Ready,
    Setup,
    Playing { ball_is_free: bool },
    Finished,
}

/// Where a penalty shot is heading.
#[derive(Clone, Copy, Debug, PartialEq, Eq, Structural)]
pub enum PenaltyShotDirection {
    NotMoving,
    Left,
    Right,
}

/// The filtered game-controller snapshot consumed each cycle.
#[derive(Clone, Copy, Debug, PartialEq, Eq, Structural)]
pub struct FilteredGameControllerState {
    pub game_state: FilteredGameState,
    pub game_phase: GamePhase,
    pub kicking_team: Team,
    pub sub_state: Option<SubState>,
}

/// A ball observation in the robot's own ground frame.
#[derive(Clone, Copy, Debug, PartialEq, Eq)]
pub struct BallPosition {
    pub position: Point<Ground>,
    pub velocity: Vector<Ground>,
}

impl BallPosition {
    pub open spec fn wf(self) -> bool {
        &&& abs_int(self.position.x as int) <= FIELD_LIMIT
        &&& abs_int(self.position.y as int) <= FIELD_LIMIT
        &&& abs_int(self.velocity.x as int) <= FIELD_LIMIT
        &&& abs_int(self.velocity.y as int) <= FIELD_LIMIT
    }
}

/// The resolved ball state: positions in both frames, the hysteresis-smoothed
/// field side, and the penalty-shot direction if one was classified.
#[derive(Clone, Copy, Debug, PartialEq, Eq)]
pub struct BallState {
    pub ball_in_ground: Point<Ground>,
    pub ball_in_ground_velocity: Vector<Ground>,
    pub ball_in_field: Point<Field>,
    pub field_side: Side,
    pub penalty_shot_direction: Option<PenaltyShotDirection>,
}

impl BallState {
    pub open spec fn wf(self) -> bool {
        &&& self.ball_in_ground.wf()
        &&& self.ball_in_ground_velocity.wf()
        &&& self.ball_in_field.wf()
        &&& abs_int(self.ball_in_ground.x as int) <= 4 * FIELD_LIMIT
        &&& abs_int(self.ball_in_ground.y as int) <= 4 * FIELD_LIMIT
        &&& abs_int(self.ball_in_field.x as int) <= 4 * FIELD_LIMIT
        &&& abs_int(self.ball_in_field.y as int) <= 4 * FIELD_LIMIT
        &&& abs_int(self.ball_in_ground_velocity.x as int) <= 4 * FIELD_LIMIT
        &&& abs_int(self.ball_in_ground_velocity.y as int) <= 4 * FIELD_LIMIT
    }

    /// The ball assumed at the kick-off point, carried back into the ground
    /// frame through the inverse localization.
    pub fn new_at_center(ground_to_field: &Transform<Ground, Field>) -> (r: BallState)
        requires
            ground_to_field.bounded(),
        ensures
            r.ball_in_field.x == 0,
            r.ball_in_field.y == 0,
            r.ball_in_ground.x == crate::transform::spec_apply_x(
                crate::transform::spec_inverse(*ground_to_field),
                0,
                0,
            ),
            r.ball_in_ground.y == crate::transform::spec_apply_y(
                crate::transform::spec_inverse(*ground_to_field),
                0,
                0,
            ),
            r.ball_in_ground_velocity.x == 0,
            r.ball_in_ground_velocity.y == 0,
            r.field_side == Side::Left,
            r.penalty_shot_direction is None,
    {
        let field_to_ground = ground_to_field.inverse();
        let ball_in_ground = field_to_ground.apply_point(Point::origin());
        BallState {
            ball_in_ground,
            ball_in_ground_velocity: Vector::zero(),
            ball_in_field: Point::origin(),
            field_side: Side::Left,
            penalty_shot_direction: None,
        }
    }
}

/// The robot's own state: its localization on the field, when one is known.
#[derive(Clone, Copy, Debug, PartialEq, Eq)]
pub struct RobotState {
    pub ground_to_field: Option<Transform<Ground, Field>>,
}

/// One cycle's world snapshot for behavior synthesis.
#[derive(Clone, Copy, Debug, PartialEq, Eq)]
pub struct WorldState {
    pub ball: Option<BallState>,
    pub rule_ball: Option<BallState>,
    pub filtered_game_controller_state: Option<FilteredGameControllerState>,
    pub robot: RobotState,
}

impl WorldState {
    pub open spec fn wf(self) -> bool {
        &&& (self.ball matches Some(b) ==> b.wf())
        &&& (self.rule_ball matches Some(b) ==> b.wf())
        &&& (self.robot.ground_to_field matches Some(t) ==> t.bounded() && abs_int(t.x as int)
            <= FIELD_LIMIT && abs_int(t.y as int) <= FIELD_LIMIT)
    }
}

} // verus!
