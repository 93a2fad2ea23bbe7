//! Intercept-ball behavior synthesis: decides whether the ball can be cut
//! off on its current path and, if so, emits a single-segment straight-line
//! walk toward the interception point.
//!
//! The behavior never fires during a penalty kick or a penalty shootout,
//! whatever the ball is doing.

use core::marker::PhantomData;
use vstd::prelude::*;

use crate::frames::{Field, Ground, Point, Vector};
use crate::line::Line;
use crate::line_segment::LineSegment;
use crate::math::{lemma_div_round_zero, mul_wide};
use crate::motion::{ArmMotion, HeadMotion, MotionCommand, OrientationMode, PathSegment, Step};
use crate::parameters::InterceptBallParameters;
use crate::transform::{spec_rotate_x, spec_rotate_y, Rotation, Transform};
use crate::world::{
    BallState, FilteredGameControllerState, FilteredGameState, GamePhase, SubState, WorldState,
};

verus! {

/// Interception is suppressed during any penalty shootout phase and any
/// penalty-kick sub-state.
pub open spec fn spec_intercept_suppressed(state: Option<FilteredGameControllerState>) -> bool {
    state matches Some(s) && ((s.game_phase matches GamePhase::PenaltyShootout { .. })
        || s.sub_state == Some(SubState::PenaltyKick))
}

/// Interception requires play with the ball declared free, or no
/// game-controller state at all.
pub open spec fn spec_intercept_game_state_allows(
    state: Option<FilteredGameControllerState>,
) -> bool {
    match state {
        None => true,
        Some(s) => s.game_state == (FilteredGameState::Playing { ball_is_free: true }),
    }
}

/// The candidacy test: the ball is within the maximum distance strictly in
/// front of the robot, rolls toward the robot fast enough, and its
/// field-frame velocity is fast enough and directed into the own half. The
/// field-frame velocity is the rotated ground velocity, rounded to ticks.
pub open spec fn spec_ball_is_interception_candidate(
    ball: BallState,
    ground_to_field: Transform<Ground, Field>,
    parameters: InterceptBallParameters,
) -> bool {
    let dist_sq = ball.ball_in_ground.x * ball.ball_in_ground.x + ball.ball_in_ground.y
        * ball.ball_in_ground.y;
    let vfx = spec_rotate_x(
        ground_to_field,
        ball.ball_in_ground_velocity.x as int,
        ball.ball_in_ground_velocity.y as int,
    );
    let vfy = spec_rotate_y(
        ground_to_field,
        ball.ball_in_ground_velocity.x as int,
        ball.ball_in_ground_velocity.y as int,
    );
    &&& dist_sq < parameters.maximum_ball_distance * parameters.maximum_ball_distance
    &&& ball.ball_in_ground.x > 0
    &&& ball.ball_in_ground_velocity.x < -parameters.minimum_ball_velocity_towards_robot
    &&& vfx * vfx + vfy * vfy > parameters.minimum_ball_velocity * parameters.minimum_ball_velocity
    &&& vfx < -parameters.minimum_ball_velocity_towards_own_half
}

/// The ray the ball travels along, from its position toward its velocity.
pub open spec fn spec_ball_line(ball: BallState) -> Line<Ground> {
    Line(
        ball.ball_in_ground,
        Point {
            x: (ball.ball_in_ground.x + ball.ball_in_ground_velocity.x) as i64,
            y: (ball.ball_in_ground.y + ball.ball_in_ground_velocity.y) as i64,
            frame: PhantomData,
        },
    )
}

/// X coordinate of the interception point: the robot's origin projected
/// onto the ball's line of travel.
pub open spec fn spec_interception_x(ball: BallState) -> int {
    spec_ball_line(ball).spec_project_x(Point { x: 0i64, y: 0i64, frame: PhantomData })
}

/// Y coordinate of the interception point.
pub open spec fn spec_interception_y(ball: BallState) -> int {
    spec_ball_line(ball).spec_project_y(Point { x: 0i64, y: 0i64, frame: PhantomData })
}

/// All conditions under which the intercept behavior produces a command.
pub open spec fn spec_should_intercept(
    ws: WorldState,
    parameters: InterceptBallParameters,
    maximum_step_size: Step,
) -> bool {
    &&& !spec_intercept_suppressed(ws.filtered_game_controller_state)
    &&& spec_intercept_game_state_allows(ws.filtered_game_controller_state)
    &&& ws.ball is Some
    &&& ws.robot.ground_to_field is Some
    &&& spec_ball_is_interception_candidate(
        ws.ball->Some_0,
        ws.robot.ground_to_field->Some_0,
        parameters,
    )
    &&& maximum_step_size.forward != 0
    &&& maximum_step_size.left != 0
    &&& spec_interception_x(ws.ball->Some_0) * spec_interception_x(ws.ball->Some_0)
        + spec_interception_y(ws.ball->Some_0) * spec_interception_y(ws.ball->Some_0)
        <= parameters.maximum_intercept_distance * parameters.maximum_intercept_distance
}

/// Executable form of [`spec_ball_is_interception_candidate`].
pub fn ball_is_interception_candidate(
    ball: BallState,
    ground_to_field: Transform<Ground, Field>,
    parameters: &InterceptBallParameters,
) -> (r: bool)
    requires
        ball.wf(),
        ground_to_field.bounded(),
        parameters.wf(),
    ensures
        r == spec_ball_is_interception_candidate(ball, ground_to_field, *parameters),
{
    proof {
        assert(0 <= parameters.maximum_ball_distance * parameters.maximum_ball_distance
            <= 0x2386_f26f_c10000_i64 && 0 <= parameters.minimum_ball_velocity
            * parameters.minimum_ball_velocity <= 0x2386_f26f_c10000_i64) by (nonlinear_arith)
            requires
                0 <= parameters.maximum_ball_distance <= 10_000_000,
                0 <= parameters.minimum_ball_velocity <= 10_000_000,
        ;
    }
    let dist_sq = ball.ball_in_ground.coords().norm_squared();
    let ball_is_in_front_of_robot = dist_sq < parameters.maximum_ball_distance
        * parameters.maximum_ball_distance && ball.ball_in_ground.x > 0;
    let ball_is_moving_towards_robot = ball.ball_in_ground_velocity.x
        < -parameters.minimum_ball_velocity_towards_robot;
    let ball_in_field_velocity = ground_to_field.apply_vector(ball.ball_in_ground_velocity);
    let field_speed_sq = ball_in_field_velocity.norm_squared();
    let ball_is_moving = field_speed_sq > parameters.minimum_ball_velocity
        * parameters.minimum_ball_velocity;
    let ball_is_moving_towards_own_half = ball_in_field_velocity.x
        < -parameters.minimum_ball_velocity_towards_own_half;
    ball_is_in_front_of_robot && ball_is_moving && ball_is_moving_towards_robot
        && ball_is_moving_towards_own_half
}

/// One intercept decision per cycle: `None` while suppressed or while any
/// gate fails, else a straight-line walk to the interception point, looking
/// at the ball, arms swinging, heading held forward.
pub fn execute(
    world_state: &WorldState,
    parameters: &InterceptBallParameters,
    maximum_step_size: Step,
) -> (r: Option<MotionCommand>)
    requires
        world_state.wf(),
        parameters.wf(),
    ensures
        spec_intercept_suppressed(world_state.filtered_game_controller_state) ==> r is None,
        (r is Some) <==> spec_should_intercept(*world_state, *parameters, maximum_step_size),
        r matches Some(c) ==> (match c {
            MotionCommand::Walk { head, path, left_arm, right_arm, orientation_mode } => {
                &&& head == (HeadMotion::LookAt {
                    target: world_state.ball->Some_0.ball_in_ground,
                    camera: None,
                })
                &&& left_arm == ArmMotion::Swing
                &&& right_arm == ArmMotion::Swing
                &&& orientation_mode == OrientationMode::Override(
                    Rotation { p: 1i64, q: 0i64, r: 1i64 },
                )
                &&& path.len() == 1
                &&& path[0] matches PathSegment::LineSegment(seg) && seg.0.x == 0 && seg.0.y == 0
                    && seg.1.x == spec_interception_x(world_state.ball->Some_0) && seg.1.y
                    == spec_interception_y(world_state.ball->Some_0)
            },
            _ => false,
        }),
{
    if let Some(state) = world_state.filtered_game_controller_state {
        let in_penalty_shootout = match state.game_phase {
            GamePhase::PenaltyShootout { .. } => true,
            _ => false,
        };
        if in_penalty_shootout || state.sub_state == Some(SubState::PenaltyKick) {
            return None;
        }
        if state.game_state != (FilteredGameState::Playing { ball_is_free: true }) {
            return None;
        }
    }
    let ball = match world_state.ball {
        Some(ball) => ball,
        None => { return None },
    };
    let ground_to_field = match world_state.robot.ground_to_field {
        Some(t) => t,
        None => { return None },
    };
    if !ball_is_interception_candidate(ball, ground_to_field, parameters) {
        return None;
    }
    if maximum_step_size.forward == 0 || maximum_step_size.left == 0 {
        return None;
    }
    let v = ball.ball_in_ground_velocity;
    proof {
        if v.x == 0 && v.y == 0 {
            lemma_div_round_zero(ground_to_field.rot.r as int);
            assert(spec_rotate_x(ground_to_field, 0, 0) == 0 && spec_rotate_y(
                ground_to_field,
                0,
                0,
            ) == 0);
            assert(0 * 0 + 0 * 0 <= parameters.minimum_ball_velocity
                * parameters.minimum_ball_velocity) by (nonlinear_arith)
                requires
                    parameters.minimum_ball_velocity >= 0,
            ;
        }
    }
    let ball_line = Line(ball.ball_in_ground, ball.ball_in_ground.plus(v));
    let interception_point = ball_line.project_point(Point::origin());
    proof {
        assert(0 <= parameters.maximum_intercept_distance * parameters.maximum_intercept_distance
            <= 0x2386_f26f_c10000_i64) by (nonlinear_arith)
            requires
                0 <= parameters.maximum_intercept_distance <= 10_000_000,
        ;
    }
    proof {
        crate::math::lemma_square_bound(interception_point.x as int, 400_000_000);
        crate::math::lemma_square_bound(interception_point.y as int, 400_000_000);
    }
    let ip_nsq: i128 = mul_wide(interception_point.x, interception_point.x) + mul_wide(
        interception_point.y,
        interception_point.y,
    );
    let max_sq: i128 = (parameters.maximum_intercept_distance as i128)
        * (parameters.maximum_intercept_distance as i128);
    if ip_nsq > max_sq {
        return None;
    }
    let path: Vec<PathSegment> = vec![
        PathSegment::LineSegment(LineSegment(Point::origin(), interception_point)),
    ];
    Some(
        MotionCommand::Walk {
            head: HeadMotion::LookAt { target: ball.ball_in_ground, camera: None },
            path,
            left_arm: ArmMotion::Swing,
            right_arm: ArmMotion::Swing,
            orientation_mode: OrientationMode::Override(Rotation::identity()),
        },
    )
}

} // verus!
