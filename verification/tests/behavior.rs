//! Tests of the behavior layer: transform algebra, ball-state composition
//! with hysteresis, defend pose synthesis and intercept gating.

use hulk_core::ball_state_composer::BallStateComposer;
use hulk_core::cycle_time_warnings as warnings;
use hulk_core::fake_data;
use hulk_core::line::Line;
use hulk_core::lines::{LineLabel, Lines, LinesError, PointSlot, ProjectionError};
use hulk_core::defend::{block_on_circle, Defend};
use hulk_core::frames::{Field, Ground, Point, Vector};
use hulk_core::intercept_ball;
use hulk_core::motion::{MotionCommand, OrientationMode, PathSegment, Step};
use hulk_core::parameters::{
    FieldDimensions, InterceptBallParameters, RolePositionsParameters,
};
use hulk_core::transform::Transform;
use hulk_core::world::{
    BallPosition, BallState, FilteredGameControllerState, FilteredGameState, GamePhase,
    PenaltyShotDirection, PrimaryState, RobotState, Side, SubState, Team, WorldState,
};

fn identity_localization() -> Transform<Ground, Field> {
    Transform::identity()
}

fn field_dimensions() -> FieldDimensions {
    FieldDimensions {
        length: 90_000,
        width: 60_000,
        penalty_area_length: 16_500,
        penalty_area_width: 40_000,
        center_circle_diameter: 15_000,
    }
}

fn role_positions() -> RolePositionsParameters {
    RolePositionsParameters {
        defender_y_offset: 5_000,
        defender_aggressive_ring_radius: 10_000,
        defender_passive_ring_radius: 15_000,
        keeper_x_offset: 2_000,
        striker_distance_to_non_free_center_circle: 2_000,
    }
}

fn ball_at(x: i64, y: i64, side: Side) -> BallState {
    BallState {
        ball_in_ground: Point::new(x, y),
        ball_in_ground_velocity: Vector::zero(),
        ball_in_field: Point::new(x, y),
        field_side: side,
        penalty_shot_direction: None,
    }
}

fn playing_state() -> FilteredGameControllerState {
    FilteredGameControllerState {
        game_state: FilteredGameState::Playing { ball_is_free: true },
        game_phase: GamePhase::Normal,
        kicking_team: Team::Own,
        sub_state: None,
    }
}

#[test]
fn inverse_composed_with_transform_is_identity() {
    // A pose with the exact 3-4-5 rotation: inverting and composing gives
    // back the exact identity on the tick grid.
    let t: Transform<Ground, Field> = Transform::from_position_and_direction(
        Point::new(10_000, 20_000),
        Vector::new(3, 4),
    );
    let inverse = t.inverse();
    let composed = inverse.compose(&t);
    assert_eq!(composed.x, 0);
    assert_eq!(composed.y, 0);
    assert_eq!(composed.rot.q, 0);
    assert_eq!(composed.rot.p, composed.rot.r);
}

#[test]
fn ball_side_keeps_left_within_hysteresis() {
    // Once classified Left, a ball at y = -0.05 units stays Left; only a
    // crossing beyond the 0.1-unit margin flips the side.
    let mut composer = BallStateComposer::new();
    let localization = identity_localization();
    let near_center = BallPosition {
        position: Point::new(0, -500),
        velocity: Vector::zero(),
    };
    let ball = composer
        .cycle(
            PrimaryState::Playing,
            Some(&near_center),
            None,
            Some(&localization),
            None,
        )
        .expect("ball state should be composed");
    assert_eq!(ball.field_side, Side::Left);

    let beyond_margin = BallPosition {
        position: Point::new(0, -1_500),
        velocity: Vector::zero(),
    };
    let ball = composer
        .cycle(
            PrimaryState::Playing,
            Some(&beyond_margin),
            None,
            Some(&localization),
            None,
        )
        .expect("ball state should be composed");
    assert_eq!(ball.field_side, Side::Right);
}

#[test]
fn ready_state_suppresses_ball() {
    let mut composer = BallStateComposer::new();
    let localization = identity_localization();
    let observation = BallPosition {
        position: Point::new(1_000, 1_000),
        velocity: Vector::zero(),
    };
    let ball = composer.cycle(
        PrimaryState::Ready,
        Some(&observation),
        None,
        Some(&localization),
        None,
    );
    assert!(ball.is_none());
}

#[test]
fn team_ball_is_used_through_localization() {
    let mut composer = BallStateComposer::new();
    let localization = identity_localization();
    let team_observation = BallPosition {
        position: Point::new(2_000, 3_000),
        velocity: Vector::zero(),
    };
    let ball = composer
        .cycle(
            PrimaryState::Playing,
            None,
            Some(&team_observation),
            Some(&localization),
            None,
        )
        .expect("team ball should be used");
    assert_eq!(ball.ball_in_ground.x, 2_000);
    assert_eq!(ball.ball_in_ground.y, 3_000);
    assert_eq!(ball.ball_in_field.x, 2_000);
    assert_eq!(ball.ball_in_field.y, 3_000);

    let no_ball = composer.cycle(PrimaryState::Playing, None, None, None, None);
    assert!(no_ball.is_none());

    let mut other = BallStateComposer::new();
    let no_ball = other.cycle(
        PrimaryState::Playing,
        None,
        Some(&team_observation),
        None,
        Some(PenaltyShotDirection::NotMoving),
    );
    assert!(no_ball.is_none());
}

#[test]
fn block_on_circle_pose_is_on_the_ring_facing_the_ball() {
    // Ball one unit to the right of the target, radius half a unit: the
    // pose sits at exactly the radius from the target and faces the ball.
    let ball: Point<Field> = Point::new(10_000, 0);
    let target: Point<Field> = Point::new(0, 0);
    let pose = block_on_circle(ball, target, 5_000);
    assert_eq!(pose.x, 5_000);
    assert_eq!(pose.y, 0);
    assert_eq!(pose.rot.p, ball.x - pose.x);
    assert_eq!(pose.rot.q, ball.y - pose.y);
}

#[test]
fn defend_left_places_the_robot_between_ball_and_target() {
    let ws = WorldState {
        ball: Some(ball_at(0, 5_000, Side::Left)),
        rule_ball: None,
        filtered_game_controller_state: Some(playing_state()),
        robot: RobotState {
            ground_to_field: Some(identity_localization()),
        },
    };
    let fd = field_dimensions();
    let rp = role_positions();
    let defend = Defend::new(&ws, &fd, &rp);
    let pose = defend.left().expect("a localization is available");
    // Target (-45000, 5000), aggressive radius 10000, ball straight right
    // of the target: the pose sits one radius toward the ball, facing it.
    assert_eq!(pose.x, -35_000);
    assert_eq!(pose.y, 5_000);
    assert_eq!(pose.rot.p, 35_000);
    assert_eq!(pose.rot.q, 0);

    let without_localization = WorldState {
        robot: RobotState { ground_to_field: None },
        ..ws
    };
    let defend = Defend::new(&without_localization, &fd, &rp);
    assert!(defend.left().is_none());
}

#[test]
fn defend_goal_keeps_to_the_line_midpoint_when_ball_is_behind() {
    let ws = WorldState {
        ball: Some(ball_at(-46_000, 0, Side::Left)),
        rule_ball: None,
        filtered_game_controller_state: None,
        robot: RobotState {
            ground_to_field: Some(identity_localization()),
        },
    };
    let fd = field_dimensions();
    let rp = role_positions();
    let pose = hulk_core::defend::defend_goal_pose(&ws, &fd, &rp)
        .expect("a localization is available");
    // Defense line at -45000 + 2000; ball behind it, so the midpoint of the
    // lateral range is held.
    assert_eq!(pose.x, -43_000);
    assert_eq!(pose.y, 0);
}

#[test]
fn intercept_never_fires_during_penalty_phases() {
    // Whatever the ball kinematics, a penalty shootout or penalty kick
    // suppresses interception.
    let fast_ball = BallState {
        ball_in_ground: Point::new(10_000, 0),
        ball_in_ground_velocity: Vector::new(-5_000, 0),
        ball_in_field: Point::new(10_000, 0),
        field_side: Side::Left,
        penalty_shot_direction: None,
    };
    let parameters = InterceptBallParameters {
        maximum_ball_distance: 20_000,
        minimum_ball_velocity_towards_robot: 1_000,
        minimum_ball_velocity: 1_000,
        minimum_ball_velocity_towards_own_half: 1_000,
        maximum_intercept_distance: 20_000,
    };
    let step = Step { forward: 1_000, left: 1_000, turn: 0 };
    let shootout = WorldState {
        ball: Some(fast_ball),
        rule_ball: None,
        filtered_game_controller_state: Some(FilteredGameControllerState {
            game_state: FilteredGameState::Playing { ball_is_free: true },
            game_phase: GamePhase::PenaltyShootout { kicking_team: Team::Opponent },
            kicking_team: Team::Opponent,
            sub_state: None,
        }),
        robot: RobotState {
            ground_to_field: Some(identity_localization()),
        },
    };
    assert!(intercept_ball::execute(&shootout, &parameters, step).is_none());

    let penalty_kick = WorldState {
        filtered_game_controller_state: Some(FilteredGameControllerState {
            game_state: FilteredGameState::Playing { ball_is_free: true },
            game_phase: GamePhase::Normal,
            kicking_team: Team::Own,
            sub_state: Some(SubState::PenaltyKick),
        }),
        ..shootout
    };
    assert!(intercept_ball::execute(&penalty_kick, &parameters, step).is_none());
}

#[test]
fn intercept_walks_to_the_interception_point() {
    let fast_ball = BallState {
        ball_in_ground: Point::new(10_000, 0),
        ball_in_ground_velocity: Vector::new(-5_000, 0),
        ball_in_field: Point::new(10_000, 0),
        field_side: Side::Left,
        penalty_shot_direction: None,
    };
    let parameters = InterceptBallParameters {
        maximum_ball_distance: 20_000,
        minimum_ball_velocity_towards_robot: 1_000,
        minimum_ball_velocity: 1_000,
        minimum_ball_velocity_towards_own_half: 1_000,
        maximum_intercept_distance: 20_000,
    };
    let step = Step { forward: 1_000, left: 1_000, turn: 0 };
    let ws = WorldState {
        ball: Some(fast_ball),
        rule_ball: None,
        filtered_game_controller_state: Some(playing_state()),
        robot: RobotState {
            ground_to_field: Some(identity_localization()),
        },
    };
    let command = intercept_ball::execute(&ws, &parameters, step)
        .expect("all interception gates pass");
    match command {
        MotionCommand::Walk { path, orientation_mode, .. } => {
            assert_eq!(path.len(), 1);
            match &path[0] {
                PathSegment::LineSegment(segment) => {
                    assert_eq!(segment.0.x, 0);
                    assert_eq!(segment.0.y, 0);
                    // The ball rolls along the x axis through the robot, so
                    // the interception point is the origin itself.
                    assert_eq!(segment.1.x, 0);
                    assert_eq!(segment.1.y, 0);
                }
                other => panic!("expected a line segment, got {other:?}"),
            }
            match orientation_mode {
                OrientationMode::Override(rotation) => {
                    assert_eq!(rotation.q, 0);
                    assert_eq!(rotation.p, rotation.r);
                }
                other => panic!("expected an override, got {other:?}"),
            }
        }
        other => panic!("expected a walk, got {other:?}"),
    }

    // A zero permitted step size aborts the interception.
    let zero_step = Step { forward: 0, left: 1_000, turn: 0 };
    assert!(intercept_ball::execute(&ws, &parameters, zero_step).is_none());
}

#[test]
fn simulated_walk_advances_to_half_the_segment_end() {
    let command = MotionCommand::Walk {
        head: hulk_core::motion::HeadMotion::LookForward,
        path: vec![PathSegment::LineSegment(hulk_core::line_segment::LineSegment(
            Point::new(0, 0),
            Point::new(10_000, 5_000),
        ))],
        left_arm: hulk_core::motion::ArmMotion::Swing,
        right_arm: hulk_core::motion::ArmMotion::Swing,
        orientation_mode: OrientationMode::AlignWithPath,
    };
    let position = hulk_core::simulator::planned_step_position(&command)
        .expect("walks move the robot");
    assert_eq!(position.x, 5_000);
    assert_eq!(position.y, 2_500);

    let stand = MotionCommand::Stand { head: hulk_core::motion::HeadMotion::LookForward };
    assert!(hulk_core::simulator::planned_step_position(&stand).is_none());
}

#[test]
fn projected_lines_name_the_failing_point() {
    let pixel_lines = Lines {
        border_line: Line(Point::new(0, 0), Point::new(100, 0)),
        goal_box_line: Line(Point::new(0, 10), Point::new(100, 10)),
        connecting_line: Line(Point::new(50, 0), Point::new(50, 10)),
    };
    let ok = |x: i64, y: i64| -> Result<Point<Ground>, ProjectionError> {
        Ok(Point::new(x, y))
    };
    let assembled = pixel_lines
        .to_projected(ok(0, 0), ok(1, 0), ok(0, 1), ok(1, 1), ok(2, 0), ok(2, 1))
        .expect("all projections succeeded");
    assert_eq!(assembled.border_line.1.x, 1);
    assert_eq!(assembled.connecting_line.0.x, 2);

    let failed = pixel_lines.to_projected(
        ok(0, 0),
        ok(1, 0),
        ok(0, 1),
        Err(ProjectionError::NotOnProjectionPlane),
        ok(2, 0),
        ok(2, 1),
    );
    assert_eq!(
        failed,
        Err(LinesError::NotProjected {
            source: ProjectionError::NotOnProjectionPlane,
            which: LineLabel::GoalBox,
            point: PointSlot::End,
        })
    );
}

#[test]
fn fake_data_and_cycle_time_modules_produce_defaults() {
    let mut fake = fake_data::FakeData::new(fake_data::CreationContext {});
    let outputs = fake.cycle(fake_data::CycleContext {});
    assert!(outputs.ball_position.is_none());
    assert!(outputs.ground_to_field.is_none());
    assert_eq!(outputs.primary_state, PrimaryState::Initial);
    assert!(outputs.has_ground_contact);
    let mut w = warnings::CycleTimeWarnings::new(warnings::CreationContext {});
    let _ = w.cycle(warnings::CycleContext {});
}

#[test]
fn penalty_kick_raises_the_defender_radius() {
    // The penalty-area diagonal for these dimensions is 2.5927 units; an
    // opponent penalty kick raises any smaller radius to it.
    let fd = field_dimensions();
    let opponent_penalty = FilteredGameControllerState {
        game_state: FilteredGameState::Playing { ball_is_free: false },
        game_phase: GamePhase::Normal,
        kicking_team: Team::Opponent,
        sub_state: Some(SubState::PenaltyKick),
    };
    assert_eq!(
        hulk_core::defend::penalty_kick_defender_radius(10_000, Some(&opponent_penalty), &fd),
        25_927
    );
    assert_eq!(
        hulk_core::defend::penalty_kick_defender_radius(30_000, Some(&opponent_penalty), &fd),
        30_000
    );
    assert_eq!(
        hulk_core::defend::penalty_kick_defender_radius(10_000, None, &fd),
        10_000
    );
}

#[test]
fn defend_goal_intersects_the_defense_line_when_ball_is_in_front() {
    let ws = WorldState {
        ball: Some(ball_at(0, 3_000, Side::Left)),
        rule_ball: None,
        filtered_game_controller_state: None,
        robot: RobotState {
            ground_to_field: Some(identity_localization()),
        },
    };
    let fd = field_dimensions();
    let rp = role_positions();
    let pose = hulk_core::defend::defend_goal_pose(&ws, &fd, &rp)
        .expect("a localization is available");
    // The ball-to-target ray crosses the defense line at x = -43000 and
    // y = 655, inside the lateral range; the pose faces the ball.
    assert_eq!(pose.x, -43_000);
    assert_eq!(pose.y, 655);
    assert_eq!(pose.rot.p, 0 - pose.x);
    assert_eq!(pose.rot.q, 3_000 - pose.y);
}

#[test]
fn defend_falls_back_to_the_kick_off_point_without_a_ball() {
    // With no ball at all the kick-off point is defended from the passive
    // ring (the fallback side is Left, the defended side Right).
    let ws = WorldState {
        ball: None,
        rule_ball: None,
        filtered_game_controller_state: None,
        robot: RobotState {
            ground_to_field: Some(identity_localization()),
        },
    };
    let fd = field_dimensions();
    let rp = role_positions();
    let pose = hulk_core::defend::defend_right_pose(&ws, &fd, &rp)
        .expect("a localization is available");
    // Target (-45000, -5000), ball fallback (0, 0): the pose lies on the
    // passive ring of 1.5 units toward the kick-off point.
    let dx = 0 - pose.x;
    let dy = 0 - pose.y;
    let to_target_sq = (pose.x + 45_000) * (pose.x + 45_000) + (pose.y + 5_000) * (pose.y + 5_000);
    let radius_sq = 15_000i64 * 15_000;
    assert!((to_target_sq - radius_sq).abs() <= 4 * 15_000);
    assert_eq!(pose.rot.p, dx);
    assert_eq!(pose.rot.q, dy);
}
