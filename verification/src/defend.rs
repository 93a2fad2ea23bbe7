//! Defend behavior synthesis: pure pose computation from the world state,
//! field dimensions and role parameters.
//!
//! Each role picks the ball estimate to defend against, computes a target
//! defensive point from the goal-line geometry and a blocking radius, and
//! places the robot either on a circle around the target facing the ball or
//! on the keeper's defense line. The walk-or-stand motion synthesis and the
//! debug-output sink around the returned pose are external collaborators and
//! live outside the verified core.

use core::marker::PhantomData;
use vstd::prelude::*;

use crate::frames::{Field, Ground, Point, Vector};
use crate::math::{
    abs_int, div_round_i128, div_round_signed_i128, div_round_signed_spec, div_round_spec,
    isqrt_spec, isqrt_u128, lemma_div_round_err, lemma_div_round_mag, max_int, FIELD_LIMIT,
    TICKS_PER_UNIT,
};
use crate::parameters::{FieldDimensions, RolePositionsParameters};
use crate::transform::{spec_compose, spec_inverse, Rotation, Transform};
use crate::world::{FilteredGameControllerState, GamePhase, Side, SubState, Team, WorldState};

verus! {

/// Lateral half-range of the keeper's defense line, in ticks.
pub const KEEPER_LINE_HALF_RANGE: i64 = 7_000;

/// The ball position the defending roles work against: the rule-restricted
/// ball if present, else the regular ball, else the kick-off point.
pub open spec fn spec_defense_ball(ws: WorldState) -> Point<Field> {
    if ws.rule_ball is Some {
        ws.rule_ball->Some_0.ball_in_field
    } else if ws.ball is Some {
        ws.ball->Some_0.ball_in_field
    } else {
        Point { x: 0i64, y: 0i64, frame: PhantomData }
    }
}

/// The field side belonging to the same ball estimate; `Left` for the
/// kick-off fallback.
pub open spec fn spec_defense_ball_side(ws: WorldState) -> Side {
    if ws.rule_ball is Some {
        ws.rule_ball->Some_0.field_side
    } else if ws.ball is Some {
        ws.ball->Some_0.field_side
    } else {
        Side::Left
    }
}

/// During an opponent penalty kick the blocking radius is raised to at
/// least the penalty-area diagonal, else passed through unchanged.
pub open spec fn spec_penalty_kick_defender_radius(
    distance_to_target: int,
    state: Option<FilteredGameControllerState>,
    fd: FieldDimensions,
) -> int {
    if state matches Some(s) && s.kicking_team == Team::Opponent && s.sub_state == Some(
        SubState::PenaltyKick,
    ) {
        let half_width = fd.penalty_area_width as int / 2;
        max_int(
            distance_to_target,
            isqrt_spec(fd.penalty_area_length * fd.penalty_area_length + half_width * half_width),
        )
    } else {
        distance_to_target
    }
}

/// The aggressive ring radius when the ball is on the defended side, else
/// the passive one, both raised during an opponent penalty kick.
pub open spec fn spec_defend_distance(
    ws: WorldState,
    fd: FieldDimensions,
    rp: RolePositionsParameters,
    defended_side: Side,
) -> int {
    spec_penalty_kick_defender_radius(
        if spec_defense_ball_side(ws) == defended_side {
            rp.defender_aggressive_ring_radius as int
        } else {
            rp.defender_passive_ring_radius as int
        },
        ws.filtered_game_controller_state,
        fd,
    )
}

/// The pose blocking `ball` on the circle of radius `distance` around
/// `target`: position `target + distance * normalize(ball - target)` with
/// each coordinate rounded once to the tick grid, oriented to face the
/// ball; if rounding lands the position on the ball itself, it faces along
/// the ray from the target instead.
pub open spec fn spec_block_on_circle(ball: Point<Field>, target: Point<Field>, distance: int) -> Transform<
    Ground,
    Field,
> {
    let dx = ball.x - target.x;
    let dy = ball.y - target.y;
    let n = isqrt_spec(dx * dx + dy * dy);
    let px = target.x + div_round_spec(distance * dx, n);
    let py = target.y + div_round_spec(distance * dy, n);
    let fx = ball.x - px;
    let fy = ball.y - py;
    Transform {
        rot: if fx == 0 && fy == 0 {
            Rotation { p: dx as i64, q: dy as i64, r: n as i64 }
        } else {
            Rotation { p: fx as i64, q: fy as i64, r: isqrt_spec(fx * fx + fy * fy) as i64 }
        },
        x: px as i64,
        y: py as i64,
        src: PhantomData,
        dst: PhantomData,
    }
}

/// The keeper's pose on the vertical defense line at `line_x`: the
/// line/ball-target intersection clamped to the lateral range while the
/// ball is beyond the line, else the line's midpoint; facing the ball.
pub open spec fn spec_block_on_line(
    ball: Point<Field>,
    target: Point<Field>,
    line_x: int,
    y_start: int,
    y_end: int,
) -> Transform<Ground, Field> {
    if ball.x > line_x {
        let iy = ball.y + div_round_signed_spec(
            (target.y - ball.y) * (line_x - ball.x),
            target.x - ball.x,
        );
        let cy = if iy < y_start {
            y_start
        } else if iy > y_end {
            y_end
        } else {
            iy
        };
        let fx = ball.x - line_x;
        let fy = ball.y - cy;
        Transform {
            rot: Rotation { p: fx as i64, q: fy as i64, r: isqrt_spec(fx * fx + fy * fy) as i64 },
            x: line_x as i64,
            y: cy as i64,
            src: PhantomData,
            dst: PhantomData,
        }
    } else {
        let my = div_round_spec(y_start + y_end, 2);
        let fx = ball.x - line_x;
        let fy = ball.y - my;
        Transform {
            rot: if fx == 0 && fy == 0 {
                Rotation { p: 1i64, q: 0i64, r: 1i64 }
            } else {
                Rotation { p: fx as i64, q: fy as i64, r: isqrt_spec(fx * fx + fy * fy) as i64 }
            },
            x: line_x as i64,
            y: my as i64,
            src: PhantomData,
            dst: PhantomData,
        }
    }
}

/// Executable form of [`spec_block_on_circle`].
pub fn block_on_circle(ball: Point<Field>, target: Point<Field>, distance_to_target: i64) -> (r:
    Transform<Ground, Field>)
    requires
        abs_int(ball.x as int) <= 4 * FIELD_LIMIT,
        abs_int(ball.y as int) <= 4 * FIELD_LIMIT,
        abs_int(target.x as int) <= 2 * FIELD_LIMIT,
        abs_int(target.y as int) <= 2 * FIELD_LIMIT,
        abs_int(distance_to_target as int) <= 7 * FIELD_LIMIT,
        ball.x != target.x || ball.y != target.y,
    ensures
        r == spec_block_on_circle(ball, target, distance_to_target as int),
        r.wf(),
        r.rot.bounded(),
        abs_int(r.x as int) <= 16 * FIELD_LIMIT,
        abs_int(r.y as int) <= 16 * FIELD_LIMIT,
{
    let dx = ball.x - target.x;
    let dy = ball.y - target.y;
    proof {
        assert(0 <= dx * dx <= 3_600_000_000_000_000int && 0 <= dy * dy
            <= 3_600_000_000_000_000int && 1 <= dx * dx + dy * dy) by (nonlinear_arith)
            requires
                dx != 0 || dy != 0,
                -60_000_000 <= dx <= 60_000_000,
                -60_000_000 <= dy <= 60_000_000,
        ;
    }
    let dsq: i64 = dx * dx + dy * dy;
    let n_u = isqrt_u128(dsq as u128);
    proof {
        assert(n_u as int <= 90_000_000 && 1 <= n_u) by (nonlinear_arith)
            requires
                n_u >= 0,
                (n_u as int) * (n_u as int) <= dsq as int,
                dsq < (n_u as int + 1) * (n_u as int + 1),
                1 <= dsq <= 7_200_000_000_000_000int,
        ;
    }
    let n: i64 = n_u as i64;
    proof {
        assert((n as int + 1) * (n as int + 1) == (n as int) * (n as int) + 2 * (n as int) + 1)
            by (nonlinear_arith);
        lemma_block_shift_bound(distance_to_target as int, dx as int, dsq as int, n as int);
        lemma_block_shift_bound(distance_to_target as int, dy as int, dsq as int, n as int);
    }
    let sx = div_round_i128((distance_to_target as i128) * (dx as i128), n as i128);
    let sy = div_round_i128((distance_to_target as i128) * (dy as i128), n as i128);
    let px = target.x + (sx as i64);
    let py = target.y + (sy as i64);
    let fx = ball.x - px;
    let fy = ball.y - py;
    let rot = if fx == 0 && fy == 0 {
        Rotation { p: dx, q: dy, r: n }
    } else {
        Rotation::facing(Vector::<Field>::new(fx, fy))
    };
    Transform { rot, x: px, y: py, src: PhantomData, dst: PhantomData }
}

/// Bound for the blocking-circle shift: since `|d| <= n + 1 <= 2 n`, the
/// rounded shift is at most twice the blocking radius.
proof fn lemma_block_shift_bound(dist: int, d: int, dsq: int, n: int)
    requires
        abs_int(dist) <= 70_000_000,
        d * d <= dsq,
        1 <= n,
        n * n <= dsq < (n + 1) * (n + 1),
        dsq <= 7_200_000_000_000_000,
    ensures
        abs_int(dist * d) <= (2 * abs_int(dist)) * n,
        abs_int(dist * d) <= 0x1000_0000_0000_0000_0000_0000_0000_0000,
        abs_int(div_round_spec(dist * d, n)) <= 2 * abs_int(dist),
        abs_int(div_round_spec(dist * d, n)) <= 140_000_000,
{
    assert(abs_int(d) <= n + 1) by (nonlinear_arith)
        requires
            d * d <= dsq,
            dsq < (n + 1) * (n + 1),
            n >= 1,
    ;
    let ad = abs_int(d);
    let adist = abs_int(dist);
    assert(abs_int(dist * d) == adist * ad) by (nonlinear_arith)
        requires
            ad == abs_int(d),
            adist == abs_int(dist),
    ;
    assert(n <= 90_000_000) by (nonlinear_arith)
        requires
            n >= 1,
            n * n <= 7_200_000_000_000_000int,
    ;
    assert(adist * ad <= (2 * adist) * n && adist * ad
        <= 0x1000_0000_0000_0000_0000_0000_0000_0000) by (nonlinear_arith)
        requires
            0 <= ad <= n + 1,
            1 <= n <= 90_000_000,
            0 <= adist <= 70_000_000,
    ;
    lemma_div_round_mag(dist * d, n, 2 * abs_int(dist));
}

/// Executable form of [`spec_block_on_line`].
pub fn block_on_line(
    ball: Point<Field>,
    target: Point<Field>,
    defense_line_x: i64,
    y_start: i64,
    y_end: i64,
) -> (r: Transform<Ground, Field>)
    requires
        abs_int(ball.x as int) <= 4 * FIELD_LIMIT,
        abs_int(ball.y as int) <= 4 * FIELD_LIMIT,
        abs_int(target.x as int) <= 2 * FIELD_LIMIT,
        abs_int(target.y as int) <= 2 * FIELD_LIMIT,
        abs_int(defense_line_x as int) <= 2 * FIELD_LIMIT,
        -FIELD_LIMIT <= y_start < y_end <= FIELD_LIMIT,
        target.x < defense_line_x,
    ensures
        r == spec_block_on_line(
            ball,
            target,
            defense_line_x as int,
            y_start as int,
            y_end as int,
        ),
        r.wf(),
        r.rot.bounded(),
        abs_int(r.x as int) <= 2 * FIELD_LIMIT,
        abs_int(r.y as int) <= 10 * FIELD_LIMIT,
{
    let is_ball_in_front_of_defense_line = defense_line_x < ball.x;
    if is_ball_in_front_of_defense_line {
        let t_num = defense_line_x - ball.x;
        let t_den = target.x - ball.x;
        proof {
            assert(abs_int((target.y - ball.y) * t_num) <= abs_int(target.y - ball.y) * abs_int(
                t_den as int,
            ) && abs_int((target.y - ball.y) * t_num)
                <= 0x1000_0000_0000_0000_0000_0000_0000_0000) by (nonlinear_arith)
                requires
                    t_den <= t_num <= 0,
                    t_den < 0,
                    abs_int(target.y - ball.y) <= 60_000_000,
            ;
            lemma_div_round_mag(
                -((target.y - ball.y) * (t_num as int)),
                -(t_den as int),
                abs_int(target.y - ball.y),
            );
        }
        let shift = div_round_signed_i128(
            (target.y as i128 - ball.y as i128) * (t_num as i128),
            t_den as i128,
        );
        let iy = ball.y + (shift as i64);
        let cy = if iy < y_start {
            y_start
        } else if iy > y_end {
            y_end
        } else {
            iy
        };
        let fx = ball.x - defense_line_x;
        let fy = ball.y - cy;
        let rot = Rotation::facing(Vector::<Field>::new(fx, fy));
        Transform { rot, x: defense_line_x, y: cy, src: PhantomData, dst: PhantomData }
    } else {
        let my_wide = div_round_i128(y_start as i128 + y_end as i128, 2);
        let my = my_wide as i64;
        let fx = ball.x - defense_line_x;
        let fy = ball.y - my;
        proof {
            lemma_div_round_mag(y_start as int + y_end as int, 2, FIELD_LIMIT as int);
        }
        let rot = if fx == 0 && fy == 0 {
            Rotation { p: 1, q: 0, r: 1 }
        } else {
            Rotation::facing(Vector::<Field>::new(fx, fy))
        };
        Transform { rot, x: defense_line_x, y: my, src: PhantomData, dst: PhantomData }
    }
}

/// The blocking pose lies at distance `distance` from the target, exactly
/// up to the tick grid, and faces the ball: with `n` the rounded length of
/// `ball - target`, each offset coordinate is within half a tick of the
/// exact ray point `distance * (ball - target) / n`, and the pose's
/// rotation direction is exactly the displacement from the pose to the
/// ball.
pub proof fn lemma_block_on_circle_pose(ball: Point<Field>, target: Point<Field>, distance: int)
    requires
        abs_int(ball.x as int) <= 4 * FIELD_LIMIT,
        abs_int(ball.y as int) <= 4 * FIELD_LIMIT,
        abs_int(target.x as int) <= 2 * FIELD_LIMIT,
        abs_int(target.y as int) <= 2 * FIELD_LIMIT,
        abs_int(distance) <= 7 * FIELD_LIMIT,
        ball.x != target.x || ball.y != target.y,
    ensures
        ({
            let b = spec_block_on_circle(ball, target, distance);
            let n = isqrt_spec(
                (ball.x - target.x) * (ball.x - target.x) + (ball.y - target.y) * (ball.y
                    - target.y),
            );
            &&& n * n <= (ball.x - target.x) * (ball.x - target.x) + (ball.y - target.y) * (ball.y
                - target.y) < (n + 1) * (n + 1)
            &&& 2 * abs_int(n * (b.x - target.x) - distance * (ball.x - target.x)) <= n
            &&& 2 * abs_int(n * (b.y - target.y) - distance * (ball.y - target.y)) <= n
            &&& (ball.x != b.x || ball.y != b.y) ==> b.rot.p == ball.x - b.x && b.rot.q == ball.y
                - b.y
        }),
{
    let dx = ball.x - target.x;
    let dy = ball.y - target.y;
    let dsq = dx * dx + dy * dy;
    assert(-60_000_000 <= dx <= 60_000_000 && -60_000_000 <= dy <= 60_000_000);
    assert(dx * dx + dy * dy >= 1 && dx * dx <= dx * dx + dy * dy && dy * dy <= dx * dx + dy * dy
        && dx * dx + dy * dy <= 7_200_000_000_000_000int) by (nonlinear_arith)
        requires
            dx != 0 || dy != 0,
            -60_000_000 <= dx <= 60_000_000,
            -60_000_000 <= dy <= 60_000_000,
    ;
    crate::math::lemma_isqrt_spec_bounds(dsq);
    let n = isqrt_spec(dsq);
    assert(n <= 90_000_000) by (nonlinear_arith)
        requires
            n >= 0,
            n * n <= dsq <= 7_200_000_000_000_000int,
    ;
    assert(n >= 1) by (nonlinear_arith)
        requires
            dsq >= 1,
            dsq < (n + 1) * (n + 1),
            n >= 0,
    ;
    lemma_block_shift_bound(distance, dx, dsq, n);
    lemma_block_shift_bound(distance, dy, dsq, n);
    lemma_div_round_err(distance * dx, n);
    lemma_div_round_err(distance * dy, n);
    let b = spec_block_on_circle(ball, target, distance);
    assert(b.x == target.x + div_round_spec(distance * dx, n));
    assert(b.y == target.y + div_round_spec(distance * dy, n));
}


/// The point the left defender guards: on the own goal line, offset to the
/// left.
pub open spec fn spec_defend_target_left(fd: FieldDimensions, rp: RolePositionsParameters) -> Point<
    Field,
> {
    Point {
        x: (-(fd.length as int / 2)) as i64,
        y: rp.defender_y_offset,
        frame: PhantomData,
    }
}

/// The point the right defender guards.
pub open spec fn spec_defend_target_right(
    fd: FieldDimensions,
    rp: RolePositionsParameters,
) -> Point<Field> {
    Point {
        x: (-(fd.length as int / 2)) as i64,
        y: (-rp.defender_y_offset) as i64,
        frame: PhantomData,
    }
}

/// The point guarded during a penalty kick: centered on the penalty-area
/// front edge.
pub open spec fn spec_defend_target_penalty(fd: FieldDimensions) -> Point<Field> {
    Point {
        x: div_round_spec(fd.penalty_area_length - fd.length, 2) as i64,
        y: 0i64,
        frame: PhantomData,
    }
}

/// The point the keeper guards: one unit behind the own goal line.
pub open spec fn spec_defend_target_goal(fd: FieldDimensions) -> Point<Field> {
    Point {
        x: (-(fd.length as int / 2) - TICKS_PER_UNIT) as i64,
        y: 0i64,
        frame: PhantomData,
    }
}

/// The point guarded at kick-off: the own goal line center.
pub open spec fn spec_defend_target_kick_off(fd: FieldDimensions) -> Point<Field> {
    Point { x: (-(fd.length as int / 2)) as i64, y: 0i64, frame: PhantomData }
}

/// The ball position the kick-off defense works against: the regular ball,
/// or the kick-off point when none is seen.
pub open spec fn spec_kick_off_ball(ws: WorldState) -> Point<Field> {
    if ws.ball is Some {
        ws.ball->Some_0.ball_in_field
    } else {
        Point { x: 0i64, y: 0i64, frame: PhantomData }
    }
}

/// The keeper's x offset: forced onto the goal line while the opponent
/// takes a penalty.
pub open spec fn spec_keeper_x_offset(
    state: Option<FilteredGameControllerState>,
    rp: RolePositionsParameters,
) -> int {
    if state matches Some(s) && ((s.game_phase == GamePhase::PenaltyShootout {
        kicking_team: Team::Opponent,
    }) || (s.sub_state == Some(SubState::PenaltyKick) && s.kicking_team == Team::Opponent)) {
        0
    } else {
        rp.keeper_x_offset as int
    }
}

/// Executable form of [`spec_penalty_kick_defender_radius`].
pub fn penalty_kick_defender_radius(
    distance_to_target: i64,
    filtered_game_controller_state: Option<&FilteredGameControllerState>,
    field_dimensions: &FieldDimensions,
) -> (r: i64)
    requires
        field_dimensions.wf(),
        0 <= distance_to_target <= FIELD_LIMIT,
    ensures
        r == spec_penalty_kick_defender_radius(
            distance_to_target as int,
            match filtered_game_controller_state {
                Some(s) => Some(*s),
                None => None,
            },
            *field_dimensions,
        ),
        0 <= r <= 2 * FIELD_LIMIT,
{
    if let Some(state) = filtered_game_controller_state {
        if state.kicking_team == Team::Opponent && state.sub_state == Some(SubState::PenaltyKick) {
            let half_penalty_width = ((field_dimensions.penalty_area_width as u64) / 2) as i64;
            proof {
                assert(0 <= field_dimensions.penalty_area_length
                    * field_dimensions.penalty_area_length <= 100_000_000_000_000int && 0
                    <= half_penalty_width * half_penalty_width <= 100_000_000_000_000int)
                    by (nonlinear_arith)
                    requires
                        0 <= field_dimensions.penalty_area_length <= 10_000_000,
                        0 <= half_penalty_width <= 10_000_000,
                ;
            }
            let diag_sq: i64 = field_dimensions.penalty_area_length
                * field_dimensions.penalty_area_length + half_penalty_width * half_penalty_width;
            let minimum = isqrt_u128(diag_sq as u128);
            proof {
                assert(minimum as int <= 15_000_000) by (nonlinear_arith)
                    requires
                        minimum >= 0,
                        (minimum as int) * (minimum as int) <= diag_sq as int,
                        diag_sq <= 200_000_000_000_000int,
                ;
            }
            let minimum_penalty_defender_radius = minimum as i64;
            if distance_to_target >= minimum_penalty_defender_radius {
                distance_to_target
            } else {
                minimum_penalty_defender_radius
            }
        } else {
            distance_to_target
        }
    } else {
        distance_to_target
    }
}

/// Picks the ball estimate for the defending roles, as a value.
fn defense_ball(world_state: &WorldState) -> (r: (Point<Field>, Side))
    requires
        world_state.wf(),
    ensures
        r.0 == spec_defense_ball(*world_state),
        r.1 == spec_defense_ball_side(*world_state),
        abs_int(r.0.x as int) <= 4 * FIELD_LIMIT,
        abs_int(r.0.y as int) <= 4 * FIELD_LIMIT,
{
    if let Some(ball) = world_state.rule_ball {
        (ball.ball_in_field, ball.field_side)
    } else if let Some(ball) = world_state.ball {
        (ball.ball_in_field, ball.field_side)
    } else {
        (Point::origin(), Side::Left)
    }
}

/// The ring radius the defender keeps to the target, exec form of
/// [`spec_defend_distance`].
fn defend_distance(
    world_state: &WorldState,
    field_dimensions: &FieldDimensions,
    role_positions: &RolePositionsParameters,
    side: Side,
    defended_side: Side,
) -> (r: i64)
    requires
        world_state.wf(),
        field_dimensions.wf(),
        role_positions.wf(),
        side == spec_defense_ball_side(*world_state),
    ensures
        r == spec_defend_distance(*world_state, *field_dimensions, *role_positions, defended_side),
        0 <= r <= 2 * FIELD_LIMIT,
{
    let base = if side == defended_side {
        role_positions.defender_aggressive_ring_radius
    } else {
        role_positions.defender_passive_ring_radius
    };
    penalty_kick_defender_radius(
        base,
        world_state.filtered_game_controller_state.as_ref(),
        field_dimensions,
    )
}

/// Half the field length, negated: the own goal line x coordinate.
fn own_goal_line_x(field_dimensions: &FieldDimensions) -> (r: i64)
    requires
        field_dimensions.wf(),
    ensures
        r == -(field_dimensions.length as int / 2),
        -FIELD_LIMIT <= r <= 0,
{
    -(((field_dimensions.length as u64) / 2) as i64)
}

/// The left defender's pose in ground coordinates: blocking the ball on the
/// role's ring around the left defense point, brought back through the
/// inverse localization. No localization, no pose.
pub fn defend_left_pose(
    world_state: &WorldState,
    field_dimensions: &FieldDimensions,
    role_positions: &RolePositionsParameters,
) -> (r: Option<Transform<Ground, Ground>>)
    requires
        world_state.wf(),
        field_dimensions.wf(),
        role_positions.wf(),
        spec_defense_ball(*world_state) != spec_defend_target_left(
            *field_dimensions,
            *role_positions,
        ),
    ensures
        (r is Some) <==> world_state.robot.ground_to_field is Some,
        r matches Some(p) ==> p == spec_compose(
            spec_inverse(world_state.robot.ground_to_field->Some_0),
            spec_block_on_circle(
                spec_defense_ball(*world_state),
                spec_defend_target_left(*field_dimensions, *role_positions),
                spec_defend_distance(
                    *world_state,
                    *field_dimensions,
                    *role_positions,
                    Side::Left,
                ),
            ),
        ),
{
    let ground_to_field = match world_state.robot.ground_to_field {
        Some(t) => t,
        None => { return None },
    };
    let (ball, side) = defense_ball(world_state);
    let position_to_defend = Point::new(
        own_goal_line_x(field_dimensions),
        role_positions.defender_y_offset,
    );
    let distance_to_target = defend_distance(
        world_state,
        field_dimensions,
        role_positions,
        side,
        Side::Left,
    );
    let defend_pose = block_on_circle(ball, position_to_defend, distance_to_target);
    let field_to_ground = ground_to_field.inverse();
    Some(field_to_ground.compose(&defend_pose))
}

/// The right defender's pose; the mirror of [`defend_left_pose`].
pub fn defend_right_pose(
    world_state: &WorldState,
    field_dimensions: &FieldDimensions,
    role_positions: &RolePositionsParameters,
) -> (r: Option<Transform<Ground, Ground>>)
    requires
        world_state.wf(),
        field_dimensions.wf(),
        role_positions.wf(),
        spec_defense_ball(*world_state) != spec_defend_target_right(
            *field_dimensions,
            *role_positions,
        ),
    ensures
        (r is Some) <==> world_state.robot.ground_to_field is Some,
        r matches Some(p) ==> p == spec_compose(
            spec_inverse(world_state.robot.ground_to_field->Some_0),
            spec_block_on_circle(
                spec_defense_ball(*world_state),
                spec_defend_target_right(*field_dimensions, *role_positions),
                spec_defend_distance(
                    *world_state,
                    *field_dimensions,
                    *role_positions,
                    Side::Right,
                ),
            ),
        ),
{
    let ground_to_field = match world_state.robot.ground_to_field {
        Some(t) => t,
        None => { return None },
    };
    let (ball, side) = defense_ball(world_state);
    let position_to_defend = Point::new(
        own_goal_line_x(field_dimensions),
        -role_positions.defender_y_offset,
    );
    let distance_to_target = defend_distance(
        world_state,
        field_dimensions,
        role_positions,
        side,
        Side::Right,
    );
    let defend_pose = block_on_circle(ball, position_to_defend, distance_to_target);
    let field_to_ground = ground_to_field.inverse();
    Some(field_to_ground.compose(&defend_pose))
}

/// The penalty-kick defender's pose: blocking from the penalty-area front
/// edge center.
pub fn defend_penalty_kick(
    world_state: &WorldState,
    field_dimensions: &FieldDimensions,
    role_positions: &RolePositionsParameters,
) -> (r: Option<Transform<Ground, Ground>>)
    requires
        world_state.wf(),
        field_dimensions.wf(),
        role_positions.wf(),
        spec_defense_ball(*world_state) != spec_defend_target_penalty(*field_dimensions),
    ensures
        (r is Some) <==> world_state.robot.ground_to_field is Some,
        r matches Some(p) ==> p == spec_compose(
            spec_inverse(world_state.robot.ground_to_field->Some_0),
            spec_block_on_circle(
                spec_defense_ball(*world_state),
                spec_defend_target_penalty(*field_dimensions),
                spec_defend_distance(
                    *world_state,
                    *field_dimensions,
                    *role_positions,
                    Side::Left,
                ),
            ),
        ),
{
    let ground_to_field = match world_state.robot.ground_to_field {
        Some(t) => t,
        None => { return None },
    };
    let (ball, side) = defense_ball(world_state);
    let target_x = div_round_i128(
        field_dimensions.penalty_area_length as i128 - field_dimensions.length as i128,
        2,
    );
    proof {
        lemma_div_round_mag(
            field_dimensions.penalty_area_length - field_dimensions.length,
            2,
            FIELD_LIMIT as int,
        );
    }
    let position_to_defend = Point::new(target_x as i64, 0);
    let distance_to_target = defend_distance(
        world_state,
        field_dimensions,
        role_positions,
        side,
        Side::Left,
    );
    let defend_pose = block_on_circle(ball, position_to_defend, distance_to_target);
    let field_to_ground = ground_to_field.inverse();
    Some(field_to_ground.compose(&defend_pose))
}

/// The keeper's pose on the defense line in front of the own goal.
pub fn defend_goal_pose(
    world_state: &WorldState,
    field_dimensions: &FieldDimensions,
    role_positions: &RolePositionsParameters,
) -> (r: Option<Transform<Ground, Ground>>)
    requires
        world_state.wf(),
        field_dimensions.wf(),
        role_positions.wf(),
    ensures
        (r is Some) <==> world_state.robot.ground_to_field is Some,
        r matches Some(p) ==> p == spec_compose(
            spec_inverse(world_state.robot.ground_to_field->Some_0),
            spec_block_on_line(
                spec_defense_ball(*world_state),
                spec_defend_target_goal(*field_dimensions),
                -(field_dimensions.length as int / 2) + spec_keeper_x_offset(
                    world_state.filtered_game_controller_state,
                    *role_positions,
                ),
                -KEEPER_LINE_HALF_RANGE as int,
                KEEPER_LINE_HALF_RANGE as int,
            ),
        ),
{
    let ground_to_field = match world_state.robot.ground_to_field {
        Some(t) => t,
        None => { return None },
    };
    let (ball, _side) = defense_ball(world_state);
    let keeper_x_offset: i64 = match world_state.filtered_game_controller_state {
        Some(state) => {
            let penalty_shootout_opponent = match state.game_phase {
                GamePhase::PenaltyShootout { kicking_team } => kicking_team == Team::Opponent,
                _ => false,
            };
            let penalty_kick_opponent = state.sub_state == Some(SubState::PenaltyKick)
                && state.kicking_team == Team::Opponent;
            if penalty_shootout_opponent || penalty_kick_opponent {
                0
            } else {
                role_positions.keeper_x_offset
            }
        },
        None => role_positions.keeper_x_offset,
    };
    let goal_line_x = own_goal_line_x(field_dimensions);
    let position_to_defend = Point::new(goal_line_x - TICKS_PER_UNIT, 0);
    let defend_pose = block_on_line(
        ball,
        position_to_defend,
        goal_line_x + keeper_x_offset,
        -KEEPER_LINE_HALF_RANGE,
        KEEPER_LINE_HALF_RANGE,
    );
    let field_to_ground = ground_to_field.inverse();
    Some(field_to_ground.compose(&defend_pose))
}

/// The kick-off defender's pose: on the circle around the goal line center
/// that keeps the configured clearance to the center circle.
pub fn defend_kick_off_pose(
    world_state: &WorldState,
    field_dimensions: &FieldDimensions,
    role_positions: &RolePositionsParameters,
) -> (r: Option<Transform<Ground, Ground>>)
    requires
        world_state.wf(),
        field_dimensions.wf(),
        role_positions.wf(),
        spec_kick_off_ball(*world_state) != spec_defend_target_kick_off(*field_dimensions),
    ensures
        (r is Some) <==> world_state.robot.ground_to_field is Some,
        r matches Some(p) ==> p == spec_compose(
            spec_inverse(world_state.robot.ground_to_field->Some_0),
            spec_block_on_circle(
                spec_kick_off_ball(*world_state),
                spec_defend_target_kick_off(*field_dimensions),
                isqrt_spec(
                    crate::frames::spec_dist_squared(
                        spec_defend_target_kick_off(*field_dimensions),
                        spec_kick_off_ball(*world_state),
                    ),
                ) - field_dimensions.center_circle_diameter as int / 2
                    - role_positions.striker_distance_to_non_free_center_circle,
            ),
        ),
{
    let ground_to_field = match world_state.robot.ground_to_field {
        Some(t) => t,
        None => { return None },
    };
    let absolute_ball_position = match world_state.ball {
        Some(ball) => ball.ball_in_field,
        None => Point::origin(),
    };
    let position_to_defend = Point::new(own_goal_line_x(field_dimensions), 0);
    let center_circle_radius = ((field_dimensions.center_circle_diameter as u64) / 2) as i64;
    let ball_distance = crate::frames::distance(position_to_defend, absolute_ball_position);
    proof {
        assert((absolute_ball_position.x - position_to_defend.x) * (absolute_ball_position.x
            - position_to_defend.x) + (absolute_ball_position.y - position_to_defend.y) * (
        absolute_ball_position.y - position_to_defend.y) <= 4_100_000_000_000_000int)
            by (nonlinear_arith)
            requires
                -10_000_000 <= position_to_defend.x <= 0,
                position_to_defend.y == 0,
                -40_000_000 <= absolute_ball_position.x <= 40_000_000,
                -40_000_000 <= absolute_ball_position.y <= 40_000_000,
        ;
        assert(ball_distance <= 65_000_000) by (nonlinear_arith)
            requires
                ball_distance >= 0,
                ball_distance * ball_distance <= 4_100_000_000_000_000int,
        ;
    }
    let distance_to_target = ball_distance - center_circle_radius
        - role_positions.striker_distance_to_non_free_center_circle;
    let defend_pose = block_on_circle(
        absolute_ball_position,
        position_to_defend,
        distance_to_target,
    );
    let field_to_ground = ground_to_field.inverse();
    Some(field_to_ground.compose(&defend_pose))
}

/// The defending role family over one world snapshot. The returned poses
/// are handed to the external walk-or-stand synthesizer by the caller.
pub struct Defend<'cycle> {
    pub world_state: &'cycle WorldState,
    pub field_dimensions: &'cycle FieldDimensions,
    pub role_positions: &'cycle RolePositionsParameters,
}

impl<'cycle> Defend<'cycle> {
    pub fn new(
        world_state: &'cycle WorldState,
        field_dimensions: &'cycle FieldDimensions,
        role_positions: &'cycle RolePositionsParameters,
    ) -> (r: Defend<'cycle>)
        ensures
            r.world_state == world_state,
            r.field_dimensions == field_dimensions,
            r.role_positions == role_positions,
    {
        Defend { world_state, field_dimensions, role_positions }
    }

    pub fn left(&self) -> (r: Option<Transform<Ground, Ground>>)
        requires
            self.world_state.wf(),
            self.field_dimensions.wf(),
            self.role_positions.wf(),
            spec_defense_ball(*self.world_state) != spec_defend_target_left(
                *self.field_dimensions,
                *self.role_positions,
            ),
        ensures
            (r is Some) <==> self.world_state.robot.ground_to_field is Some,
            r matches Some(p) ==> p == spec_compose(
                spec_inverse(self.world_state.robot.ground_to_field->Some_0),
                spec_block_on_circle(
                    spec_defense_ball(*self.world_state),
                    spec_defend_target_left(*self.field_dimensions, *self.role_positions),
                    spec_defend_distance(
                        *self.world_state,
                        *self.field_dimensions,
                        *self.role_positions,
                        Side::Left,
                    ),
                ),
            ),
    {
        defend_left_pose(self.world_state, self.field_dimensions, self.role_positions)
    }

    pub fn right(&self) -> (r: Option<Transform<Ground, Ground>>)
        requires
            self.world_state.wf(),
            self.field_dimensions.wf(),
            self.role_positions.wf(),
            spec_defense_ball(*self.world_state) != spec_defend_target_right(
                *self.field_dimensions,
                *self.role_positions,
            ),
        ensures
            (r is Some) <==> self.world_state.robot.ground_to_field is Some,
            r matches Some(p) ==> p == spec_compose(
                spec_inverse(self.world_state.robot.ground_to_field->Some_0),
                spec_block_on_circle(
                    spec_defense_ball(*self.world_state),
                    spec_defend_target_right(*self.field_dimensions, *self.role_positions),
                    spec_defend_distance(
                        *self.world_state,
                        *self.field_dimensions,
                        *self.role_positions,
                        Side::Right,
                    ),
                ),
            ),
    {
        defend_right_pose(self.world_state, self.field_dimensions, self.role_positions)
    }

    pub fn penalty_kick(&self) -> (r: Option<Transform<Ground, Ground>>)
        requires
            self.world_state.wf(),
            self.field_dimensions.wf(),
            self.role_positions.wf(),
            spec_defense_ball(*self.world_state) != spec_defend_target_penalty(
                *self.field_dimensions,
            ),
        ensures
            (r is Some) <==> self.world_state.robot.ground_to_field is Some,
            r matches Some(p) ==> p == spec_compose(
                spec_inverse(self.world_state.robot.ground_to_field->Some_0),
                spec_block_on_circle(
                    spec_defense_ball(*self.world_state),
                    spec_defend_target_penalty(*self.field_dimensions),
                    spec_defend_distance(
                        *self.world_state,
                        *self.field_dimensions,
                        *self.role_positions,
                        Side::Left,
                    ),
                ),
            ),
    {
        defend_penalty_kick(self.world_state, self.field_dimensions, self.role_positions)
    }

    pub fn goal(&self) -> (r: Option<Transform<Ground, Ground>>)
        requires
            self.world_state.wf(),
            self.field_dimensions.wf(),
            self.role_positions.wf(),
        ensures
            (r is Some) <==> self.world_state.robot.ground_to_field is Some,
            r matches Some(p) ==> p == spec_compose(
                spec_inverse(self.world_state.robot.ground_to_field->Some_0),
                spec_block_on_line(
                    spec_defense_ball(*self.world_state),
                    spec_defend_target_goal(*self.field_dimensions),
                    -(self.field_dimensions.length as int / 2) + spec_keeper_x_offset(
                        self.world_state.filtered_game_controller_state,
                        *self.role_positions,
                    ),
                    -KEEPER_LINE_HALF_RANGE as int,
                    KEEPER_LINE_HALF_RANGE as int,
                ),
            ),
    {
        defend_goal_pose(self.world_state, self.field_dimensions, self.role_positions)
    }

    pub fn kick_off(&self) -> (r: Option<Transform<Ground, Ground>>)
        requires
            self.world_state.wf(),
            self.field_dimensions.wf(),
            self.role_positions.wf(),
            spec_kick_off_ball(*self.world_state) != spec_defend_target_kick_off(
                *self.field_dimensions,
            ),
        ensures
            (r is Some) <==> self.world_state.robot.ground_to_field is Some,
            r matches Some(p) ==> p == spec_compose(
                spec_inverse(self.world_state.robot.ground_to_field->Some_0),
                spec_block_on_circle(
                    spec_kick_off_ball(*self.world_state),
                    spec_defend_target_kick_off(*self.field_dimensions),
                    isqrt_spec(
                        crate::frames::spec_dist_squared(
                            spec_defend_target_kick_off(*self.field_dimensions),
                            spec_kick_off_ball(*self.world_state),
                        ),
                    ) - self.field_dimensions.center_circle_diameter as int / 2
                        - self.role_positions.striker_distance_to_non_free_center_circle,
                ),
            ),
    {
        defend_kick_off_pose(self.world_state, self.field_dimensions, self.role_positions)
    }
}

} // verus!
