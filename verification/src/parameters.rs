//! Externally configured dimensions and role parameters, in ticks.

use vstd::prelude::*;

use crate::math::{abs_int, FIELD_LIMIT};

verus! {

/// The measured dimensions of the playing field.
#[derive(Clone, Copy, Debug, PartialEq, Eq, Structural)]
pub struct FieldDimensions {
    pub length: i64,
    pub width: i64,
    pub penalty_area_length: i64,
    pub penalty_area_width: i64,
    pub center_circle_diameter: i64,
}

impl FieldDimensions {
    pub open spec fn wf(self) -> bool {
        &&& 0 <= self.length <= FIELD_LIMIT
        &&& 0 <= self.width <= FIELD_LIMIT
        &&& 0 <= self.penalty_area_length <= FIELD_LIMIT
        &&& 0 <= self.penalty_area_width <= FIELD_LIMIT
        &&& 0 <= self.center_circle_diameter <= FIELD_LIMIT
    }
}

/// Offsets and radii that parameterize the defending roles.
#[derive(Clone, Copy, Debug, PartialEq, Eq, Structural)]
pub struct RolePositionsParameters {
    pub defender_y_offset: i64,
    pub defender_aggressive_ring_radius: i64,
    pub defender_passive_ring_radius: i64,
    pub keeper_x_offset: i64,
    pub striker_distance_to_non_free_center_circle: i64,
}

impl RolePositionsParameters {
    pub open spec fn wf(self) -> bool {
        &&& 0 <= self.defender_y_offset <= FIELD_LIMIT
        &&& 0 <= self.defender_aggressive_ring_radius <= FIELD_LIMIT
        &&& 0 <= self.defender_passive_ring_radius <= FIELD_LIMIT
        &&& 0 <= self.keeper_x_offset <= FIELD_LIMIT
        &&& 0 <= self.striker_distance_to_non_free_center_circle <= FIELD_LIMIT
    }
}

/// Distance and velocity thresholds that gate ball interception.
#[derive(Clone, Copy, Debug, PartialEq, Eq, Structural)]
pub struct InterceptBallParameters {
    pub maximum_ball_distance: i64,
    pub minimum_ball_velocity_towards_robot: i64,
    pub minimum_ball_velocity: i64,
    pub minimum_ball_velocity_towards_own_half: i64,
    pub maximum_intercept_distance: i64,
}

impl InterceptBallParameters {
    pub open spec fn wf(self) -> bool {
        &&& 0 <= self.maximum_ball_distance <= FIELD_LIMIT
        &&& 0 <= self.minimum_ball_velocity_towards_robot <= FIELD_LIMIT
        &&& 0 <= self.minimum_ball_velocity <= FIELD_LIMIT
        &&& 0 <= self.minimum_ball_velocity_towards_own_half <= FIELD_LIMIT
        &&& 0 <= self.maximum_intercept_distance <= FIELD_LIMIT
    }
}

} // verus!
