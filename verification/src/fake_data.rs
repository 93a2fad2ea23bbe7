//! Fake-data source for simulated robots: produces a defaulted set of main
//! outputs every cycle, which the simulator then overrides as it sees fit.

use vstd::prelude::*;

use crate::frames::{Field, Ground};
use crate::transform::Transform;
use crate::world::{
    BallPosition, FilteredGameControllerState, PenaltyShotDirection, PrimaryState,
};

verus! {

pub struct FakeData {}

/// Creation-time context: nothing is configured here.
pub struct CreationContext {}

/// Cycle-time context: nothing is consumed.
pub struct CycleContext {}

/// The outputs a real perception stack would produce, all defaulted.
#[derive(Debug, PartialEq, Eq)]
pub struct MainOutputs {
    pub ball_position: Option<BallPosition>,
    pub filtered_game_controller_state: Option<FilteredGameControllerState>,
    pub penalty_shot_direction: Option<PenaltyShotDirection>,
    pub primary_state: PrimaryState,
    pub ground_to_field: Option<Transform<Ground, Field>>,
    pub has_ground_contact: bool,
}

impl Default for MainOutputs {
    /// Everything absent, the robot unbooted and on the ground.
    fn default() -> (r: MainOutputs)
        ensures
            r.ball_position is None,
            r.filtered_game_controller_state is None,
            r.penalty_shot_direction is None,
            r.primary_state == PrimaryState::Initial,
            r.ground_to_field is None,
            r.has_ground_contact == true,
    {
        MainOutputs {
            ball_position: None,
            filtered_game_controller_state: None,
            penalty_shot_direction: None,
            primary_state: PrimaryState::Initial,
            ground_to_field: None,
            has_ground_contact: true,
        }
    }
}

impl FakeData {
    pub fn new(_context: CreationContext) -> (r: FakeData) {
        FakeData {  }
    }

    /// Every cycle hands out the defaulted outputs.
    pub fn cycle(&mut self, _context: CycleContext) -> (r: MainOutputs)
        ensures
            r.ball_position is None,
            r.filtered_game_controller_state is None,
            r.penalty_shot_direction is None,
            r.primary_state == PrimaryState::Initial,
            r.ground_to_field is None,
            r.has_ground_contact == true,
            *final(self) == *old(self),
    {
        MainOutputs::default()
    }
}

} // verus!
