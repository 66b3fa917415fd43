//! Simulation settings shared by both clients, and the run loop's decision.
pub mod runner;

use vstd::prelude::*;

verus! {

/// The kind of a simulation.
#[derive(Debug, Clone, Copy, PartialEq, Eq)]
pub enum SimulationDataType {
    REGULAR,
}

/// A three-way switch of a simulation setting.
#[derive(Debug, Clone, Copy, PartialEq, Eq)]
pub enum SimulationState {
    ON,
    OFF,
    VERIFY,
}

/// Region, universe, instrument type and delay of a simulation or a query.
#[derive(Debug, Clone)]
pub struct BaseSetting {
    pub delay: u8,
    pub instrument_type: String,
    pub region: String,
    pub universe: String,
}

} // verus!
