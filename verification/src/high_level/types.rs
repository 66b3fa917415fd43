//! Simulation settings, as the high-level client names them.
pub use crate::app::{SimulationDataType, SimulationState};
