//! A strategy that proposes no simulations.
use vstd::prelude::*;

verus! {

/// A strategy that proposes no simulations.
#[derive(Debug, Default)]
pub struct SimpleStrategy {}

impl SimpleStrategy {
    /// The simulations the strategy proposes: none.
    pub fn proposals<T>(&self) -> (v: Vec<T>)
        ensures
            v@.len() == 0,
    {
        Vec::new()
    }
}

} // verus!
