//! A store of simulation results that reports nothing as new.
use vstd::prelude::*;

verus! {

/// A store of simulation results; it reports none of the offered
/// simulations as new.
#[derive(Debug, Default)]
pub struct SqlDb;

impl SqlDb {
    /// The offered simulations that have not run yet: this store reports
    /// none of them, whatever was offered.
    pub fn new_data<T, U>(&self, offered: Vec<T>) -> (pending: Vec<U>)
        ensures
            pending@.len() == 0,
    {
        Vec::new()
    }
}

} // verus!
