//! The decisions of a run: generate simulations, keep the ones not run
//! before, simulate those unless none is left, and end at the first failure.
use vstd::prelude::*;

verus! {

/// What a run does next.
pub enum RunAction<T, E> {
    /// Keep, of these generated simulations, the ones not run before.
    Filter(Vec<T>),
    /// Run these pending simulations.
    Simulate(Vec<T>),
    /// The run is over, with this outcome.
    Finish(Result<(), E>),
}

/// After generation: a failure ends the run with it; otherwise every
/// generated simulation, as generated, goes on to be filtered.
pub fn after_generate<T, E>(generated: Result<Vec<T>, E>) -> (next: RunAction<T, E>)
    ensures
        generated matches Ok(g) ==> next == RunAction::<T, E>::Filter(g),
        generated matches Err(e) ==> next == RunAction::<T, E>::Finish(Err(e)),
{
    match generated {
        Ok(g) => RunAction::Filter(g),
        Err(e) => RunAction::Finish(Err(e)),
    }
}

/// After filtering: a failure ends the run with it; a run with nothing
/// pending ends successfully; otherwise exactly the pending simulations are
/// run.
pub fn after_filter<T, E>(pending: Result<Vec<T>, E>) -> (next: RunAction<T, E>)
    ensures
        pending matches Err(e) ==> next == RunAction::<T, E>::Finish(Err(e)),
        pending matches Ok(p) ==> (p.len() == 0 ==> next == RunAction::<T, E>::Finish(Ok(())))
            && (p.len() > 0 ==> next == RunAction::<T, E>::Simulate(p)),
{
    match pending {
        Ok(p) => if p.len() == 0 {
            RunAction::Finish(Ok(()))
        } else {
            RunAction::Simulate(p)
        },
        Err(e) => RunAction::Finish(Err(e)),
    }
}

/// After simulating: the run ends with the outcome of the simulations.
pub fn after_simulate<T, E>(simulated: Result<(), E>) -> (next: RunAction<T, E>)
    ensures
        next == RunAction::<T, E>::Finish(simulated),
{
    RunAction::Finish(simulated)
}

} // verus!
