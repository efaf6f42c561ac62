//! The three stages of the simulation.
//!
//! All three run the same kernel program; a selector handed over with every dispatch tells the
//! program which of them it is running.

use vstd::prelude::*;

verus! {

/// One of the dispatches that evolve the simulation.
#[derive(Clone, Copy, Debug, PartialEq, Eq, Structural)]
pub enum Stage {
    /// Gives every cell of the trail field its initial value. Runs once, before anything else.
    Init,
    /// Lets every agent sense, turn, move and deposit. Runs first in every step.
    AgentUpdate,
    /// Blends every cell with its neighbours and fades it. Runs second in every step.
    DiffuseDecay,
}

impl Stage {
    /// The value by which the kernel program tells the stages apart.
    pub open spec fn spec_selector(self) -> i32 {
        match self {
            Stage::Init => 0,
            Stage::AgentUpdate => 1,
            Stage::DiffuseDecay => 2,
        }
    }

    /// The stage works through the agents; the other stages work through the cells.
    pub open spec fn per_agent(self) -> bool {
        self == Stage::AgentUpdate
    }

    /// The value by which the kernel program tells the stages apart.
    pub fn selector(&self) -> (selector: i32)
        ensures
            selector == self.spec_selector(),
    {
        match self {
            Stage::Init => 0,
            Stage::AgentUpdate => 1,
            Stage::DiffuseDecay => 2,
        }
    }
}

} // verus!
