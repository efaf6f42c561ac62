//! Agents, and the pool of them as it is uploaded to the device.
//!
//! An agent is a position and a heading. It has no identity but its place in the pool, and the
//! host never looks at it again once the pool has been uploaded: from then on the agents live
//! on the device and only the kernel reads and writes them.

use crate::binary32::Binary32;
use crate::parameters::ConstructionError;
use vstd::prelude::*;

verus! {

/// Number of 32-bit words that one agent takes in the device buffer.
pub const AGENT_WORDS: usize = 4;

/// Number of bytes that one agent takes in the device buffer.
pub const AGENT_STRIDE: u64 = 16;

/// One simulated particle.
#[derive(Clone, Copy, Debug, PartialEq, Eq)]
pub struct Agent {
    /// Where the agent is, in cells from the field's origin: first across, then down.
    pub position: [Binary32; 2],
    /// Where the agent is headed, in radians.
    pub heading: Binary32,
}

impl Agent {
    /// The agent as it lies in the device buffer: the two coordinates of the position, the
    /// heading, and one word of padding that brings the record to sixteen bytes.
    pub open spec fn spec_record(self) -> Seq<u32> {
        seq![self.position[0].bits, self.position[1].bits, self.heading.bits, 0u32]
    }

    /// The agent as it lies in the device buffer.
    pub fn record(&self) -> (record: [u32; AGENT_WORDS])
        ensures
            record@ == self.spec_record(),
    {
        let record: [u32; AGENT_WORDS] = [
            self.position[0].bits,
            self.position[1].bits,
            self.heading.bits,
            0,
        ];
        assert(record@ =~= self.spec_record());
        record
    }
}

/// The device buffer that holds `agents`, word by word: the records of the agents, one after
/// the other in the order of the list.
pub open spec fn buffer_words(agents: Seq<Agent>) -> Seq<u32> {
    Seq::new(
        agents.len() * (AGENT_WORDS as nat),
        |word: int| agents[word / (AGENT_WORDS as int)].spec_record()[word % (AGENT_WORDS as int)],
    )
}

/// The pool as the compute stages bind it: to read and to write.
#[derive(Clone, Copy, Debug, PartialEq, Eq, Structural)]
pub struct PoolHandle {
    /// Number of agents in the pool.
    pub agents: u32,
}

/// The agents of a run. The pool is sized once, by the list it is made from, and offers no way
/// to add, remove or change an agent.
#[derive(Debug)]
pub struct AgentPool {
    agents: Vec<Agent>,
}

impl View for AgentPool {
    type V = Seq<Agent>;

    closed spec fn view(&self) -> Seq<Agent> {
        self.agents@
    }
}

impl AgentPool {
    #[verifier::type_invariant]
    spec fn countable(self) -> bool {
        self.agents@.len() <= i32::MAX
    }

    /// Makes the pool that holds `agents`, for a run configured with `agent_count` agents.
    ///
    /// Fails when the configured number is negative, and when the list has another length.
    pub fn new(agents: Vec<Agent>, agent_count: i32) -> (pool: Result<AgentPool, ConstructionError>)
        ensures
            match pool {
                Ok(made) => agent_count >= 0 && agents@.len() == agent_count && made@ == agents@,
                Err(ConstructionError::NegativeAgentCount) => agent_count < 0,
                Err(ConstructionError::AgentCountMismatch) => agent_count >= 0 && agents@.len()
                    != agent_count,
                Err(_) => false,
            },
    {
        if agent_count < 0 {
            return Err(ConstructionError::NegativeAgentCount);
        }
        if agents.len() as u64 != agent_count as u64 {
            return Err(ConstructionError::AgentCountMismatch);
        }
        Ok(AgentPool { agents })
    }

    /// Number of agents in the pool.
    pub fn len(&self) -> (count: usize)
        ensures
            count == self@.len(),
    {
        self.agents.len()
    }

    /// Number of records that the device buffer has room for. A device buffer cannot be empty,
    /// so the buffer of an empty pool has room for one record, which no invocation addresses.
    pub fn allocation_len(&self) -> (records: usize)
        ensures
            records == if self@.len() == 0 { 1 } else { self@.len() },
    {
        if self.agents.len() == 0 {
            1
        } else {
            self.agents.len()
        }
    }

    /// The pool as the compute stages bind it.
    pub fn bind_for_compute(&self) -> (bound: PoolHandle)
        ensures
            bound.agents == self@.len(),
    {
        proof {
            use_type_invariant(self);
        }
        PoolHandle { agents: self.agents.len() as u32 }
    }

    /// The contents of the device buffer, word by word, as they are uploaded.
    pub fn upload(&self) -> (words: Vec<u32>)
        ensures
            words@ == buffer_words(self@),
    {
        let mut words: Vec<u32> = Vec::new();
        let mut done: usize = 0;
        while done < self.agents.len()
            invariant
                done <= self.agents.len(),
                words@ == buffer_words(self.agents@.take(done as int)),
            decreases self.agents.len() - done,
        {
            let record: [u32; AGENT_WORDS] = self.agents[done].record();
            let ghost before: Seq<u32> = words@;
            words.push(record[0]);
            words.push(record[1]);
            words.push(record[2]);
            words.push(record[3]);
            proof {
                let grown: Seq<Agent> = self.agents@.take(done + 1);
                assert(grown.take(done as int) =~= self.agents@.take(done as int));
                assert(words@ =~= buffer_words(grown)) by {
                    assert forall|word: int| 0 <= word < words@.len() implies words@[word]
                        == buffer_words(grown)[word] by {
                        if word < before.len() {
                            assert(grown[word / 4] == self.agents@.take(done as int)[word / 4]);
                        } else {
                            assert(word / 4 == done);
                        }
                    }
                }
            }
            done += 1;
        }
        assert(self.agents@.take(done as int) =~= self.agents@);
        words
    }
}

} // verus!
