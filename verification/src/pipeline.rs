//! The compute pipeline: the three stages, in order, over one trail field and one agent pool.
//!
//! The pipeline owns the description of the field and of the pool and decides what is submitted
//! to the device and when. Its answers are submissions: lists of dispatches that the caller
//! records, in order, into a single command buffer and hands to the device queue. Within a
//! submission the queue keeps the order, so the agents of a step sense the field as the step
//! before left it, and the field is faded only after the agents have deposited.

use crate::agent::{Agent, AgentPool, PoolHandle};
use crate::kernel::{dispatched, work_items, WorkItem};
use crate::order::{initialised_after, stages_of, Request};
use crate::parameters::{ConstructionError, ParameterBlock, SimulationParameters};
use crate::stage::Stage;
use crate::trail_field::{FieldAccess, FieldHandle, TrailField};
use crate::workgroup::{
    groups_covering,
    invocation_count,
    least_cover,
    lemma_invocations_covering_is_least,
    whole_groups,
    WORKGROUP_SIZE,
};
use vstd::prelude::*;

verus! {

/// What a dispatch binds.
#[derive(Clone, Copy, Debug, PartialEq, Eq, Structural)]
pub enum Resource {
    /// The trail field, as a storage image.
    TrailField(FieldHandle),
    /// The agent pool, as a storage buffer.
    AgentPool(PoolHandle),
}

/// One entry of the binding set of a dispatch.
#[derive(Clone, Copy, Debug, PartialEq, Eq, Structural)]
pub struct ResourceBinding {
    /// The slot under which the kernel program finds the resource.
    pub slot: u32,
    /// The resource bound there.
    pub resource: Resource,
}

/// The slot of the trail field.
pub const TRAIL_FIELD_SLOT: u32 = 0;

/// The slot of the agent pool.
pub const AGENT_POOL_SLOT: u32 = 1;

/// The binding set of every dispatch under `parameters`: the trail field in the first slot and
/// the agent pool in the second, both to read and to write.
pub open spec fn spec_binding_set(parameters: SimulationParameters) -> [ResourceBinding; 2] {
    [
        ResourceBinding {
            slot: TRAIL_FIELD_SLOT,
            resource: Resource::TrailField(
                FieldHandle {
                    width: parameters.field_width as u32,
                    height: parameters.field_height as u32,
                    access: FieldAccess::ReadWrite,
                },
            ),
        },
        ResourceBinding {
            slot: AGENT_POOL_SLOT,
            resource: Resource::AgentPool(PoolHandle { agents: parameters.agent_count as u32 }),
        },
    ]
}

/// One dispatch of the kernel program.
#[derive(Clone, Copy, Debug, PartialEq, Eq)]
pub struct Dispatch {
    /// The stage that the dispatch runs.
    pub stage: Stage,
    /// Number of invocations: a whole number of workgroups.
    pub invocations: u64,
    /// Number of workgroups along each of the three axes of the dispatch.
    pub group_counts: [u32; 3],
    /// The resources that the kernel program finds bound.
    pub bindings: [ResourceBinding; 2],
    /// The parameters that travel inline with the dispatch.
    pub parameters: ParameterBlock,
}

/// The dispatch of `num_to_process` invocations of `stage` under `parameters`.
pub open spec fn recorded(
    parameters: SimulationParameters,
    stage: Stage,
    num_to_process: u64,
) -> Dispatch {
    Dispatch {
        stage,
        invocations: num_to_process,
        group_counts: [(num_to_process / WORKGROUP_SIZE) as u32, 1u32, 1u32],
        bindings: spec_binding_set(parameters),
        parameters: parameters.spec_block(stage),
    }
}

/// The dispatch of `stage` under `parameters`: as many invocations as cover the work items of
/// the stage in whole workgroups.
pub open spec fn planned(parameters: SimulationParameters, stage: Stage) -> Dispatch {
    recorded(parameters, stage, dispatched(stage, parameters) as u64)
}

/// The invocation count of a planned dispatch is the smallest multiple of the workgroup size
/// that is no less than the number of work items of its stage: the cells of the field for the
/// per-cell stages, the agents for the agent update. Its workgroups are laid out along the
/// first axis.
pub proof fn lemma_planned_covers_least(parameters: SimulationParameters, stage: Stage)
    requires
        parameters.valid(),
    ensures
        least_cover(planned(parameters, stage).invocations as int, work_items(stage, parameters)),
        planned(parameters, stage).invocations == dispatched(stage, parameters),
        planned(parameters, stage).group_counts@ == seq![
            groups_covering(work_items(stage, parameters)) as u32,
            1u32,
            1u32,
        ],
        planned(parameters, stage).group_counts[0] * WORKGROUP_SIZE == planned(
            parameters,
            stage,
        ).invocations,
{
    lemma_dispatch_fits(parameters, stage);
    lemma_invocations_covering_is_least(work_items(stage, parameters));
    assert(planned(parameters, stage).group_counts@ =~= seq![
        groups_covering(work_items(stage, parameters)) as u32,
        1u32,
        1u32,
    ]);
}

/// Under valid parameters, the workgroups of a dispatch can be counted in 32 bits and its
/// invocations in 64.
pub proof fn lemma_dispatch_fits(parameters: SimulationParameters, stage: Stage)
    requires
        parameters.valid(),
    ensures
        0 <= work_items(stage, parameters),
        0 <= groups_covering(work_items(stage, parameters)) <= u32::MAX,
        0 <= dispatched(stage, parameters) <= u64::MAX,
{
    if !stage.per_agent() {
        assert(parameters.cell_count() > 0) by (nonlinear_arith)
            requires
                parameters.field_width > 0,
                parameters.field_height > 0,
        ;
    }
}

/// What is handed to the device queue at once: the dispatches are recorded, in this order, into
/// one command buffer, which runs after the work that the caller named as its predecessor and
/// signals its completion to the caller.
///
/// The predecessor is a handle of the caller's, of whatever type the caller has for work that
/// is under way on the device. The pipeline does not look into it: it passes it on.
#[derive(Debug, PartialEq, Eq)]
pub struct Submission<F> {
    /// The work that the dispatches wait for: none of them begins before it has completed.
    pub before_future: F,
    /// The dispatches, in the order in which they are recorded and run.
    pub dispatches: Vec<Dispatch>,
}

/// The stages of the dispatches of `work`, in order.
pub open spec fn submitted_stages(work: Seq<Dispatch>) -> Seq<Stage> {
    work.map_values(|dispatch: Dispatch| dispatch.stage)
}

/// A call that breaks the order in which the pipeline is to be used.
#[derive(Clone, Copy, Debug, PartialEq, Eq, Structural)]
pub enum PipelineError {
    /// A step was asked for before the field had been initialised.
    NotInitialised,
    /// The field was to be initialised a second time.
    AlreadyInitialised,
}

/// What stands in the way of constructing a pipeline from `parameters` and a list of `listed`
/// initial agents, if anything does: a defect of the parameters first, then a list of another
/// length than the parameters announce.
pub open spec fn construction_defect(parameters: SimulationParameters, listed: nat) -> Option<
    ConstructionError,
> {
    match parameters.defect() {
        Some(defect) => Some(defect),
        None => if listed != parameters.agent_count {
            Some(ConstructionError::AgentCountMismatch)
        } else {
            None
        },
    }
}

/// The compute pipeline of one run.
#[derive(Debug)]
pub struct SlimeComputePipeline {
    parameters: SimulationParameters,
    image: TrailField,
    agent_buffer: AgentPool,
    num_agents: u32,
    initialised: bool,
}

impl SlimeComputePipeline {
    #[verifier::type_invariant]
    spec fn consistent(self) -> bool {
        &&& self.parameters.valid()
        &&& self.image.spec_width() == self.parameters.field_width
        &&& self.image.spec_height() == self.parameters.field_height
        &&& self.agent_buffer@.len() == self.parameters.agent_count
        &&& self.num_agents == self.parameters.agent_count
    }

    /// The configuration that the pipeline was constructed with.
    pub closed spec fn spec_parameters(self) -> SimulationParameters {
        self.parameters
    }

    /// The agents that the pool was constructed from.
    pub closed spec fn spec_agents(self) -> Seq<Agent> {
        self.agent_buffer@
    }

    /// Whether the field has been initialised.
    pub closed spec fn spec_initialised(self) -> bool {
        self.initialised
    }

    /// Constructs the pipeline for a run with the given parameters and initial agents. Neither
    /// can be changed afterwards.
    ///
    /// Fails when the parameters break one of their invariants and when the list does not hold
    /// the number of agents that the parameters announce. Nothing is allocated on the device
    /// before this has succeeded.
    pub fn new(parameters: SimulationParameters, agent_data: Vec<Agent>) -> (pipeline: Result<
        SlimeComputePipeline,
        ConstructionError,
    >)
        ensures
            match pipeline {
                Ok(made) => {
                    &&& construction_defect(parameters, agent_data@.len()) is None
                    &&& parameters.valid()
                    &&& made.spec_parameters() == parameters
                    &&& made.spec_agents() == agent_data@
                    &&& !made.spec_initialised()
                },
                Err(defect) => construction_defect(parameters, agent_data@.len()) == Some(defect),
            },
    {
        match parameters.validate() {
            Err(defect) => {
                return Err(defect);
            },
            Ok(()) => {},
        }
        let image: TrailField = match TrailField::new(
            parameters.field_width,
            parameters.field_height,
        ) {
            Ok(image) => image,
            Err(defect) => {
                return Err(defect);
            },
        };
        let agent_buffer: AgentPool = match AgentPool::new(agent_data, parameters.agent_count) {
            Ok(pool) => pool,
            Err(defect) => {
                return Err(defect);
            },
        };
        let num_agents: u32 = parameters.agent_count as u32;
        Ok(SlimeComputePipeline { parameters, image, agent_buffer, num_agents, initialised: false })
    }

    /// The configuration that the pipeline was constructed with.
    pub fn parameters(&self) -> (parameters: SimulationParameters)
        ensures
            parameters == self.spec_parameters(),
            parameters.valid(),
    {
        proof {
            use_type_invariant(self);
        }
        self.parameters
    }

    /// The agent pool, for the one upload of its initial contents.
    pub fn agent_buffer(&self) -> (pool: &AgentPool)
        ensures
            pool@ == self.spec_agents(),
            pool@.len() == self.spec_parameters().agent_count,
    {
        proof {
            use_type_invariant(self);
        }
        &self.agent_buffer
    }

    /// Number of agents.
    pub fn num_agents(&self) -> (count: u32)
        ensures
            count == self.spec_agents().len(),
            count == self.spec_parameters().agent_count,
    {
        proof {
            use_type_invariant(self);
        }
        self.num_agents
    }

    /// The trail field, for the one allocation of its image.
    pub fn image(&self) -> (field: &TrailField)
        ensures
            field.spec_width() == self.spec_parameters().field_width,
            field.spec_height() == self.spec_parameters().field_height,
    {
        proof {
            use_type_invariant(self);
        }
        &self.image
    }

    /// Whether the field has been initialised.
    pub fn is_initialised(&self) -> (initialised: bool)
        ensures
            initialised == self.spec_initialised(),
    {
        self.initialised
    }

    /// The trail field, for the presentation to sample. The handle shows what the last
    /// submission left in the field, and holds until the next step begins to write: the caller
    /// has its read finished, or ordered on the device before the next step, by then.
    pub fn colour_image(&self) -> (view: FieldHandle)
        ensures
            view.access == FieldAccess::ReadOnly,
            view.width == self.spec_parameters().field_width,
            view.height == self.spec_parameters().field_height,
    {
        proof {
            use_type_invariant(self);
        }
        self.image.bind_for_sample()
    }

    /// Initialises the field: the dispatch of the init stage over every cell, as a submission of
    /// its own, to run after `before_future`. To be called once, before any step, and its
    /// completion awaited before the first frame is shown.
    ///
    /// A second call is refused and changes nothing.
    pub fn init<F>(&mut self, before_future: F) -> (submission: Result<
        Submission<F>,
        PipelineError,
    >)
        ensures
            match submission {
                Ok(work) => {
                    &&& !old(self).spec_initialised()
                    &&& work.before_future == before_future
                    &&& work.dispatches@ == seq![planned(old(self).spec_parameters(), Stage::Init)]
                    &&& least_cover(
                        work.dispatches@[0].invocations as int,
                        old(self).spec_parameters().cell_count(),
                    )
                },
                Err(refusal) => {
                    &&& old(self).spec_initialised()
                    &&& refusal == PipelineError::AlreadyInitialised
                },
            },
            submission matches Ok(work) ==> submitted_stages(work.dispatches@) == stages_of(
                old(self).spec_initialised(),
                Request::Initialise,
            ),
            final(self).spec_initialised() == initialised_after(
                old(self).spec_initialised(),
                Request::Initialise,
            ),
            final(self).spec_parameters() == old(self).spec_parameters(),
            final(self).spec_agents() == old(self).spec_agents(),
    {
        proof {
            use_type_invariant(&*self);
        }
        if self.initialised {
            return Err(PipelineError::AlreadyInitialised);
        }
        proof {
            lemma_dispatch_fits(self.parameters, Stage::Init);
        }
        let num_pixels: u64 = self.image.cell_count();
        let first: Dispatch = self.dispatch(Stage::Init, invocation_count(num_pixels));
        let mut dispatches: Vec<Dispatch> = Vec::new();
        dispatches.push(first);
        self.initialised = true;
        assert(submitted_stages(dispatches@) =~= seq![Stage::Init]);
        Ok(Submission { before_future, dispatches })
    }

    /// Advances the simulation by one step: the agent update, then diffusion and decay, as one
    /// submission, to run after `before_future`. Within the submission the second dispatch
    /// begins only when the first has completed.
    ///
    /// A step before the field has been initialised is refused. Either way the pipeline is as
    /// it was: what a step changes is on the device.
    pub fn compute<F>(&mut self, before_future: F) -> (submission: Result<
        Submission<F>,
        PipelineError,
    >)
        ensures
            match submission {
                Ok(work) => {
                    &&& old(self).spec_initialised()
                    &&& work.before_future == before_future
                    &&& work.dispatches@ == seq![
                        planned(old(self).spec_parameters(), Stage::AgentUpdate),
                        planned(old(self).spec_parameters(), Stage::DiffuseDecay),
                    ]
                    &&& least_cover(
                        work.dispatches@[0].invocations as int,
                        old(self).spec_parameters().agent_count as int,
                    )
                    &&& least_cover(
                        work.dispatches@[1].invocations as int,
                        old(self).spec_parameters().cell_count(),
                    )
                },
                Err(refusal) => {
                    &&& !old(self).spec_initialised()
                    &&& refusal == PipelineError::NotInitialised
                },
            },
            submission matches Ok(work) ==> submitted_stages(work.dispatches@) == stages_of(
                old(self).spec_initialised(),
                Request::Step,
            ),
            *final(self) == *old(self),
    {
        self.step(before_future)
    }

    /// The submission of one step, to run after `before_future`.
    pub(crate) fn step<F>(&self, before_future: F) -> (submission: Result<
        Submission<F>,
        PipelineError,
    >)
        ensures
            match submission {
                Ok(work) => {
                    &&& self.spec_initialised()
                    &&& work.before_future == before_future
                    &&& work.dispatches@ == seq![
                        planned(self.spec_parameters(), Stage::AgentUpdate),
                        planned(self.spec_parameters(), Stage::DiffuseDecay),
                    ]
                    &&& least_cover(
                        work.dispatches@[0].invocations as int,
                        self.spec_parameters().agent_count as int,
                    )
                    &&& least_cover(
                        work.dispatches@[1].invocations as int,
                        self.spec_parameters().cell_count(),
                    )
                    &&& submitted_stages(work.dispatches@) == seq![
                        Stage::AgentUpdate,
                        Stage::DiffuseDecay,
                    ]
                },
                Err(refusal) => {
                    &&& !self.spec_initialised()
                    &&& refusal == PipelineError::NotInitialised
                },
            },
    {
        proof {
            use_type_invariant(self);
        }
        if !self.initialised {
            return Err(PipelineError::NotInitialised);
        }
        proof {
            lemma_dispatch_fits(self.parameters, Stage::AgentUpdate);
            lemma_dispatch_fits(self.parameters, Stage::DiffuseDecay);
        }
        let num_pixels: u64 = self.image.cell_count();
        let agents: Dispatch = self.dispatch(
            Stage::AgentUpdate,
            invocation_count(self.num_agents as u64),
        );
        let field: Dispatch = self.dispatch(Stage::DiffuseDecay, invocation_count(num_pixels));
        let mut dispatches: Vec<Dispatch> = Vec::new();
        dispatches.push(agents);
        dispatches.push(field);
        assert(submitted_stages(dispatches@) =~= seq![Stage::AgentUpdate, Stage::DiffuseDecay]);
        Ok(Submission { before_future, dispatches })
    }

    /// One dispatch of `stage` with `num_to_process` invocations: the binding set, the
    /// parameter block, and the number of workgroups.
    pub fn dispatch(&self, stage: Stage, num_to_process: u64) -> (dispatch: Dispatch)
        requires
            whole_groups(num_to_process as int),
            num_to_process / WORKGROUP_SIZE <= u32::MAX,
        ensures
            dispatch == recorded(self.spec_parameters(), stage, num_to_process),
    {
        proof {
            use_type_invariant(self);
        }
        let groups: u32 = (num_to_process / WORKGROUP_SIZE) as u32;
        let dispatch: Dispatch = Dispatch {
            stage,
            invocations: num_to_process,
            group_counts: [groups, 1, 1],
            bindings: self.binding_set(),
            parameters: self.parameters.block(stage),
        };
        assert(dispatch.group_counts =~= recorded(
            self.spec_parameters(),
            stage,
            num_to_process,
        ).group_counts);
        dispatch
    }

    /// The binding set of a dispatch. It is put together anew for every dispatch, so it can
    /// never be out of date.
    pub fn binding_set(&self) -> (bindings: [ResourceBinding; 2])
        ensures
            bindings == spec_binding_set(self.spec_parameters()),
    {
        proof {
            use_type_invariant(self);
        }
        let bindings: [ResourceBinding; 2] = [
            ResourceBinding {
                slot: TRAIL_FIELD_SLOT,
                resource: Resource::TrailField(self.image.bind_for_compute()),
            },
            ResourceBinding {
                slot: AGENT_POOL_SLOT,
                resource: Resource::AgentPool(self.agent_buffer.bind_for_compute()),
            },
        ];
        assert(bindings =~= spec_binding_set(self.spec_parameters()));
        bindings
    }

    /// The work item of the invocation with index `invocation` in a dispatch of `stage`, if it
    /// has one.
    pub fn work_item(&self, stage: Stage, invocation: u64) -> (item: Option<WorkItem>)
        ensures
            item == crate::kernel::spec_work_item(
                stage,
                self.spec_parameters(),
                invocation as int,
            ),
    {
        proof {
            use_type_invariant(self);
        }
        crate::kernel::work_item(stage, &self.parameters, invocation)
    }
}

} // verus!
