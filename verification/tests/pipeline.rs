use slime_moulds::agent::{Agent, PoolHandle};
use slime_moulds::binary32::Binary32;
use slime_moulds::kernel::{WorkItem, BOUNDARY_MODE};
use slime_moulds::parameters::{ConstructionError, SimulationParameters};
use slime_moulds::pipeline::{
    Dispatch, PipelineError, Resource, ResourceBinding, SlimeComputePipeline, Submission,
    AGENT_POOL_SLOT, TRAIL_FIELD_SLOT,
};
use slime_moulds::stage::Stage;
use slime_moulds::trail_field::{FieldAccess, FieldHandle};

fn number(value: f32) -> Binary32 {
    Binary32::from_bits(value.to_bits())
}

fn agent(x: f32, y: f32, heading: f32) -> Agent {
    Agent { position: [number(x), number(y)], heading: number(heading) }
}

fn agents(count: usize) -> Vec<Agent> {
    (0..count).map(|place| agent(place as f32, 1.0, 0.0)).collect()
}

fn parameters(width: i32, height: i32, agent_count: i32) -> SimulationParameters {
    SimulationParameters {
        field_width: width,
        field_height: height,
        turn_speed: number(0.7),
        move_speed: number(1.0),
        sense_distance: number(15.0),
        sense_angle: number(1.25),
        sense_size: 7,
        decay_rate: number(0.002),
        diffuse_rate: number(0.05),
        agent_count,
    }
}

fn bindings(parameters: &SimulationParameters) -> [ResourceBinding; 2] {
    [
        ResourceBinding {
            slot: 0,
            resource: Resource::TrailField(FieldHandle {
                width: parameters.field_width as u32,
                height: parameters.field_height as u32,
                access: FieldAccess::ReadWrite,
            }),
        },
        ResourceBinding {
            slot: 1,
            resource: Resource::AgentPool(PoolHandle { agents: parameters.agent_count as u32 }),
        },
    ]
}

fn expected(parameters: &SimulationParameters, stage: Stage, invocations: u64) -> Dispatch {
    Dispatch {
        stage,
        invocations,
        group_counts: [(invocations / 64) as u32, 1, 1],
        bindings: bindings(parameters),
        parameters: parameters.block(stage),
    }
}

#[test]
fn trail_field_is_bound_first_and_agent_pool_second() {
    assert_eq!(TRAIL_FIELD_SLOT, 0);
    assert_eq!(AGENT_POOL_SLOT, 1);
    let configured = parameters(640, 480, 3);
    let pipeline = SlimeComputePipeline::new(configured, agents(3)).unwrap();
    assert_eq!(
        pipeline.binding_set(),
        [
            ResourceBinding {
                slot: 0,
                resource: Resource::TrailField(FieldHandle {
                    width: 640,
                    height: 480,
                    access: FieldAccess::ReadWrite,
                }),
            },
            ResourceBinding { slot: 1, resource: Resource::AgentPool(PoolHandle { agents: 3 }) },
        ]
    );
}

#[test]
fn construction_keeps_parameters_and_agents() {
    let configured = parameters(1920, 1080, 3);
    let pipeline = SlimeComputePipeline::new(configured, agents(3)).unwrap();
    assert_eq!(pipeline.parameters(), configured);
    assert_eq!(pipeline.num_agents(), 3);
    assert_eq!(pipeline.agent_buffer().len(), 3);
    assert_eq!(pipeline.agent_buffer().upload().len(), 12);
    assert_eq!(pipeline.image().extent(), [1920, 1080]);
    assert!(!pipeline.is_initialised());
}

#[test]
fn construction_uploads_the_listed_agents_as_they_are() {
    let listed = vec![agent(5.0, 6.0, 0.5), agent(7.0, 8.0, 1.5)];
    let pipeline = SlimeComputePipeline::new(parameters(64, 64, 2), listed.clone()).unwrap();
    let words = pipeline.agent_buffer().upload();
    assert_eq!(words[0..4], listed[0].record());
    assert_eq!(words[4..8], listed[1].record());
}

#[test]
fn construction_with_a_negative_dimension_fails() {
    for (width, height) in [(-1920, 1080), (1920, -1080), (-1, -1), (i32::MIN, 5)] {
        assert_eq!(
            SlimeComputePipeline::new(parameters(width, height, 0), Vec::new()).unwrap_err(),
            ConstructionError::NegativeDimension
        );
    }
}

#[test]
fn construction_with_an_empty_dimension_fails() {
    for (width, height) in [(0, 1080), (1920, 0), (0, 0)] {
        assert_eq!(
            SlimeComputePipeline::new(parameters(width, height, 0), Vec::new()).unwrap_err(),
            ConstructionError::EmptyDimension
        );
    }
}

#[test]
fn construction_with_too_large_a_field_fails() {
    assert_eq!(
        SlimeComputePipeline::new(parameters(1_000_000, 1_000_000, 0), Vec::new()).unwrap_err(),
        ConstructionError::FieldTooLarge
    );
}

#[test]
fn construction_with_a_negative_agent_count_fails() {
    assert_eq!(
        SlimeComputePipeline::new(parameters(10, 10, -1), Vec::new()).unwrap_err(),
        ConstructionError::NegativeAgentCount
    );
}

#[test]
fn construction_with_a_rate_out_of_range_fails() {
    let mut configured = parameters(10, 10, 0);
    configured.decay_rate = number(1.5);
    assert_eq!(
        SlimeComputePipeline::new(configured, Vec::new()).unwrap_err(),
        ConstructionError::RateOutOfRange
    );
}

#[test]
fn construction_with_a_mismatched_agent_list_fails() {
    assert_eq!(
        SlimeComputePipeline::new(parameters(10, 10, 3), agents(2)).unwrap_err(),
        ConstructionError::AgentCountMismatch
    );
    assert_eq!(
        SlimeComputePipeline::new(parameters(10, 10, 0), agents(1)).unwrap_err(),
        ConstructionError::AgentCountMismatch
    );
}

#[test]
fn defect_of_the_parameters_is_named_before_a_mismatch() {
    assert_eq!(
        SlimeComputePipeline::new(parameters(0, 10, 3), agents(2)).unwrap_err(),
        ConstructionError::EmptyDimension
    );
}

#[test]
fn init_dispatches_stage_zero_over_the_field() {
    let configured = parameters(10, 10, 1);
    let mut pipeline = SlimeComputePipeline::new(configured, agents(1)).unwrap();
    let submission = pipeline.init(0u32).unwrap();
    assert_eq!(
        submission,
        Submission {
            before_future: 0,
            dispatches: vec![expected(&configured, Stage::Init, 128)],
        }
    );
    assert_eq!(submission.dispatches[0].group_counts, [2, 1, 1]);
    assert_eq!(submission.dispatches[0].parameters.stage, 0);
    assert!(pipeline.is_initialised());
}

#[test]
fn init_of_a_full_hd_field_takes_32400_workgroups() {
    let configured = parameters(1920, 1080, 0);
    let mut pipeline = SlimeComputePipeline::new(configured, Vec::new()).unwrap();
    let submission = pipeline.init(0u32).unwrap();
    assert_eq!(submission.dispatches.len(), 1);
    assert_eq!(submission.dispatches[0].invocations, 2_073_600);
    assert_eq!(submission.dispatches[0].group_counts, [32_400, 1, 1]);
}

#[test]
fn init_twice_is_refused() {
    let mut pipeline = SlimeComputePipeline::new(parameters(10, 10, 0), Vec::new()).unwrap();
    assert!(pipeline.init(0u32).is_ok());
    assert_eq!(pipeline.init(0u32), Err(PipelineError::AlreadyInitialised));
    assert!(pipeline.is_initialised());
}

#[test]
fn step_before_init_is_refused() {
    let mut pipeline = SlimeComputePipeline::new(parameters(10, 10, 1), agents(1)).unwrap();
    assert_eq!(pipeline.compute(0u32), Err(PipelineError::NotInitialised));
    assert!(!pipeline.is_initialised());
    assert!(pipeline.init(0u32).is_ok());
    assert!(pipeline.compute(0u32).is_ok());
}

#[test]
fn step_dispatches_agents_then_field() {
    let configured = parameters(10, 10, 65);
    let mut pipeline = SlimeComputePipeline::new(configured, agents(65)).unwrap();
    pipeline.init(0u32).unwrap();
    let submission = pipeline.compute(0u32).unwrap();
    assert_eq!(
        submission,
        Submission {
            before_future: 0,
            dispatches: vec![
                expected(&configured, Stage::AgentUpdate, 128),
                expected(&configured, Stage::DiffuseDecay, 128),
            ],
        }
    );
    assert_eq!(submission.dispatches[0].parameters.stage, 1);
    assert_eq!(submission.dispatches[1].parameters.stage, 2);
}

#[test]
fn every_step_is_planned_alike() {
    let configured = parameters(100, 30, 50_000);
    let mut pipeline = SlimeComputePipeline::new(configured, agents(50_000)).unwrap();
    pipeline.init(0u32).unwrap();
    let first = pipeline.compute(0u32).unwrap();
    assert_eq!(first.dispatches[0].invocations, 50_048);
    assert_eq!(first.dispatches[0].group_counts, [782, 1, 1]);
    assert_eq!(first.dispatches[1].invocations, 3_008);
    assert_eq!(first.dispatches[1].group_counts, [47, 1, 1]);
    for _ in 0..100 {
        assert_eq!(pipeline.compute(0u32).unwrap(), first);
    }
    assert_eq!(pipeline.parameters(), configured);
    assert_eq!(pipeline.num_agents(), 50_000);
}

#[test]
fn every_dispatch_carries_the_whole_configuration() {
    let configured = parameters(10, 10, 1);
    let mut pipeline = SlimeComputePipeline::new(configured, agents(1)).unwrap();
    let mut dispatches = pipeline.init(0u32).unwrap().dispatches;
    dispatches.extend(pipeline.compute(0u32).unwrap().dispatches);
    assert_eq!(dispatches.len(), 3);
    for dispatch in dispatches {
        assert_eq!(dispatch.parameters, configured.block(dispatch.stage));
        assert_eq!(dispatch.bindings, bindings(&configured));
        assert_eq!(dispatch.invocations % 64, 0);
        assert_eq!(dispatch.group_counts[0] as u64 * 64, dispatch.invocations);
        let words = dispatch.parameters.words();
        assert_eq!(words[1], 1);
        assert_eq!(words[2], 10);
        assert_eq!(words[3], 10);
        assert_eq!(words[5], 1.0f32.to_bits());
    }
}

#[test]
fn dispatch_divides_the_invocations_into_workgroups() {
    let configured = parameters(10, 10, 1);
    let pipeline = SlimeComputePipeline::new(configured, agents(1)).unwrap();
    assert_eq!(
        pipeline.dispatch(Stage::DiffuseDecay, 640),
        expected(&configured, Stage::DiffuseDecay, 640)
    );
    assert_eq!(pipeline.dispatch(Stage::Init, 0).group_counts, [0, 1, 1]);
    assert_eq!(pipeline.dispatch(Stage::Init, 64 * u32::MAX as u64).group_counts, [u32::MAX, 1, 1]);
}

#[test]
fn colour_image_is_the_field_read_only() {
    let mut pipeline = SlimeComputePipeline::new(parameters(640, 480, 0), Vec::new()).unwrap();
    let view = FieldHandle { width: 640, height: 480, access: FieldAccess::ReadOnly };
    assert_eq!(pipeline.colour_image(), view);
    pipeline.init(0u32).unwrap();
    pipeline.compute(0u32).unwrap();
    assert_eq!(pipeline.colour_image(), view);
}

#[test]
fn largest_dispatchable_field_is_accepted() {
    let configured = parameters(4_194_368, 65_535, 0);
    let mut pipeline = SlimeComputePipeline::new(configured, Vec::new()).unwrap();
    let submission = pipeline.init(0u32).unwrap();
    assert_eq!(submission.dispatches[0].group_counts, [u32::MAX, 1, 1]);
    assert_eq!(submission.dispatches[0].invocations, 64 * u32::MAX as u64);
}

#[test]
fn without_agents_only_the_field_stage_has_work() {
    let configured = parameters(7, 5, 0);
    let mut pipeline = SlimeComputePipeline::new(configured, Vec::new()).unwrap();
    assert_eq!(pipeline.agent_buffer().upload(), Vec::<u32>::new());
    pipeline.init(0u32).unwrap();
    for _ in 0..10 {
        let submission = pipeline.compute(0u32).unwrap();
        assert_eq!(submission.dispatches[0].stage, Stage::AgentUpdate);
        assert_eq!(submission.dispatches[0].invocations, 0);
        assert_eq!(submission.dispatches[0].group_counts, [0, 1, 1]);
        assert_eq!(submission.dispatches[0].parameters.agent_count, 0);
        assert_eq!(submission.dispatches[1].stage, Stage::DiffuseDecay);
        assert_eq!(submission.dispatches[1].invocations, 64);
        assert_eq!(submission.dispatches[1].parameters.decay_rate, number(0.002));
    }
    for invocation in 0..64 {
        assert_eq!(pipeline.work_item(Stage::AgentUpdate, invocation), None);
    }
}

#[test]
fn single_agent_in_the_middle_is_stepped_by_one_invocation() {
    let mut configured = parameters(64, 48, 1);
    configured.move_speed = number(1.0);
    configured.turn_speed = number(0.0);
    configured.sense_distance = number(0.0);
    let start = agent(32.0, 24.0, 0.0);
    let mut pipeline = SlimeComputePipeline::new(configured, vec![start]).unwrap();
    assert_eq!(
        pipeline.agent_buffer().upload(),
        vec![32.0f32.to_bits(), 24.0f32.to_bits(), 0.0f32.to_bits(), 0]
    );
    pipeline.init(0u32).unwrap();
    let submission = pipeline.compute(0u32).unwrap();
    let update = &submission.dispatches[0];
    assert_eq!(update.stage, Stage::AgentUpdate);
    assert_eq!(update.invocations, 64);
    assert_eq!(update.group_counts, [1, 1, 1]);
    let words = update.parameters.words();
    assert_eq!(words[0], 1);
    assert_eq!(words[1], 1);
    assert_eq!(f32::from_bits(words[4]), 0.0);
    assert_eq!(f32::from_bits(words[5]), 1.0);
    assert_eq!(f32::from_bits(words[6]), 0.0);
    assert_eq!(pipeline.work_item(Stage::AgentUpdate, 0), Some(WorkItem::Agent { index: 0 }));
    for invocation in 1..64 {
        assert_eq!(pipeline.work_item(Stage::AgentUpdate, invocation), None);
    }
    assert_eq!(BOUNDARY_MODE.place(32 + 1, 64), 33);
    assert_eq!(BOUNDARY_MODE.place(24, 48), 24);
    assert_eq!(
        pipeline.work_item(Stage::DiffuseDecay, 24 * 64 + 32),
        Some(WorkItem::Cell { x: 32, y: 24 })
    );
}

#[test]
fn single_agent_at_the_edge_comes_back_on_the_other_side() {
    assert_eq!(BOUNDARY_MODE.place(63 + 1, 64), 0);
    assert_eq!(BOUNDARY_MODE.place(0 - 1, 64), 63);
}

#[test]
fn stages_reach_the_device_in_order_whatever_is_called() {
    let mut seed: u32 = 0x2545_f491;
    for _ in 0..200 {
        let configured = parameters(16, 16, 2);
        let mut pipeline = SlimeComputePipeline::new(configured, agents(2)).unwrap();
        let mut history: Vec<Stage> = Vec::new();
        for _ in 0..40 {
            seed ^= seed << 13;
            seed ^= seed >> 17;
            seed ^= seed << 5;
            let outcome =
                if seed % 3 == 0 { pipeline.init(seed) } else { pipeline.compute(seed) };
            if let Ok(submission) = outcome {
                history.extend(submission.dispatches.iter().map(|dispatch| dispatch.stage));
            }
        }
        assert!(history.is_empty() || history.len() % 2 == 1);
        for (place, stage) in history.iter().enumerate() {
            let due = if place == 0 {
                Stage::Init
            } else if place % 2 == 1 {
                Stage::AgentUpdate
            } else {
                Stage::DiffuseDecay
            };
            assert_eq!(*stage, due);
        }
    }
}

#[test]
fn refused_calls_submit_nothing_and_change_nothing() {
    let configured = parameters(16, 16, 2);
    let mut pipeline = SlimeComputePipeline::new(configured, agents(2)).unwrap();
    for _ in 0..5 {
        assert_eq!(pipeline.compute(0u32), Err(PipelineError::NotInitialised));
        assert!(!pipeline.is_initialised());
    }
    pipeline.init(0u32).unwrap();
    for _ in 0..5 {
        assert_eq!(pipeline.init(0u32), Err(PipelineError::AlreadyInitialised));
        assert!(pipeline.is_initialised());
        assert_eq!(pipeline.parameters(), configured);
    }
}

#[test]
fn submission_waits_for_the_named_predecessor() {
    let mut pipeline = SlimeComputePipeline::new(parameters(16, 16, 2), agents(2)).unwrap();
    assert_eq!(pipeline.init("acquired").unwrap().before_future, "acquired");
    for frame in 0u64..20 {
        assert_eq!(pipeline.compute(frame).unwrap().before_future, frame);
    }
    let handed_over = pipeline.compute(vec![1u8, 2, 3]).unwrap();
    assert_eq!(handed_over.before_future, vec![1u8, 2, 3]);
    assert_eq!(handed_over.dispatches.len(), 2);
}
