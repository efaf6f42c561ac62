//! The decisions of the frame driver.
//!
//! The driver paces the simulation, acquires a surface to present to, asks the pipeline for one
//! step per frame and hands the outcome to the presentation. Acquiring, submitting and
//! presenting are the caller's part; what to do with what came back is decided here.

use crate::agent::Agent;
use crate::parameters::{ConstructionError, SimulationParameters};
use crate::pipeline::{
    construction_defect,
    planned,
    PipelineError,
    SlimeComputePipeline,
    Submission,
};
use crate::stage::Stage;
use crate::trail_field::{FieldAccess, FieldHandle};
use vstd::pervasive::unreached;
use vstd::prelude::*;

verus! {

/// Number of frames per second that the driver aims at.
pub const FRAME_RATE: u128 = 60;

/// Number of nanoseconds in a second.
pub const NANOS_PER_SECOND: u128 = 1_000_000_000;

/// Whether the next frame is due, `elapsed_nanos` nanoseconds after the last one: when more
/// than one sixtieth of a second has passed.
pub fn frame_is_due(elapsed_nanos: u128) -> (due: bool)
    ensures
        due == (elapsed_nanos * FRAME_RATE > NANOS_PER_SECOND),
{
    elapsed_nanos > NANOS_PER_SECOND / FRAME_RATE
}

/// What the driver found when it went to acquire a surface for the frame.
#[derive(Debug, PartialEq, Eq)]
pub enum SurfaceStatus<F> {
    /// The window has no area, so no surface was asked for.
    Minimised,
    /// The surface could not be acquired this time.
    Unavailable,
    /// A surface was acquired; the handle is signalled when it may be drawn to.
    Ready(F),
}

/// Why a frame was left out.
#[derive(Clone, Copy, Debug, PartialEq, Eq, Structural)]
pub enum SkipReason {
    /// The window has no area.
    EmptyWindow,
    /// The surface could not be acquired. The next frame tries again.
    SurfaceUnavailable,
}

/// What the driver is to do with the frame.
#[derive(Debug, PartialEq, Eq)]
pub enum FramePlan<F> {
    /// Leave the frame out: submit nothing, present nothing. The simulation stands still for
    /// the frame.
    Skip(SkipReason),
    /// Submit `submission`, which waits for the acquired surface; then let the presentation
    /// draw `view` behind the submission, and present.
    Present { submission: Submission<F>, view: FieldHandle },
}

impl<F> SurfaceStatus<F> {
    /// Why a frame with this surface is left out, if it is.
    pub open spec fn skip_reason(self) -> Option<SkipReason> {
        match self {
            SurfaceStatus::Minimised => Some(SkipReason::EmptyWindow),
            SurfaceStatus::Unavailable => Some(SkipReason::SurfaceUnavailable),
            SurfaceStatus::Ready(_) => None,
        }
    }
}

/// The application: the pipeline, once the first frame has been put on its way.
#[derive(Debug)]
pub struct SlimeApp {
    pipeline: Option<SlimeComputePipeline>,
}

impl SlimeApp {
    #[verifier::type_invariant]
    spec fn opened_means_initialised(self) -> bool {
        self.pipeline matches Some(pipeline) ==> pipeline.spec_initialised()
    }

    /// The pipeline, if the application has been opened.
    pub closed spec fn spec_pipeline(self) -> Option<SlimeComputePipeline> {
        self.pipeline
    }

    /// An application that has not been opened.
    pub fn new() -> (app: SlimeApp)
        ensures
            app.spec_pipeline() is None,
    {
        SlimeApp { pipeline: None }
    }

    /// The pipeline, if the application has been opened.
    pub fn pipeline(&self) -> (pipeline: Option<&SlimeComputePipeline>)
        ensures
            match pipeline {
                Some(held) => self.spec_pipeline() == Some(*held) && held.spec_initialised(),
                None => self.spec_pipeline() is None,
            },
    {
        proof {
            use_type_invariant(self);
        }
        self.pipeline.as_ref()
    }

    /// Opens the application: constructs the pipeline and, if a surface is ready, plans the
    /// first frame, which initialises the field.
    ///
    /// A pipeline that cannot be constructed is a fatal error. Without a surface the frame is
    /// left out, the pipeline is dropped again, and the application is as it was.
    pub fn open<F>(
        &mut self,
        parameters: SimulationParameters,
        agent_data: Vec<Agent>,
        surface: SurfaceStatus<F>,
    ) -> (plan: Result<FramePlan<F>, ConstructionError>)
        ensures
            match plan {
                Err(defect) => {
                    &&& construction_defect(parameters, agent_data@.len()) == Some(defect)
                    &&& *final(self) == *old(self)
                },
                Ok(FramePlan::Skip(reason)) => {
                    &&& construction_defect(parameters, agent_data@.len()) is None
                    &&& surface.skip_reason() == Some(reason)
                    &&& *final(self) == *old(self)
                },
                Ok(FramePlan::Present { submission, view }) => {
                    &&& construction_defect(parameters, agent_data@.len()) is None
                    &&& surface == SurfaceStatus::Ready(submission.before_future)
                    &&& submission.dispatches@ == seq![planned(parameters, Stage::Init)]
                    &&& view == (FieldHandle {
                        width: parameters.field_width as u32,
                        height: parameters.field_height as u32,
                        access: FieldAccess::ReadOnly,
                    })
                    &&& final(self).spec_pipeline() matches Some(pipeline)
                    &&& pipeline.spec_parameters() == parameters
                    &&& pipeline.spec_agents() == agent_data@
                    &&& pipeline.spec_initialised()
                },
            },
    {
        let mut pipeline: SlimeComputePipeline = match SlimeComputePipeline::new(
            parameters,
            agent_data,
        ) {
            Ok(pipeline) => pipeline,
            Err(defect) => {
                return Err(defect);
            },
        };
        match surface {
            SurfaceStatus::Minimised => Ok(FramePlan::Skip(SkipReason::EmptyWindow)),
            SurfaceStatus::Unavailable => Ok(FramePlan::Skip(SkipReason::SurfaceUnavailable)),
            SurfaceStatus::Ready(before_future) => {
                match pipeline.init(before_future) {
                    Ok(submission) => {
                        let view: FieldHandle = pipeline.colour_image();
                        self.pipeline = Some(pipeline);
                        Ok(FramePlan::Present { submission, view })
                    },
                    Err(_) => unreached(),
                }
            },
        }
    }
}

/// Plans one frame: one step of the simulation, which waits for the acquired surface, then its
/// presentation.
///
/// Without a surface the frame is left out, step and all: the simulation is exactly where it
/// was. An application that has not been opened cannot step, which is reported unless the
/// window has no area.
pub fn compute_then_render<F>(app: &mut SlimeApp, surface: SurfaceStatus<F>) -> (plan: Result<
    FramePlan<F>,
    PipelineError,
>)
    ensures
        *final(app) == *old(app),
        match plan {
            Err(refusal) => {
                &&& !(surface is Minimised)
                &&& old(app).spec_pipeline() is None
                &&& refusal == PipelineError::NotInitialised
            },
            Ok(FramePlan::Skip(reason)) => {
                &&& surface.skip_reason() == Some(reason)
                &&& surface is Minimised || old(app).spec_pipeline() is Some
            },
            Ok(FramePlan::Present { submission, view }) => {
                &&& surface == SurfaceStatus::Ready(submission.before_future)
                &&& old(app).spec_pipeline() matches Some(pipeline)
                &&& submission.dispatches@ == seq![
                    planned(pipeline.spec_parameters(), Stage::AgentUpdate),
                    planned(pipeline.spec_parameters(), Stage::DiffuseDecay),
                ]
                &&& view == (FieldHandle {
                    width: pipeline.spec_parameters().field_width as u32,
                    height: pipeline.spec_parameters().field_height as u32,
                    access: FieldAccess::ReadOnly,
                })
            },
        },
{
    proof {
        use_type_invariant(&*app);
    }
    match surface {
        SurfaceStatus::Minimised => Ok(FramePlan::Skip(SkipReason::EmptyWindow)),
        SurfaceStatus::Unavailable => {
            match &app.pipeline {
                None => Err(PipelineError::NotInitialised),
                Some(_) => Ok(FramePlan::Skip(SkipReason::SurfaceUnavailable)),
            }
        },
        SurfaceStatus::Ready(before_future) => {
            match &app.pipeline {
                None => Err(PipelineError::NotInitialised),
                Some(pipeline) => {
                    match pipeline.step(before_future) {
                        Ok(submission) => {
                            let view: FieldHandle = pipeline.colour_image();
                            Ok(FramePlan::Present { submission, view })
                        },
                        Err(_) => unreached(),
                    }
                },
            }
        },
    }
}

/// What the window system reports to the driver.
#[derive(Clone, Copy, Debug, PartialEq, Eq, Structural)]
pub enum DriverEvent {
    /// The user asked to close the window with the given identifier.
    CloseRequested { window: u64 },
    /// Everything that was pending has been delivered.
    MainEventsCleared,
    /// Anything else.
    Other,
}

/// The windows that are asked to close by the events that the driver gets to see: polling ends
/// with the first report that everything pending has been delivered, and what follows it waits
/// for the next poll.
pub open spec fn closed_windows(events: Seq<DriverEvent>) -> Seq<u64>
    decreases events.len(),
{
    if events.len() == 0 {
        Seq::empty()
    } else {
        match events.first() {
            DriverEvent::MainEventsCleared => Seq::empty(),
            DriverEvent::CloseRequested { window } => seq![window] + closed_windows(
                events.drop_first(),
            ),
            DriverEvent::Other => closed_windows(events.drop_first()),
        }
    }
}

/// The outcome of one poll of the window system.
#[derive(Debug, PartialEq, Eq)]
pub struct Polled {
    /// Whether the application goes on: no window was asked to close.
    pub running: bool,
    /// The windows that were asked to close, in the order of the requests. Their renderers are
    /// to be removed.
    pub closed: Vec<u64>,
}

/// Works through the events of one poll.
pub fn handle_window_events(events: &Vec<DriverEvent>) -> (polled: Polled)
    ensures
        polled.closed@ == closed_windows(events@),
        polled.running == (closed_windows(events@).len() == 0),
{
    let mut closed: Vec<u64> = Vec::new();
    let mut seen: usize = 0;
    let mut cleared: bool = false;
    assert(events@.skip(0) =~= events@);
    assert(closed@ + closed_windows(events@) =~= closed_windows(events@));
    while seen < events.len() && !cleared
        invariant
            seen <= events.len(),
            closed_windows(events@) == closed@ + if cleared {
                Seq::<u64>::empty()
            } else {
                closed_windows(events@.skip(seen as int))
            },
        decreases events.len() - seen + if cleared { 0int } else { 1int },
    {
        let ghost rest: Seq<DriverEvent> = events@.skip(seen as int);
        assert(rest.first() == events@[seen as int]);
        assert(rest.drop_first() =~= events@.skip(seen + 1));
        match events[seen] {
            DriverEvent::MainEventsCleared => {
                cleared = true;
            },
            DriverEvent::CloseRequested { window } => {
                let ghost before: Seq<u64> = closed@;
                closed.push(window);
                assert(closed@ + closed_windows(rest.drop_first()) =~= before + (seq![window]
                    + closed_windows(rest.drop_first())));
                seen += 1;
            },
            DriverEvent::Other => {
                seen += 1;
            },
        }
    }
    let running: bool = closed.len() == 0;
    Polled { running, closed }
}

} // verus!
