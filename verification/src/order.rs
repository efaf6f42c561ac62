//! The order in which the stages reach the device.
//!
//! Whatever calls are made on a pipeline, and in whatever order, what is submitted is always
//! the same story: the init stage once, before anything else, and then whole steps, each an
//! agent update followed by diffusion and decay. Calls that would break the story are refused
//! and submit nothing.

use crate::stage::Stage;
use vstd::prelude::*;

verus! {

/// A call on the pipeline that may submit work.
#[derive(Clone, Copy, Debug, PartialEq, Eq, Structural)]
pub enum Request {
    /// Initialise the field.
    Initialise,
    /// Advance the simulation by one step.
    Step,
}

/// The stages that `request` submits, in order, on a pipeline that is or is not initialised:
/// none where the request is refused.
pub open spec fn stages_of(initialised: bool, request: Request) -> Seq<Stage> {
    match request {
        Request::Initialise => if initialised {
            Seq::empty()
        } else {
            seq![Stage::Init]
        },
        Request::Step => if initialised {
            seq![Stage::AgentUpdate, Stage::DiffuseDecay]
        } else {
            Seq::empty()
        },
    }
}

/// Whether the pipeline is initialised after `request`.
pub open spec fn initialised_after(initialised: bool, request: Request) -> bool {
    initialised || request == Request::Initialise
}

/// All the stages that a run of requests submits, in order.
pub open spec fn stages_submitted(initialised: bool, requests: Seq<Request>) -> Seq<Stage>
    decreases requests.len(),
{
    if requests.len() == 0 {
        Seq::empty()
    } else {
        stages_of(initialised, requests.first()) + stages_submitted(
            initialised_after(initialised, requests.first()),
            requests.drop_first(),
        )
    }
}

/// The stage that stands at `place` in every history: the init stage first, then agent update
/// and diffusion in turn.
pub open spec fn stage_at(place: int) -> Stage {
    if place == 0 {
        Stage::Init
    } else if place % 2 == 1 {
        Stage::AgentUpdate
    } else {
        Stage::DiffuseDecay
    }
}

/// `stages` is the init stage followed by whole steps, or nothing at all.
pub open spec fn in_order(stages: Seq<Stage>) -> bool {
    &&& stages.len() == 0 || stages.len() % 2 == 1
    &&& forall|place: int| 0 <= place < stages.len() ==> stages[place] == stage_at(place)
}

/// On an initialised pipeline, whatever is requested, only whole steps are submitted.
pub proof fn lemma_steps_are_whole(requests: Seq<Request>)
    ensures
        stages_submitted(true, requests).len() % 2 == 0,
        forall|place: int|
            0 <= place < stages_submitted(true, requests).len() ==> stages_submitted(
                true,
                requests,
            )[place] == stage_at(place + 1),
    decreases requests.len(),
{
    if requests.len() > 0 {
        lemma_steps_are_whole(requests.drop_first());
        let later: Seq<Stage> = stages_submitted(true, requests.drop_first());
        let all: Seq<Stage> = stages_submitted(true, requests);
        assert(all == stages_of(true, requests.first()) + later);
        assert forall|place: int| 0 <= place < all.len() implies all[place] == stage_at(
            place + 1,
        ) by {
            if requests.first() == Request::Step && place >= 2 {
                assert(all[place] == later[place - 2]);
            }
        }
    }
}

/// On a pipeline fresh from its construction, whatever is requested and in whatever order, the
/// stages reach the device in order: the init stage once, before any other, and after it whole
/// steps, in each of which the agents are updated before the field is diffused and decayed.
pub proof fn lemma_stages_in_order(requests: Seq<Request>)
    ensures
        in_order(stages_submitted(false, requests)),
    decreases requests.len(),
{
    if requests.len() > 0 {
        let all: Seq<Stage> = stages_submitted(false, requests);
        match requests.first() {
            Request::Step => {
                lemma_stages_in_order(requests.drop_first());
                assert(all =~= stages_submitted(false, requests.drop_first()));
            },
            Request::Initialise => {
                lemma_steps_are_whole(requests.drop_first());
                let later: Seq<Stage> = stages_submitted(true, requests.drop_first());
                assert(all == seq![Stage::Init] + later);
                assert forall|place: int| 0 <= place < all.len() implies all[place] == stage_at(
                    place,
                ) by {
                    if place >= 1 {
                        assert(all[place] == later[place - 1]);
                    }
                }
            },
        }
    }
}

} // verus!
