//! What is settled about the kernel program.
//!
//! The arithmetic of sensing, turning, depositing, blending and fading belongs to the program
//! that runs on the device. What the host relies on is settled here: which work item an
//! invocation addresses, that the invocations past the last work item touch nothing, and where
//! an agent lands when a move takes it off the field.

use crate::parameters::SimulationParameters;
use crate::stage::Stage;
use crate::workgroup::{invocations_covering, lemma_invocations_covering_is_least};
use vstd::arithmetic::div_mod::{
    lemma_fundamental_div_mod,
    lemma_fundamental_div_mod_converse,
    lemma_mod_bound,
};
use vstd::prelude::*;

verus! {

/// What one invocation of the kernel works on.
#[derive(Clone, Copy, Debug, PartialEq, Eq, Structural)]
pub enum WorkItem {
    /// The cell in column `x` and row `y` of the trail field.
    Cell { x: u32, y: u32 },
    /// The agent at place `index` of the pool.
    Agent { index: u32 },
}

/// Number of work items of `stage`: the agents for the agent update, the cells of the field for
/// the other stages.
pub open spec fn work_items(stage: Stage, parameters: SimulationParameters) -> int {
    if stage.per_agent() {
        parameters.agent_count as int
    } else {
        parameters.cell_count()
    }
}

/// Number of invocations in a dispatch of `stage`.
pub open spec fn dispatched(stage: Stage, parameters: SimulationParameters) -> int {
    invocations_covering(work_items(stage, parameters))
}

/// The invocation of a per-cell stage that addresses the cell in column `x` and row `y`: the
/// cells are numbered row by row.
pub open spec fn cell_invocation(parameters: SimulationParameters, x: int, y: int) -> int {
    y * parameters.field_width + x
}

/// The work item of the invocation with index `invocation`, if it has one.
pub open spec fn spec_work_item(
    stage: Stage,
    parameters: SimulationParameters,
    invocation: int,
) -> Option<WorkItem> {
    if invocation < 0 || invocation >= work_items(stage, parameters) {
        None
    } else if stage.per_agent() {
        Some(WorkItem::Agent { index: invocation as u32 })
    } else {
        Some(
            WorkItem::Cell {
                x: (invocation % (parameters.field_width as int)) as u32,
                y: (invocation / (parameters.field_width as int)) as u32,
            },
        )
    }
}

/// The work item of the invocation with index `invocation` in a dispatch of `stage`, over a
/// field that has at least one cell.
///
/// An invocation whose index is not below the number of work items has none: it is there only
/// because dispatches come in whole workgroups, and it changes nothing.
pub fn work_item(stage: Stage, parameters: &SimulationParameters, invocation: u64) -> (item: Option<
    WorkItem,
>)
    requires
        parameters.field_width > 0,
        parameters.field_height > 0,
    ensures
        item == spec_work_item(stage, *parameters, invocation as int),
        invocation >= work_items(stage, *parameters) ==> item is None,
{
    match stage {
        Stage::AgentUpdate => {
            if parameters.agent_count > 0 && invocation < parameters.agent_count as u64 {
                Some(WorkItem::Agent { index: invocation as u32 })
            } else {
                None
            }
        },
        _ => {
            let cells: u64 = parameters.cells();
            if invocation < cells {
                let width: u64 = parameters.field_width as u64;
                proof {
                    lemma_cell_in_field(*parameters, invocation as int);
                }
                let x: u32 = (invocation % width) as u32;
                let y: u32 = (invocation / width) as u32;
                Some(WorkItem::Cell { x, y })
            } else {
                None
            }
        },
    }
}

/// An invocation below the number of cells addresses a column and a row inside the field.
pub proof fn lemma_cell_in_field(parameters: SimulationParameters, invocation: int)
    requires
        parameters.field_width > 0,
        parameters.field_height > 0,
        0 <= invocation < parameters.cell_count(),
    ensures
        0 <= invocation % (parameters.field_width as int) < parameters.field_width,
        0 <= invocation / (parameters.field_width as int) < parameters.field_height,
{
    let width: int = parameters.field_width as int;
    let height: int = parameters.field_height as int;
    lemma_mod_bound(invocation, width);
    lemma_fundamental_div_mod(invocation, width);
    let row: int = invocation / width;
    assert(row < height) by (nonlinear_arith)
        requires
            width > 0,
            invocation == width * row + invocation % width,
            0 <= invocation % width,
            invocation < width * height,
    ;
    assert(row >= 0) by (nonlinear_arith)
        requires
            width > 0,
            invocation == width * row + invocation % width,
            invocation % width < width,
            invocation >= 0,
    ;
}

/// A dispatch of a per-cell stage reaches every cell of the field exactly once: the cell in
/// column `x` and row `y` is the work item of the invocation `y * width + x`, which is among
/// those dispatched, and of no other.
pub proof fn lemma_every_cell_once(stage: Stage, parameters: SimulationParameters, x: int, y: int)
    requires
        !stage.per_agent(),
        0 <= x < parameters.field_width,
        0 <= y < parameters.field_height,
    ensures
        0 <= cell_invocation(parameters, x, y) < parameters.cell_count(),
        cell_invocation(parameters, x, y) < dispatched(stage, parameters),
        spec_work_item(stage, parameters, cell_invocation(parameters, x, y)) == Some(
            WorkItem::Cell { x: x as u32, y: y as u32 },
        ),
        forall|other: int| #[trigger]
            spec_work_item(stage, parameters, other) == Some(
                WorkItem::Cell { x: x as u32, y: y as u32 },
            ) ==> other == cell_invocation(parameters, x, y),
{
    let width: int = parameters.field_width as int;
    let height: int = parameters.field_height as int;
    let here: int = cell_invocation(parameters, x, y);
    assert(0 <= y * width && y * width + width <= width * height) by (nonlinear_arith)
        requires
            0 <= y < height,
            width > 0,
    ;
    lemma_fundamental_div_mod_converse(here, width, y, x);
    lemma_invocations_covering_is_least(parameters.cell_count());
    assert forall|other: int| #[trigger]
        spec_work_item(stage, parameters, other) == Some(
            WorkItem::Cell { x: x as u32, y: y as u32 },
        ) implies other == here by {
        lemma_cell_in_field(parameters, other);
        lemma_fundamental_div_mod(other, width);
        assert(width * (other / width) == (other / width) * width) by (nonlinear_arith);
    }
}

/// A dispatch of the agent update reaches every agent exactly once: the agent at place `index`
/// is the work item of the invocation `index`, which is among those dispatched, and of no other.
pub proof fn lemma_every_agent_once(parameters: SimulationParameters, index: int)
    requires
        0 <= index < parameters.agent_count,
    ensures
        index < dispatched(Stage::AgentUpdate, parameters),
        spec_work_item(Stage::AgentUpdate, parameters, index) == Some(
            WorkItem::Agent { index: index as u32 },
        ),
        forall|other: int| #[trigger]
            spec_work_item(Stage::AgentUpdate, parameters, other) == Some(
                WorkItem::Agent { index: index as u32 },
            ) ==> other == index,
{
    lemma_invocations_covering_is_least(parameters.agent_count as int);
}

/// The invocations of a dispatch that lie past the last work item have no work item: they
/// change neither the field nor the agents. With no agents at all, no invocation of the agent
/// update has one.
pub proof fn lemma_surplus_invocations_idle(
    stage: Stage,
    parameters: SimulationParameters,
    invocation: int,
)
    requires
        work_items(stage, parameters) <= invocation,
    ensures
        spec_work_item(stage, parameters, invocation) is None,
{
}

/// What becomes of an agent whose move takes it off the field.
#[derive(Clone, Copy, Debug, PartialEq, Eq, Structural)]
pub enum BoundaryMode {
    /// The agent comes back in at the opposite edge.
    Wrap,
    /// The agent stays at the edge that it would have crossed.
    Clamp,
}

/// The boundary mode of the simulation: the field has no edge, and what leaves on one side
/// comes back in on the other.
pub const BOUNDARY_MODE: BoundaryMode = BoundaryMode::Wrap;

impl BoundaryMode {
    /// The column or row, inside a field of `extent` columns or rows, that stands for
    /// `coordinate`.
    pub open spec fn spec_place(self, coordinate: int, extent: int) -> int {
        match self {
            BoundaryMode::Wrap => coordinate % extent,
            BoundaryMode::Clamp => if coordinate < 0 {
                0
            } else if coordinate >= extent {
                extent - 1
            } else {
                coordinate
            },
        }
    }

    /// Whatever the mode, a coordinate is placed inside the field, and one that was inside
    /// stays where it was.
    pub proof fn lemma_placed_inside(self, coordinate: int, extent: int)
        requires
            extent > 0,
        ensures
            0 <= self.spec_place(coordinate, extent) < extent,
            0 <= coordinate < extent ==> self.spec_place(coordinate, extent) == coordinate,
    {
        lemma_mod_bound(coordinate, extent);
        if 0 <= coordinate < extent {
            lemma_fundamental_div_mod_converse(coordinate, extent, 0, coordinate);
        }
    }

    /// The column or row, inside a field of `extent` columns or rows, in which an agent lands
    /// whose move would have taken it to `coordinate`.
    pub fn place(&self, coordinate: i64, extent: u32) -> (placed: u32)
        requires
            extent > 0,
        ensures
            placed == self.spec_place(coordinate as int, extent as int),
            placed < extent,
            0 <= coordinate < extent ==> placed == coordinate,
    {
        proof {
            self.lemma_placed_inside(coordinate as int, extent as int);
        }
        let span: i64 = extent as i64;
        match self {
            BoundaryMode::Wrap => {
                if coordinate >= 0 {
                    (coordinate % span) as u32
                } else {
                    let mirrored: i64 = -(coordinate + 1);
                    let back: i64 = mirrored % span;
                    proof {
                        lemma_fundamental_div_mod(mirrored as int, span as int);
                        lemma_mod_bound(mirrored as int, span as int);
                        let turns: int = mirrored as int / span as int;
                        assert(coordinate == (-turns - 1) * span + (span - 1 - back))
                            by (nonlinear_arith)
                            requires
                                mirrored == -(coordinate + 1),
                                mirrored == span * turns + back,
                        ;
                        lemma_fundamental_div_mod_converse(
                            coordinate as int,
                            span as int,
                            -turns - 1,
                            span - 1 - back,
                        );
                    }
                    (span - 1 - back) as u32
                }
            },
            BoundaryMode::Clamp => {
                if coordinate < 0 {
                    0
                } else if coordinate >= span {
                    extent - 1
                } else {
                    coordinate as u32
                }
            },
        }
    }
}

} // verus!
