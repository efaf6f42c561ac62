//! The configuration of one run, and the block of parameters that goes with every dispatch.

use crate::binary32::Binary32;
use crate::stage::Stage;
use crate::workgroup::{group_count, groups_covering};
use vstd::prelude::*;

verus! {

/// Why a pipeline could not be constructed. Every one of these is final: nothing has been
/// allocated when it is reported, and there is nothing to recover into.
#[derive(Clone, Copy, Debug, PartialEq, Eq, Structural)]
pub enum ConstructionError {
    /// A field dimension is an infinity or a NaN.
    NonFiniteDimension,
    /// A field dimension is below zero.
    NegativeDimension,
    /// A field dimension is zero, or rounds down to zero.
    EmptyDimension,
    /// A field dimension does not fit the 32-bit signed integer that the kernel is given.
    DimensionTooLarge,
    /// The field has more cells than one dispatch can cover.
    FieldTooLarge,
    /// The number of agents is below zero.
    NegativeAgentCount,
    /// A decay or diffusion rate lies outside the range from zero to one.
    RateOutOfRange,
    /// The list of initial agents does not have the configured number of agents.
    AgentCountMismatch,
}

/// What stands in the way of using `number` as a field dimension, if anything does.
pub open spec fn dimension_defect(number: Binary32) -> Option<ConstructionError> {
    if !number.finite() {
        Some(ConstructionError::NonFiniteDimension)
    } else if number.negative() {
        Some(ConstructionError::NegativeDimension)
    } else if number.magnitude_floor() == 0 {
        Some(ConstructionError::EmptyDimension)
    } else if number.magnitude_floor() > i32::MAX {
        Some(ConstructionError::DimensionTooLarge)
    } else {
        None
    }
}

/// The field dimension, in cells, that a single-precision number stands for: the number rounded
/// toward zero. Infinities, NaNs, negative numbers, numbers below one and numbers past the
/// largest 32-bit signed integer are refused.
pub fn field_dimension(number: Binary32) -> (dimension: Result<i32, ConstructionError>)
    ensures
        dimension == match dimension_defect(number) {
            Some(defect) => Err::<i32, ConstructionError>(defect),
            None => Ok(number.magnitude_floor() as i32),
        },
        dimension matches Ok(cells) ==> cells > 0,
{
    if !number.is_finite() {
        return Err(ConstructionError::NonFiniteDimension);
    }
    if number.is_negative() {
        return Err(ConstructionError::NegativeDimension);
    }
    match number.whole_part() {
        None => Err(ConstructionError::DimensionTooLarge),
        Some(whole) => {
            if whole == 0 {
                Err(ConstructionError::EmptyDimension)
            } else if whole > 0x7fff_ffff {
                Err(ConstructionError::DimensionTooLarge)
            } else {
                Ok(whole as i32)
            }
        },
    }
}

/// The tunable constants of one run. The value is made once, handed to the pipeline when that
/// is constructed, and never changed afterwards.
#[derive(Clone, Copy, Debug, PartialEq, Eq, Structural)]
pub struct SimulationParameters {
    /// Width of the trail field, in cells.
    pub field_width: i32,
    /// Height of the trail field, in cells.
    pub field_height: i32,
    /// How far an agent turns in one step, in radians.
    pub turn_speed: Binary32,
    /// How far an agent moves in one step, in cells.
    pub move_speed: Binary32,
    /// How far ahead of itself an agent senses.
    pub sense_distance: Binary32,
    /// The angle between the sensor straight ahead and the sensors to its sides, in radians.
    pub sense_angle: Binary32,
    /// Radius of the square of cells that one sensor samples.
    pub sense_size: i32,
    /// The fraction of a cell's value that one step removes.
    pub decay_rate: Binary32,
    /// The fraction of a cell's value that one step replaces by its neighbourhood's.
    pub diffuse_rate: Binary32,
    /// Number of agents.
    pub agent_count: i32,
}

impl SimulationParameters {
    /// Number of cells in the trail field.
    pub open spec fn cell_count(self) -> int {
        self.field_width * self.field_height
    }

    /// The invariants of the configuration: a field with at least one cell and few enough cells
    /// for one dispatch, a number of agents that is not negative, and rates between zero and
    /// one.
    pub open spec fn valid(self) -> bool {
        &&& self.field_width > 0
        &&& self.field_height > 0
        &&& groups_covering(self.cell_count()) <= u32::MAX
        &&& self.agent_count >= 0
        &&& self.decay_rate.unit_fraction()
        &&& self.diffuse_rate.unit_fraction()
    }

    /// The first invariant that the configuration breaks, if it breaks any.
    pub open spec fn defect(self) -> Option<ConstructionError> {
        if self.field_width < 0 || self.field_height < 0 {
            Some(ConstructionError::NegativeDimension)
        } else if self.field_width == 0 || self.field_height == 0 {
            Some(ConstructionError::EmptyDimension)
        } else if groups_covering(self.cell_count()) > u32::MAX {
            Some(ConstructionError::FieldTooLarge)
        } else if self.agent_count < 0 {
            Some(ConstructionError::NegativeAgentCount)
        } else if !self.decay_rate.unit_fraction() || !self.diffuse_rate.unit_fraction() {
            Some(ConstructionError::RateOutOfRange)
        } else {
            None
        }
    }

    /// Checks the invariants of the configuration, and names the first that is broken.
    pub fn validate(&self) -> (outcome: Result<(), ConstructionError>)
        ensures
            outcome == match self.defect() {
                Some(defect) => Err::<(), ConstructionError>(defect),
                None => Ok(()),
            },
            outcome is Ok <==> self.valid(),
    {
        if self.field_width < 0 || self.field_height < 0 {
            return Err(ConstructionError::NegativeDimension);
        }
        if self.field_width == 0 || self.field_height == 0 {
            return Err(ConstructionError::EmptyDimension);
        }
        let cells: u64 = self.cells();
        if group_count(cells) > 0xffff_ffff {
            return Err(ConstructionError::FieldTooLarge);
        }
        if self.agent_count < 0 {
            return Err(ConstructionError::NegativeAgentCount);
        }
        if !self.decay_rate.is_unit_fraction() || !self.diffuse_rate.is_unit_fraction() {
            return Err(ConstructionError::RateOutOfRange);
        }
        Ok(())
    }

    /// Number of cells in the trail field.
    pub(crate) fn cells(&self) -> (cells: u64)
        requires
            self.field_width >= 0,
            self.field_height >= 0,
        ensures
            cells == self.cell_count(),
    {
        let width: u64 = self.field_width as u64;
        let height: u64 = self.field_height as u64;
        assert(width * height <= 0x7fff_ffff * 0x7fff_ffff) by (nonlinear_arith)
            requires
                width <= 0x7fff_ffff,
                height <= 0x7fff_ffff,
        ;
        width * height
    }

    /// The parameters handed to the kernel with a dispatch of `stage`.
    pub open spec fn spec_block(self, stage: Stage) -> ParameterBlock {
        ParameterBlock {
            stage: stage.spec_selector(),
            agent_count: self.agent_count,
            field_width: self.field_width,
            field_height: self.field_height,
            turn_speed: self.turn_speed,
            move_speed: self.move_speed,
            sense_distance: self.sense_distance,
            sense_angle: self.sense_angle,
            sense_size: self.sense_size,
            decay_rate: self.decay_rate,
            diffuse_rate: self.diffuse_rate,
        }
    }

    /// The parameters handed to the kernel with a dispatch of `stage`: the stage's selector,
    /// then every constant of the configuration.
    pub fn block(&self, stage: Stage) -> (block: ParameterBlock)
        ensures
            block == self.spec_block(stage),
    {
        ParameterBlock {
            stage: stage.selector(),
            agent_count: self.agent_count,
            field_width: self.field_width,
            field_height: self.field_height,
            turn_speed: self.turn_speed,
            move_speed: self.move_speed,
            sense_distance: self.sense_distance,
            sense_angle: self.sense_angle,
            sense_size: self.sense_size,
            decay_rate: self.decay_rate,
            diffuse_rate: self.diffuse_rate,
        }
    }
}

/// Number of 32-bit words in a parameter block.
pub const PARAMETER_WORDS: usize = 11;

/// The parameters that accompany one dispatch. They travel inline with the dispatch, not
/// through the bound buffers, as eleven 32-bit words in the order of the fields.
#[derive(Clone, Copy, Debug, PartialEq, Eq, Structural)]
pub struct ParameterBlock {
    /// The selector of the stage that the dispatch runs.
    pub stage: i32,
    /// Number of agents.
    pub agent_count: i32,
    /// Width of the trail field, in cells.
    pub field_width: i32,
    /// Height of the trail field, in cells.
    pub field_height: i32,
    /// How far an agent turns in one step, in radians.
    pub turn_speed: Binary32,
    /// How far an agent moves in one step, in cells.
    pub move_speed: Binary32,
    /// How far ahead of itself an agent senses.
    pub sense_distance: Binary32,
    /// The angle between the sensor straight ahead and the sensors to its sides, in radians.
    pub sense_angle: Binary32,
    /// Radius of the square of cells that one sensor samples.
    pub sense_size: i32,
    /// The fraction of a cell's value that one step removes.
    pub decay_rate: Binary32,
    /// The fraction of a cell's value that one step replaces by its neighbourhood's.
    pub diffuse_rate: Binary32,
}

/// The 32 bits of a signed integer in two's complement.
pub open spec fn signed_word(value: i32) -> u32 {
    if value >= 0 {
        value as u32
    } else {
        (value + 0x1_0000_0000) as u32
    }
}

/// The 32 bits of a signed integer in two's complement.
pub fn word_of_signed(value: i32) -> (word: u32)
    ensures
        word == signed_word(value),
{
    if value >= 0 {
        value as u32
    } else {
        (value as i64 + 0x1_0000_0000) as u32
    }
}

impl ParameterBlock {
    /// The block as its words, in memory order.
    pub open spec fn spec_words(self) -> Seq<u32> {
        seq![
            signed_word(self.stage),
            signed_word(self.agent_count),
            signed_word(self.field_width),
            signed_word(self.field_height),
            self.turn_speed.bits,
            self.move_speed.bits,
            self.sense_distance.bits,
            self.sense_angle.bits,
            signed_word(self.sense_size),
            self.decay_rate.bits,
            self.diffuse_rate.bits,
        ]
    }

    /// The block as it lies in memory: one word per field, in the order of the fields, the
    /// integers in two's complement and the single-precision numbers as their bits.
    pub fn words(&self) -> (words: [u32; PARAMETER_WORDS])
        ensures
            words@ == self.spec_words(),
    {
        let words: [u32; PARAMETER_WORDS] = [
            word_of_signed(self.stage),
            word_of_signed(self.agent_count),
            word_of_signed(self.field_width),
            word_of_signed(self.field_height),
            self.turn_speed.bits,
            self.move_speed.bits,
            self.sense_distance.bits,
            self.sense_angle.bits,
            word_of_signed(self.sense_size),
            self.decay_rate.bits,
            self.diffuse_rate.bits,
        ];
        assert(words@ =~= self.spec_words());
        words
    }
}

} // verus!
