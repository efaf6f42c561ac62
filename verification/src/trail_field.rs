//! The trail field: the one piece of state that all stages share.
//!
//! The field is a two-dimensional image on the device. The agents deposit into it and sense from
//! it, the diffusion stage blends and fades it, and the presentation samples it: there is a single
//! instance, and whoever reads it reads what the last dispatch left there.

use crate::parameters::ConstructionError;
use vstd::prelude::*;

verus! {

/// Number of channels in one cell.
pub const FIELD_CHANNELS: u32 = 4;

/// Number of bits in one channel. A channel holds a normalised value: all bits clear stand for
/// zero, all bits set for one.
pub const CHANNEL_BITS: u32 = 8;

/// Number of bytes in one cell.
pub const CELL_BYTES: u64 = 4;

/// What the holder of a handle may do with the field.
#[derive(Clone, Copy, Debug, PartialEq, Eq, Structural)]
pub enum FieldAccess {
    /// Read and write single cells, as the compute stages do.
    ReadWrite,
    /// Sample the field as a texture, as the presentation does.
    ReadOnly,
}

/// The field as it is handed to one of its users.
#[derive(Clone, Copy, Debug, PartialEq, Eq, Structural)]
pub struct FieldHandle {
    /// Width of the field, in cells.
    pub width: u32,
    /// Height of the field, in cells.
    pub height: u32,
    /// What the holder may do with the field.
    pub access: FieldAccess,
}

/// The trail field of a run. Its dimensions are fixed when it is made.
#[derive(Debug)]
pub struct TrailField {
    width: u32,
    height: u32,
}

impl TrailField {
    #[verifier::type_invariant]
    spec fn within_limits(self) -> bool {
        &&& 0 < self.width <= i32::MAX
        &&& 0 < self.height <= i32::MAX
    }

    /// Width of the field, in cells.
    pub closed spec fn spec_width(self) -> int {
        self.width as int
    }

    /// Height of the field, in cells.
    pub closed spec fn spec_height(self) -> int {
        self.height as int
    }

    /// The handle with the given access to this field.
    pub open spec fn handle(self, access: FieldAccess) -> FieldHandle {
        FieldHandle { width: self.spec_width() as u32, height: self.spec_height() as u32, access }
    }

    /// Describes a field of `width` by `height` cells.
    ///
    /// Fails when a dimension is negative, and when one is zero.
    pub fn new(width: i32, height: i32) -> (field: Result<TrailField, ConstructionError>)
        ensures
            match field {
                Ok(made) => width > 0 && height > 0 && made.spec_width() == width
                    && made.spec_height() == height,
                Err(ConstructionError::NegativeDimension) => width < 0 || height < 0,
                Err(ConstructionError::EmptyDimension) => width >= 0 && height >= 0 && (width == 0
                    || height == 0),
                Err(_) => false,
            },
    {
        if width < 0 || height < 0 {
            Err(ConstructionError::NegativeDimension)
        } else if width == 0 || height == 0 {
            Err(ConstructionError::EmptyDimension)
        } else {
            Ok(TrailField { width: width as u32, height: height as u32 })
        }
    }

    /// Width and height of the field, in cells.
    pub fn extent(&self) -> (extent: [u32; 2])
        ensures
            extent@ == seq![self.spec_width() as u32, self.spec_height() as u32],
            0 < self.spec_width() <= i32::MAX,
            0 < self.spec_height() <= i32::MAX,
    {
        proof {
            use_type_invariant(self);
        }
        let extent: [u32; 2] = [self.width, self.height];
        assert(extent@ =~= seq![self.width, self.height]);
        extent
    }

    /// Number of cells in the field.
    pub fn cell_count(&self) -> (cells: u64)
        ensures
            cells == self.spec_width() * self.spec_height(),
            cells > 0,
    {
        proof {
            use_type_invariant(self);
        }
        let width: u64 = self.width as u64;
        let height: u64 = self.height as u64;
        assert(0 < width * height <= 0x7fff_ffff * 0x7fff_ffff) by (nonlinear_arith)
            requires
                0 < width <= 0x7fff_ffff,
                0 < height <= 0x7fff_ffff,
        ;
        width * height
    }

    /// The field as the compute stages bind it: to read and to write.
    pub fn bind_for_compute(&self) -> (bound: FieldHandle)
        ensures
            bound == self.handle(FieldAccess::ReadWrite),
    {
        FieldHandle { width: self.width, height: self.height, access: FieldAccess::ReadWrite }
    }

    /// The field as the presentation binds it: to sample, not to write.
    pub fn bind_for_sample(&self) -> (bound: FieldHandle)
        ensures
            bound == self.handle(FieldAccess::ReadOnly),
    {
        FieldHandle { width: self.width, height: self.height, access: FieldAccess::ReadOnly }
    }
}

} // verus!
