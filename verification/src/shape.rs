//! Shape dispatch: the closed, exact mapping from a sector-size value to
//! the Merkle-tree shape that the proving engine must be instantiated with.

use vstd::prelude::*;
use crate::errors::WorkerError;

verus! {

/// The Merkle-tree layout bound to one supported sector size. The
/// enumeration is closed: exactly one variant corresponds to each supported
/// size, and a size outside the table is a hard dispatch failure, never a
/// default.
#[derive(Clone, Copy, Debug, PartialEq, Eq, Structural)]
pub enum SectorShape {
    Shape2KiB,
    Shape4KiB,
    Shape16KiB,
    Shape32KiB,
    Shape8MiB,
    Shape16MiB,
    Shape512MiB,
    Shape1GiB,
    Shape32GiB,
    Shape64GiB,
}

pub const SECTOR_SIZE_2_KIB: u64 = 2048;

pub const SECTOR_SIZE_4_KIB: u64 = 4096;

pub const SECTOR_SIZE_16_KIB: u64 = 16384;

pub const SECTOR_SIZE_32_KIB: u64 = 32768;

pub const SECTOR_SIZE_8_MIB: u64 = 8388608;

pub const SECTOR_SIZE_16_MIB: u64 = 16777216;

pub const SECTOR_SIZE_512_MIB: u64 = 536870912;

pub const SECTOR_SIZE_1_GIB: u64 = 1073741824;

pub const SECTOR_SIZE_32_GIB: u64 = 34359738368;

pub const SECTOR_SIZE_64_GIB: u64 = 68719476736;

/// The fixed lookup table: the shape bound to a sector size, or `None` for
/// a size outside the supported enumeration.
pub open spec fn shape_of_size(size: u64) -> Option<SectorShape> {
    if size == SECTOR_SIZE_2_KIB {
        Some(SectorShape::Shape2KiB)
    } else if size == SECTOR_SIZE_4_KIB {
        Some(SectorShape::Shape4KiB)
    } else if size == SECTOR_SIZE_16_KIB {
        Some(SectorShape::Shape16KiB)
    } else if size == SECTOR_SIZE_32_KIB {
        Some(SectorShape::Shape32KiB)
    } else if size == SECTOR_SIZE_8_MIB {
        Some(SectorShape::Shape8MiB)
    } else if size == SECTOR_SIZE_16_MIB {
        Some(SectorShape::Shape16MiB)
    } else if size == SECTOR_SIZE_512_MIB {
        Some(SectorShape::Shape512MiB)
    } else if size == SECTOR_SIZE_1_GIB {
        Some(SectorShape::Shape1GiB)
    } else if size == SECTOR_SIZE_32_GIB {
        Some(SectorShape::Shape32GiB)
    } else if size == SECTOR_SIZE_64_GIB {
        Some(SectorShape::Shape64GiB)
    } else {
        None
    }
}

/// Whether a sector-size value is in the supported enumeration.
pub open spec fn size_is_supported(size: u64) -> bool {
    shape_of_size(size) is Some
}

/// What `dispatch` returns for every sector-size value.
pub open spec fn dispatch_result(size: u64) -> Result<SectorShape, WorkerError> {
    match shape_of_size(size) {
        Some(shape) => Ok(shape),
        None => Err(WorkerError::UnrecognizedShapeError),
    }
}

/// Resolve the shape for a sector size. This is a pure selection step with
/// no side effects: a supported size selects exactly the shape the table
/// binds to it, and any other value fails with `UnrecognizedShapeError`.
pub fn dispatch(sector_size: u64) -> (r: Result<SectorShape, WorkerError>)
    ensures
        r == dispatch_result(sector_size),
{
    if sector_size == SECTOR_SIZE_2_KIB {
        Ok(SectorShape::Shape2KiB)
    } else if sector_size == SECTOR_SIZE_4_KIB {
        Ok(SectorShape::Shape4KiB)
    } else if sector_size == SECTOR_SIZE_16_KIB {
        Ok(SectorShape::Shape16KiB)
    } else if sector_size == SECTOR_SIZE_32_KIB {
        Ok(SectorShape::Shape32KiB)
    } else if sector_size == SECTOR_SIZE_8_MIB {
        Ok(SectorShape::Shape8MiB)
    } else if sector_size == SECTOR_SIZE_16_MIB {
        Ok(SectorShape::Shape16MiB)
    } else if sector_size == SECTOR_SIZE_512_MIB {
        Ok(SectorShape::Shape512MiB)
    } else if sector_size == SECTOR_SIZE_1_GIB {
        Ok(SectorShape::Shape1GiB)
    } else if sector_size == SECTOR_SIZE_32_GIB {
        Ok(SectorShape::Shape32GiB)
    } else if sector_size == SECTOR_SIZE_64_GIB {
        Ok(SectorShape::Shape64GiB)
    } else {
        Err(WorkerError::UnrecognizedShapeError)
    }
}

/// Dispatch selects exactly one shape per supported size: any two dispatch
/// results for the same sector-size value name the same shape, so repeated
/// calls are stable.
pub proof fn lemma_dispatch_stable(size: u64, shape1: SectorShape, shape2: SectorShape)
    requires
        dispatch_result(size) == Ok::<SectorShape, WorkerError>(shape1),
        dispatch_result(size) == Ok::<SectorShape, WorkerError>(shape2),
    ensures
        shape1 == shape2,
{
}

/// Dispatch never substitutes a default: a result shape certifies that the
/// size is supported and is the table's own entry for it, and every
/// unsupported size fails with `UnrecognizedShapeError`.
pub proof fn lemma_dispatch_exact(size: u64)
    ensures
        dispatch_result(size) is Ok ==> size_is_supported(size) && dispatch_result(
            size,
        )->Ok_0 == shape_of_size(size)->Some_0,
        !size_is_supported(size) ==> dispatch_result(size) == Err::<
            SectorShape,
            WorkerError,
        >(WorkerError::UnrecognizedShapeError),
{
}

} // verus!
