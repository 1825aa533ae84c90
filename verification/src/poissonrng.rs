//! The dimension of the Poisson random sequence generator.
use vstd::prelude::*;

use crate::common::ErrorKind;

verus! {

/// The largest dimension a sequence generator accepts, 16 Mi components.
pub const MAX_SEQUENCE_DIMENSION: usize = 16777216;

/// A dimension outside `[1, MAX_SEQUENCE_DIMENSION]`.
#[derive(Debug, Clone, Copy, PartialEq, Eq)]
pub struct DimensionOutOfRange;

impl DimensionOutOfRange {
    /// The refusal raises `ItofinError`.
    pub fn kind(&self) -> (k: ErrorKind)
        ensures
            k == ErrorKind::Itofin,
    {
        ErrorKind::Itofin
    }
}

/// Checks a sequence generator's dimension.
pub fn check_sequence_dimension(dimension: usize) -> (r: Result<(), DimensionOutOfRange>)
    ensures
        r is Ok <==> 1 <= dimension <= MAX_SEQUENCE_DIMENSION,
{
    if dimension < 1 || dimension > MAX_SEQUENCE_DIMENSION {
        return Err(DimensionOutOfRange);
    }
    Ok(())
}

} // verus!
