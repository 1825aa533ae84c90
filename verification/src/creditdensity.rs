//! The default-density curves: their interpolation names and their nodes.
use vstd::prelude::*;

use crate::common::ErrorKind;
use crate::text::str_eq;

verus! {

/// Interpolations of the default-density curves.
#[derive(Debug, Clone, Copy, PartialEq, Eq)]
pub enum DensityInterpolation {
    BackwardFlat,
    Linear,
}

/// An interpolation name other than `"BackwardFlat"` and `"Linear"`.
#[derive(Debug, Clone, Copy, PartialEq, Eq)]
pub struct UnknownDensityInterpolation;

impl UnknownDensityInterpolation {
    /// The refusal raises `ValueError`.
    pub fn kind(&self) -> (k: ErrorKind)
        ensures
            k == ErrorKind::Value,
    {
        ErrorKind::Value
    }
}

/// `"BackwardFlat"` or `"Linear"`, by exact name.
pub open spec fn density_interpolation_spec(name: Seq<char>) -> Option<DensityInterpolation> {
    if name == "BackwardFlat"@ {
        Some(DensityInterpolation::BackwardFlat)
    } else if name == "Linear"@ {
        Some(DensityInterpolation::Linear)
    } else {
        None
    }
}

/// The name of each default-density interpolation.
pub open spec fn density_interpolation_name(i: DensityInterpolation) -> Seq<char> {
    match i {
        DensityInterpolation::BackwardFlat => "BackwardFlat"@,
        DensityInterpolation::Linear => "Linear"@,
    }
}

/// A density curve builds the interpolation its name names.
pub proof fn lemma_density_interpolation_names(name: Seq<char>, i: DensityInterpolation)
    ensures
        density_interpolation_spec(name) == Some(i) <==> name == density_interpolation_name(i),
{
    reveal_strlit("BackwardFlat");
    reveal_strlit("Linear");
    assert("BackwardFlat"@.len() != "Linear"@.len());
}

/// The interpolation a default-density curve is built with.
pub fn density_interpolation(name: &str) -> (r: Result<DensityInterpolation, UnknownDensityInterpolation>)
    ensures
        match density_interpolation_spec(name@) {
            Some(i) => r == Ok::<DensityInterpolation, UnknownDensityInterpolation>(i),
            None => r == Err::<DensityInterpolation, UnknownDensityInterpolation>(
                UnknownDensityInterpolation,
            ),
        },
{
    if str_eq(name, "BackwardFlat") {
        Ok(DensityInterpolation::BackwardFlat)
    } else if str_eq(name, "Linear") {
        Ok(DensityInterpolation::Linear)
    } else {
        Err(UnknownDensityInterpolation)
    }
}

/// A curve's nodes as `(date, value)` pairs: the i-th date with the i-th
/// value, as many pairs as the shorter of the two lists.
pub fn pair_nodes<A: Copy, B: Copy>(dates: &Vec<A>, values: &Vec<B>) -> (nodes: Vec<(A, B)>)
    ensures
        nodes@.len() == if dates@.len() <= values@.len() {
            dates@.len()
        } else {
            values@.len()
        },
        forall|i: int| 0 <= i < nodes@.len() ==> #[trigger] nodes@[i] == (dates@[i], values@[i]),
{
    let n = if dates.len() <= values.len() {
        dates.len()
    } else {
        values.len()
    };
    let mut nodes: Vec<(A, B)> = Vec::new();
    for i in 0..n
        invariant
            n <= dates@.len(),
            n <= values@.len(),
            nodes@.len() == i,
            forall|k: int| 0 <= k < i ==> #[trigger] nodes@[k] == (dates@[k], values@[k]),
    {
        nodes.push((dates[i], values[i]));
    }
    nodes
}

} // verus!
