//! The grid of the finite-difference Black-Scholes vanilla engine.
use vstd::prelude::*;

use crate::common::ErrorKind;

verus! {

/// The time-stepping scheme; the integer values are fixed.
#[derive(Debug, Clone, Copy, PartialEq, Eq)]
pub enum PyFdScheme {
    Douglas,
    ImplicitEuler,
}

impl PyFdScheme {
    /// The scheme's integer value: Douglas 0, ImplicitEuler 1.
    pub fn code(&self) -> (c: u8)
        ensures
            c == (match *self {
                PyFdScheme::Douglas => 0u8,
                PyFdScheme::ImplicitEuler => 1u8,
            }),
    {
        match self {
            PyFdScheme::Douglas => 0,
            PyFdScheme::ImplicitEuler => 1,
        }
    }
}

/// A grid the engine cannot run on.
#[derive(Debug, Clone, Copy, PartialEq, Eq)]
pub struct FdGridError;

impl FdGridError {
    /// The refusal raises `ValueError`.
    pub fn kind(&self) -> (k: ErrorKind)
        ensures
            k == ErrorKind::Value,
    {
        ErrorKind::Value
    }
}

/// Whether the engine runs on a grid: at least one time step, at least three
/// space points, and a total step count (time steps plus damping steps) that
/// is representable.
pub open spec fn fd_grid_valid_spec(t_grid: usize, x_grid: usize, damping_steps: usize) -> bool {
    &&& t_grid > 0
    &&& x_grid >= 3
    &&& t_grid + damping_steps <= usize::MAX
}

/// Checks the engine's grid dimensions.
pub fn check_fd_grid(t_grid: usize, x_grid: usize, damping_steps: usize) -> (r: Result<(), FdGridError>)
    ensures
        r is Ok <==> fd_grid_valid_spec(t_grid, x_grid, damping_steps),
{
    if t_grid == 0 || x_grid < 3 || t_grid.checked_add(damping_steps).is_none() {
        return Err(FdGridError);
    }
    Ok(())
}

} // verus!
