//! Verified argument policies of the itofin Python bindings.
//!
//! Every facade of the bindings first decides, from the plain values it was
//! handed, which core object to build or which error to raise. Those decisions
//! live here, each with a contract; the facades themselves only convert.
use vstd::prelude::*;

pub mod bootstrap;
pub mod calibration;
pub mod capfloortermvol;
pub mod cashflows;
pub mod common;
pub mod creditdensity;
pub mod curve;
pub mod fdengine;
pub mod makeswaption;
pub mod optimize;
pub mod poissonrng;
pub mod text;

verus! {

} // verus!
