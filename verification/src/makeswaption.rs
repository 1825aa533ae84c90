//! How the swaption builder is told when the option expires.
use vstd::prelude::*;

use crate::common::ErrorKind;

verus! {

/// The option start: a tenor from today, or an explicit fixing date.
#[derive(Debug, Clone, Copy, PartialEq, Eq)]
pub enum SwaptionStart<P, D> {
    OptionTenor(P),
    FixingDate(D),
}

/// Neither or both of the tenor and the fixing date were given.
#[derive(Debug, Clone, Copy, PartialEq, Eq)]
pub struct ExactlyOneStart;

impl ExactlyOneStart {
    /// The refusal raises `ValueError`.
    pub fn kind(&self) -> (k: ErrorKind)
        ensures
            k == ErrorKind::Value,
    {
        ErrorKind::Value
    }
}

/// The option start, given exactly one of `option_tenor` and `fixing_date`.
pub fn swaption_start<P, D>(option_tenor: Option<P>, fixing_date: Option<D>) -> (r: Result<
    SwaptionStart<P, D>,
    ExactlyOneStart,
>)
    ensures
        match (option_tenor, fixing_date) {
            (Some(p), None) => r == Ok::<SwaptionStart<P, D>, ExactlyOneStart>(
                SwaptionStart::OptionTenor(p),
            ),
            (None, Some(d)) => r == Ok::<SwaptionStart<P, D>, ExactlyOneStart>(
                SwaptionStart::FixingDate(d),
            ),
            _ => r == Err::<SwaptionStart<P, D>, ExactlyOneStart>(ExactlyOneStart),
        },
{
    match (option_tenor, fixing_date) {
        (Some(p), None) => Ok(SwaptionStart::OptionTenor(p)),
        (None, Some(d)) => Ok(SwaptionStart::FixingDate(d)),
        _ => Err(ExactlyOneStart),
    }
}

} // verus!
