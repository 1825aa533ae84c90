//! Which model parameters a calibration keeps fixed.
use vstd::prelude::*;

use crate::common::ErrorKind;

verus! {

/// `fix_reversion` and `fix_parameters` were both given.
#[derive(Debug, Clone, Copy, PartialEq, Eq)]
pub struct FixConflict;

impl FixConflict {
    /// The conflict raises `ValueError`.
    pub fn kind(&self) -> (k: ErrorKind)
        ensures
            k == ErrorKind::Value,
    {
        ErrorKind::Value
    }
}

/// The fixed-parameter mask of a two-parameter (reversion, volatility)
/// model: the reversion pinned when `fix_reversion`, otherwise nothing fixed.
pub open spec fn reversion_mask_spec(fix_reversion: bool) -> Seq<bool> {
    if fix_reversion {
        seq![true, false]
    } else {
        Seq::empty()
    }
}

/// The fixed-parameter mask `[true, false]` pinning the mean reversion and
/// freeing the volatility, or the empty mask freeing both.
pub fn fix_reversion_mask(fix_reversion: bool) -> (mask: Vec<bool>)
    ensures
        mask@ == reversion_mask_spec(fix_reversion),
{
    let mut mask = Vec::new();
    if fix_reversion {
        mask.push(true);
        mask.push(false);
        assert(mask@ =~= seq![true, false]);
    }
    mask
}

/// The fixed-parameter mask a calibration runs with: an explicit mask as
/// given (none being empty), or the reversion mask when `fix_reversion` is
/// set; both together are refused.
pub fn resolve_fix_parameters(fix_parameters: Option<Vec<bool>>, fix_reversion: bool) -> (r: Result<
    Vec<bool>,
    FixConflict,
>)
    ensures
        ({
            let given = match fix_parameters {
                Some(v) => v@,
                None => Seq::<bool>::empty(),
            };
            if fix_reversion && given.len() > 0 {
                r == Err::<Vec<bool>, FixConflict>(FixConflict)
            } else if fix_reversion {
                r matches Ok(m) && m@ == reversion_mask_spec(true)
            } else {
                r matches Ok(m) && m@ == given
            }
        }),
{
    let given = match fix_parameters {
        Some(v) => v,
        None => Vec::new(),
    };
    if fix_reversion && given.len() > 0 {
        return Err(FixConflict);
    }
    if fix_reversion {
        Ok(fix_reversion_mask(true))
    } else {
        Ok(given)
    }
}

} // verus!
