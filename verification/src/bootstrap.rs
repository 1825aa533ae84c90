//! The guards of the global yield bootstrap's Python callbacks: quotes may not
//! be mutated while a callback runs, and the penalties callback must return
//! the same number of residuals throughout one calculation.
use vstd::prelude::*;

use crate::common::ErrorKind;

verus! {

/// A quote mutation attempted from inside a bootstrap callback.
#[derive(Debug, Clone, Copy, PartialEq, Eq)]
pub struct QuoteMutationRefused;

impl QuoteMutationRefused {
    /// The refusal raises `ItofinError`.
    pub fn kind(&self) -> (k: ErrorKind)
        ensures
            k == ErrorKind::Itofin,
    {
        ErrorKind::Itofin
    }
}

/// Whether quotes may be mutated at a callback nesting depth.
pub open spec fn mutation_allowed_spec(depth: nat) -> bool {
    depth == 0
}

/// How many bootstrap callbacks are running on this thread.
pub struct CallbackDepth {
    depth: usize,
}

impl CallbackDepth {
    /// The current nesting depth.
    pub closed spec fn depth(self) -> nat {
        self.depth as nat
    }

    /// No callback running.
    pub fn new() -> (d: Self)
        ensures
            d.depth() == 0,
    {
        CallbackDepth { depth: 0 }
    }

    /// The current nesting depth.
    pub fn current(&self) -> (n: usize)
        ensures
            n == self.depth(),
    {
        self.depth
    }

    /// A callback starts.
    pub fn enter(&mut self)
        requires
            old(self).depth() < usize::MAX,
        ensures
            final(self).depth() == old(self).depth() + 1,
    {
        self.depth = self.depth + 1;
    }

    /// A callback that entered returns.
    pub fn leave(&mut self)
        requires
            old(self).depth() > 0,
        ensures
            final(self).depth() == old(self).depth() - 1,
    {
        self.depth = self.depth - 1;
    }

    /// Refuses a quote mutation while any callback runs.
    pub fn ensure_quote_mutation_allowed(&self) -> (r: Result<(), QuoteMutationRefused>)
        ensures
            r is Ok <==> mutation_allowed_spec(self.depth()),
    {
        if self.depth != 0 {
            return Err(QuoteMutationRefused);
        }
        Ok(())
    }
}

/// A callback that starts and returns leaves the depth as it found it, and no
/// quote may be mutated while it runs.
pub proof fn lemma_callback_scope(depth: nat)
    ensures
        ((depth + 1) - 1) as nat == depth,
        !mutation_allowed_spec(depth + 1),
{
}

/// A residual count that changed within one calculation.
#[derive(Debug, Clone, Copy, PartialEq, Eq)]
pub struct ResidualCountChanged {
    /// The count the calculation started with.
    pub expected: usize,
    /// The count the penalties callback returned now.
    pub found: usize,
}

impl ResidualCountChanged {
    /// The refusal surfaces as `ItofinError`.
    pub fn kind(&self) -> (k: ErrorKind)
        ensures
            k == ErrorKind::Itofin,
    {
        ErrorKind::Itofin
    }
}

/// Whether `n` residuals are accepted where `fixed` is the count fixed so far,
/// and the count fixed afterwards.
pub open spec fn observe_spec(fixed: Option<usize>, n: usize) -> (bool, Option<usize>) {
    match fixed {
        Some(c) if c != n => (false, fixed),
        _ => (true, Some(n)),
    }
}

/// The residual count the penalties callback fixed in the current
/// calculation, if it has run in it.
pub struct ResidualCount {
    count: Option<usize>,
}

impl ResidualCount {
    /// The count fixed so far in the calculation.
    pub closed spec fn fixed(self) -> Option<usize> {
        self.count
    }

    /// No count fixed.
    pub fn new() -> (r: Self)
        ensures
            r.fixed() is None,
    {
        ResidualCount { count: None }
    }

    /// A new calculation starts (the additional-dates callback runs first in
    /// each): no count is fixed.
    pub fn reset(&mut self)
        ensures
            final(self).fixed() is None,
    {
        self.count = None;
    }

    /// The penalties callback returned `n` residuals: accepted, and fixed as
    /// the count, unless a different count is already fixed.
    pub fn observe(&mut self, n: usize) -> (r: Result<(), ResidualCountChanged>)
        ensures
            (r is Ok) == observe_spec(old(self).fixed(), n).0,
            final(self).fixed() == observe_spec(old(self).fixed(), n).1,
            r matches Err(e) ==> (e == (ResidualCountChanged {
                expected: old(self).fixed()->Some_0,
                found: n,
            })),
    {
        match self.count {
            Some(c) => {
                if c != n {
                    return Err(ResidualCountChanged { expected: c, found: n });
                }
            },
            None => {},
        }
        self.count = Some(n);
        Ok(())
    }
}

/// Once the penalties callback has returned `n` residuals in a calculation,
/// a later return in the same calculation is accepted exactly when it holds
/// `n` residuals again; a new calculation accepts any count.
pub proof fn lemma_residual_count_is_fixed(fixed: Option<usize>, n: usize, m: usize)
    requires
        observe_spec(fixed, n).0,
    ensures
        observe_spec(observe_spec(fixed, n).1, m).0 == (m == n),
        observe_spec(None, m).0,
{
}
} // verus!
