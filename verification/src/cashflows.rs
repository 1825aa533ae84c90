//! A leg of cash flows as Python sees it: sized, and indexable from either end.
use vstd::prelude::*;

use crate::common::ErrorKind;

verus! {

/// An index outside the leg.
#[derive(Debug, Clone, Copy, PartialEq, Eq)]
pub struct LegIndexError {
    /// The index asked for.
    pub index: isize,
    /// The leg's flow count.
    pub len: usize,
}

impl LegIndexError {
    /// An index outside the leg raises `IndexError`.
    pub fn kind(&self) -> (k: ErrorKind)
        ensures
            k == ErrorKind::Index,
    {
        ErrorKind::Index
    }
}

/// The position an index names in a sequence of `len` items: a negative index
/// counts from the end; `None` where the position is outside the sequence.
pub open spec fn resolve_index_spec(index: int, len: int) -> Option<int> {
    let resolved = if index < 0 {
        index + len
    } else {
        index
    };
    if 0 <= resolved < len {
        Some(resolved)
    } else {
        None
    }
}

/// The position `index` names among `len` items, negative indices counting
/// from the end.
pub fn resolve_index(index: isize, len: usize) -> (r: Option<usize>)
    ensures
        match resolve_index_spec(index as int, len as int) {
            Some(p) => r == Some(p as usize),
            None => r is None,
        },
{
    if index < 0 {
        let back: usize = (-(index + 1)) as usize + 1;
        if back > len {
            None
        } else {
            Some(len - back)
        }
    } else {
        let forward = index as usize;
        if forward < len {
            Some(forward)
        } else {
            None
        }
    }
}

/// A sequence of cash flows, built by a leg builder.
pub struct PyLeg<T> {
    inner: Vec<T>,
}

impl<T> PyLeg<T> {
    /// The flows, in order.
    pub closed spec fn flows(self) -> Seq<T> {
        self.inner@
    }

    /// A leg over the given flows.
    pub fn new(flows: Vec<T>) -> (leg: Self)
        ensures
            leg.flows() == flows@,
    {
        PyLeg { inner: flows }
    }

    /// The number of flows on the leg.
    pub fn __len__(&self) -> (n: usize)
        ensures
            n == self.flows().len(),
    {
        self.inner.len()
    }

    /// The flow at `index`, counting from the end when negative.
    pub fn __getitem__(&self, index: isize) -> (r: Result<&T, LegIndexError>)
        ensures
            match resolve_index_spec(index as int, self.flows().len() as int) {
                Some(p) => r matches Ok(f) && *f == self.flows()[p],
                None => r == Err::<&T, LegIndexError>(
                    LegIndexError { index, len: self.flows().len() as usize },
                ),
            },
    {
        let len = self.inner.len();
        match resolve_index(index, len) {
            Some(p) => Ok(&self.inner[p]),
            None => Err(LegIndexError { index, len }),
        }
    }
}

/// A non-negative index names the position it counts from the start, and a
/// negative index the position it counts back from the end: `-1` the last,
/// `-len` the first.
pub proof fn lemma_index_positions(index: int, len: int)
    requires
        0 <= len,
    ensures
        0 <= index < len ==> resolve_index_spec(index, len) == Some(index),
        -len <= index < 0 ==> resolve_index_spec(index, len) == Some(index + len),
        (index < -len || len <= index) ==> resolve_index_spec(index, len) is None,
{
}

/// A negative index names the same flow as the index `len` further on, and
/// the indices that name a flow are exactly those from `-len` to `len - 1`.
pub proof fn lemma_negative_index_wraps(index: int, len: int)
    requires
        0 <= len,
    ensures
        resolve_index_spec(index, len) is Some <==> -len <= index < len,
        0 <= index < len ==> resolve_index_spec(index - len, len) == resolve_index_spec(index, len),
{
}

} // verus!
