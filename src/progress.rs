use vstd::prelude::*;

verus! {

/// The state of an operation that completes later: not finished yet, or
/// finished with a value.
#[derive(Clone, Copy, Debug, PartialEq, Eq)]
pub enum Progress<T> {
    Pending,
    Ready(T),
}

} // verus!
