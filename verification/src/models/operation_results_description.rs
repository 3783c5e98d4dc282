use vstd::prelude::*;

verus! {

/// The status of an operation.
#[derive(Clone, Copy, Debug, PartialEq, Eq, Structural)]
pub enum Status {
    Canceled,
    Succeeded,
    Failed,
    Requested,
    Running,
}

} // verus!
