use vstd::prelude::*;

verus! {

/// Why a service name is not available.
#[derive(Clone, Copy, Debug, PartialEq, Eq, Structural)]
pub enum Reason {
    Invalid,
    AlreadyExists,
}

} // verus!
