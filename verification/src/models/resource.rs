use vstd::prelude::*;

verus! {

/// The kind of a service.
#[derive(Clone, Copy, Debug, PartialEq, Eq, Structural)]
pub enum Kind {
    Fhir,
    FhirStu3,
    FhirR4,
}

} // verus!
