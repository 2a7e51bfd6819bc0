use nb::Error as NbError;
use vstd::prelude::*;

verus! {

/// The non-blocking error of the `nb` crate, with its variants `Other` and
/// `WouldBlock` visible to proofs.
#[verifier::external_type_specification]
#[verifier::reject_recursive_types(E)]
pub struct ExNbError<E>(NbError<E>);

} // verus!
