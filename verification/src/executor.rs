//! The handle of the event loop that drives a service's I/O.

use tokio_core::reactor::Handle;
use vstd::prelude::*;

verus! {

#[verifier::external_type_specification]
#[verifier::external_body]
pub struct ExHandle(Handle);

/// `tokio_core::reactor::Handle`'s `Clone::clone`: another handle to the
/// same event loop. Nothing is claimed of the result.
pub assume_specification[ <Handle as Clone>::clone ](executor: &Handle) -> Handle;

} // verus!
