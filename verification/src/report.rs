//! std's I/O failures, carried to the operator as the system reported them.
use vstd::prelude::*;

verus! {

/// An I/O failure, as the system reported it.
#[verifier::external_type_specification]
#[verifier::external_body]
pub struct ExIoError(std::io::Error);

/// std's rendering of an I/O error, the system's own account of it.
#[verifier::external_body]
pub fn io_error_text(failure: &std::io::Error) -> (r: String) {
    format!("{failure}")
}

} // verus!
