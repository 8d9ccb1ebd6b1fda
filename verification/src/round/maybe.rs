//! A value or the reason it is absent.
use vstd::prelude::*;

verus! {

/// A present value, or the reason there is none.
#[derive(Debug, Clone, Copy, PartialEq, Eq, Structural, Hash)]
pub enum Maybe<Value, Reason> {
    /// The value.
    Present(Value),
    /// No value, for this reason.
    Absent(Reason),
}

} // verus!
