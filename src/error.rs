use vstd::prelude::*;

verus! {

/// The error of a write into a slot that already holds a value.
///
/// It carries nothing: all values of it are equal.
#[derive(Debug, Clone, Copy, PartialEq, Eq, PartialOrd, Ord, Hash)]
pub struct SomeError;

impl SomeError {
    /// A sentence that describes the error, fit to be shown as it is.
    pub fn message(&self) -> (r: &'static str)
        ensures
            r@ == "attempt to write to a `Some` value"@,
    {
        "attempt to write to a `Some` value"
    }
}

} // verus!
