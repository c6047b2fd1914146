//! The toast fragment: one short acknowledgment line.

use vstd::prelude::*;

verus! {

/// One toast line shown to the caller after a mutation.
#[derive(Debug)]
pub struct ToastTemplate {
    pub message: String,
}

impl ToastTemplate {
    /// A toast carrying the given line.
    pub fn new(message: String) -> (t: Self)
        ensures
            t.message == message,
    {
        Self { message }
    }
}

} // verus!
