//! Errors that the engine reports to its caller.

use vstd::prelude::*;

verus! {

/// Why an operation of the engine did not produce a result.
#[derive(Clone, Copy, Debug, PartialEq, Eq, Structural)]
pub enum VcpuError {
    /// A decoded field does not name a value the engine knows.
    InvalidInput,
    /// The guest asked for something the engine does not emulate.
    Unsupported,
    /// The operation was called in a state in which it has no meaning.
    BadState,
}

} // verus!
