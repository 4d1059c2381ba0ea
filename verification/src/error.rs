//! Why an operation of the coordination layer was refused.

use vstd::prelude::*;

verus! {

/// The hard errors. An operation that fails with one of them has changed
/// nothing.
#[derive(Clone, Copy, Debug, PartialEq, Eq, Structural)]
pub enum MpError {
    /// Processor discovery has not completed.
    NotReady,
    /// The processor number names no processor of the roster.
    InvalidIndex,
    /// The processor is not enabled.
    Disabled,
    /// The processor is the bootstrap processor, where an application
    /// processor is asked for.
    NotApplicationProcessor,
    /// The bootstrap processor cannot be disabled.
    CannotDisableBootstrap,
    /// No application processor is enabled.
    NoApAvailable,
    /// The environment cannot run procedures on application processors.
    Unsupported,
    /// A processor concerned is still running an earlier procedure.
    Busy,
}

} // verus!
