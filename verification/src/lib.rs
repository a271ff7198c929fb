//! Safety layer around a native, stateful circuit-simulation engine.
//!
//! The engine itself lives behind a C interface: it keeps process-wide global
//! state, may be initialized only once per process, reports textual output and
//! its own termination through caller-supplied callbacks, and hands results
//! back as null-terminated arrays and raw buffers that it continues to own.
//!
//! This crate holds the verified core of the wrapper: the session state
//! machine (exactly-once initialization, the terminal exit flag), the
//! encoding of commands and circuit descriptions into the engine's
//! null-terminated string format, and the extraction of engine-owned,
//! pointer-terminated result arrays into owned values. The unverified shell
//! that actually crosses the C boundary drives these functions and obeys
//! their contracts.

use vstd::prelude::*;

pub mod extract;
pub mod session;
pub mod text;

pub use session::Callbacks;
pub use session::EngineVector;
pub use session::NgSpice;
pub use session::VectorInfo;

verus! {

/// Failures surfaced by the wrapper.
#[derive(Clone, Copy, Debug, PartialEq, Eq, Structural)]
pub enum NgSpiceError {
    /// A second construction attempt observed that the process-wide engine
    /// initialization had already happened; the attempt fails without side
    /// effects on the engine.
    DoubleInitError,
    /// The engine reported a nonzero status for a command or circuit load.
    CommandError,
    /// Text could not be represented in, or decoded from, the engine's
    /// expected encoding.
    EncodingError,
    /// An engine-reported length cannot be represented in the host's
    /// addressing type; surfaced rather than truncated.
    RangeError,
}

} // verus!
