use vstd::prelude::*;

verus! {

/// A failure reported by the command transport for one exchange.
#[derive(Clone, Copy, Debug, PartialEq, Eq, Structural)]
pub enum TransportError {
    /// No response arrived in time.
    Timeout,
    /// The module answered with an error result code.
    Rejected,
    /// The response could not be parsed.
    Parse,
    /// The response did not fit the transport's buffers.
    Overflow,
}

/// Errors of the driver.
#[derive(Clone, Copy, Debug, PartialEq, Eq, Structural)]
pub enum Error {
    /// A command exchange failed in the transport or the module.
    Network(TransportError),
    /// The delay capability failed.
    Busy,
    /// The configured baud rate is above what the driver can use.
    BaudUnsupported,
    /// A liveness probe was asked for with no attempts at all.
    BaudDetection,
    /// A command was issued before the device left its initial state.
    Uninitialized,
    /// The retry budget of a transition is exhausted.
    StateTimeout,
    /// The network denied registration.
    RegistrationDenied,
    /// A path that the driver does not implement.
    Unknown,
}

} // verus!

verus! {

/// Outcome of one step of a non-blocking operation.
#[derive(Clone, Copy, Debug, PartialEq, Eq, Structural)]
pub enum PollResult {
    /// Not finished: call again.
    Pending,
    /// Finished.
    Done,
    /// Failed; no progress is possible without outside help.
    Fatal(Error),
}

} // verus!
