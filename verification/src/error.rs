//! The error vocabulary of the engine.

use vstd::prelude::*;

verus! {

/// Everything an operation can fail with.
///
/// - `ConnectFailed` is a transport-level connect failure; the transport's
///   own message is attached by the caller that owns the socket.
/// - `GreetingRejected` and `UpgradeRejected` are negative replies to the
///   greeting and to the in-band security-upgrade command.
/// - `WrongStage` is raised locally, before anything is written, when a
///   command is not legal in the current session stage.
/// - `ProtocolNegative` carries the server's free-text failure message
///   verbatim.
/// - `ConnectionAborted` is a zero-length read where more data was expected;
///   it is never conflated with a normal negative reply.
/// - `InvalidReply` carries, verbatim, a reply that was syntactically
///   malformed for its expected shape.
/// - `UpgradeFailed` is for a security handshake that failed after a
///   positive upgrade acknowledgment.
#[derive(Debug)]
pub enum PopError {
    ConnectFailed { message: String },
    GreetingRejected { message: String },
    UpgradeRejected { message: String },
    WrongStage,
    ProtocolNegative { message: String },
    ConnectionAborted,
    InvalidReply { line: String },
    UpgradeFailed,
}

} // verus!
