use vstd::prelude::*;

verus! {

/// The classified failure kinds of the library.
///
/// Transport and session failures carry the reporting text of the underlying
/// fault; they are absorbed (logged and retried) inside the blocking
/// operations and reach a callback only from a single-attempt job.
#[derive(Debug, Clone, PartialEq, Eq)]
pub enum Error {
    /// Transport failure while talking to the remote end.
    IO(String),
    /// Session or protocol failure: handshake, authentication, channel setup.
    Ssh(String),
    /// The remote command wrote something other than the whitelisted benign
    /// prompt to stderr; carries the command text and the stderr text.
    SshCommandError(String, String),
    /// A helper execution context failed or crashed, e.g. during streaming.
    ThreadError,
}

} // verus!
