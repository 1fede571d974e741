use vstd::prelude::*;
use crate::address::SocketAddress;

verus! {

/// What can go wrong with a socket actor. Causes from the operating system
/// are carried as their message.
#[derive(Debug, Clone)]
pub enum Error {
    /// Creating, configuring or binding the socket to `address` failed.
    Bind { address: SocketAddress, cause: String },
    /// A transport-level failure.
    Io(String),
    /// Writing a datagram failed.
    Send(String),
    /// The actor or its receive path has terminated.
    Closed,
    /// An internal channel refused a request: the actor is gone.
    Command(String),
}

/// The steps that turn a local address into a bound, non-blocking socket.
#[derive(Debug, Clone, Copy, PartialEq, Eq, Structural)]
pub enum SetupStage {
    /// Creating the socket in the address's family.
    Create,
    /// Enabling address and port reuse and non-blocking mode.
    Configure,
    /// Binding to the local address.
    Bind,
    /// Handing the socket to the asynchronous runtime.
    Register,
}

impl Error {
    /// The error for a failure of `stage` while setting up a socket for
    /// `address`: creating, configuring and binding fail as a bind failure
    /// that carries the address; the runtime's refusal is a transport failure.
    pub fn setup_failure(stage: SetupStage, address: SocketAddress, cause: String) -> (r: Error)
        ensures
            stage != SetupStage::Register ==> r == (Error::Bind { address, cause }),
            stage == SetupStage::Register ==> r == Error::Io(cause),
    {
        match stage {
            SetupStage::Register => Error::Io(cause),
            _ => Error::Bind { address, cause },
        }
    }

    /// The error for a write of the send path that failed with `cause`.
    pub fn send_failure(cause: String) -> (r: Error)
        ensures
            r == Error::Send(cause),
    {
        Error::Send(cause)
    }

    /// The error for a request that the actor's queue refused with `cause`.
    pub fn command_failure(cause: String) -> (r: Error)
        ensures
            r == Error::Command(cause),
    {
        Error::Command(cause)
    }
}

} // verus!
