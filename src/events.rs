use vstd::prelude::*;
use crate::datagram::Datagram;

verus! {

/// What the event bus carries to every subscriber.
#[derive(Debug, Clone)]
pub enum UdpEvent {
    /// A datagram read from the socket, with its source address.
    Data(Datagram),
    /// The socket was closed.
    Close,
}

} // verus!
