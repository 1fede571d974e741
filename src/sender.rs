use vstd::prelude::*;
use crate::address::SocketAddress;
use crate::datagram::Datagram;

verus! {

/// How the send path writes a datagram.
#[derive(Debug, Clone, Copy, PartialEq, Eq, Structural)]
pub enum SendRoute {
    /// An addressed send to this destination.
    To(SocketAddress),
    /// A send on a socket connected to a fixed peer.
    Connected,
}

/// The write that the send path performs for `datagram`: addressed to its
/// peer where it has one, else on the connected socket.
pub open spec fn route_of(datagram: Datagram) -> SendRoute {
    match datagram.1 {
        Some(dest) => SendRoute::To(dest),
        None => SendRoute::Connected,
    }
}

/// The write that the send path performs for `datagram`.
pub fn route(datagram: &Datagram) -> (r: SendRoute)
    ensures
        r == route_of(*datagram),
{
    match datagram.1 {
        Some(dest) => SendRoute::To(dest),
        None => SendRoute::Connected,
    }
}

} // verus!
