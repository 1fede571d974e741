use vstd::prelude::*;
use crate::address::SocketAddress;
use crate::error::Error;

verus! {

/// A payload and an optional peer: the destination of an outbound datagram,
/// the source of an inbound one. A datagram without a peer is sent on a
/// socket that is connected to a fixed remote.
#[derive(Debug, Clone)]
pub struct Datagram(pub Vec<u8>, pub Option<SocketAddress>);

/// The text of `bytes` read as UTF-8, with each invalid sequence replaced.
pub uninterp spec fn lossy_text(bytes: Seq<u8>) -> Seq<char>;

/// Relies on `String::from_utf8_lossy`, whose result depends on the bytes
/// alone, and is empty for no bytes.
#[verifier::external_body]
fn utf8_lossy(bytes: &Vec<u8>) -> (r: String)
    ensures
        r@ == lossy_text(bytes@),
        bytes@.len() == 0 ==> r@.len() == 0,
{
    String::from_utf8_lossy(bytes.as_slice()).into_owned()
}

impl Datagram {
    /// A datagram of `data` for the peer `dest`, if any.
    pub fn new(data: Vec<u8>, dest: Option<SocketAddress>) -> (r: Datagram)
        ensures
            r.0@ == data@,
            r.1 == dest,
    {
        Datagram(data, dest)
    }

    /// A datagram of `data` for the first address that a destination
    /// resolved to (no peer where it resolved to none). A failed resolution
    /// is reported as a transport failure with its cause.
    pub fn from_resolution(data: Vec<u8>, resolution: Result<Vec<SocketAddress>, String>) -> (r:
        Result<Datagram, Error>)
        ensures
            match resolution {
                Ok(addrs) => r matches Ok(d) && d.0@ == data@ && d.1 == (if addrs@.len() > 0 {
                    Some(addrs@[0])
                } else {
                    None
                }),
                Err(cause) => r == Err::<Datagram, Error>(Error::Io(cause)),
            },
    {
        match resolution {
            Ok(addrs) => {
                let peer = if addrs.len() > 0 {
                    Some(addrs[0])
                } else {
                    None
                };
                Ok(Datagram(data, peer))
            },
            Err(cause) => Err(Error::Io(cause)),
        }
    }

    /// The payload read as UTF-8 text, each invalid sequence replaced.
    pub fn to_string(&self) -> (r: String)
        ensures
            r@ == lossy_text(self.0@),
    {
        utf8_lossy(&self.0)
    }
}

impl From<Vec<u8>> for Datagram {
    /// A datagram of `data` without a peer.
    fn from(data: Vec<u8>) -> (r: Datagram)
        ensures
            r.0@ == data@,
            r.1 is None,
    {
        Datagram(data, None)
    }
}

impl vstd::std_specs::convert::FromSpecImpl<Vec<u8>> for Datagram {
    open spec fn obeys_from_spec() -> bool {
        true
    }

    open spec fn from_spec(data: Vec<u8>) -> Datagram {
        Datagram(data, None)
    }
}

} // verus!
