use vstd::prelude::*;
use crate::address::SocketAddress;

verus! {

/// What the receive task hands to its actor.
#[derive(Debug, Clone)]
pub enum Event {
    /// A datagram read from the socket, with its source address.
    Data(Vec<u8>, SocketAddress),
    /// The socket failed for reading.
    Closed,
    /// The receive task has ended.
    Dropped,
}

/// What one turn of the receive task saw of the socket.
#[derive(Debug, Clone)]
pub enum ReadOutcome {
    /// Waiting for the socket to become readable failed.
    NotReadable,
    /// A datagram of the given length was read into the buffer, from the given source.
    Received(usize, SocketAddress),
    /// The readiness was spurious: nothing could be read.
    WouldBlock,
    /// The read failed.
    Failed,
}

/// What the receive task does next.
#[derive(Debug, Clone)]
pub enum ReceiverStep {
    /// Wait for the socket to become readable again.
    Wait,
    /// Hand the signal to the actor, then go on.
    Forward(Event),
    /// Hand these signals to the actor, in order, and end.
    Stop(Vec<Event>),
}

/// The first `len` bytes of `buf`: the datagram that a read placed there.
pub fn received_bytes(buf: &Vec<u8>, len: usize) -> (r: Vec<u8>)
    requires
        len <= buf@.len(),
    ensures
        r@ == buf@.subrange(0, len as int),
{
    let mut out: Vec<u8> = Vec::with_capacity(len);
    let mut i: usize = 0;
    while i < len
        invariant
            i <= len,
            len <= buf@.len(),
            out@ == buf@.subrange(0, i as int),
        decreases len - i,
    {
        out.push(buf[i]);
        i = i + 1;
    }
    out
}

/// The payload and source that a turn with `outcome` forwards, if any.
pub open spec fn forwarded(buf: Seq<u8>, outcome: ReadOutcome) -> Option<(Seq<u8>, SocketAddress)> {
    match outcome {
        ReadOutcome::Received(len, from) => Some((buf.subrange(0, len as int), from)),
        _ => None,
    }
}

/// The signals that a turn with `outcome` sends before the task ends; none
/// where the task goes on.
pub open spec fn final_signals(outcome: ReadOutcome) -> Seq<Event> {
    match outcome {
        ReadOutcome::Failed => seq![Event::Closed, Event::Dropped],
        ReadOutcome::NotReadable => seq![Event::Dropped],
        _ => seq![],
    }
}

/// Whether a turn with `outcome` ends the receive task.
pub open spec fn ends_task(outcome: ReadOutcome) -> bool {
    outcome is Failed || outcome is NotReadable
}

/// The decision of the receive task after one turn on the socket, with `buf`
/// the buffer the turn read into. A read datagram is forwarded as exactly the
/// bytes received; a spurious wakeup waits again without a signal; a failed
/// read reports the closed socket and ends the task; a failed wait ends it.
/// Every end of the task is announced with a final `Dropped`.
pub fn on_read(buf: &Vec<u8>, outcome: ReadOutcome) -> (r: ReceiverStep)
    requires
        outcome matches ReadOutcome::Received(len, _) ==> len <= buf@.len(),
    ensures
        outcome is WouldBlock ==> r is Wait,
        forwarded(buf@, outcome) matches Some((bytes, from)) ==> (r matches ReceiverStep::Forward(
            Event::Data(b, f),
        ) && b@ == bytes && f == from),
        ends_task(outcome) ==> (r matches ReceiverStep::Stop(signals) && signals@ == final_signals(
            outcome,
        )),
{
    match outcome {
        ReadOutcome::Received(len, from) => {
            let bytes = received_bytes(buf, len);
            ReceiverStep::Forward(Event::Data(bytes, from))
        },
        ReadOutcome::WouldBlock => ReceiverStep::Wait,
        ReadOutcome::Failed => {
            let signals: Vec<Event> = vec![Event::Closed, Event::Dropped];
            ReceiverStep::Stop(signals)
        },
        ReadOutcome::NotReadable => {
            let signals: Vec<Event> = vec![Event::Dropped];
            ReceiverStep::Stop(signals)
        },
    }
}

/// The decision of the receive task after it tried to hand a signal to the
/// actor: go on where the actor took it; where the actor is gone, end with
/// no further signal, for nobody is left to receive one.
pub fn on_forward(delivered: bool) -> (r: ReceiverStep)
    ensures
        delivered ==> r is Wait,
        !delivered ==> (r matches ReceiverStep::Stop(signals) && signals@.len() == 0),
{
    if delivered {
        ReceiverStep::Wait
    } else {
        ReceiverStep::Stop(Vec::new())
    }
}

} // verus!
