use vstd::prelude::*;
use crate::address::SocketAddress;
use crate::datagram::Datagram;
use crate::events::UdpEvent;
use crate::receiver::{final_signals, forwarded, Event, ReadOutcome};
use crate::sender::{route_of, SendRoute};
use crate::actor::{run, transition, ActorAction, ActorInput, ExitReason, Phase};

verus! {

/// The inputs of a run loop that receives `signals` in order.
pub open spec fn signal_inputs(signals: Seq<Event>) -> Seq<ActorInput> {
    signals.map_values(|e: Event| ActorInput::Signal(Some(e)))
}

/// The action that a running actor takes on the signal `e` of the receive
/// task, where `e` is a datagram: it publishes the datagram from its source.
pub open spec fn publication(e: Event) -> ActorAction {
    match e {
        Event::Data(bytes, from) => ActorAction::Publish(UdpEvent::Data(Datagram(bytes, Some(from)))),
        _ => ActorAction::Idle,
    }
}

/// A running actor that receives datagrams publishes exactly one event for
/// each, in the order they were read, with the payload and the source as read,
/// and keeps running.
pub proof fn lemma_publishes_each_datagram_in_order(signals: Seq<Event>)
    requires
        forall|i: int| 0 <= i < signals.len() ==> (#[trigger] signals[i]) is Data,
    ensures
        run(Phase::Running, signal_inputs(signals)).0 == Phase::Running,
        run(Phase::Running, signal_inputs(signals)).1 == signals.map_values(
            |e: Event| publication(e),
        ),
    decreases signals.len(),
{
    let inputs = signal_inputs(signals);
    if signals.len() == 0 {
        assert(run(Phase::Running, inputs).1 =~= signals.map_values(|e: Event| publication(e)));
    } else {
        let rest = signals.drop_first();
        assert forall|i: int| 0 <= i < rest.len() implies (#[trigger] rest[i]) is Data by {
            assert(rest[i] == signals[i + 1]);
        }
        lemma_publishes_each_datagram_in_order(rest);
        assert(inputs.drop_first() =~= signal_inputs(rest));
        assert(signals[0] is Data);
        assert(run(Phase::Running, inputs).1 =~= signals.map_values(|e: Event| publication(e)));
    }
}

/// An actor that does not run, inert from a failed setup or stopped, stays
/// as it is and does nothing, whatever it is handed: it neither sends nor
/// publishes.
pub proof fn lemma_stopped_actor_does_nothing(p: Phase, inputs: Seq<ActorInput>)
    requires
        p != Phase::Running,
    ensures
        run(p, inputs).0 == p,
        run(p, inputs).1 == Seq::new(inputs.len(), |i: int| ActorAction::Idle),
    decreases inputs.len(),
{
    if inputs.len() > 0 {
        lemma_stopped_actor_does_nothing(p, inputs.drop_first());
    }
    assert(run(p, inputs).1 =~= Seq::new(inputs.len(), |i: int| ActorAction::Idle));
}

/// A failed read makes the receive task report the closed socket first; the
/// actor then ends its loop on that signal, and from there on transmits and
/// publishes nothing, whatever follows.
pub proof fn lemma_read_failure_ends_actor(later: Seq<ActorInput>)
    ensures
        final_signals(ReadOutcome::Failed).len() > 0,
        final_signals(ReadOutcome::Failed)[0] == Event::Closed,
        ({
            let (p, actions) = run(
                Phase::Running,
                seq![ActorInput::Signal(Some(Event::Closed))] + later,
            );
            &&& p == Phase::Stopped
            &&& actions.len() == later.len() + 1
            &&& actions[0] == ActorAction::Exit(ExitReason::ReceiverClosed)
            &&& forall|i: int| 1 <= i < actions.len() ==> actions[i] == ActorAction::Idle
        }),
{
    let inputs = seq![ActorInput::Signal(Some(Event::Closed))] + later;
    assert(inputs.drop_first() =~= later);
    lemma_stopped_actor_does_nothing(Phase::Stopped, later);
}

/// A payload survives the trip from one actor to another unchanged: the
/// sending actor hands the datagram as queued to the send path, which
/// addresses it to its destination; where the peer's read placed those bytes
/// in its buffer, its receive task forwards exactly them with their source,
/// and its actor publishes a datagram with that payload and source.
pub proof fn lemma_payload_round_trip(
    d: Datagram,
    dest: SocketAddress,
    buf: Seq<u8>,
    len: usize,
    from: SocketAddress,
    bytes: Vec<u8>,
)
    requires
        d.1 == Some(dest),
        len == d.0@.len(),
        len <= buf.len(),
        buf.subrange(0, len as int) == d.0@,
        bytes@ == buf.subrange(0, len as int),
    ensures
        transition(Phase::Running, ActorInput::Outbound(Some(d))) == (
            Phase::Running,
            ActorAction::Transmit(d),
        ),
        route_of(d) == SendRoute::To(dest),
        forwarded(buf, ReadOutcome::Received(len, from)) == Some((d.0@, from)),
        transition(Phase::Running, ActorInput::Signal(Some(Event::Data(bytes, from)))).1 matches
            ActorAction::Publish(UdpEvent::Data(r)) && r.0@ == d.0@ && r.1 == Some(from),
{
}

} // verus!
