use vstd::prelude::*;
use crate::address::SocketAddress;
use crate::datagram::Datagram;
use crate::error::{Error, SetupStage};
use crate::events::UdpEvent;
use crate::receiver::Event;

verus! {

/// Where a socket actor stands in its life.
#[derive(Debug, Clone, Copy, PartialEq, Eq, Structural)]
pub enum Phase {
    /// Bound, and serving its socket.
    Running,
    /// Its socket could not be set up: it never serves anything.
    Inert,
    /// Its run loop has ended.
    Stopped,
}

/// Why a run loop ended.
#[derive(Debug, Clone, Copy, PartialEq, Eq, Structural)]
pub enum ExitReason {
    /// The receive task reported a failed read.
    ReceiverClosed,
    /// The receive task ended.
    ReceiverDropped,
    /// The channel from the receive task is gone.
    ReceiverGone,
    /// Writing a datagram failed.
    SendFailed,
    /// Every handle that could queue a datagram was dropped.
    Released,
}

/// What became ready for the run loop.
#[derive(Debug)]
pub enum ActorInput {
    /// The next signal of the receive task, or `None` where its channel closed.
    Signal(Option<Event>),
    /// The next queued datagram, or `None` where every sending handle is gone.
    Outbound(Option<Datagram>),
    /// The outcome of the write of the send path.
    Sent(Result<usize, Error>),
}

/// What the run loop does about an input.
#[derive(Debug, Clone)]
pub enum ActorAction {
    /// Publish the event on the event bus, then go on.
    Publish(UdpEvent),
    /// Hand the datagram to the send path, and report its outcome.
    Transmit(Datagram),
    /// Go on waiting.
    Continue,
    /// End the run loop.
    Exit(ExitReason),
    /// Nothing: the actor no longer runs.
    Idle,
}

/// The state of the run loop of the actor for one local address.
#[derive(Debug, Clone)]
pub struct Actor {
    pub local: SocketAddress,
    pub phase: Phase,
}

/// The phase after an input and the action taken on it. A datagram read is
/// published with its source as peer; a queued datagram is handed to the send
/// path; a failed write, the end of the receive task or of its channel, and
/// the release of every sending handle end the loop. An actor that does not
/// run does nothing.
pub open spec fn transition(p: Phase, input: ActorInput) -> (Phase, ActorAction) {
    if p is Running {
        match input {
            ActorInput::Signal(Some(Event::Data(bytes, from))) => (
                Phase::Running,
                ActorAction::Publish(UdpEvent::Data(Datagram(bytes, Some(from)))),
            ),
            ActorInput::Signal(Some(Event::Closed)) => (
                Phase::Stopped,
                ActorAction::Exit(ExitReason::ReceiverClosed),
            ),
            ActorInput::Signal(Some(Event::Dropped)) => (
                Phase::Stopped,
                ActorAction::Exit(ExitReason::ReceiverDropped),
            ),
            ActorInput::Signal(None) => (Phase::Stopped, ActorAction::Exit(ExitReason::ReceiverGone)),
            ActorInput::Outbound(Some(d)) => (Phase::Running, ActorAction::Transmit(d)),
            ActorInput::Outbound(None) => (Phase::Stopped, ActorAction::Exit(ExitReason::Released)),
            ActorInput::Sent(Ok(_)) => (Phase::Running, ActorAction::Continue),
            ActorInput::Sent(Err(_)) => (Phase::Stopped, ActorAction::Exit(ExitReason::SendFailed)),
        }
    } else {
        (p, ActorAction::Idle)
    }
}

/// The final phase and the actions of a run loop in phase `p` that sees
/// `inputs` in order.
pub open spec fn run(p: Phase, inputs: Seq<ActorInput>) -> (Phase, Seq<ActorAction>)
    decreases inputs.len(),
{
    if inputs.len() == 0 {
        (p, Seq::empty())
    } else {
        let (q, a) = transition(p, inputs[0]);
        let (f, rest) = run(q, inputs.drop_first());
        (f, seq![a] + rest)
    }
}

impl Actor {
    /// The actor for `local` once setting up its socket has ended: running
    /// where it succeeded; else inert, with the failure of the stage that
    /// failed (a bind failure carrying `local`, but for the runtime's refusal).
    pub fn start(local: SocketAddress, setup: Result<(), (SetupStage, String)>) -> (r: (
        Actor,
        Option<Error>,
    ))
        ensures
            r.0.local == local,
            setup is Ok ==> r.0.phase == Phase::Running && r.1 is None,
            setup matches Err((stage, cause)) ==> r.0.phase == Phase::Inert && (if stage
                == SetupStage::Register {
                r.1 == Some(Error::Io(cause))
            } else {
                r.1 == Some(Error::Bind { address: local, cause })
            }),
    {
        match setup {
            Ok(()) => (Actor { local, phase: Phase::Running }, None),
            Err((stage, cause)) => {
                let e = Error::setup_failure(stage, local, cause);
                (Actor { local, phase: Phase::Inert }, Some(e))
            },
        }
    }

    /// Whether the run loop still serves its socket.
    pub fn is_running(&self) -> (r: bool)
        ensures
            r == (self.phase == Phase::Running),
    {
        self.phase == Phase::Running
    }

    /// One turn of the run loop on `input`.
    pub fn step(&mut self, input: ActorInput) -> (r: ActorAction)
        ensures
            (final(self).phase, r) == transition(old(self).phase, input),
            final(self).local == old(self).local,
    {
        if self.phase != Phase::Running {
            return ActorAction::Idle;
        }
        match input {
            ActorInput::Signal(Some(Event::Data(bytes, from))) => {
                ActorAction::Publish(UdpEvent::Data(Datagram(bytes, Some(from))))
            },
            ActorInput::Signal(Some(Event::Closed)) => {
                self.phase = Phase::Stopped;
                ActorAction::Exit(ExitReason::ReceiverClosed)
            },
            ActorInput::Signal(Some(Event::Dropped)) => {
                self.phase = Phase::Stopped;
                ActorAction::Exit(ExitReason::ReceiverDropped)
            },
            ActorInput::Signal(None) => {
                self.phase = Phase::Stopped;
                ActorAction::Exit(ExitReason::ReceiverGone)
            },
            ActorInput::Outbound(Some(d)) => ActorAction::Transmit(d),
            ActorInput::Outbound(None) => {
                self.phase = Phase::Stopped;
                ActorAction::Exit(ExitReason::Released)
            },
            ActorInput::Sent(Ok(_)) => ActorAction::Continue,
            ActorInput::Sent(Err(_)) => {
                self.phase = Phase::Stopped;
                ActorAction::Exit(ExitReason::SendFailed)
            },
        }
    }
}

} // verus!
