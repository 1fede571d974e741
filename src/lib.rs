//! An actor around one UDP socket: the data that flows through it and the
//! decisions of its receive loop and its run loop, as verified state machines.
//! The event loop that performs socket I/O drives these machines.

mod address;
mod datagram;
mod error;
mod events;
mod receiver;
mod sender;
mod actor;
mod guarantees;

pub use address::{ipv4_bits, Family, SocketAddress};
pub use datagram::{lossy_text, Datagram};
pub use error::{Error, SetupStage};
pub use events::UdpEvent;
pub use receiver::{
    ends_task, final_signals, forwarded, on_forward, on_read, received_bytes, Event, ReadOutcome,
    ReceiverStep,
};
pub use sender::{route, route_of, SendRoute};
pub use actor::{run, transition, Actor, ActorAction, ActorInput, ExitReason, Phase};
pub use guarantees::{
    publication, signal_inputs,
    lemma_payload_round_trip, lemma_publishes_each_datagram_in_order, lemma_read_failure_ends_actor,
    lemma_stopped_actor_does_nothing,
};
