use vstd::prelude::*;
use crate::protocol::KodaSignal;

verus! {

/// What the outbound duty of a connection waits on.
#[derive(Debug, PartialEq)]
pub enum OutboundEvent {
    /// A message arrived on the connection's outbound queue.
    Queued(KodaSignal),
    /// The keepalive timer fired.
    Tick,
    /// The outbound queue has no producer left.
    QueueClosed,
    /// Writing to the connection failed.
    WriteFailed,
}

/// What the outbound duty does next.
#[derive(Debug, PartialEq)]
pub enum OutboundAction {
    /// Encode the message and write it to the connection.
    Write(KodaSignal),
    /// Write a liveness probe.
    Ping,
    /// End the duty; the connection is torn down.
    Stop,
}

/// The outbound duty's decision for one event: queued messages are written in
/// the order they arrive, each timer tick sends a probe, and a failed write or
/// an exhausted queue ends the duty.
pub fn outbound_step(ev: OutboundEvent) -> (r: OutboundAction)
    ensures
        match ev {
            OutboundEvent::Queued(m) => r == OutboundAction::Write(m),
            OutboundEvent::Tick => r is Ping,
            OutboundEvent::QueueClosed => r is Stop,
            OutboundEvent::WriteFailed => r is Stop,
        },
{
    match ev {
        OutboundEvent::Queued(m) => OutboundAction::Write(m),
        OutboundEvent::Tick => OutboundAction::Ping,
        OutboundEvent::QueueClosed => OutboundAction::Stop,
        OutboundEvent::WriteFailed => OutboundAction::Stop,
    }
}

} // verus!
