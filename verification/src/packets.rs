//! Sending the packets that a QUIC connection has ready.

use vstd::prelude::*;

use crate::connection::Address;
use crate::error::QuicError;

verus! {

/// What happened while the ready packets are sent.
#[derive(Debug)]
pub enum FlushEvent {
    /// Sending begins.
    Begin,
    /// The connection wrote a packet for the given address.
    Packet { data: Vec<u8>, to: Address },
    /// The connection has no packet left.
    Drained,
    /// The connection could not write a packet.
    Refused { reason: String },
    /// The packet was handed to the socket.
    Transmitted { result: Result<(), String> },
}

/// What to do next while the ready packets are sent.
#[derive(Debug)]
pub enum FlushAction {
    /// Let the connection write the next packet.
    WritePacket,
    /// Hand the packet to the socket, for the given address.
    Transmit { data: Vec<u8>, to: Address },
    /// Stop.
    Return { result: Result<(), QuicError> },
}

/// What follows an event: each packet is transmitted once and whole, to its
/// address, before the next is written. Sending succeeds when the connection has
/// no packet left, and ends at the first failure.
pub open spec fn after_event(event: FlushEvent) -> FlushAction {
    match event {
        FlushEvent::Begin => FlushAction::WritePacket,
        FlushEvent::Packet { data, to } => FlushAction::Transmit { data, to },
        FlushEvent::Drained => FlushAction::Return { result: Ok(()) },
        FlushEvent::Refused { reason } => FlushAction::Return {
            result: Err(QuicError::SendFailed { reason }),
        },
        FlushEvent::Transmitted { result: Ok(_) } => FlushAction::WritePacket,
        FlushEvent::Transmitted { result: Err(reason) } => FlushAction::Return {
            result: Err(QuicError::External { reason }),
        },
    }
}

/// Decides one step of sending every packet that the connection has ready.
pub fn send_pending_packets(event: FlushEvent) -> (action: FlushAction)
    ensures
        action == after_event(event),
{
    match event {
        FlushEvent::Begin => FlushAction::WritePacket,
        FlushEvent::Packet { data, to } => FlushAction::Transmit { data, to },
        FlushEvent::Drained => FlushAction::Return { result: Ok(()) },
        FlushEvent::Refused { reason } => FlushAction::Return {
            result: Err(QuicError::SendFailed { reason }),
        },
        FlushEvent::Transmitted { result } => match result {
            Ok(_) => FlushAction::WritePacket,
            Err(reason) => FlushAction::Return { result: Err(QuicError::External { reason }) },
        },
    }
}

/// The packets that the connection wrote in the course of `events`.
pub open spec fn packets_written(events: Seq<FlushEvent>) -> Seq<(Seq<u8>, Address)>
    decreases events.len(),
{
    if events.len() == 0 {
        Seq::empty()
    } else {
        let before = packets_written(events.drop_last());
        match events.last() {
            FlushEvent::Packet { data, to } => before.push((data@, to)),
            _ => before,
        }
    }
}

/// The packets that are handed to the socket in the course of `events`.
pub open spec fn packets_transmitted(events: Seq<FlushEvent>) -> Seq<(Seq<u8>, Address)>
    decreases events.len(),
{
    if events.len() == 0 {
        Seq::empty()
    } else {
        let before = packets_transmitted(events.drop_last());
        match after_event(events.last()) {
            FlushAction::Transmit { data, to } => before.push((data@, to)),
            _ => before,
        }
    }
}

/// The socket gets exactly the packets that the connection wrote, in their
/// order, each with its own address.
pub proof fn law_packets_are_transmitted_as_written(events: Seq<FlushEvent>)
    ensures
        packets_transmitted(events) == packets_written(events),
    decreases events.len(),
{
    if events.len() > 0 {
        law_packets_are_transmitted_as_written(events.drop_last());
    }
}

/// Packets are written until the connection has none left, and then sending
/// succeeds, and only then; a failure of the connection or of the socket ends it
/// and is told.
pub proof fn law_sending_goes_on_until_no_packet_is_left(event: FlushEvent, reason: String)
    ensures
        after_event(event) is WritePacket <==> event is Begin || (event
            matches FlushEvent::Transmitted { result: Ok(_) }),
        after_event(event) matches FlushAction::Return { result: Ok(_) } <==> event is Drained,
        after_event(FlushEvent::Refused { reason }) == (FlushAction::Return {
            result: Err(QuicError::SendFailed { reason }),
        }),
        after_event(FlushEvent::Transmitted { result: Err(reason) }) == (FlushAction::Return {
            result: Err(QuicError::External { reason }),
        }),
{
}

} // verus!
