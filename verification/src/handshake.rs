//! The handshake of a client, which gives up after a number of attempts.

use vstd::prelude::*;

use crate::connection::Address;
use crate::error::QuicError;

verus! {

/// How often a client waits for a datagram before it gives up.
pub const MAX_ATTEMPTS: u32 = 10;

/// How long a client waits for one datagram, in milliseconds.
pub const RECEIVE_TIMEOUT_MS: u64 = 1000;

/// What happened during the handshake. `established` tells whether the
/// connection is established at that moment.
#[derive(Debug)]
pub enum HandshakeEvent {
    /// The first packet was written and handed to the socket.
    InitialSent { result: Result<(), String>, established: bool },
    /// A datagram arrived at the socket with the given address, which the socket
    /// may fail to tell.
    Datagram { data: Vec<u8>, from: Address, local: Result<Address, String>, established: bool },
    /// The socket failed.
    ReceiveFailed { reason: String },
    /// No datagram arrived in time.
    TimedOut,
    /// The connection took in the datagram.
    Processed { result: Result<(), String> },
    /// The ready packets were sent.
    Flushed { result: Result<(), QuicError>, established: bool },
}

/// What to do next in the handshake.
#[derive(Debug)]
pub enum HandshakeAction {
    /// Wait for a datagram.
    Receive,
    /// Let the connection take in the datagram.
    Process { data: Vec<u8>, from: Address, to: Address },
    /// Send the ready packets.
    Flush,
    /// Stop.
    Return { result: Result<(), QuicError> },
}

/// The number of attempts and the action when a round of the handshake is over:
/// another attempt while the connection is not established and attempts are
/// left.
pub open spec fn next_round(attempts: u32, established: bool) -> (u32, HandshakeAction) {
    if established {
        (attempts, HandshakeAction::Return { result: Ok(()) })
    } else if attempts < MAX_ATTEMPTS {
        ((attempts + 1) as u32, HandshakeAction::Receive)
    } else {
        (attempts, HandshakeAction::Return { result: Err(QuicError::HandshakeFailed) })
    }
}

/// The number of attempts and the action after `event`.
pub open spec fn after_event(server_addr: Address, attempts: u32, event: HandshakeEvent) -> (
    u32,
    HandshakeAction,
) {
    match event {
        HandshakeEvent::InitialSent { result: Ok(_), established } => next_round(
            attempts,
            established,
        ),
        HandshakeEvent::InitialSent { result: Err(reason), .. } => (
            attempts,
            HandshakeAction::Return { result: Err(QuicError::External { reason }) },
        ),
        HandshakeEvent::Datagram { data, from, local, established } => if from == server_addr {
            (
                attempts,
                match local {
                    Ok(to) => HandshakeAction::Process { data, from, to },
                    Err(reason) => HandshakeAction::Return {
                        result: Err(QuicError::External { reason }),
                    },
                },
            )
        } else {
            next_round(attempts, established)
        },
        HandshakeEvent::ReceiveFailed { reason } => (
            attempts,
            HandshakeAction::Return { result: Err(QuicError::External { reason }) },
        ),
        HandshakeEvent::TimedOut => (attempts, HandshakeAction::Flush),
        HandshakeEvent::Processed { result: Ok(_) } => (attempts, HandshakeAction::Flush),
        HandshakeEvent::Processed { result: Err(reason) } => (
            attempts,
            HandshakeAction::Return { result: Err(QuicError::External { reason }) },
        ),
        HandshakeEvent::Flushed { result: Ok(_), established } => next_round(
            attempts,
            established,
        ),
        HandshakeEvent::Flushed { result: Err(error), .. } => (
            attempts,
            HandshakeAction::Return { result: Err(error) },
        ),
    }
}

fn start_round(attempts: &mut u32, established: bool) -> (action: HandshakeAction)
    ensures
        (*final(attempts), action) == next_round(*old(attempts), established),
{
    if established {
        HandshakeAction::Return { result: Ok(()) }
    } else if *attempts < MAX_ATTEMPTS {
        *attempts = *attempts + 1;
        HandshakeAction::Receive
    } else {
        HandshakeAction::Return { result: Err(QuicError::HandshakeFailed) }
    }
}

/// Decides one step of the handshake with `server_addr`. `attempts` counts how
/// often a datagram has been waited for; it starts at zero.
pub fn step(server_addr: Address, attempts: &mut u32, event: HandshakeEvent) -> (action:
    HandshakeAction)
    ensures
        (*final(attempts), action) == after_event(server_addr, *old(attempts), event),
        event matches HandshakeEvent::Datagram { data, from, local: Ok(to), .. } ==> (from
            == server_addr ==> *final(attempts) == *old(attempts) && action == (
        HandshakeAction::Process { data, from, to })),
        action is Process ==> (event matches HandshakeEvent::Datagram { from, .. } && from
            == server_addr),
{
    match event {
        HandshakeEvent::InitialSent { result, established } => match result {
            Ok(_) => start_round(attempts, established),
            Err(reason) => HandshakeAction::Return { result: Err(QuicError::External { reason }) },
        },
        HandshakeEvent::Datagram { data, from, local, established } => {
            if from == server_addr {
                match local {
                    Ok(to) => HandshakeAction::Process { data, from, to },
                    Err(reason) => HandshakeAction::Return {
                        result: Err(QuicError::External { reason }),
                    },
                }
            } else {
                start_round(attempts, established)
            }
        },
        HandshakeEvent::ReceiveFailed { reason } => HandshakeAction::Return {
            result: Err(QuicError::External { reason }),
        },
        HandshakeEvent::TimedOut => HandshakeAction::Flush,
        HandshakeEvent::Processed { result } => match result {
            Ok(_) => HandshakeAction::Flush,
            Err(reason) => HandshakeAction::Return { result: Err(QuicError::External { reason }) },
        },
        HandshakeEvent::Flushed { result, established } => match result {
            Ok(_) => start_round(attempts, established),
            Err(error) => HandshakeAction::Return { result: Err(error) },
        },
    }
}

/// The number of attempts after `events`.
pub open spec fn attempts_after(
    server_addr: Address,
    attempts: u32,
    events: Seq<HandshakeEvent>,
) -> u32
    decreases events.len(),
{
    if events.len() == 0 {
        attempts
    } else {
        after_event(
            server_addr,
            attempts_after(server_addr, attempts, events.drop_last()),
            events.last(),
        ).0
    }
}

/// How often the handshake waits for a datagram in the course of `events`.
pub open spec fn receives_in(
    server_addr: Address,
    attempts: u32,
    events: Seq<HandshakeEvent>,
) -> nat
    decreases events.len(),
{
    if events.len() == 0 {
        0
    } else {
        let before = events.drop_last();
        let action = after_event(
            server_addr,
            attempts_after(server_addr, attempts, before),
            events.last(),
        ).1;
        receives_in(server_addr, attempts, before) + if action is Receive {
            1nat
        } else {
            0nat
        }
    }
}

/// Whatever happens, a handshake waits for a datagram at most as often as it
/// has attempts.
pub proof fn law_attempts_are_bounded(server_addr: Address, events: Seq<HandshakeEvent>)
    ensures
        receives_in(server_addr, 0, events) == attempts_after(server_addr, 0, events),
        receives_in(server_addr, 0, events) <= MAX_ATTEMPTS,
    decreases events.len(),
{
    if events.len() > 0 {
        law_attempts_are_bounded(server_addr, events.drop_last());
    }
}

/// A handshake succeeds only on an established connection, and fails for want
/// of attempts only when all of them are used and the connection is not
/// established.
pub proof fn law_success_means_established(
    server_addr: Address,
    attempts: u32,
    event: HandshakeEvent,
)
    ensures
        ({
            let action = after_event(server_addr, attempts, event).1;
            let established = match event {
                HandshakeEvent::InitialSent { established, .. } => established,
                HandshakeEvent::Datagram { established, .. } => established,
                HandshakeEvent::Flushed { established, .. } => established,
                _ => false,
            };
            &&& action == (HandshakeAction::Return { result: Ok(()) }) ==> established
            &&& action == (HandshakeAction::Return { result: Err(QuicError::HandshakeFailed) })
                && !(event matches HandshakeEvent::Flushed { result: Err(_), .. })
                ==> !established && attempts >= MAX_ATTEMPTS
        }),
{
}

/// Every datagram from the server reaches the connection, whatever it holds and
/// however long it is, with the addresses between which it travelled, and costs
/// no attempt; where the socket does not tell its address, the handshake ends
/// with that failure.
pub proof fn law_datagrams_of_the_server_are_processed(
    server_addr: Address,
    attempts: u32,
    data: Vec<u8>,
    local: Result<Address, String>,
    established: bool,
)
    ensures
        ({
            let (after, action) = after_event(
                server_addr,
                attempts,
                HandshakeEvent::Datagram { data, from: server_addr, local, established },
            );
            &&& after == attempts
            &&& local matches Ok(to) ==> action == (HandshakeAction::Process {
                data,
                from: server_addr,
                to,
            })
            &&& local matches Err(reason) ==> action == (HandshakeAction::Return {
                result: Err(QuicError::External { reason }),
            })
        }),
{
}

/// A datagram from anyone else is dropped whatever it holds: what follows is what
/// would follow at the end of any round.
pub proof fn law_content_of_strangers_does_not_matter(
    server_addr: Address,
    attempts: u32,
    data: Vec<u8>,
    from: Address,
    local: Result<Address, String>,
    established: bool,
)
    requires
        from != server_addr,
    ensures
        after_event(
            server_addr,
            attempts,
            HandshakeEvent::Datagram { data, from, local, established },
        ) == after_event(
            server_addr,
            attempts,
            HandshakeEvent::Flushed { result: Ok(()), established },
        ),
{
}

/// At the end of a round an established connection ends the handshake with
/// success, and only then; else another datagram is waited for while fewer than
/// ten have been, and the handshake fails when ten have been. The first packet
/// ends a round as the ready packets do.
pub proof fn law_round_ends_with_the_state_of_the_connection(
    server_addr: Address,
    attempts: u32,
    established: bool,
)
    ensures
        ({
            let (after, action) = after_event(
                server_addr,
                attempts,
                HandshakeEvent::Flushed { result: Ok(()), established },
            );
            &&& (after, action) == after_event(
                server_addr,
                attempts,
                HandshakeEvent::InitialSent { result: Ok(()), established },
            )
            &&& established <==> (action matches HandshakeAction::Return { result: Ok(_) })
            &&& action is Receive <==> !established && attempts < 10
            &&& action is Receive ==> after == attempts + 1
            &&& !(action is Receive) ==> after == attempts
            &&& !established && attempts >= 10 ==> action == (HandshakeAction::Return {
                result: Err(QuicError::HandshakeFailed),
            })
        }),
{
}

/// After a datagram was taken in, and after none came in time, the ready packets
/// are sent, at no cost of attempts.
pub proof fn law_packets_are_sent_in_each_round(server_addr: Address, attempts: u32)
    ensures
        after_event(server_addr, attempts, HandshakeEvent::TimedOut) == (
            attempts,
            HandshakeAction::Flush,
        ),
        after_event(server_addr, attempts, HandshakeEvent::Processed { result: Ok(()) }) == (
            attempts,
            HandshakeAction::Flush,
        ),
{
}

/// A failure of the socket or of the connection ends the handshake at once and
/// is told as it was reported.
pub proof fn law_failures_end_the_handshake(
    server_addr: Address,
    attempts: u32,
    reason: String,
    error: QuicError,
    established: bool,
)
    ensures
        ({
            let told = (
                attempts,
                HandshakeAction::Return { result: Err(QuicError::External { reason }) },
            );
            &&& after_event(
                server_addr,
                attempts,
                HandshakeEvent::InitialSent { result: Err(reason), established },
            ) == told
            &&& after_event(server_addr, attempts, HandshakeEvent::ReceiveFailed { reason })
                == told
            &&& after_event(
                server_addr,
                attempts,
                HandshakeEvent::Processed { result: Err(reason) },
            ) == told
            &&& after_event(
                server_addr,
                attempts,
                HandshakeEvent::Flushed { result: Err(error), established },
            ) == (attempts, HandshakeAction::Return { result: Err(error) })
        }),
{
}

/// A datagram reaches the connection only from the server, and unchanged.
pub proof fn law_strangers_are_ignored(server_addr: Address, attempts: u32, event: HandshakeEvent)
    ensures
        after_event(server_addr, attempts, event).1 matches HandshakeAction::Process {
            data,
            from,
            ..
        } ==> from == server_addr && (event matches HandshakeEvent::Datagram {
            data: arrived,
            from: sender,
            ..
        } && arrived == data && sender == from),
{
}

} // verus!
