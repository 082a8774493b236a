use quicduck::connection::Address;
use quicduck::error::QuicError;
use quicduck::handshake::{step, HandshakeAction, HandshakeEvent};
use quicduck::packets::{send_pending_packets, FlushAction, FlushEvent};

const SERVER: Address = Address::V4 { ip: 0x7f00_0001, port: 8080 };
const LOCAL: Address = Address::V4 { ip: 0x0a00_0001, port: 5000 };
const STRANGER: Address = Address::V4 { ip: 0x7f00_0001, port: 8081 };

fn initial(established: bool) -> HandshakeEvent {
    HandshakeEvent::InitialSent { result: Ok(()), established }
}

fn flushed(established: bool) -> HandshakeEvent {
    HandshakeEvent::Flushed { result: Ok(()), established }
}

fn datagram(from: Address) -> HandshakeEvent {
    HandshakeEvent::Datagram { data: vec![1, 2], from, local: Ok(LOCAL), established: false }
}

fn error(action: HandshakeAction) -> QuicError {
    match action {
        HandshakeAction::Return { result: Err(error) } => error,
        other => panic!("no error: {:?}", other),
    }
}

#[test]
fn handshake_succeeds() {
    let mut attempts = 0;
    assert!(matches!(step(SERVER, &mut attempts, initial(false)), HandshakeAction::Receive));
    match step(SERVER, &mut attempts, datagram(SERVER)) {
        HandshakeAction::Process { data, from, to } => {
            assert_eq!(data, vec![1, 2]);
            assert_eq!(from, SERVER);
            assert_eq!(to, LOCAL);
        }
        other => panic!("not processed: {:?}", other),
    }
    let processed = HandshakeEvent::Processed { result: Ok(()) };
    assert!(matches!(step(SERVER, &mut attempts, processed), HandshakeAction::Flush));
    assert!(matches!(
        step(SERVER, &mut attempts, flushed(true)),
        HandshakeAction::Return { result: Ok(()) }
    ));
    assert_eq!(attempts, 1);
}

#[test]
fn handshake_gives_up_after_ten_attempts() {
    let mut attempts = 0;
    let mut receives = 0;
    let mut action = step(SERVER, &mut attempts, initial(false));
    while matches!(action, HandshakeAction::Receive) {
        receives += 1;
        assert!(matches!(
            step(SERVER, &mut attempts, HandshakeEvent::TimedOut),
            HandshakeAction::Flush
        ));
        action = step(SERVER, &mut attempts, flushed(false));
    }
    assert_eq!(receives, 10);
    assert!(matches!(error(action), QuicError::HandshakeFailed));
}

#[test]
fn handshake_may_succeed_on_the_last_attempt() {
    let mut attempts = 10;
    assert!(matches!(
        step(SERVER, &mut attempts, flushed(true)),
        HandshakeAction::Return { result: Ok(()) }
    ));
}

#[test]
fn stranger_costs_an_attempt_and_is_not_processed() {
    let mut attempts = 3;
    let action = step(SERVER, &mut attempts, datagram(STRANGER));
    assert!(matches!(action, HandshakeAction::Receive));
    assert_eq!(attempts, 4);
}

#[test]
fn address_of_the_server_is_compared_whole() {
    let plain = Address::V6 { ip: 1, port: 8080, flowinfo: 0, scope_id: 0 };
    let scoped = Address::V6 { ip: 1, port: 8080, flowinfo: 0, scope_id: 2 };
    let mut attempts = 0;
    let action = step(plain, &mut attempts, datagram(scoped));
    assert!(matches!(action, HandshakeAction::Receive));
    let action = step(scoped, &mut attempts, datagram(scoped));
    assert!(matches!(action, HandshakeAction::Process { .. }));
}

#[test]
fn handshake_passes_failures_on() {
    let mut attempts = 0;
    let reason = || "down".to_string();
    let event = HandshakeEvent::InitialSent { result: Err(reason()), established: false };
    assert_eq!(error(step(SERVER, &mut attempts, event)).message(), "down");
    let event = HandshakeEvent::Datagram {
        data: vec![1],
        from: SERVER,
        local: Err(reason()),
        established: false,
    };
    assert_eq!(error(step(SERVER, &mut attempts, event)).message(), "down");
    let event = HandshakeEvent::ReceiveFailed { reason: reason() };
    assert_eq!(error(step(SERVER, &mut attempts, event)).message(), "down");
    let event = HandshakeEvent::Processed { result: Err(reason()) };
    assert_eq!(error(step(SERVER, &mut attempts, event)).message(), "down");
    let failed = QuicError::SendFailed { reason: reason() };
    let event = HandshakeEvent::Flushed { result: Err(failed), established: true };
    assert_eq!(error(step(SERVER, &mut attempts, event)).message(), "发送失败: down");
    assert_eq!(attempts, 0);
}

#[test]
fn packets_are_sent_until_none_is_left() {
    assert!(matches!(send_pending_packets(FlushEvent::Begin), FlushAction::WritePacket));
    match send_pending_packets(FlushEvent::Packet { data: vec![5, 6], to: SERVER }) {
        FlushAction::Transmit { data, to } => {
            assert_eq!(data, vec![5, 6]);
            assert_eq!(to, SERVER);
        }
        other => panic!("not sent: {:?}", other),
    }
    assert!(matches!(
        send_pending_packets(FlushEvent::Transmitted { result: Ok(()) }),
        FlushAction::WritePacket
    ));
    assert!(matches!(
        send_pending_packets(FlushEvent::Drained),
        FlushAction::Return { result: Ok(()) }
    ));
}

#[test]
fn sending_packets_stops_at_a_failure() {
    match send_pending_packets(FlushEvent::Refused { reason: "tls".to_string() }) {
        FlushAction::Return { result: Err(error) } => {
            assert_eq!(error.message(), "发送失败: tls");
        }
        other => panic!("no error: {:?}", other),
    }
    match send_pending_packets(FlushEvent::Transmitted { result: Err("io".to_string()) }) {
        FlushAction::Return { result: Err(error) } => assert_eq!(error.message(), "io"),
        other => panic!("no error: {:?}", other),
    }
}
