use quicduck::client::SendTask;
use quicduck::client_layered::{
    complete_handshake, create_quic_connection, open_quic_connection, AppAction, AppEvent, AppLayer, AppToQuicMessage,
    Args, IncomingAction, IncomingEvent, LayerFlushAction, LayerFlushEvent, LayerPingAction,
    LayerPingEvent, LayerSendAction, LayerSendEvent, OpenAction, OpenEvent, QuicAction, QuicEvent, QuicLayer,
    QuicToAppMessage, QuicToUdpMessage, UdpAction, UdpEvent, UdpLayer, UdpToQuicMessage,
    PING_AFTER,
};
use quicduck::connection::Address;
use quicduck::error::QuicError;
use quicduck::handshake::{HandshakeAction, HandshakeEvent};
use quicduck::streams::{ReadStep, StreamRead};

const SERVER: Address = Address::V4 { ip: 0x7f00_0001, port: 8080 };
const LOCAL: Address = Address::V4 { ip: 0x0a00_0001, port: 5000 };

fn typed(line: &str) -> AppEvent {
    AppEvent::LineRead { line: line.to_string() }
}

fn failed() -> QuicError {
    QuicError::External { reason: "io".to_string() }
}

#[test]
fn layered_args_have_a_default() {
    assert_eq!(Args::default().server, "127.0.0.1:8080");
}

#[test]
fn app_layer_hands_lines_on() {
    let mut app = AppLayer::new();
    match app.run(typed(" hello\n")) {
        AppAction::Forward { message: AppToQuicMessage::SendMessage { content } } => {
            assert_eq!(content, "hello");
        }
        other => panic!("no message: {:?}", other),
    }
    assert!(matches!(app.run(AppEvent::Forwarded), AppAction::Prompt));
    assert!(matches!(app.run(AppEvent::Prompted { result: Ok(()) }), AppAction::Wait));
    assert!(matches!(app.run(typed(" \n")), AppAction::Prompt));
    assert!(matches!(app.run(AppEvent::LineFailed), AppAction::Prompt));
}

#[test]
fn app_layer_shuts_the_quic_layer_down() {
    let mut app = AppLayer::new();
    let action = app.run(typed("quit\n"));
    assert!(matches!(action, AppAction::Forward { message: AppToQuicMessage::Shutdown }));
    assert!(matches!(app.run(AppEvent::Forwarded), AppAction::Return { result: Ok(()) }));
}

#[test]
fn app_layer_shows_what_the_quic_layer_tells() {
    let mut app = AppLayer::new();
    let message = Some(QuicToAppMessage::MessageReceived { content: "Echo: a".to_string() });
    match app.run(AppEvent::FromQuic { message }) {
        AppAction::Show { content } => assert_eq!(content, "Echo: a"),
        other => panic!("no message: {:?}", other),
    }
    assert!(matches!(app.run(AppEvent::Shown { result: Ok(()) }), AppAction::Wait));
    let message = Some(QuicToAppMessage::ConnectionStatus { connected: true });
    let action = app.run(AppEvent::FromQuic { message });
    assert!(matches!(action, AppAction::ReportStatus { connected: true }));
    let message = Some(QuicToAppMessage::Error { message: "bad".to_string() });
    match app.run(AppEvent::FromQuic { message }) {
        AppAction::ReportError { message } => assert_eq!(message, "bad"),
        other => panic!("no error: {:?}", other),
    }
    assert!(matches!(app.run(AppEvent::Reported), AppAction::Wait));
    let action = app.run(AppEvent::FromQuic { message: None });
    assert!(matches!(action, AppAction::Return { result: Ok(()) }));
}

#[test]
fn app_layer_ends_with_the_terminal() {
    let mut app = AppLayer::new();
    let events = vec![
        AppEvent::Prompted { result: Err("tty".to_string()) },
        AppEvent::Shown { result: Err("tty".to_string()) },
    ];
    for event in events {
        match app.run(event) {
            AppAction::Return { result: Err(error) } => assert_eq!(error.message(), "tty"),
            other => panic!("no error: {:?}", other),
        }
    }
}

#[test]
fn quic_layer_obeys_the_app_layer() {
    let quic = QuicLayer::new(SERVER, 0);
    let message = Some(AppToQuicMessage::SendMessage { content: "hi".to_string() });
    match quic.run(QuicEvent::FromApp { message }) {
        QuicAction::Send { content } => assert_eq!(content, "hi"),
        other => panic!("no message: {:?}", other),
    }
    assert!(matches!(quic.run(QuicEvent::SendDone { result: Ok(()) }), QuicAction::Wait));
    match quic.run(QuicEvent::SendDone { result: Err(QuicError::NotEstablished) }) {
        QuicAction::Report { message: QuicToAppMessage::Error { message } } => {
            assert_eq!(message, "发送消息失败: 连接未建立");
        }
        other => panic!("no report: {:?}", other),
    }
    assert!(matches!(quic.run(QuicEvent::Reported), QuicAction::Wait));
    let action = quic.run(QuicEvent::FromApp { message: Some(AppToQuicMessage::Shutdown) });
    assert!(matches!(action, QuicAction::Return { result: Ok(()) }));
    let action = quic.run(QuicEvent::FromApp { message: None });
    assert!(matches!(action, QuicAction::Return { result: Ok(()) }));
}

#[test]
fn quic_layer_takes_packets_of_the_server_only() {
    let quic = QuicLayer::new(SERVER, 0);
    let packet = |from| Some(UdpToQuicMessage { data: vec![1], from, to: LOCAL });
    match quic.run(QuicEvent::FromUdp { message: packet(SERVER) }) {
        QuicAction::Handle { message } => assert_eq!(message.data, vec![1]),
        other => panic!("not handled: {:?}", other),
    }
    let action = quic.run(QuicEvent::FromUdp { message: packet(LOCAL) });
    assert!(matches!(action, QuicAction::Wait));
    assert!(matches!(quic.run(QuicEvent::PacketHandled), QuicAction::FlushPacket));
    let action = quic.run(QuicEvent::PacketFlushed { result: Ok(()) });
    assert!(matches!(action, QuicAction::Wait));
    let action = quic.run(QuicEvent::PacketFlushed { result: Err(failed()) });
    assert!(matches!(action, QuicAction::Return { result: Err(_) }));
    let action = quic.run(QuicEvent::FromUdp { message: None });
    assert!(matches!(action, QuicAction::Return { result: Ok(()) }));
}

#[test]
fn quic_layer_pings_after_thirty_seconds() {
    let mut quic = QuicLayer::new(SERVER, 0);
    assert_eq!(PING_AFTER, 30_000_000_000);
    assert!(matches!(quic.run(QuicEvent::TimerFired), QuicAction::FlushTimer));
    let action = quic.run(QuicEvent::TimerFlushed { result: Ok(()), now: PING_AFTER });
    assert!(matches!(action, QuicAction::Wait));
    let action = quic.run(QuicEvent::TimerFlushed { result: Ok(()), now: PING_AFTER + 1 });
    assert!(matches!(action, QuicAction::Ping));
    let action = quic.run(QuicEvent::TimerFlushed { result: Err(failed()), now: 0 });
    assert!(matches!(action, QuicAction::Return { result: Err(_) }));
    let action = quic.send_ping(LayerPingEvent::Queued { result: Ok(()) });
    assert!(matches!(action, LayerPingAction::Flush));
    let action = quic.send_ping(LayerPingEvent::Flushed { result: Err(failed()), now: 9 });
    assert!(matches!(action, LayerPingAction::Return { result: Err(_) }));
    assert!(quic.should_send_ping(PING_AFTER + 1));
    let action = quic.send_ping(LayerPingEvent::Flushed { result: Ok(()), now: 9 });
    assert!(matches!(action, LayerPingAction::Return { result: Ok(()) }));
    assert!(!quic.should_send_ping(PING_AFTER + 1));
    assert!(matches!(quic.run(QuicEvent::PingDone), QuicAction::Wait));
    match quic.send_ping(LayerPingEvent::Queued { result: Err("done".to_string()) }) {
        LayerPingAction::Return { result: Err(error) } => {
            assert_eq!(error.message(), "PING发送失败: done");
        }
        other => panic!("no error: {:?}", other),
    }
}

fn written(action: LayerSendAction) -> (u64, Vec<u8>) {
    match action {
        LayerSendAction::Write { stream_id, bytes, fin } => {
            assert!(fin);
            (stream_id, bytes)
        }
        other => panic!("not written: {:?}", other),
    }
}

fn wrote(count: usize) -> LayerSendEvent {
    LayerSendEvent::Written { result: Ok(count) }
}

#[test]
fn quic_layer_sends_each_message_on_its_own_stream() {
    let mut quic = QuicLayer::new(SERVER, 0);
    assert!(quic.has_stream());
    for expected in vec![4, 8, 12] {
        let mut task = SendTask::new("鸭");
        let action = quic.send_message(&mut task, LayerSendEvent::Begin { established: true });
        assert_eq!(written(action), (expected, "鸭".as_bytes().to_vec()));
        let action = quic.send_message(&mut task, wrote(3));
        assert!(matches!(action, LayerSendAction::Flush));
        let flushed = LayerSendEvent::Flushed { result: Ok(()), now: 3 };
        let action = quic.send_message(&mut task, flushed);
        assert!(matches!(action, LayerSendAction::Return { result: Ok(()) }));
        assert!(!quic.should_send_ping(PING_AFTER + 3));
    }
}

#[test]
fn quic_layer_sends_the_rest_of_a_message() {
    let mut quic = QuicLayer::new(SERVER, 0);
    let waited = || LayerSendEvent::Waited { result: Ok(()) };
    let mut task = SendTask::new("hello");
    let action = quic.send_message(&mut task, LayerSendEvent::Begin { established: true });
    assert_eq!(written(action), (4, b"hello".to_vec()));
    let action = quic.send_message(&mut task, wrote(2));
    assert!(matches!(action, LayerSendAction::FlushAndWait));
    assert_eq!(written(quic.send_message(&mut task, waited())), (4, b"llo".to_vec()));
    let blocked = LayerSendEvent::Blocked { reason: "Done".to_string() };
    let action = quic.send_message(&mut task, blocked);
    assert!(matches!(action, LayerSendAction::FlushAndWait));
    assert_eq!(written(quic.send_message(&mut task, waited())), (4, b"llo".to_vec()));
    let action = quic.send_message(&mut task, wrote(3));
    assert!(matches!(action, LayerSendAction::Flush));
}

#[test]
fn connection_is_opened_with_its_handshake() {
    let setup = create_quic_connection().unwrap();
    let scid = setup.scid.clone();
    let begin = OpenEvent::Begin { setup, server_addr: SERVER, local: Ok(LOCAL) };
    match open_quic_connection(begin) {
        OpenAction::Connect { setup, local, server_addr } => {
            assert_eq!(setup.scid, scid);
            assert_eq!(local, LOCAL);
            assert_eq!(server_addr, SERVER);
        }
        other => panic!("not connected: {:?}", other),
    }
    let action = open_quic_connection(OpenEvent::Connected { result: Ok(()) });
    assert!(matches!(action, OpenAction::Handshake));
    let action = open_quic_connection(OpenEvent::HandshakeDone { result: Ok(()) });
    assert!(matches!(action, OpenAction::Return { result: Ok(()) }));
    let setup = create_quic_connection().unwrap();
    let reason = || "down".to_string();
    let events = vec![
        OpenEvent::Begin { setup, server_addr: SERVER, local: Err(reason()) },
        OpenEvent::Connected { result: Err(reason()) },
        OpenEvent::HandshakeDone { result: Err(QuicError::External { reason: reason() }) },
    ];
    for event in events {
        match open_quic_connection(event) {
            OpenAction::Return { result: Err(error) } => assert_eq!(error.message(), "down"),
            other => panic!("no error: {:?}", other),
        }
    }
}

#[test]
fn quic_layer_tells_why_a_message_was_not_sent() {
    let mut quic = QuicLayer::new(SERVER, 0);
    let error = |action| match action {
        LayerSendAction::Return { result: Err::<(), QuicError>(error) } => error.message(),
        other => panic!("no error: {:?}", other),
    };
    let mut task = SendTask::new("x");
    let action = quic.send_message(&mut task, LayerSendEvent::Begin { established: false });
    assert_eq!(error(action), "连接未建立");
    let event = LayerSendEvent::Blocked { reason: "Done".to_string() };
    assert_eq!(error(quic.send_message(&mut task, event)), "发送失败: Done");
    let event = LayerSendEvent::Written { result: Err("full".to_string()) };
    assert_eq!(error(quic.send_message(&mut task, event)), "发送失败: full");
    let event = LayerSendEvent::Waited { result: Err(failed()) };
    assert_eq!(error(quic.send_message(&mut task, event)), "io");
    let event = LayerSendEvent::Flushed { result: Err(failed()), now: 9 };
    assert_eq!(error(quic.send_message(&mut task, event)), "io");
    assert!(quic.should_send_ping(PING_AFTER + 1));
}

#[test]
fn quic_layer_hands_messages_to_the_app_layer() {
    let mut quic = QuicLayer::new(SERVER, 0);
    let event = IncomingEvent::Processed { result: Err("bad".to_string()), now: 5 };
    match quic.handle_incoming_packet(event) {
        IncomingAction::Return { result: Err(error) } => assert_eq!(error.message(), "bad"),
        other => panic!("no error: {:?}", other),
    }
    assert!(quic.should_send_ping(PING_AFTER + 1));
    let event = IncomingEvent::Processed { result: Ok(()), now: 5 };
    assert!(matches!(quic.handle_incoming_packet(event), IncomingAction::ReadStreams));
    assert!(!quic.should_send_ping(PING_AFTER + 1));
    let step = quic.read_stream_data(4, StreamRead::Data { bytes: b"Echo".to_vec(), fin: false });
    assert!(matches!(step, ReadStep::ReadAgain));
    let step = quic.read_stream_data(4, StreamRead::Data { bytes: b": a".to_vec(), fin: true });
    let result = match step {
        ReadStep::Return { result } => result,
        other => panic!("no text: {:?}", other),
    };
    match quic.handle_incoming_packet(IncomingEvent::StreamRead { result }) {
        IncomingAction::Forward { message: QuicToAppMessage::MessageReceived { content } } => {
            assert_eq!(content, "Echo: a");
        }
        other => panic!("not forwarded: {:?}", other),
    }
    let action = quic.handle_incoming_packet(IncomingEvent::Forwarded);
    assert!(matches!(action, IncomingAction::NextStream));
    let event = IncomingEvent::StreamRead { result: Ok(String::new()) };
    assert!(matches!(quic.handle_incoming_packet(event), IncomingAction::NextStream));
    let event = IncomingEvent::StreamRead { result: Err(failed()) };
    assert!(matches!(quic.handle_incoming_packet(event), IncomingAction::NextStream));
    let action = quic.handle_incoming_packet(IncomingEvent::StreamsRead);
    assert!(matches!(action, IncomingAction::Return { result: Ok(()) }));
}

#[test]
fn quic_layer_hands_packets_to_the_udp_layer() {
    let quic = QuicLayer::new(SERVER, 0);
    let action = quic.send_pending_packets(LayerFlushEvent::Begin);
    assert!(matches!(action, LayerFlushAction::WritePacket));
    let event = LayerFlushEvent::Packet { data: vec![1, 2], to: SERVER };
    match quic.send_pending_packets(event) {
        LayerFlushAction::Forward { message } => {
            assert_eq!(message.data, vec![1, 2]);
            assert_eq!(message.to, SERVER);
        }
        other => panic!("not forwarded: {:?}", other),
    }
    let action = quic.send_pending_packets(LayerFlushEvent::Forwarded);
    assert!(matches!(action, LayerFlushAction::WritePacket));
    let action = quic.send_pending_packets(LayerFlushEvent::Drained);
    assert!(matches!(action, LayerFlushAction::Return { result: Ok(()) }));
    let event = LayerFlushEvent::Refused { reason: "tls".to_string() };
    match quic.send_pending_packets(event) {
        LayerFlushAction::Return { result: Err(error) } => {
            assert_eq!(error.message(), "发送失败: tls");
        }
        other => panic!("no error: {:?}", other),
    }
}

#[test]
fn udp_layer_carries_packets_both_ways() {
    let udp = UdpLayer::new();
    let event = UdpEvent::Received { data: vec![7], from: SERVER, local: Some(LOCAL) };
    match udp.run(event) {
        UdpAction::Forward { message } => {
            assert_eq!(message.data, vec![7]);
            assert_eq!(message.from, SERVER);
            assert_eq!(message.to, LOCAL);
        }
        other => panic!("not forwarded: {:?}", other),
    }
    let event = UdpEvent::Received { data: vec![7], from: SERVER, local: None };
    match udp.run(event) {
        UdpAction::Forward { message } => {
            assert_eq!(message.to, Address::V4 { ip: 0x7f00_0001, port: 0 });
        }
        other => panic!("not forwarded: {:?}", other),
    }
    let message = Some(QuicToUdpMessage { data: vec![8], to: SERVER });
    match udp.run(UdpEvent::FromQuic { message }) {
        UdpAction::Transmit { message } => assert_eq!(message.data, vec![8]),
        other => panic!("not sent: {:?}", other),
    }
    assert!(matches!(udp.run(UdpEvent::ReceiveFailed), UdpAction::Wait));
    assert!(matches!(udp.run(UdpEvent::Forwarded), UdpAction::Wait));
    assert!(matches!(udp.run(UdpEvent::Transmitted), UdpAction::Wait));
    assert!(matches!(udp.run(UdpEvent::FromQuic { message: None }), UdpAction::Return));
}

#[test]
fn layered_client_connects_like_the_other() {
    let setup = create_quic_connection().unwrap();
    assert_eq!(setup.scid.len(), 20);
    assert_eq!(setup.config.verify_peer, Some(false));
    let mut attempts = 9;
    let event = HandshakeEvent::Datagram {
        data: vec![1],
        from: LOCAL,
        local: Ok(LOCAL),
        established: false,
    };
    let action = complete_handshake(SERVER, &mut attempts, event);
    assert!(matches!(action, HandshakeAction::Receive));
    let event = HandshakeEvent::Flushed { result: Ok(()), established: false };
    let action = complete_handshake(SERVER, &mut attempts, event);
    assert!(matches!(
        action,
        HandshakeAction::Return { result: Err(QuicError::HandshakeFailed) }
    ));
}
