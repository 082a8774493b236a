use quicduck::client::{SendAction, SendEvent, SendTask, SimpleQuicClient};
use quicduck::connection::{Address, ConnectionStatus};
use quicduck::error::QuicError;
use quicduck::header::{PacketHeader, PacketType};
use quicduck::server::{
    Args, ConnectionHandler, EchoAction, EchoEvent, HandlerAction, HandlerEvent,
    NewConnectionAction, NewConnectionEvent, PacketAction, PacketEvent, ServerAction, ServerEvent,
    SetupTask, SimpleQuicServer, UdpPacket,
};
use quicduck::streams::{ReadStep, StreamRead};
use quicduck::table::ConnectionTable;

const CLIENT: Address = Address::V4 { ip: 0x7f00_0001, port: 5000 };
const LOCAL: Address = Address::V4 { ip: 0x7f00_0001, port: 8080 };
const ONE: &[u8; 20] = b"first connection id.";
const TWO: &[u8; 20] = b"second connection id";
const MOVED: Address = Address::V4 { ip: 0x7f00_0001, port: 5001 };

fn read(stream_id: u64, bytes: &[u8], fin: bool) -> EchoEvent {
    EchoEvent::Read { stream_id, read: StreamRead::Data { bytes: bytes.to_vec(), fin } }
}

fn response(action: EchoAction) -> (u64, String) {
    match action {
        EchoAction::Respond { stream_id, response, fin } => {
            assert!(fin);
            (stream_id, String::from_utf8(response).unwrap())
        }
        other => panic!("no response: {:?}", other),
    }
}

fn rest(action: EchoAction) -> (u64, String) {
    match action {
        EchoAction::Resume { stream_id, rest, fin } => {
            assert!(fin);
            (stream_id, String::from_utf8(rest).unwrap())
        }
        other => panic!("no rest: {:?}", other),
    }
}

fn packet() -> UdpPacket {
    UdpPacket { data: vec![1, 2, 3], from: CLIENT }
}

/// Accepts a connection under the given ID.
fn accept(server: &mut SimpleQuicServer<u32>, scid: &[u8], channel: u32) {
    let mut task = SetupTask::new(packet());
    let event = NewConnectionEvent::IdChosen { scid: scid.to_vec() };
    match server.handle_new_connection(&mut task, event) {
        NewConnectionAction::Accept { scid: id, from } => {
            assert_eq!(id, scid.to_vec());
            assert_eq!(from, CLIENT);
        }
        other => panic!("not accepted: {:?}", other),
    }
    let event = NewConnectionEvent::Accepted { result: Ok(channel) };
    match server.handle_new_connection(&mut task, event) {
        NewConnectionAction::DeliverInitial { conn_id, packet } => {
            assert_eq!(conn_id, scid.to_vec());
            assert_eq!(packet.data, vec![1, 2, 3]);
        }
        other => panic!("not delivered: {:?}", other),
    }
}

fn datagram(data: Vec<u8>) -> ServerEvent {
    ServerEvent::Datagram { packet: UdpPacket { data, from: CLIENT } }
}

/// A packet with a long header of the given kind.
fn long(bits: u8, dcid: &[u8]) -> Vec<u8> {
    let mut data = vec![0xc0 | bits << 4, 0, 0, 0, 1, dcid.len() as u8];
    data.extend_from_slice(dcid);
    data.extend_from_slice(&[0; 20]);
    data
}

/// A packet with a short header.
fn short(dcid: &[u8; 20]) -> Vec<u8> {
    let mut data = vec![0x40];
    data.extend_from_slice(dcid);
    data.push(1);
    data
}

#[test]
fn server_args_have_defaults() {
    let args = Args::default();
    assert_eq!(args.addr, "127.0.0.1:8080");
    assert_eq!(args.domain, "localhost");
}

#[test]
fn message_is_echoed() {
    let mut handler = ConnectionHandler::new(CLIENT, 0);
    let action = handler.process_readable_streams(read(4, b"hello", true));
    assert_eq!(response(action), (4, "Echo: hello".to_string()));
    let event = EchoEvent::Responded { stream_id: 4, result: Ok(11) };
    assert!(matches!(handler.process_readable_streams(event), EchoAction::NextStream));
    let event = EchoEvent::Writable { stream_id: 4 };
    assert!(matches!(handler.process_readable_streams(event), EchoAction::NextStream));
    let action = handler.process_readable_streams(read(4, b"again", true));
    assert_eq!(response(action), (4, "Echo: again".to_string()));
}

#[test]
fn message_in_parts_is_echoed_whole() {
    let mut handler = ConnectionHandler::new(CLIENT, 0);
    let action = handler.process_readable_streams(read(4, b"he", false));
    assert!(matches!(action, EchoAction::ReadAgain));
    let event = EchoEvent::Read { stream_id: 4, read: StreamRead::Blocked };
    assert!(matches!(handler.process_readable_streams(event), EchoAction::NextStream));
    let action = handler.process_readable_streams(read(8, b"other", true));
    assert_eq!(response(action), (8, "Echo: other".to_string()));
    let action = handler.process_readable_streams(read(4, b"", false));
    assert!(matches!(action, EchoAction::NextStream));
    let failed = StreamRead::Failed { reason: "x".to_string() };
    let event = EchoEvent::Read { stream_id: 4, read: failed };
    assert!(matches!(handler.process_readable_streams(event), EchoAction::NextStream));
    let action = handler.process_readable_streams(read(4, b"llo", true));
    assert_eq!(response(action), (4, "Echo: hello".to_string()));
    let action = handler.process_readable_streams(EchoEvent::StreamsRead);
    assert!(matches!(action, EchoAction::Return { result: Ok(()) }));
}

#[test]
fn empty_message_is_not_answered() {
    let mut handler = ConnectionHandler::new(CLIENT, 0);
    let action = handler.process_readable_streams(read(4, b"", true));
    assert!(matches!(action, EchoAction::NextStream));
}

#[test]
fn invalid_bytes_are_echoed_replaced() {
    let mut handler = ConnectionHandler::new(CLIENT, 0);
    let action = handler.process_readable_streams(read(4, b"a\xff", true));
    assert_eq!(response(action).1, "Echo: a\u{fffd}");
}

#[test]
fn rest_of_an_answer_is_kept_until_there_is_room() {
    let mut handler = ConnectionHandler::new(CLIENT, 0);
    let responded = |count| EchoEvent::Responded { stream_id: 4, result: Ok(count) };
    let writable = || EchoEvent::Writable { stream_id: 4 };
    let action = handler.process_readable_streams(read(4, b"hello", true));
    assert_eq!(response(action), (4, "Echo: hello".to_string()));
    let event = EchoEvent::Blocked { stream_id: 4, reason: "Done".to_string() };
    match handler.process_readable_streams(event) {
        EchoAction::Return { result: Err(error) } => assert_eq!(error.message(), "Done"),
        other => panic!("no error: {:?}", other),
    }
    let action = handler.process_readable_streams(writable());
    assert_eq!(rest(action), (4, "Echo: hello".to_string()));
    let _ = handler.process_readable_streams(responded(2));
    let action = handler.process_readable_streams(read(8, b"other", true));
    assert_eq!(response(action), (8, "Echo: other".to_string()));
    let action = handler.process_readable_streams(writable());
    assert_eq!(rest(action), (4, "ho: hello".to_string()));
    let event = EchoEvent::StillBlocked { stream_id: 4 };
    assert!(matches!(handler.process_readable_streams(event), EchoAction::NextStream));
    let action = handler.process_readable_streams(writable());
    assert_eq!(rest(action), (4, "ho: hello".to_string()));
    let _ = handler.process_readable_streams(responded(8));
    let action = handler.process_readable_streams(writable());
    assert_eq!(rest(action), (4, "o".to_string()));
    let _ = handler.process_readable_streams(responded(1));
    let action = handler.process_readable_streams(writable());
    assert!(matches!(action, EchoAction::NextStream));
    let action = handler.process_readable_streams(EchoEvent::Writable { stream_id: 8 });
    assert_eq!(rest(action), (8, "Echo: other".to_string()));
}

#[test]
fn failed_answer_is_given_up_and_told() {
    let mut handler = ConnectionHandler::new(CLIENT, 0);
    let _ = handler.process_readable_streams(read(4, b"ab", true));
    let event = EchoEvent::Responded { stream_id: 4, result: Err("stopped".to_string()) };
    match handler.process_readable_streams(event) {
        EchoAction::Return { result: Err(error) } => assert_eq!(error.message(), "stopped"),
        other => panic!("no error: {:?}", other),
    }
    let action = handler.process_readable_streams(EchoEvent::Writable { stream_id: 4 });
    assert!(matches!(action, EchoAction::NextStream));
}

#[test]
fn client_gets_its_message_back() {
    let server_addr = Address::V4 { ip: 0x7f00_0001, port: 8080 };
    let status = ConnectionStatus { established: true, closed: false };
    let message = "嘎嘎 quack 🦆 ".repeat(1000);
    let mut client = SimpleQuicClient::new(server_addr, "127.0.0.1:8080", 0);
    let mut handler = ConnectionHandler::new(CLIENT, 0);
    let mut answer = None;
    let mut task = SendTask::new(&message);
    let mut action = client.send_message(&mut task, SendEvent::Begin { status, now: 0 });
    loop {
        action = match action {
            SendAction::SendChunk { stream_id, chunk, fin } => {
                // The stream takes an odd number of bytes at once.
                let written = chunk.len().min(777);
                let fin = fin && written == chunk.len();
                let parts: Vec<&[u8]> = chunk[..written].chunks(100).collect();
                for (i, part) in parts.iter().enumerate() {
                    let last = fin && i + 1 == parts.len();
                    let step = handler.process_readable_streams(read(stream_id, part, last));
                    if last {
                        answer = Some(response(step));
                    }
                }
                client.send_message(&mut task, SendEvent::ChunkWritten { written })
            }
            SendAction::Flush => {
                client.send_message(&mut task, SendEvent::Flushed { result: Ok(()), now: 0 })
            }
            SendAction::FlushAndWait => {
                let event = SendEvent::Waited { result: Ok(()), now: 0 };
                client.send_message(&mut task, event)
            }
            SendAction::Return { .. } => break,
            other => panic!("unexpected: {:?}", other),
        };
    }
    let (stream_id, offered) = answer.unwrap();
    assert_eq!(offered, format!("Echo: {}", message));
    let mut taken: Vec<u8> = Vec::new();
    let mut action = EchoAction::Resume { stream_id, rest: offered.into_bytes(), fin: true };
    while let EchoAction::Resume { stream_id, rest, .. } = action {
        let count = rest.len().min(999);
        taken.extend_from_slice(&rest[..count]);
        let event = EchoEvent::Responded { stream_id, result: Ok(count) };
        let _ = handler.process_readable_streams(event);
        action = handler.process_readable_streams(EchoEvent::Writable { stream_id });
    }
    let answer = String::from_utf8(taken).unwrap();
    let mut shown = None;
    let parts: Vec<&[u8]> = answer.as_bytes().chunks(1024).collect();
    for (i, part) in parts.iter().enumerate() {
        let fin = i + 1 == parts.len();
        let read = StreamRead::Data { bytes: part.to_vec(), fin };
        if let ReadStep::Return { result } = client.read_stream_data(stream_id, read) {
            shown = Some(result.unwrap());
        }
    }
    assert_eq!(shown.unwrap(), format!("Echo: {}", message));
}

#[test]
fn client_that_moves_is_followed() {
    let mut handler = ConnectionHandler::new(CLIENT, 0);
    for (from, count) in vec![(CLIENT, 0), (MOVED, 1), (MOVED, 1), (CLIENT, 2)] {
        let packet = UdpPacket { data: vec![3], from };
        match handler.handle_packet(PacketEvent::Begin { packet, local: Ok(LOCAL) }) {
            PacketAction::Process { data, from: sender, to } => {
                assert_eq!(data, vec![3]);
                assert_eq!(sender, from);
                assert_eq!(to, LOCAL);
            }
            other => panic!("not processed: {:?}", other),
        }
        assert_eq!(handler.client_addr(), from);
        assert_eq!(handler.migration_count(), count);
    }
}

#[test]
fn packet_is_handled_in_steps() {
    let mut handler = ConnectionHandler::new(CLIENT, 0);
    let event = PacketEvent::Processed { result: Ok(()), established: true };
    assert!(matches!(handler.handle_packet(event), PacketAction::ProcessStreams));
    let event = PacketEvent::Processed { result: Ok(()), established: false };
    assert!(matches!(handler.handle_packet(event), PacketAction::Flush));
    let event = PacketEvent::StreamsProcessed { result: Ok(()) };
    assert!(matches!(handler.handle_packet(event), PacketAction::Flush));
    let event = PacketEvent::Flushed { result: Ok(()) };
    assert!(matches!(handler.handle_packet(event), PacketAction::Return { result: Ok(()) }));
    let failed = || QuicError::External { reason: "bad".to_string() };
    let events = vec![
        PacketEvent::Begin { packet: packet(), local: Err("bad".to_string()) },
        PacketEvent::Processed { result: Err("bad".to_string()), established: true },
        PacketEvent::StreamsProcessed { result: Err(failed()) },
        PacketEvent::Flushed { result: Err(failed()) },
    ];
    for event in events {
        match handler.handle_packet(event) {
            PacketAction::Return { result: Err(error) } => assert_eq!(error.message(), "bad"),
            other => panic!("no error: {:?}", other),
        }
    }
}

#[test]
fn handler_ends_with_its_connection() {
    let handler = ConnectionHandler::new(CLIENT, 0);
    match handler.run(HandlerEvent::PacketReceived { packet: packet() }) {
        HandlerAction::Handle { packet } => assert_eq!(packet.data, vec![1, 2, 3]),
        other => panic!("not handled: {:?}", other),
    }
    assert!(matches!(handler.run(HandlerEvent::PacketHandled), HandlerAction::Wait));
    assert!(matches!(handler.run(HandlerEvent::TimerFired), HandlerAction::Flush));
    let flushed = |established, closed, now| HandlerEvent::TimerFlushed {
        status: ConnectionStatus { established, closed },
        now,
    };
    let minute = 60_000_000_000;
    assert!(matches!(handler.run(flushed(true, false, minute)), HandlerAction::Wait));
    assert!(matches!(handler.run(flushed(true, true, 1)), HandlerAction::Return));
    assert!(matches!(handler.run(flushed(false, false, minute - 1)), HandlerAction::Wait));
    assert!(matches!(handler.run(flushed(false, false, minute)), HandlerAction::Return));
    assert!(matches!(handler.run(HandlerEvent::ChannelClosed), HandlerAction::Return));
}

#[test]
fn only_initial_packets_begin_connections() {
    let mut server: SimpleQuicServer<u32> = SimpleQuicServer::new();
    match server.run(datagram(long(0, b"abc"))) {
        ServerAction::NewConnection { dcid, packet } => {
            assert_eq!(dcid, b"abc".to_vec());
            assert_eq!(packet.data, long(0, b"abc"));
        }
        other => panic!("no connection: {:?}", other),
    }
    for bits in vec![1, 2, 3] {
        assert!(matches!(server.run(datagram(long(bits, b"abc"))), ServerAction::Wait));
    }
    assert!(matches!(server.run(datagram(short(ONE))), ServerAction::Wait));
    assert!(matches!(server.run(datagram(vec![])), ServerAction::Wait));
    assert!(matches!(server.run(datagram(vec![0xc0, 0, 0])), ServerAction::Wait));
    assert!(matches!(server.run(ServerEvent::NewConnectionDone), ServerAction::Wait));
    match server.run(ServerEvent::ReceiveFailed { reason: "io".to_string() }) {
        ServerAction::Return { result: Err(error) } => assert_eq!(error.message(), "io"),
        other => panic!("no error: {:?}", other),
    }
}

#[test]
fn datagrams_are_routed_by_their_header() {
    let mut server: SimpleQuicServer<u32> = SimpleQuicServer::new();
    accept(&mut server, b"known", 1);
    let header = |ty, dcid: &[u8]| Some(PacketHeader { ty, dcid: dcid.to_vec() });
    let action = server.route(header(PacketType::VersionNegotiation, b"known"), packet());
    assert!(matches!(action, ServerAction::Forward { .. }));
    let action = server.route(header(PacketType::VersionNegotiation, b"other"), packet());
    assert!(matches!(action, ServerAction::Wait));
    let action = server.route(header(PacketType::Initial, b"other"), packet());
    assert!(matches!(action, ServerAction::NewConnection { .. }));
    assert!(matches!(server.route(None, packet()), ServerAction::Wait));
}

#[test]
fn packets_go_to_their_connection() {
    let mut server: SimpleQuicServer<u32> = SimpleQuicServer::new();
    accept(&mut server, ONE, 1);
    accept(&mut server, TWO, 2);
    assert_eq!(server.connection(ONE), Some(&1));
    assert_eq!(server.connection(TWO), Some(&2));
    assert_eq!(server.connection(b"on"), None);
    for data in vec![short(TWO), long(0, TWO), long(2, TWO)] {
        match server.run(datagram(data)) {
            ServerAction::Forward { conn_id, .. } => assert_eq!(conn_id, TWO.to_vec()),
            other => panic!("not forwarded: {:?}", other),
        }
    }
    let event = ServerEvent::Forwarded { conn_id: TWO.to_vec(), delivered: true };
    assert!(matches!(server.run(event), ServerAction::Wait));
    assert_eq!(server.connection(TWO), Some(&2));
    let event = ServerEvent::Forwarded { conn_id: TWO.to_vec(), delivered: false };
    assert!(matches!(server.run(event), ServerAction::Wait));
    assert_eq!(server.connection(TWO), None);
    assert_eq!(server.connection(ONE), Some(&1));
}

#[test]
fn ended_connection_is_forgotten() {
    let mut server: SimpleQuicServer<u32> = SimpleQuicServer::new();
    accept(&mut server, ONE, 1);
    accept(&mut server, TWO, 2);
    server.connection_ended(TWO);
    assert_eq!(server.connection(TWO), None);
    assert_eq!(server.connection(ONE), Some(&1));
    assert!(matches!(server.run(datagram(short(TWO))), ServerAction::Wait));
}

#[test]
fn connection_is_set_up_in_steps() {
    let mut server: SimpleQuicServer<u32> = SimpleQuicServer::new();
    let mut task = SetupTask::new(packet());
    match server.handle_new_connection(&mut task, NewConnectionEvent::Begin) {
        NewConnectionAction::Configure { config } => {
            assert_eq!(config.verify_peer, None);
            assert_eq!(config.initial_max_streams_bidi, 10);
        }
        other => panic!("no settings: {:?}", other),
    }
    let event = NewConnectionEvent::Configured { result: Ok(()) };
    match server.handle_new_connection(&mut task, event) {
        NewConnectionAction::EnsureCert { domain } => assert_eq!(domain, "localhost"),
        other => panic!("no domain: {:?}", other),
    }
    let event = NewConnectionEvent::CertEnsured { result: Ok(()) };
    match server.handle_new_connection(&mut task, event) {
        NewConnectionAction::LoadCert { cert_file, key_file } => {
            assert_eq!(cert_file, "cert.pem");
            assert_eq!(key_file, "key.pem");
        }
        other => panic!("no files: {:?}", other),
    }
    let event = NewConnectionEvent::CertLoaded { result: Ok(()) };
    let action = server.handle_new_connection(&mut task, event);
    assert!(matches!(action, NewConnectionAction::ChooseId));
    let event = NewConnectionEvent::IdChosen { scid: ONE.to_vec() };
    let _ = server.handle_new_connection(&mut task, event);
    let event = NewConnectionEvent::InitialDelivered { delivered: true, now: 5 };
    match server.handle_new_connection(&mut task, event) {
        NewConnectionAction::StartHandler { conn_id, handler } => {
            assert_eq!(conn_id, ONE.to_vec());
            assert_eq!(handler.client_addr(), CLIENT);
            assert_eq!(handler.migration_count(), 0);
        }
        other => panic!("no handler: {:?}", other),
    }
    let action = server.handle_new_connection(&mut task, NewConnectionEvent::HandlerStarted);
    assert!(matches!(action, NewConnectionAction::Return { result: Ok(()) }));
}

#[test]
fn failed_setup_is_told() {
    let mut server: SimpleQuicServer<u32> = SimpleQuicServer::new();
    let mut task = SetupTask::new(packet());
    let reason = || "bad".to_string();
    let events = vec![
        NewConnectionEvent::Configured { result: Err(reason()) },
        NewConnectionEvent::CertEnsured { result: Err(reason()) },
        NewConnectionEvent::CertLoaded { result: Err(reason()) },
        NewConnectionEvent::Accepted { result: Err(reason()) },
    ];
    for event in events {
        match server.handle_new_connection(&mut task, event) {
            NewConnectionAction::Return { result: Err(error) } => {
                assert_eq!(error.message(), "bad");
            }
            other => panic!("no error: {:?}", other),
        }
    }
    let event = NewConnectionEvent::InitialDelivered { delivered: false, now: 5 };
    match server.handle_new_connection(&mut task, event) {
        NewConnectionAction::Return { result: Err(error) } => {
            assert_eq!(error.message(), "发送初始数据包失败");
        }
        other => panic!("no error: {:?}", other),
    }
}

#[test]
fn table_replaces_and_removes() {
    let mut table: ConnectionTable<u32> = ConnectionTable::new();
    assert_eq!(table.get(b"a"), None);
    table.insert(b"a".to_vec(), 1);
    table.insert(b"ab".to_vec(), 2);
    table.insert(b"".to_vec(), 3);
    table.insert(b"a".to_vec(), 4);
    assert_eq!(table.get(b"a"), Some(&4));
    assert_eq!(table.get(b"ab"), Some(&2));
    assert_eq!(table.get(b""), Some(&3));
    assert_eq!(table.remove(b"a"), Some(4));
    assert_eq!(table.remove(b"a"), None);
    assert_eq!(table.get(b"ab"), Some(&2));
    assert_eq!(table.get(b""), Some(&3));
}
