use quicduck::client::{
    Args, InteractiveAction, InteractiveEvent, PingAction, PingEvent, ReconnectAction,
    ReconnectEvent, SendAction, SendEvent, SendTask, SimpleQuicClient, CHUNK_SIZE, PING_AFTER,
};
use quicduck::connection::{Address, ConnectionStatus};
use quicduck::error::QuicError;
use quicduck::handshake::{HandshakeAction, HandshakeEvent};
use quicduck::streams::{ReadStep, StreamRead};

const SERVER: Address = Address::V4 { ip: 0x7f00_0001, port: 8080 };
const MOVED: Address = Address::V4 { ip: 0x7f00_0001, port: 9090 };
const LOCAL: Address = Address::V4 { ip: 0x0a00_0001, port: 5000 };
const ALIVE: ConnectionStatus = ConnectionStatus { established: true, closed: false };
const CLOSED: ConnectionStatus = ConnectionStatus { established: true, closed: true };

fn client() -> SimpleQuicClient {
    SimpleQuicClient::new(SERVER, "127.0.0.1:8080", 0)
}

fn begin() -> SendEvent {
    SendEvent::Begin { status: ALIVE, now: 1 }
}

fn waited(result: Result<(), QuicError>) -> SendEvent {
    SendEvent::Waited { result, now: 9 }
}

fn chunk(action: SendAction) -> (u64, Vec<u8>, bool) {
    match action {
        SendAction::SendChunk { stream_id, chunk, fin } => (stream_id, chunk, fin),
        other => panic!("no chunk: {:?}", other),
    }
}

/// Sends a message over a stream that takes the given share of each offered
/// chunk, and returns the stream and what it holds.
fn send(client: &mut SimpleQuicClient, message: &str, takes: &[usize]) -> (u64, Vec<u8>, bool) {
    let mut task = SendTask::new(message);
    let mut held = Vec::new();
    let mut ended = false;
    let mut id = 0;
    let mut offers = 0;
    let mut action = client.send_message(&mut task, begin());
    loop {
        action = match action {
            SendAction::SendChunk { stream_id, chunk, fin } => {
                assert!(!ended);
                assert!(!chunk.is_empty() && chunk.len() <= CHUNK_SIZE);
                id = stream_id;
                let share = if offers < takes.len() { takes[offers] } else { usize::MAX };
                offers += 1;
                let written = share.min(chunk.len());
                held.extend_from_slice(&chunk[..written]);
                ended = fin && written == chunk.len();
                if written == 0 {
                    client.send_message(&mut task, SendEvent::ChunkBlocked)
                } else {
                    client.send_message(&mut task, SendEvent::ChunkWritten { written })
                }
            }
            SendAction::FlushAndWait => {
                client.send_message(&mut task, waited(Ok(())))
            }
            SendAction::Flush => {
                client.send_message(&mut task, SendEvent::Flushed { result: Ok(()), now: 9 })
            }
            SendAction::Return { result } => {
                assert!(result.is_ok());
                return (id, held, ended);
            }
            SendAction::Reconnect => panic!("the connection is alive"),
        }
    }
}

#[test]
fn client_args_have_a_default() {
    assert_eq!(Args::default().server, "127.0.0.1:8080");
}

#[test]
fn short_message_is_one_chunk() {
    let mut client = client();
    let mut task = SendTask::new("hi");
    let action = client.send_message(&mut task, begin());
    assert_eq!(chunk(action), (4, b"hi".to_vec(), true));
    let action = client.send_message(&mut task, SendEvent::ChunkWritten { written: 2 });
    assert!(matches!(action, SendAction::Flush));
    let action = client.send_message(&mut task, SendEvent::Flushed { result: Ok(()), now: 5 });
    assert!(matches!(action, SendAction::Return { result: Ok(()) }));
    assert!(!client.should_send_ping(5 + PING_AFTER));
    assert!(client.should_send_ping(6 + PING_AFTER));
}

#[test]
fn long_message_is_cut_into_chunks() {
    let message = "0123456789".repeat(1639);
    assert_eq!(message.len(), 2 * CHUNK_SIZE + 6);
    let mut client = client();
    let (id, held, ended) = send(&mut client, &message, &[]);
    assert_eq!(id, 4);
    assert_eq!(held, message.as_bytes());
    assert!(ended);
}

#[test]
fn message_of_exactly_one_chunk_ends_with_it() {
    let message = "x".repeat(CHUNK_SIZE);
    let mut client = client();
    let mut task = SendTask::new(&message);
    let (_, bytes, fin) = chunk(client.send_message(&mut task, begin()));
    assert_eq!(bytes.len(), CHUNK_SIZE);
    assert!(fin);
    let mut task = SendTask::new(&format!("{}y", message));
    let (_, bytes, fin) = chunk(client.send_message(&mut task, begin()));
    assert_eq!(bytes.len(), CHUNK_SIZE);
    assert!(!fin);
}

#[test]
fn blocked_stream_does_not_lose_or_repeat_bytes() {
    let message = "ab".repeat(CHUNK_SIZE);
    let mut client = client();
    let whole = usize::MAX;
    let (_, held, ended) = send(&mut client, &message, &[0, 0, whole, 0, whole]);
    assert_eq!(held, message.as_bytes());
    assert!(ended);
}

#[test]
fn rest_of_a_chunk_is_offered_again() {
    let mut client = client();
    let mut task = SendTask::new("hello");
    assert_eq!(chunk(client.send_message(&mut task, begin())), (4, b"hello".to_vec(), true));
    let action = client.send_message(&mut task, SendEvent::ChunkWritten { written: 2 });
    assert!(matches!(action, SendAction::FlushAndWait));
    let action = client.send_message(&mut task, waited(Ok(())));
    assert_eq!(chunk(action), (4, b"llo".to_vec(), true));
    let action = client.send_message(&mut task, SendEvent::ChunkWritten { written: 3 });
    assert!(matches!(action, SendAction::Flush));
}

#[test]
fn message_arrives_however_little_is_taken_at_once() {
    let message = "0123456789".repeat(2000);
    let takes = vec![
        vec![2],
        vec![1; 50],
        vec![CHUNK_SIZE, 1, 0, CHUNK_SIZE, 3],
        vec![0, 8191, 8191, 1, 0, 2],
    ];
    for takes in takes {
        let mut client = client();
        let (_, held, ended) = send(&mut client, &message, &takes);
        assert_eq!(held, message.as_bytes());
        assert!(ended);
    }
}

#[test]
fn each_message_has_a_stream_of_its_own() {
    let mut client = client();
    let mut ids = Vec::new();
    for _ in 0..5 {
        ids.push(send(&mut client, "x", &[]).0);
    }
    assert_eq!(ids, vec![4, 8, 12, 16, 20]);
    assert!(client.has_stream());
}

#[test]
fn empty_message_uses_a_stream_and_sends_nothing() {
    let mut client = client();
    let mut task = SendTask::new("");
    let action = client.send_message(&mut task, begin());
    assert!(matches!(action, SendAction::Return { result: Ok(()) }));
    assert_eq!(send(&mut client, "x", &[]).0, 8);
}

#[test]
fn failed_message_uses_up_its_stream() {
    let mut client = client();
    let mut task = SendTask::new("hi");
    let _ = client.send_message(&mut task, begin());
    let event = SendEvent::ChunkFailed { reason: "limit".to_string() };
    match client.send_message(&mut task, event) {
        SendAction::Return { result: Err(error) } => {
            assert_eq!(error.message(), "发送失败: limit");
        }
        other => panic!("no error: {:?}", other),
    }
    assert_eq!(send(&mut client, "x", &[]).0, 8);
}

#[test]
fn message_fails_when_packets_cannot_be_sent() {
    let mut client = client();
    let mut task = SendTask::new("hi");
    let _ = client.send_message(&mut task, begin());
    let failed = || Err(QuicError::External { reason: "io".to_string() });
    match client.send_message(&mut task, waited(failed())) {
        SendAction::Return { result: Err(error) } => assert_eq!(error.message(), "io"),
        other => panic!("no error: {:?}", other),
    }
    match client.send_message(&mut task, SendEvent::Flushed { result: failed(), now: 7 }) {
        SendAction::Return { result: Err(error) } => assert_eq!(error.message(), "io"),
        other => panic!("no error: {:?}", other),
    }
    assert!(client.should_send_ping(PING_AFTER + 1));
}

#[test]
fn closed_connection_is_replaced_before_sending() {
    let mut client = client();
    let mut task = SendTask::new("hi");
    let action = client.send_message(&mut task, SendEvent::Begin { status: CLOSED, now: 1 });
    assert!(matches!(action, SendAction::Reconnect));
    let event = SendEvent::Reconnected { result: Ok(()), established: true, now: 2 };
    assert_eq!(chunk(client.send_message(&mut task, event)).0, 4);
    let event = SendEvent::Reconnected { result: Ok(()), established: false, now: 2 };
    match client.send_message(&mut task, event) {
        SendAction::Return { result: Err(error) } => assert_eq!(error.message(), "连接未建立"),
        other => panic!("no error: {:?}", other),
    }
    let result = Err(QuicError::HandshakeFailed);
    let event = SendEvent::Reconnected { result, established: false, now: 2 };
    match client.send_message(&mut task, event) {
        SendAction::Return { result: Err(error) } => {
            assert_eq!(error.message(), "重连失败: 握手失败");
        }
        other => panic!("no error: {:?}", other),
    }
}

#[test]
fn reconnection_starts_over() {
    let mut client = client();
    let _ = send(&mut client, "x", &[]);
    let _ = client.read_stream_data(4, StreamRead::Data { bytes: b"ab".to_vec(), fin: false });
    match client.reconnect(ReconnectEvent::Begin) {
        ReconnectAction::Resolve { address } => assert_eq!(address, "127.0.0.1:8080"),
        other => panic!("no address: {:?}", other),
    }
    let action = client.reconnect(ReconnectEvent::Resolved { result: Ok(MOVED) });
    assert!(matches!(action, ReconnectAction::Bind));
    assert_eq!(client.server_addr(), MOVED);
    let action = client.reconnect(ReconnectEvent::Bound { result: Ok(()) });
    assert!(matches!(action, ReconnectAction::Connect { server_addr: MOVED }));
    let action = client.reconnect(ReconnectEvent::Connected { result: Ok(()), now: 50 });
    assert!(matches!(action, ReconnectAction::Handshake));
    let action = client.reconnect(ReconnectEvent::HandshakeDone { result: Ok(()) });
    assert!(matches!(action, ReconnectAction::Return { result: Ok(()) }));
    assert!(!client.should_send_ping(50 + PING_AFTER));
    match client.read_stream_data(4, StreamRead::Data { bytes: b"c".to_vec(), fin: true }) {
        ReadStep::Return { result: Ok(text) } => assert_eq!(text, "c"),
        other => panic!("no text: {:?}", other),
    }
    assert_eq!(send(&mut client, "x", &[]).0, 4);
}

#[test]
fn failed_reconnection_keeps_the_streams() {
    let mut client = client();
    let _ = send(&mut client, "x", &[]);
    let reason = || "no route".to_string();
    let events = vec![
        ReconnectEvent::Resolved { result: Err(reason()) },
        ReconnectEvent::Bound { result: Err(reason()) },
        ReconnectEvent::Connected { result: Err(reason()), now: 3 },
        ReconnectEvent::HandshakeDone {
            result: Err(QuicError::External { reason: reason() }),
        },
    ];
    for event in events {
        match client.reconnect(event) {
            ReconnectAction::Return { result: Err(error) } => {
                assert_eq!(error.message(), "no route");
            }
            other => panic!("no error: {:?}", other),
        }
    }
    assert_eq!(client.server_addr(), SERVER);
    assert_eq!(send(&mut client, "x", &[]).0, 8);
}

#[test]
fn handshake_is_with_the_server_of_the_client() {
    let client = client();
    let mut attempts = 0;
    let datagram = |from| HandshakeEvent::Datagram {
        data: vec![1],
        from,
        local: Ok(LOCAL),
        established: false,
    };
    let action = client.handshake(&mut attempts, datagram(MOVED));
    assert!(matches!(action, HandshakeAction::Receive));
    let action = client.handshake(&mut attempts, datagram(SERVER));
    assert!(matches!(action, HandshakeAction::Process { .. }));
    assert_eq!(attempts, 1);
}

#[test]
fn ping_is_due_after_a_hundred_seconds() {
    let mut client = client();
    assert!(!client.should_send_ping(100_000_000_000));
    assert!(client.should_send_ping(100_000_000_001));
    client.update_activity(40);
    assert!(!client.should_send_ping(100_000_000_040));
    assert!(client.should_send_ping(100_000_000_041));
    assert!(!client.should_send_ping(7));
}

#[test]
fn ping_is_sent_on_a_live_connection() {
    let mut client = client();
    let action = client.send_ping(PingEvent::Begin { status: ALIVE });
    assert!(matches!(action, PingAction::Queue));
    let action = client.send_ping(PingEvent::Queued { result: Ok(()) });
    assert!(matches!(action, PingAction::Flush));
    let action = client.send_ping(PingEvent::Flushed { result: Ok(()), now: PING_AFTER });
    assert!(matches!(action, PingAction::Return { result: Ok(()) }));
    assert!(!client.should_send_ping(2 * PING_AFTER));
}

#[test]
fn ping_failures_are_told() {
    let mut client = client();
    let lost = ConnectionStatus { established: false, closed: false };
    for status in vec![CLOSED, lost] {
        match client.send_ping(PingEvent::Begin { status }) {
            PingAction::Return { result: Err(error) } => {
                assert_eq!(error.message(), "连接已关闭");
            }
            other => panic!("no error: {:?}", other),
        }
    }
    match client.send_ping(PingEvent::Queued { result: Err("done".to_string()) }) {
        PingAction::Return { result: Err(error) } => {
            assert_eq!(error.message(), "PING发送失败: done");
        }
        other => panic!("no error: {:?}", other),
    }
    let result = Err(QuicError::External { reason: "io".to_string() });
    match client.send_ping(PingEvent::Flushed { result, now: 99 }) {
        PingAction::Return { result: Err(error) } => assert_eq!(error.message(), "io"),
        other => panic!("no error: {:?}", other),
    }
    assert!(client.should_send_ping(PING_AFTER + 1));
}

#[test]
fn timer_serves_the_connection() {
    let mut client = client();
    let fired = |status, now| InteractiveEvent::TimerFired { status, now };
    let action = client.run_interactive(fired(CLOSED, PING_AFTER + 1));
    assert!(matches!(action, InteractiveAction::Reconnect));
    let action = client.run_interactive(fired(ALIVE, PING_AFTER + 1));
    assert!(matches!(action, InteractiveAction::Ping));
    let action = client.run_interactive(fired(ALIVE, PING_AFTER));
    assert!(matches!(action, InteractiveAction::Flush));
    let action = client.run_interactive(InteractiveEvent::PingDone);
    assert!(matches!(action, InteractiveAction::Flush));
    let action = client.run_interactive(InteractiveEvent::FlushDone);
    assert!(matches!(action, InteractiveAction::Wait));
    let action = client.run_interactive(InteractiveEvent::ReconnectDone { result: Ok(()) });
    assert!(matches!(action, InteractiveAction::Flush));
    let result = Err(QuicError::HandshakeFailed);
    let action = client.run_interactive(InteractiveEvent::ReconnectDone { result });
    assert!(matches!(action, InteractiveAction::Wait));
}

#[test]
fn typed_lines_are_obeyed() {
    let mut client = client();
    let typed = |line: &str| InteractiveEvent::LineRead { line: line.to_string() };
    match client.run_interactive(typed(" hello \n")) {
        InteractiveAction::Send { message } => assert_eq!(message, "hello"),
        other => panic!("no message: {:?}", other),
    }
    let action = client.run_interactive(typed("\n"));
    assert!(matches!(action, InteractiveAction::Prompt));
    let action = client.run_interactive(typed("quit\n"));
    assert!(matches!(action, InteractiveAction::Return { result: Ok(()) }));
    let action = client.run_interactive(InteractiveEvent::LineFailed);
    assert!(matches!(action, InteractiveAction::Prompt));
    let action = client.run_interactive(InteractiveEvent::SendDone);
    assert!(matches!(action, InteractiveAction::Prompt));
    let action = client.run_interactive(InteractiveEvent::Prompted { result: Ok(()) });
    assert!(matches!(action, InteractiveAction::Wait));
}

#[test]
fn datagrams_of_the_server_are_processed() {
    let mut client = client();
    let arrived = |from, local| InteractiveEvent::DatagramReceived { data: vec![7], from, local };
    let action = client.run_interactive(arrived(MOVED, Ok(LOCAL)));
    assert!(matches!(action, InteractiveAction::Wait));
    match client.run_interactive(arrived(SERVER, Ok(LOCAL))) {
        InteractiveAction::Process { data, from, to } => {
            assert_eq!(data, vec![7]);
            assert_eq!(from, SERVER);
            assert_eq!(to, LOCAL);
        }
        other => panic!("not processed: {:?}", other),
    }
    let action = client.run_interactive(arrived(MOVED, Err("down".to_string())));
    assert!(matches!(action, InteractiveAction::Wait));
    let event = InteractiveEvent::DatagramProcessed { accepted: false, now: 80 };
    assert!(matches!(client.run_interactive(event), InteractiveAction::Wait));
    assert!(client.should_send_ping(PING_AFTER + 1));
    let event = InteractiveEvent::DatagramProcessed { accepted: true, now: 80 };
    assert!(matches!(client.run_interactive(event), InteractiveAction::ReadStreams));
    assert!(!client.should_send_ping(PING_AFTER + 1));
    let event = InteractiveEvent::StreamRead { result: Ok("Echo: a".to_string()) };
    match client.run_interactive(event) {
        InteractiveAction::Show { message } => assert_eq!(message, "Echo: a"),
        other => panic!("no message: {:?}", other),
    }
    let event = InteractiveEvent::StreamRead { result: Ok(String::new()) };
    assert!(matches!(client.run_interactive(event), InteractiveAction::NextStream));
    let result = Err(QuicError::StreamReadFailed { reason: "reset".to_string() });
    let event = InteractiveEvent::StreamRead { result };
    assert!(matches!(client.run_interactive(event), InteractiveAction::NextStream));
    let event = InteractiveEvent::Shown { result: Ok(()) };
    assert!(matches!(client.run_interactive(event), InteractiveAction::NextStream));
    let action = client.run_interactive(InteractiveEvent::StreamsRead);
    assert!(matches!(action, InteractiveAction::Flush));
    let action = client.run_interactive(InteractiveEvent::ReceiveFailed);
    assert!(matches!(action, InteractiveAction::Wait));
}

#[test]
fn terminal_failures_end_the_client() {
    let mut client = client();
    let reason = || "tty".to_string();
    let events = vec![
        InteractiveEvent::Prompted { result: Err(reason()) },
        InteractiveEvent::Shown { result: Err(reason()) },
        InteractiveEvent::DatagramReceived {
            data: vec![7],
            from: SERVER,
            local: Err(reason()),
        },
    ];
    for event in events {
        match client.run_interactive(event) {
            InteractiveAction::Return { result: Err(error) } => {
                assert_eq!(error.message(), "tty");
            }
            other => panic!("no error: {:?}", other),
        }
    }
}
