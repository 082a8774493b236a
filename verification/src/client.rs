//! The client that holds socket, connection and terminal in one loop.

use vstd::prelude::*;
use vstd::slice::{slice_subrange, slice_to_vec};
use vstd::string::*;
use vstd::utf8::*;

use crate::connection::{Address, ConnectionStatus, Nanos};
use crate::error::QuicError;
use crate::handshake::{self, HandshakeAction, HandshakeEvent};
use crate::input::{parse_line, Command};
use crate::streams::{ReadStep, StreamBuffers, StreamRead};

verus! {

/// The first stream that a client opens for a message.
pub const FIRST_STREAM_ID: u64 = 4;

/// The distance between the streams that a client opens: two bits of a stream
/// ID tell who opened it and in which directions it runs.
pub const STREAM_ID_STEP: u64 = 4;

/// How many bytes of a message are given to the connection at once.
pub const CHUNK_SIZE: usize = 8192;

/// After how long without activity the client sends a PING frame.
pub const PING_AFTER: Nanos = 100_000_000_000;

/// How long the client waits before it offers bytes to a full stream again, in
/// milliseconds.
pub const RETRY_DELAY_MS: u64 = 10;

/// What is shown when the client waits for a line.
pub const PROMPT: &'static str = "->";

/// How often the timers of the connection are served, in milliseconds.
pub const TIMER_INTERVAL_MS: u64 = 100;

/// The command line of the client.
#[derive(Debug)]
pub struct Args {
    /// Server address to connect to (IP:PORT or hostname:PORT)
    pub server: String,
}

impl Default for Args {
    fn default() -> (args: Args)
        ensures
            args.server@ == "127.0.0.1:8080"@,
    {
        Args { server: "127.0.0.1:8080".to_owned() }
    }
}

/// The client, without its socket and its connection.
pub struct SimpleQuicClient {
    server_addr: Address,
    server_addr_str: String,
    next_stream_id: u64,
    stream_buffers: StreamBuffers,
    last_activity: Nanos,
}

/// What a client knows.
#[verifier::ext_equal]
pub struct ClientState {
    /// The server.
    pub server_addr: Address,
    /// The server as it was named by the user.
    pub server_addr_str: Seq<char>,
    /// The stream of the next message.
    pub next_stream_id: u64,
    /// The bytes of the messages that are not complete.
    pub stream_buffers: Map<u64, Seq<u8>>,
    /// When something was last sent or received.
    pub last_activity: Nanos,
}

impl ClientState {
    /// The next stream is one that a client may open, in both directions.
    pub open spec fn wf(&self) -> bool {
        self.next_stream_id >= FIRST_STREAM_ID && self.next_stream_id % STREAM_ID_STEP == 0
    }

    /// Whether a PING frame is due.
    pub open spec fn ping_due(&self, now: Nanos) -> bool {
        now - self.last_activity > PING_AFTER
    }
}

impl View for SimpleQuicClient {
    type V = ClientState;

    closed spec fn view(&self) -> ClientState {
        ClientState {
            server_addr: self.server_addr,
            server_addr_str: self.server_addr_str@,
            next_stream_id: self.next_stream_id,
            stream_buffers: self.stream_buffers@,
            last_activity: self.last_activity,
        }
    }
}

/// What happened during a reconnection.
#[derive(Debug)]
pub enum ReconnectEvent {
    /// The reconnection begins.
    Begin,
    /// The address of the server was parsed.
    Resolved { result: Result<Address, String> },
    /// A new socket was bound.
    Bound { result: Result<(), String> },
    /// A new connection was made.
    Connected { result: Result<(), String>, now: Nanos },
    /// The handshake is over.
    HandshakeDone { result: Result<(), QuicError> },
}

/// What to do next in a reconnection.
#[derive(Debug)]
pub enum ReconnectAction {
    /// Parse the address of the server.
    Resolve { address: String },
    /// Bind a new socket.
    Bind,
    /// Make a new connection to the server.
    Connect { server_addr: Address },
    /// Complete the handshake.
    Handshake,
    /// Stop.
    Return { result: Result<(), QuicError> },
}

/// What happened while a PING frame is sent.
#[derive(Debug)]
pub enum PingEvent {
    /// Sending begins.
    Begin { status: ConnectionStatus },
    /// The connection queued the frame.
    Queued { result: Result<(), String> },
    /// The ready packets were sent.
    Flushed { result: Result<(), QuicError>, now: Nanos },
}

/// What to do next while a PING frame is sent.
#[derive(Debug)]
pub enum PingAction {
    /// Let the connection queue a PING frame.
    Queue,
    /// Send the ready packets.
    Flush,
    /// Stop.
    Return { result: Result<(), QuicError> },
}

/// A message on its way to the server.
#[derive(Debug)]
pub struct SendTask {
    /// The message, encoded.
    pub message: Vec<u8>,
    /// The stream that carries it.
    pub stream_id: u64,
    /// How many bytes of it the stream has taken.
    pub sent: usize,
}

/// What happened while a message is sent.
#[derive(Debug)]
pub enum SendEvent {
    /// Sending begins.
    Begin { status: ConnectionStatus, now: Nanos },
    /// The reconnection is over.
    Reconnected { result: Result<(), QuicError>, established: bool, now: Nanos },
    /// The stream took `written` bytes of the chunk.
    ChunkWritten { written: usize },
    /// The stream has no room.
    ChunkBlocked,
    /// The connection refused the chunk.
    ChunkFailed { reason: String },
    /// The ready packets were sent and the delay is over.
    Waited { result: Result<(), QuicError>, now: Nanos },
    /// The ready packets were sent.
    Flushed { result: Result<(), QuicError>, now: Nanos },
}

impl SendEvent {
    /// Whether the event makes the client open a stream.
    pub open spec fn opens_stream(&self) -> bool {
        match self {
            SendEvent::Begin { status, .. } => status.alive(),
            SendEvent::Reconnected { result, established, .. } => result is Ok && *established,
            _ => false,
        }
    }
}

/// What to do next while a message is sent.
#[derive(Debug)]
pub enum SendAction {
    /// Replace the connection, which is closed.
    Reconnect,
    /// Offer the chunk to the stream; `fin` marks the end of the message.
    SendChunk { stream_id: u64, chunk: Vec<u8>, fin: bool },
    /// Send the ready packets, then wait before the rest is offered; datagrams
    /// that arrive meanwhile are taken in.
    FlushAndWait,
    /// Send the ready packets.
    Flush,
    /// Stop.
    Return { result: Result<(), QuicError> },
}

/// What happened in the interactive loop.
#[derive(Debug)]
pub enum InteractiveEvent {
    /// It is time to serve the timers of the connection, which has been done.
    TimerFired { status: ConnectionStatus, now: Nanos },
    /// The reconnection is over.
    ReconnectDone { result: Result<(), QuicError> },
    /// The PING frame was sent, or could not be sent.
    PingDone,
    /// The ready packets were sent, or could not be sent.
    FlushDone,
    /// A line was typed.
    LineRead { line: String },
    /// The terminal could not be read.
    LineFailed,
    /// The message was sent, or could not be sent.
    SendDone,
    /// The prompt was shown.
    Prompted { result: Result<(), String> },
    /// A datagram arrived at the socket with the given address, which the socket
    /// may fail to tell.
    DatagramReceived { data: Vec<u8>, from: Address, local: Result<Address, String> },
    /// The socket could not be read.
    ReceiveFailed,
    /// The connection took in the datagram, or refused it.
    DatagramProcessed { accepted: bool, now: Nanos },
    /// A readable stream was read.
    StreamRead { result: Result<String, QuicError> },
    /// There is no readable stream left.
    StreamsRead,
    /// The message and a new prompt were shown.
    Shown { result: Result<(), String> },
}

/// What to do next in the interactive loop.
#[derive(Debug)]
pub enum InteractiveAction {
    /// Wait for the timer, for a line or for a datagram.
    Wait,
    /// Replace the connection.
    Reconnect,
    /// Send a PING frame.
    Ping,
    /// Send the ready packets.
    Flush,
    /// Send a message.
    Send { message: String },
    /// Show the prompt.
    Prompt,
    /// Let the connection take in the datagram.
    Process { data: Vec<u8>, from: Address, to: Address },
    /// Read the first readable stream.
    ReadStreams,
    /// Read the next readable stream.
    NextStream,
    /// Show a message from the server and a new prompt.
    Show { message: String },
    /// Stop.
    Return { result: Result<(), QuicError> },
}

/// Whether `action` is what the typed `line` asks for: to stop for the word
/// `quit`, a new prompt for white space, and else to send the line without the
/// white space around it.
pub open spec fn obeys_line(line: Seq<char>, action: InteractiveAction) -> bool {
    let typed = crate::text::trimmed(line);
    if typed == "quit"@ {
        action == (InteractiveAction::Return { result: Ok(()) })
    } else if typed.len() == 0 {
        action == InteractiveAction::Prompt
    } else {
        action matches InteractiveAction::Send { message } && message@ == typed
    }
}

/// Where the chunk ends that starts at `sent`, in a message of `len` bytes.
pub open spec fn chunk_end(len: int, sent: int) -> int {
    crate::outgoing::offer_end(len, sent, CHUNK_SIZE as int)
}

/// The chunk of `message` that starts at `sent`.
pub open spec fn chunk_at(message: Seq<u8>, sent: int) -> Seq<u8> {
    crate::outgoing::offer_at(message, sent, CHUNK_SIZE as int)
}

impl SendTask {
    /// No more than the message has been sent.
    pub open spec fn wf(&self) -> bool {
        self.sent <= self.message@.len()
    }

    /// Whether `action` offers the next chunk of the message.
    pub open spec fn offers_chunk(&self, action: SendAction) -> bool {
        action matches SendAction::SendChunk { stream_id, chunk, fin } && {
            &&& stream_id == self.stream_id
            &&& chunk@ == chunk_at(self.message@, self.sent as int)
            &&& fin <==> self.sent + chunk@.len() == self.message@.len()
        }
    }

    /// A message that is to be sent.
    pub fn new(message: &str) -> (task: SendTask)
        ensures
            task.message@ == encode_utf8(message@),
            task.sent == 0,
            task.wf(),
    {
        SendTask { message: slice_to_vec(message.as_bytes()), stream_id: 0, sent: 0 }
    }

    fn chunk_end(&self) -> (end: usize)
        requires
            self.wf(),
        ensures
            end == chunk_end(self.message@.len() as int, self.sent as int),
            self.sent <= end <= self.message@.len(),
    {
        if self.message.len() - self.sent <= CHUNK_SIZE {
            self.message.len()
        } else {
            self.sent + CHUNK_SIZE
        }
    }

    fn offer_chunk(&self) -> (action: SendAction)
        requires
            self.wf(),
        ensures
            self.offers_chunk(action),
    {
        let end = self.chunk_end();
        let chunk = slice_to_vec(slice_subrange(self.message.as_slice(), self.sent, end));
        SendAction::SendChunk { stream_id: self.stream_id, chunk, fin: end >= self.message.len() }
    }
}

/// Whether a message proceeds from `task` by `action`: the next chunk is
/// offered while there is one, and else the client notes the activity and stops
/// with success.
pub open spec fn proceeds(
    before: ClientState,
    after: ClientState,
    task: SendTask,
    now: Nanos,
    action: SendAction,
) -> bool {
    if task.sent < task.message@.len() {
        after == before && task.offers_chunk(action)
    } else {
        &&& after == (ClientState { last_activity: now, ..before })
        &&& action == (SendAction::Return { result: Ok(()) })
    }
}

/// Whether a message is started: it gets the next stream, the client moves on
/// to the one after it, and the message proceeds.
pub open spec fn starts(
    before: ClientState,
    after: ClientState,
    old_task: SendTask,
    task: SendTask,
    now: Nanos,
    action: SendAction,
) -> bool {
    &&& task == (SendTask { stream_id: before.next_stream_id, ..old_task })
    &&& proceeds(
        ClientState {
            next_stream_id: (before.next_stream_id + STREAM_ID_STEP) as u64,
            ..before
        },
        after,
        task,
        now,
        action,
    )
}

/// What a step does to a message on its way: an event that opens a stream starts
/// it, bytes that were taken count as sent, and it proceeds when the ready packets
/// have been sent. No other event changes the message, and none offers a chunk.
pub open spec fn is_send_step(
    before: ClientState,
    after: ClientState,
    old_task: SendTask,
    task: SendTask,
    event: SendEvent,
    action: SendAction,
) -> bool {
    if event.opens_stream() {
        match event {
            SendEvent::Begin { now, .. } => starts(before, after, old_task, task, now, action),
            SendEvent::Reconnected { now, .. } => starts(before, after, old_task, task, now, action),
            _ => false,
        }
    } else {
        match event {
            SendEvent::ChunkWritten { written } => {
                &&& task.message == old_task.message
                &&& task.stream_id == old_task.stream_id
                &&& task.sent == old_task.sent + written
                &&& action is Flush || action is FlushAndWait
            },
            SendEvent::Waited { result: Ok(_), now } => task == old_task && proceeds(
                before,
                after,
                task,
                now,
                action,
            ),
            SendEvent::Flushed { result: Ok(_), now } => task == old_task && proceeds(
                before,
                after,
                task,
                now,
                action,
            ),
            _ => {
                &&& task == old_task
                &&& !(action is SendChunk)
                &&& action is Reconnect ==> event is Begin
                &&& action matches SendAction::Return { result } ==> result is Err
            },
        }
    }
}

impl SimpleQuicClient {
    /// A client of the server at `server_addr`, which the user named
    /// `server_addr_str`.
    pub fn new(server_addr: Address, server_addr_str: &str, now: Nanos) -> (client: Self)
        ensures
            client@ == (ClientState {
                server_addr,
                server_addr_str: server_addr_str@,
                next_stream_id: FIRST_STREAM_ID,
                stream_buffers: Map::empty(),
                last_activity: now,
            }),
            client@.wf(),
    {
        SimpleQuicClient {
            server_addr,
            server_addr_str: server_addr_str.to_owned(),
            next_stream_id: FIRST_STREAM_ID,
            stream_buffers: StreamBuffers::new(),
            last_activity: now,
        }
    }

    /// Returns the address of the server.
    pub fn server_addr(&self) -> (addr: Address)
        ensures
            addr == self@.server_addr,
    {
        self.server_addr
    }

    /// Returns whether a stream is left for another message.
    pub fn has_stream(&self) -> (r: bool)
        ensures
            r <==> self@.next_stream_id + STREAM_ID_STEP <= u64::MAX,
    {
        self.next_stream_id <= u64::MAX - STREAM_ID_STEP
    }

    /// Decides one step of the handshake with the server.
    pub fn handshake(&self, attempts: &mut u32, event: HandshakeEvent) -> (action: HandshakeAction)
        ensures
            (*final(attempts), action) == handshake::after_event(
                self@.server_addr,
                *old(attempts),
                event,
            ),
    {
        handshake::step(self.server_addr, attempts, event)
    }

    /// Returns whether the connection can still be used.
    pub fn is_connection_alive(status: ConnectionStatus) -> (alive: bool)
        ensures
            alive == status.alive(),
    {
        status.established && !status.closed
    }

    /// Decides one step of a reconnection: the address of the server is parsed
    /// anew, a socket bound, a connection made, the streams start over, and the
    /// handshake is completed.
    pub fn reconnect(&mut self, event: ReconnectEvent) -> (action: ReconnectAction)
        requires
            old(self)@.wf(),
        ensures
            final(self)@.wf(),
            final(self)@ == (match event {
                ReconnectEvent::Resolved { result: Ok(server_addr) } => ClientState {
                    server_addr,
                    ..old(self)@
                },
                ReconnectEvent::Connected { result: Ok(_), now } => ClientState {
                    next_stream_id: FIRST_STREAM_ID,
                    stream_buffers: Map::empty(),
                    last_activity: now,
                    ..old(self)@
                },
                _ => old(self)@,
            }),
            match event {
                ReconnectEvent::Begin => action matches ReconnectAction::Resolve { address }
                    && address@ == old(self)@.server_addr_str,
                ReconnectEvent::Resolved { result: Ok(_) } => action == ReconnectAction::Bind,
                ReconnectEvent::Resolved { result: Err(reason) } => action == (
                ReconnectAction::Return { result: Err(QuicError::External { reason }) }),
                ReconnectEvent::Bound { result: Ok(_) } => action == (ReconnectAction::Connect {
                    server_addr: old(self)@.server_addr,
                }),
                ReconnectEvent::Bound { result: Err(reason) } => action == (
                ReconnectAction::Return { result: Err(QuicError::External { reason }) }),
                ReconnectEvent::Connected { result: Ok(_), .. } => action
                    == ReconnectAction::Handshake,
                ReconnectEvent::Connected { result: Err(reason), .. } => action == (
                ReconnectAction::Return { result: Err(QuicError::External { reason }) }),
                ReconnectEvent::HandshakeDone { result } => action == (ReconnectAction::Return {
                    result,
                }),
            },
    {
        match event {
            ReconnectEvent::Begin => ReconnectAction::Resolve {
                address: self.server_addr_str.clone(),
            },
            ReconnectEvent::Resolved { result } => match result {
                Ok(server_addr) => {
                    self.server_addr = server_addr;
                    ReconnectAction::Bind
                },
                Err(reason) => ReconnectAction::Return { result: Err(QuicError::External { reason }) },
            },
            ReconnectEvent::Bound { result } => match result {
                Ok(_) => ReconnectAction::Connect { server_addr: self.server_addr },
                Err(reason) => ReconnectAction::Return { result: Err(QuicError::External { reason }) },
            },
            ReconnectEvent::Connected { result, now } => match result {
                Ok(_) => {
                    self.next_stream_id = FIRST_STREAM_ID;
                    self.stream_buffers.clear();
                    self.last_activity = now;
                    ReconnectAction::Handshake
                },
                Err(reason) => ReconnectAction::Return { result: Err(QuicError::External { reason }) },
            },
            ReconnectEvent::HandshakeDone { result } => ReconnectAction::Return { result },
        }
    }

    /// Notes that something was sent or received.
    pub fn update_activity(&mut self, now: Nanos)
        ensures
            final(self)@ == (ClientState { last_activity: now, ..old(self)@ }),
    {
        self.last_activity = now;
    }

    /// Returns whether the client has been idle for so long that a PING frame
    /// is due.
    pub fn should_send_ping(&self, now: Nanos) -> (due: bool)
        ensures
            due == self@.ping_due(now),
    {
        now > self.last_activity && now - self.last_activity > PING_AFTER
    }

    /// Decides one step of sending a PING frame.
    pub fn send_ping(&mut self, event: PingEvent) -> (action: PingAction)
        ensures
            final(self)@ == (match event {
                PingEvent::Flushed { result: Ok(_), now } => ClientState {
                    last_activity: now,
                    ..old(self)@
                },
                _ => old(self)@,
            }),
            action == (match event {
                PingEvent::Begin { status } => if status.alive() {
                    PingAction::Queue
                } else {
                    PingAction::Return { result: Err(QuicError::ConnectionClosed) }
                },
                PingEvent::Queued { result: Ok(_) } => PingAction::Flush,
                PingEvent::Queued { result: Err(reason) } => PingAction::Return {
                    result: Err(QuicError::PingFailed { reason }),
                },
                PingEvent::Flushed { result: Ok(_), .. } => PingAction::Return { result: Ok(()) },
                PingEvent::Flushed { result: Err(error), .. } => PingAction::Return {
                    result: Err(error),
                },
            }),
    {
        match event {
            PingEvent::Begin { status } => {
                if Self::is_connection_alive(status) {
                    PingAction::Queue
                } else {
                    PingAction::Return { result: Err(QuicError::ConnectionClosed) }
                }
            },
            PingEvent::Queued { result } => match result {
                Ok(_) => PingAction::Flush,
                Err(reason) => PingAction::Return { result: Err(QuicError::PingFailed { reason }) },
            },
            PingEvent::Flushed { result, now } => match result {
                Ok(_) => {
                    self.update_activity(now);
                    PingAction::Return { result: Ok(()) }
                },
                Err(error) => PingAction::Return { result: Err(error) },
            },
        }
    }

    fn proceed(&mut self, task: &SendTask, now: Nanos) -> (action: SendAction)
        requires
            task.wf(),
        ensures
            proceeds(old(self)@, final(self)@, *task, now, action),
    {
        if task.sent < task.message.len() {
            task.offer_chunk()
        } else {
            self.update_activity(now);
            SendAction::Return { result: Ok(()) }
        }
    }

    fn start(&mut self, task: &mut SendTask, now: Nanos) -> (action: SendAction)
        requires
            old(self)@.wf(),
            old(self)@.next_stream_id + STREAM_ID_STEP <= u64::MAX,
            old(task).wf(),
        ensures
            final(self)@.wf(),
            starts(old(self)@, final(self)@, *old(task), *final(task), now, action),
    {
        task.stream_id = self.next_stream_id;
        self.next_stream_id = self.next_stream_id + STREAM_ID_STEP;
        self.proceed(task, now)
    }

    /// Decides one step of sending a message.
    ///
    /// A closed connection is replaced first. Each message gets a stream of its
    /// own, on which it is sent in chunks; after each chunk the ready packets
    /// are sent. What the stream does not take of a chunk is offered again after
    /// a delay. The message is sent when the stream has taken all of it.
    pub fn send_message(&mut self, task: &mut SendTask, event: SendEvent) -> (action: SendAction)
        requires
            old(self)@.wf(),
            old(task).wf(),
            event.opens_stream() ==> old(self)@.next_stream_id + STREAM_ID_STEP <= u64::MAX,
            event matches SendEvent::ChunkWritten { written } ==> written <= chunk_at(
                old(task).message@,
                old(task).sent as int,
            ).len(),
        ensures
            final(self)@.wf(),
            final(task).wf(),
            event.opens_stream() || event is Flushed || event is Waited || final(self)@ == old(
                self,
            )@,
            event.opens_stream() || event is ChunkWritten || *final(task) == *old(task),
            action == (SendAction::Return { result: Ok(()) }) ==> final(task).sent
                == final(task).message@.len(),
            action matches SendAction::SendChunk { stream_id, .. } ==> stream_id
                == final(task).stream_id,
            is_send_step(old(self)@, final(self)@, *old(task), *final(task), event, action),
            match event {
                SendEvent::Begin { status, now } => if status.alive() {
                    starts(old(self)@, final(self)@, *old(task), *final(task), now, action)
                } else {
                    action == SendAction::Reconnect
                },
                SendEvent::Reconnected { result: Ok(_), established, now } => if established {
                    starts(old(self)@, final(self)@, *old(task), *final(task), now, action)
                } else {
                    action == (SendAction::Return { result: Err(QuicError::NotEstablished) })
                },
                SendEvent::Reconnected { result: Err(error), .. } => action == (
                SendAction::Return {
                    result: Err(QuicError::ReconnectFailed { cause: Box::new(error) }),
                }),
                SendEvent::ChunkWritten { written } => {
                    let sent = crate::outgoing::sent_after_write(
                        old(task).sent as int,
                        written as int,
                    );
                    &&& *final(task) == (SendTask { sent: sent as usize, ..*old(task) })
                    &&& final(task).sent == sent
                    &&& action == if written == chunk_at(
                        old(task).message@,
                        old(task).sent as int,
                    ).len() {
                        SendAction::Flush
                    } else {
                        SendAction::FlushAndWait
                    }
                },
                SendEvent::ChunkBlocked => action == SendAction::FlushAndWait,
                SendEvent::ChunkFailed { reason } => action == (SendAction::Return {
                    result: Err(QuicError::SendFailed { reason }),
                }),
                SendEvent::Waited { result: Ok(_), now } => proceeds(
                    old(self)@,
                    final(self)@,
                    *old(task),
                    now,
                    action,
                ),
                SendEvent::Waited { result: Err(error), .. } => final(self)@ == old(self)@
                    && action == (SendAction::Return { result: Err(error) }),
                SendEvent::Flushed { result: Ok(_), now } => proceeds(
                    old(self)@,
                    final(self)@,
                    *old(task),
                    now,
                    action,
                ),
                SendEvent::Flushed { result: Err(error), .. } => final(self)@ == old(self)@
                    && action == (SendAction::Return { result: Err(error) }),
            },
    {
        match event {
            SendEvent::Begin { status, now } => {
                if Self::is_connection_alive(status) {
                    self.start(task, now)
                } else {
                    SendAction::Reconnect
                }
            },
            SendEvent::Reconnected { result, established, now } => match result {
                Ok(_) => {
                    if established {
                        self.start(task, now)
                    } else {
                        SendAction::Return { result: Err(QuicError::NotEstablished) }
                    }
                },
                Err(error) => SendAction::Return {
                    result: Err(QuicError::ReconnectFailed { cause: Box::new(error) }),
                },
            },
            SendEvent::ChunkWritten { written } => {
                let end = task.chunk_end();
                let whole = written == end - task.sent;
                task.sent = task.sent + written;
                if whole {
                    SendAction::Flush
                } else {
                    SendAction::FlushAndWait
                }
            },
            SendEvent::ChunkBlocked => SendAction::FlushAndWait,
            SendEvent::ChunkFailed { reason } => SendAction::Return {
                result: Err(QuicError::SendFailed { reason }),
            },
            SendEvent::Waited { result, now } => match result {
                Ok(_) => self.proceed(task, now),
                Err(error) => SendAction::Return { result: Err(error) },
            },
            SendEvent::Flushed { result, now } => match result {
                Ok(_) => self.proceed(task, now),
                Err(error) => SendAction::Return { result: Err(error) },
            },
        }
    }

    /// Takes in one read of a stream, and says whether to read on or what
    /// message to return.
    pub fn read_stream_data(&mut self, stream_id: u64, read: StreamRead) -> (step: ReadStep)
        ensures
            final(self)@ == (ClientState {
                stream_buffers: crate::streams::after_read(
                    old(self)@.stream_buffers,
                    stream_id,
                    read,
                ),
                ..old(self)@
            }),
            crate::streams::is_read_step(old(self)@.stream_buffers, stream_id, read, step),
    {
        self.stream_buffers.read(stream_id, read)
    }

    /// Decides one step of the interactive loop.
    ///
    /// When the timer fires, a connection that is no longer alive is replaced,
    /// and one that has been idle for too long gets a PING frame. A typed line
    /// is sent or ends the program. A datagram from the server is given to the
    /// connection, and every message that is complete then is shown.
    pub fn run_interactive(&mut self, event: InteractiveEvent) -> (action: InteractiveAction)
        ensures
            final(self)@ == (match event {
                InteractiveEvent::DatagramProcessed { accepted: true, now } => ClientState {
                    last_activity: now,
                    ..old(self)@
                },
                _ => old(self)@,
            }),
            match event {
                InteractiveEvent::TimerFired { status, now } => action == if !status.alive() {
                    InteractiveAction::Reconnect
                } else if old(self)@.ping_due(now) {
                    InteractiveAction::Ping
                } else {
                    InteractiveAction::Flush
                },
                InteractiveEvent::ReconnectDone { result } => action == if result is Ok {
                    InteractiveAction::Flush
                } else {
                    InteractiveAction::Wait
                },
                InteractiveEvent::PingDone => action == InteractiveAction::Flush,
                InteractiveEvent::FlushDone => action == InteractiveAction::Wait,
                InteractiveEvent::LineRead { line } => obeys_line(line@, action),
                InteractiveEvent::LineFailed => action == InteractiveAction::Prompt,
                InteractiveEvent::SendDone => action == InteractiveAction::Prompt,
                InteractiveEvent::Prompted { result: Ok(_) } => action == InteractiveAction::Wait,
                InteractiveEvent::Prompted { result: Err(reason) } => action == (
                InteractiveAction::Return { result: Err(QuicError::External { reason }) }),
                InteractiveEvent::DatagramReceived { data, from, local } => action == if from
                    != old(self)@.server_addr {
                    InteractiveAction::Wait
                } else {
                    match local {
                        Ok(to) => InteractiveAction::Process { data, from, to },
                        Err(reason) => InteractiveAction::Return {
                            result: Err(QuicError::External { reason }),
                        },
                    }
                },
                InteractiveEvent::ReceiveFailed => action == InteractiveAction::Wait,
                InteractiveEvent::DatagramProcessed { accepted, .. } => action == if accepted {
                    InteractiveAction::ReadStreams
                } else {
                    InteractiveAction::Wait
                },
                InteractiveEvent::StreamRead { result: Ok(message) } => action
                    == if message@.len() > 0 {
                    InteractiveAction::Show { message }
                } else {
                    InteractiveAction::NextStream
                },
                InteractiveEvent::StreamRead { result: Err(_) } => action
                    == InteractiveAction::NextStream,
                InteractiveEvent::StreamsRead => action == InteractiveAction::Flush,
                InteractiveEvent::Shown { result: Ok(_) } => action
                    == InteractiveAction::NextStream,
                InteractiveEvent::Shown { result: Err(reason) } => action == (
                InteractiveAction::Return { result: Err(QuicError::External { reason }) }),
            },
    {
        match event {
            InteractiveEvent::TimerFired { status, now } => {
                if !Self::is_connection_alive(status) {
                    InteractiveAction::Reconnect
                } else if self.should_send_ping(now) {
                    InteractiveAction::Ping
                } else {
                    InteractiveAction::Flush
                }
            },
            InteractiveEvent::ReconnectDone { result } => match result {
                Ok(_) => InteractiveAction::Flush,
                Err(_) => InteractiveAction::Wait,
            },
            InteractiveEvent::PingDone => InteractiveAction::Flush,
            InteractiveEvent::FlushDone => InteractiveAction::Wait,
            InteractiveEvent::LineRead { line } => match parse_line(line.as_str()) {
                Command::Quit => InteractiveAction::Return { result: Ok(()) },
                Command::Blank => InteractiveAction::Prompt,
                Command::Message { content } => InteractiveAction::Send { message: content },
            },
            InteractiveEvent::LineFailed => InteractiveAction::Prompt,
            InteractiveEvent::SendDone => InteractiveAction::Prompt,
            InteractiveEvent::Prompted { result } => match result {
                Ok(_) => InteractiveAction::Wait,
                Err(reason) => InteractiveAction::Return { result: Err(QuicError::External { reason }) },
            },
            InteractiveEvent::DatagramReceived { data, from, local } => {
                if from == self.server_addr {
                    match local {
                        Ok(to) => InteractiveAction::Process { data, from, to },
                        Err(reason) => InteractiveAction::Return {
                            result: Err(QuicError::External { reason }),
                        },
                    }
                } else {
                    InteractiveAction::Wait
                }
            },
            InteractiveEvent::ReceiveFailed => InteractiveAction::Wait,
            InteractiveEvent::DatagramProcessed { accepted, now } => {
                if accepted {
                    self.update_activity(now);
                    InteractiveAction::ReadStreams
                } else {
                    InteractiveAction::Wait
                }
            },
            InteractiveEvent::StreamRead { result } => match result {
                Ok(message) => {
                    if message.as_str().is_empty() {
                        InteractiveAction::NextStream
                    } else {
                        InteractiveAction::Show { message }
                    }
                },
                Err(_) => InteractiveAction::NextStream,
            },
            InteractiveEvent::StreamsRead => InteractiveAction::Flush,
            InteractiveEvent::Shown { result } => match result {
                Ok(_) => InteractiveAction::NextStream,
                Err(reason) => InteractiveAction::Return { result: Err(QuicError::External { reason }) },
            },
        }
    }
}

/// However little of each chunk the stream takes, it holds exactly the part of
/// the message that counts as sent, none of it missing and none twice. When all
/// of it counts as sent, the stream holds the message.
pub proof fn law_stream_holds_what_was_sent(message: Seq<u8>, writes: Seq<int>)
    requires
        forall|i: int|
            0 <= i < writes.len() ==> 0 <= #[trigger] writes[i] <= chunk_at(
                message,
                crate::outgoing::sent_after_writes(writes.take(i)),
            ).len(),
    ensures
        ({
            let sent = crate::outgoing::sent_after_writes(writes);
            let stream = crate::outgoing::stream_after_writes(
                message,
                CHUNK_SIZE as int,
                writes,
            );
            &&& 0 <= sent <= message.len()
            &&& stream == message.take(sent)
            &&& sent == message.len() ==> stream == message
        }),
{
    assert(crate::outgoing::writes_fit(message, CHUNK_SIZE as int, writes));
    crate::outgoing::law_stream_holds_what_was_sent(message, CHUNK_SIZE as int, writes);
}

/// No chunk is larger than the limit, none is empty while the message is not
/// sent, and the end of the message is marked on the chunk that completes it
/// and on no other.
pub proof fn law_chunks_cover_the_message(task: SendTask, action: SendAction)
    requires
        task.sent < task.message@.len(),
        task.offers_chunk(action),
    ensures
        action matches SendAction::SendChunk { chunk, fin, .. } && {
            &&& 0 < chunk@.len() <= CHUNK_SIZE
            &&& task.sent + chunk@.len() <= task.message@.len()
            &&& fin <==> task.sent + chunk@.len() == task.message@.len()
        },
{
}

/// A chunk that is offered is the next part of the message, byte for byte, on the
/// stream of the message: 8192 bytes, or what is left where that is less.
pub proof fn law_next_part_is_offered(task: SendTask, action: SendAction)
    requires
        task.wf(),
        task.offers_chunk(action),
    ensures
        action matches SendAction::SendChunk { stream_id, chunk, fin } && {
            let left = task.message@.len() - task.sent;
            &&& stream_id == task.stream_id
            &&& chunk@.len() == if left < 8192 {
                left
            } else {
                8192
            }
            &&& forall|i: int|
                0 <= i < chunk@.len() ==> #[trigger] chunk@[i] == task.message@[task.sent + i]
            &&& fin <==> left <= 8192
        },
{
}

/// Whether `event` is what can come of an action while a message is sent: a
/// stream takes no more than it was offered, or has no room, or refuses.
pub open spec fn answers(action: SendAction, event: SendEvent) -> bool {
    match action {
        SendAction::Reconnect => event is Reconnected,
        SendAction::SendChunk { chunk, .. } => match event {
            SendEvent::ChunkWritten { written } => written <= chunk@.len(),
            SendEvent::ChunkBlocked => true,
            SendEvent::ChunkFailed { .. } => true,
            _ => false,
        },
        SendAction::FlushAndWait => event is Waited,
        SendAction::Flush => event is Flushed,
        SendAction::Return { .. } => false,
    }
}

/// The bytes that stream `id` took in the first `n` steps of a send: of each
/// chunk that was offered to it, as many as the event after it tells.
pub open spec fn taken_by_stream(
    id: u64,
    events: Seq<SendEvent>,
    actions: Seq<SendAction>,
    n: int,
) -> Seq<u8>
    decreases n,
{
    if n <= 1 {
        Seq::empty()
    } else {
        let before = taken_by_stream(id, events, actions, n - 1);
        match (actions[n - 2], events[n - 1]) {
            (
                SendAction::SendChunk { stream_id, chunk, .. },
                SendEvent::ChunkWritten { written },
            ) => if stream_id == id {
                before + chunk@.take(written as int)
            } else {
                before
            },
            _ => before,
        }
    }
}

/// Whether a message is sent from its first offer on: the first event opens a
/// stream, each further event is what came of the action before it, and each
/// action is the one that the step returned. Between two steps the client may do
/// other work.
pub open spec fn is_send(
    befores: Seq<ClientState>,
    afters: Seq<ClientState>,
    tasks: Seq<SendTask>,
    events: Seq<SendEvent>,
    actions: Seq<SendAction>,
) -> bool {
    let n = events.len() as int;
    &&& n > 0
    &&& befores.len() == n && afters.len() == n && actions.len() == n && tasks.len() == n + 1
    &&& events[0].opens_stream()
    &&& tasks[0].sent == 0
    &&& forall|i: int|
        0 <= i < n ==> is_send_step(
            befores[i],
            afters[i],
            tasks[i],
            tasks[i + 1],
            #[trigger] events[i],
            actions[i],
        )
    &&& forall|i: int| 0 <= i < n - 1 ==> answers(#[trigger] actions[i], events[i + 1])
}

proof fn lemma_send_keeps_to_its_stream(
    befores: Seq<ClientState>,
    afters: Seq<ClientState>,
    tasks: Seq<SendTask>,
    events: Seq<SendEvent>,
    actions: Seq<SendAction>,
    n: int,
    other: u64,
)
    requires
        is_send(befores, afters, tasks, events, actions),
        1 <= n <= events.len(),
        other != befores[0].next_stream_id,
    ensures
        ({
            let id = befores[0].next_stream_id;
            let message = tasks[0].message@;
            let task = tasks[n];
            &&& task.message@ == message
            &&& task.stream_id == id
            &&& task.sent <= message.len()
            &&& taken_by_stream(id, events, actions, n) == message.take(task.sent as int)
            &&& taken_by_stream(other, events, actions, n) == Seq::<u8>::empty()
            &&& actions[n - 1] matches SendAction::SendChunk { .. } ==> task.offers_chunk(
                actions[n - 1],
            )
            &&& !(actions[n - 1] is Reconnect)
            &&& actions[n - 1] matches SendAction::Return { result: Ok(_) } ==> task.sent
                == message.len()
        }),
    decreases n,
{
    let id = befores[0].next_stream_id;
    let message = tasks[0].message@;
    let event = events[n - 1];
    assert(is_send_step(
        befores[n - 1],
        afters[n - 1],
        tasks[n - 1],
        tasks[n],
        event,
        actions[n - 1],
    ));
    if n == 1 {
        assert(message.take(0) =~= Seq::<u8>::empty());
    } else {
        lemma_send_keeps_to_its_stream(befores, afters, tasks, events, actions, n - 1, other);
        let action = actions[n - 2];
        assert(answers(action, events[n - 2 + 1]));
        assert(!event.opens_stream());
        let task = tasks[n - 1];
        if let SendAction::SendChunk { chunk, .. } = action {
            law_next_part_is_offered(task, action);
            if let SendEvent::ChunkWritten { written } = event {
                assert(message.take(task.sent as int) + chunk@.take(written as int)
                    =~= message.take(task.sent + written));
            }
        }
    }
}

/// A message goes to one stream, whole: from its first offer to its last, every
/// chunk is offered on the stream that the client had next when the message was
/// started, and on no other. However little the stream takes at once, what it has
/// taken is the first part of the message, and all of it when the send succeeds.
pub proof fn law_message_goes_to_its_stream(
    befores: Seq<ClientState>,
    afters: Seq<ClientState>,
    tasks: Seq<SendTask>,
    events: Seq<SendEvent>,
    actions: Seq<SendAction>,
    other: u64,
)
    requires
        is_send(befores, afters, tasks, events, actions),
        other != befores[0].next_stream_id,
    ensures
        ({
            let id = befores[0].next_stream_id;
            let message = tasks[0].message@;
            let n = events.len() as int;
            let sent = tasks[n].sent as int;
            &&& forall|i: int|
                0 <= i < n ==> ((#[trigger] actions[i]) matches SendAction::SendChunk {
                    stream_id,
                    ..
                } ==> stream_id == id)
            &&& taken_by_stream(id, events, actions, n) == message.take(sent)
            &&& taken_by_stream(other, events, actions, n).len() == 0
            &&& actions[n - 1] matches SendAction::Return { result: Ok(_) } ==> taken_by_stream(
                id,
                events,
                actions,
                n,
            ) == message
        }),
{
    let n = events.len() as int;
    assert forall|i: int| 0 <= i < n implies ((#[trigger] actions[i])
        matches SendAction::SendChunk { stream_id, .. } ==> stream_id
        == befores[0].next_stream_id) by {
        lemma_send_keeps_to_its_stream(befores, afters, tasks, events, actions, i + 1, other);
    }
    lemma_send_keeps_to_its_stream(befores, afters, tasks, events, actions, n, other);
    assert(tasks[0].message@.take(tasks[0].message@.len() as int) =~= tasks[0].message@);
}

/// The message that is sent after `earlier` others on a connection goes to the
/// stream of that number, from its first offer to its last.
pub proof fn law_every_chunk_names_the_stream_of_its_message(
    befores: Seq<ClientState>,
    afters: Seq<ClientState>,
    tasks: Seq<SendTask>,
    events: Seq<SendEvent>,
    actions: Seq<SendAction>,
    earlier: nat,
    i: int,
)
    requires
        is_send(befores, afters, tasks, events, actions),
        befores[0].next_stream_id == stream_of_message(earlier),
        0 <= i < actions.len(),
    ensures
        actions[i] matches SendAction::SendChunk { stream_id, .. } ==> stream_id == 4 + 4 * earlier,
{
    let other: u64 = if befores[0].next_stream_id == 0 {
        1
    } else {
        0
    };
    lemma_send_keeps_to_its_stream(befores, afters, tasks, events, actions, i + 1, other);
}

/// Starting a message takes one stream and no more, and touches nothing else but
/// the time of the last activity, which is noted only where there is nothing to
/// send; a message that proceeds touches only that.
pub proof fn law_sending_touches_only_stream_and_activity(
    before: ClientState,
    after: ClientState,
    old_task: SendTask,
    task: SendTask,
    now: Nanos,
    action: SendAction,
)
    ensures
        starts(before, after, old_task, task, now, action) ==> {
            &&& after.server_addr == before.server_addr
            &&& after.server_addr_str == before.server_addr_str
            &&& after.stream_buffers == before.stream_buffers
            &&& before.next_stream_id + 4 <= u64::MAX ==> after.next_stream_id
                == before.next_stream_id + 4
            &&& after.last_activity == if task.message@.len() > task.sent {
                before.last_activity
            } else {
                now
            }
            &&& task.message == old_task.message && task.sent == old_task.sent
        },
        proceeds(before, after, task, now, action) ==> {
            &&& after.server_addr == before.server_addr
            &&& after.server_addr_str == before.server_addr_str
            &&& after.stream_buffers == before.stream_buffers
            &&& after.next_stream_id == before.next_stream_id
            &&& action is Return <==> task.message@.len() <= task.sent
            &&& after.last_activity == if action is Return {
                now
            } else {
                before.last_activity
            }
        },
{
}

/// A stream is opened for a message exactly when the connection is established
/// and not closed, or has just been replaced by one that is established.
pub proof fn law_stream_is_opened_on_a_live_connection(
    status: ConnectionStatus,
    result: Result<(), QuicError>,
    established: bool,
    now: Nanos,
)
    ensures
        (SendEvent::Begin { status, now }).opens_stream() <==> status.established && !status.closed,
        (SendEvent::Reconnected { result, established, now }).opens_stream() <==> result is Ok
            && established,
        status.alive() <==> status.established && !status.closed,
{
}

/// Whatever white space stands around what is typed, the word `quit` ends the
/// client, nothing brings a new prompt, and anything else is sent as it is, whole
/// and without the white space.
pub proof fn law_typed_text_is_sent_whole(
    left: Seq<char>,
    typed: Seq<char>,
    right: Seq<char>,
    action: InteractiveAction,
)
    requires
        crate::text::is_blank(left),
        crate::text::is_blank(right),
        typed.len() > 0 ==> !crate::text::is_white_space(typed.first())
            && !crate::text::is_white_space(typed.last()),
        obeys_line(left + typed + right, action),
    ensures
        action matches InteractiveAction::Return { result: Ok(_) } <==> typed == "quit"@,
        action is Prompt <==> typed.len() == 0,
        typed.len() > 0 && typed != "quit"@ ==> (action matches InteractiveAction::Send { message }
            && message@ == typed),
{
    reveal_strlit("quit");
    crate::text::law_padding_is_trimmed(left, typed, right);
}

/// The stream of the message that is sent after `earlier` others on a
/// connection.
pub open spec fn stream_of_message(earlier: nat) -> int {
    FIRST_STREAM_ID + STREAM_ID_STEP * earlier
}

/// The stream IDs of a connection count up from the first one: where the next
/// message is the one after `earlier` others, it gets the stream of that
/// number, and the client is left with the next.
pub proof fn law_messages_get_streams_in_order(
    before: ClientState,
    after: ClientState,
    old_task: SendTask,
    task: SendTask,
    now: Nanos,
    action: SendAction,
    earlier: nat,
)
    requires
        before.next_stream_id + STREAM_ID_STEP <= u64::MAX,
        before.next_stream_id == stream_of_message(earlier),
        starts(before, after, old_task, task, now, action),
    ensures
        task.stream_id == stream_of_message(earlier),
        after.next_stream_id == stream_of_message(earlier + 1),
        after.wf(),
{
}

/// Two messages of a connection never share a stream, every stream is one that a
/// client opens in both directions, and the numbering begins where a new client
/// and a new connection begin.
pub proof fn law_messages_do_not_share_streams(first: nat, second: nat)
    requires
        first != second,
    ensures
        stream_of_message(first) != stream_of_message(second),
        stream_of_message(first) % 4 == 0,
        stream_of_message(0) == FIRST_STREAM_ID,
{
}

/// After any activity no PING frame is due until the idle time has passed
/// again, and one is due from then on.
pub proof fn law_activity_defers_ping(state: ClientState, activity: Nanos, now: Nanos)
    ensures
        (ClientState { last_activity: activity, ..state }).ping_due(now) <==> activity
            + 100_000_000_000 < now,
{
}

} // verus!
