//! The server, which echoes every message that it receives.

use vstd::prelude::*;
use vstd::slice::{slice_subrange, slice_to_vec};
use vstd::string::*;

use crate::cert::{generate_cert_and_key_for_domain, CertError, CERT_FILE, KEY_FILE};
use crate::config::{create_simple_config, SimpleConfig};
use crate::connection::{Address, ConnectionStatus, Nanos};
use crate::error::QuicError;
use crate::header::{parse_header, PacketHeader, PacketType};
use crate::streams::{StreamBuffers, StreamRead};
use crate::table::ConnectionTable;

verus! {

/// How often the timers of a connection are served, in milliseconds.
pub const TIMER_INTERVAL_MS: u64 = 25;

/// How long a connection may take to be established.
pub const SETUP_TIMEOUT: Nanos = 60_000_000_000;

/// How many packets may wait for the handler of a connection.
pub const CHANNEL_CAPACITY: usize = 100;

/// The command line of the server.
#[derive(Debug)]
pub struct Args {
    /// Listen address (IP:PORT)
    pub addr: String,
    /// Certificate domain name
    pub domain: String,
}

impl Default for Args {
    fn default() -> (args: Args)
        ensures
            args.addr@ == "127.0.0.1:8080"@,
            args.domain@ == "localhost"@,
    {
        Args { addr: "127.0.0.1:8080".to_owned(), domain: "localhost".to_owned() }
    }
}

/// A datagram and where it came from.
#[derive(Debug)]
pub struct UdpPacket {
    pub data: Vec<u8>,
    pub from: Address,
}

/// The handler of one connection, without its socket and its connection.
#[derive(Debug)]
pub struct ConnectionHandler {
    client_addr: Address,
    stream_buffers: StreamBuffers,
    responses: StreamBuffers,
    migration_count: u32,
    started: Nanos,
}

/// What the handler of a connection knows.
#[verifier::ext_equal]
pub struct HandlerState {
    /// Where the last packet came from.
    pub client_addr: Address,
    /// The bytes of the messages that have not been echoed whole.
    pub stream_buffers: Map<u64, Seq<u8>>,
    /// What the streams have not taken of the responses that were begun.
    pub responses: Map<u64, Seq<u8>>,
    /// How often the client has changed its address.
    pub migration_count: u32,
    /// When the handler was started.
    pub started: Nanos,
}

impl HandlerState {
    /// Whether the time for the setup of the connection is over.
    pub open spec fn setup_is_over(&self, now: Nanos) -> bool {
        now - self.started >= SETUP_TIMEOUT
    }
}

impl View for ConnectionHandler {
    type V = HandlerState;

    closed spec fn view(&self) -> HandlerState {
        HandlerState {
            client_addr: self.client_addr,
            stream_buffers: self.stream_buffers@,
            responses: self.responses@,
            migration_count: self.migration_count,
            started: self.started,
        }
    }
}

/// What happened in the loop of a connection handler.
#[derive(Debug)]
pub enum HandlerEvent {
    /// A packet arrived.
    PacketReceived { packet: UdpPacket },
    /// No packet can arrive any more.
    ChannelClosed,
    /// The packet was handled, or could not be handled.
    PacketHandled,
    /// It is time to serve the timers of the connection, which has been done.
    TimerFired,
    /// The packets that were ready then were sent, or could not be sent.
    TimerFlushed { status: ConnectionStatus, now: Nanos },
}

/// What to do next in the loop of a connection handler.
#[derive(Debug)]
pub enum HandlerAction {
    /// Wait for a packet or for a timer.
    Wait,
    /// Handle a packet.
    Handle { packet: UdpPacket },
    /// Send the ready packets.
    Flush,
    /// Stop.
    Return,
}

/// What happened while a packet is handled.
#[derive(Debug)]
pub enum PacketEvent {
    /// Handling begins, at the socket with the given address, which the socket
    /// may fail to tell.
    Begin { packet: UdpPacket, local: Result<Address, String> },
    /// The connection took in the packet.
    Processed { result: Result<(), String>, established: bool },
    /// The readable streams were processed.
    StreamsProcessed { result: Result<(), QuicError> },
    /// The ready packets were sent.
    Flushed { result: Result<(), QuicError> },
}

/// What to do next while a packet is handled.
#[derive(Debug)]
pub enum PacketAction {
    /// Let the connection take in the packet.
    Process { data: Vec<u8>, from: Address, to: Address },
    /// Process the readable streams.
    ProcessStreams,
    /// Send the ready packets.
    Flush,
    /// Stop.
    Return { result: Result<(), QuicError> },
}

/// What happened while the readable streams are processed.
#[derive(Debug)]
pub enum EchoEvent {
    /// A stream was read.
    Read { stream_id: u64, read: StreamRead },
    /// A stream has room again.
    Writable { stream_id: u64 },
    /// The stream took so many bytes of what was offered.
    Responded { stream_id: u64, result: Result<usize, String> },
    /// The stream has no room for the response, for the given reason.
    Blocked { stream_id: u64, reason: String },
    /// The stream has no room for the rest of a response.
    StillBlocked { stream_id: u64 },
    /// There is no stream left.
    StreamsRead,
}

/// What to do next while the readable streams are processed.
#[derive(Debug)]
pub enum EchoAction {
    /// Read the same stream again.
    ReadAgain,
    /// Go on with the next stream: the readable ones first, then those that have
    /// room.
    NextStream,
    /// Offer the response; `fin` marks the end of the stream after it.
    Respond { stream_id: u64, response: Vec<u8>, fin: bool },
    /// Offer the rest of a response; `fin` marks the end of the stream after it.
    Resume { stream_id: u64, rest: Vec<u8>, fin: bool },
    /// Stop.
    Return { result: Result<(), QuicError> },
}

/// The response to a message.
pub open spec fn echo_of(message: Seq<u8>) -> Seq<char> {
    "Echo: "@ + crate::text::lossy_text(message)
}

/// The state of a handler after a packet from `from`.
pub open spec fn after_packet_from(state: HandlerState, from: Address) -> HandlerState {
    if state.client_addr == from {
        state
    } else {
        HandlerState {
            client_addr: from,
            migration_count: (state.migration_count + 1) as u32,
            ..state
        }
    }
}

/// The encoded response to a message.
pub open spec fn response_to(message: Seq<u8>) -> Seq<u8> {
    vstd::utf8::encode_utf8(echo_of(message))
}

/// What a stream has not taken of its response.
pub open spec fn unsent(state: HandlerState, id: u64) -> Seq<u8> {
    crate::streams::buffered(state.responses, id)
}

/// The message on stream `id` once a read of it has been taken in.
pub open spec fn message_after(state: HandlerState, id: u64, read: StreamRead) -> Seq<u8> {
    crate::streams::buffered(state.stream_buffers, id) + read.bytes()
}

/// The state of a handler after a read of stream `id`: what has arrived is kept,
/// and at the end of a message that is not empty the response is due.
pub open spec fn after_stream_read(state: HandlerState, id: u64, read: StreamRead) -> HandlerState {
    let message = message_after(state, id, read);
    HandlerState {
        stream_buffers: crate::streams::with_bytes(state.stream_buffers, id, read.bytes()),
        responses: if read.ends_stream() && message.len() > 0 {
            state.responses.insert(id, response_to(message))
        } else {
            state.responses
        },
        ..state
    }
}

/// The state of a handler after stream `id` took `written` bytes of its
/// response: the rest is kept, and when there is none the message is answered.
pub open spec fn after_response(state: HandlerState, id: u64, written: int) -> HandlerState {
    let rest = unsent(state, id);
    if written < rest.len() {
        HandlerState { responses: state.responses.insert(id, rest.skip(written)), ..state }
    } else {
        HandlerState {
            stream_buffers: state.stream_buffers.remove(id),
            responses: state.responses.remove(id),
            ..state
        }
    }
}

/// The state of a handler after an event. A response that failed is given up.
pub open spec fn after_echo_event(state: HandlerState, event: EchoEvent) -> HandlerState {
    match event {
        EchoEvent::Read { stream_id, read } => after_stream_read(state, stream_id, read),
        EchoEvent::Responded { stream_id, result: Ok(written) } => after_response(
            state,
            stream_id,
            written as int,
        ),
        EchoEvent::Responded { stream_id, result: Err(_) } => HandlerState {
            responses: state.responses.remove(stream_id),
            ..state
        },
        EchoEvent::Writable { .. } => state,
        EchoEvent::Blocked { .. } => state,
        EchoEvent::StillBlocked { .. } => state,
        EchoEvent::StreamsRead => state,
    }
}

/// Whether `action` offers all that stream `id` has not taken of its response.
pub open spec fn resumes_response(state: HandlerState, id: u64, action: EchoAction) -> bool {
    action matches EchoAction::Resume { stream_id, rest, fin } && stream_id == id && rest@
        == unsent(state, id) && fin
}

/// Whether `action` follows from a read of a stream: at the end of the stream a
/// message that is not empty is answered; before it, a read that gave bytes asks
/// for another, and one that gave none ends the work on the stream.
pub open spec fn is_echo_step(
    state: HandlerState,
    stream_id: u64,
    read: StreamRead,
    action: EchoAction,
) -> bool {
    let message = message_after(state, stream_id, read);
    if read.ends_stream() {
        if message.len() > 0 {
            action matches EchoAction::Respond { stream_id: id, response, fin } && id == stream_id
                && response@ == response_to(message) && fin
        } else {
            action == EchoAction::NextStream
        }
    } else if read.bytes().len() > 0 {
        action == EchoAction::ReadAgain
    } else {
        action == EchoAction::NextStream
    }
}

/// What the handler of a new connection knows.
pub open spec fn new_handler(client_addr: Address, now: Nanos) -> HandlerState {
    HandlerState {
        client_addr,
        stream_buffers: Map::empty(),
        responses: Map::empty(),
        migration_count: 0,
        started: now,
    }
}

impl ConnectionHandler {
    /// The handler of a new connection to the client at `client_addr`.
    pub fn new(client_addr: Address, now: Nanos) -> (handler: Self)
        ensures
            handler@ == new_handler(client_addr, now),
    {
        ConnectionHandler {
            client_addr,
            stream_buffers: StreamBuffers::new(),
            responses: StreamBuffers::new(),
            migration_count: 0,
            started: now,
        }
    }

    /// Returns where the last packet came from.
    pub fn client_addr(&self) -> (addr: Address)
        ensures
            addr == self@.client_addr,
    {
        self.client_addr
    }

    /// Returns how often the client has changed its address.
    pub fn migration_count(&self) -> (count: u32)
        ensures
            count == self@.migration_count,
    {
        self.migration_count
    }

    /// Decides one step of the loop of the handler. It ends when no packet can
    /// arrive any more, when the connection is closed, and when the connection
    /// is not established in time.
    pub fn run(&self, event: HandlerEvent) -> (action: HandlerAction)
        ensures
            action == (match event {
                HandlerEvent::PacketReceived { packet } => HandlerAction::Handle { packet },
                HandlerEvent::ChannelClosed => HandlerAction::Return,
                HandlerEvent::PacketHandled => HandlerAction::Wait,
                HandlerEvent::TimerFired => HandlerAction::Flush,
                HandlerEvent::TimerFlushed { status, now } => if status.closed
                    || !status.established && self@.setup_is_over(now) {
                    HandlerAction::Return
                } else {
                    HandlerAction::Wait
                },
            }),
    {
        match event {
            HandlerEvent::PacketReceived { packet } => HandlerAction::Handle { packet },
            HandlerEvent::ChannelClosed => HandlerAction::Return,
            HandlerEvent::PacketHandled => HandlerAction::Wait,
            HandlerEvent::TimerFired => HandlerAction::Flush,
            HandlerEvent::TimerFlushed { status, now } => {
                if status.closed || !status.established && now >= self.started && now
                    - self.started >= SETUP_TIMEOUT {
                    HandlerAction::Return
                } else {
                    HandlerAction::Wait
                }
            },
        }
    }

    /// Decides one step of handling a packet. A packet from a new address moves
    /// the connection there. The readable streams are processed once the
    /// connection is established.
    pub fn handle_packet(&mut self, event: PacketEvent) -> (action: PacketAction)
        requires
            event matches PacketEvent::Begin { packet, .. } ==> packet.from == old(
                self,
            )@.client_addr || old(self)@.migration_count < u32::MAX,
        ensures
            final(self)@ == (match event {
                PacketEvent::Begin { packet, .. } => after_packet_from(old(self)@, packet.from),
                _ => old(self)@,
            }),
            action == (match event {
                PacketEvent::Begin { packet, local: Ok(to) } => PacketAction::Process {
                    data: packet.data,
                    from: packet.from,
                    to,
                },
                PacketEvent::Begin { local: Err(reason), .. } => PacketAction::Return {
                    result: Err(QuicError::External { reason }),
                },
                PacketEvent::Processed { result: Ok(_), established } => if established {
                    PacketAction::ProcessStreams
                } else {
                    PacketAction::Flush
                },
                PacketEvent::Processed { result: Err(reason), .. } => PacketAction::Return {
                    result: Err(QuicError::External { reason }),
                },
                PacketEvent::StreamsProcessed { result: Ok(_) } => PacketAction::Flush,
                PacketEvent::StreamsProcessed { result: Err(error) } => PacketAction::Return {
                    result: Err(error),
                },
                PacketEvent::Flushed { result } => PacketAction::Return { result },
            }),
    {
        match event {
            PacketEvent::Begin { packet, local } => {
                if self.client_addr != packet.from {
                    self.client_addr = packet.from;
                    self.migration_count = self.migration_count + 1;
                }
                match local {
                    Ok(to) => PacketAction::Process { data: packet.data, from: packet.from, to },
                    Err(reason) => PacketAction::Return {
                        result: Err(QuicError::External { reason }),
                    },
                }
            },
            PacketEvent::Processed { result, established } => match result {
                Ok(_) => {
                    if established {
                        PacketAction::ProcessStreams
                    } else {
                        PacketAction::Flush
                    }
                },
                Err(reason) => PacketAction::Return { result: Err(QuicError::External { reason }) },
            },
            PacketEvent::StreamsProcessed { result } => match result {
                Ok(_) => PacketAction::Flush,
                Err(error) => PacketAction::Return { result: Err(error) },
            },
            PacketEvent::Flushed { result } => PacketAction::Return { result },
        }
    }

    fn take_read(&mut self, stream_id: u64, read: StreamRead) -> (action: EchoAction)
        ensures
            final(self)@ == after_stream_read(old(self)@, stream_id, read),
            is_echo_step(old(self)@, stream_id, read, action),
            action is ReadAgain <==> (read matches StreamRead::Data { bytes, fin: false }
                && bytes@.len() > 0),
    {
        match read {
            StreamRead::Data { bytes, fin } => {
                self.stream_buffers.append(stream_id, bytes.as_slice());
                if fin {
                    match self.stream_buffers.text(stream_id) {
                        Some(message) => {
                            let echo = "Echo: ".to_owned().concat(message.as_str());
                            let response = slice_to_vec(echo.as_str().as_bytes());
                            self.responses.put(stream_id, slice_to_vec(response.as_slice()));
                            EchoAction::Respond { stream_id, response, fin: true }
                        },
                        None => EchoAction::NextStream,
                    }
                } else if bytes.len() > 0 {
                    EchoAction::ReadAgain
                } else {
                    EchoAction::NextStream
                }
            },
            StreamRead::Blocked => {
                self.stream_buffers.append(stream_id, &[]);
                EchoAction::NextStream
            },
            StreamRead::Failed { .. } => {
                self.stream_buffers.append(stream_id, &[]);
                EchoAction::NextStream
            },
        }
    }

    fn take_response(&mut self, stream_id: u64, written: usize)
        requires
            written <= unsent(old(self)@, stream_id).len(),
        ensures
            final(self)@ == after_response(old(self)@, stream_id, written as int),
    {
        let rest = self.responses.take(stream_id);
        if written < rest.len() {
            let left = slice_subrange(rest.as_slice(), written, rest.len());
            assert(left@ =~= rest@.skip(written as int));
            self.responses.put(stream_id, slice_to_vec(left));
            assert(self.responses@ =~= old(self)@.responses.insert(stream_id, left@));
        } else {
            let _ = self.stream_buffers.take(stream_id);
        }
    }

    /// Decides one step of processing the readable streams: each message is
    /// answered on its stream once the stream has ended. What the stream does
    /// not take of the answer is kept and offered when the stream has room; where
    /// it has no room for any of it at first, the round ends with an error.
    pub fn process_readable_streams(&mut self, event: EchoEvent) -> (action: EchoAction)
        requires
            event matches EchoEvent::Responded { stream_id, result: Ok(written) } ==> written
                <= unsent(old(self)@, stream_id).len(),
        ensures
            final(self)@ == after_echo_event(old(self)@, event),
            event is Read ==> (action is ReadAgain <==> (event matches EchoEvent::Read {
                read: StreamRead::Data { bytes, fin: false },
                ..
            } && bytes@.len() > 0)),
            match event {
                EchoEvent::Read { stream_id, read } => is_echo_step(
                    old(self)@,
                    stream_id,
                    read,
                    action,
                ),
                EchoEvent::Writable { stream_id } => if old(self)@.responses.contains_key(
                    stream_id,
                ) {
                    resumes_response(old(self)@, stream_id, action)
                } else {
                    action == EchoAction::NextStream
                },
                EchoEvent::Responded { result: Ok(_), .. } => action == EchoAction::NextStream,
                EchoEvent::Responded { result: Err(reason), .. } => action == (
                EchoAction::Return { result: Err(QuicError::External { reason }) }),
                EchoEvent::Blocked { reason, .. } => action == (EchoAction::Return {
                    result: Err(QuicError::External { reason }),
                }),
                EchoEvent::StillBlocked { .. } => action == EchoAction::NextStream,
                EchoEvent::StreamsRead => action == (EchoAction::Return { result: Ok(()) }),
            },
    {
        match event {
            EchoEvent::Read { stream_id, read } => self.take_read(stream_id, read),
            EchoEvent::Writable { stream_id } => match self.responses.get(stream_id) {
                Some(rest) => EchoAction::Resume { stream_id, rest, fin: true },
                None => EchoAction::NextStream,
            },
            EchoEvent::Responded { stream_id, result } => match result {
                Ok(written) => {
                    self.take_response(stream_id, written);
                    EchoAction::NextStream
                },
                Err(reason) => {
                    let _ = self.responses.take(stream_id);
                    EchoAction::Return { result: Err(QuicError::External { reason }) }
                },
            },
            EchoEvent::Blocked { reason, .. } => EchoAction::Return {
                result: Err(QuicError::External { reason }),
            },
            EchoEvent::StillBlocked { .. } => EchoAction::NextStream,
            EchoEvent::StreamsRead => EchoAction::Return { result: Ok(()) },
        }
    }
}

/// What happened in the loop of the server.
#[derive(Debug)]
pub enum ServerEvent {
    /// The socket failed.
    ReceiveFailed { reason: String },
    /// A datagram arrived.
    Datagram { packet: UdpPacket },
    /// A packet was forwarded to the handler of a connection.
    Forwarded { conn_id: Vec<u8>, delivered: bool },
    /// The new connection was set up, or could not be set up.
    NewConnectionDone,
}

/// What to do next in the loop of the server.
#[derive(Debug)]
pub enum ServerAction {
    /// Wait for a datagram.
    Wait,
    /// Forward the packet to the handler of the connection.
    Forward { conn_id: Vec<u8>, packet: UdpPacket },
    /// Set up a new connection that begins with the packet.
    NewConnection { dcid: Vec<u8>, packet: UdpPacket },
    /// Stop.
    Return { result: Result<(), QuicError> },
}

/// A new connection that is being set up.
#[derive(Debug)]
pub struct SetupTask {
    /// Where the first packet came from.
    pub from: Address,
    /// The first packet, until it is delivered.
    pub initial: Option<UdpPacket>,
    /// The connection ID of this side.
    pub scid: Vec<u8>,
}

impl SetupTask {
    /// The setup of a connection that begins with `packet`.
    pub fn new(packet: UdpPacket) -> (task: Self)
        ensures
            task.from == packet.from,
            task.initial == Some(packet),
            task.scid@ == Seq::<u8>::empty(),
    {
        SetupTask { from: packet.from, initial: Some(packet), scid: Vec::new() }
    }
}

/// Whether `action` keeps to the connection that is set up: to its client, to its
/// connection ID and to its first packet, none of which a step changes but for
/// the choice of the ID and the delivery of the packet.
pub open spec fn keeps_to_connection(
    old_task: SetupTask,
    task: SetupTask,
    action: NewConnectionAction,
) -> bool {
    &&& task.from == old_task.from
    &&& task.scid@ == old_task.scid@ || action is Accept
    &&& task.initial == old_task.initial || action is DeliverInitial
    &&& action matches NewConnectionAction::Accept { scid, from } ==> scid@ == task.scid@ && from
        == task.from
    &&& action matches NewConnectionAction::DeliverInitial { conn_id, packet } ==> conn_id@
        == task.scid@ && old_task.initial == Some(packet) && task.initial is None
    &&& action matches NewConnectionAction::StartHandler { conn_id, handler } ==> conn_id@
        == task.scid@ && handler@.client_addr == task.from
}

/// What happened while a new connection is set up. `C` stands for the channel
/// to its handler.
#[derive(Debug)]
pub enum NewConnectionEvent<C> {
    /// The setup begins.
    Begin,
    /// The settings were taken in.
    Configured { result: Result<(), String> },
    /// The certificate exists.
    CertEnsured { result: Result<(), String> },
    /// The certificate and its key were loaded.
    CertLoaded { result: Result<(), String> },
    /// A connection ID was chosen for this side.
    IdChosen { scid: Vec<u8> },
    /// The connection was accepted.
    Accepted { result: Result<C, String> },
    /// The first packet was given to the handler.
    InitialDelivered { delivered: bool, now: Nanos },
    /// The handler was started.
    HandlerStarted,
}

/// What to do next while a new connection is set up.
#[derive(Debug)]
pub enum NewConnectionAction {
    /// Take in the settings.
    Configure { config: SimpleConfig },
    /// Make sure that a certificate for the domain exists.
    EnsureCert { domain: String },
    /// Load the certificate and its key.
    LoadCert { cert_file: String, key_file: String },
    /// Choose a random connection ID.
    ChooseId,
    /// Accept the connection from the client under the connection ID.
    Accept { scid: Vec<u8>, from: Address },
    /// Give the first packet to the handler of the connection.
    DeliverInitial { conn_id: Vec<u8>, packet: UdpPacket },
    /// Start the handler of the connection.
    StartHandler { conn_id: Vec<u8>, handler: ConnectionHandler },
    /// Stop.
    Return { result: Result<(), QuicError> },
}

/// The server, without its socket. `C` stands for the channel to the handler of
/// a connection.
pub struct SimpleQuicServer<C> {
    connections: ConnectionTable<C>,
}

impl<C> View for SimpleQuicServer<C> {
    type V = Map<Seq<u8>, C>;

    closed spec fn view(&self) -> Map<Seq<u8>, C> {
        self.connections@
    }
}

/// What a server does with a datagram that has the given header: one for a known
/// connection is forwarded, one that begins a connection sets it up, any other
/// is ignored.
pub open spec fn routed<C>(
    connections: Map<Seq<u8>, C>,
    header: Option<PacketHeader>,
    packet: UdpPacket,
) -> ServerAction {
    match header {
        Some(header) => if connections.contains_key(header.dcid@) {
            ServerAction::Forward { conn_id: header.dcid, packet }
        } else if header.ty == PacketType::Initial {
            ServerAction::NewConnection { dcid: header.dcid, packet }
        } else {
            ServerAction::Wait
        },
        None => ServerAction::Wait,
    }
}

/// Whether `action` is what a server does with a datagram: one that is
/// addressed to a known connection is forwarded, one of the kind Initial that is
/// not sets up a connection, any other is ignored.
pub open spec fn is_routed<C>(
    connections: Map<Seq<u8>, C>,
    packet: UdpPacket,
    action: ServerAction,
) -> bool {
    let dcid = crate::header::addressee(packet.data@);
    if !crate::header::has_header(packet.data@) {
        action == ServerAction::Wait
    } else if connections.contains_key(dcid) {
        action matches ServerAction::Forward { conn_id, packet: forwarded } && conn_id@ == dcid
            && forwarded == packet
    } else if crate::header::header_type(packet.data@) == PacketType::Initial {
        action matches ServerAction::NewConnection { dcid: id, packet: initial } && id@ == dcid
            && initial == packet
    } else {
        action == ServerAction::Wait
    }
}

impl<C> SimpleQuicServer<C> {
    /// No connection ID stands for two connections.
    pub closed spec fn wf(&self) -> bool {
        self.connections.wf()
    }

    /// A server without connections.
    pub fn new() -> (server: Self)
        ensures
            server.wf(),
            server@ == Map::<Seq<u8>, C>::empty(),
    {
        SimpleQuicServer { connections: ConnectionTable::new() }
    }

    /// Returns the channel to the handler of a connection.
    pub fn connection(&self, conn_id: &[u8]) -> (channel: Option<&C>)
        requires
            self.wf(),
        ensures
            match channel {
                Some(channel) => self@.contains_key(conn_id@) && *channel == self@[conn_id@],
                None => !self@.contains_key(conn_id@),
            },
    {
        self.connections.get(conn_id)
    }

    /// Decides what to do with a datagram that has the given header.
    pub fn route(&self, header: Option<PacketHeader>, packet: UdpPacket) -> (action: ServerAction)
        requires
            self.wf(),
        ensures
            action == routed(self@, header, packet),
    {
        match header {
            Some(header) => {
                if self.connections.get(header.dcid.as_slice()).is_some() {
                    ServerAction::Forward { conn_id: header.dcid, packet }
                } else if header.ty == PacketType::Initial {
                    ServerAction::NewConnection { dcid: header.dcid, packet }
                } else {
                    ServerAction::Wait
                }
            },
            None => ServerAction::Wait,
        }
    }

    /// Decides one step of the loop of the server. A connection whose handler
    /// does not take packets any more is forgotten.
    pub fn run(&mut self, event: ServerEvent) -> (action: ServerAction)
        requires
            old(self).wf(),
        ensures
            final(self).wf(),
            final(self)@ == (match event {
                ServerEvent::Forwarded { conn_id, delivered: false } => old(self)@.remove(conn_id@),
                _ => old(self)@,
            }),
            match event {
                ServerEvent::ReceiveFailed { reason } => action == (ServerAction::Return {
                    result: Err(QuicError::External { reason }),
                }),
                ServerEvent::Datagram { packet } => is_routed(old(self)@, packet, action),
                ServerEvent::Forwarded { .. } => action == ServerAction::Wait,
                ServerEvent::NewConnectionDone => action == ServerAction::Wait,
            },
            event matches ServerEvent::Datagram { packet } ==> (action
                matches ServerAction::NewConnection { dcid, packet: initial } ==> initial == packet
                && dcid@ == crate::header::addressee(packet.data@)),
            event matches ServerEvent::Datagram { packet } ==> (action
                matches ServerAction::Forward { conn_id, packet: forwarded } ==> forwarded == packet
                && conn_id@ == crate::header::addressee(packet.data@)),
    {
        match event {
            ServerEvent::ReceiveFailed { reason } => ServerAction::Return {
                result: Err(QuicError::External { reason }),
            },
            ServerEvent::Datagram { packet } => {
                let header = parse_header(packet.data.as_slice());
                self.route(header, packet)
            },
            ServerEvent::Forwarded { conn_id, delivered } => {
                if !delivered {
                    let _ = self.connections.remove(conn_id.as_slice());
                }
                ServerAction::Wait
            },
            ServerEvent::NewConnectionDone => ServerAction::Wait,
        }
    }

    /// Decides one step of setting up a new connection. The connection is known
    /// under the ID that this side chose as soon as it is accepted.
    pub fn handle_new_connection(
        &mut self,
        task: &mut SetupTask,
        event: NewConnectionEvent<C>,
    ) -> (action: NewConnectionAction)
        requires
            old(self).wf(),
            event is Accepted ==> old(task).initial is Some,
        ensures
            final(self).wf(),
            final(self)@ == (match event {
                NewConnectionEvent::Accepted { result: Ok(channel) } => old(self)@.insert(
                    old(task).scid@,
                    channel,
                ),
                _ => old(self)@,
            }),
            *final(task) == (match event {
                NewConnectionEvent::IdChosen { scid } => SetupTask { scid, ..*old(task) },
                NewConnectionEvent::Accepted { result: Ok(_) } => SetupTask {
                    initial: None,
                    ..*old(task)
                },
                _ => *old(task),
            }),
            match event {
                NewConnectionEvent::Begin => action matches NewConnectionAction::Configure {
                    config,
                } && config.is_simple(None),
                NewConnectionEvent::Configured { result: Ok(_) } => action
                    matches NewConnectionAction::EnsureCert { domain } && domain@ == "localhost"@,
                NewConnectionEvent::CertEnsured { result: Ok(_) } => action
                    matches NewConnectionAction::LoadCert { cert_file, key_file } && cert_file@
                    == CERT_FILE@ && key_file@ == KEY_FILE@,
                NewConnectionEvent::CertLoaded { result: Ok(_) } => action
                    == NewConnectionAction::ChooseId,
                NewConnectionEvent::IdChosen { scid } => action
                    matches NewConnectionAction::Accept { scid: id, from } && id@ == scid@ && from
                    == old(task).from,
                NewConnectionEvent::Accepted { result: Ok(_) } => action
                    matches NewConnectionAction::DeliverInitial { conn_id, packet } && conn_id@
                    == old(task).scid@ && Some(packet) == old(task).initial,
                NewConnectionEvent::Configured { result: Err(reason) } => action == (
                NewConnectionAction::Return { result: Err(QuicError::External { reason }) }),
                NewConnectionEvent::CertEnsured { result: Err(reason) } => action == (
                NewConnectionAction::Return { result: Err(QuicError::External { reason }) }),
                NewConnectionEvent::CertLoaded { result: Err(reason) } => action == (
                NewConnectionAction::Return { result: Err(QuicError::External { reason }) }),
                NewConnectionEvent::Accepted { result: Err(reason) } => action == (
                NewConnectionAction::Return { result: Err(QuicError::External { reason }) }),
                NewConnectionEvent::InitialDelivered { delivered, now } => if delivered {
                    action matches NewConnectionAction::StartHandler { conn_id, handler }
                        && conn_id@ == old(task).scid@ && handler@ == new_handler(
                        old(task).from,
                        now,
                    )
                } else {
                    action == (NewConnectionAction::Return {
                        result: Err(QuicError::InitialPacketNotDelivered),
                    })
                },
                NewConnectionEvent::HandlerStarted => action == (NewConnectionAction::Return {
                    result: Ok(()),
                }),
            },
            keeps_to_connection(*old(task), *final(task), action),
    {
        match event {
            NewConnectionEvent::Begin => NewConnectionAction::Configure {
                config: create_simple_config(),
            },
            NewConnectionEvent::Configured { result } => match result {
                Ok(_) => NewConnectionAction::EnsureCert { domain: "localhost".to_owned() },
                Err(reason) => NewConnectionAction::Return {
                    result: Err(QuicError::External { reason }),
                },
            },
            NewConnectionEvent::CertEnsured { result } => match result {
                Ok(_) => NewConnectionAction::LoadCert {
                    cert_file: CERT_FILE.to_owned(),
                    key_file: KEY_FILE.to_owned(),
                },
                Err(reason) => NewConnectionAction::Return {
                    result: Err(QuicError::External { reason }),
                },
            },
            NewConnectionEvent::CertLoaded { result } => match result {
                Ok(_) => NewConnectionAction::ChooseId,
                Err(reason) => NewConnectionAction::Return {
                    result: Err(QuicError::External { reason }),
                },
            },
            NewConnectionEvent::IdChosen { scid } => {
                let id = slice_to_vec(scid.as_slice());
                task.scid = scid;
                NewConnectionAction::Accept { scid: id, from: task.from }
            },
            NewConnectionEvent::Accepted { result } => match result {
                Ok(channel) => {
                    let conn_id = slice_to_vec(task.scid.as_slice());
                    self.connections.insert(slice_to_vec(task.scid.as_slice()), channel);
                    let packet = task.initial.take().unwrap();
                    NewConnectionAction::DeliverInitial { conn_id, packet }
                },
                Err(reason) => NewConnectionAction::Return {
                    result: Err(QuicError::External { reason }),
                },
            },
            NewConnectionEvent::InitialDelivered { delivered, now } => {
                if delivered {
                    NewConnectionAction::StartHandler {
                        conn_id: slice_to_vec(task.scid.as_slice()),
                        handler: ConnectionHandler::new(task.from, now),
                    }
                } else {
                    NewConnectionAction::Return {
                        result: Err(QuicError::InitialPacketNotDelivered),
                    }
                }
            },
            NewConnectionEvent::HandlerStarted => NewConnectionAction::Return { result: Ok(()) },
        }
    }

    /// Forgets the connection that is known under the ID `scid`, after its
    /// handler has ended.
    pub fn connection_ended(&mut self, scid: &[u8])
        requires
            old(self).wf(),
        ensures
            final(self).wf(),
            final(self)@ == old(self)@.remove(scid@),
    {
        let _ = self.connections.remove(scid);
    }
}

/// A file that is to be written.
#[derive(Debug)]
pub struct TestFile {
    /// The name of the file.
    pub name: String,
    /// What the file is to hold.
    pub contents: String,
}

/// Whether `files` are the file of a test certificate for `domain` and, after
/// it, the file of its private key.
pub open spec fn are_cert_files(files: Seq<TestFile>, domain: Seq<char>) -> bool {
    &&& files.len() == 2
    &&& files[0].name@ == CERT_FILE@
    &&& files[1].name@ == KEY_FILE@
    &&& crate::cert::is_test_cert(files[0].contents@, files[1].contents@, domain)
}

/// Whether `files` are what is to be written of what was made: the certificate
/// and, after it, its key; or the error where nothing was made.
pub open spec fn are_files_of(
    files: Result<Vec<TestFile>, CertError>,
    made: Result<(String, String), CertError>,
) -> bool {
    match made {
        Ok((cert_pem, key_pem)) => {
            &&& files matches Ok(files)
            &&& files@.len() == 2
            &&& files@[0].name@ == CERT_FILE@
            &&& files@[0].contents == cert_pem
            &&& files@[1].name@ == KEY_FILE@
            &&& files@[1].contents == key_pem
        },
        Err(error) => files == Err::<Vec<TestFile>, CertError>(error),
    }
}

/// Whether `files` are what is to be written of what came of making a test
/// certificate for `domain` at the time that `clock` shows.
pub open spec fn are_files_at(
    domain: Seq<char>,
    clock: crate::cert::ClockReading,
    made: Result<(String, String), CertError>,
    files: Result<Vec<TestFile>, CertError>,
) -> bool {
    crate::cert::is_outcome_at(domain, clock, made) && are_files_of(files, made)
}

/// Returns the files to write of what was made, in their order, or the error
/// where nothing was made.
pub fn cert_files(made: Result<(String, String), CertError>) -> (files: Result<
    Vec<TestFile>,
    CertError,
>)
    ensures
        are_files_of(files, made),
{
    match made {
        Ok((cert_pem, key_pem)) => {
            let mut files: Vec<TestFile> = Vec::new();
            files.push(TestFile { name: CERT_FILE.to_owned(), contents: cert_pem });
            files.push(TestFile { name: KEY_FILE.to_owned(), contents: key_pem });
            Ok(files)
        },
        Err(error) => Err(error),
    }
}

/// Makes a test certificate for `domain` and returns the files to write, in
/// their order.
pub fn generate_test_cert_for_domain(domain: &str) -> (files: Result<Vec<TestFile>, CertError>)
    requires
        vstd::utf8::is_ascii_chars(domain@),
    ensures
        files matches Ok(files) ==> are_cert_files(files@, domain@),
        exists|clock: crate::cert::ClockReading, made: Result<(String, String), CertError>|
            #[trigger] are_files_at(domain@, clock, made, files),
{
    let made = generate_cert_and_key_for_domain(domain);
    let ghost outcome = made;
    let files = cert_files(made);
    proof {
        let clock = choose|clock: crate::cert::ClockReading| #[trigger]
            crate::cert::is_outcome_at(domain@, clock, outcome);
        assert(are_files_at(domain@, clock, outcome, files));
    }
    files
}

/// Returns the files to write so that a test certificate and its key exist:
/// none where both exist already.
pub fn ensure_test_cert_exists(domain: &str, cert_exists: bool, key_exists: bool) -> (files: Result<
    Vec<TestFile>,
    CertError,
>)
    requires
        cert_exists && key_exists || vstd::utf8::is_ascii_chars(domain@),
    ensures
        cert_exists && key_exists ==> (files matches Ok(files) && files@.len() == 0),
        !(cert_exists && key_exists) ==> (files matches Ok(files) ==> are_cert_files(
            files@,
            domain@,
        )),
        !(cert_exists && key_exists) ==> exists|
            clock: crate::cert::ClockReading,
            made: Result<(String, String), CertError>,
        | #[trigger] are_files_at(domain@, clock, made, files),
{
    if cert_exists && key_exists {
        return Ok(Vec::new());
    }
    generate_test_cert_for_domain(domain)
}

/// The state of a handler after packets from the given addresses.
pub open spec fn after_packets_from(state: HandlerState, froms: Seq<Address>) -> HandlerState
    decreases froms.len(),
{
    if froms.len() == 0 {
        state
    } else {
        after_packet_from(after_packets_from(state, froms.drop_last()), froms.last())
    }
}

/// How often the address changes in `addresses`.
pub open spec fn changes(addresses: Seq<Address>) -> nat
    decreases addresses.len(),
{
    if addresses.len() <= 1 {
        0
    } else {
        let before = addresses.drop_last();
        changes(before) + if before.last() != addresses.last() {
            1nat
        } else {
            0nat
        }
    }
}

/// A handler follows its client: it knows the address of the last packet and
/// has counted each change of the address, and nothing else has changed.
pub proof fn law_migrations_are_counted(state: HandlerState, froms: Seq<Address>)
    requires
        state.migration_count + changes(seq![state.client_addr] + froms) <= u32::MAX,
    ensures
        ({
            let addresses = seq![state.client_addr] + froms;
            let after = after_packets_from(state, froms);
            &&& after.client_addr == addresses.last()
            &&& after.migration_count == state.migration_count + changes(addresses)
            &&& after.stream_buffers == state.stream_buffers
            &&& after.responses == state.responses
            &&& after.started == state.started
        }),
    decreases froms.len(),
{
    let addresses = seq![state.client_addr] + froms;
    if froms.len() > 0 {
        let before = froms.drop_last();
        assert(addresses.drop_last() =~= seq![state.client_addr] + before);
        assert(addresses.last() == froms.last());
        law_migrations_are_counted(state, before);
    }
}

/// The state of a handler after `events`.
pub open spec fn after_echo_events(state: HandlerState, events: Seq<EchoEvent>) -> HandlerState
    decreases events.len(),
{
    if events.len() == 0 {
        state
    } else {
        after_echo_event(after_echo_events(state, events.drop_last()), events.last())
    }
}

/// The bytes that `events` gave of stream `id`, in their order.
pub open spec fn bytes_received(id: u64, events: Seq<EchoEvent>) -> Seq<u8>
    decreases events.len(),
{
    if events.len() == 0 {
        Seq::empty()
    } else {
        let before = bytes_received(id, events.drop_last());
        match events.last() {
            EchoEvent::Read { stream_id, read } => if stream_id == id {
                before + read.bytes()
            } else {
                before
            },
            _ => before,
        }
    }
}

/// Whether no event of `events` answers stream `id`.
pub open spec fn leaves_unanswered(id: u64, events: Seq<EchoEvent>) -> bool {
    forall|i: int|
        0 <= i < events.len() ==> !((#[trigger] events[i]) matches EchoEvent::Responded {
            stream_id,
            ..
        } && stream_id == id)
}

/// However the reads of a stream are cut and whatever other streams do between
/// them, the server holds the bytes of the stream in the order in which they
/// came until it has answered.
pub proof fn law_server_keeps_unanswered_bytes(
    state: HandlerState,
    id: u64,
    events: Seq<EchoEvent>,
)
    requires
        leaves_unanswered(id, events),
    ensures
        crate::streams::buffered(after_echo_events(state, events).stream_buffers, id)
            == crate::streams::buffered(state.stream_buffers, id) + bytes_received(id, events),
    decreases events.len(),
{
    let start = crate::streams::buffered(state.stream_buffers, id);
    if events.len() == 0 {
        assert(start + Seq::<u8>::empty() =~= start);
    } else {
        let before = events.drop_last();
        assert(leaves_unanswered(id, before)) by {
            assert forall|i: int| 0 <= i < before.len() implies !((#[trigger] before[i])
                matches EchoEvent::Responded { stream_id, .. } && stream_id == id) by {
                assert(before[i] == events[i]);
            }
        }
        law_server_keeps_unanswered_bytes(state, id, before);
        assert(events.last() == events[events.len() - 1]);
        if let EchoEvent::Read { stream_id, read } = events.last() {
            if stream_id == id {
                assert(start + bytes_received(id, before) + read.bytes() =~= start + (
                bytes_received(id, before) + read.bytes()));
            }
        }
    }
}

/// A stream is read on while it gives bytes: each read that gave at least one
/// byte and did not end the stream, and no other, is followed by another read of
/// the same stream. A stream is left only when a read gave no bytes, and a
/// message is answered when its stream has ended and not before.
pub proof fn law_stream_is_read_while_it_gives_bytes(
    state: HandlerState,
    id: u64,
    read: StreamRead,
    action: EchoAction,
)
    requires
        is_echo_step(state, id, read, action),
    ensures
        action is ReadAgain <==> (read matches StreamRead::Data { bytes, fin: false }
            && bytes@.len() > 0),
        action is NextStream ==> (read matches StreamRead::Data { bytes, .. } ==> bytes@.len()
            == 0),
        action matches EchoAction::Respond { stream_id, fin, .. } ==> stream_id == id && fin && (
        read matches StreamRead::Data { fin: true, .. }),
        (read matches StreamRead::Data { bytes, fin: true } && bytes@.len() > 0) ==> action
            is Respond,
        (read matches StreamRead::Data { fin: true, .. } && state.stream_buffers.contains_key(id)
            && state.stream_buffers[id].len() > 0) ==> action is Respond,
        !(action is Resume) && !(action is Return),
{
}

/// Whether `next` is an event that can come after `event` when the action that
/// was returned for it is obeyed.
pub open spec fn obeys(event: EchoEvent, action: EchoAction, next: EchoEvent) -> bool {
    match action {
        EchoAction::ReadAgain => event matches EchoEvent::Read { stream_id, .. } && (next
            matches EchoEvent::Read { stream_id: same, .. } && same == stream_id),
        EchoAction::NextStream => next is Read || next is Writable || next is StreamsRead,
        EchoAction::Respond { .. } => next is Responded || next is Blocked,
        EchoAction::Resume { .. } => next is Responded || next is StillBlocked,
        EchoAction::Return { .. } => false,
    }
}

/// A stream is not left early: in a round in which every action that is returned
/// is obeyed, each read of a stream is followed by further reads of it until one
/// ends the stream, gives no bytes or fails. Returns which read that is. Where it
/// ends a message that is not empty, it is answered.
pub proof fn law_stream_is_not_left_early(
    states: Seq<HandlerState>,
    events: Seq<EchoEvent>,
    actions: Seq<EchoAction>,
    i: int,
    id: u64,
) -> (last: int)
    requires
        states.len() == events.len() == actions.len(),
        forall|k: int|
            0 <= k < events.len() ==> ((#[trigger] events[k]) matches EchoEvent::Read {
                stream_id,
                read,
            } ==> is_echo_step(states[k], stream_id, read, actions[k])),
        forall|k: int|
            0 <= k < events.len() - 1 ==> obeys(events[k], #[trigger] actions[k], events[k + 1]),
        0 <= i < events.len(),
        !(actions.last() is ReadAgain),
        events[i] matches EchoEvent::Read { stream_id, .. } && stream_id == id,
    ensures
        i <= last < events.len(),
        forall|k: int|
            i <= k <= last ==> ((#[trigger] events[k]) matches EchoEvent::Read { stream_id, .. }
                && stream_id == id),
        forall|k: int|
            i <= k < last ==> ((#[trigger] events[k]) matches EchoEvent::Read {
                read: StreamRead::Data { bytes, fin: false },
                ..
            } && bytes@.len() > 0),
        events[last] matches EchoEvent::Read { read, .. } && (read matches StreamRead::Data {
            bytes,
            fin,
        } ==> fin || bytes@.len() == 0),
        (events[last] matches EchoEvent::Read {
            read: StreamRead::Data { bytes, fin: true },
            ..
        } && bytes@.len() > 0) ==> (actions[last] matches EchoAction::Respond { stream_id, .. }
            && stream_id == id),
    decreases events.len() - i,
{
    if actions[i] is ReadAgain {
        assert(actions.last() == actions[actions.len() - 1]);
        assert(obeys(events[i], actions[i], events[i + 1]));
        law_stream_is_not_left_early(states, events, actions, i + 1, id)
    } else {
        i
    }
}

/// The first `k` reads of stream `id`, which delivers `chunks`, as events.
pub open spec fn delivery_events(id: u64, chunks: Seq<Vec<u8>>, k: int) -> Seq<EchoEvent> {
    Seq::new(
        k as nat,
        |j: int| EchoEvent::Read { stream_id: id, read: crate::streams::delivery(chunks, j) },
    )
}

proof fn lemma_delivery_events_join(id: u64, chunks: Seq<Vec<u8>>, k: int)
    requires
        0 <= k < chunks.len(),
    ensures
        bytes_received(id, delivery_events(id, chunks, k)) == crate::streams::joined(
            chunks.take(k),
        ),
    decreases k,
{
    if k > 0 {
        lemma_delivery_events_join(id, chunks, k - 1);
        assert(delivery_events(id, chunks, k).drop_last() =~= delivery_events(id, chunks, k - 1));
        assert(chunks.take(k).drop_last() =~= chunks.take(k - 1));
    }
}

/// A message that can be read to its end in one round is answered in that round,
/// whole: while the actions that are returned are obeyed, a stream that delivers
/// `chunks` is read as often as there are chunks, and the last action answers
/// with `Echo: ` and the text of all of them, after what had arrived before.
///
/// `actions` are the actions that were returned; the stream is left at the first
/// that does not ask for another read.
pub proof fn law_round_answers_the_message(
    state: HandlerState,
    id: u64,
    chunks: Seq<Vec<u8>>,
    actions: Seq<EchoAction>,
)
    requires
        crate::streams::can_be_delivered(chunks),
        (crate::streams::buffered(state.stream_buffers, id) + crate::streams::joined(chunks)).len()
            > 0,
        0 < actions.len() <= chunks.len(),
        forall|k: int|
            0 <= k < actions.len() ==> is_echo_step(
                after_echo_events(state, delivery_events(id, chunks, k)),
                id,
                crate::streams::delivery(chunks, k),
                #[trigger] actions[k],
            ),
        actions.len() == chunks.len() || !(actions.last() is ReadAgain),
    ensures
        actions.len() == chunks.len(),
        forall|k: int| 0 <= k < actions.len() - 1 ==> (#[trigger] actions[k]) is ReadAgain,
        actions.last() matches EchoAction::Respond { stream_id, response, fin } && stream_id == id
            && fin && response@ == vstd::utf8::encode_utf8(
            "Echo: "@ + crate::text::lossy_text(
                crate::streams::buffered(state.stream_buffers, id) + crate::streams::joined(chunks),
            ),
        ),
{
    assert forall|k: int| 0 <= k < actions.len() && k < chunks.len() - 1 implies (
    #[trigger] actions[k]) is ReadAgain by {
        assert(chunks[k]@.len() > 0);
    }
    assert(actions.last() == actions[actions.len() - 1]);
    let n = chunks.len() - 1;
    let events = delivery_events(id, chunks, n);
    assert(leaves_unanswered(id, events)) by {
        assert forall|i: int| 0 <= i < events.len() implies !((#[trigger] events[i])
            matches EchoEvent::Responded { stream_id, .. } && stream_id == id) by {}
    }
    law_server_keeps_unanswered_bytes(state, id, events);
    lemma_delivery_events_join(id, chunks, n);
    assert(chunks.take(n) =~= chunks.drop_last());
    let start = crate::streams::buffered(state.stream_buffers, id);
    assert(start + crate::streams::joined(chunks.drop_last()) + chunks.last()@ =~= start
        + crate::streams::joined(chunks));
}

/// A read changes nothing but its own stream: its bytes are kept, and a response
/// becomes due only at the end of a message that is not empty, when it is the
/// response to the whole message.
pub proof fn law_read_touches_only_its_stream(
    state: HandlerState,
    id: u64,
    read: StreamRead,
    other: u64,
)
    requires
        other != id,
    ensures
        ({
            let after = after_stream_read(state, id, read);
            let ended = (read matches StreamRead::Data { fin: true, .. })
                && after.stream_buffers[id].len() > 0;
            &&& after.client_addr == state.client_addr
            &&& after.migration_count == state.migration_count
            &&& after.started == state.started
            &&& after.stream_buffers.contains_key(other) <==> state.stream_buffers.contains_key(
                other,
            )
            &&& state.stream_buffers.contains_key(other) ==> after.stream_buffers[other]
                == state.stream_buffers[other]
            &&& after.responses.contains_key(other) <==> state.responses.contains_key(other)
            &&& state.responses.contains_key(other) ==> after.responses[other]
                == state.responses[other]
            &&& ended ==> after.responses.contains_key(id) && after.responses[id]
                == vstd::utf8::encode_utf8(
                "Echo: "@ + crate::text::lossy_text(after.stream_buffers[id]),
            )
            &&& !ended ==> after.responses == state.responses
        }),
{
}

/// What a stream takes of its response is gone, the rest is kept in its order,
/// byte for byte, and nothing else changes; the message itself is kept until the
/// last byte is taken.
pub proof fn law_rest_of_response_is_kept(state: HandlerState, id: u64, written: int, other: u64)
    requires
        state.responses.contains_key(id),
        0 <= written <= state.responses[id].len(),
        other != id,
    ensures
        ({
            let rest = state.responses[id];
            let after = after_response(state, id, written);
            &&& written < rest.len() ==> {
                &&& after.responses.contains_key(id)
                &&& after.responses[id].len() == rest.len() - written
                &&& forall|i: int|
                    0 <= i < rest.len() - written ==> #[trigger] after.responses[id][i]
                        == rest[written + i]
                &&& after.stream_buffers == state.stream_buffers
            }
            &&& written == rest.len() ==> !after.responses.contains_key(id)
                && !after.stream_buffers.contains_key(id)
            &&& after.client_addr == state.client_addr
            &&& after.migration_count == state.migration_count
            &&& after.started == state.started
            &&& after.responses.contains_key(other) <==> state.responses.contains_key(other)
            &&& state.responses.contains_key(other) ==> after.responses[other]
                == state.responses[other]
            &&& after.stream_buffers.contains_key(other) <==> state.stream_buffers.contains_key(
                other,
            )
            &&& state.stream_buffers.contains_key(other) ==> after.stream_buffers[other]
                == state.stream_buffers[other]
        }),
{
}

/// Nothing of a response is lost while its stream has no room, and a response
/// that failed is not offered again; the messages stay as they are.
pub proof fn law_waiting_loses_nothing(
    state: HandlerState,
    id: u64,
    reason: String,
    other: u64,
)
    requires
        other != id,
    ensures
        after_echo_event(state, EchoEvent::Blocked { stream_id: id, reason }) == state,
        after_echo_event(state, EchoEvent::StillBlocked { stream_id: id }) == state,
        after_echo_event(state, EchoEvent::Writable { stream_id: id }) == state,
        after_echo_event(state, EchoEvent::StreamsRead) == state,
        ({
            let after = after_echo_event(
                state,
                EchoEvent::Responded { stream_id: id, result: Err(reason) },
            );
            &&& !after.responses.contains_key(id)
            &&& after.stream_buffers == state.stream_buffers
            &&& after.responses.contains_key(other) <==> state.responses.contains_key(other)
            &&& state.responses.contains_key(other) ==> after.responses[other]
                == state.responses[other]
        }),
{
}

/// What is offered to a stream that has room again is exactly what it has not
/// taken, with the end of the stream.
pub proof fn law_whole_rest_is_offered(state: HandlerState, id: u64, action: EchoAction)
    requires
        state.responses.contains_key(id),
        resumes_response(state, id, action),
    ensures
        action matches EchoAction::Resume { stream_id, rest, fin } && stream_id == id && rest@
            == state.responses[id] && fin,
{
}

/// A new handler knows its client and when it started, and nothing else; its
/// connection has 60 seconds to be established, whatever happens meanwhile.
pub proof fn law_new_handler_has_sixty_seconds(
    client_addr: Address,
    started: Nanos,
    events: Seq<EchoEvent>,
    froms: Seq<Address>,
    now: Nanos,
)
    ensures
        ({
            let new = new_handler(client_addr, started);
            &&& new.client_addr == client_addr
            &&& new.migration_count == 0
            &&& forall|id: u64|
                !(#[trigger] new.stream_buffers.contains_key(id)) && !new.responses.contains_key(id)
            &&& new.setup_is_over(now) <==> started + 60_000_000_000 <= now
            &&& after_echo_events(new, events).setup_is_over(now) == new.setup_is_over(now)
            &&& after_packets_from(new, froms).setup_is_over(now) == new.setup_is_over(now)
        }),
{
    let new = new_handler(client_addr, started);
    lemma_events_keep_start(new, events);
    lemma_packets_keep_start(new, froms);
}

/// The time for the setup is over exactly when 60 seconds have passed since the
/// handler started, whatever else it knows.
pub proof fn law_setup_takes_sixty_seconds(state: HandlerState, now: Nanos)
    ensures
        state.setup_is_over(now) <==> state.started + 60_000_000_000 <= now,
{
}

proof fn lemma_events_keep_start(state: HandlerState, events: Seq<EchoEvent>)
    ensures
        after_echo_events(state, events).started == state.started,
    decreases events.len(),
{
    if events.len() > 0 {
        lemma_events_keep_start(state, events.drop_last());
    }
}

proof fn lemma_packets_keep_start(state: HandlerState, froms: Seq<Address>)
    ensures
        after_packets_from(state, froms).started == state.started,
    decreases froms.len(),
{
    if froms.len() > 0 {
        lemma_packets_keep_start(state, froms.drop_last());
    }
}

/// The bytes that stream `id` took in the course of `events`: of each offer of
/// what was left, as many as the event tells.
pub open spec fn bytes_taken(state: HandlerState, id: u64, events: Seq<EchoEvent>) -> Seq<u8>
    decreases events.len(),
{
    if events.len() == 0 {
        Seq::empty()
    } else {
        let before = bytes_taken(state, id, events.drop_last());
        match events.last() {
            EchoEvent::Responded { stream_id, result: Ok(written) } => if stream_id == id {
                before + unsent(after_echo_events(state, events.drop_last()), id).take(
                    written as int,
                )
            } else {
                before
            },
            _ => before,
        }
    }
}

/// Whether the `i`-th of `events` may befall a response on stream `id` that goes
/// well: the stream is not ended anew and takes no more than it is offered, and
/// the response does not fail.
pub open spec fn goes_well(state: HandlerState, id: u64, events: Seq<EchoEvent>, i: int) -> bool {
    match events[i] {
        EchoEvent::Read { stream_id, read } => stream_id == id ==> !read.ends_stream(),
        EchoEvent::Responded { stream_id, result } => stream_id == id ==> (result matches Ok(
            written,
        ) && written <= unsent(after_echo_events(state, events.take(i)), id).len()),
        _ => true,
    }
}

/// However little of a response the stream takes at once and whatever other
/// streams do meanwhile, what the stream has taken and what is kept for it make
/// up the response: nothing is lost and nothing is sent twice. When nothing is
/// kept any more, the stream has taken all of it.
pub proof fn law_response_is_sent_whole(state: HandlerState, id: u64, events: Seq<EchoEvent>)
    requires
        forall|i: int| 0 <= i < events.len() ==> #[trigger] goes_well(state, id, events, i),
    ensures
        bytes_taken(state, id, events) + unsent(after_echo_events(state, events), id) == unsent(
            state,
            id,
        ),
        !after_echo_events(state, events).responses.contains_key(id) ==> bytes_taken(
            state,
            id,
            events,
        ) == unsent(state, id),
    decreases events.len(),
{
    let all = unsent(state, id);
    if events.len() == 0 {
        assert(Seq::<u8>::empty() + all =~= all);
    } else {
        let before = events.drop_last();
        assert forall|i: int| 0 <= i < before.len() implies #[trigger] goes_well(
            state,
            id,
            before,
            i,
        ) by {
            assert(goes_well(state, id, events, i));
            assert(before.take(i) =~= events.take(i));
        }
        law_response_is_sent_whole(state, id, before);
        assert(goes_well(state, id, events, events.len() - 1));
        assert(events.take(events.len() - 1) =~= before);
        let rest = unsent(after_echo_events(state, before), id);
        if let EchoEvent::Responded { stream_id, result: Ok(written) } = events.last() {
            if stream_id == id {
                assert(bytes_taken(state, id, before) + rest.take(written as int) + rest.skip(
                    written as int,
                ) =~= all);
                assert(rest.skip(rest.len() as int) =~= Seq::<u8>::empty());
            }
        }
    }
    assert(bytes_taken(state, id, events) + Seq::<u8>::empty() =~= bytes_taken(state, id, events));
}

/// The answer to a message that is text is the text after `Echo: `.
pub proof fn law_text_is_echoed(message: Seq<char>)
    ensures
        echo_of(vstd::utf8::encode_utf8(message)) == "Echo: "@ + message,
{
    crate::text::law_encoded_text_is_read_back(message);
}

/// Once the stream has taken the last byte of an answer, nothing of the message
/// and of the answer is left, and no other stream is touched.
pub proof fn law_answered_message_leaves_no_buffer(
    state: HandlerState,
    id: u64,
    written: usize,
    other: u64,
)
    requires
        written == unsent(state, id).len(),
        other != id,
    ensures
        ({
            let after = after_echo_event(
                state,
                EchoEvent::Responded { stream_id: id, result: Ok(written) },
            );
            &&& !after.stream_buffers.contains_key(id)
            &&& !after.responses.contains_key(id)
            &&& crate::streams::buffered(after.stream_buffers, other) == crate::streams::buffered(
                state.stream_buffers,
                other,
            )
            &&& unsent(after, other) == unsent(state, other)
        }),
{
}

/// A connection that was accepted under the ID `scid` gets every packet that is
/// addressed to `scid`, and the packets of other connections go where they went
/// before.
pub proof fn law_accepted_connection_gets_its_packets<C>(
    connections: Map<Seq<u8>, C>,
    scid: Seq<u8>,
    channel: C,
    packet: UdpPacket,
    action: ServerAction,
)
    requires
        crate::header::has_header(packet.data@),
        is_routed(connections.insert(scid, channel), packet, action),
    ensures
        ({
            let dcid = crate::header::addressee(packet.data@);
            let after = connections.insert(scid, channel);
            if dcid == scid {
                &&& action matches ServerAction::Forward { conn_id, packet: forwarded }
                &&& after[conn_id@] == channel
                &&& forwarded == packet
            } else {
                &&& is_routed(connections, packet, action)
                &&& connections.contains_key(dcid) ==> after[dcid] == connections[dcid]
            }
        }),
{
}

/// A datagram is handed on as it arrived, with its bytes and its sender, under
/// the connection ID that it is addressed to: to the handler of that connection
/// where there is one, and else to the setup of a new connection. One that is
/// handed on to nobody is ignored.
pub proof fn law_datagram_is_handed_on_as_it_arrived<C>(
    connections: Map<Seq<u8>, C>,
    packet: UdpPacket,
    action: ServerAction,
)
    requires
        is_routed(connections, packet, action),
    ensures
        action matches ServerAction::NewConnection { dcid, packet: initial } ==> initial == packet
            && initial.from == packet.from && initial.data@ == packet.data@ && dcid@
            == crate::header::addressee(packet.data@),
        action matches ServerAction::Forward { conn_id, packet: forwarded } ==> forwarded == packet
            && forwarded.from == packet.from && forwarded.data@ == packet.data@ && conn_id@
            == crate::header::addressee(packet.data@),
        action is Forward <==> crate::header::has_header(packet.data@) && connections.contains_key(
            crate::header::addressee(packet.data@),
        ),
        !(action is Return),
{
}

/// The same of a datagram whose header has been read: it is handed on as it
/// arrived, under the connection ID of the header, exactly where the connection
/// is known or where it begins one.
pub proof fn law_header_decides_where_a_datagram_goes<C>(
    connections: Map<Seq<u8>, C>,
    header: Option<PacketHeader>,
    packet: UdpPacket,
)
    ensures
        routed(connections, header, packet) matches ServerAction::NewConnection {
            dcid,
            packet: initial,
        } ==> initial.from == packet.from && initial.data == packet.data && (header matches Some(
            header,
        ) && dcid@ == header.dcid@),
        routed(connections, header, packet) matches ServerAction::Forward {
            conn_id,
            packet: forwarded,
        } ==> forwarded.from == packet.from && forwarded.data == packet.data && (header matches Some(
            header,
        ) && conn_id@ == header.dcid@),
        routed(connections, header, packet) is Forward <==> (header matches Some(header)
            && connections.contains_key(header.dcid@)),
        routed(connections, header, packet) is NewConnection <==> (header matches Some(header)
            && header.ty == PacketType::Initial && !connections.contains_key(header.dcid@)),
        !(routed(connections, header, packet) is Return),
{
}

/// The files hold exactly what was made: the certificate first, then the key,
/// and no files come of an error.
pub proof fn law_files_hold_what_was_made(
    files: Result<Vec<TestFile>, CertError>,
    made: Result<(String, String), CertError>,
)
    requires
        are_files_of(files, made),
    ensures
        files is Ok <==> made is Ok,
        made matches Ok((cert_pem, key_pem)) ==> (files matches Ok(files) && files@.len() == 2
            && files@[0].name@ == "cert.pem"@ && files@[0].contents@ == cert_pem@ && files@[1].name@
            == "key.pem"@ && files@[1].contents@ == key_pem@),
        made matches Err(error) ==> (files matches Err(told) && told == error),
{
}

/// The sender of the datagram that begins a connection is its client: throughout
/// the setup the connection is accepted from that sender and from no other, the
/// handler gets that datagram, once and as it arrived, and takes that sender for
/// its client.
pub proof fn law_sender_of_the_first_packet_is_the_client<C>(
    connections: Map<Seq<u8>, C>,
    packet: UdpPacket,
    routing: ServerAction,
    tasks: Seq<SetupTask>,
    actions: Seq<NewConnectionAction>,
    i: int,
)
    requires
        is_routed(connections, packet, routing),
        routing matches ServerAction::NewConnection { packet: initial, .. } && tasks[0].from
            == initial.from && tasks[0].initial == Some(initial),
        tasks.len() == actions.len() + 1,
        forall|k: int|
            0 <= k < actions.len() ==> keeps_to_connection(
                tasks[k],
                tasks[k + 1],
                #[trigger] actions[k],
            ),
        0 <= i < actions.len(),
    ensures
        actions[i] matches NewConnectionAction::Accept { from, .. } ==> from == packet.from,
        actions[i] matches NewConnectionAction::DeliverInitial { packet: delivered, .. }
            ==> delivered == packet && forall|k: int|
            0 <= k < i ==> !((#[trigger] actions[k]) is DeliverInitial),
        actions[i] matches NewConnectionAction::StartHandler { handler, .. }
            ==> handler@.client_addr == packet.from,
{
    lemma_setup_keeps_the_first_packet(packet, tasks, actions, i);
    assert(keeps_to_connection(tasks[i], tasks[i + 1], actions[i]));
    if actions[i] is DeliverInitial {
        assert forall|k: int| 0 <= k < i implies !((#[trigger] actions[k]) is DeliverInitial) by {
            if actions[k] is DeliverInitial {
                assert(keeps_to_connection(tasks[k], tasks[k + 1], actions[k]));
                lemma_delivered_packet_stays_away(tasks, actions, k + 1, i);
            }
        }
    }
}

proof fn lemma_setup_keeps_the_first_packet(
    packet: UdpPacket,
    tasks: Seq<SetupTask>,
    actions: Seq<NewConnectionAction>,
    i: int,
)
    requires
        tasks[0].from == packet.from,
        tasks[0].initial == Some(packet),
        forall|k: int|
            0 <= k < actions.len() ==> keeps_to_connection(
                tasks[k],
                tasks[k + 1],
                #[trigger] actions[k],
            ),
        0 <= i <= actions.len(),
    ensures
        tasks[i].from == packet.from,
        tasks[i].initial == Some(packet) || tasks[i].initial is None,
    decreases i,
{
    if i > 0 {
        lemma_setup_keeps_the_first_packet(packet, tasks, actions, i - 1);
        assert(keeps_to_connection(tasks[i - 1], tasks[i - 1 + 1], actions[i - 1]));
    }
}

proof fn lemma_delivered_packet_stays_away(
    tasks: Seq<SetupTask>,
    actions: Seq<NewConnectionAction>,
    j: int,
    i: int,
)
    requires
        0 <= j <= i <= actions.len(),
        tasks[j].initial is None,
        forall|k: int|
            0 <= k < actions.len() ==> keeps_to_connection(
                tasks[k],
                tasks[k + 1],
                #[trigger] actions[k],
            ),
    ensures
        tasks[i].initial is None,
    decreases i - j,
{
    if j < i {
        assert(keeps_to_connection(tasks[j], tasks[j + 1], actions[j]));
        lemma_delivered_packet_stays_away(tasks, actions, j + 1, i);
    }
}

/// A connection that was accepted under an ID and has ended leaves no trace: the
/// ID is unknown, every other connection is as it was, and the table is what it
/// was before where the ID was fresh.
pub proof fn law_ended_connection_is_forgotten<C>(
    connections: Map<Seq<u8>, C>,
    scid: Seq<u8>,
    channel: C,
    other: Seq<u8>,
)
    requires
        other != scid,
    ensures
        ({
            let after = connections.insert(scid, channel).remove(scid);
            &&& !after.contains_key(scid)
            &&& after.contains_key(other) <==> connections.contains_key(other)
            &&& connections.contains_key(other) ==> after[other] == connections[other]
            &&& !connections.contains_key(scid) ==> after == connections
        }),
{
    if !connections.contains_key(scid) {
        assert(connections.insert(scid, channel).remove(scid) =~= connections);
    }
}

/// Only a packet of the kind Initial begins a connection, and only one that is
/// addressed to no known connection.
pub proof fn law_only_initial_packets_begin_connections<C>(
    connections: Map<Seq<u8>, C>,
    packet: UdpPacket,
    action: ServerAction,
)
    requires
        is_routed(connections, packet, action),
    ensures
        action is NewConnection <==> {
            &&& crate::header::has_header(packet.data@)
            &&& crate::header::header_type(packet.data@) == PacketType::Initial
            &&& !connections.contains_key(crate::header::addressee(packet.data@))
        },
{
}

} // verus!
