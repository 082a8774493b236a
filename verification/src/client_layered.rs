//! The client in three layers that exchange messages: the application with the
//! terminal, QUIC with the connection, and UDP with the socket.

use vstd::prelude::*;
use vstd::slice::{slice_subrange, slice_to_vec};
use vstd::string::*;

use crate::client::{SendTask, FIRST_STREAM_ID, STREAM_ID_STEP};
use crate::connection::{client_setup, Address, ConnectionSetup, Nanos};
use crate::error::QuicError;
use crate::handshake::{self, HandshakeAction, HandshakeEvent};
use crate::input::{parse_line, Command};
use crate::streams::{ReadStep, StreamBuffers, StreamRead};

verus! {

/// After how long without activity the QUIC layer sends a PING frame.
pub const PING_AFTER: Nanos = 30_000_000_000;

/// What is shown when the application layer waits for a line.
pub const PROMPT: &'static str = "-> ";

/// How often the timers of the connection are served, in milliseconds.
pub const TIMER_INTERVAL_MS: u64 = 100;

/// The command line of the client.
#[derive(Debug)]
pub struct Args {
    /// Server address to connect to (IP:PORT or hostname:PORT)
    pub server: String,
}

impl Default for Args {
    fn default() -> (args: Args)
        ensures
            args.server@ == "127.0.0.1:8080"@,
    {
        Args { server: "127.0.0.1:8080".to_owned() }
    }
}

/// From the application layer to the QUIC layer.
#[derive(Debug)]
pub enum AppToQuicMessage {
    /// Send a message to the server.
    SendMessage { content: String },
    /// Close the connection.
    Shutdown,
}

/// From the QUIC layer to the application layer.
#[derive(Debug)]
pub enum QuicToAppMessage {
    /// A message from the server.
    MessageReceived { content: String },
    /// The connection was made or lost.
    ConnectionStatus { connected: bool },
    /// Something failed.
    Error { message: String },
}

/// From the QUIC layer to the UDP layer.
#[derive(Debug)]
pub struct QuicToUdpMessage {
    /// The packet to send.
    pub data: Vec<u8>,
    /// Where to send it.
    pub to: Address,
}

/// From the UDP layer to the QUIC layer.
#[derive(Debug)]
pub struct UdpToQuicMessage {
    /// The packet that arrived.
    pub data: Vec<u8>,
    /// Where it came from.
    pub from: Address,
    /// The local address at which it arrived.
    pub to: Address,
}

/// The application layer, without its channels.
pub struct AppLayer {
    quitting: bool,
}

/// What happened in the application layer.
#[derive(Debug)]
pub enum AppEvent {
    /// A line was typed.
    LineRead { line: String },
    /// The terminal could not be read.
    LineFailed,
    /// The message was given to the QUIC layer, or the QUIC layer is gone.
    Forwarded,
    /// The prompt was shown.
    Prompted { result: Result<(), String> },
    /// A message came from the QUIC layer; none comes any more where it is
    /// missing.
    FromQuic { message: Option<QuicToAppMessage> },
    /// The message from the server and a new prompt were shown.
    Shown { result: Result<(), String> },
    /// The report was shown.
    Reported,
}

/// What to do next in the application layer.
#[derive(Debug)]
pub enum AppAction {
    /// Wait for a line or for the QUIC layer.
    Wait,
    /// Give a message to the QUIC layer.
    Forward { message: AppToQuicMessage },
    /// Show the prompt.
    Prompt,
    /// Show a message from the server and a new prompt.
    Show { content: String },
    /// Report that the connection was made or lost.
    ReportStatus { connected: bool },
    /// Report an error.
    ReportError { message: String },
    /// Stop.
    Return { result: Result<(), QuicError> },
}

/// Whether the application layer obeys the typed `line`: it shuts the QUIC
/// layer down for the word `quit`, shows a new prompt for white space, and else
/// hands on the line without the white space around it.
pub open spec fn obeys_line(line: Seq<char>, action: AppAction) -> bool {
    let typed = crate::text::trimmed(line);
    if typed == "quit"@ {
        action == (AppAction::Forward { message: AppToQuicMessage::Shutdown })
    } else if typed.len() == 0 {
        action == AppAction::Prompt
    } else {
        action matches AppAction::Forward { message: AppToQuicMessage::SendMessage { content } }
            && content@ == typed
    }
}

impl AppLayer {
    /// Whether the user has asked to leave.
    pub closed spec fn is_quitting(&self) -> bool {
        self.quitting
    }

    /// An application layer.
    pub fn new() -> (layer: Self)
        ensures
            !layer.is_quitting(),
    {
        AppLayer { quitting: false }
    }

    /// Decides one step of the loop of the application layer. It ends after the
    /// user has asked to leave, and when the QUIC layer is gone.
    pub fn run(&mut self, event: AppEvent) -> (action: AppAction)
        ensures
            final(self).is_quitting() <==> old(self).is_quitting() || (event matches
                AppEvent::LineRead { line } && crate::text::trimmed(line@) == "quit"@),
            match event {
                AppEvent::LineRead { line } => obeys_line(line@, action),
                AppEvent::LineFailed => action == AppAction::Prompt,
                AppEvent::Forwarded => action == if old(self).is_quitting() {
                    AppAction::Return { result: Ok(()) }
                } else {
                    AppAction::Prompt
                },
                AppEvent::Prompted { result: Ok(_) } => action == AppAction::Wait,
                AppEvent::Prompted { result: Err(reason) } => action == (AppAction::Return {
                    result: Err(QuicError::External { reason }),
                }),
                AppEvent::FromQuic {
                    message: Some(QuicToAppMessage::MessageReceived { content }),
                } => action == (AppAction::Show { content }),
                AppEvent::FromQuic {
                    message: Some(QuicToAppMessage::ConnectionStatus { connected }),
                } => action == (AppAction::ReportStatus { connected }),
                AppEvent::FromQuic {
                    message: Some(QuicToAppMessage::Error { message }),
                } => action == (AppAction::ReportError { message }),
                AppEvent::FromQuic { message: None } => action == (AppAction::Return {
                    result: Ok(()),
                }),
                AppEvent::Shown { result: Ok(_) } => action == AppAction::Wait,
                AppEvent::Shown { result: Err(reason) } => action == (AppAction::Return {
                    result: Err(QuicError::External { reason }),
                }),
                AppEvent::Reported => action == AppAction::Wait,
            },
    {
        match event {
            AppEvent::LineRead { line } => match parse_line(line.as_str()) {
                Command::Quit => {
                    self.quitting = true;
                    AppAction::Forward { message: AppToQuicMessage::Shutdown }
                },
                Command::Blank => AppAction::Prompt,
                Command::Message { content } => AppAction::Forward {
                    message: AppToQuicMessage::SendMessage { content },
                },
            },
            AppEvent::LineFailed => AppAction::Prompt,
            AppEvent::Forwarded => {
                if self.quitting {
                    AppAction::Return { result: Ok(()) }
                } else {
                    AppAction::Prompt
                }
            },
            AppEvent::Prompted { result } => match result {
                Ok(_) => AppAction::Wait,
                Err(reason) => AppAction::Return { result: Err(QuicError::External { reason }) },
            },
            AppEvent::FromQuic { message } => match message {
                Some(QuicToAppMessage::MessageReceived { content }) => AppAction::Show { content },
                Some(QuicToAppMessage::ConnectionStatus { connected }) => AppAction::ReportStatus {
                    connected,
                },
                Some(QuicToAppMessage::Error { message }) => AppAction::ReportError { message },
                None => AppAction::Return { result: Ok(()) },
            },
            AppEvent::Shown { result } => match result {
                Ok(_) => AppAction::Wait,
                Err(reason) => AppAction::Return { result: Err(QuicError::External { reason }) },
            },
            AppEvent::Reported => AppAction::Wait,
        }
    }
}

/// The QUIC layer, without its channels and its connection.
pub struct QuicLayer {
    server_addr: Address,
    next_stream_id: u64,
    stream_buffers: StreamBuffers,
    last_activity: Nanos,
}

/// What the QUIC layer knows.
#[verifier::ext_equal]
pub struct QuicState {
    /// The server.
    pub server_addr: Address,
    /// The stream of the next message.
    pub next_stream_id: u64,
    /// The bytes of the messages that are not complete.
    pub stream_buffers: Map<u64, Seq<u8>>,
    /// When something was last sent or received.
    pub last_activity: Nanos,
}

impl QuicState {
    /// The next stream is one that a client may open, in both directions.
    pub open spec fn wf(&self) -> bool {
        self.next_stream_id >= FIRST_STREAM_ID && self.next_stream_id % STREAM_ID_STEP == 0
    }

    /// Whether a PING frame is due.
    pub open spec fn ping_due(&self, now: Nanos) -> bool {
        now - self.last_activity > PING_AFTER
    }
}

impl View for QuicLayer {
    type V = QuicState;

    closed spec fn view(&self) -> QuicState {
        QuicState {
            server_addr: self.server_addr,
            next_stream_id: self.next_stream_id,
            stream_buffers: self.stream_buffers@,
            last_activity: self.last_activity,
        }
    }
}

/// What happened in the QUIC layer.
#[derive(Debug)]
pub enum QuicEvent {
    /// It is time to serve the timers of the connection, which has been done.
    TimerFired,
    /// The packets that were ready then were handed on.
    TimerFlushed { result: Result<(), QuicError>, now: Nanos },
    /// The PING frame was sent, or could not be sent.
    PingDone,
    /// A message came from the application layer; none comes any more where it
    /// is missing.
    FromApp { message: Option<AppToQuicMessage> },
    /// The message was sent.
    SendDone { result: Result<(), QuicError> },
    /// The report was given to the application layer.
    Reported,
    /// A packet came from the UDP layer; none comes any more where it is
    /// missing.
    FromUdp { message: Option<UdpToQuicMessage> },
    /// The packet was handled, or could not be handled.
    PacketHandled,
    /// The packets that were ready then were handed on.
    PacketFlushed { result: Result<(), QuicError> },
}

/// What to do next in the QUIC layer.
#[derive(Debug)]
pub enum QuicAction {
    /// Wait for the timer or for another layer.
    Wait,
    /// Hand on the packets that are ready after the timer fired.
    FlushTimer,
    /// Send a PING frame.
    Ping,
    /// Send a message to the server.
    Send { content: String },
    /// Report to the application layer.
    Report { message: QuicToAppMessage },
    /// Handle a packet.
    Handle { message: UdpToQuicMessage },
    /// Hand on the packets that are ready after a packet was handled.
    FlushPacket,
    /// Stop.
    Return { result: Result<(), QuicError> },
}

/// What happened while a packet is handled.
#[derive(Debug)]
pub enum IncomingEvent {
    /// The connection took in the packet.
    Processed { result: Result<(), String>, now: Nanos },
    /// A readable stream was read.
    StreamRead { result: Result<String, QuicError> },
    /// The message was given to the application layer, or that is gone.
    Forwarded,
    /// There is no readable stream left.
    StreamsRead,
}

/// What to do next while a packet is handled.
#[derive(Debug)]
pub enum IncomingAction {
    /// Read the first readable stream.
    ReadStreams,
    /// Read the next readable stream.
    NextStream,
    /// Give a message to the application layer.
    Forward { message: QuicToAppMessage },
    /// Stop.
    Return { result: Result<(), QuicError> },
}

/// What happened while a message is sent.
#[derive(Debug)]
pub enum LayerSendEvent {
    /// Sending begins.
    Begin { established: bool },
    /// The stream took so many bytes of what was offered.
    Written { result: Result<usize, String> },
    /// The stream has no room, for the given reason.
    Blocked { reason: String },
    /// The ready packets were handed on and the delay is over.
    Waited { result: Result<(), QuicError> },
    /// The ready packets were handed on.
    Flushed { result: Result<(), QuicError>, now: Nanos },
}

/// What to do next while a message is sent.
#[derive(Debug)]
pub enum LayerSendAction {
    /// Offer the bytes, which are the rest of the message; `fin` marks the end of
    /// the stream after them.
    Write { stream_id: u64, bytes: Vec<u8>, fin: bool },
    /// Hand on the ready packets, then wait before the rest is offered; packets
    /// that arrive meanwhile are handled.
    FlushAndWait,
    /// Hand on the ready packets.
    Flush,
    /// Stop.
    Return { result: Result<(), QuicError> },
}

/// Whether `action` offers all of the message that the stream has not taken.
pub open spec fn offers_rest(task: SendTask, action: LayerSendAction) -> bool {
    action matches LayerSendAction::Write { stream_id, bytes, fin } && stream_id == task.stream_id
        && bytes@ == crate::outgoing::offer_at(
        task.message@,
        task.sent as int,
        task.message@.len() as int,
    ) && fin
}

/// What a step does to a message on its way: where the connection is established
/// it is started on the next stream `next` and offered whole, bytes that were
/// taken count as sent, and what is left is offered when the ready packets have
/// been handed on. No other event changes the message, and none offers bytes.
pub open spec fn is_layer_send_step(
    next: u64,
    old_task: SendTask,
    task: SendTask,
    event: LayerSendEvent,
    action: LayerSendAction,
) -> bool {
    match event {
        LayerSendEvent::Begin { established: true } => {
            &&& task.message == old_task.message
            &&& task.sent == old_task.sent
            &&& task.stream_id == next
            &&& offers_rest(task, action)
        },
        LayerSendEvent::Written { result: Ok(written) } => {
            &&& task.message == old_task.message
            &&& task.stream_id == old_task.stream_id
            &&& task.sent == old_task.sent + written
            &&& action is Flush || action is FlushAndWait
        },
        LayerSendEvent::Waited { result: Ok(_) } => task == old_task && offers_rest(task, action),
        LayerSendEvent::Flushed { result: Ok(_), .. } => task == old_task && if task.sent
            == task.message@.len() {
            action matches LayerSendAction::Return { result: Ok(_) }
        } else {
            offers_rest(task, action)
        },
        _ => {
            &&& task == old_task
            &&& !(action is Write)
            &&& action matches LayerSendAction::Return { result } ==> result is Err
        },
    }
}

fn offer_rest(task: &SendTask) -> (action: LayerSendAction)
    requires
        task.wf(),
    ensures
        offers_rest(*task, action),
{
    let rest = slice_subrange(task.message.as_slice(), task.sent, task.message.len());
    LayerSendAction::Write { stream_id: task.stream_id, bytes: slice_to_vec(rest), fin: true }
}

/// What happened while the ready packets are handed on.
#[derive(Debug)]
pub enum LayerFlushEvent {
    /// It begins.
    Begin,
    /// The connection wrote a packet.
    Packet { data: Vec<u8>, to: Address },
    /// The connection has no packet left.
    Drained,
    /// The connection could not write a packet.
    Refused { reason: String },
    /// The packet was given to the UDP layer, or that is gone.
    Forwarded,
}

/// What to do next while the ready packets are handed on.
#[derive(Debug)]
pub enum LayerFlushAction {
    /// Let the connection write the next packet.
    WritePacket,
    /// Give the packet to the UDP layer.
    Forward { message: QuicToUdpMessage },
    /// Stop.
    Return { result: Result<(), QuicError> },
}

/// What happened while a PING frame is sent.
#[derive(Debug)]
pub enum LayerPingEvent {
    /// The connection queued the frame.
    Queued { result: Result<(), String> },
    /// The ready packets were handed on.
    Flushed { result: Result<(), QuicError>, now: Nanos },
}

/// What to do next while a PING frame is sent.
#[derive(Debug)]
pub enum LayerPingAction {
    /// Hand on the ready packets.
    Flush,
    /// Stop.
    Return { result: Result<(), QuicError> },
}

impl QuicLayer {
    /// The QUIC layer of a client of the server at `server_addr`.
    pub fn new(server_addr: Address, now: Nanos) -> (layer: Self)
        ensures
            layer@ == (QuicState {
                server_addr,
                next_stream_id: FIRST_STREAM_ID,
                stream_buffers: Map::empty(),
                last_activity: now,
            }),
            layer@.wf(),
    {
        QuicLayer {
            server_addr,
            next_stream_id: FIRST_STREAM_ID,
            stream_buffers: StreamBuffers::new(),
            last_activity: now,
        }
    }

    /// Returns whether a stream is left for another message.
    pub fn has_stream(&self) -> (r: bool)
        ensures
            r <==> self@.next_stream_id + STREAM_ID_STEP <= u64::MAX,
    {
        self.next_stream_id <= u64::MAX - STREAM_ID_STEP
    }

    /// Decides one step of the loop of the QUIC layer. It ends when the
    /// application layer shuts it down, when another layer is gone, and when
    /// packets cannot be written.
    pub fn run(&self, event: QuicEvent) -> (action: QuicAction)
        ensures
            match event {
                QuicEvent::TimerFired => action == QuicAction::FlushTimer,
                QuicEvent::TimerFlushed { result: Ok(_), now } => action == if self@.ping_due(now) {
                    QuicAction::Ping
                } else {
                    QuicAction::Wait
                },
                QuicEvent::TimerFlushed { result: Err(error), .. } => action == (
                QuicAction::Return { result: Err(error) }),
                QuicEvent::PingDone => action == QuicAction::Wait,
                QuicEvent::FromApp { message: Some(AppToQuicMessage::SendMessage { content }) } =>
                    action == (QuicAction::Send { content }),
                QuicEvent::FromApp { message: Some(AppToQuicMessage::Shutdown) } => action == (
                QuicAction::Return { result: Ok(()) }),
                QuicEvent::FromApp { message: None } => action == (QuicAction::Return {
                    result: Ok(()),
                }),
                QuicEvent::SendDone { result: Ok(_) } => action == QuicAction::Wait,
                QuicEvent::SendDone { result: Err(error) } => action matches QuicAction::Report {
                    message: QuicToAppMessage::Error { message },
                } && message@ == "发送消息失败: "@ + error.text(),
                QuicEvent::Reported => action == QuicAction::Wait,
                QuicEvent::FromUdp { message: Some(message) } => action == if message.from
                    == self@.server_addr {
                    QuicAction::Handle { message }
                } else {
                    QuicAction::Wait
                },
                QuicEvent::FromUdp { message: None } => action == (QuicAction::Return {
                    result: Ok(()),
                }),
                QuicEvent::PacketHandled => action == QuicAction::FlushPacket,
                QuicEvent::PacketFlushed { result: Ok(_) } => action == QuicAction::Wait,
                QuicEvent::PacketFlushed { result: Err(error) } => action == (QuicAction::Return {
                    result: Err(error),
                }),
            },
    {
        match event {
            QuicEvent::TimerFired => QuicAction::FlushTimer,
            QuicEvent::TimerFlushed { result, now } => match result {
                Ok(_) => {
                    if self.should_send_ping(now) {
                        QuicAction::Ping
                    } else {
                        QuicAction::Wait
                    }
                },
                Err(error) => QuicAction::Return { result: Err(error) },
            },
            QuicEvent::PingDone => QuicAction::Wait,
            QuicEvent::FromApp { message } => match message {
                Some(AppToQuicMessage::SendMessage { content }) => QuicAction::Send { content },
                Some(AppToQuicMessage::Shutdown) => QuicAction::Return { result: Ok(()) },
                None => QuicAction::Return { result: Ok(()) },
            },
            QuicEvent::SendDone { result } => match result {
                Ok(_) => QuicAction::Wait,
                Err(error) => {
                    let reason = error.message();
                    QuicAction::Report {
                        message: QuicToAppMessage::Error {
                            message: "发送消息失败: ".to_owned().concat(reason.as_str()),
                        },
                    }
                },
            },
            QuicEvent::Reported => QuicAction::Wait,
            QuicEvent::FromUdp { message } => match message {
                Some(message) => {
                    if message.from == self.server_addr {
                        QuicAction::Handle { message }
                    } else {
                        QuicAction::Wait
                    }
                },
                None => QuicAction::Return { result: Ok(()) },
            },
            QuicEvent::PacketHandled => QuicAction::FlushPacket,
            QuicEvent::PacketFlushed { result } => match result {
                Ok(_) => QuicAction::Wait,
                Err(error) => QuicAction::Return { result: Err(error) },
            },
        }
    }

    /// Decides one step of handling a packet: the connection takes it in, and
    /// every message that is complete then goes to the application layer.
    pub fn handle_incoming_packet(&mut self, event: IncomingEvent) -> (action: IncomingAction)
        ensures
            final(self)@ == (match event {
                IncomingEvent::Processed { result: Ok(_), now } => QuicState {
                    last_activity: now,
                    ..old(self)@
                },
                _ => old(self)@,
            }),
            action == (match event {
                IncomingEvent::Processed { result: Ok(_), .. } => IncomingAction::ReadStreams,
                IncomingEvent::Processed { result: Err(reason), .. } => IncomingAction::Return {
                    result: Err(QuicError::External { reason }),
                },
                IncomingEvent::StreamRead { result: Ok(content) } => if content@.len() > 0 {
                    IncomingAction::Forward {
                        message: QuicToAppMessage::MessageReceived { content },
                    }
                } else {
                    IncomingAction::NextStream
                },
                IncomingEvent::StreamRead { result: Err(_) } => IncomingAction::NextStream,
                IncomingEvent::Forwarded => IncomingAction::NextStream,
                IncomingEvent::StreamsRead => IncomingAction::Return { result: Ok(()) },
            }),
    {
        match event {
            IncomingEvent::Processed { result, now } => match result {
                Ok(_) => {
                    self.last_activity = now;
                    IncomingAction::ReadStreams
                },
                Err(reason) => IncomingAction::Return {
                    result: Err(QuicError::External { reason }),
                },
            },
            IncomingEvent::StreamRead { result } => match result {
                Ok(content) => {
                    if content.as_str().is_empty() {
                        IncomingAction::NextStream
                    } else {
                        IncomingAction::Forward {
                            message: QuicToAppMessage::MessageReceived { content },
                        }
                    }
                },
                Err(_) => IncomingAction::NextStream,
            },
            IncomingEvent::Forwarded => IncomingAction::NextStream,
            IncomingEvent::StreamsRead => IncomingAction::Return { result: Ok(()) },
        }
    }

    /// Decides one step of sending a message. It gets a stream of its own and is
    /// offered to it whole, with the end of the stream. Where the stream has no
    /// room for any of it, sending fails; where it takes a part, the rest is
    /// offered again after a delay. The message is sent when the stream has taken
    /// all of it.
    pub fn send_message(&mut self, task: &mut SendTask, event: LayerSendEvent) -> (action:
        LayerSendAction)
        requires
            old(self)@.wf(),
            old(task).wf(),
            event matches LayerSendEvent::Begin { established: true } ==> old(
                self,
            )@.next_stream_id + STREAM_ID_STEP <= u64::MAX,
            event matches LayerSendEvent::Written { result: Ok(written) } ==> old(task).sent
                + written <= old(task).message@.len(),
        ensures
            final(self)@.wf(),
            final(task).wf(),
            final(self)@ == (match event {
                LayerSendEvent::Begin { established: true } => QuicState {
                    next_stream_id: (old(self)@.next_stream_id + STREAM_ID_STEP) as u64,
                    ..old(self)@
                },
                LayerSendEvent::Flushed { result: Ok(_), now } => if old(task).sent == old(
                    task,
                ).message@.len() {
                    QuicState { last_activity: now, ..old(self)@ }
                } else {
                    old(self)@
                },
                _ => old(self)@,
            }),
            *final(task) == (match event {
                LayerSendEvent::Begin { established: true } => SendTask {
                    stream_id: old(self)@.next_stream_id,
                    ..*old(task)
                },
                LayerSendEvent::Written { result: Ok(written) } => SendTask {
                    sent: crate::outgoing::sent_after_write(
                        old(task).sent as int,
                        written as int,
                    ) as usize,
                    ..*old(task)
                },
                _ => *old(task),
            }),
            action == (LayerSendAction::Return { result: Ok(()) }) ==> final(task).sent
                == final(task).message@.len(),
            action matches LayerSendAction::Write { stream_id, fin, .. } ==> stream_id
                == final(task).stream_id && fin,
            is_layer_send_step(old(self)@.next_stream_id, *old(task), *final(task), event, action),
            match event {
                LayerSendEvent::Begin { established } => if established {
                    offers_rest(*final(task), action)
                } else {
                    action == (LayerSendAction::Return { result: Err(QuicError::NotEstablished) })
                },
                LayerSendEvent::Written { result: Ok(_) } => action == if final(task).sent
                    == final(task).message@.len() {
                    LayerSendAction::Flush
                } else {
                    LayerSendAction::FlushAndWait
                },
                LayerSendEvent::Written { result: Err(reason) } => action == (
                LayerSendAction::Return { result: Err(QuicError::SendFailed { reason }) }),
                LayerSendEvent::Blocked { reason } => action == if old(task).sent == 0 {
                    LayerSendAction::Return { result: Err(QuicError::SendFailed { reason }) }
                } else {
                    LayerSendAction::FlushAndWait
                },
                LayerSendEvent::Waited { result: Ok(_) } => offers_rest(*old(task), action),
                LayerSendEvent::Waited { result: Err(error) } => action == (
                LayerSendAction::Return { result: Err(error) }),
                LayerSendEvent::Flushed { result: Ok(_), .. } => if old(task).sent == old(
                    task,
                ).message@.len() {
                    action == (LayerSendAction::Return { result: Ok(()) })
                } else {
                    offers_rest(*old(task), action)
                },
                LayerSendEvent::Flushed { result: Err(error), .. } => action == (
                LayerSendAction::Return { result: Err(error) }),
            },
    {
        match event {
            LayerSendEvent::Begin { established } => {
                if established {
                    task.stream_id = self.next_stream_id;
                    self.next_stream_id = self.next_stream_id + STREAM_ID_STEP;
                    offer_rest(task)
                } else {
                    LayerSendAction::Return { result: Err(QuicError::NotEstablished) }
                }
            },
            LayerSendEvent::Written { result } => match result {
                Ok(written) => {
                    let len = task.message.len();
                    task.sent = task.sent + written;
                    if task.sent == len {
                        LayerSendAction::Flush
                    } else {
                        LayerSendAction::FlushAndWait
                    }
                },
                Err(reason) => LayerSendAction::Return {
                    result: Err(QuicError::SendFailed { reason }),
                },
            },
            LayerSendEvent::Blocked { reason } => {
                if task.sent == 0 {
                    LayerSendAction::Return { result: Err(QuicError::SendFailed { reason }) }
                } else {
                    LayerSendAction::FlushAndWait
                }
            },
            LayerSendEvent::Waited { result } => match result {
                Ok(_) => offer_rest(task),
                Err(error) => LayerSendAction::Return { result: Err(error) },
            },
            LayerSendEvent::Flushed { result, now } => match result {
                Ok(_) => {
                    if task.sent == task.message.len() {
                        self.last_activity = now;
                        LayerSendAction::Return { result: Ok(()) }
                    } else {
                        offer_rest(task)
                    }
                },
                Err(error) => LayerSendAction::Return { result: Err(error) },
            },
        }
    }

    /// Takes in one read of a stream, and says whether to read on or what
    /// message to return.
    pub fn read_stream_data(&mut self, stream_id: u64, read: StreamRead) -> (step: ReadStep)
        ensures
            final(self)@ == (QuicState {
                stream_buffers: crate::streams::after_read(
                    old(self)@.stream_buffers,
                    stream_id,
                    read,
                ),
                ..old(self)@
            }),
            crate::streams::is_read_step(old(self)@.stream_buffers, stream_id, read, step),
    {
        self.stream_buffers.read(stream_id, read)
    }

    /// Decides one step of handing every packet that the connection has ready
    /// to the UDP layer.
    pub fn send_pending_packets(&self, event: LayerFlushEvent) -> (action: LayerFlushAction)
        ensures
            action == (match event {
                LayerFlushEvent::Begin => LayerFlushAction::WritePacket,
                LayerFlushEvent::Packet { data, to } => LayerFlushAction::Forward {
                    message: QuicToUdpMessage { data, to },
                },
                LayerFlushEvent::Drained => LayerFlushAction::Return { result: Ok(()) },
                LayerFlushEvent::Refused { reason } => LayerFlushAction::Return {
                    result: Err(QuicError::SendFailed { reason }),
                },
                LayerFlushEvent::Forwarded => LayerFlushAction::WritePacket,
            }),
    {
        match event {
            LayerFlushEvent::Begin => LayerFlushAction::WritePacket,
            LayerFlushEvent::Packet { data, to } => LayerFlushAction::Forward {
                message: QuicToUdpMessage { data, to },
            },
            LayerFlushEvent::Drained => LayerFlushAction::Return { result: Ok(()) },
            LayerFlushEvent::Refused { reason } => LayerFlushAction::Return {
                result: Err(QuicError::SendFailed { reason }),
            },
            LayerFlushEvent::Forwarded => LayerFlushAction::WritePacket,
        }
    }

    /// Returns whether the connection has been idle for so long that a PING
    /// frame is due.
    pub fn should_send_ping(&self, now: Nanos) -> (due: bool)
        ensures
            due == self@.ping_due(now),
    {
        now > self.last_activity && now - self.last_activity > PING_AFTER
    }

    /// Decides one step of sending a PING frame, which the connection is asked
    /// to queue first.
    pub fn send_ping(&mut self, event: LayerPingEvent) -> (action: LayerPingAction)
        ensures
            final(self)@ == (match event {
                LayerPingEvent::Flushed { result: Ok(_), now } => QuicState {
                    last_activity: now,
                    ..old(self)@
                },
                _ => old(self)@,
            }),
            action == (match event {
                LayerPingEvent::Queued { result: Ok(_) } => LayerPingAction::Flush,
                LayerPingEvent::Queued { result: Err(reason) } => LayerPingAction::Return {
                    result: Err(QuicError::PingFailed { reason }),
                },
                LayerPingEvent::Flushed { result: Ok(_), .. } => LayerPingAction::Return {
                    result: Ok(()),
                },
                LayerPingEvent::Flushed { result: Err(error), .. } => LayerPingAction::Return {
                    result: Err(error),
                },
            }),
    {
        match event {
            LayerPingEvent::Queued { result } => match result {
                Ok(_) => LayerPingAction::Flush,
                Err(reason) => LayerPingAction::Return {
                    result: Err(QuicError::PingFailed { reason }),
                },
            },
            LayerPingEvent::Flushed { result, now } => match result {
                Ok(_) => {
                    self.last_activity = now;
                    LayerPingAction::Return { result: Ok(()) }
                },
                Err(error) => LayerPingAction::Return { result: Err(error) },
            },
        }
    }
}

/// What is offered is all that the stream has not taken, byte for byte, on the
/// stream of the message, with the end of the stream.
pub proof fn law_whole_rest_is_offered(task: SendTask, action: LayerSendAction)
    requires
        task.wf(),
        offers_rest(task, action),
    ensures
        action matches LayerSendAction::Write { stream_id, bytes, fin } && {
            &&& stream_id == task.stream_id
            &&& fin
            &&& bytes@.len() == task.message@.len() - task.sent
            &&& forall|i: int|
                0 <= i < bytes@.len() ==> #[trigger] bytes@[i] == task.message@[task.sent + i]
        },
{
}

/// Whether `event` is what can come of an action while a message is sent: a
/// stream takes no more than it was offered, or has no room, or refuses.
pub open spec fn answers(action: LayerSendAction, event: LayerSendEvent) -> bool {
    match action {
        LayerSendAction::Write { bytes, .. } => match event {
            LayerSendEvent::Written { result: Ok(written) } => written <= bytes@.len(),
            LayerSendEvent::Written { result: Err(_) } => true,
            LayerSendEvent::Blocked { .. } => true,
            _ => false,
        },
        LayerSendAction::FlushAndWait => event is Waited,
        LayerSendAction::Flush => event is Flushed,
        LayerSendAction::Return { .. } => false,
    }
}

/// The bytes that stream `id` took in the first `n` steps of a send: of what was
/// offered to it, as many as the event after it tells.
pub open spec fn taken_by_stream(
    id: u64,
    events: Seq<LayerSendEvent>,
    actions: Seq<LayerSendAction>,
    n: int,
) -> Seq<u8>
    decreases n,
{
    if n <= 1 {
        Seq::empty()
    } else {
        let before = taken_by_stream(id, events, actions, n - 1);
        match (actions[n - 2], events[n - 1]) {
            (
                LayerSendAction::Write { stream_id, bytes, .. },
                LayerSendEvent::Written { result: Ok(written) },
            ) => if stream_id == id {
                before + bytes@.take(written as int)
            } else {
                before
            },
            _ => before,
        }
    }
}

/// Whether a message is sent from its first offer on: the connection is
/// established, each further event is what came of the action before it, and
/// each action is the one that the step returned. `next[i]` is the next stream
/// of the layer at the `i`-th step.
pub open spec fn is_send(
    next: Seq<u64>,
    tasks: Seq<SendTask>,
    events: Seq<LayerSendEvent>,
    actions: Seq<LayerSendAction>,
) -> bool {
    let n = events.len() as int;
    &&& n > 0
    &&& next.len() == n && actions.len() == n && tasks.len() == n + 1
    &&& events[0] matches LayerSendEvent::Begin { established: true }
    &&& tasks[0].sent == 0
    &&& forall|i: int|
        0 <= i < n ==> is_layer_send_step(
            next[i],
            tasks[i],
            tasks[i + 1],
            #[trigger] events[i],
            actions[i],
        )
    &&& forall|i: int| 0 <= i < n - 1 ==> answers(#[trigger] actions[i], events[i + 1])
}

proof fn lemma_send_keeps_to_its_stream(
    next: Seq<u64>,
    tasks: Seq<SendTask>,
    events: Seq<LayerSendEvent>,
    actions: Seq<LayerSendAction>,
    n: int,
    other: u64,
)
    requires
        is_send(next, tasks, events, actions),
        1 <= n <= events.len(),
        other != next[0],
    ensures
        ({
            let message = tasks[0].message@;
            let task = tasks[n];
            &&& task.message@ == message
            &&& task.stream_id == next[0]
            &&& task.sent <= message.len()
            &&& taken_by_stream(next[0], events, actions, n) == message.take(task.sent as int)
            &&& taken_by_stream(other, events, actions, n) == Seq::<u8>::empty()
            &&& actions[n - 1] is Write ==> offers_rest(task, actions[n - 1])
            &&& actions[n - 1] matches LayerSendAction::Return { result: Ok(_) } ==> task.sent
                == message.len()
        }),
    decreases n,
{
    let message = tasks[0].message@;
    let event = events[n - 1];
    assert(is_layer_send_step(next[n - 1], tasks[n - 1], tasks[n], event, actions[n - 1]));
    if n == 1 {
        assert(message.take(0) =~= Seq::<u8>::empty());
    } else {
        lemma_send_keeps_to_its_stream(next, tasks, events, actions, n - 1, other);
        let action = actions[n - 2];
        assert(answers(action, events[n - 2 + 1]));
        let task = tasks[n - 1];
        if let LayerSendAction::Write { bytes, .. } = action {
            law_whole_rest_is_offered(task, action);
            if let LayerSendEvent::Written { result: Ok(written) } = event {
                assert(message.take(task.sent as int) + bytes@.take(written as int)
                    =~= message.take(task.sent + written));
            }
        }
    }
}

/// A message goes to one stream, whole: from its first offer to its last, bytes
/// are offered on the stream that the layer had next when the message was
/// started, and on no other. However little the stream takes at once, what it has
/// taken is the first part of the message, and all of it when the send succeeds.
pub proof fn law_message_goes_to_its_stream(
    next: Seq<u64>,
    tasks: Seq<SendTask>,
    events: Seq<LayerSendEvent>,
    actions: Seq<LayerSendAction>,
    other: u64,
)
    requires
        is_send(next, tasks, events, actions),
        other != next[0],
    ensures
        ({
            let message = tasks[0].message@;
            let n = events.len() as int;
            &&& forall|i: int|
                0 <= i < n ==> ((#[trigger] actions[i]) matches LayerSendAction::Write {
                    stream_id,
                    ..
                } ==> stream_id == next[0])
            &&& taken_by_stream(next[0], events, actions, n) == message.take(
                tasks[n].sent as int,
            )
            &&& taken_by_stream(other, events, actions, n).len() == 0
            &&& actions[n - 1] matches LayerSendAction::Return { result: Ok(_) }
                ==> taken_by_stream(next[0], events, actions, n) == message
        }),
{
    let n = events.len() as int;
    assert forall|i: int| 0 <= i < n implies ((#[trigger] actions[i])
        matches LayerSendAction::Write { stream_id, .. } ==> stream_id == next[0]) by {
        lemma_send_keeps_to_its_stream(next, tasks, events, actions, i + 1, other);
    }
    lemma_send_keeps_to_its_stream(next, tasks, events, actions, n, other);
    assert(tasks[0].message@.take(tasks[0].message@.len() as int) =~= tasks[0].message@);
}

/// Whatever white space stands around what is typed, the word `quit` shuts the
/// QUIC layer down, nothing brings a new prompt, and anything else is handed on
/// as it is, whole and without the white space.
pub proof fn law_typed_text_is_handed_on_whole(
    left: Seq<char>,
    typed: Seq<char>,
    right: Seq<char>,
    action: AppAction,
)
    requires
        crate::text::is_blank(left),
        crate::text::is_blank(right),
        typed.len() > 0 ==> !crate::text::is_white_space(typed.first())
            && !crate::text::is_white_space(typed.last()),
        obeys_line(left + typed + right, action),
    ensures
        action matches AppAction::Forward { message: AppToQuicMessage::Shutdown } <==> typed
            == "quit"@,
        action is Prompt <==> typed.len() == 0,
        typed.len() > 0 && typed != "quit"@ ==> (action matches AppAction::Forward {
            message: AppToQuicMessage::SendMessage { content },
        } && content@ == typed),
{
    reveal_strlit("quit");
    crate::text::law_padding_is_trimmed(left, typed, right);
}

/// However little of what is offered the stream takes, it holds exactly the part
/// of the message that counts as sent, none of it missing and none twice. When
/// all of it counts as sent, the stream holds the message.
pub proof fn law_stream_holds_what_was_sent(message: Seq<u8>, writes: Seq<int>)
    requires
        crate::outgoing::writes_fit(message, message.len() as int, writes),
    ensures
        ({
            let sent = crate::outgoing::sent_after_writes(writes);
            let stream = crate::outgoing::stream_after_writes(
                message,
                message.len() as int,
                writes,
            );
            &&& 0 <= sent <= message.len()
            &&& stream == message.take(sent)
            &&& sent == message.len() ==> stream == message
        }),
{
    crate::outgoing::law_stream_holds_what_was_sent(message, message.len() as int, writes);
}

/// After any activity no PING frame is due until the idle time has passed
/// again, and one is due from then on.
pub proof fn law_activity_defers_ping(state: QuicState, activity: Nanos, now: Nanos)
    ensures
        (QuicState { last_activity: activity, ..state }).ping_due(now) <==> activity
            + 30_000_000_000 < now,
{
}

/// The UDP layer, without its channels and its socket.
pub struct UdpLayer {}

/// What happened in the UDP layer.
#[derive(Debug)]
pub enum UdpEvent {
    /// A packet arrived; the local address is missing where the socket did not
    /// tell it.
    Received { data: Vec<u8>, from: Address, local: Option<Address> },
    /// The socket could not be read.
    ReceiveFailed,
    /// The packet was given to the QUIC layer, or that is gone.
    Forwarded,
    /// A packet came from the QUIC layer; none comes any more where it is
    /// missing.
    FromQuic { message: Option<QuicToUdpMessage> },
    /// The packet was sent, or could not be sent.
    Transmitted,
}

/// What to do next in the UDP layer.
#[derive(Debug)]
pub enum UdpAction {
    /// Wait for the socket or for the QUIC layer.
    Wait,
    /// Give a packet to the QUIC layer.
    Forward { message: UdpToQuicMessage },
    /// Send a packet.
    Transmit { message: QuicToUdpMessage },
    /// Stop.
    Return,
}

/// The local address that is assumed where the socket does not tell it:
/// 127.0.0.1, port 0.
pub open spec fn fallback_address() -> Address {
    Address::V4 { ip: 0x7f00_0001, port: 0 }
}

impl UdpLayer {
    /// A UDP layer.
    pub fn new() -> (layer: Self)
        ensures
            layer == (UdpLayer {  }),
    {
        UdpLayer {  }
    }

    /// Decides one step of the loop of the UDP layer. It ends when the QUIC
    /// layer is gone.
    pub fn run(&self, event: UdpEvent) -> (action: UdpAction)
        ensures
            action == (match event {
                UdpEvent::Received { data, from, local } => UdpAction::Forward {
                    message: UdpToQuicMessage {
                        data,
                        from,
                        to: match local {
                            Some(to) => to,
                            None => fallback_address(),
                        },
                    },
                },
                UdpEvent::ReceiveFailed => UdpAction::Wait,
                UdpEvent::Forwarded => UdpAction::Wait,
                UdpEvent::FromQuic { message: Some(message) } => UdpAction::Transmit { message },
                UdpEvent::FromQuic { message: None } => UdpAction::Return,
                UdpEvent::Transmitted => UdpAction::Wait,
            }),
            event matches UdpEvent::Received { data, from, local } ==> (action
                matches UdpAction::Forward { message } && message.data == data && message.from
                == from && (local matches Some(to) ==> message.to == to) && (local is None
                ==> message.to == (Address::V4 { ip: 0x7f00_0001, port: 0 }))),
    {
        match event {
            UdpEvent::Received { data, from, local } => {
                let to = match local {
                    Some(to) => to,
                    None => Address::V4 { ip: 0x7f00_0001, port: 0 },
                };
                UdpAction::Forward { message: UdpToQuicMessage { data, from, to } }
            },
            UdpEvent::ReceiveFailed => UdpAction::Wait,
            UdpEvent::Forwarded => UdpAction::Wait,
            UdpEvent::FromQuic { message } => match message {
                Some(message) => UdpAction::Transmit { message },
                None => UdpAction::Return,
            },
            UdpEvent::Transmitted => UdpAction::Wait,
        }
    }
}

/// Chooses the connection ID and the settings of a new connection; `None` where
/// the system has no random numbers.
pub fn create_quic_connection() -> (setup: Option<ConnectionSetup>)
    ensures
        setup matches Some(setup) ==> setup.scid@.len() == crate::config::MAX_CONN_ID_LEN
            && setup.config.is_simple(Some(false)),
{
    client_setup()
}

/// What happened while a connection is opened.
#[derive(Debug)]
pub enum OpenEvent {
    /// Opening begins, at the socket with the given address, which the socket may
    /// fail to tell.
    Begin { setup: ConnectionSetup, server_addr: Address, local: Result<Address, String> },
    /// The connection was made.
    Connected { result: Result<(), String> },
    /// The handshake is over.
    HandshakeDone { result: Result<(), QuicError> },
}

/// What to do next while a connection is opened.
#[derive(Debug)]
pub enum OpenAction {
    /// Make a connection between the addresses.
    Connect { setup: ConnectionSetup, local: Address, server_addr: Address },
    /// Complete the handshake.
    Handshake,
    /// Stop; the connection is handed on where the result is `Ok`.
    Return { result: Result<(), QuicError> },
}

/// What follows an event while a connection is opened.
pub open spec fn after_open_event(event: OpenEvent) -> OpenAction {
    match event {
        OpenEvent::Begin { setup, server_addr, local: Ok(local) } => OpenAction::Connect {
            setup,
            local,
            server_addr,
        },
        OpenEvent::Begin { local: Err(reason), .. } => OpenAction::Return {
            result: Err(QuicError::External { reason }),
        },
        OpenEvent::Connected { result: Ok(_) } => OpenAction::Handshake,
        OpenEvent::Connected { result: Err(reason) } => OpenAction::Return {
            result: Err(QuicError::External { reason }),
        },
        OpenEvent::HandshakeDone { result } => OpenAction::Return { result },
    }
}

/// Decides one step of opening a connection: it is made and its handshake
/// completed. It is handed on if and only if the handshake succeeded.
pub fn open_quic_connection(event: OpenEvent) -> (action: OpenAction)
    ensures
        action == after_open_event(event),
        action matches OpenAction::Return { result: Ok(_) } <==> event
            matches OpenEvent::HandshakeDone { result: Ok(_) },
{
    match event {
        OpenEvent::Begin { setup, server_addr, local } => match local {
            Ok(local) => OpenAction::Connect { setup, local, server_addr },
            Err(reason) => OpenAction::Return { result: Err(QuicError::External { reason }) },
        },
        OpenEvent::Connected { result } => match result {
            Ok(_) => OpenAction::Handshake,
            Err(reason) => OpenAction::Return { result: Err(QuicError::External { reason }) },
        },
        OpenEvent::HandshakeDone { result } => OpenAction::Return { result },
    }
}

/// A connection is made with what was chosen for it, between the socket and the
/// server; each failure ends the opening and is told.
pub proof fn law_connection_is_made_as_chosen(
    setup: ConnectionSetup,
    server_addr: Address,
    local: Address,
    reason: String,
    result: Result<(), QuicError>,
)
    ensures
        after_open_event(OpenEvent::Begin { setup, server_addr, local: Ok(local) }) == (
        OpenAction::Connect { setup, local, server_addr }),
        after_open_event(OpenEvent::Begin { setup, server_addr, local: Err(reason) }) == (
        OpenAction::Return { result: Err(QuicError::External { reason }) }),
        after_open_event(OpenEvent::Connected { result: Ok(()) }) is Handshake,
        after_open_event(OpenEvent::Connected { result: Err(reason) }) == (OpenAction::Return {
            result: Err(QuicError::External { reason }),
        }),
        after_open_event(OpenEvent::HandshakeDone { result }) == (OpenAction::Return { result }),
{
}

/// A connection that is handed on is established: it is handed on only after a
/// handshake, with the result of the handshake, whose last event `last` told
/// that the connection is established.
pub proof fn law_opened_connection_is_established(
    server_addr: Address,
    attempts: u32,
    last: HandshakeEvent,
    result: Result<(), QuicError>,
)
    requires
        handshake::after_event(server_addr, attempts, last).1 == (HandshakeAction::Return {
            result,
        }),
        after_open_event(OpenEvent::HandshakeDone { result }) matches OpenAction::Return {
            result: Ok(_),
        },
    ensures
        match last {
            HandshakeEvent::InitialSent { established, .. } => established,
            HandshakeEvent::Datagram { established, .. } => established,
            HandshakeEvent::Flushed { established, .. } => established,
            _ => false,
        },
{
}

/// Decides one step of the handshake with the server at `server_addr`.
pub fn complete_handshake(server_addr: Address, attempts: &mut u32, event: HandshakeEvent) -> (action:
    HandshakeAction)
    ensures
        (*final(attempts), action) == handshake::after_event(server_addr, *old(attempts), event),
{
    handshake::step(server_addr, attempts, event)
}

} // verus!
