//! The promise of the service: what a client sends comes back to it.
//!
//! Streams deliver bytes in order, cut into any number of reads, and take bytes
//! in any number of writes. The laws hold however they are cut.

use vstd::prelude::*;
use vstd::utf8::*;

use crate::server::{EchoAction, EchoEvent, HandlerState};
use crate::streams::{ReadStep, StreamRead};

verus! {

/// The state of a handler once a stream has ended: after `events` and the read
/// `last` of stream `id`.
pub open spec fn after_message(
    state: HandlerState,
    id: u64,
    events: Seq<EchoEvent>,
    last: StreamRead,
) -> HandlerState {
    crate::server::after_stream_read(crate::server::after_echo_events(state, events), id, last)
}

/// Whether the bytes `message` arrive whole on stream `id`, which had none: in
/// the reads among `events`, which do not answer the stream, and in `last`,
/// which ends it.
pub open spec fn arrives(
    message: Seq<u8>,
    state: HandlerState,
    id: u64,
    events: Seq<EchoEvent>,
    last: StreamRead,
) -> bool {
    &&& crate::streams::buffered(state.stream_buffers, id).len() == 0
    &&& crate::server::leaves_unanswered(id, events)
    &&& last.ends_stream()
    &&& crate::server::bytes_received(id, events) + last.bytes() == message
}

/// The server answers whatever bytes arrive with `Echo: ` and the text that they
/// stand for, on the stream on which they came, and keeps the answer until the
/// stream has taken it.
pub proof fn law_server_echoes_bytes(
    message: Seq<u8>,
    state: HandlerState,
    id: u64,
    events: Seq<EchoEvent>,
    last: StreamRead,
    action: EchoAction,
)
    requires
        message.len() > 0,
        arrives(message, state, id, events, last),
        crate::server::is_echo_step(
            crate::server::after_echo_events(state, events),
            id,
            last,
            action,
        ),
    ensures
        ({
            let response = encode_utf8("Echo: "@ + crate::text::lossy_text(message));
            &&& action matches EchoAction::Respond { stream_id, response: offered, fin }
            &&& stream_id == id
            &&& offered@ == response
            &&& fin
            &&& crate::server::unsent(after_message(state, id, events, last), id) == response
        }),
{
    crate::server::law_server_keeps_unanswered_bytes(state, id, events);
    let received = crate::streams::buffered(
        crate::server::after_echo_events(state, events).stream_buffers,
        id,
    );
    assert(received + last.bytes() =~= message);
}

/// The server answers a message that is text with `Echo: ` and the message.
pub proof fn law_server_echoes_message(
    message: Seq<char>,
    state: HandlerState,
    id: u64,
    events: Seq<EchoEvent>,
    last: StreamRead,
    action: EchoAction,
)
    requires
        message.len() > 0,
        arrives(encode_utf8(message), state, id, events, last),
        crate::server::is_echo_step(
            crate::server::after_echo_events(state, events),
            id,
            last,
            action,
        ),
    ensures
        action matches EchoAction::Respond { stream_id, response, fin } && stream_id == id
            && response@ == encode_utf8("Echo: "@ + message) && fin,
        crate::server::unsent(after_message(state, id, events, last), id) == encode_utf8(
            "Echo: "@ + message,
        ),
{
    crate::text::law_encoded_text_is_read_back(message);
    law_server_echoes_bytes(encode_utf8(message), state, id, events, last, action);
}

/// A client that reads the stream of an answer shows the answer, once and
/// whole.
///
/// The stream delivers the answer in any number of reads and with reads of other
/// streams between them (`reads`), and ends with the read `last`.
pub proof fn law_client_reads_answer(
    answer: Seq<char>,
    buffers: Map<u64, Seq<u8>>,
    id: u64,
    reads: Seq<(u64, StreamRead)>,
    last: StreamRead,
    step: ReadStep,
)
    requires
        crate::streams::buffered(buffers, id).len() == 0,
        forall|i: int|
            0 <= i < reads.len() && (#[trigger] reads[i]).0 == id ==> !reads[i].1.ends_stream(),
        last.ends_stream(),
        crate::streams::bytes_of_stream(id, reads) + last.bytes() == encode_utf8(answer),
        crate::streams::is_read_step(
            crate::streams::after_reads(buffers, reads),
            id,
            last,
            step,
        ),
    ensures
        crate::streams::returns_text(step, answer),
        step matches ReadStep::Return { result: Ok(shown) } && shown@ == answer,
        !crate::streams::after_read(
            crate::streams::after_reads(buffers, reads),
            id,
            last,
        ).contains_key(id),
{
    crate::streams::law_message_is_reassembled(buffers, id, reads);
    crate::text::law_encoded_text_is_read_back(answer);
    let received = crate::streams::buffered(crate::streams::after_reads(buffers, reads), id);
    assert(received + last.bytes() =~= encode_utf8(answer));
}

/// Every message comes back to the client that sent it as `Echo: ` and the
/// message, on the stream of the message.
///
/// The client offers at most `limit` bytes at once, and the stream takes
/// `writes[i]` of the `i`-th offer until it has taken all. The server receives
/// these bytes in the reads among `events` and in `server_last`. The stream
/// takes the answer in the course of `responses`, until nothing of it is kept.
/// The client receives these bytes in `reads` and `client_last`.
pub proof fn law_message_comes_back(
    message: Seq<char>,
    limit: int,
    writes: Seq<int>,
    server: HandlerState,
    id: u64,
    events: Seq<EchoEvent>,
    server_last: StreamRead,
    responses: Seq<EchoEvent>,
    client: Map<u64, Seq<u8>>,
    reads: Seq<(u64, StreamRead)>,
    client_last: StreamRead,
    step: ReadStep,
)
    requires
        message.len() > 0,
        limit >= 0,
        crate::outgoing::writes_fit(encode_utf8(message), limit, writes),
        crate::outgoing::sent_after_writes(writes) == encode_utf8(message).len(),
        arrives(
            crate::outgoing::stream_after_writes(encode_utf8(message), limit, writes),
            server,
            id,
            events,
            server_last,
        ),
        ({
            let answering = after_message(server, id, events, server_last);
            &&& forall|i: int|
                0 <= i < responses.len() ==> #[trigger] crate::server::goes_well(
                    answering,
                    id,
                    responses,
                    i,
                )
            &&& !crate::server::after_echo_events(answering, responses).responses.contains_key(id)
            &&& crate::streams::bytes_of_stream(id, reads) + client_last.bytes()
                == crate::server::bytes_taken(answering, id, responses)
        }),
        crate::streams::buffered(client, id).len() == 0,
        forall|i: int|
            0 <= i < reads.len() && (#[trigger] reads[i]).0 == id ==> !reads[i].1.ends_stream(),
        client_last.ends_stream(),
        crate::streams::is_read_step(
            crate::streams::after_reads(client, reads),
            id,
            client_last,
            step,
        ),
    ensures
        crate::streams::returns_text(step, "Echo: "@ + message),
        step matches ReadStep::Return { result: Ok(shown) } && shown@ == "Echo: "@ + message,
{
    let encoded = encode_utf8(message);
    crate::outgoing::law_stream_holds_what_was_sent(encoded, limit, writes);
    crate::text::law_encoded_text_is_read_back(message);
    crate::server::law_server_keeps_unanswered_bytes(server, id, events);
    let received = crate::streams::buffered(
        crate::server::after_echo_events(server, events).stream_buffers,
        id,
    );
    assert(received + server_last.bytes() =~= encoded);
    let answering = after_message(server, id, events, server_last);
    crate::server::law_response_is_sent_whole(answering, id, responses);
    law_client_reads_answer("Echo: "@ + message, client, id, reads, client_last, step);
}

/// When a client counts a message as sent, the stream carries the encoded
/// message and nothing else: for the client that sends in chunks, however little
/// of each chunk the stream takes.
pub proof fn law_chunked_message_is_sent(message: Seq<char>, writes: Seq<int>)
    requires
        crate::outgoing::writes_fit(
            encode_utf8(message),
            crate::client::CHUNK_SIZE as int,
            writes,
        ),
        crate::outgoing::sent_after_writes(writes) == encode_utf8(message).len(),
    ensures
        crate::outgoing::stream_after_writes(
            encode_utf8(message),
            crate::client::CHUNK_SIZE as int,
            writes,
        ) == encode_utf8(message),
{
    crate::client::law_stream_holds_what_was_sent(encode_utf8(message), writes);
}

/// The same for the layered client, which offers all that is left at once.
pub proof fn law_layered_message_is_sent(message: Seq<char>, writes: Seq<int>)
    requires
        crate::outgoing::writes_fit(
            encode_utf8(message),
            encode_utf8(message).len() as int,
            writes,
        ),
        crate::outgoing::sent_after_writes(writes) == encode_utf8(message).len(),
    ensures
        crate::outgoing::stream_after_writes(
            encode_utf8(message),
            encode_utf8(message).len() as int,
            writes,
        ) == encode_utf8(message),
{
    crate::client_layered::law_stream_holds_what_was_sent(encode_utf8(message), writes);
}

} // verus!
