//! Reassembly of messages from the reads of many streams.
//!
//! A message is everything that one stream carries until it ends. Its bytes may
//! arrive in any number of reads, with reads of other streams between them.

use std::collections::HashMap;

use vstd::prelude::*;
use vstd::slice::slice_to_vec;
use vstd::utf8::*;

use crate::error::QuicError;
use crate::text::from_utf8_lossy;

verus! {

/// How many bytes are read from a stream at once at most.
pub const READ_SIZE: usize = 1024;

/// What one read of a stream gave.
#[derive(Debug)]
pub enum StreamRead {
    /// Bytes, possibly none; `fin` marks the end of the stream.
    Data { bytes: Vec<u8>, fin: bool },
    /// Nothing can be read now.
    Blocked,
    /// The stream could not be read.
    Failed { reason: String },
}

impl StreamRead {
    /// The bytes that the read gave.
    pub open spec fn bytes(&self) -> Seq<u8> {
        match self {
            StreamRead::Data { bytes, .. } => bytes@,
            _ => Seq::empty(),
        }
    }

    /// Whether the read reached the end of the stream.
    pub open spec fn ends_stream(&self) -> bool {
        self matches StreamRead::Data { fin, .. } && *fin
    }
}

/// What to do after a read of a stream.
#[derive(Debug)]
pub enum ReadStep {
    /// Read the same stream again.
    ReadAgain,
    /// Stop reading the stream. An empty text means that there is no message
    /// yet, or that the message is empty.
    Return { result: Result<String, QuicError> },
}

/// The bytes that have arrived on each stream whose message is not complete.
#[derive(Debug)]
pub struct StreamBuffers {
    buffers: HashMap<u64, Vec<u8>>,
}

impl View for StreamBuffers {
    type V = Map<u64, Seq<u8>>;

    closed spec fn view(&self) -> Map<u64, Seq<u8>> {
        self.buffers@.map_values(|buffer: Vec<u8>| buffer@)
    }
}

/// The bytes that have arrived on stream `id`.
pub open spec fn buffered(buffers: Map<u64, Seq<u8>>, id: u64) -> Seq<u8> {
    if buffers.contains_key(id) {
        buffers[id]
    } else {
        Seq::empty()
    }
}

/// The buffers after `bytes` have arrived on stream `id`.
pub open spec fn with_bytes(buffers: Map<u64, Seq<u8>>, id: u64, bytes: Seq<u8>) -> Map<
    u64,
    Seq<u8>,
> {
    buffers.insert(id, buffered(buffers, id) + bytes)
}

/// The buffers after a read of stream `id`: the end of the stream takes its
/// buffer away, anything else keeps what has arrived.
pub open spec fn after_read(buffers: Map<u64, Seq<u8>>, id: u64, read: StreamRead) -> Map<
    u64,
    Seq<u8>,
> {
    if read.ends_stream() {
        buffers.remove(id)
    } else {
        with_bytes(buffers, id, read.bytes())
    }
}

/// Whether `step` returns the given text.
pub open spec fn returns_text(step: ReadStep, text: Seq<char>) -> bool {
    step matches ReadStep::Return { result: Ok(returned) } && returned@ == text
}

/// Whether `step` follows from a read of stream `id`: the end of the stream
/// returns the message, which is empty only if no byte has arrived; a read that
/// gave bytes asks for another; one that gave none returns no text, and a
/// failure returns the error.
pub open spec fn is_read_step(
    buffers: Map<u64, Seq<u8>>,
    id: u64,
    read: StreamRead,
    step: ReadStep,
) -> bool {
    match read {
        StreamRead::Data { bytes, fin } => if fin {
            let message = buffered(buffers, id) + bytes@;
            let text = crate::text::lossy_text(message);
            returns_text(step, text) && (text.len() == 0 <==> message.len() == 0)
        } else if bytes@.len() > 0 {
            step == ReadStep::ReadAgain
        } else {
            returns_text(step, Seq::empty())
        },
        StreamRead::Blocked => returns_text(step, Seq::empty()),
        StreamRead::Failed { reason } => step == (ReadStep::Return {
            result: Err(QuicError::StreamReadFailed { reason }),
        }),
    }
}

impl StreamBuffers {
    /// No stream has any bytes.
    pub fn new() -> (buffers: Self)
        ensures
            buffers@ == Map::<u64, Seq<u8>>::empty(),
    {
        let buffers = StreamBuffers { buffers: HashMap::new() };
        assert(buffers@ =~= Map::<u64, Seq<u8>>::empty());
        buffers
    }

    /// Drops the bytes of every stream.
    pub fn clear(&mut self)
        ensures
            final(self)@ == Map::<u64, Seq<u8>>::empty(),
    {
        self.buffers.clear();
        assert(self@ =~= Map::<u64, Seq<u8>>::empty());
    }

    /// Adds bytes to the buffer of stream `id`, which is created where there is
    /// none.
    pub fn append(&mut self, id: u64, bytes: &[u8])
        ensures
            final(self)@ == with_bytes(old(self)@, id, bytes@),
    {
        let mut buffer: Vec<u8> = match self.buffers.remove(&id) {
            Some(buffer) => buffer,
            None => Vec::new(),
        };
        buffer.extend_from_slice(bytes);
        assert(buffer@ =~= buffered(old(self)@, id) + bytes@);
        self.buffers.insert(id, buffer);
        assert(self@ =~= with_bytes(old(self)@, id, bytes@));
    }

    /// Removes the buffer of stream `id` and returns its bytes.
    pub fn take(&mut self, id: u64) -> (bytes: Vec<u8>)
        ensures
            bytes@ == buffered(old(self)@, id),
            final(self)@ == old(self)@.remove(id),
    {
        let bytes: Vec<u8> = match self.buffers.remove(&id) {
            Some(buffer) => buffer,
            None => Vec::new(),
        };
        assert(self@ =~= old(self)@.remove(id));
        bytes
    }

    /// Sets the bytes of stream `id`.
    pub fn put(&mut self, id: u64, bytes: Vec<u8>)
        ensures
            final(self)@ == old(self)@.insert(id, bytes@),
    {
        self.buffers.insert(id, bytes);
        assert(self@ =~= old(self)@.insert(id, bytes@));
    }

    /// Returns a copy of the bytes of stream `id`, and `None` where it has no
    /// buffer.
    pub fn get(&self, id: u64) -> (bytes: Option<Vec<u8>>)
        ensures
            match bytes {
                Some(bytes) => self@.contains_key(id) && bytes@ == self@[id],
                None => !self@.contains_key(id),
            },
    {
        match self.buffers.get(&id) {
            Some(buffer) => Some(slice_to_vec(buffer.as_slice())),
            None => None,
        }
    }

    /// Returns the text of what has arrived on stream `id`, and `None` where
    /// nothing has.
    pub fn text(&self, id: u64) -> (text: Option<String>)
        ensures
            match text {
                Some(text) => buffered(self@, id).len() > 0 && text@ == crate::text::lossy_text(
                    buffered(self@, id),
                ),
                None => buffered(self@, id).len() == 0,
            },
            text is Some <==> self@.contains_key(id) && self@[id].len() > 0,
            text matches Some(text) ==> text@ == crate::text::lossy_text(self@[id]),
    {
        match self.buffers.get(&id) {
            Some(buffer) => if buffer.len() > 0 {
                Some(from_utf8_lossy(buffer.as_slice()))
            } else {
                None
            },
            None => None,
        }
    }

    /// Takes in one read of stream `id` for a client, and says whether to read
    /// on or what to return. The message is returned when the stream ends, and
    /// its buffer is gone then; until then an empty text is returned and what
    /// has arrived is kept.
    pub fn read(&mut self, id: u64, read: StreamRead) -> (step: ReadStep)
        ensures
            final(self)@ == after_read(old(self)@, id, read),
            is_read_step(old(self)@, id, read, step),
            read matches StreamRead::Data { bytes, fin: true } ==> (step
                matches ReadStep::Return { result: Ok(text) } && text@ == crate::text::lossy_text(
                buffered(old(self)@, id) + bytes@,
            )),
            step is ReadAgain <==> (read matches StreamRead::Data { bytes, fin: false }
                && bytes@.len() > 0),
            (step matches ReadStep::Return { result: Ok(text) } && text@.len() > 0) ==> (read
                matches StreamRead::Data { fin: true, .. }),
    {
        match read {
            StreamRead::Data { bytes, fin } => {
                self.append(id, bytes.as_slice());
                if fin {
                    let message = self.take(id);
                    assert(self@ =~= old(self)@.remove(id));
                    let text = from_utf8_lossy(message.as_slice());
                    ReadStep::Return { result: Ok(text) }
                } else if bytes.len() > 0 {
                    ReadStep::ReadAgain
                } else {
                    ReadStep::Return { result: Ok(String::new()) }
                }
            },
            StreamRead::Blocked => {
                self.append(id, &[]);
                ReadStep::Return { result: Ok(String::new()) }
            },
            StreamRead::Failed { reason } => {
                self.append(id, &[]);
                ReadStep::Return { result: Err(QuicError::StreamReadFailed { reason }) }
            },
        }
    }
}

/// The buffers after a client has taken in `reads`, each of the stream named
/// beside it.
pub open spec fn after_reads(
    buffers: Map<u64, Seq<u8>>,
    reads: Seq<(u64, StreamRead)>,
) -> Map<u64, Seq<u8>>
    decreases reads.len(),
{
    if reads.len() == 0 {
        buffers
    } else {
        after_read(after_reads(buffers, reads.drop_last()), reads.last().0, reads.last().1)
    }
}

/// The bytes that `reads` gave of stream `id`, in their order.
pub open spec fn bytes_of_stream(id: u64, reads: Seq<(u64, StreamRead)>) -> Seq<u8>
    decreases reads.len(),
{
    if reads.len() == 0 {
        Seq::empty()
    } else {
        let before = bytes_of_stream(id, reads.drop_last());
        if reads.last().0 == id {
            before + reads.last().1.bytes()
        } else {
            before
        }
    }
}

/// The bytes of `chunks`, one after the other.
pub open spec fn joined(chunks: Seq<Vec<u8>>) -> Seq<u8>
    decreases chunks.len(),
{
    if chunks.len() == 0 {
        Seq::empty()
    } else {
        joined(chunks.drop_last()) + chunks.last()@
    }
}

/// The `k`-th read of a stream that delivers `chunks`: the end of the stream
/// comes with the last of them.
pub open spec fn delivery(chunks: Seq<Vec<u8>>, k: int) -> StreamRead {
    StreamRead::Data { bytes: chunks[k], fin: k == chunks.len() - 1 }
}

/// Whether `chunks` are what reads of a stream can deliver: at least one read,
/// and bytes in each but the last.
pub open spec fn can_be_delivered(chunks: Seq<Vec<u8>>) -> bool {
    &&& chunks.len() > 0
    &&& forall|k: int| 0 <= k < chunks.len() - 1 ==> (#[trigger] chunks[k])@.len() > 0
}

/// The first `k` reads of stream `id`, which delivers `chunks`.
pub open spec fn deliveries(id: u64, chunks: Seq<Vec<u8>>, k: int) -> Seq<(u64, StreamRead)> {
    Seq::new(k as nat, |j: int| (id, delivery(chunks, j)))
}

/// A read tells its bytes, all of them, and the end of the stream; one that gave
/// nothing tells neither.
pub proof fn law_read_tells_its_bytes(bytes: Vec<u8>, fin: bool, reason: String)
    ensures
        (StreamRead::Data { bytes, fin }).bytes() == bytes@,
        (StreamRead::Data { bytes, fin }).ends_stream() == fin,
        StreamRead::Blocked.bytes().len() == 0 && !StreamRead::Blocked.ends_stream(),
        (StreamRead::Failed { reason }).bytes().len() == 0 && !(StreamRead::Failed {
            reason,
        }).ends_stream(),
{
}

/// Until a stream ends, its buffer grows by exactly the bytes of each read, at
/// its end, and nothing else changes.
pub proof fn law_bytes_are_kept_until_the_end(
    buffers: Map<u64, Seq<u8>>,
    id: u64,
    bytes: Vec<u8>,
    reason: String,
    other: u64,
)
    requires
        other != id,
    ensures
        ({
            let start: Seq<u8> = if buffers.contains_key(id) {
                buffers[id]
            } else {
                Seq::empty()
            };
            let after = after_read(buffers, id, StreamRead::Data { bytes, fin: false });
            &&& after.contains_key(id)
            &&& after[id].len() == start.len() + bytes@.len()
            &&& forall|i: int| 0 <= i < start.len() ==> after[id][i] == start[i]
            &&& forall|i: int|
                0 <= i < bytes@.len() ==> after[id][start.len() + i] == #[trigger] bytes@[i]
            &&& after_read(buffers, id, StreamRead::Blocked)[id] == start
            &&& after_read(buffers, id, StreamRead::Failed { reason })[id] == start
            &&& after.contains_key(other) <==> buffers.contains_key(other)
            &&& buffers.contains_key(other) ==> after[other] == buffers[other]
        }),
{
    let start = buffered(buffers, id);
    assert(start + Seq::<u8>::empty() =~= start);
}

/// A text that is not empty is returned only when the stream ends. A read that
/// gave bytes, however many, and did not end the stream asks for another, and no
/// other read does. A failure, and nothing else, returns its reason.
pub proof fn law_text_comes_only_at_the_end(
    buffers: Map<u64, Seq<u8>>,
    id: u64,
    read: StreamRead,
    step: ReadStep,
)
    requires
        is_read_step(buffers, id, read, step),
    ensures
        (step matches ReadStep::Return { result: Ok(text) } && text@.len() > 0) ==> (read
            matches StreamRead::Data { fin: true, .. }),
        step is ReadAgain <==> (read matches StreamRead::Data { bytes, fin: false }
            && bytes@.len() > 0),
        read matches StreamRead::Failed { reason } ==> step == (ReadStep::Return {
            result: Err(QuicError::StreamReadFailed { reason }),
        }),
        step matches ReadStep::Return { result: Err(_) } ==> read is Failed,
        read is Blocked ==> (step matches ReadStep::Return { result: Ok(text) } && text@.len()
            == 0),
{
}

/// Reading goes on until the stream has ended: while the steps that are returned
/// are obeyed, a stream that delivers `chunks` is read as often as there are
/// chunks, and the last step returns the text of all of them, after what had
/// arrived before.
///
/// `steps` are the steps that were returned; reading stops at the first that does
/// not ask for another read.
pub proof fn law_stream_is_read_to_its_end(
    buffers: Map<u64, Seq<u8>>,
    id: u64,
    chunks: Seq<Vec<u8>>,
    steps: Seq<ReadStep>,
)
    requires
        can_be_delivered(chunks),
        0 < steps.len() <= chunks.len(),
        forall|k: int|
            0 <= k < steps.len() ==> is_read_step(
                after_reads(buffers, deliveries(id, chunks, k)),
                id,
                delivery(chunks, k),
                #[trigger] steps[k],
            ),
        steps.len() == chunks.len() || !(steps.last() is ReadAgain),
    ensures
        steps.len() == chunks.len(),
        forall|k: int| 0 <= k < steps.len() - 1 ==> (#[trigger] steps[k]) is ReadAgain,
        steps.last() matches ReadStep::Return { result: Ok(text) } && text@
            == crate::text::lossy_text(buffered(buffers, id) + joined(chunks)),
{
    assert forall|k: int| 0 <= k < steps.len() && k < chunks.len() - 1 implies (
    #[trigger] steps[k]) is ReadAgain by {
        assert(chunks[k]@.len() > 0);
    }
    assert(steps.last() == steps[steps.len() - 1]);
    let n = chunks.len() - 1;
    let reads = deliveries(id, chunks, n);
    assert forall|i: int| 0 <= i < reads.len() && (#[trigger] reads[i]).0 == id implies
        !reads[i].1.ends_stream() by {}
    law_message_is_reassembled(buffers, id, reads);
    lemma_deliveries_join(id, chunks, n);
    assert(chunks.take(n) =~= chunks.drop_last());
    let start = buffered(buffers, id);
    assert(start + joined(chunks.drop_last()) + chunks.last()@ =~= start + joined(chunks));
}

pub(crate) proof fn lemma_deliveries_join(id: u64, chunks: Seq<Vec<u8>>, k: int)
    requires
        0 <= k < chunks.len(),
    ensures
        bytes_of_stream(id, deliveries(id, chunks, k)) == joined(chunks.take(k)),
    decreases k,
{
    if k > 0 {
        lemma_deliveries_join(id, chunks, k - 1);
        assert(deliveries(id, chunks, k).drop_last() =~= deliveries(id, chunks, k - 1));
        assert(chunks.take(k).drop_last() =~= chunks.take(k - 1));
    }
}

/// The texts that are not empty among those returned by the reads of stream
/// `id`.
pub open spec fn texts_returned(
    id: u64,
    reads: Seq<(u64, StreamRead)>,
    steps: Seq<ReadStep>,
) -> Seq<Seq<char>>
    decreases reads.len(),
{
    if reads.len() == 0 {
        Seq::empty()
    } else {
        let before = texts_returned(id, reads.drop_last(), steps.drop_last());
        match steps.last() {
            ReadStep::Return { result: Ok(text) } => if reads.last().0 == id && text@.len() > 0 {
                before.push(text@)
            } else {
                before
            },
            _ => before,
        }
    }
}

/// A message is returned exactly once and whole, by the read that ends its
/// stream, however the reads are cut and whatever other streams do between
/// them.
pub proof fn law_message_is_returned_once(
    buffers: Map<u64, Seq<u8>>,
    id: u64,
    reads: Seq<(u64, StreamRead)>,
    steps: Seq<ReadStep>,
)
    requires
        steps.len() == reads.len(),
        forall|i: int|
            0 <= i < reads.len() ==> is_read_step(
                after_reads(buffers, reads.take(i)),
                reads[i].0,
                reads[i].1,
                #[trigger] steps[i],
            ),
        forall|i: int|
            0 <= i < reads.len() - 1 && (#[trigger] reads[i]).0 == id
                ==> !reads[i].1.ends_stream(),
        reads.len() > 0,
        reads.last().0 == id,
        reads.last().1.ends_stream(),
    ensures
        ({
            let message = buffered(buffers, id) + bytes_of_stream(id, reads);
            texts_returned(id, reads, steps) == if message.len() > 0 {
                seq![crate::text::lossy_text(message)]
            } else {
                Seq::empty()
            }
        }),
{
    let before = reads.drop_last();
    let n = reads.len() - 1;
    assert(reads.take(n) =~= before);
    assert(steps[n] == steps.last());
    assert forall|i: int| 0 <= i < before.len() && (#[trigger] before[i]).0 == id implies
        !before[i].1.ends_stream() by {
        assert(before[i] == reads[i]);
    }
    assert forall|i: int| 0 <= i < before.len() implies is_read_step(
        after_reads(buffers, before.take(i)),
        before[i].0,
        before[i].1,
        #[trigger] steps.drop_last()[i],
    ) by {
        assert(before.take(i) =~= reads.take(i));
        assert(steps.drop_last()[i] == steps[i]);
    }
    lemma_no_text_before_the_end(buffers, id, before, steps.drop_last());
    law_message_is_reassembled(buffers, id, before);
    let start = buffered(buffers, id);
    assert(start + bytes_of_stream(id, before) + reads.last().1.bytes() =~= start
        + bytes_of_stream(id, reads));
    assert(texts_returned(id, before, steps.drop_last()) =~= Seq::<Seq<char>>::empty());
    let message = start + bytes_of_stream(id, reads);
    if message.len() > 0 {
        assert(Seq::<Seq<char>>::empty().push(crate::text::lossy_text(message)) =~= seq![
            crate::text::lossy_text(message),
        ]);
    }
}

proof fn lemma_no_text_before_the_end(
    buffers: Map<u64, Seq<u8>>,
    id: u64,
    reads: Seq<(u64, StreamRead)>,
    steps: Seq<ReadStep>,
)
    requires
        steps.len() == reads.len(),
        forall|i: int|
            0 <= i < reads.len() ==> is_read_step(
                after_reads(buffers, reads.take(i)),
                reads[i].0,
                reads[i].1,
                #[trigger] steps[i],
            ),
        forall|i: int|
            0 <= i < reads.len() && (#[trigger] reads[i]).0 == id ==> !reads[i].1.ends_stream(),
    ensures
        texts_returned(id, reads, steps).len() == 0,
    decreases reads.len(),
{
    if reads.len() > 0 {
        let before = reads.drop_last();
        assert forall|i: int| 0 <= i < before.len() implies is_read_step(
            after_reads(buffers, before.take(i)),
            before[i].0,
            before[i].1,
            #[trigger] steps.drop_last()[i],
        ) by {
            assert(before.take(i) =~= reads.take(i));
            assert(steps.drop_last()[i] == steps[i]);
        }
        assert forall|i: int| 0 <= i < before.len() && (#[trigger] before[i]).0 == id implies
            !before[i].1.ends_stream() by {
            assert(before[i] == reads[i]);
        }
        lemma_no_text_before_the_end(buffers, id, before, steps.drop_last());
        assert(steps.last() == steps[reads.len() - 1]);
        assert(reads.last() == reads[reads.len() - 1]);
    }
}

/// The bytes of a stream are those of its buffer, and none where it has no
/// buffer.
pub proof fn law_missing_buffer_holds_no_bytes(buffers: Map<u64, Seq<u8>>, id: u64)
    ensures
        buffers.contains_key(id) ==> buffered(buffers, id) == buffers[id],
        !buffers.contains_key(id) ==> buffered(buffers, id).len() == 0,
{
}

/// A read of one stream leaves the bytes of every other stream as they are.
pub proof fn law_streams_do_not_interfere(
    buffers: Map<u64, Seq<u8>>,
    id: u64,
    read: StreamRead,
    other: u64,
)
    requires
        other != id,
    ensures
        buffered(after_read(buffers, id, read), other) == buffered(buffers, other),
{
}

/// However the reads of a stream are cut and whatever other streams do between
/// them, the buffer of the stream holds its bytes in the order in which they
/// came.
pub proof fn law_message_is_reassembled(
    buffers: Map<u64, Seq<u8>>,
    id: u64,
    reads: Seq<(u64, StreamRead)>,
)
    requires
        forall|i: int|
            0 <= i < reads.len() && (#[trigger] reads[i]).0 == id ==> !reads[i].1.ends_stream(),
    ensures
        buffered(after_reads(buffers, reads), id) == buffered(buffers, id) + bytes_of_stream(
            id,
            reads,
        ),
    decreases reads.len(),
{
    if reads.len() == 0 {
        assert(bytes_of_stream(id, reads) =~= Seq::<u8>::empty());
    } else {
        let before = reads.drop_last();
        assert forall|i: int| 0 <= i < before.len() && (#[trigger] before[i]).0 == id implies
            !before[i].1.ends_stream() by {
            assert(before[i] == reads[i]);
        }
        law_message_is_reassembled(buffers, id, before);
        assert(reads.last() == reads[reads.len() - 1]);
        assert(buffered(buffers, id) + bytes_of_stream(id, before) + reads.last().1.bytes()
            =~= buffered(buffers, id) + (bytes_of_stream(id, before) + reads.last().1.bytes()));
    }
}

/// Once a message has been returned nothing of it is left.
pub proof fn law_returned_message_leaves_no_buffer(
    buffers: Map<u64, Seq<u8>>,
    id: u64,
    read: StreamRead,
)
    requires
        read.ends_stream(),
    ensures
        !after_read(buffers, id, read).contains_key(id),
{
}

} // verus!
