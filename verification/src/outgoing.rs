//! Bytes on their way to a stream that takes only what it has room for.
//!
//! What a stream has not taken is offered again, from the first byte that it has
//! not taken and up to a limit of bytes at once. Each offer that reaches the end
//! of the bytes carries the mark of the end, which the stream takes together
//! with the last byte.

use vstd::prelude::*;

verus! {

/// Where the offer ends that starts at `sent`, of `len` bytes.
pub open spec fn offer_end(len: int, sent: int, limit: int) -> int {
    if len - sent <= limit {
        len
    } else {
        sent + limit
    }
}

/// The bytes of `data` that are offered when `sent` of them have been taken.
pub open spec fn offer_at(data: Seq<u8>, sent: int, limit: int) -> Seq<u8> {
    data.subrange(sent, offer_end(data.len() as int, sent, limit))
}

/// How many bytes have been taken after a write took `written` more.
pub open spec fn sent_after_write(sent: int, written: int) -> int {
    sent + written
}

/// How many bytes have been taken after `writes`.
pub open spec fn sent_after_writes(writes: Seq<int>) -> int
    decreases writes.len(),
{
    if writes.len() == 0 {
        0
    } else {
        sent_after_write(sent_after_writes(writes.drop_last()), writes.last())
    }
}

/// The bytes on the stream after it took `writes[i]` bytes of the `i`-th offer.
pub open spec fn stream_after_writes(data: Seq<u8>, limit: int, writes: Seq<int>) -> Seq<u8>
    decreases writes.len(),
{
    if writes.len() == 0 {
        Seq::empty()
    } else {
        let before = writes.drop_last();
        stream_after_writes(data, limit, before) + offer_at(
            data,
            sent_after_writes(before),
            limit,
        ).take(writes.last())
    }
}

/// Whether each write took no more than it was offered.
pub open spec fn writes_fit(data: Seq<u8>, limit: int, writes: Seq<int>) -> bool {
    forall|i: int|
        0 <= i < writes.len() ==> 0 <= #[trigger] writes[i] <= offer_at(
            data,
            sent_after_writes(writes.take(i)),
            limit,
        ).len()
}

/// Whether the `i`-th write took the mark of the end: the offer reached the end
/// of the bytes, and all of it was taken.
pub open spec fn write_ends_stream(data: Seq<u8>, limit: int, writes: Seq<int>, i: int) -> bool {
    let sent = sent_after_writes(writes.take(i));
    &&& offer_end(data.len() as int, sent, limit) == data.len()
    &&& writes[i] == offer_at(data, sent, limit).len()
}

proof fn lemma_fewer_writes_fit(data: Seq<u8>, limit: int, writes: Seq<int>)
    requires
        writes_fit(data, limit, writes),
        writes.len() > 0,
    ensures
        writes_fit(data, limit, writes.drop_last()),
        writes.take(writes.len() - 1) == writes.drop_last(),
        0 <= writes.last() <= offer_at(
            data,
            sent_after_writes(writes.drop_last()),
            limit,
        ).len(),
{
    let before = writes.drop_last();
    assert forall|i: int| 0 <= i < before.len() implies 0 <= #[trigger] before[i] <= offer_at(
        data,
        sent_after_writes(before.take(i)),
        limit,
    ).len() by {
        assert(before[i] == writes[i]);
        assert(before.take(i) =~= writes.take(i));
    }
    assert(writes.take(writes.len() - 1) =~= before);
    assert(writes.last() == writes[writes.len() - 1]);
}

/// However little the stream takes at once, it holds exactly the bytes that
/// count as sent, in their order, none missing and none twice. When all of them
/// count as sent, it holds all of them.
pub proof fn law_stream_holds_what_was_sent(data: Seq<u8>, limit: int, writes: Seq<int>)
    requires
        limit >= 0,
        writes_fit(data, limit, writes),
    ensures
        0 <= sent_after_writes(writes) <= data.len(),
        stream_after_writes(data, limit, writes) == data.take(sent_after_writes(writes)),
        sent_after_writes(writes) == data.len() ==> stream_after_writes(data, limit, writes)
            == data,
    decreases writes.len(),
{
    if writes.len() == 0 {
        assert(data.take(0) =~= Seq::<u8>::empty());
    } else {
        lemma_fewer_writes_fit(data, limit, writes);
        law_stream_holds_what_was_sent(data, limit, writes.drop_last());
        let sent = sent_after_writes(writes.drop_last());
        assert(data.take(sent) + offer_at(data, sent, limit).take(writes.last()) =~= data.take(
            sent + writes.last(),
        ));
    }
    assert(data.take(data.len() as int) =~= data);
}

/// The end of the stream is marked once: where bytes were left at each offer,
/// the mark is taken by the write that takes the last byte and by no other.
pub proof fn law_stream_ends_with_the_last_byte(
    data: Seq<u8>,
    limit: int,
    writes: Seq<int>,
    i: int,
)
    requires
        limit >= 0,
        writes_fit(data, limit, writes),
        forall|j: int|
            0 <= j < writes.len() ==> sent_after_writes(#[trigger] writes.take(j)) < data.len(),
        0 <= i < writes.len(),
    ensures
        write_ends_stream(data, limit, writes, i) <==> i == writes.len() - 1
            && sent_after_writes(writes) == data.len(),
    decreases writes.len(),
{
    lemma_fewer_writes_fit(data, limit, writes);
    let before = writes.drop_last();
    assert forall|j: int| 0 <= j < before.len() implies sent_after_writes(
        #[trigger] before.take(j),
    ) < data.len() by {
        assert(before.take(j) =~= writes.take(j));
    }
    law_stream_holds_what_was_sent(data, limit, before);
    if i < writes.len() - 1 {
        law_stream_ends_with_the_last_byte(data, limit, before, i);
        assert(before.take(i) =~= writes.take(i));
        assert(before[i] == writes[i]);
        assert(sent_after_writes(writes.take(writes.len() - 1)) < data.len());
    }
}

} // verus!
