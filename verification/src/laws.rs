use vstd::prelude::*;
use crate::model::{
    after_close, channel_close, channel_send, channel_send_err, delivered_prefix, fresh_stream,
    stream_close, stream_send, ChannelModel, StreamModel,
};

verus! {

/// The queue entries produced by sending each of `items`, in order.
pub open spec fn as_messages(items: Seq<Seq<char>>) -> Seq<Option<Seq<char>>> {
    items.map_values(|v: Seq<char>| Some(v))
}

/// Sending a run of lines on one stream, first element first.
pub open spec fn stream_send_all(s: StreamModel, items: Seq<Seq<char>>) -> StreamModel
    decreases items.len(),
{
    if items.len() == 0 {
        s
    } else {
        stream_send_all(stream_send(s, items.first()), items.drop_first())
    }
}

proof fn lemma_send_all_queue(s: StreamModel, items: Seq<Seq<char>>)
    ensures
        stream_send_all(s, items).queue =~= s.queue + as_messages(items),
        stream_send_all(s, items).captured == s.captured,
        stream_send_all(s, items).open == s.open,
    decreases items.len(),
{
    if items.len() == 0 {
    } else {
        lemma_send_all_queue(stream_send(s, items.first()), items.drop_first());
        assert(s.queue.push(Some(items.first())) + as_messages(items.drop_first()) =~= s.queue
            + as_messages(items));
    }
}

proof fn lemma_drain_all(items: Seq<Seq<char>>)
    ensures
        delivered_prefix(as_messages(items).push(None)) =~= items,
        after_close(as_messages(items).push(None)) =~= Seq::<Option<Seq<char>>>::empty(),
    decreases items.len(),
{
    let q = as_messages(items).push(None);
    if items.len() == 0 {
        assert(q.first() is None);
    } else {
        lemma_drain_all(items.drop_first());
        assert(q.first() == Some(items.first()));
        assert(q.drop_first() =~= as_messages(items.drop_first()).push(None));
        assert(delivered_prefix(q) =~= seq![items.first()] + delivered_prefix(q.drop_first()));
        assert(seq![items.first()] + items.drop_first() =~= items);
    }
}

/// Law: first-in first-out delivery with a complete flush. Open a fresh
/// stream over a capture sink that has already recorded `captured`, send
/// the lines `items` on it in that order, then close it: the sink's
/// record afterwards is exactly `captured` followed by `items` — every
/// line delivered, in send order and by value — the consumer has
/// terminated, and its queue is empty.
pub proof fn lemma_fifo_flush(captured: Seq<Seq<char>>, items: Seq<Seq<char>>)
    ensures
        stream_close(stream_send_all(fresh_stream(Some(captured)), items)).captured == Some(
            captured + items,
        ),
        stream_close(stream_send_all(fresh_stream(Some(captured)), items)).queue =~= Seq::<
            Option<Seq<char>>,
        >::empty(),
        !stream_close(stream_send_all(fresh_stream(Some(captured)), items)).open,
{
    let fresh = fresh_stream(Some(captured));
    lemma_send_all_queue(fresh, items);
    let s = stream_send_all(fresh, items);
    assert(s.queue =~= as_messages(items));
    lemma_drain_all(items);
    assert(s.queue.push(None) =~= as_messages(items).push(None));
    assert(captured + delivered_prefix(s.queue.push(None)) =~= captured + items);
}

/// A fresh channel over two capture sinks with the given prior records.
pub open spec fn fresh_channel(
    primary_captured: Seq<Seq<char>>,
    secondary_captured: Seq<Seq<char>>,
) -> ChannelModel {
    ChannelModel {
        primary: fresh_stream(Some(primary_captured)),
        secondary: fresh_stream(Some(secondary_captured)),
    }
}

/// An interleaved run of sends: each call is a line and the flag saying
/// whether it went to the primary sink (`true`) or the secondary one.
pub open spec fn channel_send_seq(c: ChannelModel, calls: Seq<(bool, Seq<char>)>) -> ChannelModel
    decreases calls.len(),
{
    if calls.len() == 0 {
        c
    } else if calls.first().0 {
        channel_send_seq(channel_send(c, calls.first().1), calls.drop_first())
    } else {
        channel_send_seq(channel_send_err(c, calls.first().1), calls.drop_first())
    }
}

/// The lines of an interleaved run that went to the primary sink, in order.
pub open spec fn primary_items(calls: Seq<(bool, Seq<char>)>) -> Seq<Seq<char>>
    decreases calls.len(),
{
    if calls.len() == 0 {
        Seq::empty()
    } else if calls.first().0 {
        seq![calls.first().1] + primary_items(calls.drop_first())
    } else {
        primary_items(calls.drop_first())
    }
}

/// The lines of an interleaved run that went to the secondary sink, in order.
pub open spec fn secondary_items(calls: Seq<(bool, Seq<char>)>) -> Seq<Seq<char>>
    decreases calls.len(),
{
    if calls.len() == 0 {
        Seq::empty()
    } else if calls.first().0 {
        secondary_items(calls.drop_first())
    } else {
        seq![calls.first().1] + secondary_items(calls.drop_first())
    }
}

proof fn lemma_send_all_step(s: StreamModel, v: Seq<char>, items: Seq<Seq<char>>)
    ensures
        stream_send_all(s, seq![v] + items) == stream_send_all(stream_send(s, v), items),
{
    let all = seq![v] + items;
    assert(all.first() == v);
    assert(all.drop_first() =~= items);
}

proof fn lemma_interleaving(c: ChannelModel, calls: Seq<(bool, Seq<char>)>)
    ensures
        channel_send_seq(c, calls).primary == stream_send_all(c.primary, primary_items(calls)),
        channel_send_seq(c, calls).secondary == stream_send_all(
            c.secondary,
            secondary_items(calls),
        ),
    decreases calls.len(),
{
    if calls.len() == 0 {
    } else {
        let v = calls.first().1;
        if calls.first().0 {
            lemma_interleaving(channel_send(c, v), calls.drop_first());
            lemma_send_all_step(c.primary, v, primary_items(calls.drop_first()));
        } else {
            lemma_interleaving(channel_send_err(c, v), calls.drop_first());
            lemma_send_all_step(c.secondary, v, secondary_items(calls.drop_first()));
        }
    }
}

/// Law: an arbitrary interleaving of sends on a fresh capture channel,
/// followed by one close, hands each sink exactly its own lines — every
/// line delivered (none dropped on a clean shutdown), in send order, by
/// value, and never on the other sink.
pub proof fn lemma_interleaved_delivery(
    primary_captured: Seq<Seq<char>>,
    secondary_captured: Seq<Seq<char>>,
    calls: Seq<(bool, Seq<char>)>,
)
    ensures
        channel_close(channel_send_seq(fresh_channel(primary_captured, secondary_captured), calls))
            .primary.captured == Some(primary_captured + primary_items(calls)),
        channel_close(channel_send_seq(fresh_channel(primary_captured, secondary_captured), calls))
            .secondary.captured == Some(secondary_captured + secondary_items(calls)),
{
    let c = fresh_channel(primary_captured, secondary_captured);
    lemma_interleaving(c, calls);
    lemma_fifo_flush(primary_captured, primary_items(calls));
    lemma_fifo_flush(secondary_captured, secondary_items(calls));
}

/// Law: stream independence. A send for one sink changes nothing about
/// the other sink's stream, and what the other sink ends up observing
/// after a close is the same whether or not the send happened.
pub proof fn lemma_stream_independence(c: ChannelModel, item: Seq<char>)
    ensures
        channel_send(c, item).secondary == c.secondary,
        channel_send_err(c, item).primary == c.primary,
        channel_close(channel_send(c, item)).secondary == channel_close(c).secondary,
        channel_close(channel_send_err(c, item)).primary == channel_close(c).primary,
{
}

/// Law: close is idempotent. Closing an already-closed channel delivers
/// nothing further to either sink — no line is duplicated — and both
/// consumers stay terminated.
pub proof fn lemma_close_idempotent(c: ChannelModel)
    ensures
        channel_close(channel_close(c)).primary.captured == channel_close(c).primary.captured,
        channel_close(channel_close(c)).secondary.captured == channel_close(c).secondary.captured,
        !channel_close(channel_close(c)).primary.open,
        !channel_close(channel_close(c)).secondary.open,
{
}

} // verus!
