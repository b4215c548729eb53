use vstd::prelude::*;

verus! {

/// The model of one sink pipeline: the queue's pending messages (front
/// first, `None` standing for the close sentinel), what has been
/// delivered to the sink so far (known exactly for capture sinks, `None`
/// for real output streams), and whether the consumer's task slot is
/// still occupied (no close has taken it yet).
#[verifier::ext_equal]
pub ghost struct StreamModel {
    pub queue: Seq<Option<Seq<char>>>,
    pub captured: Option<Seq<Seq<char>>>,
    pub open: bool,
}

/// The model of the whole channel: one stream per sink.
#[verifier::ext_equal]
pub ghost struct ChannelModel {
    pub primary: StreamModel,
    pub secondary: StreamModel,
}

/// Does the queue hold a close sentinel anywhere?
pub open spec fn has_close(queue: Seq<Option<Seq<char>>>) -> bool {
    exists|i: int| 0 <= i < queue.len() && queue[i] is None
}

/// The payloads a consumer delivers from `queue`: every line before the
/// first close sentinel, in queue order.
pub open spec fn delivered_prefix(queue: Seq<Option<Seq<char>>>) -> Seq<Seq<char>>
    decreases queue.len(),
{
    if queue.len() == 0 {
        Seq::empty()
    } else {
        match queue.first() {
            Some(v) => seq![v] + delivered_prefix(queue.drop_first()),
            None => Seq::empty(),
        }
    }
}

/// What remains queued once the consumer has drained up to and consumed
/// the first close sentinel (everything, if there is none to consume).
pub open spec fn after_close(queue: Seq<Option<Seq<char>>>) -> Seq<Option<Seq<char>>>
    decreases queue.len(),
{
    if queue.len() == 0 {
        queue
    } else if queue.first() is None {
        queue.drop_first()
    } else {
        after_close(queue.drop_first())
    }
}

/// A fresh stream: empty queue, the given delivery record, consumer pending.
pub open spec fn fresh_stream(captured: Option<Seq<Seq<char>>>) -> StreamModel {
    StreamModel { queue: Seq::empty(), captured, open: true }
}

/// Enqueuing one line on a stream.
pub open spec fn stream_send(s: StreamModel, item: Seq<char>) -> StreamModel {
    StreamModel { queue: s.queue.push(Some(item)), ..s }
}

/// Closing one stream: the close sentinel joins the queue behind
/// everything already enqueued; if the consumer was still pending, it
/// drains every line up to the sentinel into the sink and its task slot
/// is emptied; on a stream already closed the sentinel merely stays
/// queued (nothing will ever drain it).
pub open spec fn stream_close(s: StreamModel) -> StreamModel {
    let q = s.queue.push(None);
    if s.open {
        StreamModel {
            queue: after_close(q),
            captured: match s.captured {
                Some(c) => Some(c + delivered_prefix(q)),
                None => None,
            },
            open: false,
        }
    } else {
        StreamModel { queue: q, ..s }
    }
}

/// A close pushed its sentinel onto this stream but never drained it:
/// the queue merely grew by the sentinel and everything else — record,
/// task slot — stands as it was. This is the state of a stream whose
/// slot was already empty, and of the secondary stream when the primary
/// one failed first.
pub open spec fn stream_sentinel_queued(s: StreamModel, t: StreamModel) -> bool {
    t == (StreamModel { queue: s.queue.push(None), ..s })
}

/// A close reached this stream but its drain stopped early on a write
/// failure: the task slot was taken, the sink's record is unchanged
/// (only a real output stream can fail), and the sentinel is still
/// queued with everything behind it untouched — those lines are
/// abandoned, never delivered.
pub open spec fn stream_close_failed(s: StreamModel, t: StreamModel) -> bool {
    &&& !t.open
    &&& t.captured == s.captured
    &&& has_close(t.queue)
    &&& after_close(t.queue) == after_close(s.queue.push(None))
}

/// Enqueuing one line for the primary sink.
pub open spec fn channel_send(c: ChannelModel, item: Seq<char>) -> ChannelModel {
    ChannelModel { primary: stream_send(c.primary, item), ..c }
}

/// Enqueuing one line for the secondary sink.
pub open spec fn channel_send_err(c: ChannelModel, item: Seq<char>) -> ChannelModel {
    ChannelModel { secondary: stream_send(c.secondary, item), ..c }
}

/// Closing the whole channel: both streams close, primary first.
pub open spec fn channel_close(c: ChannelModel) -> ChannelModel {
    ChannelModel { primary: stream_close(c.primary), secondary: stream_close(c.secondary) }
}

} // verus!
