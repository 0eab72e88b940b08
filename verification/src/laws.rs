//! What holds of a client over several calls, whatever the device sends.
use crate::client::{answer, seq_after, ClientView, EVENT_QUEUE_CAPACITY};
use crate::command::{
    Cmd, BATTERY_STATUS_TOPIC, CONNECTION_CHANGE, GET_CAPABILITIES, GET_VERSION, LAYER_CHANGE,
    LED_INDICATOR, SLEEP_STATE, WPM_UPDATE,
};
use crate::error::{DecodeError, DeviceError, RequestError};
use crate::event::{event_of, EventView, TopicView};
use crate::frame::{
    conforming, cut, cut_loses_nothing, declared_len, frame_is_cut_back, oversized, stream, Cut,
    FrameView, RYNK_HEADER_SIZE, RYNK_MIN_BUFFER_SIZE,
};
use crate::handshake::{mismatch, HandshakeView, Stage, StepView};
use crate::payload::{BehaviorConfig, DeviceCapabilities, ProtocolVersion, CURRENT_MAJOR};
use crate::reply::Reply;
use crate::status::{
    battery_is_read_back, connection_is_read_back, BatteryStatus, ConnectionStatus, LedIndicator,
};
use crate::transport::TransportError;
use crate::wire::{
    acceptance_is_read_back, admits, envelope_body, fields_are_read_back, put_accept, put_fields,
    rejection_is_read_back, rynk_error, scalars_are_read_back, varint, Field,
};
use vstd::prelude::*;

verus! {

// Sequence numbers.

/// The sequence number `n` requests after `seq`.
pub open spec fn seq_after_many(seq: u8, n: nat) -> u8
    decreases n,
{
    if n == 0 {
        seq
    } else {
        seq_after(seq_after_many(seq, (n - 1) as nat))
    }
}

/// Sequence numbers cycle through `1..=255`: zero is never used, and a number
/// comes back after 255 requests and not before. A reply to any of the 254
/// requests before the pending one therefore carries another number.
pub proof fn sequence_numbers_cycle(seq: u8, n: nat)
    requires
        seq >= 1,
    ensures
        seq_after_many(seq, n) == (seq - 1 + n) % 255 + 1,
        seq_after_many(seq, n) >= 1,
        0 < n < 255 ==> seq_after_many(seq, n) != seq,
        n == 255 ==> seq_after_many(seq, n) == seq,
    decreases n,
{
    if n > 0 {
        sequence_numbers_cycle(seq, (n - 1) as nat);
    }
}

// What every operation keeps.

/// Every operation of a client keeps its invariant, from the first state on.
pub proof fn invariant_is_kept(
    c: ClientView,
    cmd: Cmd,
    payload: Option<Seq<u8>>,
    topic: TopicView,
    chunk: Seq<u8>,
    seq: u8,
    caps: DeviceCapabilities,
)
    requires
        c.wf(),
        topic.cmd.topic(),
    ensures
        ClientView::fresh().wf(),
        c.request(cmd, payload).0.wf(),
        c.notify(cmd, payload).0.wf(),
        c.queue(topic).wf(),
        c.receive(chunk).wf(),
        c.fail().wf(),
        (ClientView { rx: seq![], ..c }).wf(),
        c.await_reply(seq).0.wf(),
        c.next_topic().0.wf(),
        c.caps is None ==> c.negotiate(caps).wf(),
{
    waiting_keeps(c, seq);
    topics_keep(c);
    assert(c.queue(topic).wf()) by {
        queueing_keeps(c, topic);
    }
    assert forall|i: int| 0 <= i < c.next_topic().0.events.len() implies (
    #[trigger] c.next_topic().0.events[i]).cmd.topic() by {
        if c.events.len() > 0 {
            assert(c.events[i + 1].cmd.topic());
        }
    }
}

proof fn queueing_keeps(c: ClientView, topic: TopicView)
    requires
        c.wf(),
        topic.cmd.topic(),
    ensures
        c.queue(topic).wf(),
{
    let after = c.queue(topic);
    assert forall|i: int| 0 <= i < after.events.len() implies (
    #[trigger] after.events[i]).cmd.topic() by {
        if c.events.len() == EVENT_QUEUE_CAPACITY {
            if i < after.events.len() - 1 {
                assert(after.events[i] == c.events[i + 1]);
            }
        } else if i < c.events.len() {
            assert(after.events[i] == c.events[i]);
        }
    }
}

/// Waiting for a reply keeps the invariant, and leaves alone what it has no
/// part in.
proof fn waiting_keeps(c: ClientView, seq: u8)
    ensures
        c.wf() ==> c.await_reply(seq).0.wf(),
        c.await_reply(seq).0 == (ClientView {
            rx: c.await_reply(seq).0.rx,
            events: c.await_reply(seq).0.events,
            dropped: c.await_reply(seq).0.dropped,
            ..c
        }),
    decreases c.rx.len(),
{
    match cut(c.rx, c.max_frame()) {
        Cut::Partial { rest } => {},
        Cut::Whole { frame, rest } => {
            let after = ClientView { rx: rest, ..c };
            let topic = TopicView { cmd: frame.cmd, payload: frame.payload };
            if frame.cmd.topic() {
                if c.wf() {
                    queueing_keeps(after, topic);
                }
                waiting_keeps(after.queue(topic), seq);
            } else if frame.seq != seq {
                waiting_keeps(after, seq);
            }
        },
    }
}

/// Reading topics changes the buffer alone.
proof fn topics_keep(c: ClientView)
    ensures
        c.await_topic().0 == (ClientView { rx: c.await_topic().0.rx, ..c }),
    decreases c.rx.len(),
{
    match cut(c.rx, c.max_frame()) {
        Cut::Partial { rest } => {},
        Cut::Whole { frame, rest } => {
            if !frame.cmd.topic() {
                topics_keep(ClientView { rx: rest, ..c });
            }
        },
    }
}

/// The negotiated limits never change after the handshake, whatever happens.
pub proof fn negotiated_limits_stay(
    c: ClientView,
    cmd: Cmd,
    payload: Option<Seq<u8>>,
    chunk: Seq<u8>,
    seq: u8,
)
    ensures
        c.request(cmd, payload).0.caps == c.caps,
        c.receive(chunk).caps == c.caps,
        c.fail().caps == c.caps,
        c.await_reply(seq).0.caps == c.caps,
        c.next_topic().0.caps == c.caps,
        c.request(cmd, payload).0.tx_size == c.tx_size,
        c.receive(chunk).tx_size == c.tx_size,
        c.fail().tx_size == c.tx_size,
        c.await_reply(seq).0.tx_size == c.tx_size,
        c.next_topic().0.tx_size == c.tx_size,
        c.request(cmd, payload).0.version == c.version,
        c.receive(chunk).version == c.version,
        c.fail().version == c.version,
        c.await_reply(seq).0.version == c.version,
        c.next_topic().0.version == c.version,
{
    waiting_keeps(c, seq);
    topics_keep(c);
}

// Dead links.

/// Over a dead link every request fails at once, nothing is encoded, and
/// nothing but queued topics is handed out.
pub proof fn dead_link_fails_fast(c: ClientView, cmd: Cmd, payload: Option<Seq<u8>>)
    requires
        c.dead,
    ensures
        !cmd.topic() ==> c.request(cmd, payload) == (
            c,
            Err::<FrameView, RequestError>(RequestError::Transport(TransportError::Disconnected)),
        ),
        c.notify(cmd, payload) == (
            c,
            Err::<FrameView, RequestError>(RequestError::Transport(TransportError::Disconnected)),
        ),
        c.events.len() == 0 ==> c.next_topic() == (
            c,
            Some(Err::<TopicView, TransportError>(TransportError::Disconnected)),
        ),
{
}

/// Nothing revives a dead link, and nothing but a failed send or receive kills
/// a live one: a request that is refused locally does not.
pub proof fn only_the_link_kills(
    c: ClientView,
    cmd: Cmd,
    payload: Option<Seq<u8>>,
    chunk: Seq<u8>,
    seq: u8,
)
    ensures
        c.request(cmd, payload).0.dead == c.dead,
        c.notify(cmd, payload).0.dead == c.dead,
        c.receive(chunk).dead == c.dead,
        (ClientView { rx: seq![], ..c }).dead == c.dead,
        c.await_reply(seq).0.dead == c.dead,
        c.next_topic().0.dead == c.dead,
        c.fail().dead,
{
    waiting_keeps(c, seq);
    topics_keep(c);
}

/// Opening a request, refused or not, moves the sequence number at most:
/// nothing that was received or queued is touched.
pub proof fn requests_touch_the_sequence_number_alone(
    c: ClientView,
    cmd: Cmd,
    payload: Option<Seq<u8>>,
)
    ensures
        c.request(cmd, payload).0 == (ClientView {
            next_seq: c.request(cmd, payload).0.next_seq,
            ..c
        }),
        c.request(cmd, payload).0.next_seq == c.next_seq || c.request(cmd, payload).0.next_seq
            == seq_after(c.next_seq),
        c.request(cmd, payload).1 is Ok ==> c.request(cmd, payload).0.next_seq == seq_after(
            c.next_seq,
        ),
{
}

/// Over a live link any request within the negotiated limit encodes. One over it
/// is refused: as too large where the transmit scratch, which never shrinks below
/// the protocol floor, still holds it, and as not encodable where not even that
/// does.
pub proof fn requests_within_the_limit_encode(c: ClientView, cmd: Cmd, payload: Seq<u8>)
    requires
        c.wf(),
        !c.dead,
        !cmd.topic(),
    ensures
        ({
            let frame = FrameView { cmd, seq: c.next_seq, payload };
            c.request(cmd, Some(payload)).1 == if frame.len() <= c.max_frame() {
                Ok::<FrameView, RequestError>(frame)
            } else if frame.len() <= RYNK_MIN_BUFFER_SIZE {
                Err(
                    RequestError::TooLarge {
                        cmd,
                        frame_len: frame.len() as usize,
                        max: c.max_frame() as usize,
                    },
                )
            } else {
                Err(RequestError::Encode(cmd))
            }
        }),
{
}

/// What a client sends reaches the device as it was asked: the device cuts the
/// bytes back to the command, the sequence number and the payload.
pub proof fn requests_reach_the_device(c: ClientView, cmd: Cmd, payload: Seq<u8>, tail: Seq<u8>)
    requires
        c.request(cmd, Some(payload)).1 is Ok,
    ensures
        ({
            let frame = c.request(cmd, Some(payload)).1->Ok_0;
            &&& frame == (FrameView { cmd, seq: c.next_seq, payload })
            &&& cut(frame.bytes() + tail, c.max_frame()) == (Cut::Whole { frame, rest: tail })
        }),
{
    frame_is_cut_back(c.request(cmd, Some(payload)).1->Ok_0, tail, c.max_frame());
}

// Replies.

impl ClientView {
    /// What frames other than the reply do while a client waits: topics are
    /// queued in order, the others are skipped.
    pub open spec fn queue_topics(self, frames: Seq<FrameView>) -> ClientView
        decreases frames.len(),
    {
        if frames.len() == 0 {
            self
        } else if frames[0].cmd.topic() {
            self.queue(
                TopicView { cmd: frames[0].cmd, payload: frames[0].payload },
            ).queue_topics(frames.drop_first())
        } else {
            self.queue_topics(frames.drop_first())
        }
    }
}

/// Whether a client that waits for `seq` passes over the frame.
pub open spec fn passed_over(frame: FrameView, seq: u8) -> bool {
    frame.cmd.topic() || frame.seq != seq
}

/// Whether a peer within the limit can send the frame.
pub open spec fn sendable(frame: FrameView, max: nat) -> bool {
    frame.encodable() && frame.len() <= max
}

proof fn queueing_ignores_the_buffer(c: ClientView, rx: Seq<u8>, frames: Seq<FrameView>)
    ensures
        (ClientView { rx, ..c }).queue_topics(frames) == (ClientView {
            rx,
            ..c.queue_topics(frames)
        }),
        c.queue_topics(frames).caps == c.caps,
        c.queue_topics(frames).version == c.version,
        c.queue_topics(frames).dead == c.dead,
        c.queue_topics(frames).next_seq == c.next_seq,
        c.queue_topics(frames).tx_size == c.tx_size,
    decreases frames.len(),
{
    if frames.len() > 0 {
        let topic = TopicView { cmd: frames[0].cmd, payload: frames[0].payload };
        if frames[0].cmd.topic() {
            assert((ClientView { rx, ..c }).queue(topic) == (ClientView { rx, ..c.queue(topic) }));
            queueing_ignores_the_buffer(c.queue(topic), rx, frames.drop_first());
        } else {
            queueing_ignores_the_buffer(c, rx, frames.drop_first());
        }
    }
}

/// The reply is found behind whatever else the device sends: late replies to
/// earlier requests are skipped, topics are queued in the order in which they
/// came, and what follows the reply stays buffered.
pub proof fn reply_is_found(
    c: ClientView,
    others: Seq<FrameView>,
    reply: FrameView,
    tail: Seq<u8>,
    seq: u8,
)
    requires
        c.rx == stream(others) + reply.bytes() + tail,
        forall|i: int|
            0 <= i < others.len() ==> sendable(#[trigger] others[i], c.max_frame()) && passed_over(
                others[i],
                seq,
            ),
        sendable(reply, c.max_frame()),
        !passed_over(reply, seq),
    ensures
        c.await_reply(seq) == (ClientView { rx: tail, ..c.queue_topics(others) }, Some(reply)),
    decreases others.len(),
{
    let max = c.max_frame();
    if others.len() == 0 {
        assert(c.rx =~= reply.bytes() + tail);
        frame_is_cut_back(reply, tail, max);
    } else {
        let first = others[0];
        let later = others.drop_first();
        let rest = stream(later) + reply.bytes() + tail;
        assert(c.rx =~= first.bytes() + rest);
        assert(sendable(first, max) && passed_over(first, seq));
        frame_is_cut_back(first, rest, max);
        assert forall|i: int| 0 <= i < later.len() implies sendable(#[trigger] later[i], max)
            && passed_over(later[i], seq) by {
            assert(sendable(others[i + 1], max) && passed_over(others[i + 1], seq));
        }
        let after = ClientView { rx: rest, ..c };
        let topic = TopicView { cmd: first.cmd, payload: first.payload };
        if first.cmd.topic() {
            reply_is_found(after.queue(topic), later, reply, tail, seq);
            assert(after.queue(topic) == (ClientView { rx: rest, ..c.queue(topic) }));
            queueing_ignores_the_buffer(c.queue(topic), rest, later);
        } else {
            reply_is_found(after, later, reply, tail, seq);
            queueing_ignores_the_buffer(c, rest, later);
        }
    }
}

/// A reply that comes late, after the caller gave up and asked again, is not
/// taken for the reply to a later request: the one `n` requests on, up to 254.
pub proof fn late_reply_is_dropped(c: ClientView, late: FrameView, reply: FrameView, n: nat)
    requires
        late.seq >= 1,
        0 < n < 255,
        reply.seq == seq_after_many(late.seq, n),
        !late.cmd.topic(),
        !reply.cmd.topic(),
        sendable(late, c.max_frame()),
        sendable(reply, c.max_frame()),
        c.rx == late.bytes() + reply.bytes(),
    ensures
        c.await_reply(reply.seq) == (ClientView { rx: seq![], ..c }, Some(reply)),
{
    sequence_numbers_cycle(late.seq, n);
    let others = seq![late];
    assert(others.drop_first() =~= seq![]);
    assert(stream(others) =~= late.bytes()) by {
        assert(stream(others.drop_first()) =~= seq![]);
    }
    assert(c.rx =~= stream(others) + reply.bytes() + seq![]);
    reply_is_found(c, others, reply, seq![], reply.seq);
    assert(c.queue_topics(others) == c) by {
        assert(c.queue_topics(others.drop_first()) == c);
    }
}

/// While nothing that has arrived is the reply, waiting can be cut into any
/// number of receives: what arrives next is read as if it had come at once.
pub proof fn waiting_is_independent_of_chunks(c: ClientView, chunk: Seq<u8>, seq: u8)
    requires
        conforming(c.rx + chunk, c.max_frame()),
        c.await_reply(seq).1 is None,
    ensures
        c.receive(chunk).await_reply(seq) == c.await_reply(seq).0.receive(chunk).await_reply(seq),
    decreases c.rx.len(),
{
    let max = c.max_frame();
    let all = c.rx + chunk;
    if c.rx.len() >= RYNK_HEADER_SIZE {
        assert(declared_len(all) == declared_len(c.rx));
    }
    match cut(c.rx, max) {
        Cut::Partial { rest } => {
            assert(rest == c.rx);
            assert(c.await_reply(seq).0 =~= c);
        },
        Cut::Whole { frame, rest } => {
            cut_loses_nothing(c.rx, max);
            assert(all =~= frame.bytes() + (rest + chunk));
            frame_is_cut_back(frame, rest + chunk, max);
            assert(conforming(rest + chunk, max));
            let after = ClientView { rx: rest, ..c };
            let topic = TopicView { cmd: frame.cmd, payload: frame.payload };
            let whole = ClientView { rx: rest + chunk, ..c };
            if frame.cmd.topic() {
                waiting_is_independent_of_chunks(after.queue(topic), chunk, seq);
                assert(after.queue(topic).receive(chunk) == whole.queue(topic));
            } else {
                waiting_is_independent_of_chunks(after, chunk, seq);
                assert(after.receive(chunk) == whole);
            }
        },
    }
}

/// Once the reply has arrived, bytes that follow do not change what is read; they
/// stay buffered.
pub proof fn later_bytes_do_not_change_the_reply(c: ClientView, chunk: Seq<u8>, seq: u8)
    requires
        c.await_reply(seq).1 is Some,
    ensures
        c.receive(chunk).await_reply(seq) == (
            c.await_reply(seq).0.receive(chunk),
            c.await_reply(seq).1,
        ),
    decreases c.rx.len(),
{
    let max = c.max_frame();
    match cut(c.rx, max) {
        Cut::Partial { rest } => {},
        Cut::Whole { frame, rest } => {
            cut_loses_nothing(c.rx, max);
            assert(c.rx + chunk =~= frame.bytes() + (rest + chunk));
            frame_is_cut_back(frame, rest + chunk, max);
            let after = ClientView { rx: rest, ..c };
            let topic = TopicView { cmd: frame.cmd, payload: frame.payload };
            let whole = ClientView { rx: rest + chunk, ..c };
            assert(after.receive(chunk) == whole);
            if frame.cmd.topic() {
                later_bytes_do_not_change_the_reply(after.queue(topic), chunk, seq);
                assert(after.queue(topic).receive(chunk) == whole.queue(topic));
            } else if frame.seq != seq {
                later_bytes_do_not_change_the_reply(after, chunk, seq);
            }
        },
    }
}

/// The bytes of several chunks.
pub open spec fn flat(chunks: Seq<Seq<u8>>) -> Seq<u8>
    decreases chunks.len(),
{
    if chunks.len() == 0 {
        seq![]
    } else {
        chunks[0] + flat(chunks.drop_first())
    }
}

impl ClientView {
    /// Waiting for a reply while chunks arrive one after another: the client when
    /// it stops, the chunks that were not received by then, and the reply, if it
    /// came.
    pub open spec fn exchange(self, chunks: Seq<Seq<u8>>, seq: u8) -> (
        ClientView,
        Seq<Seq<u8>>,
        Option<FrameView>,
    )
        decreases chunks.len(),
    {
        match self.await_reply(seq) {
            (after, Some(frame)) => (after, chunks, Some(frame)),
            (after, None) => if chunks.len() == 0 {
                (after, chunks, None)
            } else {
                after.receive(chunks[0]).exchange(chunks.drop_first(), seq)
            },
        }
    }
}

/// However the link cuts the stream into chunks, a round trip ends in the same
/// reply.
pub proof fn round_trips_are_independent_of_chunks(c: ClientView, chunks: Seq<Seq<u8>>, seq: u8)
    requires
        conforming(c.rx + flat(chunks), c.max_frame()),
    ensures
        c.exchange(chunks, seq).2 == c.receive(flat(chunks)).await_reply(seq).1,
    decreases chunks.len(),
{
    if c.await_reply(seq).1 is Some {
        later_bytes_do_not_change_the_reply(c, flat(chunks), seq);
    } else {
        waiting_is_independent_of_chunks(c, flat(chunks), seq);
        waiting_keeps(c, seq);
        let after = c.await_reply(seq).0;
        if chunks.len() == 0 {
            assert(c.rx + flat(chunks) =~= c.rx);
            assert(c.receive(flat(chunks)) == c);
        } else {
            let later = chunks.drop_first();
            assert(after.rx + flat(chunks) =~= after.rx + chunks[0] + flat(later));
            leftovers_conform(c, flat(chunks), seq);
            round_trips_are_independent_of_chunks(after.receive(chunks[0]), later, seq);
            assert(after.receive(chunks[0]).receive(flat(later)) == after.receive(flat(chunks)));
        }
    }
}

/// What stays buffered while a client waits is still the front of a conforming
/// stream.
proof fn leftovers_conform(c: ClientView, chunk: Seq<u8>, seq: u8)
    requires
        conforming(c.rx + chunk, c.max_frame()),
        c.await_reply(seq).1 is None,
    ensures
        conforming(c.await_reply(seq).0.rx + chunk, c.max_frame()),
    decreases c.rx.len(),
{
    let max = c.max_frame();
    let all = c.rx + chunk;
    if c.rx.len() >= RYNK_HEADER_SIZE {
        assert(declared_len(all) == declared_len(c.rx));
    }
    match cut(c.rx, max) {
        Cut::Partial { rest } => {},
        Cut::Whole { frame, rest } => {
            cut_loses_nothing(c.rx, max);
            assert(all =~= frame.bytes() + (rest + chunk));
            frame_is_cut_back(frame, rest + chunk, max);
            let after = ClientView { rx: rest, ..c };
            let topic = TopicView { cmd: frame.cmd, payload: frame.payload };
            if frame.cmd.topic() {
                leftovers_conform(after.queue(topic), chunk, seq);
            } else {
                leftovers_conform(after, chunk, seq);
            }
        },
    }
}

/// However the link cuts the stream into chunks, a round trip ends in the reply:
/// late replies before it are skipped, topics before it are queued in order,
/// nothing else of the client changes, and what follows the reply stays buffered
/// or is still to come.
pub proof fn round_trip_ends_in_the_reply(
    c: ClientView,
    chunks: Seq<Seq<u8>>,
    others: Seq<FrameView>,
    reply: FrameView,
    tail: Seq<u8>,
    seq: u8,
)
    requires
        c.rx + flat(chunks) == stream(others) + reply.bytes() + tail,
        forall|i: int|
            0 <= i < others.len() ==> sendable(#[trigger] others[i], c.max_frame()) && passed_over(
                others[i],
                seq,
            ),
        sendable(reply, c.max_frame()),
        !passed_over(reply, seq),
    ensures
        ({
            let (after, left, found) = c.exchange(chunks, seq);
            &&& found == Some(reply)
            &&& after == (ClientView { rx: after.rx, ..c.queue_topics(others) })
            &&& after.rx + flat(left) == tail
        }),
    decreases chunks.len(),
{
    let later = waiting_goes_on(c, flat(chunks), others, reply, tail, seq);
    let after = c.await_reply(seq).0;
    if c.await_reply(seq).1 is None {
        waiting_keeps(c, seq);
        if chunks.len() == 0 {
            assert(c.rx + flat(chunks) =~= c.rx);
            reply_is_found(c, others, reply, tail, seq);
        } else {
            let rest = chunks.drop_first();
            let next = after.receive(chunks[0]);
            assert(next.rx + flat(rest) =~= after.rx + flat(chunks));
            round_trip_ends_in_the_reply(next, rest, later, reply, tail, seq);
            queueing_ignores_the_buffer(after, next.rx, later);
        }
    }
}

/// One look at what has arrived of a stream: the reply, or what is left of the
/// stream with fewer frames before the reply.
proof fn waiting_goes_on(
    c: ClientView,
    more: Seq<u8>,
    others: Seq<FrameView>,
    reply: FrameView,
    tail: Seq<u8>,
    seq: u8,
) -> (later: Seq<FrameView>)
    requires
        c.rx + more == stream(others) + reply.bytes() + tail,
        forall|i: int|
            0 <= i < others.len() ==> sendable(#[trigger] others[i], c.max_frame()) && passed_over(
                others[i],
                seq,
            ),
        sendable(reply, c.max_frame()),
        !passed_over(reply, seq),
    ensures
        ({
            let (after, found) = c.await_reply(seq);
            match found {
                Some(frame) => {
                    &&& frame == reply
                    &&& after == (ClientView { rx: after.rx, ..c.queue_topics(others) })
                    &&& after.rx + more == tail
                },
                None => {
                    &&& forall|i: int|
                        0 <= i < later.len() ==> sendable(#[trigger] later[i], c.max_frame())
                            && passed_over(later[i], seq)
                    &&& after.queue_topics(later) == (ClientView {
                        rx: after.rx,
                        ..c.queue_topics(others)
                    })
                    &&& after.rx + more == stream(later) + reply.bytes() + tail
                },
            }
        }),
    decreases others.len(),
{
    let max = c.max_frame();
    let whole = c.rx + more;
    let first = if others.len() == 0 {
        reply
    } else {
        others[0]
    };
    let rest = if others.len() == 0 {
        tail
    } else {
        stream(others.drop_first()) + reply.bytes() + tail
    };
    assert(sendable(first, max));
    assert(whole =~= first.bytes() + rest);
    frame_is_cut_back(first, rest, max);
    if c.rx.len() >= RYNK_HEADER_SIZE {
        assert(declared_len(c.rx) == declared_len(whole));
    }
    if c.rx.len() < first.len() {
        assert(declared_len(whole) == first.payload.len()) by {
            assert(whole[3] == first.bytes()[3]);
            assert(whole[4] == first.bytes()[4]);
        }
        assert(cut(c.rx, max) == (Cut::Partial { rest: c.rx }));
        queueing_ignores_the_buffer(c, c.rx, others);
        others
    } else {
        let got = c.rx.skip(first.len() as int);
        assert(c.rx =~= first.bytes() + got) by {
            assert(c.rx =~= whole.take(c.rx.len() as int));
        }
        frame_is_cut_back(first, got, max);
        assert(got + more =~= rest) by {
            assert(rest =~= whole.skip(first.len() as int));
        }
        if others.len() == 0 {
            others
        } else {
            let fewer = others.drop_first();
            assert forall|i: int| 0 <= i < fewer.len() implies sendable(#[trigger] fewer[i], max)
                && passed_over(fewer[i], seq) by {
                assert(sendable(others[i + 1], max) && passed_over(others[i + 1], seq));
            }
            assert(passed_over(others[0], seq));
            let after = ClientView { rx: got, ..c };
            let topic = TopicView { cmd: first.cmd, payload: first.payload };
            if first.cmd.topic() {
                assert(after.queue(topic) == (ClientView { rx: got, ..c.queue(topic) }));
                queueing_ignores_the_buffer(c.queue(topic), got, fewer);
                waiting_goes_on(after.queue(topic), more, fewer, reply, tail, seq)
            } else {
                queueing_ignores_the_buffer(c, got, fewer);
                waiting_goes_on(after, more, fewer, reply, tail, seq)
            }
        }
    }
}

/// Waiting for a topic can be cut into receives in the same way: a topic of
/// which a part has arrived is not lost when the caller stops listening.
pub proof fn listening_is_independent_of_chunks(c: ClientView, chunk: Seq<u8>)
    requires
        conforming(c.rx + chunk, c.max_frame()),
        c.await_topic().1 is None,
    ensures
        c.receive(chunk).await_topic() == c.await_topic().0.receive(chunk).await_topic(),
    decreases c.rx.len(),
{
    let max = c.max_frame();
    let all = c.rx + chunk;
    if c.rx.len() >= RYNK_HEADER_SIZE {
        assert(declared_len(all) == declared_len(c.rx));
    }
    match cut(c.rx, max) {
        Cut::Partial { rest } => {
            assert(rest == c.rx);
            assert(c.await_topic().0 =~= c);
        },
        Cut::Whole { frame, rest } => {
            cut_loses_nothing(c.rx, max);
            assert(all =~= frame.bytes() + (rest + chunk));
            frame_is_cut_back(frame, rest + chunk, max);
            assert(conforming(rest + chunk, max));
            let after = ClientView { rx: rest, ..c };
            assert(after.receive(chunk) == (ClientView { rx: rest + chunk, ..c }));
            listening_is_independent_of_chunks(after, chunk);
        },
    }
}

impl ClientView {
    /// Listening while chunks arrive one after another: the client when it
    /// stops, the chunks that were not received by then, and what it heard.
    pub open spec fn listen(self, chunks: Seq<Seq<u8>>) -> (
        ClientView,
        Seq<Seq<u8>>,
        Option<Result<TopicView, TransportError>>,
    )
        decreases chunks.len(),
    {
        match self.next_topic() {
            (after, Some(heard)) => (after, chunks, Some(heard)),
            (after, None) => if chunks.len() == 0 {
                (after, chunks, None)
            } else {
                after.receive(chunks[0]).listen(chunks.drop_first())
            },
        }
    }
}

/// Whether the frames are replies that a peer within the limit can send.
pub open spec fn replies(frames: Seq<FrameView>, max: nat) -> bool {
    forall|i: int|
        0 <= i < frames.len() ==> sendable(#[trigger] frames[i], max) && !frames[i].cmd.topic()
}

/// However the link cuts the stream into chunks, listening ends in the first
/// topic: the replies before it are skipped, nothing else of the client changes,
/// and what follows the topic stays buffered or is still to come.
pub proof fn topic_is_heard(
    c: ClientView,
    chunks: Seq<Seq<u8>>,
    others: Seq<FrameView>,
    topic: FrameView,
    tail: Seq<u8>,
)
    requires
        !c.dead,
        c.events.len() == 0,
        c.rx + flat(chunks) == stream(others) + topic.bytes() + tail,
        replies(others, c.max_frame()),
        sendable(topic, c.max_frame()),
        topic.cmd.topic(),
    ensures
        ({
            let (after, left, heard) = c.listen(chunks);
            &&& heard == Some(
                Ok::<TopicView, TransportError>(
                    TopicView { cmd: topic.cmd, payload: topic.payload },
                ),
            )
            &&& after == (ClientView { rx: after.rx, ..c })
            &&& after.rx + flat(left) == tail
        }),
    decreases chunks.len(),
{
    let later = listening_goes_on(c, flat(chunks), others, topic, tail);
    let after = c.await_topic().0;
    if c.await_topic().1 is None {
        if chunks.len() == 0 {
            assert(c.rx + flat(chunks) =~= c.rx);
            topic_is_found(c, others, topic, tail);
        } else {
            let rest = chunks.drop_first();
            let next = after.receive(chunks[0]);
            assert(next.rx + flat(rest) =~= after.rx + flat(chunks));
            topic_is_heard(next, rest, later, topic, tail);
        }
    }
}

/// The first topic is found behind replies, and what follows it stays buffered.
pub proof fn topic_is_found(
    c: ClientView,
    others: Seq<FrameView>,
    topic: FrameView,
    tail: Seq<u8>,
)
    requires
        c.rx == stream(others) + topic.bytes() + tail,
        replies(others, c.max_frame()),
        sendable(topic, c.max_frame()),
        topic.cmd.topic(),
    ensures
        c.await_topic() == (
            ClientView { rx: tail, ..c },
            Some(TopicView { cmd: topic.cmd, payload: topic.payload }),
        ),
    decreases others.len(),
{
    let max = c.max_frame();
    if others.len() == 0 {
        assert(c.rx =~= topic.bytes() + tail);
        frame_is_cut_back(topic, tail, max);
    } else {
        let fewer = others.drop_first();
        let rest = stream(fewer) + topic.bytes() + tail;
        assert(sendable(others[0], max) && !others[0].cmd.topic());
        assert(c.rx =~= others[0].bytes() + rest);
        frame_is_cut_back(others[0], rest, max);
        assert forall|i: int| 0 <= i < fewer.len() implies sendable(#[trigger] fewer[i], max)
            && !fewer[i].cmd.topic() by {
            assert(sendable(others[i + 1], max));
        }
        topic_is_found(ClientView { rx: rest, ..c }, fewer, topic, tail);
    }
}

/// One look at what has arrived of a stream: the topic, or what is left of the
/// stream with fewer replies before the topic.
proof fn listening_goes_on(
    c: ClientView,
    more: Seq<u8>,
    others: Seq<FrameView>,
    topic: FrameView,
    tail: Seq<u8>,
) -> (later: Seq<FrameView>)
    requires
        c.rx + more == stream(others) + topic.bytes() + tail,
        replies(others, c.max_frame()),
        sendable(topic, c.max_frame()),
        topic.cmd.topic(),
    ensures
        c.await_topic().0 == (ClientView { rx: c.await_topic().0.rx, ..c }),
        match c.await_topic().1 {
            Some(heard) => heard == (TopicView { cmd: topic.cmd, payload: topic.payload })
                && c.await_topic().0.rx + more == tail,
            None => replies(later, c.max_frame()) && c.await_topic().0.rx + more == stream(later)
                + topic.bytes() + tail,
        },
    decreases others.len(),
{
    let max = c.max_frame();
    let whole = c.rx + more;
    let first = if others.len() == 0 {
        topic
    } else {
        others[0]
    };
    let rest = if others.len() == 0 {
        tail
    } else {
        stream(others.drop_first()) + topic.bytes() + tail
    };
    assert(sendable(first, max));
    assert(whole =~= first.bytes() + rest);
    frame_is_cut_back(first, rest, max);
    if c.rx.len() >= RYNK_HEADER_SIZE {
        assert(declared_len(c.rx) == declared_len(whole));
    }
    if c.rx.len() < first.len() {
        assert(first.bytes().len() == first.len());
        assert(declared_len(whole) == first.payload.len()) by {
            assert(whole[3] == first.bytes()[3]);
            assert(whole[4] == first.bytes()[4]);
        }
        assert(cut(c.rx, max) == (Cut::Partial { rest: c.rx }));
        others
    } else {
        let got = c.rx.skip(first.len() as int);
        assert(c.rx =~= first.bytes() + got) by {
            assert(c.rx =~= whole.take(c.rx.len() as int));
        }
        frame_is_cut_back(first, got, max);
        assert(got + more =~= rest) by {
            assert(rest =~= whole.skip(first.len() as int));
        }
        if others.len() == 0 {
            others
        } else {
            let fewer = others.drop_first();
            assert forall|i: int| 0 <= i < fewer.len() implies sendable(#[trigger] fewer[i], max)
                && !fewer[i].cmd.topic() by {
                assert(sendable(others[i + 1], max));
            }
            assert(!others[0].cmd.topic());
            listening_goes_on(ClientView { rx: got, ..c }, more, fewer, topic, tail)
        }
    }
}

/// An oversized header means a corrupt stream: everything buffered is dropped,
/// and waiting goes on over the same link.
pub proof fn corrupt_stream_is_dropped(c: ClientView, seq: u8)
    requires
        oversized(c.rx, c.max_frame()),
    ensures
        c.await_reply(seq) == (ClientView { rx: seq![], ..c }, None::<FrameView>),
        c.await_topic() == (ClientView { rx: seq![], ..c }, None::<TopicView>),
{
}

/// A reply with the right sequence number but another command is a mismatch,
/// whatever it holds.
pub proof fn other_command_is_a_mismatch<R: Reply>(cmd: Cmd, frame: FrameView)
    requires
        frame.cmd != cmd,
    ensures
        answer::<R>(cmd, frame) == Err::<R, RequestError>(
            RequestError::CmdMismatch { sent: cmd, got: frame.cmd },
        ),
{
}

/// An accepting reply whose body is read whole is the value; one with bytes
/// left over is refused.
pub proof fn acceptance_reaches_the_caller<R: Reply>(
    cmd: Cmd,
    seq: u8,
    body: Seq<u8>,
    value: R,
    n: nat,
)
    requires
        R::body(body) == Ok::<(R, nat), DecodeError>((value, n)),
    ensures
        n == body.len() ==> answer::<R>(cmd, FrameView { cmd, seq, payload: put_accept(body) })
            == Ok::<R, RequestError>(value),
        n < body.len() ==> answer::<R>(cmd, FrameView { cmd, seq, payload: put_accept(body) })
            == Err::<R, RequestError>(RequestError::TrailingBytes { cmd }),
{
    acceptance_is_read_back(body, R::body(body));
}

/// A device's rejection reaches the caller as `Rejected`, whatever the type of
/// the reply.
pub proof fn rejection_reaches_the_caller<R: Reply>(
    cmd: Cmd,
    seq: u8,
    tag: nat,
    error: DeviceError,
)
    requires
        rynk_error(tag) == Some(error),
    ensures
        answer::<R>(cmd, FrameView { cmd, seq, payload: seq![1u8, tag as u8] }) == Err::<
            R,
            RequestError,
        >(RequestError::Rejected(error)),
{
    let payload = seq![1u8, tag as u8];
    rejection_is_read_back(tag, error, R::body(envelope_body(payload)));
}

// Topics.

impl ClientView {
    /// The client after `n` topics were taken off its queue.
    pub open spec fn after_events(self, n: nat) -> ClientView
        decreases n,
    {
        if n == 0 {
            self
        } else {
            self.after_events((n - 1) as nat).next_topic().0
        }
    }
}

/// How many of `len` topics do not fit the queue.
pub open spec fn excess(len: nat) -> nat {
    if len > EVENT_QUEUE_CAPACITY {
        (len - EVENT_QUEUE_CAPACITY) as nat
    } else {
        0
    }
}

/// The topics among the frames, in order.
pub open spec fn topics_of(frames: Seq<FrameView>) -> Seq<TopicView>
    decreases frames.len(),
{
    if frames.len() == 0 {
        seq![]
    } else if frames[0].cmd.topic() {
        seq![TopicView { cmd: frames[0].cmd, payload: frames[0].payload }] + topics_of(
            frames.drop_first(),
        )
    } else {
        topics_of(frames.drop_first())
    }
}

/// A queue that overflows while a client waits keeps the newest topics, in the
/// order in which they came, and counts what it dropped.
pub proof fn full_queue_keeps_the_newest(c: ClientView, frames: Seq<FrameView>)
    requires
        c.events.len() <= EVENT_QUEUE_CAPACITY,
        c.dropped + topics_of(frames).len() <= u64::MAX,
    ensures
        ({
            let all = c.events + topics_of(frames);
            &&& c.queue_topics(frames).events == all.skip(excess(all.len()) as int)
            &&& c.queue_topics(frames).events.len() <= EVENT_QUEUE_CAPACITY
            &&& c.queue_topics(frames).dropped == c.dropped + excess(all.len())
        }),
    decreases frames.len(),
{
    let all = c.events + topics_of(frames);
    if frames.len() == 0 {
        assert(all =~= c.events);
        assert(all.skip(0) =~= c.events);
    } else {
        let later = frames.drop_first();
        if frames[0].cmd.topic() {
            let topic = TopicView { cmd: frames[0].cmd, payload: frames[0].payload };
            let next = c.queue(topic);
            full_queue_keeps_the_newest(next, later);
            let rest = next.events + topics_of(later);
            if c.events.len() == EVENT_QUEUE_CAPACITY {
                assert(rest =~= all.skip(1));
            } else {
                assert(rest =~= all);
            }
            assert(rest.skip(excess(rest.len()) as int) =~= all.skip(excess(all.len()) as int));
        } else {
            full_queue_keeps_the_newest(c, later);
        }
    }
}

/// Queued topics are handed out first, in the order in which they came, also
/// over a dead link.
pub proof fn queued_topics_come_first_in_order(c: ClientView, n: nat)
    requires
        n < c.events.len(),
    ensures
        c.after_events(n).next_topic().1 == Some(
            Ok::<TopicView, TransportError>(c.events[n as int]),
        ),
        c.after_events(n) == (ClientView { events: c.events.skip(n as int), ..c }),
    decreases n,
{
    if n == 0 {
        assert(c.events.skip(0) =~= c.events);
    } else {
        queued_topics_come_first_in_order(c, (n - 1) as nat);
        assert(c.events.skip(n - 1).drop_first() =~= c.events.skip(n as int));
    }
    assert(c.events.skip(n as int)[0] == c.events[n as int]);
}

/// Topics that newer firmware made longer still decode, every one that this build
/// knows: bytes after the value are ignored.
pub proof fn longer_topics_still_decode(
    layer: u8,
    wpm: u16,
    connection: ConnectionStatus,
    asleep: bool,
    leds: LedIndicator,
    battery: BatteryStatus,
    extra: Seq<u8>,
)
    ensures
        event_of(TopicView { cmd: Cmd { raw: LAYER_CHANGE }, payload: seq![layer] + extra })
            == EventView::LayerChange(layer),
        event_of(TopicView { cmd: Cmd { raw: WPM_UPDATE }, payload: varint(wpm as nat) + extra })
            == EventView::WpmUpdate(wpm),
        event_of(
            TopicView {
                cmd: Cmd { raw: CONNECTION_CHANGE },
                payload: connection.bytes() + extra,
            },
        ) == EventView::ConnectionChange(connection),
        event_of(TopicView { cmd: Cmd { raw: SLEEP_STATE }, payload: seq![asleep as u8] + extra })
            == EventView::SleepState(asleep),
        event_of(TopicView { cmd: Cmd { raw: LED_INDICATOR }, payload: leds.bytes() + extra })
            == EventView::LedIndicator(leds),
        event_of(
            TopicView { cmd: Cmd { raw: BATTERY_STATUS_TOPIC }, payload: battery.bytes() + extra },
        ) == EventView::BatteryStatus(battery),
{
    scalars_are_read_back(layer, wpm, asleep, extra);
    connection_is_read_back(connection, extra);
    battery_is_read_back(battery, extra);
    assert((leds.bytes() + extra)[0] == leds.bits);
}

// The handshake.

/// A version and a capability set are read back from the bytes that firmware
/// writes for them.
pub proof fn handshake_values_are_read_back(version: ProtocolVersion, caps: DeviceCapabilities)
    ensures
        ProtocolVersion::taken(seq![version.major, version.minor]) == Ok::<
            (ProtocolVersion, nat),
            DecodeError,
        >((version, 2)),
        DeviceCapabilities::taken(put_fields(DeviceCapabilities::fields(), caps.values())) == Ok::<
            (DeviceCapabilities, nat),
            DecodeError,
        >((caps, put_fields(DeviceCapabilities::fields(), caps.values()).len())),
{
    let pair = seq![Field::U8, Field::U8];
    let values = seq![version.major as nat, version.minor as nat];
    let bytes = seq![version.major, version.minor];
    assert(admits(pair, values));
    fields_are_read_back(pair, values, seq![]);
    assert(put_fields(pair, values) + seq![] =~= bytes) by {
        reveal_with_fuel(put_fields, 3);
        assert(pair.drop_first() =~= seq![Field::U8]);
        assert(values.drop_first() =~= seq![version.minor as nat]);
    }
    let fields = DeviceCapabilities::fields();
    assert(admits(fields, caps.values()));
    fields_are_read_back(fields, caps.values(), seq![]);
    assert(put_fields(fields, caps.values()) + seq![] =~= put_fields(fields, caps.values()));
    assert(DeviceCapabilities::of(caps.values()) == caps);
}

/// Behavior settings are read back from the bytes that a client writes for them.
pub proof fn behavior_is_read_back(config: BehaviorConfig)
    ensures
        BehaviorConfig::taken(config.bytes()) == Ok::<(BehaviorConfig, nat), DecodeError>(
            (config, config.bytes().len()),
        ),
{
    let fields = BehaviorConfig::fields();
    assert(admits(fields, config.values()));
    fields_are_read_back(fields, config.values(), seq![]);
    assert(config.bytes() + seq![] =~= config.bytes());
}

/// The frame that answers the handshake's first request with `version`.
pub open spec fn version_reply(version: ProtocolVersion) -> FrameView {
    FrameView {
        cmd: Cmd { raw: GET_VERSION },
        seq: 1,
        payload: put_accept(seq![version.major, version.minor]),
    }
}

/// The frame that answers the handshake's second request with `caps`.
pub open spec fn capabilities_reply(caps: DeviceCapabilities) -> FrameView {
    FrameView {
        cmd: Cmd { raw: GET_CAPABILITIES },
        seq: 2,
        payload: put_accept(put_fields(DeviceCapabilities::fields(), caps.values())),
    }
}

/// The bytes of a capability set are few.
proof fn capabilities_are_short(fields: Seq<Field>, values: Seq<nat>)
    requires
        admits(fields, values),
    ensures
        put_fields(fields, values).len() <= 3 * fields.len(),
    decreases fields.len(),
{
    if fields.len() > 0 {
        assert(fields[0].admits(values[0]));
        reveal_with_fuel(varint, 4);
        assert forall|i: int| 0 <= i < fields.drop_first().len() implies (
        #[trigger] fields.drop_first()[i]).admits(values.drop_first()[i]) by {
            assert(fields[i + 1].admits(values[i + 1]));
        }
        capabilities_are_short(fields.drop_first(), values.drop_first());
    }
}

impl HandshakeView {
    /// A handshake over a link that sends, while chunks arrive one after another:
    /// where it ends, and the chunks that were not received by then.
    pub open spec fn run(self, chunks: Seq<Seq<u8>>) -> (StepView, Seq<Seq<u8>>)
        decreases chunks.len(), (self.stage == Stage::Version) as nat,
    {
        match self.step() {
            StepView::Receive(next) => if chunks.len() == 0 {
                (StepView::Receive(next), chunks)
            } else {
                (HandshakeView { client: next.client.receive(chunks[0]), ..next }).run(
                    chunks.drop_first(),
                )
            },
            StepView::Send(next) => next.run(chunks),
            end => (end, chunks),
        }
    }
}

/// A handshake waits for a reply as any round trip does, and then decides.
proof fn handshake_is_a_round_trip(handshake: HandshakeView, chunks: Seq<Seq<u8>>)
    requires
        handshake.client.exchange(chunks, handshake.seq).2 is Some,
    ensures
        ({
            let (after, left, found) = handshake.client.exchange(chunks, handshake.seq);
            handshake.run(chunks) == match handshake.decide(after, found->0) {
                StepView::Send(next) => next.run(left),
                end => (end, left),
            }
        }),
    decreases chunks.len(),
{
    if handshake.client.await_reply(handshake.seq).1 is None {
        let after = handshake.client.await_reply(handshake.seq).0;
        let next = HandshakeView { client: after.receive(chunks[0]), ..handshake };
        handshake_is_a_round_trip(next, chunks.drop_first());
        let (a, left, found) = handshake.client.exchange(chunks, handshake.seq);
        assert(next.decide(a, found->0) == handshake.decide(a, found->0));
    }
}

/// Firmware of the same major connects, whatever its minor and however the link
/// cuts the stream into chunks: the handshake ends in a live client that holds
/// the firmware's version and capabilities. Topics that arrive in between are
/// queued, not dropped, and what follows stays buffered or is still to come.
pub proof fn same_major_connects(
    version: ProtocolVersion,
    caps: DeviceCapabilities,
    first: Seq<FrameView>,
    second: Seq<FrameView>,
    tail: Seq<u8>,
    chunks: Seq<Seq<u8>>,
)
    requires
        version.major == CURRENT_MAJOR,
        forall|i: int|
            0 <= i < first.len() ==> sendable(#[trigger] first[i], RYNK_MIN_BUFFER_SIZE as nat)
                && passed_over(first[i], 1),
        forall|i: int|
            0 <= i < second.len() ==> sendable(#[trigger] second[i], RYNK_MIN_BUFFER_SIZE as nat)
                && passed_over(second[i], 2),
        flat(chunks) == stream(first) + version_reply(version).bytes() + (stream(second)
            + capabilities_reply(caps).bytes() + tail),
    ensures
        ({
            let (end, left) = HandshakeView::start().run(chunks);
            &&& end matches StepView::Done(client)
            &&& client == (ClientView {
                rx: client.rx,
                next_seq: 3,
                version,
                ..ClientView::fresh().queue_topics(first).queue_topics(second).negotiate(caps)
            })
            &&& !client.dead
            &&& client.caps == Some(caps)
            &&& client.rx + flat(left) == tail
        }),
{
    let start = HandshakeView::start();
    let rest = stream(second) + capabilities_reply(caps).bytes() + tail;
    let pair = seq![version.major, version.minor];
    handshake_values_are_read_back(version, caps);
    acceptance_reaches_the_caller::<ProtocolVersion>(
        Cmd { raw: GET_VERSION },
        1,
        pair,
        version,
        2,
    );
    assert(start.client.rx + flat(chunks) =~= flat(chunks));
    round_trip_ends_in_the_reply(start.client, chunks, first, version_reply(version), rest, 1);
    handshake_is_a_round_trip(start, chunks);
    let (after, left, found) = start.client.exchange(chunks, 1);
    let base = ClientView::fresh().queue_topics(first);
    queueing_ignores_the_buffer(ClientView::fresh(), seq![], first);
    version_commutes(ClientView::fresh(), start.client.version, 2, first);
    let next = start.decide(after, version_reply(version))->Send_0;
    assert(next.client == (ClientView { rx: after.rx, next_seq: 3, version, ..base }));

    let fields = DeviceCapabilities::fields();
    let body = put_fields(fields, caps.values());
    assert(admits(fields, caps.values()));
    capabilities_are_short(fields, caps.values());
    acceptance_reaches_the_caller::<DeviceCapabilities>(
        Cmd { raw: GET_CAPABILITIES },
        2,
        body,
        caps,
        body.len(),
    );
    round_trip_ends_in_the_reply(next.client, left, second, capabilities_reply(caps), tail, 2);
    handshake_is_a_round_trip(next, left);
    queueing_ignores_the_buffer(ClientView { next_seq: 3, version, ..base }, after.rx, second);
    version_commutes(base, version, 3, second);
    queueing_ignores_the_buffer(base, seq![], second);
}

/// Before it hands out a client, a handshake with firmware of the same major asks
/// for the capabilities.
pub proof fn same_major_is_asked_for_its_capabilities(client: ClientView, version: ProtocolVersion)
    requires
        client.wf(),
        !client.dead,
        client.caps is None,
        version.major == CURRENT_MAJOR,
    ensures
        HandshakeView::with_version(client, version) matches StepView::Send(next) && next.stage
            == Stage::Capabilities && next.seq == client.next_seq && next.frame == (FrameView {
            cmd: Cmd { raw: GET_CAPABILITIES },
            seq: client.next_seq,
            payload: seq![],
        }).bytes(),
{
}

/// Queueing topics does not depend on the version and the sequence number.
proof fn version_commutes(
    c: ClientView,
    version: ProtocolVersion,
    next_seq: u8,
    frames: Seq<FrameView>,
)
    ensures
        (ClientView { version, next_seq, ..c }).queue_topics(frames) == (ClientView {
            version,
            next_seq,
            ..c.queue_topics(frames)
        }),
    decreases frames.len(),
{
    if frames.len() > 0 {
        let topic = TopicView { cmd: frames[0].cmd, payload: frames[0].payload };
        let other = ClientView { version, next_seq, ..c };
        if frames[0].cmd.topic() {
            assert(other.queue(topic) == (ClientView { version, next_seq, ..c.queue(topic) }));
            version_commutes(c.queue(topic), version, next_seq, frames.drop_first());
        } else {
            version_commutes(c, version, next_seq, frames.drop_first());
        }
    }
}

/// Every client that a handshake hands out knows the device's capabilities, and
/// keeps the invariant.
pub proof fn connected_clients_know_the_device(handshake: HandshakeView)
    ensures
        handshake.step() matches StepView::Done(client) ==> {
            &&& client.caps is Some
            &&& client.version == handshake.client.version
            &&& client.dead == handshake.client.dead
            &&& handshake.client.wf() && handshake.client.caps is None ==> client.wf()
        },
{
    waiting_keeps(handshake.client, handshake.seq);
}

/// Firmware of another major is refused, with both versions in the error, however
/// the link cuts the stream into chunks. Its reply has then been read whole, and
/// nothing after it: the stream is clean for another client.
pub proof fn other_major_is_refused(
    version: ProtocolVersion,
    others: Seq<FrameView>,
    tail: Seq<u8>,
    chunks: Seq<Seq<u8>>,
)
    requires
        version.major != CURRENT_MAJOR,
        forall|i: int|
            0 <= i < others.len() ==> sendable(#[trigger] others[i], RYNK_MIN_BUFFER_SIZE as nat)
                && passed_over(others[i], 1),
        flat(chunks) == stream(others) + version_reply(version).bytes() + tail,
    ensures
        ({
            let start = HandshakeView::start();
            let (end, left) = start.run(chunks);
            &&& end == StepView::Failed(mismatch(version))
            &&& start.client.exchange(chunks, 1).0.rx + flat(left) == tail
        }),
{
    let start = HandshakeView::start();
    handshake_values_are_read_back(version, arbitrary());
    acceptance_reaches_the_caller::<ProtocolVersion>(
        Cmd { raw: GET_VERSION },
        1,
        seq![version.major, version.minor],
        version,
        2,
    );
    assert(start.client.rx + flat(chunks) =~= flat(chunks));
    round_trip_ends_in_the_reply(start.client, chunks, others, version_reply(version), tail, 1);
    handshake_is_a_round_trip(start, chunks);
}

} // verus!
