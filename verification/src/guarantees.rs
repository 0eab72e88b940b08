//! What the operations give a caller, in terms of the bytes on the wire, the
//! fields of the device's capabilities, and the values that go in and come out.
use crate::client::{answer, asks, payload_of, settled, ClientView, Request};
use crate::codec::{
    combo_of, combo_page_of, decode_error_of, device_error_of, encoder_action_of, fork_of,
    key_action_of, keymap_page_of, macro_data_of, matrix_state_of, morse_bytes, morse_of,
    morse_page_of, pressed_bitmap_of, unwired, Decoded, Encoded, Wired,
};
use crate::command::Cmd;
use crate::error::{ConnectError, DecodeError, DeviceError, RequestError};
use crate::event::{event_of, Event, EventView, TopicFrame, TopicView};
use crate::frame::{cut, frame_is_cut_back, stream, Cut, Frame, FrameView};
use crate::handshake::{Handshake, HandshakeView, Stage, Step, StepView};
use crate::laws::{
    behavior_is_read_back, flat, full_queue_keeps_the_newest, handshake_values_are_read_back,
    passed_over, rejection_reaches_the_caller, round_trip_ends_in_the_reply, sendable,
    topic_is_heard, topics_of,
};
use crate::payload::{BehaviorConfig, DeviceCapabilities, ProtocolVersion, StorageResetMode};
use crate::reply::Reply;
use crate::requests::{asks_where, notifies};
use crate::serial::{
    definitive, hex4, hex_digit, names_with_vid, no_port_text, timed_out, PortInfo, ProbeView,
};
use crate::service::{
    accepts, answers_get_morse, answers_set_morse, delivers, delivers_bitmap, morses_after,
    rejects, reported_bitmap, Response,
};
use crate::status::{
    battery_is_read_back, connection_is_read_back, peripheral_is_read_back, BatteryStatus,
    BleState, BleStatus, ChargeState, ConnectionStatus, ConnectionType, LedIndicator,
    PeripheralStatus, UsbState,
};
use crate::transport::TransportError;
use crate::wire::{
    acceptance_is_read_back, put_accept, put_fields, scalars_are_read_back, take_byte, take_flag,
    take_unit, take_word, value_of, varint, Taken,
};
use rmk_types::action::{EncoderAction, KeyAction};
use rmk_types::combo::Combo;
use rmk_types::fork::Fork;
use rmk_types::morse::Morse;
use rmk_types::protocol::rynk::{
    GetComboBulkResponse, GetKeymapBulkResponse, GetMorseBulkResponse, MacroData, MatrixState,
};
use vstd::prelude::*;
use vstd::std_specs::convert::FromSpec;

verus! {

// Frames.

/// A frame, byte by byte: the command, the sequence number and the payload's
/// length, low bytes first, then the payload.
pub open spec fn on_the_wire(cmd: u16, seq: u8, payload: Seq<u8>) -> Seq<u8> {
    seq![
        (cmd % 256) as u8,
        (cmd / 256) as u8,
        seq,
        (payload.len() % 256) as u8,
        (payload.len() / 256) as u8,
    ] + payload
}

/// A frame lies on the wire as the protocol lays it out.
pub proof fn frames_lie_as_laid_out(frame: FrameView)
    ensures
        frame.bytes() == on_the_wire(frame.cmd.raw, frame.seq, frame.payload),
        frame.bytes().len() == 5 + frame.payload.len(),
{
    assert(frame.bytes() =~= on_the_wire(frame.cmd.raw, frame.seq, frame.payload));
}

/// Topics are the commands with the high bit set, and no others.
pub proof fn topics_have_the_high_bit(cmd: Cmd)
    ensures
        cmd.topic() <==> cmd.raw >= 0x8000,
{
}

/// What is cut off a buffer follows from its bytes alone: a frame where the whole
/// of it is there and it keeps to the limit; the buffer is dropped where the
/// declared length breaks the limit, and kept otherwise.
pub proof fn buffers_are_cut_by_their_header(rx: Seq<u8>, max: nat)
    ensures
        rx.len() < 5 ==> cut(rx, max) == (Cut::Partial { rest: rx }),
        rx.len() >= 5 ==> {
            let n = rx[3] as int + 256 * rx[4] as int;
            if 5 + n > max {
                cut(rx, max) == (Cut::Partial { rest: seq![] })
            } else if rx.len() < 5 + n {
                cut(rx, max) == (Cut::Partial { rest: rx })
            } else {
                cut(rx, max) matches Cut::Whole { frame, rest } && frame.cmd.raw == rx[0] as int
                    + 256 * rx[1] as int && frame.seq == rx[2] && frame.payload == rx.subrange(
                    5,
                    5 + n,
                ) && rest == rx.skip(5 + n)
            }
        },
{
}

// Limits, in terms of what the device advertised.

/// Taking over a device's capabilities makes room for every frame that it takes,
/// and changes nothing else.
pub proof fn negotiation_makes_room(c: ClientView, caps: DeviceCapabilities)
    ensures
        c.negotiate(caps).caps == Some(caps),
        c.negotiate(caps).tx_size >= 5 + caps.max_payload_size,
        c.negotiate(caps).tx_size >= c.tx_size,
        c.negotiate(caps).tx_size == c.tx_size || c.negotiate(caps).tx_size == 5
            + caps.max_payload_size,
        c.negotiate(caps) == (ClientView {
            caps: Some(caps),
            tx_size: c.negotiate(caps).tx_size,
            ..c
        }),
{
}

/// A client starts without limits of a device, alive, with nothing received or
/// queued, at sequence number 1, with room for the protocol floor.
pub proof fn clients_start_empty()
    ensures
        ClientView::fresh().rx.len() == 0,
        ClientView::fresh().events.len() == 0,
        ClientView::fresh().next_seq == 1,
        ClientView::fresh().dropped == 0,
        ClientView::fresh().tx_size == 267,
        ClientView::fresh().caps is None,
        ClientView::fresh().version == (ProtocolVersion { major: 0, minor: 1 }),
        !ClientView::fresh().dead,
{
}

/// The largest frame is the header and the payload size that the device
/// advertised, whatever that is.
pub proof fn advertised_size_is_the_limit(c: ClientView, caps: DeviceCapabilities)
    ensures
        c.caps == Some(caps) ==> c.max_frame() == 5 + caps.max_payload_size,
        c.caps is None ==> c.max_frame() == 267,
{
}

/// Every request whose payload is within the size that the device advertised is
/// encoded, as that command with that payload; every other one is refused. Only
/// the sequence number moves.
pub proof fn requests_up_to_the_advertised_size_encode(
    c: ClientView,
    caps: DeviceCapabilities,
    cmd: Cmd,
    payload: Seq<u8>,
)
    requires
        c.caps == Some(caps),
        c.tx_size >= 5 + caps.max_payload_size,
        !c.dead,
        cmd.raw < 0x8000,
    ensures
        payload.len() <= caps.max_payload_size ==> (c.request(cmd, Some(payload)).1 matches Ok(
            frame,
        ) && frame.bytes() == on_the_wire(cmd.raw, c.next_seq, payload)),
        payload.len() > caps.max_payload_size ==> c.request(cmd, Some(payload)).1 is Err,
        payload.len() > caps.max_payload_size && 5 + payload.len() <= c.tx_size && payload.len()
            <= 65535 ==> c.request(cmd, Some(payload)).1 == Err::<FrameView, RequestError>(
            RequestError::TooLarge {
                cmd,
                frame_len: (5 + payload.len()) as usize,
                max: (5 + caps.max_payload_size) as usize,
            },
        ),
        5 + payload.len() > c.tx_size || payload.len() > 65535 ==> c.request(
            cmd,
            Some(payload),
        ).1 == Err::<FrameView, RequestError>(RequestError::Encode(cmd)),
        c.request(cmd, Some(payload)).0 == (ClientView {
            next_seq: (c.next_seq % 255 + 1) as u8,
            ..c
        }),
{
    frames_lie_as_laid_out(FrameView { cmd, seq: c.next_seq, payload });
}

/// A client that has taken a device's capabilities over sends and receives every
/// payload that the device allows: any request of that size is encoded, and any
/// frame of that size is received whole.
pub proof fn connected_clients_use_the_advertised_size(
    c: ClientView,
    caps: DeviceCapabilities,
    cmd: u16,
    seq: u8,
    payload: Seq<u8>,
    tail: Seq<u8>,
)
    requires
        !c.dead,
        payload.len() <= caps.max_payload_size,
    ensures
        cmd < 0x8000 ==> (c.negotiate(caps).request(Cmd { raw: cmd }, Some(payload)).1 matches Ok(
            frame,
        ) && frame.bytes() == on_the_wire(cmd, c.next_seq, payload)),
        cmd < 0x8000 ==> (ClientView {
            rx: on_the_wire(cmd, seq, payload) + tail,
            ..c.negotiate(caps)
        }).await_reply(seq) == (
            ClientView { rx: tail, ..c.negotiate(caps) },
            Some(FrameView { cmd: Cmd { raw: cmd }, seq, payload }),
        ),
        cmd >= 0x8000 ==> (ClientView {
            rx: on_the_wire(cmd, seq, payload) + tail,
            ..c.negotiate(caps)
        }).await_topic() == (
            ClientView { rx: tail, ..c.negotiate(caps) },
            Some(TopicView { cmd: Cmd { raw: cmd }, payload }),
        ),
{
    let connected = c.negotiate(caps);
    let receiving = ClientView { rx: on_the_wire(cmd, seq, payload) + tail, ..connected };
    if cmd < 0x8000 {
        requests_up_to_the_advertised_size_encode(connected, caps, Cmd { raw: cmd }, payload);
    }
    frames_up_to_the_advertised_size_are_received(receiving, caps, cmd, seq, payload, tail);
}

/// Before the handshake every request with up to 262 bytes of payload is encoded,
/// and no larger one.
pub proof fn requests_up_to_the_floor_encode(c: ClientView, cmd: Cmd, payload: Seq<u8>)
    requires
        c.caps is None,
        c.tx_size == 267,
        !c.dead,
        cmd.raw < 0x8000,
    ensures
        payload.len() <= 262 ==> (c.request(cmd, Some(payload)).1 matches Ok(frame)
            && frame.bytes() == on_the_wire(cmd.raw, c.next_seq, payload)),
        payload.len() > 262 ==> c.request(cmd, Some(payload)).1 == Err::<FrameView, RequestError>(
            RequestError::Encode(cmd),
        ),
        c.request(cmd, Some(payload)).0 == (ClientView {
            next_seq: (c.next_seq % 255 + 1) as u8,
            ..c
        }),
{
    frames_lie_as_laid_out(FrameView { cmd, seq: c.next_seq, payload });
}

/// What is not sent, whatever the limits: topics, anything over a dead link, and
/// what did not encode.
pub proof fn refusals_name_their_reason(c: ClientView, cmd: Cmd, payload: Option<Seq<u8>>)
    ensures
        cmd.raw >= 0x8000 ==> c.request(cmd, payload) == (
            c,
            Err::<FrameView, RequestError>(RequestError::TopicCmd(cmd)),
        ),
        cmd.raw < 0x8000 && c.dead ==> c.request(cmd, payload) == (
            c,
            Err::<FrameView, RequestError>(RequestError::Transport(TransportError::Disconnected)),
        ),
        cmd.raw < 0x8000 && !c.dead && payload is None ==> c.request(cmd, payload) == (
            ClientView { next_seq: (c.next_seq % 255 + 1) as u8, ..c },
            Err::<FrameView, RequestError>(RequestError::Encode(cmd)),
        ),
        c.dead ==> c.notify(cmd, payload) == (
            c,
            Err::<FrameView, RequestError>(RequestError::Transport(TransportError::Disconnected)),
        ),
        !c.dead && cmd.raw < 0x8000 ==> c.notify(cmd, payload) == c.request(cmd, payload),
{
}

/// Every frame with a payload within the size that the device advertised is
/// received whole: as the reply where it is one, as a topic where it is one.
pub proof fn frames_up_to_the_advertised_size_are_received(
    c: ClientView,
    caps: DeviceCapabilities,
    cmd: u16,
    seq: u8,
    payload: Seq<u8>,
    tail: Seq<u8>,
)
    requires
        c.caps == Some(caps),
        payload.len() <= caps.max_payload_size,
        c.rx == on_the_wire(cmd, seq, payload) + tail,
    ensures
        cmd < 0x8000 ==> c.await_reply(seq) == (
            ClientView { rx: tail, ..c },
            Some(FrameView { cmd: Cmd { raw: cmd }, seq, payload }),
        ),
        cmd >= 0x8000 ==> c.await_topic() == (
            ClientView { rx: tail, ..c },
            Some(TopicView { cmd: Cmd { raw: cmd }, payload }),
        ),
{
    let frame = FrameView { cmd: Cmd { raw: cmd }, seq, payload };
    frames_lie_as_laid_out(frame);
    frame_is_cut_back(frame, tail, c.max_frame());
}

/// A header that declares more than the device advertised drops what is buffered,
/// and nothing else of the client changes.
pub proof fn frames_over_the_advertised_size_are_dropped(
    c: ClientView,
    caps: DeviceCapabilities,
    seq: u8,
)
    requires
        c.caps == Some(caps),
        c.rx.len() >= 5,
        c.rx[3] as int + 256 * c.rx[4] as int > caps.max_payload_size,
    ensures
        c.await_reply(seq) == (ClientView { rx: seq![], ..c }, None::<FrameView>),
        c.await_topic() == (ClientView { rx: seq![], ..c }, None::<TopicView>),
{
}

/// Until the declared bytes are there, they are waited for: nothing is dropped,
/// and nothing changes.
pub proof fn unfinished_frames_are_waited_for(c: ClientView, caps: DeviceCapabilities, seq: u8)
    requires
        c.caps == Some(caps),
        c.rx.len() < 5 || (c.rx[3] as int + 256 * c.rx[4] as int <= caps.max_payload_size
            && c.rx.len() < 5 + c.rx[3] as int + 256 * c.rx[4] as int),
    ensures
        c.await_reply(seq) == (c, None::<FrameView>),
        c.await_topic() == (c, None::<TopicView>),
{
}

/// What a receive and a failure do to a client: the chunk follows what is
/// buffered; the link is dead; nothing else.
pub proof fn links_change_the_buffer_or_die(c: ClientView, chunk: Seq<u8>)
    ensures
        c.receive(chunk).rx.len() == c.rx.len() + chunk.len(),
        forall|i: int| 0 <= i < c.rx.len() ==> c.receive(chunk).rx[i] == c.rx[i],
        forall|i: int|
            0 <= i < chunk.len() ==> c.receive(chunk).rx[c.rx.len() + i] == #[trigger] chunk[i],
        c.receive(chunk) == (ClientView { rx: c.receive(chunk).rx, ..c }),
        c.fail() == (ClientView { dead: true, ..c }),
{
}

/// A round trip with a device, in terms of what it advertised: whatever chunks
/// the stream comes in, the frame with the request's sequence number that is no
/// topic is the reply. Topics before it are queued, other replies are not; of more
/// than 64 topics the newest stay, and the others are counted.
pub proof fn round_trips_end_in_their_reply(
    c: ClientView,
    caps: DeviceCapabilities,
    chunks: Seq<Seq<u8>>,
    others: Seq<FrameView>,
    reply: FrameView,
    tail: Seq<u8>,
    seq: u8,
)
    requires
        c.caps == Some(caps),
        c.events.len() <= 64,
        c.dropped + topics_of(others).len() <= u64::MAX,
        c.rx + flat(chunks) == stream(others) + on_the_wire(
            reply.cmd.raw,
            reply.seq,
            reply.payload,
        ) + tail,
        forall|i: int|
            0 <= i < others.len() ==> (#[trigger] others[i]).payload.len() <= caps.max_payload_size
                && (others[i].cmd.raw >= 0x8000 || others[i].seq != seq),
        reply.payload.len() <= caps.max_payload_size,
        reply.cmd.raw < 0x8000,
        reply.seq == seq,
    ensures
        ({
            let (after, left, found) = c.exchange(chunks, seq);
            let all = c.events + topics_of(others);
            let lost = if all.len() > 64 {
                all.len() - 64
            } else {
                0
            };
            &&& found == Some(reply)
            &&& after.events == all.skip(lost)
            &&& after.dropped == c.dropped + lost
            &&& after.rx + flat(left) == tail
            &&& after == (ClientView {
                rx: after.rx,
                events: after.events,
                dropped: after.dropped,
                ..c
            })
        }),
{
    frames_lie_as_laid_out(reply);
    assert forall|i: int| 0 <= i < others.len() implies sendable(
        #[trigger] others[i],
        c.max_frame(),
    ) && passed_over(others[i], seq) by {
        assert(others[i].payload.len() <= caps.max_payload_size);
    }
    round_trip_ends_in_the_reply(c, chunks, others, reply, tail, seq);
    full_queue_keeps_the_newest(c, others);
    queueing_keeps_the_rest(c, others);
}

proof fn queueing_keeps_the_rest(c: ClientView, frames: Seq<FrameView>)
    ensures
        c.queue_topics(frames) == (ClientView {
            events: c.queue_topics(frames).events,
            dropped: c.queue_topics(frames).dropped,
            ..c
        }),
    decreases frames.len(),
{
    if frames.len() > 0 {
        let topic = TopicView { cmd: frames[0].cmd, payload: frames[0].payload };
        if frames[0].cmd.topic() {
            queueing_keeps_the_rest(c.queue(topic), frames.drop_first());
        } else {
            queueing_keeps_the_rest(c, frames.drop_first());
        }
    }
}

/// Listening, in terms of what the device advertised: whatever chunks the stream
/// comes in, a client with nothing queued hears the first topic, and replies
/// before it are skipped.
pub proof fn listening_ends_in_the_first_topic(
    c: ClientView,
    caps: DeviceCapabilities,
    chunks: Seq<Seq<u8>>,
    others: Seq<FrameView>,
    topic: FrameView,
    tail: Seq<u8>,
)
    requires
        c.caps == Some(caps),
        !c.dead,
        c.events.len() == 0,
        c.rx + flat(chunks) == stream(others) + on_the_wire(
            topic.cmd.raw,
            topic.seq,
            topic.payload,
        ) + tail,
        forall|i: int|
            0 <= i < others.len() ==> (#[trigger] others[i]).payload.len() <= caps.max_payload_size
                && others[i].cmd.raw < 0x8000,
        topic.payload.len() <= caps.max_payload_size,
        topic.cmd.raw >= 0x8000,
    ensures
        ({
            let (after, left, heard) = c.listen(chunks);
            &&& heard == Some(
                Ok::<TopicView, TransportError>(
                    TopicView { cmd: topic.cmd, payload: topic.payload },
                ),
            )
            &&& after == (ClientView { rx: after.rx, ..c })
            &&& after.rx + flat(left) == tail
        }),
{
    frames_lie_as_laid_out(topic);
    assert forall|i: int| 0 <= i < others.len() implies sendable(
        #[trigger] others[i],
        c.max_frame(),
    ) && !others[i].cmd.topic() by {
        assert(others[i].payload.len() <= caps.max_payload_size);
    }
    topic_is_heard(c, chunks, others, topic, tail);
}

/// A queued topic is the next event, whatever the state of the link; without one a
/// dead link says so, and a live one changes its buffer alone.
pub proof fn queued_topics_are_next(c: ClientView)
    ensures
        c.events.len() > 0 ==> c.next_topic() == (
            ClientView { events: c.events.skip(1), ..c },
            Some(Ok::<TopicView, TransportError>(c.events[0])),
        ),
        c.events.len() == 0 && c.dead ==> c.next_topic() == (
            c,
            Some(Err::<TopicView, TransportError>(TransportError::Disconnected)),
        ),
        c.events.len() == 0 && !c.dead ==> c.next_topic().0 == c.await_topic().0 && (
        c.next_topic().1 is None <==> c.await_topic().1 is None) && (
        c.await_topic().1 matches Some(topic) ==> c.next_topic().1 == Some(
            Ok::<TopicView, TransportError>(topic),
        )),
{
    assert(c.events.drop_first() =~= c.events.skip(1));
}

/// A topic joins the queue behind the others. Of a full queue of 64 the oldest
/// goes, and is counted; the counter wraps.
pub proof fn topics_join_the_queue(c: ClientView, topic: TopicView)
    ensures
        c.events.len() != 64 ==> c.queue(topic) == (ClientView {
            events: c.events + seq![topic],
            ..c
        }),
        c.events.len() == 64 ==> c.queue(topic) == (ClientView {
            events: c.events.skip(1) + seq![topic],
            dropped: c.queue(topic).dropped,
            ..c
        }) && c.queue(topic).dropped == (c.dropped + 1) % 0x1_0000_0000_0000_0000,
{
    assert(c.events.push(topic) =~= c.events + seq![topic]);
    assert(c.events.drop_first().push(topic) =~= c.events.skip(1) + seq![topic]);
}

/// The parts of a value are those of what it is reasoned about as.
pub proof fn values_are_what_they_hold(
    frame: Frame,
    topic: TopicFrame,
    event: Event,
    handshake: Handshake,
    e: ConnectError,
)
    ensures
        frame@ == (FrameView { cmd: frame.cmd, seq: frame.seq, payload: frame.payload@ }),
        topic@ == (TopicView { cmd: topic.cmd, payload: topic.payload@ }),
        event matches Event::LayerChange(layer) ==> event@ == EventView::LayerChange(layer),
        event matches Event::WpmUpdate(wpm) ==> event@ == EventView::WpmUpdate(wpm),
        event matches Event::ConnectionChange(status) ==> event@ == EventView::ConnectionChange(status),
        event matches Event::SleepState(asleep) ==> event@ == EventView::SleepState(asleep),
        event matches Event::LedIndicator(leds) ==> event@ == EventView::LedIndicator(leds),
        event matches Event::BatteryStatus(status) ==> event@ == EventView::BatteryStatus(status),
        event matches Event::Unknown(unknown) ==> event@ == EventView::Unknown(unknown@),
        Step::Send(handshake)@ == StepView::Send(handshake@),
        Step::Receive(handshake)@ == StepView::Receive(handshake@),
        Step::Failed(e)@ == StepView::Failed(e),
{
}

/// An encoded payload goes out as it is.
pub proof fn encoded_payloads_go_out(encoded: Encoded)
    ensures
        encoded matches Ok(payload) ==> payload_of(encoded) == Some(payload@),
        encoded is Err ==> payload_of(encoded) is None,
{
}

/// An error that is passed on is wrapped, whole.
pub proof fn errors_are_passed_on_whole(transport: TransportError, request: RequestError)
    ensures
        <RequestError as FromSpec<TransportError>>::from_spec(transport) == RequestError::Transport(
            transport,
        ),
        <ConnectError as FromSpec<TransportError>>::from_spec(transport) == ConnectError::Transport(
            transport,
        ),
        <ConnectError as FromSpec<RequestError>>::from_spec(request) == ConnectError::Request(
            request,
        ),
{
}

/// The modes of a storage reset go out as different bytes.
pub proof fn reset_modes_have_their_tags(mode: StorageResetMode)
    ensures
        mode.bytes().len() == 1,
        mode == StorageResetMode::Full <==> mode.bytes()[0] == 0,
        mode == StorageResetMode::LayoutOnly <==> mode.bytes()[0] == 1,
{
}

// Typed requests.

/// What a typed request gives over a live link to a device that takes it: the
/// frame with its command, the client's sequence number and its payload.
pub proof fn asking_opens_the_request<R>(
    before: ClientView,
    after: ClientView,
    r: Result<Request<R>, RequestError>,
    cmd: u16,
    payload: Seq<u8>,
    caps: DeviceCapabilities,
)
    requires
        asks(before, after, r, cmd, payload),
        before.caps == Some(caps),
        before.tx_size >= 5 + caps.max_payload_size,
        cmd < 0x8000,
    ensures
        before.dead ==> after == before && (r matches Err(
            RequestError::Transport(TransportError::Disconnected),
        )),
        !before.dead ==> after == (ClientView {
            next_seq: (before.next_seq % 255 + 1) as u8,
            ..before
        }),
        !before.dead ==> (r is Ok <==> payload.len() <= caps.max_payload_size),
        r matches Ok(request) ==> request.spec_cmd().raw == cmd && request.spec_seq()
            == before.next_seq && request.bytes() == on_the_wire(cmd, before.next_seq, payload),
        !(r matches Err(RequestError::Unsupported(_, _))),
{
    frames_lie_as_laid_out(FrameView { cmd: Cmd { raw: cmd }, seq: before.next_seq, payload });
}

/// The same of a request before the handshake.
pub proof fn asking_opens_the_request_before_the_handshake<R>(
    before: ClientView,
    after: ClientView,
    r: Result<Request<R>, RequestError>,
    cmd: u16,
    payload: Seq<u8>,
)
    requires
        asks(before, after, r, cmd, payload),
        before.caps is None,
        before.tx_size == 267,
        !before.dead,
        cmd < 0x8000,
    ensures
        after == (ClientView { next_seq: (before.next_seq % 255 + 1) as u8, ..before }),
        r is Ok <==> payload.len() <= 262,
        r matches Ok(request) ==> request.spec_cmd().raw == cmd && request.spec_seq()
            == before.next_seq && request.bytes() == on_the_wire(cmd, before.next_seq, payload),
{
    frames_lie_as_laid_out(FrameView { cmd: Cmd { raw: cmd }, seq: before.next_seq, payload });
}

/// A request that no reply is waited for is the bare header of its command.
pub proof fn notifying_sends_the_header(
    before: ClientView,
    after: ClientView,
    r: Result<Vec<u8>, RequestError>,
    cmd: u16,
)
    requires
        notifies(before, after, r, cmd),
        before.tx_size >= 5,
    ensures
        before.dead ==> after == before && (r matches Err(
            RequestError::Transport(TransportError::Disconnected),
        )),
        !before.dead ==> after == (ClientView {
            next_seq: (before.next_seq % 255 + 1) as u8,
            ..before
        }) && (r matches Ok(bytes) && bytes@ == on_the_wire(cmd, before.next_seq, seq![])),
{
    let frame = FrameView { cmd: Cmd { raw: cmd }, seq: before.next_seq, payload: seq![] };
    frames_lie_as_laid_out(frame);
}

/// A BLE request is refused as unsupported exactly where the device says that BLE
/// is not enabled, whatever else it says. Then nothing changes.
pub proof fn ble_requests_need_ble<R>(
    before: ClientView,
    after: ClientView,
    r: Result<Request<R>, RequestError>,
    cmd: u16,
    payload: Seq<u8>,
    reason: &'static str,
    caps: DeviceCapabilities,
)
    requires
        asks_where(before.ble(), reason, before, after, r, cmd, payload),
        before.caps == Some(caps),
        before.tx_size >= 5 + caps.max_payload_size,
        cmd < 0x8000,
    ensures
        !caps.ble_enabled ==> after == before && r == Err::<Request<R>, RequestError>(
            RequestError::Unsupported(Cmd { raw: cmd }, reason),
        ),
        caps.ble_enabled ==> !(r matches Err(RequestError::Unsupported(_, _))),
        caps.ble_enabled && !before.dead && payload.len() <= caps.max_payload_size ==> (r matches Ok(
            request,
        ) && request.bytes() == on_the_wire(cmd, before.next_seq, payload)),
{
    if caps.ble_enabled {
        asking_opens_the_request(before, after, r, cmd, payload, caps);
    }
}

/// A request about split peripherals is refused as unsupported exactly where the
/// device is not split or has no BLE, whatever else it says. Then nothing changes.
pub proof fn peripheral_requests_need_a_split_ble_keyboard<R>(
    before: ClientView,
    after: ClientView,
    r: Result<Request<R>, RequestError>,
    cmd: u16,
    payload: Seq<u8>,
    reason: &'static str,
    caps: DeviceCapabilities,
)
    requires
        asks_where(before.split_ble(), reason, before, after, r, cmd, payload),
        before.caps == Some(caps),
        before.tx_size >= 5 + caps.max_payload_size,
        cmd < 0x8000,
    ensures
        !caps.is_split || !caps.ble_enabled ==> after == before && r == Err::<
            Request<R>,
            RequestError,
        >(RequestError::Unsupported(Cmd { raw: cmd }, reason)),
        caps.is_split && caps.ble_enabled ==> !(r matches Err(RequestError::Unsupported(_, _))),
        caps.is_split && caps.ble_enabled && !before.dead && payload.len() <= caps.max_payload_size
            ==> (r matches Ok(request) && request.bytes() == on_the_wire(
            cmd,
            before.next_seq,
            payload,
        )),
{
    if caps.is_split && caps.ble_enabled {
        asking_opens_the_request(before, after, r, cmd, payload, caps);
    }
}

/// A bulk request is refused as unsupported exactly where the device says that it
/// takes no bulk transfers, whatever else it says. Then nothing changes.
pub proof fn bulk_requests_need_bulk_transfer<R>(
    before: ClientView,
    after: ClientView,
    r: Result<Request<R>, RequestError>,
    cmd: u16,
    payload: Seq<u8>,
    reason: &'static str,
    caps: DeviceCapabilities,
)
    requires
        asks_where(before.bulk(), reason, before, after, r, cmd, payload),
        before.caps == Some(caps),
        before.tx_size >= 5 + caps.max_payload_size,
        cmd < 0x8000,
    ensures
        !caps.bulk_transfer_supported ==> after == before && r == Err::<Request<R>, RequestError>(
            RequestError::Unsupported(Cmd { raw: cmd }, reason),
        ),
        caps.bulk_transfer_supported ==> !(r matches Err(RequestError::Unsupported(_, _))),
        caps.bulk_transfer_supported && !before.dead && payload.len() <= caps.max_payload_size ==> (
        r matches Ok(request) && request.bytes() == on_the_wire(cmd, before.next_seq, payload)),
{
    if caps.bulk_transfer_supported {
        asking_opens_the_request(before, after, r, cmd, payload, caps);
    }
}

// Replies.

/// The frame of an accepting reply with this body.
pub open spec fn accepted(cmd: Cmd, seq: u8, body: Seq<u8>) -> FrameView {
    FrameView { cmd, seq, payload: seq![0u8] + body }
}

/// What a caller gets for a body that the decoder reads so.
pub open spec fn handed_out<R>(cmd: Cmd, body: Seq<u8>, taken: Taken<R>) -> Result<
    R,
    RequestError,
> {
    match taken {
        Err(source) => Err(RequestError::Deserialize { cmd, source }),
        Ok((value, n)) => if n == body.len() {
            Ok(value)
        } else {
            Err(RequestError::TrailingBytes { cmd })
        },
    }
}

proof fn bodies_are_handed_out<R: Reply>(cmd: Cmd, seq: u8, body: Seq<u8>)
    ensures
        answer::<R>(cmd, accepted(cmd, seq, body)) == handed_out(cmd, body, R::body(body)),
{
    assert(accepted(cmd, seq, body).payload =~= put_accept(body));
    acceptance_is_read_back(body, R::body(body));
}

/// Each reply that is carried through unread is what the decoder makes of the
/// whole body; what it cannot decode, or does not use up, is an error.
pub proof fn carried_replies_are_what_was_decoded(cmd: Cmd, seq: u8, body: Seq<u8>)
    ensures
        answer::<KeyAction>(cmd, accepted(cmd, seq, body)) == handed_out(
            cmd,
            body,
            key_action_of(body),
        ),
        answer::<EncoderAction>(cmd, accepted(cmd, seq, body)) == handed_out(
            cmd,
            body,
            encoder_action_of(body),
        ),
        answer::<Combo>(cmd, accepted(cmd, seq, body)) == handed_out(cmd, body, combo_of(body)),
        answer::<Fork>(cmd, accepted(cmd, seq, body)) == handed_out(cmd, body, fork_of(body)),
        answer::<Morse>(cmd, accepted(cmd, seq, body)) == handed_out(cmd, body, morse_of(body)),
        answer::<MacroData>(cmd, accepted(cmd, seq, body)) == handed_out(
            cmd,
            body,
            macro_data_of(body),
        ),
        answer::<MatrixState>(cmd, accepted(cmd, seq, body)) == handed_out(
            cmd,
            body,
            matrix_state_of(body),
        ),
        answer::<GetKeymapBulkResponse>(cmd, accepted(cmd, seq, body)) == handed_out(
            cmd,
            body,
            keymap_page_of(body),
        ),
        answer::<GetComboBulkResponse>(cmd, accepted(cmd, seq, body)) == handed_out(
            cmd,
            body,
            combo_page_of(body),
        ),
        answer::<GetMorseBulkResponse>(cmd, accepted(cmd, seq, body)) == handed_out(
            cmd,
            body,
            morse_page_of(body),
        ),
{
    bodies_are_handed_out::<KeyAction>(cmd, seq, body);
    bodies_are_handed_out::<EncoderAction>(cmd, seq, body);
    bodies_are_handed_out::<Combo>(cmd, seq, body);
    bodies_are_handed_out::<Fork>(cmd, seq, body);
    bodies_are_handed_out::<Morse>(cmd, seq, body);
    bodies_are_handed_out::<MacroData>(cmd, seq, body);
    bodies_are_handed_out::<MatrixState>(cmd, seq, body);
    bodies_are_handed_out::<GetKeymapBulkResponse>(cmd, seq, body);
    bodies_are_handed_out::<GetComboBulkResponse>(cmd, seq, body);
    bodies_are_handed_out::<GetMorseBulkResponse>(cmd, seq, body);
}

/// The same of the replies that are read here, also of bodies that no device
/// should send.
pub proof fn read_replies_are_what_was_decoded(cmd: Cmd, seq: u8, body: Seq<u8>)
    ensures
        answer::<()>(cmd, accepted(cmd, seq, body)) == handed_out(cmd, body, take_unit(body)),
        answer::<u8>(cmd, accepted(cmd, seq, body)) == handed_out(cmd, body, take_byte(body)),
        answer::<u16>(cmd, accepted(cmd, seq, body)) == handed_out(cmd, body, take_word(body)),
        answer::<bool>(cmd, accepted(cmd, seq, body)) == handed_out(cmd, body, take_flag(body)),
        answer::<ProtocolVersion>(cmd, accepted(cmd, seq, body)) == handed_out(
            cmd,
            body,
            ProtocolVersion::taken(body),
        ),
        answer::<DeviceCapabilities>(cmd, accepted(cmd, seq, body)) == handed_out(
            cmd,
            body,
            DeviceCapabilities::taken(body),
        ),
        answer::<BehaviorConfig>(cmd, accepted(cmd, seq, body)) == handed_out(
            cmd,
            body,
            BehaviorConfig::taken(body),
        ),
        answer::<BatteryStatus>(cmd, accepted(cmd, seq, body)) == handed_out(
            cmd,
            body,
            BatteryStatus::taken(body),
        ),
        answer::<PeripheralStatus>(cmd, accepted(cmd, seq, body)) == handed_out(
            cmd,
            body,
            PeripheralStatus::taken(body),
        ),
        answer::<LedIndicator>(cmd, accepted(cmd, seq, body)) == handed_out(
            cmd,
            body,
            LedIndicator::taken(body),
        ),
        answer::<ConnectionType>(cmd, accepted(cmd, seq, body)) == handed_out(
            cmd,
            body,
            ConnectionType::taken(body),
        ),
        answer::<ConnectionStatus>(cmd, accepted(cmd, seq, body)) == handed_out(
            cmd,
            body,
            ConnectionStatus::taken(body),
        ),
        answer::<BleStatus>(cmd, accepted(cmd, seq, body)) == handed_out(
            cmd,
            body,
            BleStatus::taken(body),
        ),
{
    bodies_are_handed_out::<()>(cmd, seq, body);
    bodies_are_handed_out::<u8>(cmd, seq, body);
    bodies_are_handed_out::<u16>(cmd, seq, body);
    bodies_are_handed_out::<bool>(cmd, seq, body);
    bodies_are_handed_out::<ProtocolVersion>(cmd, seq, body);
    bodies_are_handed_out::<DeviceCapabilities>(cmd, seq, body);
    bodies_are_handed_out::<BehaviorConfig>(cmd, seq, body);
    bodies_are_handed_out::<BatteryStatus>(cmd, seq, body);
    bodies_are_handed_out::<PeripheralStatus>(cmd, seq, body);
    bodies_are_handed_out::<LedIndicator>(cmd, seq, body);
    bodies_are_handed_out::<ConnectionType>(cmd, seq, body);
    bodies_are_handed_out::<ConnectionStatus>(cmd, seq, body);
    bodies_are_handed_out::<BleStatus>(cmd, seq, body);
}

/// Words take one, two or three bytes, seven bits to a byte and low bits first.
pub proof fn words_take_seven_bits_to_a_byte(word: u16)
    ensures
        word < 128 ==> varint(word as nat) == seq![word as u8],
        128 <= word < 16384 ==> varint(word as nat) == seq![
            (128 + word % 128) as u8,
            (word / 128) as u8,
        ],
        word >= 16384 ==> varint(word as nat) == seq![
            (128 + word % 128) as u8,
            (128 + word / 128 % 128) as u8,
            (word / 16384) as u8,
        ],
{
    reveal_with_fuel(varint, 4);
    if 128 <= word < 16384 {
        assert(varint(word as nat) =~= seq![(128 + word % 128) as u8, (word / 128) as u8]);
    } else if word >= 16384 {
        assert(varint(word as nat) =~= seq![
            (128 + word % 128) as u8,
            (128 + word / 128 % 128) as u8,
            (word / 16384) as u8,
        ]);
    }
}

/// Scalars, a version and the behavior settings come out of a reply as they went
/// in, byte by byte.
pub proof fn plain_replies_hold_their_value(
    cmd: Cmd,
    seq: u8,
    byte: u8,
    word: u16,
    flag: bool,
    version: ProtocolVersion,
    config: BehaviorConfig,
)
    ensures
        answer::<()>(cmd, accepted(cmd, seq, seq![])) == Ok::<(), RequestError>(()),
        answer::<u8>(cmd, accepted(cmd, seq, seq![byte])) == Ok::<u8, RequestError>(byte),
        answer::<u16>(cmd, accepted(cmd, seq, varint(word as nat))) == Ok::<u16, RequestError>(
            word,
        ),
        answer::<bool>(
            cmd,
            accepted(
                cmd,
                seq,
                seq![if flag {
                        1u8
                    } else {
                        0u8
                    }],
            ),
        ) == Ok::<bool, RequestError>(flag),
        answer::<ProtocolVersion>(
            cmd,
            accepted(cmd, seq, seq![version.major, version.minor]),
        ) == Ok::<ProtocolVersion, RequestError>(version),
        config.bytes() == varint(config.combo_timeout_ms as nat) + varint(
            config.oneshot_timeout_ms as nat,
        ) + varint(config.tap_interval_ms as nat) + varint(config.tap_capslock_interval_ms as nat),
        answer::<BehaviorConfig>(cmd, accepted(cmd, seq, config.bytes())) == Ok::<
            BehaviorConfig,
            RequestError,
        >(config),
{
    let flag_body = seq![if flag {
            1u8
        } else {
            0u8
        }];
    scalars_are_read_back(byte, word, flag, seq![]);
    assert(seq![byte] + seq![] =~= seq![byte]);
    assert(varint(word as nat) + seq![] =~= varint(word as nat));
    assert(seq![flag as u8] + seq![] =~= flag_body);
    handshake_values_are_read_back(version, arbitrary());
    behavior_is_read_back(config);
    behavior_is_four_words(config);
    bodies_are_handed_out::<()>(cmd, seq, seq![]);
    bodies_are_handed_out::<u8>(cmd, seq, seq![byte]);
    bodies_are_handed_out::<u16>(cmd, seq, varint(word as nat));
    bodies_are_handed_out::<bool>(cmd, seq, flag_body);
    bodies_are_handed_out::<ProtocolVersion>(cmd, seq, seq![version.major, version.minor]);
    bodies_are_handed_out::<BehaviorConfig>(cmd, seq, config.bytes());
}

proof fn behavior_is_four_words(config: BehaviorConfig)
    ensures
        config.bytes() == varint(config.combo_timeout_ms as nat) + varint(
            config.oneshot_timeout_ms as nat,
        ) + varint(config.tap_interval_ms as nat) + varint(config.tap_capslock_interval_ms as nat),
{
    reveal_with_fuel(put_fields, 5);
    let fields = BehaviorConfig::fields();
    let values = config.values();
    assert(values.drop_first().drop_first()[0] == values[2]);
    assert(values.drop_first().drop_first().drop_first()[0] == values[3]);
    assert(fields.drop_first().drop_first()[0] == fields[2]);
    assert(fields.drop_first().drop_first().drop_first()[0] == fields[3]);
    assert(config.bytes() =~= varint(config.combo_timeout_ms as nat) + varint(
        config.oneshot_timeout_ms as nat,
    ) + varint(config.tap_interval_ms as nat) + varint(config.tap_capslock_interval_ms as nat));
}

/// A device's capabilities come out of a reply as they went in.
pub proof fn capabilities_replies_hold_their_value(cmd: Cmd, seq: u8, caps: DeviceCapabilities)
    ensures
        answer::<DeviceCapabilities>(
            cmd,
            accepted(cmd, seq, put_fields(DeviceCapabilities::fields(), caps.values())),
        ) == Ok::<DeviceCapabilities, RequestError>(caps),
        caps.values() == seq![
            caps.num_layers as nat,
            caps.num_rows as nat,
            caps.num_cols as nat,
            caps.num_encoders as nat,
            caps.max_combos as nat,
            caps.max_combo_keys as nat,
            caps.max_macros as nat,
            caps.macro_space_size as nat,
            caps.max_morse as nat,
            caps.max_patterns_per_key as nat,
            caps.max_forks as nat,
            caps.storage_enabled as nat,
            caps.lighting_enabled as nat,
            caps.is_split as nat,
            caps.num_split_peripherals as nat,
            caps.ble_enabled as nat,
            caps.num_ble_profiles as nat,
            caps.max_payload_size as nat,
            caps.max_bulk_keys as nat,
            caps.macro_chunk_size as nat,
            caps.bulk_transfer_supported as nat,
        ],
{
    let body = put_fields(DeviceCapabilities::fields(), caps.values());
    handshake_values_are_read_back(arbitrary(), caps);
    bodies_are_handed_out::<DeviceCapabilities>(cmd, seq, body);
}

/// The status values, byte by byte.
pub proof fn statuses_lie_as_laid_out(
    profile: u8,
    bits: u8,
    level: u8,
    battery: BatteryStatus,
    connection: ConnectionStatus,
)
    ensures
        BatteryStatus::Unavailable.bytes() == seq![0u8],
        (BatteryStatus::Available { charge_state: ChargeState::Charging, level: None }).bytes()
            == seq![1u8, 0, 0],
        (BatteryStatus::Available { charge_state: ChargeState::Discharging, level: None }).bytes()
            == seq![1u8, 1, 0],
        (BatteryStatus::Available { charge_state: ChargeState::Unknown, level: None }).bytes()
            == seq![1u8, 2, 0],
        (BatteryStatus::Available {
            charge_state: ChargeState::Charging,
            level: Some(level),
        }).bytes() == seq![1u8, 0, 1, level],
        (BatteryStatus::Available {
            charge_state: ChargeState::Discharging,
            level: Some(level),
        }).bytes() == seq![1u8, 1, 1, level],
        (BatteryStatus::Available {
            charge_state: ChargeState::Unknown,
            level: Some(level),
        }).bytes() == seq![1u8, 2, 1, level],
        (PeripheralStatus { connected: false, battery }).bytes() == seq![0u8] + battery.bytes(),
        (PeripheralStatus { connected: true, battery }).bytes() == seq![1u8] + battery.bytes(),
        (LedIndicator { bits }).bytes() == seq![bits],
        ConnectionType::Usb.bytes() == seq![0u8],
        ConnectionType::Ble.bytes() == seq![1u8],
        (BleStatus { profile, state: BleState::Advertising }).bytes() == seq![profile, 0],
        (BleStatus { profile, state: BleState::Connected }).bytes() == seq![profile, 1],
        (BleStatus { profile, state: BleState::Inactive }).bytes() == seq![profile, 2],
        connection.usb == UsbState::Disabled ==> connection.bytes() == seq![0u8]
            + connection.ble.bytes() + connection.preferred.bytes(),
        connection.usb == UsbState::Enabled ==> connection.bytes() == seq![1u8]
            + connection.ble.bytes() + connection.preferred.bytes(),
        connection.usb == UsbState::Configured ==> connection.bytes() == seq![2u8]
            + connection.ble.bytes() + connection.preferred.bytes(),
        connection.usb == UsbState::Suspended ==> connection.bytes() == seq![3u8]
            + connection.ble.bytes() + connection.preferred.bytes(),
{
    assert((BatteryStatus::Available { charge_state: ChargeState::Charging, level: None }).bytes()
        =~= seq![1u8, 0, 0]);
    assert((BatteryStatus::Available {
        charge_state: ChargeState::Discharging,
        level: None,
    }).bytes() =~= seq![1u8, 1, 0]);
    assert((BatteryStatus::Available { charge_state: ChargeState::Unknown, level: None }).bytes()
        =~= seq![1u8, 2, 0]);
    assert((BatteryStatus::Available {
        charge_state: ChargeState::Charging,
        level: Some(level),
    }).bytes() =~= seq![1u8, 0, 1, level]);
    assert((BatteryStatus::Available {
        charge_state: ChargeState::Discharging,
        level: Some(level),
    }).bytes() =~= seq![1u8, 1, 1, level]);
    assert((BatteryStatus::Available {
        charge_state: ChargeState::Unknown,
        level: Some(level),
    }).bytes() =~= seq![1u8, 2, 1, level]);
}

/// The status values come out of a reply as they went in.
pub proof fn status_replies_hold_their_value(
    cmd: Cmd,
    seq: u8,
    battery: BatteryStatus,
    peripheral: PeripheralStatus,
    leds: LedIndicator,
    connection: ConnectionStatus,
)
    ensures
        answer::<BatteryStatus>(cmd, accepted(cmd, seq, battery.bytes())) == Ok::<
            BatteryStatus,
            RequestError,
        >(battery),
        answer::<PeripheralStatus>(cmd, accepted(cmd, seq, peripheral.bytes())) == Ok::<
            PeripheralStatus,
            RequestError,
        >(peripheral),
        answer::<LedIndicator>(cmd, accepted(cmd, seq, leds.bytes())) == Ok::<
            LedIndicator,
            RequestError,
        >(leds),
        answer::<ConnectionType>(cmd, accepted(cmd, seq, connection.preferred.bytes())) == Ok::<
            ConnectionType,
            RequestError,
        >(connection.preferred),
        answer::<BleStatus>(cmd, accepted(cmd, seq, connection.ble.bytes())) == Ok::<
            BleStatus,
            RequestError,
        >(connection.ble),
        answer::<ConnectionStatus>(cmd, accepted(cmd, seq, connection.bytes())) == Ok::<
            ConnectionStatus,
            RequestError,
        >(connection),
{
    battery_is_read_back(battery, seq![]);
    peripheral_is_read_back(peripheral, seq![]);
    connection_is_read_back(connection, seq![]);
    assert(battery.bytes() + seq![] =~= battery.bytes());
    assert(peripheral.bytes() + seq![] =~= peripheral.bytes());
    assert(connection.bytes() + seq![] =~= connection.bytes());
    assert(connection.ble.bytes() + seq![] =~= connection.ble.bytes());
    assert(connection.preferred.bytes() + seq![] =~= connection.preferred.bytes());
    bodies_are_handed_out::<BatteryStatus>(cmd, seq, battery.bytes());
    bodies_are_handed_out::<PeripheralStatus>(cmd, seq, peripheral.bytes());
    bodies_are_handed_out::<LedIndicator>(cmd, seq, leds.bytes());
    bodies_are_handed_out::<ConnectionType>(cmd, seq, connection.preferred.bytes());
    bodies_are_handed_out::<BleStatus>(cmd, seq, connection.ble.bytes());
    bodies_are_handed_out::<ConnectionStatus>(cmd, seq, connection.bytes());
}

/// The device errors, in the order of their tags.
pub open spec fn device_errors() -> Seq<DeviceError> {
    seq![
        DeviceError::Malformed,
        DeviceError::NotReady,
        DeviceError::StorageFault,
        DeviceError::Internal,
        DeviceError::Unimplemented,
        DeviceError::Invalid,
        DeviceError::UnknownCmd,
        DeviceError::Locked,
        DeviceError::Busy,
    ]
}

/// Whatever reply was asked for: a rejection is the device's error, another
/// command is a mismatch, and a payload that is no envelope does not decode.
pub proof fn replies_that_give_no_value<R: Reply>(
    cmd: Cmd,
    other: Cmd,
    seq: u8,
    tag: u8,
    payload: Seq<u8>,
)
    ensures
        tag < 9 ==> answer::<R>(cmd, FrameView { cmd, seq, payload: seq![1u8, tag] }) == Err::<
            R,
            RequestError,
        >(RequestError::Rejected(device_errors()[tag as int])),
        other != cmd ==> answer::<R>(cmd, FrameView { cmd: other, seq, payload }) == Err::<
            R,
            RequestError,
        >(RequestError::CmdMismatch { sent: cmd, got: other }),
        answer::<R>(cmd, FrameView { cmd, seq, payload: seq![] }) == Err::<R, RequestError>(
            RequestError::Deserialize { cmd, source: DecodeError::UnexpectedEnd },
        ),
        2 <= tag < 128 ==> answer::<R>(cmd, FrameView { cmd, seq, payload: seq![tag] + payload })
            == Err::<R, RequestError>(
            RequestError::Deserialize { cmd, source: DecodeError::BadValue },
        ),
{
    if tag < 9 {
        rejection_reaches_the_caller::<R>(cmd, seq, tag as nat, device_errors()[tag as int]);
    }
    assert((seq![tag] + payload)[0] == tag);
}

/// A decoded reply is the caller's value exactly where it was accepted and used up
/// its bytes.
pub proof fn settling_hands_out_accepted_values<R>(cmd: Cmd, decoded: Decoded<R>)
    ensures
        settled(cmd, decoded) is Ok <==> (decoded matches Ok((Ok(_), left)) && left == 0),
        decoded matches Ok((Ok(value), left)) ==> left == 0 ==> settled(cmd, decoded) == Ok::<
            R,
            RequestError,
        >(value),
        decoded matches Ok((Err(error), left)) ==> left == 0 ==> settled(cmd, decoded) == Err::<
            R,
            RequestError,
        >(RequestError::Rejected(error)),
        decoded matches Ok((_, left)) ==> left > 0 ==> settled(cmd, decoded) == Err::<
            R,
            RequestError,
        >(RequestError::TrailingBytes { cmd }),
        decoded matches Err(source) ==> settled(cmd, decoded) == Err::<R, RequestError>(
            RequestError::Deserialize { cmd, source },
        ),
{
}

/// Putting a decoding result in the library's terms keeps the value and what is
/// left over, and renames the errors alone.
pub proof fn unwiring_renames_errors<V>(wired: Wired<V>)
    ensures
        wired matches Ok((Ok(value), left)) ==> unwired(wired) == Ok::<
            (Result<V, DeviceError>, usize),
            DecodeError,
        >((Ok(value), left)),
        wired matches Ok((Err(e), left)) ==> unwired(wired) == Ok::<
            (Result<V, DeviceError>, usize),
            DecodeError,
        >((Err(device_error_of(e)), left)),
        wired matches Err(e) ==> unwired(wired) == Err::<
            (Result<V, DeviceError>, usize),
            DecodeError,
        >(decode_error_of(e)),
{
}

// Events.

/// What a topic is handed out as follows from its command and its bytes: the typed
/// event where the front of the payload holds its value, and the topic itself
/// where it does not or the command is not known.
pub proof fn topics_are_handed_out_by_their_bytes(topic: TopicView)
    ensures
        topic.cmd.raw == 0x8001 ==> event_of(topic) == if topic.payload.len() == 0 {
            EventView::Unknown(topic)
        } else {
            EventView::LayerChange(topic.payload[0])
        },
        topic.cmd.raw == 0x8002 ==> match take_word(topic.payload) {
            Ok((wpm, _)) => event_of(topic) == EventView::WpmUpdate(wpm),
            Err(_) => event_of(topic) == EventView::Unknown(topic),
        },
        topic.cmd.raw == 0x8003 ==> match ConnectionStatus::taken(topic.payload) {
            Ok((status, _)) => event_of(topic) == EventView::ConnectionChange(status),
            Err(_) => event_of(topic) == EventView::Unknown(topic),
        },
        topic.cmd.raw == 0x8004 ==> event_of(topic) == if topic.payload.len() == 0
            || topic.payload[0] > 1 {
            EventView::Unknown(topic)
        } else {
            EventView::SleepState(topic.payload[0] == 1)
        },
        topic.cmd.raw == 0x8005 ==> event_of(topic) == if topic.payload.len() == 0 {
            EventView::Unknown(topic)
        } else {
            EventView::LedIndicator(LedIndicator { bits: topic.payload[0] })
        },
        topic.cmd.raw == 0x8006 ==> match BatteryStatus::taken(topic.payload) {
            Ok((status, _)) => event_of(topic) == EventView::BatteryStatus(status),
            Err(_) => event_of(topic) == EventView::Unknown(topic),
        },
        topic.cmd.raw < 0x8001 || topic.cmd.raw > 0x8006 ==> event_of(topic) == EventView::Unknown(
            topic,
        ),
{
}

// The handshake.

/// A handshake starts by asking for the version, with sequence number 1.
pub proof fn handshakes_ask_for_the_version()
    ensures
        HandshakeView::start().stage == Stage::Version,
        HandshakeView::start().seq == 1,
        HandshakeView::start().frame == on_the_wire(0x0001, 1, seq![]),
        HandshakeView::start().client == (ClientView { next_seq: 2, ..ClientView::fresh() }),
{
    let frame = FrameView { cmd: Cmd { raw: 0x0001 }, seq: 1, payload: seq![] };
    frames_lie_as_laid_out(frame);
}

/// The version decides, by its major alone: another one is refused with both
/// versions in the error, and the same one is asked for its capabilities. The
/// client keeps the version as it came.
pub proof fn the_major_decides(client: ClientView, version: ProtocolVersion)
    requires
        client.caps is None,
        client.tx_size == 267,
        !client.dead,
    ensures
        version.major != 0 ==> HandshakeView::with_version(client, version)
            == StepView::Failed(
            ConnectError::VersionMismatch {
                firmware_major: version.major,
                firmware_minor: version.minor,
                host_major: 0,
                host_max_minor: 1,
            },
        ),
        version.major == 0 ==> (HandshakeView::with_version(
            client,
            version,
        ) matches StepView::Send(next) && next.stage == Stage::Capabilities && next.seq
            == client.next_seq && next.frame == on_the_wire(0x0002, client.next_seq, seq![])
            && next.client == (ClientView {
            version,
            next_seq: (client.next_seq % 255 + 1) as u8,
            ..client
        })),
{
    let frame = FrameView { cmd: Cmd { raw: 0x0002 }, seq: client.next_seq, payload: seq![] };
    frames_lie_as_laid_out(frame);
}

/// What a handshake does with the reply that it waited for: it goes on with a value
/// that decoded, and fails as the request did otherwise. It goes on waiting while
/// there is no reply.
pub proof fn handshakes_follow_their_replies(handshake: HandshakeView, reply: FrameView)
    ensures
        handshake.client.await_reply(handshake.seq).1 is None ==> handshake.step()
            == StepView::Receive(
            HandshakeView { client: handshake.client.await_reply(handshake.seq).0, ..handshake },
        ),
        handshake.client.await_reply(handshake.seq).1 == Some(reply) && handshake.stage
            == Stage::Version ==> match answer::<ProtocolVersion>(Cmd { raw: 0x0001 }, reply) {
            Ok(version) => handshake.step() == HandshakeView::with_version(
                handshake.client.await_reply(handshake.seq).0,
                version,
            ),
            Err(e) => handshake.step() == StepView::Failed(ConnectError::Request(e)),
        },
        handshake.client.await_reply(handshake.seq).1 == Some(reply) && handshake.stage
            == Stage::Capabilities ==> match answer::<DeviceCapabilities>(
            Cmd { raw: 0x0002 },
            reply,
        ) {
            Ok(caps) => handshake.step() matches StepView::Done(client) && client.caps == Some(caps)
                && client == (ClientView {
                caps: Some(caps),
                tx_size: client.tx_size,
                ..handshake.client.await_reply(handshake.seq).0
            }) && client.tx_size >= 5 + caps.max_payload_size,
            Err(e) => handshake.step() == StepView::Failed(ConnectError::Request(e)),
        },
{
}

// Serial ports.

/// The candidates are the ports with the vendor id, each once and in order: `at`
/// is where they stand among the ports.
pub proof fn candidates_are_the_ports_with_the_vendor_id(ports: Seq<PortInfo>, vid: u16) -> (at:
    Seq<int>)
    ensures
        at.len() == names_with_vid(ports, vid).len(),
        forall|k: int|
            0 <= k < at.len() ==> 0 <= #[trigger] at[k] < ports.len() && ports[at[k]].usb_vid
                == Some(vid) && names_with_vid(ports, vid)[k] == ports[at[k]].name,
        forall|j: int, k: int| 0 <= j < k < at.len() ==> #[trigger] at[j] < #[trigger] at[k],
        forall|i: int|
            0 <= i < ports.len() && (#[trigger] ports[i]).usb_vid == Some(vid) ==> at.contains(i),
    decreases ports.len(),
{
    if ports.len() == 0 {
        seq![]
    } else {
        let before = ports.drop_last();
        let at = candidates_are_the_ports_with_the_vendor_id(before, vid);
        let last = ports.len() - 1;
        if ports[last].usb_vid == Some(vid) {
            let all = at.push(last);
            assert forall|i: int|
                0 <= i < ports.len() && (#[trigger] ports[i]).usb_vid == Some(
                    vid,
                ) implies all.contains(i) by {
                if i < last {
                    assert(before[i] == ports[i]);
                    let k = choose|k: int| 0 <= k < at.len() && at[k] == i;
                    assert(all[k] == i);
                } else {
                    assert(all[at.len() as int] == i);
                }
            }
            assert forall|k: int| 0 <= k < all.len() implies 0 <= #[trigger] all[k] < ports.len()
                && ports[all[k]].usb_vid == Some(vid) && names_with_vid(ports, vid)[k]
                == ports[all[k]].name by {
                if k < at.len() {
                    assert(all[k] == at[k]);
                    assert(before[at[k]] == ports[at[k]]);
                }
            }
            all
        } else {
            assert forall|i: int|
                0 <= i < ports.len() && (#[trigger] ports[i]).usb_vid == Some(
                    vid,
                ) implies at.contains(i) by {
                assert(before[i] == ports[i]);
            }
            assert forall|k: int| 0 <= k < at.len() implies 0 <= #[trigger] at[k] < ports.len()
                && ports[at[k]].usb_vid == Some(vid) && names_with_vid(ports, vid)[k]
                == ports[at[k]].name by {
                assert(before[at[k]] == ports[at[k]]);
            }
            at
        }
    }
}

/// Ports can be listed in parts: the candidates of two lists are those of the one,
/// then those of the other, and one port is a candidate by its own id alone.
pub proof fn candidates_of_parts(a: Seq<PortInfo>, b: Seq<PortInfo>, port: PortInfo, vid: u16)
    ensures
        names_with_vid(a + b, vid) == names_with_vid(a, vid) + names_with_vid(b, vid),
        names_with_vid(seq![port], vid) == if port.usb_vid == Some(vid) {
            seq![port.name]
        } else {
            seq![]
        },
    decreases b.len(),
{
    assert(seq![port].drop_last() =~= seq![]);
    assert(names_with_vid(seq![port].drop_last(), vid) =~= seq![]);
    assert(names_with_vid(seq![port], vid) =~= if port.usb_vid == Some(vid) {
        seq![port.name]
    } else {
        seq![]
    });
    if b.len() == 0 {
        assert(a + b =~= a);
        assert(names_with_vid(a, vid) + names_with_vid(b, vid) =~= names_with_vid(a, vid));
    } else {
        candidates_of_parts(a, b.drop_last(), port, vid);
        assert((a + b).drop_last() =~= a + b.drop_last());
        assert(names_with_vid(a + b, vid) =~= names_with_vid(a, vid) + names_with_vid(b, vid));
    }
}

/// The value of a hexadecimal digit.
pub open spec fn digit_value(digit: char) -> int {
    if '0' <= digit <= '9' {
        digit as int - '0' as int
    } else {
        10 + digit as int - 'a' as int
    }
}

/// The vendor id is written as four lower-case hexadecimal digits that stand for
/// it, whatever it is.
pub proof fn vendor_ids_are_written_in_hexadecimal(vid: u16)
    ensures
        hex4(vid).len() == 4,
        forall|i: int|
            0 <= i < 4 ==> '0' <= #[trigger] hex4(vid)[i] <= '9' || 'a' <= hex4(vid)[i] <= 'f',
        vid == 4096 * digit_value(hex4(vid)[0]) + 256 * digit_value(hex4(vid)[1]) + 16
            * digit_value(hex4(vid)[2]) + digit_value(hex4(vid)[3]),
        no_port_text(vid) == "no USB serial port with vendor id 0x"@ + hex4(vid) + " found"@,
{
    let a: u16 = vid / 4096 % 16;
    let b: u16 = vid / 256 % 16;
    let c: u16 = vid / 16 % 16;
    let d: u16 = vid % 16;
    digits_have_their_value(a);
    digits_have_their_value(b);
    digits_have_their_value(c);
    digits_have_their_value(d);
    assert(vid == 4096 * a + 256 * b + 16 * c + d) by {
        assert(vid == 16 * (vid / 16) + vid % 16);
        assert(vid / 16 == 16 * (vid / 256) + vid / 16 % 16);
        assert(vid / 256 == 16 * (vid / 4096) + vid / 256 % 16);
        assert(vid / 4096 < 16);
    }
    assert(hex4(vid) == seq![hex_digit(a), hex_digit(b), hex_digit(c), hex_digit(d)]);
}

proof fn digits_have_their_value(value: u16)
    requires
        value < 16,
    ensures
        digit_value(hex_digit(value)) == value,
        '0' <= hex_digit(value) <= '9' || 'a' <= hex_digit(value) <= 'f',
{
}

/// Of what a candidate can fail with, a reply of real firmware is definitive, a
/// version of another major or a rejection of any kind, and nothing else is.
pub proof fn real_replies_are_definitive(
    firmware_major: u8,
    firmware_minor: u8,
    host_major: u8,
    host_max_minor: u8,
    error: DeviceError,
    transport: TransportError,
    probed: usize,
    last: ConnectError,
    request: RequestError,
)
    ensures
        definitive(
            ConnectError::VersionMismatch {
                firmware_major,
                firmware_minor,
                host_major,
                host_max_minor,
            },
        ),
        definitive(ConnectError::Request(RequestError::Rejected(error))),
        !definitive(ConnectError::Transport(transport)),
        !definitive(ConnectError::NoResponsiveDevice { probed, last: Box::new(last) }),
        request !is Rejected ==> !definitive(ConnectError::Request(request)),
{
}

/// What one more failed candidate does to a probe: the first definitive error
/// stays, the last of the others is kept, and neither touches the other.
pub proof fn failures_are_kept_apart(probe: ProbeView, failure: Option<ConnectError>)
    ensures
        probe.fail(failure).total == probe.total,
        probe.definitive is Some ==> probe.fail(failure).definitive == probe.definitive,
        failure is None ==> probe.fail(failure) == probe,
        failure matches Some(e) ==> {
            if definitive(e) {
                probe.fail(failure).last == probe.last && (probe.definitive is None ==> probe.fail(
                    failure,
                ).definitive == Some(e))
            } else {
                probe.fail(failure).definitive == probe.definitive && probe.fail(failure).last
                    == Some(e)
            }
        },
{
}

/// The error of a probe without a winner, and no other: the definitive one, or that
/// none of so many candidates answered, with the last error or the timeout.
pub proof fn probes_end_in_one_error(probe: ProbeView, end: ConnectError)
    requires
        probe.ends_in(end),
    ensures
        probe.definitive matches Some(e) ==> end == e,
        probe.definitive is None ==> (end matches ConnectError::NoResponsiveDevice { probed, last }
            && probed == probe.total && (probe.last matches Some(e) ==> *last == e) && (
        probe.last is None ==> (*last matches ConnectError::Transport(
            TransportError::DeviceNotFound(text),
        ) && text@ == "handshake timed out"@))),
{
}

/// The error of a handshake that ran out of time says so.
pub proof fn timeouts_say_so(e: ConnectError)
    requires
        timed_out(e),
    ensures
        e matches ConnectError::Transport(TransportError::DeviceNotFound(text)) && text@
            == "handshake timed out"@,
{
}

// The device's side.

/// What a handler's answer means: an accepting response is a zero and the body, a
/// rejection is the error.
pub proof fn responses_mean_what_they_say(r: Response, body: Seq<u8>, error: DeviceError)
    ensures
        accepts(r, body) ==> (r matches Ok(payload) && payload@ == seq![0u8] + body),
        rejects(r, error) ==> (r matches Err(got) && got == error),
{
}

/// A value that a response delivers is what the client that asked is handed out.
pub proof fn delivered_values_are_handed_out<R: Reply>(
    r: Response,
    value: R,
    cmd: Cmd,
    seq: u8,
)
    requires
        delivers(r, value),
    ensures
        r matches Ok(payload) && answer::<R>(cmd, FrameView { cmd, seq, payload: payload@ })
            == Ok::<R, RequestError>(value),
{
}

/// The client that asked for the matrix reads every byte of the bitmap that is
/// tracked, and zeros where none is.
pub proof fn the_matrix_is_read_as_it_is(
    matrix: Option<[u8; 32]>,
    r: Response,
    cmd: Cmd,
    seq: u8,
)
    requires
        delivers_bitmap(r, reported_bitmap(matrix)),
        accepts(r, seq![32u8] + reported_bitmap(matrix)),
    ensures
        r matches Ok(payload) && payload@.len() == 34 && (answer::<MatrixState>(
            cmd,
            FrameView { cmd, seq, payload: payload@ },
        ) matches Ok(state) && pressed_bitmap_of(state).len() == 32 && forall|i: int|
            0 <= i < 32 ==> (match matrix {
                Some(bitmap) => #[trigger] pressed_bitmap_of(state)[i] == bitmap@[i] && payload@[2
                    + i] == bitmap@[i],
                None => pressed_bitmap_of(state)[i] == 0 && payload@[2 + i] == 0,
            })),
{
    let payload = r->Ok_0;
    assert(payload@ =~= seq![0u8, 32u8] + reported_bitmap(matrix));
}

/// A request for a morse key names a slot by its first byte: the response holds
/// the key in that slot; a slot that there is not is invalid, and no byte at all
/// malformed.
pub proof fn morse_keys_are_read_by_slot(morses: Seq<Morse>, request: Seq<u8>, r: Response)
    requires
        answers_get_morse(morses, request, r),
    ensures
        request.len() == 0 ==> r == Err::<Vec<u8>, DeviceError>(DeviceError::Malformed),
        request.len() > 0 && request[0] >= morses.len() ==> r == Err::<Vec<u8>, DeviceError>(
            DeviceError::Invalid,
        ),
        request.len() > 0 && request[0] < morses.len() ==> (r matches Ok(payload) && payload@
            == seq![0u8] + morse_bytes(morses[request[0] as int])),
{
}

/// A request to set a morse key names a slot by its first byte, and the key by what
/// follows: that key is replaced, and no other; a request that names no slot, or
/// holds no key, changes nothing and says so.
pub proof fn morse_keys_are_set_by_slot(morses: Seq<Morse>, request: Seq<u8>, r: Response)
    requires
        answers_set_morse(morses, request, r),
    ensures
        request.len() == 0 ==> r == Err::<Vec<u8>, DeviceError>(DeviceError::Malformed)
            && morses_after(morses, request) == morses,
        request.len() > 0 && morse_of(request.skip(1)) is Err ==> r == Err::<Vec<u8>, DeviceError>(
            DeviceError::Malformed,
        ) && morses_after(morses, request) == morses,
        request.len() > 0 && request[0] >= morses.len() && morse_of(request.skip(1)) is Ok ==> r
            == Err::<Vec<u8>, DeviceError>(DeviceError::Invalid) && morses_after(morses, request)
            == morses,
        request.len() > 0 && request[0] < morses.len() && morse_of(request.skip(1)) is Ok ==> (
        r matches Ok(payload) && payload@ == seq![0u8]) && morses_after(morses, request).len()
            == morses.len() && morses_after(morses, request)[request[0] as int] == (morse_of(
            request.skip(1),
        )->Ok_0).0 && forall|i: int|
            0 <= i < morses.len() && i != request[0] ==> #[trigger] morses_after(
                morses,
                request,
            )[i] == morses[i],
{
}

/// A slot is named by the first byte of a request, and by nothing else.
pub proof fn slots_are_named_by_the_first_byte(request: Seq<u8>)
    ensures
        request.len() == 0 ==> value_of(take_byte(request)) is None,
        request.len() > 0 ==> value_of(take_byte(request)) == Some(request[0]),
{
}

} // verus!
