//! The protocol client: frames out, frames in, and what they mean.
//!
//! [`Client`] performs no I/O. A request method hands out the frame to send;
//! [`Client::sent`] and [`Client::received`] take the link's answers, and
//! [`Client::poll_reply`] and [`Client::next_event`] read what has arrived.
use crate::codec::{Decoded, Encoded};
use crate::command::Cmd;
use crate::error::RequestError;
use crate::event::{decode_event, event_of, Event, TopicFrame, TopicView};
use crate::frame::{
    build_frame, cut, take_frame, Cut, Frame, FrameView, RYNK_HEADER_SIZE, RYNK_MIN_BUFFER_SIZE,
};
use crate::payload::{DeviceCapabilities, ProtocolVersion};
use crate::reply::Reply;
use crate::transport::TransportError;
use crate::wire::{envelope_body, take_envelope};
use std::collections::VecDeque;
use std::marker::PhantomData;
use vstd::prelude::*;

verus! {

/// Queued topic frames before the oldest is dropped.
pub const EVENT_QUEUE_CAPACITY: usize = 64;

/// The sequence number after `seq`: they cycle through `1..=255`.
pub open spec fn seq_after(seq: u8) -> u8 {
    if seq == 255 {
        1
    } else {
        (seq + 1) as u8
    }
}

/// A client as a value.
#[verifier::ext_equal]
pub ghost struct ClientView {
    /// Bytes received and not yet cut into frames.
    pub rx: Seq<u8>,
    /// The sequence number of the next request.
    pub next_seq: u8,
    /// Whether the link is unrecoverable.
    pub dead: bool,
    /// Queued topics, oldest first.
    pub events: Seq<TopicView>,
    /// How many topics a full queue has dropped.
    pub dropped: u64,
    /// The largest frame that can be encoded.
    pub tx_size: nat,
    /// The firmware's protocol version.
    pub version: ProtocolVersion,
    /// The device's capabilities, once the handshake has read them.
    pub caps: Option<DeviceCapabilities>,
}

impl ClientView {
    /// A client before its handshake.
    pub open spec fn fresh() -> ClientView {
        ClientView {
            rx: seq![],
            next_seq: 1,
            dead: false,
            events: seq![],
            dropped: 0,
            tx_size: RYNK_MIN_BUFFER_SIZE as nat,
            version: ProtocolVersion::spec_current(),
            caps: None,
        }
    }

    /// What every client keeps to, whatever happens on the link.
    pub open spec fn wf(self) -> bool {
        &&& self.next_seq >= 1
        &&& self.events.len() <= EVENT_QUEUE_CAPACITY
        &&& forall|i: int| 0 <= i < self.events.len() ==> (#[trigger] self.events[i]).cmd.topic()
        &&& self.tx_size == if self.max_frame() > RYNK_MIN_BUFFER_SIZE {
            self.max_frame()
        } else {
            RYNK_MIN_BUFFER_SIZE as nat
        }
    }

    /// Largest frame either side may put on the wire: the header and the
    /// device's largest payload, or the protocol floor before the handshake.
    pub open spec fn max_frame(self) -> nat {
        match self.caps {
            Some(caps) => RYNK_HEADER_SIZE as nat + caps.max_payload_size as nat,
            None => RYNK_MIN_BUFFER_SIZE as nat,
        }
    }

    /// Encoding one frame uses up a sequence number, also where the frame is
    /// refused. A frame is refused that the transmit scratch cannot hold, and
    /// one over the device's limit.
    pub open spec fn encode(self, cmd: Cmd, payload: Option<Seq<u8>>) -> (
        ClientView,
        Result<FrameView, RequestError>,
    ) {
        let after = ClientView { next_seq: seq_after(self.next_seq), ..self };
        match payload {
            None => (after, Err(RequestError::Encode(cmd))),
            Some(payload) => {
                let frame = FrameView { cmd, seq: self.next_seq, payload };
                if !frame.encodable() || frame.len() > self.tx_size {
                    (after, Err(RequestError::Encode(cmd)))
                } else if frame.len() > self.max_frame() {
                    (
                        after,
                        Err(
                            RequestError::TooLarge {
                                cmd,
                                frame_len: frame.len() as usize,
                                max: self.max_frame() as usize,
                            },
                        ),
                    )
                } else {
                    (after, Ok(frame))
                }
            },
        }
    }

    /// A frame goes out only over a live link.
    pub open spec fn notify(self, cmd: Cmd, payload: Option<Seq<u8>>) -> (
        ClientView,
        Result<FrameView, RequestError>,
    ) {
        if self.dead {
            (self, Err(RequestError::Transport(TransportError::Disconnected)))
        } else {
            self.encode(cmd, payload)
        }
    }

    /// A request is a frame that asks for a reply; topics cannot be asked for.
    pub open spec fn request(self, cmd: Cmd, payload: Option<Seq<u8>>) -> (
        ClientView,
        Result<FrameView, RequestError>,
    ) {
        if cmd.topic() {
            (self, Err(RequestError::TopicCmd(cmd)))
        } else {
            self.notify(cmd, payload)
        }
    }

    /// The topic joins the queue; a full queue drops its oldest.
    pub open spec fn queue(self, topic: TopicView) -> ClientView {
        if self.events.len() == EVENT_QUEUE_CAPACITY {
            ClientView {
                events: self.events.drop_first().push(topic),
                dropped: if self.dropped == u64::MAX {
                    0
                } else {
                    (self.dropped + 1) as u64
                },
                ..self
            }
        } else {
            ClientView { events: self.events.push(topic), ..self }
        }
    }

    /// Reads frames until the reply to `seq`: topics are queued, replies to
    /// other requests are skipped. No frame is the reply where more bytes are
    /// needed.
    pub open spec fn await_reply(self, seq: u8) -> (ClientView, Option<FrameView>)
        decreases self.rx.len(),
    {
        match cut(self.rx, self.max_frame()) {
            Cut::Partial { rest } => (ClientView { rx: rest, ..self }, None),
            Cut::Whole { frame, rest } => {
                let after = ClientView { rx: rest, ..self };
                if frame.cmd.topic() {
                    after.queue(TopicView { cmd: frame.cmd, payload: frame.payload }).await_reply(
                        seq,
                    )
                } else if frame.seq == seq {
                    (after, Some(frame))
                } else {
                    after.await_reply(seq)
                }
            },
        }
    }

    /// Reads frames until a topic: replies are skipped.
    pub open spec fn await_topic(self) -> (ClientView, Option<TopicView>)
        decreases self.rx.len(),
    {
        match cut(self.rx, self.max_frame()) {
            Cut::Partial { rest } => (ClientView { rx: rest, ..self }, None),
            Cut::Whole { frame, rest } => {
                let after = ClientView { rx: rest, ..self };
                if frame.cmd.topic() {
                    (after, Some(TopicView { cmd: frame.cmd, payload: frame.payload }))
                } else {
                    after.await_topic()
                }
            },
        }
    }

    /// The next topic: a queued one first, also over a dead link; then one off
    /// a live link. None where more bytes are needed.
    pub open spec fn next_topic(self) -> (ClientView, Option<Result<TopicView, TransportError>>) {
        if self.events.len() > 0 {
            (ClientView { events: self.events.drop_first(), ..self }, Some(Ok(self.events[0])))
        } else if self.dead {
            (self, Some(Err(TransportError::Disconnected)))
        } else {
            match self.await_topic() {
                (after, Some(topic)) => (after, Some(Ok(topic))),
                (after, None) => (after, None),
            }
        }
    }

    /// What a chunk off the link does.
    pub open spec fn receive(self, chunk: Seq<u8>) -> ClientView {
        ClientView { rx: self.rx + chunk, ..self }
    }

    /// What a failed send or receive does.
    pub open spec fn fail(self) -> ClientView {
        ClientView { dead: true, ..self }
    }

    /// What reading the capabilities does: the limit is the device's, and the
    /// transmit scratch grows to it.
    pub open spec fn negotiate(self, caps: DeviceCapabilities) -> ClientView {
        let after = ClientView { caps: Some(caps), ..self };
        ClientView {
            tx_size: if after.max_frame() > self.tx_size {
                after.max_frame()
            } else {
                self.tx_size
            },
            ..after
        }
    }
}

/// The payload that encoding gave, if it gave one.
pub open spec fn payload_of(encoded: Encoded) -> Option<Seq<u8>> {
    match encoded {
        Ok(payload) => Some(payload@),
        Err(_) => None,
    }
}

/// What a decoded reply means to the caller: bytes left over are a mismatch
/// between wire and type, and a device error is a rejection.
pub open spec fn settled<R>(cmd: Cmd, decoded: Decoded<R>) -> Result<R, RequestError> {
    match decoded {
        Err(source) => Err(RequestError::Deserialize { cmd, source }),
        Ok((envelope, left)) => if left != 0 {
            Err(RequestError::TrailingBytes { cmd })
        } else {
            match envelope {
                Ok(value) => Ok(value),
                Err(error) => Err(RequestError::Rejected(error)),
            }
        },
    }
}

/// What a frame with the request's sequence number means to the caller.
pub open spec fn answer<R: Reply>(cmd: Cmd, frame: FrameView) -> Result<R, RequestError> {
    if frame.cmd != cmd {
        Err(RequestError::CmdMismatch { sent: cmd, got: frame.cmd })
    } else {
        match take_envelope(frame.payload, R::body(envelope_body(frame.payload))) {
            Err(source) => Err(RequestError::Deserialize { cmd, source }),
            Ok((envelope, n)) => if n != frame.payload.len() {
                Err(RequestError::TrailingBytes { cmd })
            } else {
                match envelope {
                    Ok(value) => Ok(value),
                    Err(error) => Err(RequestError::Rejected(error)),
                }
            },
        }
    }
}

/// Turns a decoded reply into the caller's result.
pub fn settle<R>(cmd: Cmd, decoded: Decoded<R>) -> (r: Result<R, RequestError>)
    ensures
        r == settled(cmd, decoded),
{
    match decoded {
        Err(source) => Err(RequestError::Deserialize { cmd, source }),
        Ok((envelope, left)) => if left != 0 {
            Err(RequestError::TrailingBytes { cmd })
        } else {
            match envelope {
                Ok(value) => Ok(value),
                Err(error) => Err(RequestError::Rejected(error)),
            }
        },
    }
}

/// A request that was opened: the frame to send, and what its reply looks like.
pub struct Request<R> {
    cmd: Cmd,
    seq: u8,
    frame: Vec<u8>,
    reply: PhantomData<R>,
}

impl<R> Request<R> {
    /// The command.
    pub closed spec fn spec_cmd(self) -> Cmd {
        self.cmd
    }

    /// The sequence number.
    pub closed spec fn spec_seq(self) -> u8 {
        self.seq
    }

    /// The bytes to send.
    pub closed spec fn bytes(self) -> Seq<u8> {
        self.frame@
    }

    /// The command that the reply must carry.
    pub fn cmd(&self) -> (cmd: Cmd)
        ensures
            cmd == self.spec_cmd(),
    {
        self.cmd
    }

    /// The sequence number that the reply must carry.
    pub fn seq(&self) -> (seq: u8)
        ensures
            seq == self.spec_seq(),
    {
        self.seq
    }

    /// The bytes to send.
    pub fn frame(&self) -> (frame: &Vec<u8>)
        ensures
            frame@ == self.bytes(),
    {
        &self.frame
    }
}

/// Whether `r` is what opening a request was to give: the request with this
/// frame, or this error.
pub open spec fn opens<R>(
    r: Result<Request<R>, RequestError>,
    want: Result<FrameView, RequestError>,
) -> bool {
    match want {
        Ok(frame) => r matches Ok(request) && request.spec_cmd() == frame.cmd && request.spec_seq()
            == frame.seq && request.bytes() == frame.bytes(),
        Err(e) => r matches Err(got) && got == e,
    }
}

/// Whether a client went from `before` to `after` by opening a request for
/// `cmd` with this payload, with the result `r`.
pub open spec fn asks<R>(
    before: ClientView,
    after: ClientView,
    r: Result<Request<R>, RequestError>,
    cmd: u16,
    payload: Seq<u8>,
) -> bool {
    let (view, want) = before.request(Cmd { raw: cmd }, Some(payload));
    after == view && opens(r, want)
}

/// Rynk client. Requests are serialized through `&mut self`; topic frames seen
/// while waiting for replies are queued for [`Client::next_event`].
pub struct Client {
    rx_buf: Vec<u8>,
    next_seq: u8,
    dead: bool,
    events: VecDeque<TopicFrame>,
    events_dropped: u64,
    tx_size: usize,
    protocol_version: ProtocolVersion,
    capabilities: Option<DeviceCapabilities>,
}

/// The queued frames as values.
spec fn topics(frames: Seq<TopicFrame>) -> Seq<TopicView> {
    frames.map_values(|frame: TopicFrame| frame@)
}

impl View for Client {
    type V = ClientView;

    closed spec fn view(&self) -> ClientView {
        ClientView {
            rx: self.rx_buf@,
            next_seq: self.next_seq,
            dead: self.dead,
            events: topics(self.events@),
            dropped: self.events_dropped,
            tx_size: self.tx_size as nat,
            version: self.protocol_version,
            caps: self.capabilities,
        }
    }
}

impl Client {
    /// An unhandshaked client.
    pub fn new() -> (client: Client)
        ensures
            client@ == ClientView::fresh(),
    {
        let client = Client {
            rx_buf: Vec::new(),
            next_seq: 1,
            dead: false,
            events: VecDeque::new(),
            events_dropped: 0,
            tx_size: RYNK_MIN_BUFFER_SIZE,
            // Overwritten by the handshake before the client is handed out.
            protocol_version: ProtocolVersion::current(),
            capabilities: None,
        };
        assert(topics(client.events@) =~= seq![]);
        client
    }

    /// Largest frame either side may put on the wire.
    pub fn max_frame_size(&self) -> (max: usize)
        ensures
            max == self@.max_frame(),
            self@.caps matches Some(caps) ==> max == 5 + caps.max_payload_size,
            self@.caps is None ==> max == 267,
    {
        match &self.capabilities {
            Some(caps) => RYNK_HEADER_SIZE + caps.max_payload_size as usize,
            None => RYNK_MIN_BUFFER_SIZE,
        }
    }

    /// Takes over what the handshake read, and grows the transmit scratch to
    /// the negotiated limit so that any request within it encodes.
    pub(crate) fn negotiated(&mut self, caps: DeviceCapabilities)
        ensures
            final(self)@ == old(self)@.negotiate(caps),
    {
        self.capabilities = Some(caps);
        let max: usize = self.max_frame_size();
        if max > self.tx_size {
            self.tx_size = max;
        }
    }

    /// Takes over the firmware's version.
    pub(crate) fn speaks(&mut self, version: ProtocolVersion)
        ensures
            final(self)@ == (ClientView { version, ..old(self)@ }),
    {
        self.protocol_version = version;
    }

    /// Whether the handshake has read the device's capabilities. Holds of every
    /// client that a handshake hands out.
    pub fn has_capabilities(&self) -> (known: bool)
        ensures
            known == (self@.caps is Some),
    {
        self.capabilities.is_some()
    }

    /// Cached capability snapshot from connect time.
    pub fn capabilities(&self) -> (caps: &DeviceCapabilities)
        requires
            self@.caps is Some,
        ensures
            self@.caps == Some(*caps),
    {
        self.capabilities.as_ref().unwrap()
    }

    /// Firmware protocol version reported at connect time.
    pub fn protocol_version(&self) -> (version: ProtocolVersion)
        ensures
            version == self@.version,
    {
        self.protocol_version
    }

    /// `false` once the link is dead: drop the client and reconnect.
    pub fn is_alive(&self) -> (alive: bool)
        ensures
            alive == !self@.dead,
    {
        !self.dead
    }

    /// Count of topics evicted from the queue because it was full while nobody
    /// drained [`Client::next_event`].
    pub fn events_dropped(&self) -> (dropped: u64)
        ensures
            dropped == self@.dropped,
    {
        self.events_dropped
    }

    /// Clears the reassembly buffer after a timeout or another cancellation
    /// point of the caller's. This does not reopen a dead link.
    pub fn resync(&mut self)
        ensures
            final(self)@ == (ClientView { rx: seq![], ..old(self)@ }),
    {
        self.rx_buf.clear();
    }

    /// Encodes one frame; gives its sequence number and its bytes.
    fn encode(&mut self, cmd: Cmd, payload: Encoded) -> (r: Result<(u8, Vec<u8>), RequestError>)
        ensures
            final(self)@ == old(self)@.encode(cmd, payload_of(payload)).0,
            match old(self)@.encode(cmd, payload_of(payload)).1 {
                Ok(frame) => r matches Ok((seq, bytes)) && seq == frame.seq && bytes@
                    == frame.bytes(),
                Err(e) => r matches Err(got) && got == e,
            },
    {
        let seq: u8 = self.next_seq;
        self.next_seq = if seq == 255 {
            1
        } else {
            seq + 1
        };
        let payload: Vec<u8> = match payload {
            Ok(payload) => payload,
            Err(_) => {
                return Err(RequestError::Encode(cmd));
            },
        };
        if payload.len() > u16::MAX as usize || RYNK_HEADER_SIZE + payload.len() > self.tx_size {
            return Err(RequestError::Encode(cmd));
        }
        let frame_len: usize = RYNK_HEADER_SIZE + payload.len();
        let max: usize = self.max_frame_size();
        if frame_len > max {
            return Err(RequestError::TooLarge { cmd, frame_len, max });
        }
        Ok((seq, build_frame(cmd, seq, &payload)))
    }

    /// Opens a request: the typed methods are thin wrappers over this. Call it
    /// directly for commands without a typed method.
    pub fn request_raw<R>(&mut self, cmd: Cmd, payload: Encoded) -> (r: Result<
        Request<R>,
        RequestError,
    >)
        ensures
            final(self)@ == old(self)@.request(cmd, payload_of(payload)).0,
            opens(r, old(self)@.request(cmd, payload_of(payload)).1),
    {
        if cmd.is_topic() {
            return Err(RequestError::TopicCmd(cmd));
        }
        if self.dead {
            return Err(RequestError::Transport(TransportError::Disconnected));
        }
        match self.encode(cmd, payload) {
            Ok((seq, frame)) => Ok(Request { cmd, seq, frame, reply: PhantomData }),
            Err(e) => Err(e),
        }
    }

    /// Encodes a frame that no reply is waited for.
    pub(crate) fn send_no_reply(&mut self, cmd: Cmd, payload: Encoded) -> (r: Result<
        Vec<u8>,
        RequestError,
    >)
        ensures
            final(self)@ == old(self)@.notify(cmd, payload_of(payload)).0,
            match old(self)@.notify(cmd, payload_of(payload)).1 {
                Ok(frame) => r matches Ok(bytes) && bytes@ == frame.bytes(),
                Err(e) => r matches Err(got) && got == e,
            },
    {
        if self.dead {
            return Err(RequestError::Transport(TransportError::Disconnected));
        }
        match self.encode(cmd, payload) {
            Ok((_, frame)) => Ok(frame),
            Err(e) => Err(e),
        }
    }

    /// Takes the link's answer to a send. A failed send may have sent part of
    /// a frame, which desyncs the device: the link is unrecoverable.
    pub fn sent(&mut self, outcome: Result<(), TransportError>) -> (r: Result<(), RequestError>)
        ensures
            match outcome {
                Ok(_) => r is Ok && final(self)@ == old(self)@,
                Err(e) => r matches Err(got) && got == RequestError::Transport(e) && final(self)@
                    == old(self)@.fail(),
            },
    {
        match outcome {
            Ok(_) => Ok(()),
            Err(e) => {
                self.dead = true;
                Err(RequestError::Transport(e))
            },
        }
    }

    /// Takes the link's answer to a receive: a chunk of bytes, or the end of
    /// the link.
    pub fn received(&mut self, outcome: Result<Vec<u8>, TransportError>) -> (r: Result<
        (),
        TransportError,
    >)
        ensures
            match outcome {
                Ok(chunk) => r is Ok && final(self)@ == old(self)@.receive(chunk@),
                Err(e) => r matches Err(got) && got == e && final(self)@ == old(self)@.fail(),
            },
    {
        match outcome {
            Ok(chunk) => {
                let ghost before = self.rx_buf@;
                self.rx_buf.extend_from_slice(chunk.as_slice());
                assert(self.rx_buf@ =~= before + chunk@);
                Ok(())
            },
            Err(e) => {
                self.dead = true;
                Err(e)
            },
        }
    }

    /// Queues a topic, dropping the oldest of a full queue.
    fn queue(&mut self, frame: TopicFrame)
        ensures
            final(self)@ == old(self)@.queue(frame@),
    {
        if self.events.len() == EVENT_QUEUE_CAPACITY {
            let _ = self.events.pop_front();
            self.events_dropped = self.events_dropped.wrapping_add(1);
        }
        self.events.push_back(frame);
        assert(self@.events =~= old(self)@.queue(frame@).events);
    }

    /// Reads buffered frames until the reply to `seq`.
    fn await_frame(&mut self, seq: u8) -> (reply: Option<Frame>)
        ensures
            final(self)@ == old(self)@.await_reply(seq).0,
            match old(self)@.await_reply(seq).1 {
                Some(frame) => reply matches Some(got) && got@ == frame,
                None => reply is None,
            },
    {
        let max: usize = self.max_frame_size();
        loop
            invariant
                max == self@.max_frame(),
                self@.await_reply(seq) == old(self)@.await_reply(seq),
            decreases self.rx_buf@.len(),
        {
            let ghost before = self@;
            match take_frame(&mut self.rx_buf, max) {
                None => {
                    return None;
                },
                Some(frame) => {
                    assert(self@.rx.len() < before.rx.len());
                    if frame.cmd.is_topic() {
                        let topic = TopicFrame { cmd: frame.cmd, payload: frame.payload };
                        self.queue(topic);
                    } else if frame.seq == seq {
                        return Some(frame);
                    }
                },
            }
        }
    }

    /// Reads what has arrived until the request's reply, and gives its payload;
    /// `None` where more bytes are needed.
    pub fn poll_payload<R>(&mut self, request: &Request<R>) -> (r: Option<
        Result<Vec<u8>, RequestError>,
    >)
        ensures
            final(self)@ == old(self)@.await_reply(request.spec_seq()).0,
            match old(self)@.await_reply(request.spec_seq()).1 {
                Some(frame) => if frame.cmd != request.spec_cmd() {
                    r matches Some(Err(e)) && e == (RequestError::CmdMismatch {
                        sent: request.spec_cmd(),
                        got: frame.cmd,
                    })
                } else {
                    r matches Some(Ok(payload)) && payload@ == frame.payload
                },
                None => r is None,
            },
    {
        match self.await_frame(request.seq) {
            None => None,
            Some(frame) => if frame.cmd != request.cmd {
                Some(Err(RequestError::CmdMismatch { sent: request.cmd, got: frame.cmd }))
            } else {
                Some(Ok(frame.payload))
            },
        }
    }

    /// Reads what has arrived until the request's reply; `None` where more
    /// bytes are needed.
    pub fn poll_reply<R: Reply>(&mut self, request: &Request<R>) -> (r: Option<
        Result<R, RequestError>,
    >)
        ensures
            final(self)@ == old(self)@.await_reply(request.spec_seq()).0,
            match old(self)@.await_reply(request.spec_seq()).1 {
                Some(frame) => r == Some(answer::<R>(request.spec_cmd(), frame)),
                None => r is None,
            },
    {
        match self.poll_payload(request) {
            None => None,
            Some(Err(e)) => Some(Err(e)),
            Some(Ok(payload)) => Some(settle(request.cmd, R::decode(&payload))),
        }
    }

    /// Reads the next topic push, decoded into a typed [`Event`]; `None` where
    /// more bytes are needed. Queued topics are returned first.
    pub fn next_event(&mut self) -> (r: Option<Result<Event, TransportError>>)
        ensures
            final(self)@ == old(self)@.next_topic().0,
            match old(self)@.next_topic().1 {
                Some(Ok(topic)) => r matches Some(Ok(event)) && event@ == event_of(topic),
                Some(Err(e)) => r matches Some(Err(got)) && got == e,
                None => r is None,
            },
    {
        let ghost queued = self.events@;
        match self.events.pop_front() {
            Some(frame) => {
                assert(topics(self.events@) =~= topics(queued).drop_first());
                return Some(Ok(decode_event(frame)));
            },
            None => {},
        }
        assert(queued =~= self.events@);
        if self.dead {
            return Some(Err(TransportError::Disconnected));
        }
        let max: usize = self.max_frame_size();
        loop
            invariant
                max == self@.max_frame(),
                self@.await_topic() == old(self)@.await_topic(),
                old(self)@.events.len() == 0,
                !old(self)@.dead,
            decreases self.rx_buf@.len(),
        {
            let ghost before = self@;
            match take_frame(&mut self.rx_buf, max) {
                None => {
                    return None;
                },
                Some(frame) => {
                    assert(self@.rx.len() < before.rx.len());
                    if frame.cmd.is_topic() {
                        return Some(
                            Ok(decode_event(TopicFrame { cmd: frame.cmd, payload: frame.payload })),
                        );
                    }
                },
            }
        }
    }

    /// Refuses a command locally when its required capability is absent, before
    /// anything is sent.
    pub(crate) fn require_capability(
        &self,
        present: bool,
        cmd: Cmd,
        reason: &'static str,
    ) -> (r: Result<(), RequestError>)
        ensures
            match r {
                Ok(_) => present,
                Err(e) => !present && e == RequestError::Unsupported(cmd, reason),
            },
    {
        if present {
            Ok(())
        } else {
            Err(RequestError::Unsupported(cmd, reason))
        }
    }
}

} // verus!
