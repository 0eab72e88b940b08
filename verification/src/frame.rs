//! Frames: a five-byte header and a payload.
//!
//! ```text
//! CMD u16 LE | SEQ u8 | LEN u16 LE | payload (LEN bytes)
//! ```
use crate::command::Cmd;
use vstd::prelude::*;

verus! {

/// Size in bytes of the fixed header.
pub const RYNK_HEADER_SIZE: usize = 5;

/// The frame size that every peer supports before limits are negotiated: the
/// header and the largest payload of a single-item command (a `SetMacro`
/// request with a full chunk).
pub const RYNK_MIN_BUFFER_SIZE: usize = 267;

/// A frame as a value.
#[verifier::ext_equal]
pub ghost struct FrameView {
    pub cmd: Cmd,
    pub seq: u8,
    pub payload: Seq<u8>,
}

impl FrameView {
    /// Whether the payload's length can be written in a header.
    pub open spec fn encodable(self) -> bool {
        self.payload.len() <= u16::MAX
    }

    /// The number of bytes on the wire.
    pub open spec fn len(self) -> nat {
        RYNK_HEADER_SIZE as nat + self.payload.len()
    }

    /// The bytes on the wire.
    pub open spec fn bytes(self) -> Seq<u8> {
        le_bytes(self.cmd.raw as nat) + seq![self.seq] + le_bytes(self.payload.len())
            + self.payload
    }
}

/// The two little-endian bytes of a 16-bit value.
pub open spec fn le_bytes(value: nat) -> Seq<u8> {
    seq![(value % 256) as u8, (value / 256) as u8]
}

/// The 16-bit value of two little-endian bytes.
pub open spec fn from_le(low: u8, high: u8) -> nat {
    low as nat + 256 * (high as nat)
}

/// What the front of a receive buffer holds.
pub ghost enum Cut {
    /// A whole frame, and the bytes after it.
    Whole { frame: FrameView, rest: Seq<u8> },
    /// No whole frame; `rest` is what to keep until more bytes arrive.
    Partial { rest: Seq<u8> },
}

/// The payload length that the header at the front of `rx` declares.
pub open spec fn declared_len(rx: Seq<u8>) -> nat {
    from_le(rx[3], rx[4])
}

/// Whether `rx` starts with a header that declares a frame over `max` bytes.
pub open spec fn oversized(rx: Seq<u8>, max: nat) -> bool {
    rx.len() >= RYNK_HEADER_SIZE && RYNK_HEADER_SIZE + declared_len(rx) > max
}

/// Cuts the first frame off a receive buffer. A conforming peer never exceeds
/// `max`, so an oversized header means a corrupt stream: everything is dropped.
pub open spec fn cut(rx: Seq<u8>, max: nat) -> Cut {
    if rx.len() < RYNK_HEADER_SIZE {
        Cut::Partial { rest: rx }
    } else if oversized(rx, max) {
        Cut::Partial { rest: seq![] }
    } else if rx.len() < RYNK_HEADER_SIZE + declared_len(rx) {
        Cut::Partial { rest: rx }
    } else {
        let end = RYNK_HEADER_SIZE + declared_len(rx);
        Cut::Whole {
            frame: FrameView {
                cmd: Cmd { raw: from_le(rx[0], rx[1]) as u16 },
                seq: rx[2],
                payload: rx.subrange(RYNK_HEADER_SIZE as int, end),
            },
            rest: rx.skip(end),
        }
    }
}

/// A received frame.
#[derive(Debug)]
pub struct Frame {
    pub cmd: Cmd,
    pub seq: u8,
    pub payload: Vec<u8>,
}

impl View for Frame {
    type V = FrameView;

    open spec fn view(&self) -> FrameView {
        FrameView { cmd: self.cmd, seq: self.seq, payload: self.payload@ }
    }
}

/// Encodes one frame.
pub fn build_frame(cmd: Cmd, seq: u8, payload: &Vec<u8>) -> (bytes: Vec<u8>)
    requires
        payload@.len() <= u16::MAX,
    ensures
        bytes@ == (FrameView { cmd, seq, payload: payload@ }).bytes(),
{
    let len: usize = payload.len();
    let mut bytes: Vec<u8> = Vec::new();
    bytes.push((cmd.raw % 256) as u8);
    bytes.push((cmd.raw / 256) as u8);
    bytes.push(seq);
    bytes.push((len % 256) as u8);
    bytes.push((len / 256) as u8);
    let ghost header = bytes@;
    bytes.extend_from_slice(payload.as_slice());
    assert(bytes@ =~= header + payload@);
    assert(bytes@ =~= (FrameView { cmd, seq, payload: payload@ }).bytes());
    bytes
}

/// Takes the first whole frame out of a receive buffer, if there is one.
/// Drops the buffer on an oversized header.
pub fn take_frame(rx: &mut Vec<u8>, max: usize) -> (frame: Option<Frame>)
    ensures
        match cut(old(rx)@, max as nat) {
            Cut::Whole { frame: f, rest } => {
                &&& frame matches Some(g) && g@ == f
                &&& final(rx)@ == rest
            },
            Cut::Partial { rest } => frame is None && final(rx)@ == rest,
        },
{
    if rx.len() < RYNK_HEADER_SIZE {
        return None;
    }
    let raw: u16 = rx[0] as u16 + 256 * (rx[1] as u16);
    let seq: u8 = rx[2];
    let payload_len: usize = rx[3] as usize + 256 * (rx[4] as usize);
    let frame_len: usize = RYNK_HEADER_SIZE + payload_len;
    if frame_len > max {
        rx.clear();
        return None;
    }
    if rx.len() < frame_len {
        return None;
    }
    let ghost before = rx@;
    let rest: Vec<u8> = rx.split_off(frame_len);
    let payload: Vec<u8> = rx.split_off(RYNK_HEADER_SIZE);
    *rx = rest;
    assert(payload@ =~= before.subrange(RYNK_HEADER_SIZE as int, frame_len as int));
    assert(rx@ =~= before.skip(frame_len as int));
    Some(Frame { cmd: Cmd { raw }, seq, payload })
}

/// The bytes of a frame that fits cut back to that frame, and leave what
/// follows untouched: whatever the command, known or not.
pub proof fn frame_is_cut_back(frame: FrameView, tail: Seq<u8>, max: nat)
    requires
        frame.encodable(),
        frame.len() <= max,
    ensures
        cut(frame.bytes() + tail, max) == (Cut::Whole { frame, rest: tail }),
{
    let rx = frame.bytes() + tail;
    let n = frame.payload.len();
    assert(rx[0] == (frame.cmd.raw % 256) as u8);
    assert(rx[1] == (frame.cmd.raw / 256) as u8);
    assert(rx[2] == frame.seq);
    assert(rx[3] == (n % 256) as u8);
    assert(rx[4] == (n / 256) as u8);
    assert(declared_len(rx) == n);
    assert(rx.subrange(RYNK_HEADER_SIZE as int, RYNK_HEADER_SIZE + n) =~= frame.payload);
    assert(rx.skip(RYNK_HEADER_SIZE + n) =~= tail);
}

/// Cutting a frame consumes its bytes and nothing else: the bytes that were
/// buffered are the frame's, then the rest.
pub proof fn cut_loses_nothing(rx: Seq<u8>, max: nat)
    ensures
        match cut(rx, max) {
            Cut::Whole { frame, rest } => {
                &&& rx == frame.bytes() + rest
                &&& frame.encodable()
                &&& frame.len() <= max
            },
            Cut::Partial { rest } => rest == rx || (rest == Seq::<u8>::empty() && oversized(
                rx,
                max,
            )),
        },
{
    match cut(rx, max) {
        Cut::Whole { frame, rest } => {
            assert(rx =~= frame.bytes() + rest);
        },
        Cut::Partial { rest } => {},
    }
}

/// The frames that a receive buffer holds whole, in order.
pub open spec fn frames(rx: Seq<u8>, max: nat) -> Seq<FrameView>
    decreases rx.len(),
{
    match cut(rx, max) {
        Cut::Whole { frame, rest } => seq![frame] + frames(rest, max),
        Cut::Partial { rest } => seq![],
    }
}

/// What stays buffered once those frames are taken.
pub open spec fn leftover(rx: Seq<u8>, max: nat) -> Seq<u8>
    decreases rx.len(),
{
    match cut(rx, max) {
        Cut::Whole { frame, rest } => leftover(rest, max),
        Cut::Partial { rest } => rest,
    }
}

/// Whether reading `rx` never meets an oversized header.
pub open spec fn conforming(rx: Seq<u8>, max: nat) -> bool
    decreases rx.len(),
{
    &&& !oversized(rx, max)
    &&& match cut(rx, max) {
        Cut::Whole { frame, rest } => conforming(rest, max),
        Cut::Partial { rest } => true,
    }
}

/// The bytes of frames sent one after another.
pub open spec fn stream(sent: Seq<FrameView>) -> Seq<u8>
    decreases sent.len(),
{
    if sent.len() == 0 {
        seq![]
    } else {
        sent[0].bytes() + stream(sent.drop_first())
    }
}

/// What a conforming peer sends is received frame by frame, in order, with
/// nothing left over.
pub proof fn stream_is_received(sent: Seq<FrameView>, max: nat)
    requires
        forall|i: int|
            0 <= i < sent.len() ==> (#[trigger] sent[i]).encodable() && sent[i].len() <= max,
    ensures
        conforming(stream(sent), max),
        frames(stream(sent), max) == sent,
        leftover(stream(sent), max) == Seq::<u8>::empty(),
    decreases sent.len(),
{
    if sent.len() == 0 {
        assert(sent =~= seq![]);
    } else {
        let rest = stream(sent.drop_first());
        assert(sent[0].encodable() && sent[0].len() <= max);
        frame_is_cut_back(sent[0], rest, max);
        assert forall|i: int| 0 <= i < sent.drop_first().len() implies (
        #[trigger] sent.drop_first()[i]).encodable() && sent.drop_first()[i].len() <= max by {
            assert(sent[i + 1].encodable());
        }
        stream_is_received(sent.drop_first(), max);
        assert(seq![sent[0]] + sent.drop_first() =~= sent);
    }
}

/// Chunk boundaries do not matter: receiving `a` and then `b` yields the
/// frames of the two together, and the same leftover.
pub proof fn chunks_are_reassembled(a: Seq<u8>, b: Seq<u8>, max: nat)
    requires
        conforming(a + b, max),
    ensures
        frames(a, max) + frames(leftover(a, max) + b, max) == frames(a + b, max),
        leftover(leftover(a, max) + b, max) == leftover(a + b, max),
    decreases a.len(),
{
    let ab = a + b;
    if a.len() >= RYNK_HEADER_SIZE {
        assert(declared_len(ab) == declared_len(a));
    }
    match cut(a, max) {
        Cut::Whole { frame, rest } => {
            cut_loses_nothing(a, max);
            frame_is_cut_back(frame, rest + b, max);
            assert(ab =~= frame.bytes() + (rest + b));
            chunks_are_reassembled(rest, b, max);
            assert(frames(a, max) + frames(leftover(a, max) + b, max) =~= frames(ab, max));
        },
        Cut::Partial { rest } => {
            assert(!oversized(a, max));
            assert(rest == a);
            assert(frames(a, max) + frames(ab, max) =~= frames(ab, max));
        },
    }
}

} // verus!
