//! The client against a scripted link.
use std::collections::VecDeque;

use rmk_types::action::KeyAction;
use rmk_types::connection::ConnectionStatus as WireConnection;
use rmk_types::connection::ConnectionType as WireType;
use rmk_types::protocol::rynk::RynkError as WireError;
use rmk_types::protocol::rynk::{
    GetComboBulkResponse, GetKeymapBulkResponse, GetMorseBulkResponse, SetComboBulkRequest,
    SetKeymapBulkRequest, SetMorseBulkRequest,
};
use rynk::command::{
    CONNECTION_CHANGE, GET_BATTERY_STATUS, GET_CAPABILITIES, GET_COMBO_BULK, GET_KEYMAP_BULK,
    GET_MORSE_BULK, GET_SLEEP_STATE, GET_VERSION, GET_WPM, LAYER_CHANGE, SET_COMBO_BULK,
    SET_DEFAULT_LAYER, SET_KEYMAP_BULK, SET_KEY_ACTION, SET_MORSE_BULK, WPM_UPDATE,
};
use rynk::frame::build_frame;
use rynk::payload::{CURRENT_MAJOR, CURRENT_MINOR};
use rynk::reply::Reply;
use rynk::{
    BatteryStatus, Client, Cmd, ConnectError, ConnectionType, DecodeError, DeviceCapabilities, DeviceError, Event, Handshake,
    ProtocolVersion, Request, RequestError, TransportError,
};
use serde::Serialize;

enum Step {
    Chunk(Vec<u8>),
    Hang,
}

/// A link that hands out scripted chunks and keeps what was sent.
struct Link {
    steps: VecDeque<Step>,
    fail_send: bool,
    sent: Vec<Vec<u8>>,
}

impl Link {
    fn new(steps: Vec<Step>) -> Link {
        Link { steps: steps.into(), fail_send: false, sent: Vec::new() }
    }

    fn send(&mut self, frame: &[u8]) -> Result<(), TransportError> {
        if self.fail_send {
            return Err(TransportError::Io("send failed".into()));
        }
        self.sent.push(frame.to_vec());
        Ok(())
    }

    /// `None` where the link stays silent.
    fn recv(&mut self) -> Option<Result<Vec<u8>, TransportError>> {
        match self.steps.pop_front() {
            Some(Step::Chunk(chunk)) => Some(Ok(chunk)),
            Some(Step::Hang) => None,
            None => Some(Err(TransportError::Disconnected)),
        }
    }
}

/// One round trip; `None` where the link stays silent, as a caller's timeout
/// would see it.
fn try_ask<R: Reply>(
    client: &mut Client,
    link: &mut Link,
    request: Result<Request<R>, RequestError>,
) -> Option<Result<R, RequestError>> {
    let request = match request {
        Ok(request) => request,
        Err(e) => return Some(Err(e)),
    };
    if let Err(e) = client.sent(link.send(request.frame())) {
        return Some(Err(e));
    }
    loop {
        if let Some(reply) = client.poll_reply(&request) {
            return Some(reply);
        }
        if let Err(e) = client.received(link.recv()?) {
            return Some(Err(RequestError::Transport(e)));
        }
    }
}

fn ask<R: Reply>(
    client: &mut Client,
    link: &mut Link,
    request: Result<Request<R>, RequestError>,
) -> Result<R, RequestError> {
    try_ask(client, link, request).expect("the link stayed silent")
}

fn get_wpm(client: &mut Client, link: &mut Link) -> Result<u16, RequestError> {
    let request = client.get_wpm();
    ask(client, link, request)
}

fn try_event(client: &mut Client, link: &mut Link) -> Option<Result<Event, TransportError>> {
    loop {
        if let Some(event) = client.next_event() {
            return Some(event);
        }
        if let Err(e) = client.received(link.recv()?) {
            return Some(Err(e));
        }
    }
}

fn event(client: &mut Client, link: &mut Link) -> Result<Event, TransportError> {
    try_event(client, link).expect("the link stayed silent")
}

fn try_connect(link: &mut Link) -> Option<Result<Client, ConnectError>> {
    fn sent(handshake: Handshake, link: &mut Link) -> Result<Handshake, ConnectError> {
        let outcome = link.send(handshake.frame());
        handshake.sent(outcome)
    }
    let mut handshake = match Client::connect().and_then(|h| sent(h, link)) {
        Ok(handshake) => handshake,
        Err(e) => return Some(Err(e)),
    };
    loop {
        let next = match handshake.poll() {
            rynk::Step::Send(next) => sent(next, link),
            rynk::Step::Receive(next) => next.received(link.recv()?),
            rynk::Step::Done(client) => return Some(Ok(client)),
            rynk::Step::Failed(e) => return Some(Err(e)),
        };
        handshake = match next {
            Ok(next) => next,
            Err(e) => return Some(Err(e)),
        };
    }
}

fn connect(link: &mut Link) -> Result<Client, ConnectError> {
    try_connect(link).expect("the link stayed silent")
}

fn cmd(raw: u16) -> Cmd {
    Cmd::from_raw(raw)
}

/// A bare frame: header and encoded value. Used for raw headers and topics.
fn frame<T: Serialize>(raw: u16, seq: u8, value: &T) -> Vec<u8> {
    build_frame(cmd(raw), seq, &postcard::to_allocvec(value).unwrap())
}

/// An `Ok` response frame, enveloped as the firmware sends it.
fn reply<T: Serialize>(raw: u16, seq: u8, value: T) -> Vec<u8> {
    frame(raw, seq, &Ok::<T, WireError>(value))
}

/// A topic push frame (bare payload, SEQ 0).
fn topic<T: Serialize>(raw: u16, value: T) -> Vec<u8> {
    frame(raw, 0, &value)
}

fn header(cmd_raw: u16, seq: u8, len: u16) -> Vec<u8> {
    let c = cmd_raw.to_le_bytes();
    let l = len.to_le_bytes();
    vec![c[0], c[1], seq, l[0], l[1]]
}

fn version(v: ProtocolVersion) -> (u8, u8) {
    (v.major, v.minor)
}

fn caps() -> DeviceCapabilities {
    DeviceCapabilities {
        num_layers: 4,
        num_rows: 6,
        num_cols: 14,
        num_encoders: 0,
        max_combos: 8,
        max_combo_keys: 4,
        max_macros: 8,
        macro_space_size: 1024,
        max_morse: 4,
        max_patterns_per_key: 4,
        max_forks: 4,
        storage_enabled: true,
        lighting_enabled: false,
        is_split: false,
        num_split_peripherals: 0,
        ble_enabled: false,
        num_ble_profiles: 0,
        max_payload_size: 256,
        max_bulk_keys: 0,
        macro_chunk_size: 64,
        bulk_transfer_supported: false,
    }
}

/// The capability fields in wire order.
#[allow(clippy::type_complexity)]
fn fields(
    c: DeviceCapabilities,
) -> ((u8, u8, u8, u8, u8, u8, u8, u16), (u8, u8, u8, bool, bool, bool, u8, bool), (u8, u16, u8, u16, bool))
{
    (
        (
            c.num_layers,
            c.num_rows,
            c.num_cols,
            c.num_encoders,
            c.max_combos,
            c.max_combo_keys,
            c.max_macros,
            c.macro_space_size,
        ),
        (
            c.max_morse,
            c.max_patterns_per_key,
            c.max_forks,
            c.storage_enabled,
            c.lighting_enabled,
            c.is_split,
            c.num_split_peripherals,
            c.ble_enabled,
        ),
        (
            c.num_ble_profiles,
            c.max_payload_size,
            c.max_bulk_keys,
            c.macro_chunk_size,
            c.bulk_transfer_supported,
        ),
    )
}

/// The two handshake replies.
fn handshake_steps(v: ProtocolVersion, c: DeviceCapabilities) -> Vec<Step> {
    vec![
        Step::Chunk(reply(GET_VERSION, 1, version(v))),
        Step::Chunk(reply(GET_CAPABILITIES, 2, fields(c))),
    ]
}

fn connected(c: DeviceCapabilities, later: Vec<Step>) -> (Client, Link) {
    let mut steps = handshake_steps(ProtocolVersion::current(), c);
    steps.extend(later);
    let mut link = Link::new(steps);
    let client = connect(&mut link).unwrap();
    (client, link)
}

fn raw(steps: Vec<Step>) -> (Client, Link) {
    (Client::new(), Link::new(steps))
}

// Driver core.

#[test]
fn reply_round_trip() {
    let (mut c, mut link) = raw(vec![Step::Chunk(reply(GET_WPM, 1, 42u16))]);
    assert_eq!(get_wpm(&mut c, &mut link).unwrap(), 42);
}

#[test]
fn rejected_response_flattens() {
    let (mut c, mut link) = raw(vec![Step::Chunk(frame(
        SET_DEFAULT_LAYER,
        1,
        &Err::<(), WireError>(WireError::Invalid),
    ))]);
    let request = c.set_default_layer(9);
    let r = ask(&mut c, &mut link, request);
    assert!(matches!(r, Err(RequestError::Rejected(DeviceError::Invalid))));
}

#[test]
fn trailing_bytes_rejected() {
    // A u16 reply with extra bytes: a response longer than the type.
    let mut chunk = reply(GET_WPM, 1, 42u16);
    chunk[3] += 2; // bump the declared LEN
    chunk.extend_from_slice(&[0xAA, 0xBB]);
    let (mut c, mut link) = raw(vec![Step::Chunk(chunk)]);
    let r = get_wpm(&mut c, &mut link);
    assert!(matches!(r, Err(RequestError::TrailingBytes { cmd: got }) if got == cmd(GET_WPM)));
}

#[test]
fn topic_cmd_to_request_rejected() {
    let (mut c, mut link) = raw(vec![]);
    let request = c.request_raw::<u8>(cmd(LAYER_CHANGE), postcard::to_allocvec(&()));
    let r = ask(&mut c, &mut link, request);
    assert!(matches!(r, Err(RequestError::TopicCmd(got)) if got == cmd(LAYER_CHANGE)));
    assert!(link.sent.is_empty());
}

#[test]
fn unknown_cmd_drained_by_len() {
    let mut chunk = header(0x7fff, 0xEE, 5);
    chunk.extend_from_slice(&[1, 2, 3, 4, 5]);
    chunk.extend_from_slice(&reply(GET_WPM, 1, 42u16));
    let (mut c, mut link) = raw(vec![Step::Chunk(chunk)]);
    assert_eq!(get_wpm(&mut c, &mut link).unwrap(), 42);
}

#[test]
fn unknown_topic_cmd_queued_by_len() {
    let mut chunk = header(0x80ff, 0, 3);
    chunk.extend_from_slice(&[1, 2, 3]);
    chunk.extend_from_slice(&reply(GET_WPM, 1, 42u16));
    let (mut c, mut link) = raw(vec![Step::Chunk(chunk)]);
    assert_eq!(get_wpm(&mut c, &mut link).unwrap(), 42);
    let ev = event(&mut c, &mut link).unwrap();
    assert!(matches!(ev, Event::Unknown(ref f) if f.cmd == cmd(0x80ff) && f.payload == [1, 2, 3]));
}

#[test]
fn unknown_response_cmd_mismatch_detected() {
    let (mut c, mut link) = raw(vec![Step::Chunk(reply(0x7fff, 1, 42u16))]);
    let r = get_wpm(&mut c, &mut link);
    assert!(matches!(
        r,
        Err(RequestError::CmdMismatch { sent, got }) if sent == cmd(GET_WPM) && got == cmd(0x7fff)
    ));
}

#[test]
fn caller_timeout_then_resyncs_phantom_frame() {
    let (mut c, mut link) = raw(vec![
        Step::Chunk(header(GET_WPM, 0xEE, 100)),
        Step::Hang,
        Step::Chunk(reply(GET_WPM, 2, 42u16)),
    ]);
    let request = c.get_wpm();
    assert!(try_ask(&mut c, &mut link, request).is_none());
    c.resync();
    assert_eq!(get_wpm(&mut c, &mut link).unwrap(), 42);
}

#[test]
fn link_death_fails_fast() {
    let (mut c, mut link) = raw(vec![]);
    let r1 = get_wpm(&mut c, &mut link);
    assert!(matches!(r1, Err(RequestError::Transport(TransportError::Disconnected))));
    assert!(!c.is_alive());
    let r2 = get_wpm(&mut c, &mut link);
    assert!(matches!(r2, Err(RequestError::Transport(TransportError::Disconnected))));
    let ev = event(&mut c, &mut link);
    assert!(matches!(ev, Err(TransportError::Disconnected)));
    assert_eq!(link.sent.len(), 1);
}

#[test]
fn send_failure_marks_link_dead() {
    let (mut c, mut link) = raw(vec![Step::Chunk(reply(GET_WPM, 1, 42u16))]);
    link.fail_send = true;
    let r = get_wpm(&mut c, &mut link);
    assert!(matches!(r, Err(RequestError::Transport(TransportError::Io(_)))));
    assert!(!c.is_alive(), "a failed send is unrecoverable");
    // Even with a readable reply queued, the dead link fails fast.
    let r2 = get_wpm(&mut c, &mut link);
    assert!(matches!(r2, Err(RequestError::Transport(TransportError::Disconnected))));
}

#[test]
fn topic_during_request_is_queued() {
    let mut chunk = topic(LAYER_CHANGE, 3u8);
    chunk.extend_from_slice(&reply(GET_WPM, 1, 42u16));
    let (mut c, mut link) = raw(vec![Step::Chunk(chunk)]);
    assert_eq!(get_wpm(&mut c, &mut link).unwrap(), 42);
    let ev = event(&mut c, &mut link).unwrap();
    assert!(matches!(ev, Event::LayerChange(3)));
}

#[test]
fn next_event_reads_from_link() {
    let (mut c, mut link) = raw(vec![Step::Chunk(topic(LAYER_CHANGE, 7u8))]);
    let ev = event(&mut c, &mut link).unwrap();
    assert!(matches!(ev, Event::LayerChange(7)));
}

#[test]
fn stale_seq_reply_dropped() {
    let mut chunk = reply(GET_WPM, 0xEE, 99u16);
    chunk.extend_from_slice(&reply(GET_WPM, 1, 42u16));
    let (mut c, mut link) = raw(vec![Step::Chunk(chunk)]);
    assert_eq!(get_wpm(&mut c, &mut link).unwrap(), 42);
}

#[test]
fn cmd_mismatch_detected() {
    let (mut c, mut link) = raw(vec![Step::Chunk(reply(GET_SLEEP_STATE, 1, true))]);
    let r = get_wpm(&mut c, &mut link);
    assert!(matches!(
        r,
        Err(RequestError::CmdMismatch { sent, got })
            if sent == cmd(GET_WPM) && got == cmd(GET_SLEEP_STATE)
    ));
}

// Caller cancellation.

#[test]
fn caller_cancel_mid_reply_wait_then_next_request_ok() {
    // Request 1 parks waiting for a reply; the caller cancels it. Its late
    // reply must be dropped and request 2 must succeed.
    let (mut c, mut link) = raw(vec![
        Step::Hang,
        Step::Chunk(reply(GET_WPM, 1, 11u16)), // late reply to request 1
        Step::Chunk(reply(GET_WPM, 2, 42u16)), // reply to request 2
    ]);
    let request = c.get_wpm();
    assert!(try_ask(&mut c, &mut link, request).is_none());
    assert!(c.is_alive());
    assert_eq!(get_wpm(&mut c, &mut link).unwrap(), 42);
}

#[test]
fn caller_cancel_next_event_mid_reassembly_then_request_ok() {
    // A partial topic frame sits in the buffer when next_event is cancelled.
    // The next request finishes that topic (queued) and reads its own reply.
    let mut tail = vec![7u8]; // the LayerChange payload, arriving after cancel
    tail.extend_from_slice(&reply(GET_WPM, 1, 42u16));
    let (mut c, mut link) = raw(vec![
        Step::Chunk(header(LAYER_CHANGE, 0, 1)), // topic header, payload pending
        Step::Hang,
        Step::Chunk(tail),
    ]);
    assert!(try_event(&mut c, &mut link).is_none());
    assert_eq!(get_wpm(&mut c, &mut link).unwrap(), 42);
    let ev = event(&mut c, &mut link).unwrap();
    assert!(matches!(ev, Event::LayerChange(7)));
}

// Handshake.

#[test]
fn connect_handshake_loopback() {
    let (mut client, mut link) = connected(caps(), vec![Step::Chunk(reply(GET_WPM, 3, 37u16))]);
    assert!(client.has_capabilities());
    assert_eq!(client.capabilities().num_cols, 14);
    assert_eq!(client.protocol_version(), ProtocolVersion::current());
    assert_eq!(get_wpm(&mut client, &mut link).unwrap(), 37);
}

#[test]
fn capability_gate_rejects_without_wire_send() {
    // caps() reports ble_enabled = false. A BLE-only call must reject locally
    // with `Unsupported` and send nothing.
    let (mut client, mut link) = connected(caps(), vec![]);
    assert!(!client.capabilities().ble_enabled);
    let request = client.get_battery_status();
    let r = ask(&mut client, &mut link, request);
    assert!(matches!(
        r,
        Err(RequestError::Unsupported(got, "BLE not enabled")) if got == cmd(GET_BATTERY_STATUS)
    ));
    assert!(client.is_alive(), "a locally-gated reject must not kill the link");
    assert_eq!(link.sent.len(), 2);
}

#[test]
fn oversized_request_rejected_locally() {
    // Firmware advertises a tiny max_payload_size. A request whose encoded
    // frame exceeds it must be rejected locally with `TooLarge`, sending
    // nothing and without killing the link.
    let mut tiny = caps();
    tiny.max_payload_size = 4;
    let (mut client, mut link) = connected(tiny, vec![]);
    let request = client.set_key(0, 0, 0, KeyAction::Morse(3));
    let r = ask(&mut client, &mut link, request);
    assert!(matches!(
        r,
        Err(RequestError::TooLarge { cmd: got, frame_len: 10, max: 9 }) if got == cmd(SET_KEY_ACTION)
    ));
    assert!(client.is_alive(), "a locally-rejected oversized request must not kill the link");
    assert_eq!(link.sent.len(), 2);
}

#[test]
fn bulk_methods_gate_without_wire_send() {
    let (mut client, link) = connected(caps(), vec![]);
    assert!(!client.capabilities().bulk_transfer_supported);

    let keymap_req =
        SetKeymapBulkRequest { layer: 0, start_row: 0, start_col: 0, actions: Default::default() };
    let combo_req = SetComboBulkRequest { start_index: 0, configs: Default::default() };
    let morse_req = SetMorseBulkRequest { start_index: 0, configs: Default::default() };

    assert!(matches!(
        client.get_keymap_bulk(0, 0, 0, 1),
        Err(RequestError::Unsupported(got, _)) if got == cmd(GET_KEYMAP_BULK)
    ));
    assert!(matches!(
        client.set_keymap_bulk(keymap_req),
        Err(RequestError::Unsupported(got, _)) if got == cmd(SET_KEYMAP_BULK)
    ));
    assert!(matches!(
        client.get_combo_bulk(0, 1),
        Err(RequestError::Unsupported(got, _)) if got == cmd(GET_COMBO_BULK)
    ));
    assert!(matches!(
        client.set_combo_bulk(combo_req),
        Err(RequestError::Unsupported(got, _)) if got == cmd(SET_COMBO_BULK)
    ));
    assert!(matches!(
        client.get_morse_bulk(0, 1),
        Err(RequestError::Unsupported(got, _)) if got == cmd(GET_MORSE_BULK)
    ));
    assert!(matches!(
        client.set_morse_bulk(morse_req),
        Err(RequestError::Unsupported(got, "bulk transfer not supported"))
            if got == cmd(SET_MORSE_BULK)
    ));
    assert!(client.is_alive(), "locally-gated bulk rejects must not kill the link");
    assert_eq!(link.sent.len(), 2);
}

#[test]
fn bulk_methods_round_trip_when_supported() {
    let mut supported = caps();
    supported.bulk_transfer_supported = true;
    supported.max_bulk_keys = 8;

    let keymap_resp = GetKeymapBulkResponse { actions: Default::default() };
    let combo_resp = GetComboBulkResponse { configs: Default::default() };
    let morse_resp = GetMorseBulkResponse { configs: Default::default() };
    let (mut client, mut link) = connected(
        supported,
        vec![
            Step::Chunk(reply(SET_KEYMAP_BULK, 3, ())),
            Step::Chunk(reply(GET_KEYMAP_BULK, 4, keymap_resp.clone())),
            Step::Chunk(reply(SET_COMBO_BULK, 5, ())),
            Step::Chunk(reply(GET_COMBO_BULK, 6, combo_resp.clone())),
            Step::Chunk(reply(SET_MORSE_BULK, 7, ())),
            Step::Chunk(reply(GET_MORSE_BULK, 8, morse_resp.clone())),
        ],
    );

    let request = client.set_keymap_bulk(SetKeymapBulkRequest {
        layer: 0,
        start_row: 0,
        start_col: 0,
        actions: Default::default(),
    });
    ask(&mut client, &mut link, request).unwrap();
    let request = client.get_keymap_bulk(0, 0, 0, 1);
    assert_eq!(ask(&mut client, &mut link, request).unwrap(), keymap_resp);

    let request = client
        .set_combo_bulk(SetComboBulkRequest { start_index: 0, configs: Default::default() });
    ask(&mut client, &mut link, request).unwrap();
    let request = client.get_combo_bulk(0, 1);
    assert_eq!(ask(&mut client, &mut link, request).unwrap(), combo_resp);

    let request = client
        .set_morse_bulk(SetMorseBulkRequest { start_index: 0, configs: Default::default() });
    ask(&mut client, &mut link, request).unwrap();
    let request = client.get_morse_bulk(0, 1);
    assert_eq!(ask(&mut client, &mut link, request).unwrap(), morse_resp);

    // Every page request carries its position and its count.
    assert_eq!(link.sent[3][5..], [0, 0, 0, 1]);
    assert_eq!(link.sent[5][5..], [0, 1]);
    assert_eq!(link.sent[7][5..], [0, 1]);
}

#[test]
fn next_event_decodes_typed_payload() {
    // A ConnectionChange topic must decode into the typed Event variant.
    let status = WireConnection { preferred: WireType::Ble, ..Default::default() };
    let (mut c, mut link) = raw(vec![Step::Chunk(topic(CONNECTION_CHANGE, status))]);
    let ev = event(&mut c, &mut link).unwrap();
    match ev {
        Event::ConnectionChange(s) => assert_eq!(s.preferred, ConnectionType::Ble),
        other => panic!("expected ConnectionChange, got {other:?}"),
    }
}

#[test]
fn next_event_undecodable_payload_is_unknown() {
    // A known topic cmd whose payload can't decode (LayerChange needs 1 byte,
    // here it's empty) surfaces as Event::Unknown rather than being dropped.
    let (mut c, mut link) = raw(vec![Step::Chunk(header(LAYER_CHANGE, 0, 0))]);
    let ev = event(&mut c, &mut link).unwrap();
    assert!(
        matches!(ev, Event::Unknown(ref f) if f.cmd == cmd(LAYER_CHANGE) && f.payload.is_empty())
    );
}

#[test]
fn connect_rejects_newer_major() {
    let newer = ProtocolVersion { major: ProtocolVersion::current().major + 1, minor: 0 };
    let mut link = Link::new(vec![Step::Chunk(reply(GET_VERSION, 1, version(newer)))]);
    let err = connect(&mut link).err().expect("connect must fail");
    assert!(matches!(
        err,
        ConnectError::VersionMismatch {
            firmware_major,
            firmware_minor: 0,
            host_major: CURRENT_MAJOR,
            host_max_minor: CURRENT_MINOR,
        } if firmware_major == newer.major
    ));
}

#[test]
fn connect_accepts_newer_minor() {
    // Same major, newer minor: minor is informational, the connect must
    // succeed and report the firmware's version.
    let newer = ProtocolVersion {
        major: ProtocolVersion::current().major,
        minor: ProtocolVersion::current().minor + 1,
    };
    let mut link = Link::new(handshake_steps(newer, caps()));
    let client = connect(&mut link).expect("same-major newer-minor must connect");
    assert_eq!(client.protocol_version(), newer);
}

#[test]
fn connect_retries_same_transport_after_version_mismatch() {
    // The caller keeps the link across a VersionMismatch and can retry: the
    // failed probe's round trip completed, leaving the stream clean. The
    // retry's client restarts SEQ at 1.
    let newer_major = ProtocolVersion { major: ProtocolVersion::current().major + 1, minor: 0 };
    let mut steps = vec![Step::Chunk(reply(GET_VERSION, 1, version(newer_major)))];
    steps.extend(handshake_steps(ProtocolVersion::current(), caps()));
    let mut link = Link::new(steps);
    let err = connect(&mut link).err().expect("newer major must mismatch");
    assert!(matches!(err, ConnectError::VersionMismatch { .. }));
    let client = connect(&mut link).expect("retry over the same transport");
    assert_eq!(client.protocol_version(), ProtocolVersion::current());
}

#[test]
fn caller_can_timeout_silent_connect() {
    let mut link = Link::new(vec![Step::Hang]);
    assert!(try_connect(&mut link).is_none());
}

#[test]
fn connect_handshakes_against_scripted_peer() {
    let mut link = Link::new(handshake_steps(ProtocolVersion::current(), caps()));
    let client = connect(&mut link).unwrap();
    assert_eq!(client.protocol_version(), ProtocolVersion::current());
    assert_eq!(client.capabilities().num_cols, 14);
    // What the peer was asked, in order.
    assert_eq!(link.sent, vec![header(GET_VERSION, 1, 0), header(GET_CAPABILITIES, 2, 0)]);
}

// What holds over several calls.

#[test]
fn sequence_numbers_wrap_past_zero() {
    let mut c = Client::new();
    let mut seen = Vec::new();
    for _ in 0..256 {
        seen.push(c.get_wpm().ok().unwrap().seq());
    }
    assert_eq!(seen[0], 1);
    assert_eq!(seen[254], 255);
    assert_eq!(seen[255], 1);
    assert!(!seen.contains(&0));
}

#[test]
fn refused_requests_use_a_sequence_number_only_once_encoded() {
    let (mut client, _link) = connected(caps(), vec![]);
    // A gated call and a topic use none; one that is too large uses one.
    assert!(client.get_ble_status().is_err());
    assert!(client.request_raw::<()>(cmd(WPM_UPDATE), Ok(vec![])).is_err());
    assert!(client.request_raw::<()>(cmd(0x7000), Ok(vec![0; 300])).is_err());
    assert_eq!(client.get_wpm().ok().unwrap().seq(), 4);
    assert!(client.is_alive());
}

#[test]
fn requests_up_to_the_limit_encode() {
    let mut big = caps();
    big.max_payload_size = 1000;
    let (mut client, _link) = connected(big, vec![]);
    assert_eq!(client.max_frame_size(), 1005);
    let request = client.request_raw::<()>(cmd(0x7000), Ok(vec![9; 1000])).ok().unwrap();
    assert_eq!(request.frame().len(), 1005);
    assert_eq!(request.frame()[..6], [0x00, 0x70, 3, 0xe8, 0x03, 9]);
    let r = client.request_raw::<()>(cmd(0x7000), Ok(vec![9; 1001]));
    assert!(matches!(r, Err(RequestError::Encode(got)) if got == cmd(0x7000)));
    let r = client.request_raw::<()>(cmd(0x7000), Ok(vec![9; 70000]));
    assert!(matches!(r, Err(RequestError::Encode(got)) if got == cmd(0x7000)));
    // Under the floor a frame over the limit is too large until it passes the floor.
    let mut small = caps();
    small.max_payload_size = 100;
    let (mut client, _link) = connected(small, vec![]);
    let r = client.request_raw::<()>(cmd(0x7000), Ok(vec![9; 262]));
    assert!(matches!(r, Err(RequestError::TooLarge { frame_len: 267, max: 105, .. })));
    let r = client.request_raw::<()>(cmd(0x7000), Ok(vec![9; 263]));
    assert!(matches!(r, Err(RequestError::Encode(_))));
}

#[test]
fn a_payload_that_did_not_encode_is_refused() {
    let mut c = Client::new();
    let failed = Err(postcard::Error::SerializeBufferFull);
    let r = c.request_raw::<()>(cmd(GET_WPM), failed);
    assert!(matches!(r, Err(RequestError::Encode(got)) if got == cmd(GET_WPM)));
}

#[test]
fn before_the_handshake_the_floor_limits_requests() {
    let mut c = Client::new();
    assert!(!c.has_capabilities());
    assert_eq!(c.max_frame_size(), 267);
    assert!(c.request_raw::<()>(cmd(0x7000), Ok(vec![0; 262])).is_ok());
    let r = c.request_raw::<()>(cmd(0x7000), Ok(vec![0; 263]));
    assert!(matches!(r, Err(RequestError::Encode(_))));
}

#[test]
fn undecodable_replies_say_why() {
    let cases: Vec<(Vec<u8>, DecodeError)> = vec![
        (vec![], DecodeError::UnexpectedEnd),
        (vec![0], DecodeError::UnexpectedEnd),
        (vec![0, 0xff, 0xff, 0x7f], DecodeError::BadVarint),
        (vec![2, 0], DecodeError::BadValue),
        (vec![1, 99], DecodeError::BadValue),
    ];
    for (payload, want) in cases {
        let chunk = build_frame(cmd(GET_WPM), 1, &payload);
        let (mut c, mut link) = raw(vec![Step::Chunk(chunk)]);
        let r = get_wpm(&mut c, &mut link);
        assert!(
            matches!(r, Err(RequestError::Deserialize { cmd: got, source }) if got == cmd(GET_WPM) && source == want),
            "{payload:?}: {r:?}"
        );
    }
    // A battery: cut short, with a bad charge state, with a bad option tag.
    let cases: Vec<(Vec<u8>, DecodeError)> = vec![
        (vec![0, 1, 0], DecodeError::UnexpectedEnd),
        (vec![0, 1, 0, 1], DecodeError::UnexpectedEnd),
        (vec![0, 2], DecodeError::BadValue),
        (vec![0, 1, 3, 0], DecodeError::BadValue),
        (vec![0, 1, 0, 2], DecodeError::BadOption),
    ];
    for (payload, want) in cases {
        let chunk = build_frame(cmd(GET_BATTERY_STATUS), 1, &payload);
        let (mut c, mut link) = raw(vec![Step::Chunk(chunk)]);
        let request = c.request_raw::<BatteryStatus>(cmd(GET_BATTERY_STATUS), Ok(vec![]));
        let r = ask(&mut c, &mut link, request);
        assert!(
            matches!(r, Err(RequestError::Deserialize { source, .. }) if source == want),
            "{payload:?}: {r:?}"
        );
    }
    let chunk = build_frame(cmd(GET_SLEEP_STATE), 1, &vec![0, 2]);
    let (mut c, mut link) = raw(vec![Step::Chunk(chunk)]);
    let request = c.get_sleep_state();
    let r = ask(&mut c, &mut link, request);
    assert!(matches!(r, Err(RequestError::Deserialize { source: DecodeError::BadBool, .. })));
}

#[test]
fn every_device_error_reaches_the_caller() {
    let errors = [
        (WireError::Malformed, DeviceError::Malformed),
        (WireError::NotReady, DeviceError::NotReady),
        (WireError::StorageFault, DeviceError::StorageFault),
        (WireError::Internal, DeviceError::Internal),
        (WireError::Unimplemented, DeviceError::Unimplemented),
        (WireError::Invalid, DeviceError::Invalid),
        (WireError::UnknownCmd, DeviceError::UnknownCmd),
        (WireError::Locked, DeviceError::Locked),
        (WireError::Busy, DeviceError::Busy),
    ];
    for (i, (wire, want)) in errors.into_iter().enumerate() {
        let payload = postcard::to_allocvec(&Err::<u16, WireError>(wire)).unwrap();
        assert_eq!(payload, vec![1, i as u8]);
        let chunk = build_frame(cmd(GET_WPM), 1, &payload);
        let (mut c, mut link) = raw(vec![Step::Chunk(chunk)]);
        let r = get_wpm(&mut c, &mut link);
        assert!(matches!(r, Err(RequestError::Rejected(got)) if got == want));
    }
}

#[test]
fn chunk_boundaries_do_not_matter() {
    let mut bytes = topic(LAYER_CHANGE, 3u8);
    bytes.extend_from_slice(&reply(GET_WPM, 0xEE, 99u16));
    bytes.extend_from_slice(&reply(GET_WPM, 1, 42u16));
    let steps = bytes.iter().map(|b| Step::Chunk(vec![*b])).collect();
    let (mut c, mut link) = raw(steps);
    assert_eq!(get_wpm(&mut c, &mut link).unwrap(), 42);
    assert!(matches!(event(&mut c, &mut link), Ok(Event::LayerChange(3))));
}

#[test]
fn listening_does_not_depend_on_chunks() {
    let mut bytes = reply(GET_WPM, 0xEE, 99u16);
    bytes.extend_from_slice(&reply(GET_SLEEP_STATE, 7, true));
    bytes.extend_from_slice(&topic(LAYER_CHANGE, 3u8));
    bytes.extend_from_slice(&topic(WPM_UPDATE, 300u16));
    for size in 1..=bytes.len() {
        let steps = bytes.chunks(size).map(|c| Step::Chunk(c.to_vec())).collect();
        let (mut c, mut link) = raw(steps);
        assert!(matches!(event(&mut c, &mut link), Ok(Event::LayerChange(3))));
        // What follows the topic is not lost.
        assert!(matches!(event(&mut c, &mut link), Ok(Event::WpmUpdate(300))));
    }
}

#[test]
fn what_follows_a_reply_stays_buffered() {
    let mut chunk = reply(GET_WPM, 1, 42u16);
    chunk.extend_from_slice(&topic(LAYER_CHANGE, 5u8));
    let (mut c, mut link) = raw(vec![Step::Chunk(chunk)]);
    assert_eq!(get_wpm(&mut c, &mut link).unwrap(), 42);
    assert!(matches!(event(&mut c, &mut link), Ok(Event::LayerChange(5))));
}

#[test]
fn an_oversized_header_drops_the_buffer() {
    let mut chunk = header(GET_WPM, 1, 4000);
    chunk.extend_from_slice(&reply(GET_WPM, 1, 41u16));
    let (mut c, mut link) = raw(vec![
        Step::Chunk(chunk),
        Step::Chunk(reply(GET_WPM, 1, 42u16)),
    ]);
    assert_eq!(get_wpm(&mut c, &mut link).unwrap(), 42);
    assert!(c.is_alive());
}

#[test]
fn a_full_queue_keeps_the_newest_topics() {
    let mut chunk = Vec::new();
    for layer in 0..70u8 {
        chunk.extend_from_slice(&topic(LAYER_CHANGE, layer));
    }
    chunk.extend_from_slice(&reply(GET_WPM, 1, 42u16));
    let (mut c, mut link) = raw(vec![Step::Chunk(chunk)]);
    assert_eq!(get_wpm(&mut c, &mut link).unwrap(), 42);
    assert_eq!(c.events_dropped(), 6);
    for want in 6..70u8 {
        assert!(matches!(event(&mut c, &mut link), Ok(Event::LayerChange(got)) if got == want));
    }
    // The link ends; the queue is empty.
    assert!(matches!(event(&mut c, &mut link), Err(TransportError::Disconnected)));
}

#[test]
fn queued_topics_outlive_the_link() {
    let mut chunk = topic(LAYER_CHANGE, 3u8);
    chunk.extend_from_slice(&topic(WPM_UPDATE, 300u16));
    let (mut c, mut link) = raw(vec![Step::Chunk(chunk)]);
    assert!(get_wpm(&mut c, &mut link).is_err());
    assert!(!c.is_alive());
    c.resync();
    assert!(!c.is_alive(), "clearing the buffer does not reopen the link");
    assert!(matches!(event(&mut c, &mut link), Ok(Event::LayerChange(3))));
    assert!(matches!(event(&mut c, &mut link), Ok(Event::WpmUpdate(300))));
    assert!(matches!(event(&mut c, &mut link), Err(TransportError::Disconnected)));
}

#[test]
fn topics_in_a_handshake_are_queued() {
    let mut first = topic(LAYER_CHANGE, 1u8);
    first.extend_from_slice(&reply(GET_VERSION, 1, version(ProtocolVersion::current())));
    let mut second = topic(LAYER_CHANGE, 2u8);
    second.extend_from_slice(&reply(GET_CAPABILITIES, 2, fields(caps())));
    let mut link = Link::new(vec![Step::Chunk(first), Step::Chunk(second)]);
    let mut c = connect(&mut link).unwrap();
    assert_eq!(*c.capabilities(), caps());
    assert!(matches!(event(&mut c, &mut link), Ok(Event::LayerChange(1))));
    assert!(matches!(event(&mut c, &mut link), Ok(Event::LayerChange(2))));
}

#[test]
fn handshake_failures_are_request_errors() {
    // The link ends.
    let err = connect(&mut Link::new(vec![])).err().unwrap();
    assert!(matches!(
        err,
        ConnectError::Request(RequestError::Transport(TransportError::Disconnected))
    ));
    // The send fails.
    let mut link = Link::new(vec![]);
    link.fail_send = true;
    let err = connect(&mut link).err().unwrap();
    assert!(matches!(err, ConnectError::Request(RequestError::Transport(TransportError::Io(_)))));
    // The device rejects.
    let rejection = frame(GET_VERSION, 1, &Err::<(), WireError>(WireError::Locked));
    let err = connect(&mut Link::new(vec![Step::Chunk(rejection)])).err().unwrap();
    assert!(matches!(err, ConnectError::Request(RequestError::Rejected(DeviceError::Locked))));
    // The capabilities are cut short.
    let mut steps = handshake_steps(ProtocolVersion::current(), caps());
    steps.pop();
    steps.push(Step::Chunk(reply(GET_CAPABILITIES, 2, (4u8, 6u8))));
    let err = connect(&mut Link::new(steps)).err().unwrap();
    assert!(matches!(
        err,
        ConnectError::Request(RequestError::Deserialize { source: DecodeError::UnexpectedEnd, .. })
    ));
}

#[test]
fn handshakes_do_not_depend_on_chunks() {
    let mut bytes = topic(LAYER_CHANGE, 1u8);
    bytes.extend_from_slice(&reply(GET_VERSION, 1, version(ProtocolVersion::current())));
    bytes.extend_from_slice(&topic(LAYER_CHANGE, 2u8));
    bytes.extend_from_slice(&reply(GET_CAPABILITIES, 2, fields(caps())));
    bytes.extend_from_slice(&topic(LAYER_CHANGE, 3u8));
    for size in 1..=bytes.len() {
        let steps = bytes.chunks(size).map(|c| Step::Chunk(c.to_vec())).collect();
        let mut link = Link::new(steps);
        let mut c = connect(&mut link).unwrap();
        assert_eq!(*c.capabilities(), caps());
        for want in 1..=3u8 {
            assert!(matches!(event(&mut c, &mut link), Ok(Event::LayerChange(got)) if got == want));
        }
    }
    let other = ProtocolVersion { major: 9, minor: 4 };
    let steps = reply(GET_VERSION, 1, version(other)).iter().map(|b| Step::Chunk(vec![*b])).collect();
    let err = connect(&mut Link::new(steps)).err().unwrap();
    assert!(matches!(
        err,
        ConnectError::VersionMismatch { firmware_major: 9, firmware_minor: 4, .. }
    ));
}
