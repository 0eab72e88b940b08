//! Ports, reads and probes.
use rynk::serial::{
    candidates_with_vid, discovered, open_failed, read_chunk, some_candidates, within_limit,
    PortInfo, Probe, SerialDevice, RMK_USB_VID,
};
use rynk::{
    ConnectError, DeviceCapabilities, DeviceError, ProtocolVersion, RequestError, TransportError,
};

fn silent() -> ConnectError {
    within_limit::<()>(None).unwrap_err()
}

fn mismatch(firmware_major: u8) -> ConnectError {
    ConnectError::VersionMismatch { firmware_major, firmware_minor: 0, host_major: 0, host_max_minor: 1 }
}

fn caps() -> DeviceCapabilities {
    DeviceCapabilities {
        num_layers: 4,
        num_rows: 6,
        num_cols: 14,
        num_encoders: 0,
        max_combos: 8,
        max_combo_keys: 4,
        max_macros: 8,
        macro_space_size: 1024,
        max_morse: 4,
        max_patterns_per_key: 4,
        max_forks: 4,
        storage_enabled: true,
        lighting_enabled: false,
        is_split: false,
        num_split_peripherals: 0,
        ble_enabled: false,
        num_ble_profiles: 0,
        max_payload_size: 256,
        max_bulk_keys: 0,
        macro_chunk_size: 64,
        bulk_transfer_supported: false,
    }
}

#[test]
fn candidates_are_the_ports_with_the_vendor_id() {
    let ports = vec![
        PortInfo { name: "a".into(), usb_vid: Some(0x4c4b) },
        PortInfo { name: "b".into(), usb_vid: None },
        PortInfo { name: "c".into(), usb_vid: Some(0x1234) },
        PortInfo { name: "d".into(), usb_vid: Some(0x4c4b) },
    ];
    assert_eq!(candidates_with_vid(&ports, RMK_USB_VID), vec!["a", "d"]);
    assert_eq!(candidates_with_vid(&ports, 0x1234), vec!["c"]);
    assert!(candidates_with_vid(&ports, 1).is_empty());
}

#[test]
fn no_candidate_names_the_vendor_id() {
    let err = some_candidates(vec![], 0x4c4b).unwrap_err();
    assert!(matches!(
        err,
        ConnectError::Transport(TransportError::DeviceNotFound(m))
            if m == "no USB serial port with vendor id 0x4c4b found"
    ));
    let err = some_candidates(vec![], 0x00ef).unwrap_err();
    assert!(matches!(
        err,
        ConnectError::Transport(TransportError::DeviceNotFound(m)) if m == format!("no USB serial port with vendor id {:#06x} found", 0x00efu16)
    ));
    assert_eq!(some_candidates(vec!["p".into()], 1).unwrap(), vec!["p"]);
}

#[test]
fn a_read_of_nothing_is_the_end_of_the_link() {
    let buf = vec![9, 8, 7, 6];
    assert_eq!(read_chunk(&buf, Ok(2)).unwrap(), vec![9, 8]);
    assert!(matches!(read_chunk(&buf, Ok(0)), Err(TransportError::Disconnected)));
    assert!(matches!(read_chunk(&buf, Err("gone".into())), Err(TransportError::Io(m)) if m == "gone"));
}

#[test]
fn a_port_that_does_not_open_is_named() {
    let e = open_failed("/dev/ttyACM0", "busy");
    assert!(matches!(e, TransportError::Io(m) if m == "open /dev/ttyACM0: busy"));
}

#[test]
fn connect_times_out_on_silent_peer() {
    let err = within_limit::<()>(None).err().expect("must time out");
    assert!(
        matches!(&err, ConnectError::Transport(TransportError::DeviceNotFound(m)) if m.contains("timed out")),
        "expected handshake timeout, got {err:?}"
    );
    assert_eq!(within_limit(Some(Ok(5))).unwrap(), 5);
}

#[test]
fn probe_prefers_responsive_port_over_silent_one() {
    let mut probe = Probe::new(2);
    assert_eq!(probe.joined::<u8>(Some(Err(silent()))), None);
    assert_eq!(probe.joined(Some(Ok(7u8))), Some(7));
}

#[test]
fn probe_surfaces_version_mismatch_over_timeouts() {
    let mut probe = Probe::new(2);
    probe.joined::<u8>(Some(Err(mismatch(1))));
    probe.joined::<u8>(Some(Err(silent())));
    assert!(matches!(probe.finish(), ConnectError::VersionMismatch { firmware_major: 1, .. }));
}

#[test]
fn the_first_definitive_error_stands() {
    let mut probe = Probe::new(3);
    probe.joined::<u8>(Some(Err(silent())));
    probe.joined::<u8>(Some(Err(ConnectError::Request(RequestError::Rejected(
        DeviceError::Locked,
    )))));
    probe.joined::<u8>(Some(Err(mismatch(1))));
    assert!(matches!(
        probe.finish(),
        ConnectError::Request(RequestError::Rejected(DeviceError::Locked))
    ));
}

#[test]
fn without_a_definitive_error_the_last_one_is_reported() {
    let mut probe = Probe::new(3);
    probe.joined::<u8>(Some(Err(silent())));
    probe.joined::<u8>(Some(Err(ConnectError::Transport(TransportError::Io("x".into())))));
    probe.joined::<u8>(None);
    match probe.finish() {
        ConnectError::NoResponsiveDevice { probed: 3, last } => {
            assert!(matches!(*last, ConnectError::Transport(TransportError::Io(m)) if m == "x"));
        }
        other => panic!("{other:?}"),
    }
    match Probe::new(1).finish() {
        ConnectError::NoResponsiveDevice { probed: 1, last } => assert!(
            matches!(*last, ConnectError::Transport(TransportError::DeviceNotFound(m)) if m == "handshake timed out")
        ),
        other => panic!("{other:?}"),
    }
}

#[test]
fn discovery_lists_the_responsive_ports() {
    let device = SerialDevice {
        path: "p".into(),
        version: ProtocolVersion { major: 0, minor: 1 },
        capabilities: caps(),
    };
    let mut found = Vec::new();
    discovered(&mut found, None);
    discovered(&mut found, Some(device));
    assert_eq!(found.len(), 1);
    assert_eq!(found[0].path, "p");
    assert_eq!(found[0].capabilities.num_cols, 14);
}
