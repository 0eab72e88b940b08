//! Every typed request: the bytes it sends, and the reply it reads.
use rmk_types::action::{EncoderAction, KeyAction};
use rmk_types::battery::BatteryStatus as WireBattery;
use rmk_types::battery::ChargeState as WireCharge;
use rmk_types::ble::BleState as WireBle;
use rmk_types::ble::BleStatus as WireBleStatus;
use rmk_types::combo::Combo;
use rmk_types::connection::ConnectionStatus as WireConnection;
use rmk_types::connection::ConnectionType as WireType;
use rmk_types::connection::UsbState as WireUsb;
use rmk_types::fork::Fork;
use rmk_types::led_indicator::LedIndicator as WireLeds;
use rmk_types::morse::{Morse, MorseProfile};
use rmk_types::protocol::rynk::BehaviorConfig as WireBehavior;
use rmk_types::protocol::rynk::Cmd as WireCmd;
use rmk_types::protocol::rynk::PeripheralStatus as WirePeripheral;
use rmk_types::protocol::rynk::RynkError as WireError;
use rmk_types::protocol::rynk::{
    GetKeymapBulkResponse, MacroData, MatrixState,
    SetComboBulkRequest, SetKeymapBulkRequest, SetMorseBulkRequest,
};
use rynk::frame::{build_frame, take_frame};
use rynk::reply::Reply;
use rynk::serial::SerialDevice;
use rynk::{
    BatteryStatus, BehaviorConfig, BleState, BleStatus, ChargeState, Client, Cmd, ConnectionStatus,
    ConnectionType, DeviceCapabilities, LedIndicator, PeripheralStatus, ProtocolVersion, Request,
    RequestError, Step, StorageResetMode, UsbState,
};
use serde::Serialize;

/// A client of a device that has every feature.
fn connected() -> Client {
    let version = postcard::to_allocvec(&Ok::<_, WireError>((0u8, 1u8))).unwrap();
    let caps = postcard::to_allocvec(&Ok::<_, WireError>((
        (4u8, 6u8, 14u8, 2u8, 8u8, 4u8, 8u8, 1024u16, 4u8, 4u8, 4u8),
        (true, false, true, 1u8, true, 3u8, 600u16, 8u8, 64u16, true),
    )))
    .unwrap();
    let mut handshake = Client::connect().ok().unwrap().sent(Ok(())).ok().unwrap();
    let replies = [
        build_frame(Cmd::from_raw(WireCmd::GetVersion.raw()), 1, &version),
        build_frame(Cmd::from_raw(WireCmd::GetCapabilities.raw()), 2, &caps),
    ];
    for reply in replies {
        handshake = match handshake.received(Ok(reply)).ok().unwrap().poll() {
            Step::Send(next) => next.sent(Ok(())).ok().unwrap(),
            Step::Done(client) => return client,
            _ => panic!("the handshake stopped"),
        };
    }
    panic!("the handshake did not end")
}

/// Checks the frame of a request, and answers it with `reply`.
fn round_trip<R: Reply>(
    client: &mut Client,
    request: Result<Request<R>, RequestError>,
    cmd: WireCmd,
    payload: &[u8],
    reply: impl Serialize,
) -> R {
    let request = request.ok().unwrap();
    let cmd = Cmd::from_raw(cmd.raw());
    assert_eq!(request.cmd(), cmd);
    assert_eq!(*request.frame(), build_frame(cmd, request.seq(), &payload.to_vec()));
    assert!(client.poll_reply(&request).is_none());
    let envelope = postcard::to_allocvec(&Ok::<_, WireError>(reply)).unwrap();
    client.received(Ok(build_frame(cmd, request.seq(), &envelope))).ok().unwrap();
    client.poll_reply(&request).unwrap().ok().unwrap()
}

fn bytes(value: &impl Serialize) -> Vec<u8> {
    postcard::to_allocvec(value).unwrap()
}

fn joined(front: &[u8], value: &impl Serialize) -> Vec<u8> {
    let mut all = front.to_vec();
    all.extend(bytes(value));
    all
}

fn morse() -> Morse {
    Morse { profile: MorseProfile::new(Some(true), None, Some(250), None), ..Default::default() }
}

#[test]
fn system_requests() {
    let mut c = connected();
    let r = c.get_version();
    let got = round_trip(&mut c, r, WireCmd::GetVersion, &[], (0u8, 9u8));
    assert_eq!(got, ProtocolVersion { major: 0, minor: 9 });

    let r = c.get_capabilities();
    let fields = (
        (1u8, 2u8, 3u8, 4u8, 5u8, 6u8, 7u8, 300u16, 9u8, 10u8, 11u8),
        (true, false, true, 15u8, false, 17u8, 500u16, 19u8, 200u16, true),
    );
    let got = round_trip(&mut c, r, WireCmd::GetCapabilities, &[], fields);
    assert_eq!(
        got,
        DeviceCapabilities {
            num_layers: 1,
            num_rows: 2,
            num_cols: 3,
            num_encoders: 4,
            max_combos: 5,
            max_combo_keys: 6,
            max_macros: 7,
            macro_space_size: 300,
            max_morse: 9,
            max_patterns_per_key: 10,
            max_forks: 11,
            storage_enabled: true,
            lighting_enabled: false,
            is_split: true,
            num_split_peripherals: 15,
            ble_enabled: false,
            num_ble_profiles: 17,
            max_payload_size: 500,
            max_bulk_keys: 19,
            macro_chunk_size: 200,
            bulk_transfer_supported: true,
        }
    );
    // The snapshot of the handshake stays.
    assert_eq!(c.capabilities().num_layers, 4);

    let r = c.storage_reset(StorageResetMode::LayoutOnly);
    round_trip(&mut c, r, WireCmd::StorageReset, &[1], ());
    let r = c.storage_reset(StorageResetMode::Full);
    round_trip(&mut c, r, WireCmd::StorageReset, &[0], ());
}

#[test]
fn fire_and_forget_requests() {
    let mut c = connected();
    assert_eq!(c.reboot().ok().unwrap(), vec![0x03, 0x00, 3, 0, 0]);
    assert_eq!(c.bootloader_jump().ok().unwrap(), vec![0x04, 0x00, 4, 0, 0]);
    c.sent(Err(rynk::TransportError::Disconnected)).unwrap_err();
    assert!(c.reboot().is_err());
}

#[test]
fn keymap_requests() {
    let mut c = connected();
    let r = c.get_key(1, 2, 3);
    let got = round_trip(&mut c, r, WireCmd::GetKeyAction, &[1, 2, 3], KeyAction::Morse(7));
    assert!(got == KeyAction::Morse(7));
    let r = c.set_key(1, 2, 3, KeyAction::Transparent);
    let payload = joined(&[1, 2, 3], &KeyAction::Transparent);
    round_trip(&mut c, r, WireCmd::SetKeyAction, &payload, ());
    let r = c.get_default_layer();
    assert_eq!(round_trip(&mut c, r, WireCmd::GetDefaultLayer, &[], 2u8), 2);
    let r = c.set_default_layer(3);
    round_trip(&mut c, r, WireCmd::SetDefaultLayer, &[3], ());
    let action =
        EncoderAction { clockwise: KeyAction::Morse(1), counter_clockwise: KeyAction::Morse(2) };
    let r = c.get_encoder(1, 2);
    let got = round_trip(&mut c, r, WireCmd::GetEncoderAction, &[1, 2], action);
    assert_eq!(got, action);
    let r = c.set_encoder(1, 2, action);
    round_trip(&mut c, r, WireCmd::SetEncoderAction, &joined(&[1, 2], &action), ());
}

#[test]
fn bulk_requests() {
    let mut c = connected();
    let page = GetKeymapBulkResponse {
        actions: [KeyAction::Morse(1), KeyAction::No].into_iter().collect(),
    };
    let r = c.get_keymap_bulk(1, 2, 3, 4);
    let got = round_trip(&mut c, r, WireCmd::GetKeymapBulk, &[1, 2, 3, 4], page.clone());
    assert_eq!(got, page);
    let request = SetKeymapBulkRequest {
        layer: 1,
        start_row: 2,
        start_col: 3,
        actions: [KeyAction::Morse(1)].into_iter().collect(),
    };
    let payload = bytes(&request);
    assert_eq!(payload[..4], [1, 2, 3, 1]);
    let r = c.set_keymap_bulk(request);
    round_trip(&mut c, r, WireCmd::SetKeymapBulk, &payload, ());

    let request = SetComboBulkRequest {
        start_index: 5,
        configs: [Combo::empty()].into_iter().collect(),
    };
    let payload = bytes(&request);
    assert_eq!(payload[..2], [5, 1]);
    let r = c.set_combo_bulk(request);
    round_trip(&mut c, r, WireCmd::SetComboBulk, &payload, ());

    let request =
        SetMorseBulkRequest { start_index: 6, configs: [morse()].into_iter().collect() };
    let payload = bytes(&request);
    assert_eq!(payload[..2], [6, 1]);
    let r = c.set_morse_bulk(request);
    round_trip(&mut c, r, WireCmd::SetMorseBulk, &payload, ());
}

#[test]
fn combo_fork_morse_and_macro_requests() {
    let mut c = connected();
    let combo = Combo::new([KeyAction::Morse(1), KeyAction::Morse(2)], KeyAction::Morse(3), Some(1));
    let r = c.get_combo(4);
    let got = round_trip(&mut c, r, WireCmd::GetCombo, &[4], combo.clone());
    assert!(got == combo);
    let r = c.set_combo(4, combo.clone());
    round_trip(&mut c, r, WireCmd::SetCombo, &joined(&[4], &combo), ());

    let mut fork = Fork::empty();
    fork.trigger = KeyAction::Morse(9);
    let r = c.get_fork(5);
    let got = round_trip(&mut c, r, WireCmd::GetFork, &[5], fork);
    assert_eq!(got, fork);
    let r = c.set_fork(5, fork);
    round_trip(&mut c, r, WireCmd::SetFork, &joined(&[5], &fork), ());

    let r = c.get_morse(6);
    let got = round_trip(&mut c, r, WireCmd::GetMorse, &[6], morse());
    assert_eq!(got, morse());
    let r = c.set_morse(6, morse());
    round_trip(&mut c, r, WireCmd::SetMorse, &joined(&[6], &morse()), ());

    let data = MacroData { data: [1u8, 2, 3].into_iter().collect() };
    let r = c.get_macro(7, 300);
    let got = round_trip(&mut c, r, WireCmd::GetMacro, &[7, 0xac, 0x02], data.clone());
    assert_eq!(got, data);
    let r = c.set_macro(7, 5, data);
    round_trip(&mut c, r, WireCmd::SetMacro, &[7, 5, 3, 1, 2, 3], ());
}

#[test]
fn behavior_requests() {
    let mut c = connected();
    let config = BehaviorConfig {
        combo_timeout_ms: 50,
        oneshot_timeout_ms: 500,
        tap_interval_ms: 20,
        tap_capslock_interval_ms: 21,
    };
    let wire = WireBehavior {
        combo_timeout_ms: 50,
        oneshot_timeout_ms: 500,
        tap_interval_ms: 20,
        tap_capslock_interval_ms: 21,
    };
    let r = c.get_behavior();
    assert_eq!(round_trip(&mut c, r, WireCmd::GetBehaviorConfig, &[], wire), config);
    let r = c.set_behavior(config);
    let payload = [50, 0xf4, 0x03, 20, 21];
    round_trip(&mut c, r, WireCmd::SetBehaviorConfig, &payload, ());
}

#[test]
fn status_requests() {
    let mut c = connected();
    let r = c.get_current_layer();
    assert_eq!(round_trip(&mut c, r, WireCmd::GetCurrentLayer, &[], 3u8), 3);
    let matrix = MatrixState { pressed_bitmap: [1u8, 0, 128].into_iter().collect() };
    let r = c.get_matrix_state();
    assert_eq!(round_trip(&mut c, r, WireCmd::GetMatrixState, &[], matrix.clone()), matrix);
    let charges = [
        (WireCharge::Charging, ChargeState::Charging),
        (WireCharge::Discharging, ChargeState::Discharging),
        (WireCharge::Unknown, ChargeState::Unknown),
    ];
    for (wire, charge_state) in charges {
        for level in [None, Some(80)] {
            let wire = WireBattery::Available { charge_state: wire, level };
            let want = BatteryStatus::Available { charge_state, level };
            let r = c.get_battery_status();
            assert_eq!(round_trip(&mut c, r, WireCmd::GetBatteryStatus, &[], wire), want);
            let wire = WirePeripheral { connected: true, battery: wire };
            let want = PeripheralStatus { connected: true, battery: want };
            let r = c.get_peripheral_status(1);
            assert_eq!(round_trip(&mut c, r, WireCmd::GetPeripheralStatus, &[1], wire), want);
        }
    }
    let r = c.get_battery_status();
    let got = round_trip(&mut c, r, WireCmd::GetBatteryStatus, &[], WireBattery::Unavailable);
    assert_eq!(got, BatteryStatus::Unavailable);
    let wire = WirePeripheral { connected: false, battery: WireBattery::Unavailable };
    let r = c.get_peripheral_status(0);
    let got = round_trip(&mut c, r, WireCmd::GetPeripheralStatus, &[0], wire);
    assert_eq!(got, PeripheralStatus { connected: false, battery: BatteryStatus::Unavailable });
    let r = c.get_wpm();
    assert_eq!(round_trip(&mut c, r, WireCmd::GetWpm, &[], 65535u16), 65535);
    let r = c.get_sleep_state();
    assert!(round_trip(&mut c, r, WireCmd::GetSleepState, &[], true));
    let r = c.get_led_indicator();
    let leds = round_trip(&mut c, r, WireCmd::GetLedIndicator, &[], WireLeds::CAPS_LOCK);
    assert_eq!(leds, LedIndicator { bits: 0b10 });
    assert!(WireLeds::from_bits(leds.bits) == WireLeds::CAPS_LOCK);
}

#[test]
fn connection_requests() {
    let mut c = connected();
    let types = [(WireType::Usb, ConnectionType::Usb), (WireType::Ble, ConnectionType::Ble)];
    let usbs = [
        (WireUsb::Disabled, UsbState::Disabled),
        (WireUsb::Enabled, UsbState::Enabled),
        (WireUsb::Configured, UsbState::Configured),
        (WireUsb::Suspended, UsbState::Suspended),
    ];
    let bles = [
        (WireBle::Advertising, BleState::Advertising),
        (WireBle::Connected, BleState::Connected),
        (WireBle::Inactive, BleState::Inactive),
    ];
    for (wire, want) in types {
        let r = c.get_connection_type();
        assert_eq!(round_trip(&mut c, r, WireCmd::GetConnectionType, &[], wire), want);
    }
    for (wire, state) in bles {
        let wire = WireBleStatus { profile: 2, state: wire };
        let r = c.get_ble_status();
        let got = round_trip(&mut c, r, WireCmd::GetBleStatus, &[], wire);
        assert_eq!(got, BleStatus { profile: 2, state });
    }
    for (wire_usb, usb) in usbs {
        for (wire_ble, state) in bles {
            for (wire_type, preferred) in types {
                let wire = WireConnection {
                    usb: wire_usb,
                    ble: WireBleStatus { profile: 3, state: wire_ble },
                    preferred: wire_type,
                };
                let want = ConnectionStatus { usb, ble: BleStatus { profile: 3, state }, preferred };
                let r = c.get_connection_status();
                assert_eq!(round_trip(&mut c, r, WireCmd::GetConnectionStatus, &[], wire), want);
            }
        }
    }
    let r = c.switch_ble_profile(2);
    round_trip(&mut c, r, WireCmd::SwitchBleProfile, &[2], ());
    let r = c.clear_ble_profile(1);
    round_trip(&mut c, r, WireCmd::ClearBleProfile, &[1], ());
}

#[test]
fn a_discovered_device_is_what_the_handshake_read() {
    let c = connected();
    let device = SerialDevice::of("port".into(), &c);
    assert_eq!(device.path, "port");
    assert_eq!(device.version, ProtocolVersion { major: 0, minor: 1 });
    assert_eq!(device.capabilities, *c.capabilities());
    assert_eq!(device.capabilities.max_payload_size, 600);
}

#[test]
fn a_device_cuts_requests_back() {
    let mut c = connected();
    let request = c.get_macro(7, 300).ok().unwrap();
    let mut received = request.frame().clone();
    received.extend([1, 2]);
    let frame = take_frame(&mut received, c.max_frame_size()).unwrap();
    assert_eq!((frame.cmd, frame.seq), (request.cmd(), request.seq()));
    assert_eq!(frame.payload, vec![7, 0xac, 0x02]);
    assert_eq!(received, vec![1, 2]);
}
