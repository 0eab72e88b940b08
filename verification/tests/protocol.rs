//! Constants, frames and events.
use rmk_types::battery::BatteryStatus as WireBattery;
use rmk_types::led_indicator::LedIndicator as WireLeds;
use rmk_types::protocol::rynk::Cmd as WireCmd;
use rynk::codec::unwire;
use rynk::client::settle;
use rynk::command;
use rynk::event::{decode_event, decoded_or_unknown};
use rynk::frame::{build_frame, take_frame, RYNK_HEADER_SIZE, RYNK_MIN_BUFFER_SIZE};
use rynk::{
    BatteryStatus, Cmd, DecodeError, DeviceError, Event, LedIndicator, ProtocolVersion,
    RequestError, TopicFrame,
};

#[test]
fn commands_have_their_wire_values() {
    let table = [
        (command::GET_VERSION, WireCmd::GetVersion),
        (command::GET_CAPABILITIES, WireCmd::GetCapabilities),
        (command::REBOOT, WireCmd::Reboot),
        (command::BOOTLOADER_JUMP, WireCmd::BootloaderJump),
        (command::STORAGE_RESET, WireCmd::StorageReset),
        (command::GET_KEY_ACTION, WireCmd::GetKeyAction),
        (command::SET_KEY_ACTION, WireCmd::SetKeyAction),
        (command::GET_DEFAULT_LAYER, WireCmd::GetDefaultLayer),
        (command::SET_DEFAULT_LAYER, WireCmd::SetDefaultLayer),
        (command::GET_ENCODER_ACTION, WireCmd::GetEncoderAction),
        (command::SET_ENCODER_ACTION, WireCmd::SetEncoderAction),
        (command::GET_KEYMAP_BULK, WireCmd::GetKeymapBulk),
        (command::SET_KEYMAP_BULK, WireCmd::SetKeymapBulk),
        (command::GET_MACRO, WireCmd::GetMacro),
        (command::SET_MACRO, WireCmd::SetMacro),
        (command::GET_COMBO, WireCmd::GetCombo),
        (command::SET_COMBO, WireCmd::SetCombo),
        (command::GET_COMBO_BULK, WireCmd::GetComboBulk),
        (command::SET_COMBO_BULK, WireCmd::SetComboBulk),
        (command::GET_MORSE, WireCmd::GetMorse),
        (command::SET_MORSE, WireCmd::SetMorse),
        (command::GET_MORSE_BULK, WireCmd::GetMorseBulk),
        (command::SET_MORSE_BULK, WireCmd::SetMorseBulk),
        (command::GET_FORK, WireCmd::GetFork),
        (command::SET_FORK, WireCmd::SetFork),
        (command::GET_BEHAVIOR_CONFIG, WireCmd::GetBehaviorConfig),
        (command::SET_BEHAVIOR_CONFIG, WireCmd::SetBehaviorConfig),
        (command::GET_CONNECTION_TYPE, WireCmd::GetConnectionType),
        (command::GET_CONNECTION_STATUS, WireCmd::GetConnectionStatus),
        (command::GET_BLE_STATUS, WireCmd::GetBleStatus),
        (command::SWITCH_BLE_PROFILE, WireCmd::SwitchBleProfile),
        (command::CLEAR_BLE_PROFILE, WireCmd::ClearBleProfile),
        (command::GET_CURRENT_LAYER, WireCmd::GetCurrentLayer),
        (command::GET_MATRIX_STATE, WireCmd::GetMatrixState),
        (command::GET_BATTERY_STATUS, WireCmd::GetBatteryStatus),
        (command::GET_PERIPHERAL_STATUS, WireCmd::GetPeripheralStatus),
        (command::GET_WPM, WireCmd::GetWpm),
        (command::GET_SLEEP_STATE, WireCmd::GetSleepState),
        (command::GET_LED_INDICATOR, WireCmd::GetLedIndicator),
        (command::LAYER_CHANGE, WireCmd::LayerChange),
        (command::WPM_UPDATE, WireCmd::WpmUpdate),
        (command::CONNECTION_CHANGE, WireCmd::ConnectionChange),
        (command::SLEEP_STATE, WireCmd::SleepState),
        (command::LED_INDICATOR, WireCmd::LedIndicatorChange),
        (command::BATTERY_STATUS_TOPIC, WireCmd::BatteryStatusChange),
    ];
    for (ours, wire) in table {
        assert_eq!(ours, wire.raw());
        assert_eq!(Cmd::from_raw(ours).is_topic(), wire.is_topic());
    }
}

#[test]
fn the_library_speaks_the_current_version() {
    let wire = rmk_types::protocol::rynk::ProtocolVersion::CURRENT;
    let ours = ProtocolVersion::current();
    assert_eq!((ours.major, ours.minor), (wire.major, wire.minor));
    assert_eq!(RYNK_HEADER_SIZE, 5);
    assert_eq!(RYNK_MIN_BUFFER_SIZE, 267);
}

#[test]
fn topics_start_at_the_high_bit() {
    assert!(!Cmd::from_raw(0x7fff).is_topic());
    assert!(Cmd::from_raw(0x8000).is_topic());
    assert_eq!(Cmd::from_raw(0x1234).raw(), 0x1234);
}

#[test]
fn a_frame_is_its_header_and_its_payload() {
    let bytes = build_frame(Cmd::from_raw(0x0805), 7, &vec![0xaa; 300]);
    assert_eq!(bytes[..6], [0x05, 0x08, 7, 0x2c, 0x01, 0xaa]);
    assert_eq!(bytes.len(), 305);
}

#[test]
fn frames_are_cut_off_the_front() {
    let mut rx = build_frame(Cmd::from_raw(0x7fff), 9, &vec![1, 2]);
    rx.extend(build_frame(Cmd::from_raw(1), 10, &vec![]));
    rx.extend([1, 2, 3]);
    let first = take_frame(&mut rx, 100).unwrap();
    assert_eq!((first.cmd, first.seq, first.payload), (Cmd::from_raw(0x7fff), 9, vec![1, 2]));
    let second = take_frame(&mut rx, 100).unwrap();
    assert_eq!((second.cmd, second.seq, second.payload), (Cmd::from_raw(1), 10, vec![]));
    assert!(take_frame(&mut rx, 100).is_none());
    assert_eq!(rx, vec![1, 2, 3]);
}

#[test]
fn a_frame_at_the_limit_is_taken_and_one_over_it_drops_the_buffer() {
    let frame = build_frame(Cmd::from_raw(1), 1, &vec![0; 10]);
    let mut rx = frame.clone();
    assert!(take_frame(&mut rx, 15).is_some());
    let mut rx = frame;
    assert!(take_frame(&mut rx, 14).is_none());
    assert!(rx.is_empty());
}

fn event(raw: u16, payload: Vec<u8>) -> Event {
    decode_event(TopicFrame { cmd: Cmd::from_raw(raw), payload })
}

#[test]
fn every_topic_has_its_event() {
    assert!(matches!(event(command::LAYER_CHANGE, vec![4]), Event::LayerChange(4)));
    assert!(matches!(event(command::WPM_UPDATE, vec![0xac, 0x02]), Event::WpmUpdate(300)));
    assert!(matches!(event(command::SLEEP_STATE, vec![1]), Event::SleepState(true)));
    let leds = postcard::to_allocvec(&WireLeds::NUM_LOCK).unwrap();
    assert!(
        matches!(event(command::LED_INDICATOR, leds), Event::LedIndicator(LedIndicator { bits: 1 }))
    );
    let battery = postcard::to_allocvec(&WireBattery::Unavailable).unwrap();
    assert!(matches!(
        event(command::BATTERY_STATUS_TOPIC, battery),
        Event::BatteryStatus(BatteryStatus::Unavailable)
    ));
    assert!(matches!(event(0x8fff, vec![9]), Event::Unknown(f) if f.payload == [9]));
}

#[test]
fn longer_topics_decode_and_broken_ones_do_not() {
    assert!(matches!(event(command::LAYER_CHANGE, vec![4, 9, 9]), Event::LayerChange(4)));
    assert!(matches!(event(command::SLEEP_STATE, vec![7]), Event::Unknown(_)));
    assert!(matches!(event(command::WPM_UPDATE, vec![0xff]), Event::Unknown(_)));
    assert!(matches!(event(command::CONNECTION_CHANGE, vec![9]), Event::Unknown(_)));
    assert!(matches!(event(command::BATTERY_STATUS_TOPIC, vec![]), Event::Unknown(_)));
    // A battery with a bad charge state, and one with a bad option tag.
    assert!(matches!(event(command::BATTERY_STATUS_TOPIC, vec![1, 3, 0]), Event::Unknown(_)));
    assert!(matches!(event(command::BATTERY_STATUS_TOPIC, vec![1, 0, 2]), Event::Unknown(_)));
    assert!(matches!(
        event(command::BATTERY_STATUS_TOPIC, vec![0, 9]),
        Event::BatteryStatus(BatteryStatus::Unavailable)
    ));
}

#[test]
fn events_and_topics_can_be_copied() {
    let copy = event(0x8fff, vec![9]).clone();
    assert!(matches!(copy, Event::Unknown(f) if f.cmd == Cmd::from_raw(0x8fff) && f.payload == [9]));
    assert!(matches!(event(command::LAYER_CHANGE, vec![4]).clone(), Event::LayerChange(4)));
}

#[test]
fn a_decoded_event_wins_over_the_raw_frame() {
    let frame = TopicFrame { cmd: Cmd::from_raw(0x8001), payload: vec![1] };
    assert!(matches!(
        decoded_or_unknown(Some(Event::LayerChange(1)), frame.clone()),
        Event::LayerChange(1)
    ));
    assert!(matches!(decoded_or_unknown(None, frame), Event::Unknown(_)));
}

#[test]
fn decoded_replies_are_settled() {
    let cmd = Cmd::from_raw(0x0805);
    assert!(matches!(settle(cmd, Ok((Ok(7u16), 0))), Ok(7)));
    assert!(matches!(
        settle::<u16>(cmd, Ok((Err(DeviceError::Busy), 0))),
        Err(RequestError::Rejected(DeviceError::Busy))
    ));
    assert!(matches!(settle(cmd, Ok((Ok(7u16), 1))), Err(RequestError::TrailingBytes { .. })));
    assert!(matches!(
        settle::<u16>(cmd, Ok((Err(DeviceError::Busy), 1))),
        Err(RequestError::TrailingBytes { .. })
    ));
    assert!(matches!(
        settle::<u16>(cmd, Err(DecodeError::BadBool)),
        Err(RequestError::Deserialize { source: DecodeError::BadBool, .. })
    ));
}

#[test]
fn decoder_errors_keep_their_kind() {
    let table = [
        (postcard::Error::WontImplement, DecodeError::WontImplement),
        (postcard::Error::NotYetImplemented, DecodeError::NotYetImplemented),
        (postcard::Error::SerializeBufferFull, DecodeError::BufferFull),
        (postcard::Error::SerializeSeqLengthUnknown, DecodeError::LengthUnknown),
        (postcard::Error::DeserializeUnexpectedEnd, DecodeError::UnexpectedEnd),
        (postcard::Error::DeserializeBadVarint, DecodeError::BadVarint),
        (postcard::Error::DeserializeBadBool, DecodeError::BadBool),
        (postcard::Error::DeserializeBadChar, DecodeError::BadChar),
        (postcard::Error::DeserializeBadUtf8, DecodeError::BadUtf8),
        (postcard::Error::DeserializeBadOption, DecodeError::BadOption),
        (postcard::Error::DeserializeBadEnum, DecodeError::BadEnum),
        (postcard::Error::DeserializeBadEncoding, DecodeError::BadEncoding),
        (postcard::Error::DeserializeBadCrc, DecodeError::BadCrc),
        (postcard::Error::SerdeSerCustom, DecodeError::Unwritable),
        (postcard::Error::SerdeDeCustom, DecodeError::BadValue),
        (postcard::Error::CollectStrError, DecodeError::Uncollectable),
    ];
    for (wire, want) in table {
        assert!(matches!(unwire::<u8>(Err(wire)), Err(got) if got == want));
    }
    assert!(matches!(unwire(Ok((Ok(3u8), 2))), Ok((Ok(3), 2))));
}
