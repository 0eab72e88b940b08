//! Calls into `postcard`, and the payload types of `rmk-types` that are carried
//! through without being looked into.
//!
//! But for [`unwire`] nothing here is proved: each item states what the outside
//! function it wraps does. `postcard` writes a struct as its fields in order, an enum as
//! the variant's index and then its contents, and integers wider than a byte as
//! variable-length integers; the plain part of that is spelled out in
//! [`crate::wire`].
use crate::error::{DecodeError, DeviceError};
use crate::payload::{BehaviorConfig, DeviceCapabilities, ProtocolVersion, StorageResetMode};
use crate::status::{
    BatteryStatus, BleState, BleStatus, ChargeState, ConnectionStatus, ConnectionType,
    LedIndicator, PeripheralStatus, UsbState,
};
use crate::wire::{
    envelope_body, put_accept, take_byte, take_envelope, take_flag, take_unit, take_word,
    value_of, varint, Taken,
};
use postcard::Error as Fault;
use rmk_types::action::{EncoderAction, KeyAction};
use rmk_types::battery::BatteryStatus as WireBattery;
use rmk_types::battery::ChargeState as WireCharge;
use rmk_types::ble::BleState as WireBle;
use rmk_types::ble::BleStatus as WireBleStatus;
use rmk_types::combo::Combo;
use rmk_types::connection::ConnectionStatus as WireConnection;
use rmk_types::connection::ConnectionType as WireType;
use rmk_types::connection::UsbState as WireUsb;
use rmk_types::fork::Fork;
use rmk_types::led_indicator::LedIndicator as WireLeds;
use rmk_types::morse::Morse;
use rmk_types::protocol::rynk::BehaviorConfig as WireBehavior;
use rmk_types::protocol::rynk::PeripheralStatus as WirePeripheral;
use rmk_types::protocol::rynk::ProtocolVersion as WireVersion;
use rmk_types::protocol::rynk::RynkError as WireError;
use rmk_types::protocol::rynk::StorageResetMode as WireResetMode;
use rmk_types::protocol::rynk::{
    GetComboBulkResponse, GetEncoderRequest, GetKeymapBulkResponse, GetMorseBulkResponse,
    KeyPosition, MacroData, MatrixState,
    SetComboBulkRequest, SetComboRequest, SetEncoderRequest, SetForkRequest, SetKeyRequest,
    SetKeymapBulkRequest, SetMorseBulkRequest, SetMorseRequest,
};
use vstd::prelude::*;

verus! {

/// Key actions, carried and never looked into.
#[verifier::external_type_specification]
#[verifier::external_body]
pub struct ExKeyAction(rmk_types::action::KeyAction);

/// Encoder actions, carried and never looked into.
#[verifier::external_type_specification]
#[verifier::external_body]
pub struct ExEncoderAction(rmk_types::action::EncoderAction);

/// Combos, carried and never looked into.
#[verifier::external_type_specification]
#[verifier::external_body]
pub struct ExCombo(rmk_types::combo::Combo);

/// Forks, carried and never looked into.
#[verifier::external_type_specification]
#[verifier::external_body]
pub struct ExFork(rmk_types::fork::Fork);

/// Morse keys, carried and never looked into.
#[verifier::external_type_specification]
#[verifier::external_body]
pub struct ExMorse(rmk_types::morse::Morse);

/// Macro chunks, carried and never looked into.
#[verifier::external_type_specification]
#[verifier::external_body]
pub struct ExMacroData(rmk_types::protocol::rynk::MacroData);

/// Matrix bitmaps, carried and never looked into.
#[verifier::external_type_specification]
#[verifier::external_body]
pub struct ExMatrixState(rmk_types::protocol::rynk::MatrixState);

/// Pages of key actions, carried and never looked into.
#[verifier::external_type_specification]
#[verifier::external_body]
pub struct ExGetKeymapBulkResponse(rmk_types::protocol::rynk::GetKeymapBulkResponse);

/// Pages of combos, carried and never looked into.
#[verifier::external_type_specification]
#[verifier::external_body]
pub struct ExGetComboBulkResponse(rmk_types::protocol::rynk::GetComboBulkResponse);

/// Pages of morse keys, carried and never looked into.
#[verifier::external_type_specification]
#[verifier::external_body]
pub struct ExGetMorseBulkResponse(rmk_types::protocol::rynk::GetMorseBulkResponse);

/// Key action pages to write.
#[verifier::external_type_specification]
#[verifier::external_body]
pub struct ExSetKeymapBulkRequest(rmk_types::protocol::rynk::SetKeymapBulkRequest);

/// Combo pages to write.
#[verifier::external_type_specification]
#[verifier::external_body]
pub struct ExSetComboBulkRequest(rmk_types::protocol::rynk::SetComboBulkRequest);

/// Morse pages to write.
#[verifier::external_type_specification]
#[verifier::external_body]
pub struct ExSetMorseBulkRequest(rmk_types::protocol::rynk::SetMorseBulkRequest);

/// The device errors as `rmk-types` has them.
#[verifier::external_type_specification]
#[verifier::external_body]
pub struct ExWireError(rmk_types::protocol::rynk::RynkError);

/// The errors of `postcard`.
#[verifier::external_type_specification]
#[verifier::external_body]
pub struct ExPostcardError(postcard::Error);

/// The kind of a `postcard` error.
pub uninterp spec fn decode_error_of(e: postcard::Error) -> DecodeError;

/// The device error that a decoded `rmk-types` error is.
pub uninterp spec fn device_error_of(e: WireError) -> DeviceError;

/// What `postcard::take_from_bytes` gives for a response envelope: the
/// envelope and the number of bytes left over.
pub type Wired<V> = Result<(Result<V, WireError>, usize), postcard::Error>;

/// A decoded response envelope in the library's own terms.
pub type Decoded<V> = Result<(Result<V, DeviceError>, usize), DecodeError>;

/// The same decoding result, its errors in the library's own terms.
pub open spec fn unwired<V>(wired: Wired<V>) -> Decoded<V> {
    match wired {
        Ok((Ok(value), left)) => Ok((Ok(value), left)),
        Ok((Err(e), left)) => Ok((Err(device_error_of(e)), left)),
        Err(e) => Err(decode_error_of(e)),
    }
}

/// Whether a decoding result is the one that the bytes stand for.
pub open spec fn agrees<V>(
    bytes: Seq<u8>,
    decoded: Decoded<V>,
    taken: Taken<Result<V, DeviceError>>,
) -> bool {
    match taken {
        Ok((envelope, n)) => decoded matches Ok((got, left)) && got == envelope && n + left
            == bytes.len(),
        Err(e) => decoded == Err::<(Result<V, DeviceError>, usize), DecodeError>(e),
    }
}

/// Whether `wired` is what `payload` stands for as a response envelope around
/// `body`.
pub open spec fn reads<V>(payload: Seq<u8>, wired: Wired<V>, body: Taken<V>) -> bool {
    agrees(payload, unwired(wired), take_envelope(payload, body))
}

/// Tells the variants of `postcard::Error` apart, one for one.
#[verifier::external_body]
fn decode_error(e: Fault) -> (kind: DecodeError)
    ensures
        kind == decode_error_of(e),
{
    match e {
        Fault::WontImplement => DecodeError::WontImplement,
        Fault::NotYetImplemented => DecodeError::NotYetImplemented,
        Fault::SerializeBufferFull => DecodeError::BufferFull,
        Fault::SerializeSeqLengthUnknown => DecodeError::LengthUnknown,
        Fault::DeserializeUnexpectedEnd => DecodeError::UnexpectedEnd,
        Fault::DeserializeBadVarint => DecodeError::BadVarint,
        Fault::DeserializeBadBool => DecodeError::BadBool, Fault::DeserializeBadChar => DecodeError::BadChar,
        Fault::DeserializeBadUtf8 => DecodeError::BadUtf8, Fault::DeserializeBadEnum => DecodeError::BadEnum,
        Fault::DeserializeBadOption => DecodeError::BadOption, Fault::DeserializeBadCrc => DecodeError::BadCrc,
        Fault::DeserializeBadEncoding => DecodeError::BadEncoding,
        Fault::SerdeSerCustom => DecodeError::Unwritable, Fault::SerdeDeCustom => DecodeError::BadValue,
        Fault::CollectStrError => DecodeError::Uncollectable, _ => DecodeError::Other,
    }
}

/// Tells the variants of the `rmk-types` device error apart, one for one.
#[verifier::external_body]
fn device_error(e: WireError) -> (error: DeviceError)
    ensures
        error == device_error_of(e),
{
    match e {
        WireError::Malformed => DeviceError::Malformed,
        WireError::NotReady => DeviceError::NotReady,
        WireError::StorageFault => DeviceError::StorageFault,
        WireError::Internal => DeviceError::Internal,
        WireError::Unimplemented => DeviceError::Unimplemented,
        WireError::Invalid => DeviceError::Invalid,
        WireError::UnknownCmd => DeviceError::UnknownCmd,
        WireError::Locked => DeviceError::Locked,
        WireError::Busy => DeviceError::Busy,
        _ => DeviceError::Unknown,
    }
}

/// Puts the errors of a decoding result in the library's own terms.
pub fn unwire<V>(wired: Wired<V>) -> (decoded: Decoded<V>)
    ensures
        decoded == unwired(wired),
{
    match wired {
        Ok((Ok(value), left)) => Ok((Ok(value), left)),
        Ok((Err(e), left)) => Ok((Err(device_error(e)), left)),
        Err(e) => Err(decode_error(e)),
    }
}

// Reading values.

/// What `postcard::take_from_bytes::<KeyAction>` reads off the front of `bytes`.
pub uninterp spec fn key_action_of(bytes: Seq<u8>) -> Taken<KeyAction>;

/// What `postcard::take_from_bytes::<EncoderAction>` reads off the front of `bytes`.
pub uninterp spec fn encoder_action_of(bytes: Seq<u8>) -> Taken<EncoderAction>;

/// What `postcard::take_from_bytes::<Combo>` reads off the front of `bytes`.
pub uninterp spec fn combo_of(bytes: Seq<u8>) -> Taken<Combo>;

/// What `postcard::take_from_bytes::<Fork>` reads off the front of `bytes`.
pub uninterp spec fn fork_of(bytes: Seq<u8>) -> Taken<Fork>;

/// What `postcard::take_from_bytes::<Morse>` reads off the front of `bytes`.
pub uninterp spec fn morse_of(bytes: Seq<u8>) -> Taken<Morse>;

/// What `postcard::take_from_bytes::<MacroData>` reads off the front of `bytes`.
pub uninterp spec fn macro_data_of(bytes: Seq<u8>) -> Taken<MacroData>;

/// What `postcard::take_from_bytes::<MatrixState>` reads off the front of `bytes`.
pub uninterp spec fn matrix_state_of(bytes: Seq<u8>) -> Taken<MatrixState>;

/// The bytes in the `pressed_bitmap` of a `MatrixState`.
pub uninterp spec fn pressed_bitmap_of(state: MatrixState) -> Seq<u8>;

/// What `postcard::take_from_bytes::<GetKeymapBulkResponse>` reads off the front of `bytes`.
pub uninterp spec fn keymap_page_of(bytes: Seq<u8>) -> Taken<GetKeymapBulkResponse>;

/// What `postcard::take_from_bytes::<GetComboBulkResponse>` reads off the front of `bytes`.
pub uninterp spec fn combo_page_of(bytes: Seq<u8>) -> Taken<GetComboBulkResponse>;

/// What `postcard::take_from_bytes::<GetMorseBulkResponse>` reads off the front of `bytes`.
pub uninterp spec fn morse_page_of(bytes: Seq<u8>) -> Taken<GetMorseBulkResponse>;

// Reading responses.

/// `postcard::take_from_bytes` on a response that holds nothing.
#[verifier::external_body]
pub(crate) fn reply_unit(payload: &[u8]) -> (r: Wired<()>)
    ensures
        reads(payload@, r, take_unit(envelope_body(payload@))),
{
    let (v, rest) = postcard::take_from_bytes::<Result<(), WireError>>(payload)?;
    Ok((v, rest.len()))
}

/// `postcard::take_from_bytes` on a response that holds a `u8`.
#[verifier::external_body]
pub(crate) fn reply_byte(payload: &[u8]) -> (r: Wired<u8>)
    ensures
        reads(payload@, r, take_byte(envelope_body(payload@))),
{
    let (v, rest) = postcard::take_from_bytes::<Result<u8, WireError>>(payload)?;
    Ok((v, rest.len()))
}

/// `postcard::take_from_bytes` on a response that holds a `u16`.
#[verifier::external_body]
pub(crate) fn reply_word(payload: &[u8]) -> (r: Wired<u16>)
    ensures
        reads(payload@, r, take_word(envelope_body(payload@))),
{
    let (v, rest) = postcard::take_from_bytes::<Result<u16, WireError>>(payload)?;
    Ok((v, rest.len()))
}

/// `postcard::take_from_bytes` on a response that holds a `bool`.
#[verifier::external_body]
pub(crate) fn reply_flag(payload: &[u8]) -> (r: Wired<bool>)
    ensures
        reads(payload@, r, take_flag(envelope_body(payload@))),
{
    let (v, rest) = postcard::take_from_bytes::<Result<bool, WireError>>(payload)?;
    Ok((v, rest.len()))
}

/// `postcard::take_from_bytes` on a response that holds a protocol version: two
/// bytes.
#[verifier::external_body]
pub(crate) fn reply_version(payload: &[u8]) -> (r: Wired<ProtocolVersion>)
    ensures
        reads(payload@, r, ProtocolVersion::taken(envelope_body(payload@))),
{
    let (envelope, rest) = postcard::take_from_bytes::<Result<WireVersion, WireError>>(payload)?;
    let version = envelope.map(|v| ProtocolVersion { major: v.major, minor: v.minor });
    Ok((version, rest.len()))
}

/// The capability fields in wire order, in two parts.
type CapabilityFields = (
    (u8, u8, u8, u8, u8, u8, u8, u16, u8, u8, u8, bool, bool, bool, u8, bool),
    (u8, u16, u8, u16, bool),
);

/// `postcard::take_from_bytes` on a response that holds the capability fields:
/// bytes, words and flags in wire order.
#[verifier::external_body]
pub(crate) fn reply_capabilities(payload: &[u8]) -> (r: Wired<DeviceCapabilities>)
    ensures
        reads(payload@, r, DeviceCapabilities::taken(envelope_body(payload@))),
{
    let (envelope, rest) = postcard::take_from_bytes::<Result<CapabilityFields, WireError>>(
        payload,
    )?;
    let capabilities = envelope.map(|(a, b)| DeviceCapabilities {
        num_layers: a.0, num_rows: a.1, num_cols: a.2, num_encoders: a.3, max_combos: a.4,
        max_combo_keys: a.5, max_macros: a.6, macro_space_size: a.7, max_morse: a.8,
        max_patterns_per_key: a.9, max_forks: a.10, storage_enabled: a.11,
        lighting_enabled: a.12, is_split: a.13, num_split_peripherals: a.14,
        ble_enabled: a.15, num_ble_profiles: b.0, max_payload_size: b.1, max_bulk_keys: b.2,
        macro_chunk_size: b.3, bulk_transfer_supported: b.4,
    });
    Ok((capabilities, rest.len()))
}

/// `postcard::take_from_bytes` on a response that holds a `KeyAction`.
#[verifier::external_body]
pub(crate) fn reply_key_action(payload: &[u8]) -> (r: Wired<KeyAction>)
    ensures
        reads(payload@, r, key_action_of(envelope_body(payload@))),
{
    let (v, rest) = postcard::take_from_bytes::<Result<KeyAction, WireError>>(payload)?;
    Ok((v, rest.len()))
}

/// `postcard::take_from_bytes` on a response that holds an `EncoderAction`.
#[verifier::external_body]
pub(crate) fn reply_encoder_action(payload: &[u8]) -> (r: Wired<EncoderAction>)
    ensures
        reads(payload@, r, encoder_action_of(envelope_body(payload@))),
{
    let (v, rest) = postcard::take_from_bytes::<Result<EncoderAction, WireError>>(payload)?;
    Ok((v, rest.len()))
}

/// `postcard::take_from_bytes` on a response that holds a `Combo`.
#[verifier::external_body]
pub(crate) fn reply_combo(payload: &[u8]) -> (r: Wired<Combo>)
    ensures
        reads(payload@, r, combo_of(envelope_body(payload@))),
{
    let (v, rest) = postcard::take_from_bytes::<Result<Combo, WireError>>(payload)?;
    Ok((v, rest.len()))
}

/// `postcard::take_from_bytes` on a response that holds a `Fork`.
#[verifier::external_body]
pub(crate) fn reply_fork(payload: &[u8]) -> (r: Wired<Fork>)
    ensures
        reads(payload@, r, fork_of(envelope_body(payload@))),
{
    let (v, rest) = postcard::take_from_bytes::<Result<Fork, WireError>>(payload)?;
    Ok((v, rest.len()))
}

/// `postcard::take_from_bytes` on a response that holds a `Morse`.
#[verifier::external_body]
pub(crate) fn reply_morse(payload: &[u8]) -> (r: Wired<Morse>)
    ensures
        reads(payload@, r, morse_of(envelope_body(payload@))),
{
    let (v, rest) = postcard::take_from_bytes::<Result<Morse, WireError>>(payload)?;
    Ok((v, rest.len()))
}

/// `postcard::take_from_bytes` on a response that holds a `MacroData`.
#[verifier::external_body]
pub(crate) fn reply_macro_data(payload: &[u8]) -> (r: Wired<MacroData>)
    ensures
        reads(payload@, r, macro_data_of(envelope_body(payload@))),
{
    let (v, rest) = postcard::take_from_bytes::<Result<MacroData, WireError>>(payload)?;
    Ok((v, rest.len()))
}

/// `postcard::take_from_bytes` on a response that holds a `BehaviorConfig`: four
/// words.
#[verifier::external_body]
pub(crate) fn reply_behavior_config(payload: &[u8]) -> (r: Wired<BehaviorConfig>)
    ensures
        reads(payload@, r, BehaviorConfig::taken(envelope_body(payload@))),
{
    let (envelope, rest) = postcard::take_from_bytes::<Result<WireBehavior, WireError>>(payload)?;
    let config = envelope.map(|v| BehaviorConfig {
        combo_timeout_ms: v.combo_timeout_ms,
        oneshot_timeout_ms: v.oneshot_timeout_ms,
        tap_interval_ms: v.tap_interval_ms,
        tap_capslock_interval_ms: v.tap_capslock_interval_ms,
    });
    Ok((config, rest.len()))
}

/// `postcard::take_from_bytes` on a response that holds a `MatrixState`.
#[verifier::external_body]
pub(crate) fn reply_matrix_state(payload: &[u8]) -> (r: Wired<MatrixState>)
    ensures
        reads(payload@, r, matrix_state_of(envelope_body(payload@))),
{
    let (v, rest) = postcard::take_from_bytes::<Result<MatrixState, WireError>>(payload)?;
    Ok((v, rest.len()))
}

/// `postcard::take_from_bytes` on a response that holds a `BatteryStatus`: its tag and,
/// where there is a battery, the charge state and the level.
#[verifier::external_body]
pub(crate) fn reply_battery_status(payload: &[u8]) -> (r: Wired<BatteryStatus>)
    ensures
        reads(payload@, r, BatteryStatus::taken(envelope_body(payload@))),
{
    let (envelope, rest) = postcard::take_from_bytes::<Result<WireBattery, WireError>>(payload)?;
    let status = envelope.map(|v| match v {
        WireBattery::Unavailable => BatteryStatus::Unavailable,
        WireBattery::Available { charge_state, level } => BatteryStatus::Available {
            charge_state: match charge_state {
                WireCharge::Charging => ChargeState::Charging,
                WireCharge::Discharging => ChargeState::Discharging,
                WireCharge::Unknown => ChargeState::Unknown,
            },
            level,
        },
    });
    Ok((status, rest.len()))
}

/// `postcard::take_from_bytes` on a response that holds a `PeripheralStatus`: a
/// flag, then the battery.
#[verifier::external_body]
pub(crate) fn reply_peripheral_status(payload: &[u8]) -> (r: Wired<PeripheralStatus>)
    ensures
        reads(payload@, r, PeripheralStatus::taken(envelope_body(payload@))),
{
    let (envelope, rest) = postcard::take_from_bytes::<Result<WirePeripheral, WireError>>(payload)?;
    let status = envelope.map(|v| PeripheralStatus { connected: v.connected, battery: match v.battery {
        WireBattery::Unavailable => BatteryStatus::Unavailable,
        WireBattery::Available { charge_state, level } => BatteryStatus::Available {
            charge_state: match charge_state {
                WireCharge::Charging => ChargeState::Charging,
                WireCharge::Discharging => ChargeState::Discharging,
                WireCharge::Unknown => ChargeState::Unknown,
            },
            level,
        },
    } });
    Ok((status, rest.len()))
}

/// `postcard::take_from_bytes` on a response that holds a `LedIndicator`: its bits in one
/// byte.
#[verifier::external_body]
pub(crate) fn reply_led_indicator(payload: &[u8]) -> (r: Wired<LedIndicator>)
    ensures
        reads(payload@, r, LedIndicator::taken(envelope_body(payload@))),
{
    let (envelope, rest) = postcard::take_from_bytes::<Result<WireLeds, WireError>>(payload)?;
    let status = envelope.map(|v| LedIndicator { bits: v.into_bits() });
    Ok((status, rest.len()))
}

/// `postcard::take_from_bytes` on a response that holds a `ConnectionType`: its tag.
#[verifier::external_body]
pub(crate) fn reply_connection_type(payload: &[u8]) -> (r: Wired<ConnectionType>)
    ensures
        reads(payload@, r, ConnectionType::taken(envelope_body(payload@))),
{
    let (envelope, rest) = postcard::take_from_bytes::<Result<WireType, WireError>>(payload)?;
    let status = envelope.map(|v| match v {
        WireType::Usb => ConnectionType::Usb,
        WireType::Ble => ConnectionType::Ble,
    });
    Ok((status, rest.len()))
}

/// `postcard::take_from_bytes` on a response that holds a `ConnectionStatus`: the
/// USB state, the BLE status and the preferred type.
#[verifier::external_body]
pub(crate) fn reply_connection_status(payload: &[u8]) -> (r: Wired<ConnectionStatus>)
    ensures
        reads(payload@, r, ConnectionStatus::taken(envelope_body(payload@))),
{
    let (envelope, rest) = postcard::take_from_bytes::<Result<WireConnection, WireError>>(payload)?;
    let status = envelope.map(|v| ConnectionStatus {
        usb: match v.usb {
            WireUsb::Disabled => UsbState::Disabled, WireUsb::Enabled => UsbState::Enabled,
            WireUsb::Configured => UsbState::Configured, WireUsb::Suspended => UsbState::Suspended,
        },
        ble: BleStatus { profile: v.ble.profile, state: match v.ble.state {
            WireBle::Advertising => BleState::Advertising, WireBle::Connected => BleState::Connected,
            WireBle::Inactive => BleState::Inactive,
        } },
        preferred: match v.preferred {
            WireType::Usb => ConnectionType::Usb, WireType::Ble => ConnectionType::Ble,
        },
    });
    Ok((status, rest.len()))
}

/// `postcard::take_from_bytes` on a response that holds a `BleStatus`: the profile, then
/// the state.
#[verifier::external_body]
pub(crate) fn reply_ble_status(payload: &[u8]) -> (r: Wired<BleStatus>)
    ensures
        reads(payload@, r, BleStatus::taken(envelope_body(payload@))),
{
    let (envelope, rest) = postcard::take_from_bytes::<Result<WireBleStatus, WireError>>(payload)?;
    let status = envelope.map(|v| BleStatus {
        profile: v.profile,
        state: match v.state {
            WireBle::Advertising => BleState::Advertising,
            WireBle::Connected => BleState::Connected,
            WireBle::Inactive => BleState::Inactive,
        },
    });
    Ok((status, rest.len()))
}

/// `postcard::take_from_bytes` on a response that holds a `GetKeymapBulkResponse`.
#[verifier::external_body]
pub(crate) fn reply_keymap_page(payload: &[u8]) -> (r: Wired<GetKeymapBulkResponse>)
    ensures
        reads(payload@, r, keymap_page_of(envelope_body(payload@))),
{
    let (v, rest) = postcard::take_from_bytes::<Result<GetKeymapBulkResponse, WireError>>(payload)?;
    Ok((v, rest.len()))
}

/// `postcard::take_from_bytes` on a response that holds a `GetComboBulkResponse`.
#[verifier::external_body]
pub(crate) fn reply_combo_page(payload: &[u8]) -> (r: Wired<GetComboBulkResponse>)
    ensures
        reads(payload@, r, combo_page_of(envelope_body(payload@))),
{
    let (v, rest) = postcard::take_from_bytes::<Result<GetComboBulkResponse, WireError>>(payload)?;
    Ok((v, rest.len()))
}

/// `postcard::take_from_bytes` on a response that holds a `GetMorseBulkResponse`.
#[verifier::external_body]
pub(crate) fn reply_morse_page(payload: &[u8]) -> (r: Wired<GetMorseBulkResponse>)
    ensures
        reads(payload@, r, morse_page_of(envelope_body(payload@))),
{
    let (v, rest) = postcard::take_from_bytes::<Result<GetMorseBulkResponse, WireError>>(payload)?;
    Ok((v, rest.len()))
}

// Reading topics and requests, which have no envelope.

/// `postcard::take_from_bytes` on a `u8`; bytes left over are ignored.
#[verifier::external_body]
pub(crate) fn read_byte(payload: &[u8]) -> (r: Option<u8>)
    ensures
        r == value_of(take_byte(payload@)),
{
    postcard::take_from_bytes::<u8>(payload).ok().map(|(v, _)| v)
}

/// `postcard::take_from_bytes` on a `u16`; bytes left over are ignored.
#[verifier::external_body]
pub(crate) fn read_word(payload: &[u8]) -> (r: Option<u16>)
    ensures
        r == value_of(take_word(payload@)),
{
    postcard::take_from_bytes::<u16>(payload).ok().map(|(v, _)| v)
}

/// `postcard::take_from_bytes` on a `bool`; bytes left over are ignored.
#[verifier::external_body]
pub(crate) fn read_flag(payload: &[u8]) -> (r: Option<bool>)
    ensures
        r == value_of(take_flag(payload@)),
{
    postcard::take_from_bytes::<bool>(payload).ok().map(|(v, _)| v)
}

/// `postcard::take_from_bytes` on a `ConnectionStatus`; bytes left over are ignored.
#[verifier::external_body]
pub(crate) fn read_connection_status(payload: &[u8]) -> (r: Option<ConnectionStatus>)
    ensures
        r == value_of(ConnectionStatus::taken(payload@)),
{
    postcard::take_from_bytes::<WireConnection>(payload).ok().map(|(v, _)| ConnectionStatus {
        usb: match v.usb {
            WireUsb::Disabled => UsbState::Disabled, WireUsb::Enabled => UsbState::Enabled,
            WireUsb::Configured => UsbState::Configured, WireUsb::Suspended => UsbState::Suspended,
        },
        ble: BleStatus { profile: v.ble.profile, state: match v.ble.state {
            WireBle::Advertising => BleState::Advertising, WireBle::Connected => BleState::Connected,
            WireBle::Inactive => BleState::Inactive,
        } },
        preferred: match v.preferred {
            WireType::Usb => ConnectionType::Usb, WireType::Ble => ConnectionType::Ble,
        },
    })
}

/// `postcard::take_from_bytes` on a `LedIndicator`; bytes left over are ignored.
#[verifier::external_body]
pub(crate) fn read_led_indicator(payload: &[u8]) -> (r: Option<LedIndicator>)
    ensures
        r == value_of(LedIndicator::taken(payload@)),
{
    let (v, _) = postcard::take_from_bytes::<WireLeds>(payload).ok()?;
    Some(LedIndicator { bits: v.into_bits() })
}

/// `postcard::take_from_bytes` on a `BatteryStatus`; bytes left over are ignored.
#[verifier::external_body]
pub(crate) fn read_battery_status(payload: &[u8]) -> (r: Option<BatteryStatus>)
    ensures
        r == value_of(BatteryStatus::taken(payload@)),
{
    postcard::take_from_bytes::<WireBattery>(payload).ok().map(|(v, _)| match v {
        WireBattery::Unavailable => BatteryStatus::Unavailable,
        WireBattery::Available { charge_state, level } => BatteryStatus::Available {
            charge_state: match charge_state {
                WireCharge::Charging => ChargeState::Charging,
                WireCharge::Discharging => ChargeState::Discharging,
                WireCharge::Unknown => ChargeState::Unknown,
            },
            level,
        },
    })
}

/// What `postcard` reads for a `SetMorse` request: the slot, then the morse key.
pub open spec fn take_set_morse(bytes: Seq<u8>) -> Taken<(u8, Morse)> {
    match take_byte(bytes) {
        Ok((index, n)) => match morse_of(bytes.skip(n as int)) {
            Ok((config, m)) => Ok(((index, config), n + m)),
            Err(e) => Err(e),
        },
        Err(e) => Err(e),
    }
}

/// Whether reading what is written for a morse key gives the same key back, and
/// leaves nothing over. Not every key does: one that holds the invalid pattern 0
/// cannot be read, and one that holds a pattern twice is read with one of them.
pub open spec fn reads_back(config: Morse) -> bool {
    gives_back(morse_of(morse_bytes(config)), config, morse_bytes(config).len() as int)
}

/// `postcard::take_from_bytes` on a `SetMorseRequest`; bytes left over are
/// ignored. A key that was read holds neither pattern 0 nor a pattern twice, so
/// it reads back.
#[verifier::external_body]
pub(crate) fn read_set_morse(payload: &[u8]) -> (r: Option<(u8, Morse)>)
    ensures
        r == value_of(take_set_morse(payload@)),
        r matches Some((_, config)) ==> reads_back(config),
{
    postcard::take_from_bytes::<SetMorseRequest>(payload).ok().map(|(v, _)| (v.index, v.config))
}

// Writing values.

/// What `postcard::to_allocvec` writes for a `KeyAction`.
pub uninterp spec fn key_action_bytes(v: KeyAction) -> Seq<u8>;

/// What `postcard::to_allocvec` writes for a `EncoderAction`.
pub uninterp spec fn encoder_action_bytes(v: EncoderAction) -> Seq<u8>;

/// What `postcard::to_allocvec` writes for a `Combo`.
pub uninterp spec fn combo_bytes(v: Combo) -> Seq<u8>;

/// What `postcard::to_allocvec` writes for a `Fork`.
pub uninterp spec fn fork_bytes(v: Fork) -> Seq<u8>;

/// What `postcard::to_allocvec` writes for a `Morse`.
pub uninterp spec fn morse_bytes(v: Morse) -> Seq<u8>;

/// What `postcard::to_allocvec` writes for a `MacroData`.
pub uninterp spec fn macro_data_bytes(v: MacroData) -> Seq<u8>;

/// What `postcard::to_allocvec` writes for a `SetKeymapBulkRequest`.
pub uninterp spec fn set_keymap_bulk_bytes(v: SetKeymapBulkRequest) -> Seq<u8>;

/// What `postcard::to_allocvec` writes for a `SetComboBulkRequest`.
pub uninterp spec fn set_combo_bulk_bytes(v: SetComboBulkRequest) -> Seq<u8>;

/// What `postcard::to_allocvec` writes for a `SetMorseBulkRequest`.
pub uninterp spec fn set_morse_bulk_bytes(v: SetMorseBulkRequest) -> Seq<u8>;

/// What encoding a payload gives.
pub type Encoded = Result<Vec<u8>, postcard::Error>;

/// Whether encoding succeeded with these bytes.
pub open spec fn encodes(r: Encoded, bytes: Seq<u8>) -> bool {
    r matches Ok(v) && v@ == bytes
}

/// Whether `len` bytes were read, as this value.
pub open spec fn gives_back<V>(taken: Taken<V>, value: V, len: int) -> bool {
    taken matches Ok((got, n)) && got == value && n == len
}

// Writing requests.

/// `postcard::to_allocvec` on `()`: no bytes.
#[verifier::external_body]
pub(crate) fn write_unit() -> (r: Encoded)
    ensures
        encodes(r, seq![]),
{
    postcard::to_allocvec(&())
}

/// `postcard::to_allocvec` on a `u8`.
#[verifier::external_body]
pub(crate) fn write_byte(v: u8) -> (r: Encoded)
    ensures
        encodes(r, seq![v]),
{
    postcard::to_allocvec(&v)
}

/// `postcard::to_allocvec` on two `u8` fields.
#[verifier::external_body]
pub(crate) fn write_pair(a: u8, b: u8) -> (r: Encoded)
    ensures
        encodes(r, seq![a, b]),
{
    postcard::to_allocvec(&(a, b))
}

/// `postcard::to_allocvec` on four `u8` fields.
#[verifier::external_body]
pub(crate) fn write_quad(a: u8, b: u8, c: u8, d: u8) -> (r: Encoded)
    ensures
        encodes(r, seq![a, b, c, d]),
{
    postcard::to_allocvec(&(a, b, c, d))
}

/// `postcard::to_allocvec` on a `KeyPosition`: three bytes.
#[verifier::external_body]
pub(crate) fn write_key_position(layer: u8, row: u8, col: u8) -> (r: Encoded)
    ensures
        encodes(r, seq![layer, row, col]),
{
    postcard::to_allocvec(&KeyPosition { layer, row, col })
}

/// `postcard::to_allocvec` on a `SetKeyRequest`: the position, then the action.
#[verifier::external_body]
pub(crate) fn write_set_key(layer: u8, row: u8, col: u8, action: KeyAction) -> (r: Encoded)
    ensures
        encodes(r, seq![layer, row, col] + key_action_bytes(action)),
{
    let position = KeyPosition { layer, row, col };
    postcard::to_allocvec(&SetKeyRequest { position, action })
}

/// `postcard::to_allocvec` on a `GetEncoderRequest`: two bytes.
#[verifier::external_body]
pub(crate) fn write_get_encoder(encoder_id: u8, layer: u8) -> (r: Encoded)
    ensures
        encodes(r, seq![encoder_id, layer]),
{
    postcard::to_allocvec(&GetEncoderRequest { encoder_id, layer })
}

/// `postcard::to_allocvec` on a `SetEncoderRequest`: two bytes, then the action.
#[verifier::external_body]
pub(crate) fn write_set_encoder(encoder_id: u8, layer: u8, action: EncoderAction) -> (r: Encoded)
    ensures
        encodes(r, seq![encoder_id, layer] + encoder_action_bytes(action)),
{
    postcard::to_allocvec(&SetEncoderRequest { encoder_id, layer, action })
}

/// `postcard::to_allocvec` on a `SetComboRequest`: the slot, then the combo.
#[verifier::external_body]
pub(crate) fn write_set_combo(index: u8, config: Combo) -> (r: Encoded)
    ensures
        encodes(r, seq![index] + combo_bytes(config)),
{
    postcard::to_allocvec(&SetComboRequest { index, config })
}

/// `postcard::to_allocvec` on a `SetForkRequest`: the slot, then the fork.
#[verifier::external_body]
pub(crate) fn write_set_fork(index: u8, config: Fork) -> (r: Encoded)
    ensures
        encodes(r, seq![index] + fork_bytes(config)),
{
    postcard::to_allocvec(&SetForkRequest { index, config })
}

/// `postcard::to_allocvec` on a `SetMorseRequest`: the slot, then the morse key.
#[verifier::external_body]
pub(crate) fn write_set_morse(index: u8, config: Morse) -> (r: Encoded)
    ensures
        encodes(r, seq![index] + morse_bytes(config)),
{
    postcard::to_allocvec(&SetMorseRequest { index, config })
}

/// `postcard::to_allocvec` on a `u8` and a `u16`.
#[verifier::external_body]
pub(crate) fn write_get_macro(index: u8, offset: u16) -> (r: Encoded)
    ensures
        encodes(r, seq![index] + varint(offset as nat)),
{
    postcard::to_allocvec(&(index, offset))
}

/// `postcard::to_allocvec` on a `u8`, a `u16` and a macro chunk.
#[verifier::external_body]
pub(crate) fn write_set_macro(index: u8, offset: u16, data: MacroData) -> (r: Encoded)
    ensures
        encodes(r, seq![index] + varint(offset as nat) + macro_data_bytes(data)),
{
    postcard::to_allocvec(&(index, offset, data))
}

/// `postcard::to_allocvec` on a `BehaviorConfig`: four words.
#[verifier::external_body]
pub(crate) fn write_behavior_config(config: BehaviorConfig) -> (r: Encoded)
    ensures
        encodes(r, config.bytes()),
{
    postcard::to_allocvec(&WireBehavior {
        combo_timeout_ms: config.combo_timeout_ms,
        oneshot_timeout_ms: config.oneshot_timeout_ms,
        tap_interval_ms: config.tap_interval_ms,
        tap_capslock_interval_ms: config.tap_capslock_interval_ms,
    })
}

/// `postcard::to_allocvec` on a `StorageResetMode`: its enum tag.
#[verifier::external_body]
pub(crate) fn write_storage_reset_mode(mode: StorageResetMode) -> (r: Encoded)
    ensures
        encodes(r, mode.bytes()),
{
    postcard::to_allocvec(&match mode {
        StorageResetMode::Full => WireResetMode::Full,
        StorageResetMode::LayoutOnly => WireResetMode::LayoutOnly,
    })
}

/// `postcard::to_allocvec` on a `SetKeymapBulkRequest`.
#[verifier::external_body]
pub(crate) fn write_set_keymap_bulk(request: SetKeymapBulkRequest) -> (r: Encoded)
    ensures
        encodes(r, set_keymap_bulk_bytes(request)),
{
    postcard::to_allocvec(&request)
}

/// `postcard::to_allocvec` on a `SetComboBulkRequest`.
#[verifier::external_body]
pub(crate) fn write_set_combo_bulk(request: SetComboBulkRequest) -> (r: Encoded)
    ensures
        encodes(r, set_combo_bulk_bytes(request)),
{
    postcard::to_allocvec(&request)
}

/// `postcard::to_allocvec` on a `SetMorseBulkRequest`.
#[verifier::external_body]
pub(crate) fn write_set_morse_bulk(request: SetMorseBulkRequest) -> (r: Encoded)
    ensures
        encodes(r, set_morse_bulk_bytes(request)),
{
    postcard::to_allocvec(&request)
}

// Writing responses.

/// `postcard::to_allocvec` on an accepting response that holds nothing.
#[verifier::external_body]
pub(crate) fn accept_unit() -> (r: Encoded)
    ensures
        encodes(r, put_accept(seq![])),
{
    postcard::to_allocvec(&Ok::<(), WireError>(()))
}

/// `postcard::to_allocvec` on an accepting response that holds a `u8`.
#[verifier::external_body]
pub(crate) fn accept_byte(v: u8) -> (r: Encoded)
    ensures
        encodes(r, put_accept(seq![v])),
{
    postcard::to_allocvec(&Ok::<u8, WireError>(v))
}

/// `postcard::to_allocvec` on an accepting response that holds a `u16`.
#[verifier::external_body]
pub(crate) fn accept_word(v: u16) -> (r: Encoded)
    ensures
        encodes(r, put_accept(varint(v as nat))),
{
    postcard::to_allocvec(&Ok::<u16, WireError>(v))
}

/// `postcard::to_allocvec` on an accepting response that holds a `bool`.
#[verifier::external_body]
pub(crate) fn accept_flag(v: bool) -> (r: Encoded)
    ensures
        encodes(r, put_accept(seq![v as u8])),
{
    postcard::to_allocvec(&Ok::<bool, WireError>(v))
}

/// `postcard::to_allocvec` on an accepting response that holds a `BatteryStatus`.
#[verifier::external_body]
pub(crate) fn accept_battery_status(v: BatteryStatus) -> (r: Encoded)
    ensures
        encodes(r, put_accept(v.bytes())),
{
    let battery = match v {
        BatteryStatus::Unavailable => WireBattery::Unavailable,
        BatteryStatus::Available { charge_state, level } => WireBattery::Available {
            charge_state: match charge_state {
                ChargeState::Charging => WireCharge::Charging,
                ChargeState::Discharging => WireCharge::Discharging,
                ChargeState::Unknown => WireCharge::Unknown,
            },
            level,
        },
    };
    postcard::to_allocvec(&Ok::<WireBattery, WireError>(battery))
}

/// `postcard::to_allocvec` on an accepting response that holds a
/// `PeripheralStatus`.
#[verifier::external_body]
pub(crate) fn accept_peripheral_status(v: PeripheralStatus) -> (r: Encoded)
    ensures
        encodes(r, put_accept(v.bytes())),
{
    let battery = match v.battery {
        BatteryStatus::Unavailable => WireBattery::Unavailable,
        BatteryStatus::Available { charge_state, level } => WireBattery::Available {
            charge_state: match charge_state {
                ChargeState::Charging => WireCharge::Charging,
                ChargeState::Discharging => WireCharge::Discharging,
                ChargeState::Unknown => WireCharge::Unknown,
            },
            level,
        },
    };
    let connected = v.connected;
    postcard::to_allocvec(&Ok::<WirePeripheral, WireError>(WirePeripheral { connected, battery }))
}

/// `postcard::to_allocvec` on an accepting response that holds a `LedIndicator`.
#[verifier::external_body]
pub(crate) fn accept_led_indicator(v: LedIndicator) -> (r: Encoded)
    ensures
        encodes(r, put_accept(v.bytes())),
{
    postcard::to_allocvec(&Ok::<WireLeds, WireError>(WireLeds::from_bits(v.bits)))
}

/// `postcard::to_allocvec` on an accepting response that holds a `Morse`.
#[verifier::external_body]
pub(crate) fn accept_morse(v: &Morse) -> (r: Encoded)
    ensures
        encodes(r, put_accept(morse_bytes(*v))),
{
    postcard::to_allocvec(&Ok::<&Morse, WireError>(v))
}

/// `heapless::Vec::from_array` and `postcard::to_allocvec` on an accepting
/// response that holds a `MatrixState`: the bitmap's length, then its bytes.
/// Reading its body gives a state with the same bitmap, and leaves nothing over.
#[verifier::external_body]
pub(crate) fn accept_matrix_state(bitmap: [u8; 32]) -> (r: Encoded)
    ensures
        encodes(r, put_accept(seq![32u8] + bitmap@)),
        r matches Ok(bytes) ==> (matrix_state_of(bytes@.skip(1)) matches Ok((state, n))
            && pressed_bitmap_of(state) == bitmap@ && n == bytes@.len() - 1),
{
    let pressed_bitmap = heapless::Vec::from_array(bitmap);
    postcard::to_allocvec(&Ok::<MatrixState, WireError>(MatrixState { pressed_bitmap }))
}

} // verus!
