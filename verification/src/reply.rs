//! Response values: how each is read out of a reply's payload.
use crate::codec::{
    agrees, combo_of, combo_page_of, encoder_action_of, fork_of, key_action_of, keymap_page_of,
    macro_data_of, matrix_state_of, morse_of, morse_page_of, reply_battery_status,
    reply_behavior_config, reply_ble_status, reply_byte, reply_capabilities, reply_combo,
    reply_combo_page, reply_connection_status, reply_connection_type, reply_encoder_action,
    reply_flag, reply_fork, reply_key_action, reply_keymap_page, reply_led_indicator,
    reply_macro_data, reply_matrix_state, reply_morse, reply_morse_page,
    reply_peripheral_status, reply_unit, reply_version, reply_word, unwire, Decoded,
};
use crate::payload::{BehaviorConfig, DeviceCapabilities, ProtocolVersion};
use crate::status::{
    BatteryStatus, BleStatus, ConnectionStatus, ConnectionType, LedIndicator, PeripheralStatus,
};
use crate::wire::{
    envelope_body, take_byte, take_envelope, take_flag, take_unit, take_word, Taken,
};
use rmk_types::action::{EncoderAction, KeyAction};
use rmk_types::combo::Combo;
use rmk_types::fork::Fork;
use rmk_types::morse::Morse;
use rmk_types::protocol::rynk::{
    GetComboBulkResponse, GetKeymapBulkResponse, GetMorseBulkResponse, MacroData,
    MatrixState,
};
use vstd::prelude::*;

verus! {

/// A value that a device can answer a request with.
pub trait Reply: Sized {
    /// The value at the front of a response body.
    spec fn body(bytes: Seq<u8>) -> Taken<Self>;

    /// Decodes a reply's payload: the response envelope around the value.
    fn decode(payload: &Vec<u8>) -> (decoded: Decoded<Self>)
        ensures
            agrees(
                payload@,
                decoded,
                take_envelope(payload@, Self::body(envelope_body(payload@))),
            ),
    ;
}

impl Reply for () {
    open spec fn body(bytes: Seq<u8>) -> Taken<()> {
        take_unit(bytes)
    }

    fn decode(payload: &Vec<u8>) -> (decoded: Decoded<()>) {
        unwire(reply_unit(payload.as_slice()))
    }
}

impl Reply for u8 {
    open spec fn body(bytes: Seq<u8>) -> Taken<u8> {
        take_byte(bytes)
    }

    fn decode(payload: &Vec<u8>) -> (decoded: Decoded<u8>) {
        unwire(reply_byte(payload.as_slice()))
    }
}

impl Reply for u16 {
    open spec fn body(bytes: Seq<u8>) -> Taken<u16> {
        take_word(bytes)
    }

    fn decode(payload: &Vec<u8>) -> (decoded: Decoded<u16>) {
        unwire(reply_word(payload.as_slice()))
    }
}

impl Reply for bool {
    open spec fn body(bytes: Seq<u8>) -> Taken<bool> {
        take_flag(bytes)
    }

    fn decode(payload: &Vec<u8>) -> (decoded: Decoded<bool>) {
        unwire(reply_flag(payload.as_slice()))
    }
}

impl Reply for ProtocolVersion {
    open spec fn body(bytes: Seq<u8>) -> Taken<ProtocolVersion> {
        ProtocolVersion::taken(bytes)
    }

    fn decode(payload: &Vec<u8>) -> (decoded: Decoded<ProtocolVersion>) {
        unwire(reply_version(payload.as_slice()))
    }
}

impl Reply for DeviceCapabilities {
    open spec fn body(bytes: Seq<u8>) -> Taken<DeviceCapabilities> {
        DeviceCapabilities::taken(bytes)
    }

    fn decode(payload: &Vec<u8>) -> (decoded: Decoded<DeviceCapabilities>) {
        unwire(reply_capabilities(payload.as_slice()))
    }
}

impl Reply for KeyAction {
    open spec fn body(bytes: Seq<u8>) -> Taken<KeyAction> {
        key_action_of(bytes)
    }

    fn decode(payload: &Vec<u8>) -> (decoded: Decoded<KeyAction>) {
        unwire(reply_key_action(payload.as_slice()))
    }
}

impl Reply for EncoderAction {
    open spec fn body(bytes: Seq<u8>) -> Taken<EncoderAction> {
        encoder_action_of(bytes)
    }

    fn decode(payload: &Vec<u8>) -> (decoded: Decoded<EncoderAction>) {
        unwire(reply_encoder_action(payload.as_slice()))
    }
}

impl Reply for Combo {
    open spec fn body(bytes: Seq<u8>) -> Taken<Combo> {
        combo_of(bytes)
    }

    fn decode(payload: &Vec<u8>) -> (decoded: Decoded<Combo>) {
        unwire(reply_combo(payload.as_slice()))
    }
}

impl Reply for Fork {
    open spec fn body(bytes: Seq<u8>) -> Taken<Fork> {
        fork_of(bytes)
    }

    fn decode(payload: &Vec<u8>) -> (decoded: Decoded<Fork>) {
        unwire(reply_fork(payload.as_slice()))
    }
}

impl Reply for Morse {
    open spec fn body(bytes: Seq<u8>) -> Taken<Morse> {
        morse_of(bytes)
    }

    fn decode(payload: &Vec<u8>) -> (decoded: Decoded<Morse>) {
        unwire(reply_morse(payload.as_slice()))
    }
}

impl Reply for MacroData {
    open spec fn body(bytes: Seq<u8>) -> Taken<MacroData> {
        macro_data_of(bytes)
    }

    fn decode(payload: &Vec<u8>) -> (decoded: Decoded<MacroData>) {
        unwire(reply_macro_data(payload.as_slice()))
    }
}

impl Reply for BehaviorConfig {
    open spec fn body(bytes: Seq<u8>) -> Taken<BehaviorConfig> {
        BehaviorConfig::taken(bytes)
    }

    fn decode(payload: &Vec<u8>) -> (decoded: Decoded<BehaviorConfig>) {
        unwire(reply_behavior_config(payload.as_slice()))
    }
}

impl Reply for MatrixState {
    open spec fn body(bytes: Seq<u8>) -> Taken<MatrixState> {
        matrix_state_of(bytes)
    }

    fn decode(payload: &Vec<u8>) -> (decoded: Decoded<MatrixState>) {
        unwire(reply_matrix_state(payload.as_slice()))
    }
}

impl Reply for BatteryStatus {
    open spec fn body(bytes: Seq<u8>) -> Taken<BatteryStatus> {
        BatteryStatus::taken(bytes)
    }

    fn decode(payload: &Vec<u8>) -> (decoded: Decoded<BatteryStatus>) {
        unwire(reply_battery_status(payload.as_slice()))
    }
}

impl Reply for PeripheralStatus {
    open spec fn body(bytes: Seq<u8>) -> Taken<PeripheralStatus> {
        PeripheralStatus::taken(bytes)
    }

    fn decode(payload: &Vec<u8>) -> (decoded: Decoded<PeripheralStatus>) {
        unwire(reply_peripheral_status(payload.as_slice()))
    }
}

impl Reply for LedIndicator {
    open spec fn body(bytes: Seq<u8>) -> Taken<LedIndicator> {
        LedIndicator::taken(bytes)
    }

    fn decode(payload: &Vec<u8>) -> (decoded: Decoded<LedIndicator>) {
        unwire(reply_led_indicator(payload.as_slice()))
    }
}

impl Reply for ConnectionType {
    open spec fn body(bytes: Seq<u8>) -> Taken<ConnectionType> {
        ConnectionType::taken(bytes)
    }

    fn decode(payload: &Vec<u8>) -> (decoded: Decoded<ConnectionType>) {
        unwire(reply_connection_type(payload.as_slice()))
    }
}

impl Reply for ConnectionStatus {
    open spec fn body(bytes: Seq<u8>) -> Taken<ConnectionStatus> {
        ConnectionStatus::taken(bytes)
    }

    fn decode(payload: &Vec<u8>) -> (decoded: Decoded<ConnectionStatus>) {
        unwire(reply_connection_status(payload.as_slice()))
    }
}

impl Reply for BleStatus {
    open spec fn body(bytes: Seq<u8>) -> Taken<BleStatus> {
        BleStatus::taken(bytes)
    }

    fn decode(payload: &Vec<u8>) -> (decoded: Decoded<BleStatus>) {
        unwire(reply_ble_status(payload.as_slice()))
    }
}

impl Reply for GetKeymapBulkResponse {
    open spec fn body(bytes: Seq<u8>) -> Taken<GetKeymapBulkResponse> {
        keymap_page_of(bytes)
    }

    fn decode(payload: &Vec<u8>) -> (decoded: Decoded<GetKeymapBulkResponse>) {
        unwire(reply_keymap_page(payload.as_slice()))
    }
}

impl Reply for GetComboBulkResponse {
    open spec fn body(bytes: Seq<u8>) -> Taken<GetComboBulkResponse> {
        combo_page_of(bytes)
    }

    fn decode(payload: &Vec<u8>) -> (decoded: Decoded<GetComboBulkResponse>) {
        unwire(reply_combo_page(payload.as_slice()))
    }
}

impl Reply for GetMorseBulkResponse {
    open spec fn body(bytes: Seq<u8>) -> Taken<GetMorseBulkResponse> {
        morse_page_of(bytes)
    }

    fn decode(payload: &Vec<u8>) -> (decoded: Decoded<GetMorseBulkResponse>) {
        unwire(reply_morse_page(payload.as_slice()))
    }
}

} // verus!
