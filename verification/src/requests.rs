//! The typed requests. Each hands out the frame to send and the type of its
//! reply; a device rejection surfaces as `RequestError::Rejected`.
use crate::client::{asks, Client, ClientView, Request};
use crate::codec::{
    combo_bytes, encoder_action_bytes, fork_bytes, gives_back, key_action_bytes,
    macro_data_bytes, morse_bytes, reads_back, set_combo_bulk_bytes, set_keymap_bulk_bytes,
    set_morse_bulk_bytes, take_set_morse, write_behavior_config, write_byte, write_get_encoder,
    write_get_macro, write_key_position, write_pair, write_quad, write_set_combo,
    write_set_combo_bulk, write_set_encoder, write_set_fork, write_set_key,
    write_set_keymap_bulk, write_set_macro, write_set_morse, write_set_morse_bulk,
    write_storage_reset_mode, write_unit,
};
use crate::command::{
    Cmd, BOOTLOADER_JUMP, CLEAR_BLE_PROFILE, GET_BATTERY_STATUS, GET_BEHAVIOR_CONFIG,
    GET_BLE_STATUS, GET_CAPABILITIES, GET_COMBO, GET_COMBO_BULK, GET_CONNECTION_STATUS,
    GET_CONNECTION_TYPE, GET_CURRENT_LAYER, GET_DEFAULT_LAYER, GET_ENCODER_ACTION, GET_FORK,
    GET_KEYMAP_BULK, GET_KEY_ACTION, GET_LED_INDICATOR, GET_MACRO, GET_MATRIX_STATE, GET_MORSE,
    GET_MORSE_BULK, GET_PERIPHERAL_STATUS, GET_SLEEP_STATE, GET_VERSION, GET_WPM, REBOOT,
    SET_BEHAVIOR_CONFIG, SET_COMBO, SET_COMBO_BULK, SET_DEFAULT_LAYER, SET_ENCODER_ACTION,
    SET_FORK, SET_KEYMAP_BULK, SET_KEY_ACTION, SET_MACRO, SET_MORSE, SET_MORSE_BULK,
    STORAGE_RESET, SWITCH_BLE_PROFILE,
};
use crate::error::RequestError;
use crate::payload::{BehaviorConfig, DeviceCapabilities, ProtocolVersion, StorageResetMode};
use crate::status::{
    BatteryStatus, BleStatus, ConnectionStatus, ConnectionType, LedIndicator, PeripheralStatus,
};
use crate::wire::varint;
use rmk_types::action::{EncoderAction, KeyAction};
use rmk_types::combo::Combo;
use rmk_types::fork::Fork;
use rmk_types::morse::Morse;
use rmk_types::protocol::rynk::{
    GetComboBulkResponse, GetKeymapBulkResponse, GetMorseBulkResponse, MacroData, MatrixState,
    SetComboBulkRequest, SetKeymapBulkRequest, SetMorseBulkRequest,
};
use vstd::prelude::*;

verus! {

/// Whether a client asked for `cmd` where the device has the feature; without
/// it nothing changes, and the error says why.
pub open spec fn asks_where<R>(
    has_feature: bool,
    reason: &'static str,
    before: ClientView,
    after: ClientView,
    r: Result<Request<R>, RequestError>,
    cmd: u16,
    payload: Seq<u8>,
) -> bool {
    if has_feature {
        asks(before, after, r, cmd, payload)
    } else {
        &&& after == before
        &&& r matches Err(e) && e == RequestError::Unsupported(Cmd { raw: cmd }, reason)
    }
}

/// Whether a client went from `before` to `after` by encoding a frame for `cmd`
/// without a payload, that no reply is waited for.
pub open spec fn notifies(
    before: ClientView,
    after: ClientView,
    r: Result<Vec<u8>, RequestError>,
    cmd: u16,
) -> bool {
    let (view, want) = before.notify(Cmd { raw: cmd }, Some(seq![]));
    &&& after == view
    &&& match want {
        Ok(frame) => r matches Ok(bytes) && bytes@ == frame.bytes(),
        Err(e) => r matches Err(got) && got == e,
    }
}

impl ClientView {
    /// Whether the device takes bulk transfers.
    pub open spec fn bulk(self) -> bool {
        self.caps matches Some(caps) && caps.bulk_transfer_supported
    }

    /// Whether the firmware has BLE.
    pub open spec fn ble(self) -> bool {
        self.caps matches Some(caps) && caps.ble_enabled
    }

    /// Whether the device is a split BLE keyboard.
    pub open spec fn split_ble(self) -> bool {
        self.caps matches Some(caps) && caps.is_split && caps.ble_enabled
    }
}

impl Client {
    /// Refuses a bulk command locally where the device takes none.
    fn require_bulk_transfer(&self, cmd: Cmd) -> (r: Result<(), RequestError>)
        requires
            self@.caps is Some,
        ensures
            match r {
                Ok(_) => self@.bulk(),
                Err(e) => !self@.bulk() && e == RequestError::Unsupported(
                    cmd,
                    "bulk transfer not supported",
                ),
            },
    {
        self.require_capability(
            self.capabilities().bulk_transfer_supported,
            cmd,
            "bulk transfer not supported",
        )
    }

    // System.

    /// Reads the firmware's protocol version.
    pub fn get_version(&mut self) -> (r: Result<Request<ProtocolVersion>, RequestError>)
        ensures
            asks(old(self)@, final(self)@, r, GET_VERSION, seq![]),
    {
        self.request_raw(Cmd { raw: GET_VERSION }, write_unit())
    }

    /// Re-reads the firmware's capability set. Prefer [`Client::capabilities`] for
    /// the snapshot taken at connect time.
    pub fn get_capabilities(&mut self) -> (r: Result<Request<DeviceCapabilities>, RequestError>)
        ensures
            asks(old(self)@, final(self)@, r, GET_CAPABILITIES, seq![]),
    {
        self.request_raw(Cmd { raw: GET_CAPABILITIES }, write_unit())
    }

    /// Reboots the device; fire-and-forget: the firmware resets before it can
    /// reply.
    pub fn reboot(&mut self) -> (r: Result<Vec<u8>, RequestError>)
        ensures
            notifies(old(self)@, final(self)@, r, REBOOT),
    {
        self.send_no_reply(Cmd { raw: REBOOT }, write_unit())
    }

    /// Jumps to the bootloader (DFU mode); fire-and-forget.
    pub fn bootloader_jump(&mut self) -> (r: Result<Vec<u8>, RequestError>)
        ensures
            notifies(old(self)@, final(self)@, r, BOOTLOADER_JUMP),
    {
        self.send_no_reply(Cmd { raw: BOOTLOADER_JUMP }, write_unit())
    }

    /// Resets persistent storage.
    pub fn storage_reset(&mut self, mode: StorageResetMode) -> (r: Result<
        Request<()>,
        RequestError,
    >)
        ensures
            asks(old(self)@, final(self)@, r, STORAGE_RESET, mode.bytes()),
    {
        self.request_raw(Cmd { raw: STORAGE_RESET }, write_storage_reset_mode(mode))
    }

    // Keymap.

    /// Reads one key's action.
    pub fn get_key(&mut self, layer: u8, row: u8, col: u8) -> (r: Result<
        Request<KeyAction>,
        RequestError,
    >)
        ensures
            asks(old(self)@, final(self)@, r, GET_KEY_ACTION, seq![layer, row, col]),
    {
        self.request_raw(Cmd { raw: GET_KEY_ACTION }, write_key_position(layer, row, col))
    }

    /// Writes one key's action and persists it to flash.
    pub fn set_key(&mut self, layer: u8, row: u8, col: u8, action: KeyAction) -> (r: Result<
        Request<()>,
        RequestError,
    >)
        ensures
            asks(
                old(self)@,
                final(self)@,
                r,
                SET_KEY_ACTION,
                seq![layer, row, col] + key_action_bytes(action),
            ),
    {
        self.request_raw(Cmd { raw: SET_KEY_ACTION }, write_set_key(layer, row, col, action))
    }

    /// Reads the currently selected default layer index.
    pub fn get_default_layer(&mut self) -> (r: Result<Request<u8>, RequestError>)
        ensures
            asks(old(self)@, final(self)@, r, GET_DEFAULT_LAYER, seq![]),
    {
        self.request_raw(Cmd { raw: GET_DEFAULT_LAYER }, write_unit())
    }

    /// Sets the default layer.
    pub fn set_default_layer(&mut self, layer: u8) -> (r: Result<Request<()>, RequestError>)
        ensures
            asks(old(self)@, final(self)@, r, SET_DEFAULT_LAYER, seq![layer]),
    {
        self.request_raw(Cmd { raw: SET_DEFAULT_LAYER }, write_byte(layer))
    }

    /// Reads both rotation actions for one encoder on one layer.
    pub fn get_encoder(&mut self, encoder_id: u8, layer: u8) -> (r: Result<
        Request<EncoderAction>,
        RequestError,
    >)
        ensures
            asks(old(self)@, final(self)@, r, GET_ENCODER_ACTION, seq![encoder_id, layer]),
    {
        self.request_raw(Cmd { raw: GET_ENCODER_ACTION }, write_get_encoder(encoder_id, layer))
    }

    /// Sets both rotation actions for one encoder on one layer.
    pub fn set_encoder(&mut self, encoder_id: u8, layer: u8, action: EncoderAction) -> (r: Result<
        Request<()>,
        RequestError,
    >)
        ensures
            asks(
                old(self)@,
                final(self)@,
                r,
                SET_ENCODER_ACTION,
                seq![encoder_id, layer] + encoder_action_bytes(action),
            ),
    {
        self.request_raw(
            Cmd { raw: SET_ENCODER_ACTION },
            write_set_encoder(encoder_id, layer, action),
        )
    }

    /// Reads multiple key actions starting from one key position. Bulk firmware
    /// only; refused without touching the wire otherwise.
    pub fn get_keymap_bulk(
        &mut self,
        layer: u8,
        start_row: u8,
        start_col: u8,
        count: u8,
    ) -> (r: Result<Request<GetKeymapBulkResponse>, RequestError>)
        requires
            old(self)@.caps is Some,
        ensures
            asks_where(
                old(self)@.bulk(),
                "bulk transfer not supported",
                old(self)@,
                final(self)@,
                r,
                GET_KEYMAP_BULK,
                seq![layer, start_row, start_col, count],
            ),
            (r matches Err(RequestError::Unsupported(_, _))) <==> !old(self)@.caps->0.bulk_transfer_supported,
    {
        match self.require_bulk_transfer(Cmd { raw: GET_KEYMAP_BULK }) {
            Ok(_) => self.request_raw(
                Cmd { raw: GET_KEYMAP_BULK },
                write_quad(layer, start_row, start_col, count),
            ),
            Err(e) => Err(e),
        }
    }

    /// Writes multiple key actions starting from one key position. Bulk firmware
    /// only; refused without touching the wire otherwise.
    pub fn set_keymap_bulk(&mut self, request: SetKeymapBulkRequest) -> (r: Result<
        Request<()>,
        RequestError,
    >)
        requires
            old(self)@.caps is Some,
        ensures
            asks_where(
                old(self)@.bulk(),
                "bulk transfer not supported",
                old(self)@,
                final(self)@,
                r,
                SET_KEYMAP_BULK,
                set_keymap_bulk_bytes(request),
            ),
            (r matches Err(RequestError::Unsupported(_, _))) <==> !old(self)@.caps->0.bulk_transfer_supported,
    {
        match self.require_bulk_transfer(Cmd { raw: SET_KEYMAP_BULK }) {
            Ok(_) => self.request_raw(Cmd { raw: SET_KEYMAP_BULK }, write_set_keymap_bulk(request)),
            Err(e) => Err(e),
        }
    }

    // Combos, forks, morse keys and macros.

    /// Reads one combo entry by index.
    pub fn get_combo(&mut self, index: u8) -> (r: Result<Request<Combo>, RequestError>)
        ensures
            asks(old(self)@, final(self)@, r, GET_COMBO, seq![index]),
    {
        self.request_raw(Cmd { raw: GET_COMBO }, write_byte(index))
    }

    /// Writes one combo entry by index.
    pub fn set_combo(&mut self, index: u8, config: Combo) -> (r: Result<Request<()>, RequestError>)
        ensures
            asks(old(self)@, final(self)@, r, SET_COMBO, seq![index] + combo_bytes(config)),
    {
        self.request_raw(Cmd { raw: SET_COMBO }, write_set_combo(index, config))
    }

    /// Reads multiple combo entries. Bulk firmware only; refused without touching
    /// the wire otherwise.
    pub fn get_combo_bulk(&mut self, start_index: u8, count: u8) -> (r: Result<
        Request<GetComboBulkResponse>,
        RequestError,
    >)
        requires
            old(self)@.caps is Some,
        ensures
            asks_where(
                old(self)@.bulk(),
                "bulk transfer not supported",
                old(self)@,
                final(self)@,
                r,
                GET_COMBO_BULK,
                seq![start_index, count],
            ),
            (r matches Err(RequestError::Unsupported(_, _))) <==> !old(self)@.caps->0.bulk_transfer_supported,
    {
        match self.require_bulk_transfer(Cmd { raw: GET_COMBO_BULK }) {
            Ok(_) => self.request_raw(Cmd { raw: GET_COMBO_BULK }, write_pair(start_index, count)),
            Err(e) => Err(e),
        }
    }

    /// Writes multiple combo entries. Bulk firmware only; refused without touching
    /// the wire otherwise.
    pub fn set_combo_bulk(&mut self, request: SetComboBulkRequest) -> (r: Result<
        Request<()>,
        RequestError,
    >)
        requires
            old(self)@.caps is Some,
        ensures
            asks_where(
                old(self)@.bulk(),
                "bulk transfer not supported",
                old(self)@,
                final(self)@,
                r,
                SET_COMBO_BULK,
                set_combo_bulk_bytes(request),
            ),
            (r matches Err(RequestError::Unsupported(_, _))) <==> !old(self)@.caps->0.bulk_transfer_supported,
    {
        match self.require_bulk_transfer(Cmd { raw: SET_COMBO_BULK }) {
            Ok(_) => self.request_raw(Cmd { raw: SET_COMBO_BULK }, write_set_combo_bulk(request)),
            Err(e) => Err(e),
        }
    }

    /// Reads one fork entry by index.
    pub fn get_fork(&mut self, index: u8) -> (r: Result<Request<Fork>, RequestError>)
        ensures
            asks(old(self)@, final(self)@, r, GET_FORK, seq![index]),
    {
        self.request_raw(Cmd { raw: GET_FORK }, write_byte(index))
    }

    /// Writes one fork entry by index.
    pub fn set_fork(&mut self, index: u8, config: Fork) -> (r: Result<Request<()>, RequestError>)
        ensures
            asks(old(self)@, final(self)@, r, SET_FORK, seq![index] + fork_bytes(config)),
    {
        self.request_raw(Cmd { raw: SET_FORK }, write_set_fork(index, config))
    }

    /// Reads one morse entry by index.
    pub fn get_morse(&mut self, index: u8) -> (r: Result<Request<Morse>, RequestError>)
        ensures
            asks(old(self)@, final(self)@, r, GET_MORSE, seq![index]),
    {
        self.request_raw(Cmd { raw: GET_MORSE }, write_byte(index))
    }

    /// Writes one morse entry by index. A device reads this index and, where the
    /// entry reads back, this entry.
    pub fn set_morse(&mut self, index: u8, config: Morse) -> (r: Result<Request<()>, RequestError>)
        ensures
            asks(old(self)@, final(self)@, r, SET_MORSE, seq![index] + morse_bytes(config)),
            r is Ok && reads_back(config) ==> gives_back(
                take_set_morse(seq![index] + morse_bytes(config)),
                (index, config),
                1 + morse_bytes(config).len() as int,
            ),
    {
        assert((seq![index] + morse_bytes(config)).skip(1) =~= morse_bytes(config));
        self.request_raw(Cmd { raw: SET_MORSE }, write_set_morse(index, config))
    }

    /// Reads multiple morse entries. Bulk firmware only; refused without touching
    /// the wire otherwise.
    pub fn get_morse_bulk(&mut self, start_index: u8, count: u8) -> (r: Result<
        Request<GetMorseBulkResponse>,
        RequestError,
    >)
        requires
            old(self)@.caps is Some,
        ensures
            asks_where(
                old(self)@.bulk(),
                "bulk transfer not supported",
                old(self)@,
                final(self)@,
                r,
                GET_MORSE_BULK,
                seq![start_index, count],
            ),
            (r matches Err(RequestError::Unsupported(_, _))) <==> !old(self)@.caps->0.bulk_transfer_supported,
    {
        match self.require_bulk_transfer(Cmd { raw: GET_MORSE_BULK }) {
            Ok(_) => self.request_raw(Cmd { raw: GET_MORSE_BULK }, write_pair(start_index, count)),
            Err(e) => Err(e),
        }
    }

    /// Writes multiple morse entries. Bulk firmware only; refused without touching
    /// the wire otherwise.
    pub fn set_morse_bulk(&mut self, request: SetMorseBulkRequest) -> (r: Result<
        Request<()>,
        RequestError,
    >)
        requires
            old(self)@.caps is Some,
        ensures
            asks_where(
                old(self)@.bulk(),
                "bulk transfer not supported",
                old(self)@,
                final(self)@,
                r,
                SET_MORSE_BULK,
                set_morse_bulk_bytes(request),
            ),
            (r matches Err(RequestError::Unsupported(_, _))) <==> !old(self)@.caps->0.bulk_transfer_supported,
    {
        match self.require_bulk_transfer(Cmd { raw: SET_MORSE_BULK }) {
            Ok(_) => self.request_raw(Cmd { raw: SET_MORSE_BULK }, write_set_morse_bulk(request)),
            Err(e) => Err(e),
        }
    }

    /// Reads one chunk of macro data starting at byte `offset`. A short chunk is no
    /// end-of-data signal; parse the macro encoding itself for termination.
    pub fn get_macro(&mut self, index: u8, offset: u16) -> (r: Result<
        Request<MacroData>,
        RequestError,
    >)
        ensures
            asks(old(self)@, final(self)@, r, GET_MACRO, seq![index] + varint(offset as nat)),
    {
        self.request_raw(Cmd { raw: GET_MACRO }, write_get_macro(index, offset))
    }

    /// Writes one chunk of macro data starting at byte `offset`. The firmware
    /// truncates writes past the end of its macro space.
    pub fn set_macro(&mut self, index: u8, offset: u16, data: MacroData) -> (r: Result<
        Request<()>,
        RequestError,
    >)
        ensures
            asks(
                old(self)@,
                final(self)@,
                r,
                SET_MACRO,
                seq![index] + varint(offset as nat) + macro_data_bytes(data),
            ),
    {
        self.request_raw(Cmd { raw: SET_MACRO }, write_set_macro(index, offset, data))
    }

    // Behavior.

    /// Reads the global behavior config.
    pub fn get_behavior(&mut self) -> (r: Result<Request<BehaviorConfig>, RequestError>)
        ensures
            asks(old(self)@, final(self)@, r, GET_BEHAVIOR_CONFIG, seq![]),
    {
        self.request_raw(Cmd { raw: GET_BEHAVIOR_CONFIG }, write_unit())
    }

    /// Writes the global behavior config.
    pub fn set_behavior(&mut self, config: BehaviorConfig) -> (r: Result<Request<()>, RequestError>)
        ensures
            asks(old(self)@, final(self)@, r, SET_BEHAVIOR_CONFIG, config.bytes()),
    {
        self.request_raw(Cmd { raw: SET_BEHAVIOR_CONFIG }, write_behavior_config(config))
    }

    // Status.

    /// Reads the currently active layer.
    pub fn get_current_layer(&mut self) -> (r: Result<Request<u8>, RequestError>)
        ensures
            asks(old(self)@, final(self)@, r, GET_CURRENT_LAYER, seq![]),
    {
        self.request_raw(Cmd { raw: GET_CURRENT_LAYER }, write_unit())
    }

    /// Reads the matrix scan bitmap.
    pub fn get_matrix_state(&mut self) -> (r: Result<Request<MatrixState>, RequestError>)
        ensures
            asks(old(self)@, final(self)@, r, GET_MATRIX_STATE, seq![]),
    {
        self.request_raw(Cmd { raw: GET_MATRIX_STATE }, write_unit())
    }

    /// Reads battery status. BLE firmware only; refused without touching the wire
    /// otherwise.
    pub fn get_battery_status(&mut self) -> (r: Result<Request<BatteryStatus>, RequestError>)
        requires
            old(self)@.caps is Some,
        ensures
            asks_where(
                old(self)@.ble(),
                "BLE not enabled",
                old(self)@,
                final(self)@,
                r,
                GET_BATTERY_STATUS,
                seq![],
            ),
            (r matches Err(RequestError::Unsupported(_, _))) <==> !old(self)@.caps->0.ble_enabled,
    {
        match self.require_capability(
            self.capabilities().ble_enabled,
            Cmd { raw: GET_BATTERY_STATUS },
            "BLE not enabled",
        ) {
            Ok(_) => self.request_raw(Cmd { raw: GET_BATTERY_STATUS }, write_unit()),
            Err(e) => Err(e),
        }
    }

    /// Reads one split peripheral's status by slot. Split BLE keyboards only;
    /// refused without touching the wire otherwise.
    pub fn get_peripheral_status(&mut self, slot: u8) -> (r: Result<
        Request<PeripheralStatus>,
        RequestError,
    >)
        requires
            old(self)@.caps is Some,
        ensures
            asks_where(
                old(self)@.split_ble(),
                "not a split BLE keyboard",
                old(self)@,
                final(self)@,
                r,
                GET_PERIPHERAL_STATUS,
                seq![slot],
            ),
            (r matches Err(RequestError::Unsupported(_, _))) <==> !(old(self)@.caps->0.is_split && old(self)@.caps->0.ble_enabled),
    {
        match self.require_capability(
            self.capabilities().is_split && self.capabilities().ble_enabled,
            Cmd { raw: GET_PERIPHERAL_STATUS },
            "not a split BLE keyboard",
        ) {
            Ok(_) => self.request_raw(Cmd { raw: GET_PERIPHERAL_STATUS }, write_byte(slot)),
            Err(e) => Err(e),
        }
    }

    /// Reads the current words-per-minute estimate.
    pub fn get_wpm(&mut self) -> (r: Result<Request<u16>, RequestError>)
        ensures
            asks(old(self)@, final(self)@, r, GET_WPM, seq![]),
    {
        self.request_raw(Cmd { raw: GET_WPM }, write_unit())
    }

    /// Reads the firmware's sleep state.
    pub fn get_sleep_state(&mut self) -> (r: Result<Request<bool>, RequestError>)
        ensures
            asks(old(self)@, final(self)@, r, GET_SLEEP_STATE, seq![]),
    {
        self.request_raw(Cmd { raw: GET_SLEEP_STATE }, write_unit())
    }

    /// Reads the host LED indicator state (caps/num/scroll lock, etc.).
    pub fn get_led_indicator(&mut self) -> (r: Result<Request<LedIndicator>, RequestError>)
        ensures
            asks(old(self)@, final(self)@, r, GET_LED_INDICATOR, seq![]),
    {
        self.request_raw(Cmd { raw: GET_LED_INDICATOR }, write_unit())
    }

    // Connection.

    /// Reads the active connection type (USB / BLE).
    pub fn get_connection_type(&mut self) -> (r: Result<Request<ConnectionType>, RequestError>)
        ensures
            asks(old(self)@, final(self)@, r, GET_CONNECTION_TYPE, seq![]),
    {
        self.request_raw(Cmd { raw: GET_CONNECTION_TYPE }, write_unit())
    }

    /// Reads the full connection status: what the `ConnectionChange` topic pushes,
    /// for recovering a missed push.
    pub fn get_connection_status(&mut self) -> (r: Result<Request<ConnectionStatus>, RequestError>)
        ensures
            asks(old(self)@, final(self)@, r, GET_CONNECTION_STATUS, seq![]),
    {
        self.request_raw(Cmd { raw: GET_CONNECTION_STATUS }, write_unit())
    }

    /// Reads BLE status (active profile, connection state). BLE firmware only;
    /// refused without touching the wire otherwise.
    pub fn get_ble_status(&mut self) -> (r: Result<Request<BleStatus>, RequestError>)
        requires
            old(self)@.caps is Some,
        ensures
            asks_where(
                old(self)@.ble(),
                "BLE not enabled",
                old(self)@,
                final(self)@,
                r,
                GET_BLE_STATUS,
                seq![],
            ),
            (r matches Err(RequestError::Unsupported(_, _))) <==> !old(self)@.caps->0.ble_enabled,
    {
        match self.require_capability(
            self.capabilities().ble_enabled,
            Cmd { raw: GET_BLE_STATUS },
            "BLE not enabled",
        ) {
            Ok(_) => self.request_raw(Cmd { raw: GET_BLE_STATUS }, write_unit()),
            Err(e) => Err(e),
        }
    }

    /// Switches to a BLE profile by slot. BLE firmware only; refused without
    /// touching the wire otherwise.
    pub fn switch_ble_profile(&mut self, slot: u8) -> (r: Result<Request<()>, RequestError>)
        requires
            old(self)@.caps is Some,
        ensures
            asks_where(
                old(self)@.ble(),
                "BLE not enabled",
                old(self)@,
                final(self)@,
                r,
                SWITCH_BLE_PROFILE,
                seq![slot],
            ),
            (r matches Err(RequestError::Unsupported(_, _))) <==> !old(self)@.caps->0.ble_enabled,
    {
        match self.require_capability(
            self.capabilities().ble_enabled,
            Cmd { raw: SWITCH_BLE_PROFILE },
            "BLE not enabled",
        ) {
            Ok(_) => self.request_raw(Cmd { raw: SWITCH_BLE_PROFILE }, write_byte(slot)),
            Err(e) => Err(e),
        }
    }

    /// Clears (unbonds) a BLE profile by slot. BLE firmware only; refused without
    /// touching the wire otherwise.
    pub fn clear_ble_profile(&mut self, slot: u8) -> (r: Result<Request<()>, RequestError>)
        requires
            old(self)@.caps is Some,
        ensures
            asks_where(
                old(self)@.ble(),
                "BLE not enabled",
                old(self)@,
                final(self)@,
                r,
                CLEAR_BLE_PROFILE,
                seq![slot],
            ),
            (r matches Err(RequestError::Unsupported(_, _))) <==> !old(self)@.caps->0.ble_enabled,
    {
        match self.require_capability(
            self.capabilities().ble_enabled,
            Cmd { raw: CLEAR_BLE_PROFILE },
            "BLE not enabled",
        ) {
            Ok(_) => self.request_raw(Cmd { raw: CLEAR_BLE_PROFILE }, write_byte(slot)),
            Err(e) => Err(e),
        }
    }
}

} // verus!
