//! Command identifiers of the Rynk protocol.
use vstd::prelude::*;

verus! {

/// First raw value of the topic range (server to host pushes).
pub const TOPIC_RANGE: u16 = 0x8000;

// System.
pub const GET_VERSION: u16 = 0x0001;

pub const GET_CAPABILITIES: u16 = 0x0002;

pub const REBOOT: u16 = 0x0003;

pub const BOOTLOADER_JUMP: u16 = 0x0004;

pub const STORAGE_RESET: u16 = 0x0005;

// Keymap and encoders.
pub const GET_KEY_ACTION: u16 = 0x0101;

pub const SET_KEY_ACTION: u16 = 0x0102;

pub const GET_DEFAULT_LAYER: u16 = 0x0103;

pub const SET_DEFAULT_LAYER: u16 = 0x0104;

pub const GET_ENCODER_ACTION: u16 = 0x0105;

pub const SET_ENCODER_ACTION: u16 = 0x0106;

pub const GET_KEYMAP_BULK: u16 = 0x0107;

pub const SET_KEYMAP_BULK: u16 = 0x0108;

// Macros.
pub const GET_MACRO: u16 = 0x0201;

pub const SET_MACRO: u16 = 0x0202;

// Combos.
pub const GET_COMBO: u16 = 0x0301;

pub const SET_COMBO: u16 = 0x0302;

pub const GET_COMBO_BULK: u16 = 0x0303;

pub const SET_COMBO_BULK: u16 = 0x0304;

// Morse keys.
pub const GET_MORSE: u16 = 0x0401;

pub const SET_MORSE: u16 = 0x0402;

pub const GET_MORSE_BULK: u16 = 0x0403;

pub const SET_MORSE_BULK: u16 = 0x0404;

// Forks.
pub const GET_FORK: u16 = 0x0501;

pub const SET_FORK: u16 = 0x0502;

// Behavior.
pub const GET_BEHAVIOR_CONFIG: u16 = 0x0601;

pub const SET_BEHAVIOR_CONFIG: u16 = 0x0602;

// Connection.
pub const GET_CONNECTION_TYPE: u16 = 0x0701;

pub const GET_CONNECTION_STATUS: u16 = 0x0702;

pub const GET_BLE_STATUS: u16 = 0x0703;

pub const SWITCH_BLE_PROFILE: u16 = 0x0704;

pub const CLEAR_BLE_PROFILE: u16 = 0x0705;

// Status.
pub const GET_CURRENT_LAYER: u16 = 0x0801;

pub const GET_MATRIX_STATE: u16 = 0x0802;

pub const GET_BATTERY_STATUS: u16 = 0x0803;

pub const GET_PERIPHERAL_STATUS: u16 = 0x0804;

pub const GET_WPM: u16 = 0x0805;

pub const GET_SLEEP_STATE: u16 = 0x0806;

pub const GET_LED_INDICATOR: u16 = 0x0807;

// Topics.
pub const LAYER_CHANGE: u16 = 0x8001;

pub const WPM_UPDATE: u16 = 0x8002;

pub const CONNECTION_CHANGE: u16 = 0x8003;

pub const SLEEP_STATE: u16 = 0x8004;

pub const LED_INDICATOR: u16 = 0x8005;

pub const BATTERY_STATUS_TOPIC: u16 = 0x8006;

/// The command identifier that a frame header carries. Any 16-bit value is a
/// command, known to this build or not.
#[derive(Debug, Clone, Copy, PartialEq, Eq, Structural)]
pub struct Cmd {
    pub raw: u16,
}

impl Cmd {
    /// Whether the value lies in the topic range.
    pub open spec fn topic(self) -> bool {
        self.raw >= TOPIC_RANGE
    }

    /// The command with this raw wire value.
    pub fn from_raw(raw: u16) -> (cmd: Cmd)
        ensures
            cmd == (Cmd { raw }),
    {
        Cmd { raw }
    }

    /// The raw wire value.
    pub fn raw(self) -> (raw: u16)
        ensures
            raw == self.raw,
    {
        self.raw
    }

    /// Whether this is a topic (server to host push) rather than a request.
    pub fn is_topic(self) -> (topic: bool)
        ensures
            topic == self.topic(),
    {
        self.raw >= TOPIC_RANGE
    }
}

/// The commands of a group are numbered in order from the group's first, and the
/// group is the high byte.
pub proof fn commands_are_numbered_by_group()
    ensures
        seq![
            GET_VERSION,
            GET_CAPABILITIES,
            REBOOT,
            BOOTLOADER_JUMP,
            STORAGE_RESET,
        ] == Seq::new(5, |i: int| (0x0001 + i) as u16),
        seq![
            GET_KEY_ACTION,
            SET_KEY_ACTION,
            GET_DEFAULT_LAYER,
            SET_DEFAULT_LAYER,
            GET_ENCODER_ACTION,
            SET_ENCODER_ACTION,
            GET_KEYMAP_BULK,
            SET_KEYMAP_BULK,
        ] == Seq::new(8, |i: int| (0x0101 + i) as u16),
        seq![
            GET_MACRO,
            SET_MACRO,
        ] == Seq::new(2, |i: int| (0x0201 + i) as u16),
        seq![
            GET_COMBO,
            SET_COMBO,
            GET_COMBO_BULK,
            SET_COMBO_BULK,
        ] == Seq::new(4, |i: int| (0x0301 + i) as u16),
        seq![
            GET_MORSE,
            SET_MORSE,
            GET_MORSE_BULK,
            SET_MORSE_BULK,
        ] == Seq::new(4, |i: int| (0x0401 + i) as u16),
        seq![
            GET_FORK,
            SET_FORK,
        ] == Seq::new(2, |i: int| (0x0501 + i) as u16),
        seq![
            GET_BEHAVIOR_CONFIG,
            SET_BEHAVIOR_CONFIG,
        ] == Seq::new(2, |i: int| (0x0601 + i) as u16),
        seq![
            GET_CONNECTION_TYPE,
            GET_CONNECTION_STATUS,
            GET_BLE_STATUS,
            SWITCH_BLE_PROFILE,
            CLEAR_BLE_PROFILE,
        ] == Seq::new(5, |i: int| (0x0701 + i) as u16),
        seq![
            GET_CURRENT_LAYER,
            GET_MATRIX_STATE,
            GET_BATTERY_STATUS,
            GET_PERIPHERAL_STATUS,
            GET_WPM,
            GET_SLEEP_STATE,
            GET_LED_INDICATOR,
        ] == Seq::new(7, |i: int| (0x0801 + i) as u16),
        seq![
            LAYER_CHANGE,
            WPM_UPDATE,
            CONNECTION_CHANGE,
            SLEEP_STATE,
            LED_INDICATOR,
            BATTERY_STATUS_TOPIC,
        ] == Seq::new(6, |i: int| (0x8001 + i) as u16),
{
}

} // verus!
