//! Payload values that the protocol core reads.
use crate::wire::{put_fields, take_fields, Field, Taken};
use vstd::prelude::*;

verus! {

/// Protocol version exchanged in the handshake.
#[derive(Debug, Clone, Copy, PartialEq, Eq, Structural)]
pub struct ProtocolVersion {
    pub major: u8,
    pub minor: u8,
}

/// The protocol major that this library speaks.
pub const CURRENT_MAJOR: u8 = 0;

/// The newest minor of that major that this library knows.
pub const CURRENT_MINOR: u8 = 1;

impl ProtocolVersion {
    /// The version that this library speaks.
    pub open spec fn spec_current() -> ProtocolVersion {
        ProtocolVersion { major: CURRENT_MAJOR, minor: CURRENT_MINOR }
    }

    /// The version that this library speaks.
    pub fn current() -> (version: ProtocolVersion)
        ensures
            version == ProtocolVersion::spec_current(),
    {
        ProtocolVersion { major: CURRENT_MAJOR, minor: CURRENT_MINOR }
    }

    /// The version at the front of `bytes`.
    pub open spec fn taken(bytes: Seq<u8>) -> Taken<ProtocolVersion> {
        match take_fields(seq![Field::U8, Field::U8], bytes) {
            Ok((v, n)) => Ok((ProtocolVersion { major: v[0] as u8, minor: v[1] as u8 }, n)),
            Err(e) => Err(e),
        }
    }
}

/// What a device advertises in the handshake: its layout, its features and its
/// protocol limits.
#[derive(Debug, Clone, Copy, PartialEq, Eq, Structural)]
pub struct DeviceCapabilities {
    pub num_layers: u8,
    pub num_rows: u8,
    pub num_cols: u8,
    pub num_encoders: u8,
    pub max_combos: u8,
    pub max_combo_keys: u8,
    pub max_macros: u8,
    pub macro_space_size: u16,
    pub max_morse: u8,
    pub max_patterns_per_key: u8,
    pub max_forks: u8,
    pub storage_enabled: bool,
    pub lighting_enabled: bool,
    pub is_split: bool,
    pub num_split_peripherals: u8,
    pub ble_enabled: bool,
    pub num_ble_profiles: u8,
    pub max_payload_size: u16,
    pub max_bulk_keys: u8,
    pub macro_chunk_size: u16,
    pub bulk_transfer_supported: bool,
}

impl DeviceCapabilities {
    /// The fields in wire order.
    pub open spec fn fields() -> Seq<Field> {
        seq![
            Field::U8,
            Field::U8,
            Field::U8,
            Field::U8,
            Field::U8,
            Field::U8,
            Field::U8,
            Field::U16,
            Field::U8,
            Field::U8,
            Field::U8,
            Field::Bool,
            Field::Bool,
            Field::Bool,
            Field::U8,
            Field::Bool,
            Field::U8,
            Field::U16,
            Field::U8,
            Field::U16,
            Field::Bool,
        ]
    }

    /// The field values in wire order.
    pub open spec fn values(self) -> Seq<nat> {
        seq![
            self.num_layers as nat,
            self.num_rows as nat,
            self.num_cols as nat,
            self.num_encoders as nat,
            self.max_combos as nat,
            self.max_combo_keys as nat,
            self.max_macros as nat,
            self.macro_space_size as nat,
            self.max_morse as nat,
            self.max_patterns_per_key as nat,
            self.max_forks as nat,
            self.storage_enabled as nat,
            self.lighting_enabled as nat,
            self.is_split as nat,
            self.num_split_peripherals as nat,
            self.ble_enabled as nat,
            self.num_ble_profiles as nat,
            self.max_payload_size as nat,
            self.max_bulk_keys as nat,
            self.macro_chunk_size as nat,
            self.bulk_transfer_supported as nat,
        ]
    }

    /// The capabilities with these field values, in wire order.
    pub open spec fn of(v: Seq<nat>) -> DeviceCapabilities {
        DeviceCapabilities {
            num_layers: v[0] as u8,
            num_rows: v[1] as u8,
            num_cols: v[2] as u8,
            num_encoders: v[3] as u8,
            max_combos: v[4] as u8,
            max_combo_keys: v[5] as u8,
            max_macros: v[6] as u8,
            macro_space_size: v[7] as u16,
            max_morse: v[8] as u8,
            max_patterns_per_key: v[9] as u8,
            max_forks: v[10] as u8,
            storage_enabled: v[11] == 1,
            lighting_enabled: v[12] == 1,
            is_split: v[13] == 1,
            num_split_peripherals: v[14] as u8,
            ble_enabled: v[15] == 1,
            num_ble_profiles: v[16] as u8,
            max_payload_size: v[17] as u16,
            max_bulk_keys: v[18] as u8,
            macro_chunk_size: v[19] as u16,
            bulk_transfer_supported: v[20] == 1,
        }
    }

    /// The capabilities at the front of `bytes`.
    pub open spec fn taken(bytes: Seq<u8>) -> Taken<DeviceCapabilities> {
        match take_fields(DeviceCapabilities::fields(), bytes) {
            Ok((v, n)) => Ok((DeviceCapabilities::of(v), n)),
            Err(e) => Err(e),
        }
    }
}

/// How much of the persistent storage a reset wipes.
#[derive(Debug, Clone, Copy, PartialEq, Eq, Structural)]
pub enum StorageResetMode {
    /// All stored data, keymap edits and BLE bonds with it. What current
    /// firmware implements.
    Full,
    /// The layout alone, preserving BLE bonds.
    LayoutOnly,
}

impl StorageResetMode {
    /// The mode as a payload: its enum tag.
    pub open spec fn bytes(self) -> Seq<u8> {
        match self {
            StorageResetMode::Full => seq![0u8],
            StorageResetMode::LayoutOnly => seq![1u8],
        }
    }
}

/// Global timing settings.
#[derive(Debug, Clone, Copy, PartialEq, Eq, Structural)]
pub struct BehaviorConfig {
    pub combo_timeout_ms: u16,
    pub oneshot_timeout_ms: u16,
    pub tap_interval_ms: u16,
    pub tap_capslock_interval_ms: u16,
}

impl BehaviorConfig {
    /// The fields in wire order.
    pub open spec fn fields() -> Seq<Field> {
        seq![Field::U16, Field::U16, Field::U16, Field::U16]
    }

    /// The field values in wire order.
    pub open spec fn values(self) -> Seq<nat> {
        seq![
            self.combo_timeout_ms as nat,
            self.oneshot_timeout_ms as nat,
            self.tap_interval_ms as nat,
            self.tap_capslock_interval_ms as nat,
        ]
    }

    /// The settings as a payload.
    pub open spec fn bytes(self) -> Seq<u8> {
        put_fields(BehaviorConfig::fields(), self.values())
    }

    /// The settings at the front of `bytes`.
    pub open spec fn taken(bytes: Seq<u8>) -> Taken<BehaviorConfig> {
        match take_fields(BehaviorConfig::fields(), bytes) {
            Ok((v, n)) => Ok(
                (
                    BehaviorConfig {
                        combo_timeout_ms: v[0] as u16,
                        oneshot_timeout_ms: v[1] as u16,
                        tap_interval_ms: v[2] as u16,
                        tap_capslock_interval_ms: v[3] as u16,
                    },
                    n,
                ),
            ),
            Err(e) => Err(e),
        }
    }
}

} // verus!
