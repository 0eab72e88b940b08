//! Status values that a device reports, and their encoding.
use crate::error::DecodeError;
use crate::wire::{
    put_option, take_byte, take_flag, take_option, take_tag, tags_are_read_back, Taken,
};
use vstd::prelude::*;

verus! {

/// The charge state of a battery.
#[derive(Debug, Clone, Copy, PartialEq, Eq, Structural)]
pub enum ChargeState {
    Charging,
    Discharging,
    Unknown,
}

impl ChargeState {
    /// The enum tag.
    pub open spec fn tag(self) -> u8 {
        match self {
            ChargeState::Charging => 0,
            ChargeState::Discharging => 1,
            ChargeState::Unknown => 2,
        }
    }

    /// The charge state at the front of `bytes`.
    pub open spec fn taken(bytes: Seq<u8>) -> Taken<ChargeState> {
        match take_tag(bytes, 3) {
            Ok((tag, n)) => Ok(
                (
                    if tag == 0 {
                        ChargeState::Charging
                    } else if tag == 1 {
                        ChargeState::Discharging
                    } else {
                        ChargeState::Unknown
                    },
                    n,
                ),
            ),
            Err(e) => Err(e),
        }
    }
}

/// The state of a battery.
#[derive(Debug, Clone, Copy, PartialEq, Eq, Structural)]
pub enum BatteryStatus {
    Unavailable,
    Available { charge_state: ChargeState, level: Option<u8> },
}

impl BatteryStatus {
    /// The status as a payload.
    pub open spec fn bytes(self) -> Seq<u8> {
        match self {
            BatteryStatus::Unavailable => seq![0u8],
            BatteryStatus::Available { charge_state, level } => seq![1u8, charge_state.tag()]
                + put_option(level),
        }
    }

    /// The status at the front of `bytes`.
    pub open spec fn taken(bytes: Seq<u8>) -> Taken<BatteryStatus> {
        match take_tag(bytes, 2) {
            Err(e) => Err(e),
            Ok((tag, n)) => if tag == 0 {
                Ok((BatteryStatus::Unavailable, n))
            } else {
                match ChargeState::taken(bytes.skip(n as int)) {
                    Err(e) => Err(e),
                    Ok((charge_state, m)) => match take_option(bytes.skip((n + m) as int)) {
                        Err(e) => Err(e),
                        Ok((level, k)) => Ok(
                            (BatteryStatus::Available { charge_state, level }, n + m + k),
                        ),
                    },
                }
            },
        }
    }
}

/// The state of one split peripheral. Wired ones report no battery.
#[derive(Debug, Clone, Copy, PartialEq, Eq, Structural)]
pub struct PeripheralStatus {
    pub connected: bool,
    pub battery: BatteryStatus,
}

impl PeripheralStatus {
    /// The status as a payload.
    pub open spec fn bytes(self) -> Seq<u8> {
        seq![self.connected as u8] + self.battery.bytes()
    }

    /// The status at the front of `bytes`.
    pub open spec fn taken(bytes: Seq<u8>) -> Taken<PeripheralStatus> {
        match take_flag(bytes) {
            Err(e) => Err(e),
            Ok((connected, n)) => match BatteryStatus::taken(bytes.skip(n as int)) {
                Err(e) => Err(e),
                Ok((battery, m)) => Ok((PeripheralStatus { connected, battery }, n + m)),
            },
        }
    }
}

/// The host LED indicators, one to a bit: num lock in the lowest, then caps lock,
/// scroll lock, compose and kana.
#[derive(Debug, Clone, Copy, PartialEq, Eq, Structural)]
pub struct LedIndicator {
    pub bits: u8,
}

impl LedIndicator {
    /// The indicators as a payload.
    pub open spec fn bytes(self) -> Seq<u8> {
        seq![self.bits]
    }

    /// The indicators at the front of `bytes`.
    pub open spec fn taken(bytes: Seq<u8>) -> Taken<LedIndicator> {
        match take_byte(bytes) {
            Ok((bits, n)) => Ok((LedIndicator { bits }, n)),
            Err(e) => Err(e),
        }
    }
}

/// What a keyboard is connected by.
#[derive(Debug, Clone, Copy, PartialEq, Eq, Structural)]
pub enum ConnectionType {
    Usb,
    Ble,
}

impl ConnectionType {
    /// The enum tag.
    pub open spec fn tag(self) -> u8 {
        match self {
            ConnectionType::Usb => 0,
            ConnectionType::Ble => 1,
        }
    }

    /// The type as a payload.
    pub open spec fn bytes(self) -> Seq<u8> {
        seq![self.tag()]
    }

    /// The type at the front of `bytes`.
    pub open spec fn taken(bytes: Seq<u8>) -> Taken<ConnectionType> {
        match take_tag(bytes, 2) {
            Ok((tag, n)) => Ok(
                (
                    if tag == 0 {
                        ConnectionType::Usb
                    } else {
                        ConnectionType::Ble
                    },
                    n,
                ),
            ),
            Err(e) => Err(e),
        }
    }
}

/// The lifecycle of a USB device.
#[derive(Debug, Clone, Copy, PartialEq, Eq, Structural)]
pub enum UsbState {
    Disabled,
    Enabled,
    Configured,
    Suspended,
}

impl UsbState {
    /// The enum tag.
    pub open spec fn tag(self) -> u8 {
        match self {
            UsbState::Disabled => 0,
            UsbState::Enabled => 1,
            UsbState::Configured => 2,
            UsbState::Suspended => 3,
        }
    }

    /// The state at the front of `bytes`.
    pub open spec fn taken(bytes: Seq<u8>) -> Taken<UsbState> {
        match take_tag(bytes, 4) {
            Ok((tag, n)) => Ok(
                (
                    if tag == 0 {
                        UsbState::Disabled
                    } else if tag == 1 {
                        UsbState::Enabled
                    } else if tag == 2 {
                        UsbState::Configured
                    } else {
                        UsbState::Suspended
                    },
                    n,
                ),
            ),
            Err(e) => Err(e),
        }
    }
}

/// What the BLE subsystem is doing.
#[derive(Debug, Clone, Copy, PartialEq, Eq, Structural)]
pub enum BleState {
    Advertising,
    Connected,
    Inactive,
}

impl BleState {
    /// The enum tag.
    pub open spec fn tag(self) -> u8 {
        match self {
            BleState::Advertising => 0,
            BleState::Connected => 1,
            BleState::Inactive => 2,
        }
    }

    /// The state at the front of `bytes`.
    pub open spec fn taken(bytes: Seq<u8>) -> Taken<BleState> {
        match take_tag(bytes, 3) {
            Ok((tag, n)) => Ok(
                (
                    if tag == 0 {
                        BleState::Advertising
                    } else if tag == 1 {
                        BleState::Connected
                    } else {
                        BleState::Inactive
                    },
                    n,
                ),
            ),
            Err(e) => Err(e),
        }
    }
}

/// Which BLE profile is active, and what the BLE is doing.
#[derive(Debug, Clone, Copy, PartialEq, Eq, Structural)]
pub struct BleStatus {
    pub profile: u8,
    pub state: BleState,
}

impl BleStatus {
    /// The status as a payload.
    pub open spec fn bytes(self) -> Seq<u8> {
        seq![self.profile, self.state.tag()]
    }

    /// The status at the front of `bytes`.
    pub open spec fn taken(bytes: Seq<u8>) -> Taken<BleStatus> {
        match take_byte(bytes) {
            Err(e) => Err(e),
            Ok((profile, n)) => match BleState::taken(bytes.skip(n as int)) {
                Err(e) => Err(e),
                Ok((state, m)) => Ok((BleStatus { profile, state }, n + m)),
            },
        }
    }
}

/// Which connections are available, and which is preferred when both are ready.
#[derive(Debug, Clone, Copy, PartialEq, Eq, Structural)]
pub struct ConnectionStatus {
    pub usb: UsbState,
    pub ble: BleStatus,
    pub preferred: ConnectionType,
}

impl ConnectionStatus {
    /// The status as a payload.
    pub open spec fn bytes(self) -> Seq<u8> {
        seq![self.usb.tag()] + self.ble.bytes() + self.preferred.bytes()
    }

    /// The status at the front of `bytes`.
    pub open spec fn taken(bytes: Seq<u8>) -> Taken<ConnectionStatus> {
        match UsbState::taken(bytes) {
            Err(e) => Err(e),
            Ok((usb, n)) => match BleStatus::taken(bytes.skip(n as int)) {
                Err(e) => Err(e),
                Ok((ble, m)) => match ConnectionType::taken(bytes.skip((n + m) as int)) {
                    Err(e) => Err(e),
                    Ok((preferred, k)) => Ok(
                        (ConnectionStatus { usb, ble, preferred }, n + m + k),
                    ),
                },
            },
        }
    }
}

/// A battery's status is read back from its own encoding, whatever follows.
pub proof fn battery_is_read_back(status: BatteryStatus, tail: Seq<u8>)
    ensures
        BatteryStatus::taken(status.bytes() + tail) == Ok::<(BatteryStatus, nat), DecodeError>(
            (status, status.bytes().len()),
        ),
{
    let all = status.bytes() + tail;
    match status {
        BatteryStatus::Unavailable => {
            tags_are_read_back(0, 2, tail);
            assert(all =~= seq![0u8] + tail);
        },
        BatteryStatus::Available { charge_state, level } => {
            let rest = put_option(level) + tail;
            tags_are_read_back(1, 2, seq![charge_state.tag()] + rest);
            assert(all =~= seq![1u8] + (seq![charge_state.tag()] + rest));
            tags_are_read_back(charge_state.tag(), 3, rest);
            assert(all.skip(1) =~= seq![charge_state.tag()] + rest);
            assert(all.skip(2) =~= rest);
            assert(rest.skip(1) =~= put_option(level).skip(1) + tail);
        },
    }
}

/// A peripheral's status is read back from its own encoding, whatever follows.
pub proof fn peripheral_is_read_back(status: PeripheralStatus, tail: Seq<u8>)
    ensures
        PeripheralStatus::taken(status.bytes() + tail) == Ok::<
            (PeripheralStatus, nat),
            DecodeError,
        >((status, status.bytes().len())),
{
    let all = status.bytes() + tail;
    assert(all.skip(1) =~= status.battery.bytes() + tail);
    battery_is_read_back(status.battery, tail);
}

/// A connection status, and each of its parts, is read back from its own
/// encoding, whatever follows.
pub proof fn connection_is_read_back(status: ConnectionStatus, tail: Seq<u8>)
    ensures
        ConnectionType::taken(status.preferred.bytes() + tail) == Ok::<
            (ConnectionType, nat),
            DecodeError,
        >((status.preferred, 1)),
        BleStatus::taken(status.ble.bytes() + tail) == Ok::<(BleStatus, nat), DecodeError>(
            (status.ble, 2),
        ),
        ConnectionStatus::taken(status.bytes() + tail) == Ok::<
            (ConnectionStatus, nat),
            DecodeError,
        >((status, status.bytes().len())),
{
    let all = status.bytes() + tail;
    let from_ble = status.ble.bytes() + (status.preferred.bytes() + tail);
    tags_are_read_back(status.preferred.tag(), 2, tail);
    assert((status.ble.bytes() + tail).skip(1) =~= seq![status.ble.state.tag()] + tail);
    tags_are_read_back(status.ble.state.tag(), 3, tail);
    tags_are_read_back(status.ble.state.tag(), 3, status.preferred.bytes() + tail);
    assert(from_ble.skip(1) =~= seq![status.ble.state.tag()] + (status.preferred.bytes() + tail));
    tags_are_read_back(status.usb.tag(), 4, from_ble);
    assert(all =~= seq![status.usb.tag()] + from_ble);
    assert(all.skip(1) =~= from_ble);
    assert(all.skip(3) =~= status.preferred.bytes() + tail);
}

} // verus!
