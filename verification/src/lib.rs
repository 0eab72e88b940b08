//! Runtime-free Rynk host protocol client.
//!
//! [`Client`] is the protocol: it says which bytes to send, takes the bytes that
//! arrive, and turns them into replies and events. It opens no device and does
//! no I/O; a driver connects it to a byte link.
//!
//! ```text
//! let mut request = client.get_current_layer()?;      // what to send
//! client.sent(link.send(request.frame()))?;
//! loop {
//!     match client.poll_reply(&request) {              // what has arrived
//!         Some(layer) => return layer,
//!         None => client.received(link.recv())?,
//!     }
//! }
//! ```
//!
//! A device rejection is [`RequestError::Rejected`], apart from what the link
//! and the client itself refuse. A handshake ([`Client::connect`]) rejects only
//! a protocol major mismatch.
//!
//! [`service`] is the device's side of the morse and status requests, and
//! [`serial`] decides which of several serial ports hosts a device.
pub mod client;
pub mod codec;
pub mod command;
pub mod error;
pub mod event;
pub mod frame;
pub mod guarantees;
pub mod handshake;
pub mod laws;
pub mod payload;
pub mod reply;
pub mod requests;
pub mod serial;
pub mod service;
pub mod status;
pub mod transport;
pub mod wire;

pub use client::{Client, Request};
pub use command::Cmd;
pub use error::{ConnectError, DecodeError, DeviceError, RequestError};
pub use event::{Event, TopicFrame};
pub use handshake::{Handshake, Step};
pub use payload::{BehaviorConfig, DeviceCapabilities, ProtocolVersion, StorageResetMode};
/// The payload types that appear in [`Client`] method signatures.
pub use rmk_types;
pub use status::{
    BatteryStatus, BleState, BleStatus, ChargeState, ConnectionStatus, ConnectionType,
    LedIndicator, PeripheralStatus, UsbState,
};
pub use transport::{MaybeSend, TransportError};
