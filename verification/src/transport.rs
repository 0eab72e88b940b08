//! What the protocol core knows of the byte link: how it fails.
use vstd::prelude::*;

verus! {

/// Transport setup and I/O errors.
#[derive(Debug)]
pub enum TransportError {
    Disconnected,
    Io(String),
    DeviceNotFound(String),
}

/// What a link must be to cross tasks, as far as every target asks it: nothing.
/// Where tasks move between threads, a driver adds `Send`.
pub trait MaybeSend {

}

impl<T: ?Sized> MaybeSend for T {

}

} // verus!
