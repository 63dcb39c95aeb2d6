//! Control core for a single BLE RGB light.
//!
//! The library holds the verified protocol logic: framing command packets
//! with an XOR checksum, parsing hex color strings, matching a peripheral
//! by its physical address, binding the writable characteristic by UUID,
//! serializing outgoing frames through a single gateway, and the keep-alive
//! state machine. The BLE transport and the HTTP surface live outside the
//! library and hand it plain values.

pub mod binder;
pub mod codec;
pub mod color;
pub mod dispatcher;
pub mod gateway;
pub mod keepalive;
pub mod locator;

use vstd::prelude::*;

verus! {

/// Everything that can go wrong in the control core or at its edges.
#[derive(Clone, Copy, Debug, PartialEq, Eq, Structural)]
pub enum LightError {
    /// The scan never produced a device with the target address.
    DeviceNotFound,
    /// Transport-level connect or disconnect failure.
    Connection,
    /// The connected device exposes no characteristic with the target UUID.
    CharacteristicNotFound,
    /// A payload longer than a frame can carry was handed to the encoder.
    PayloadTooLarge,
    /// A color request carried a malformed hex string.
    InvalidColorFormat,
    /// The radio write itself failed.
    Write,
}

} // verus!
