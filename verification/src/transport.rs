use vstd::prelude::*;

use crate::error::TransportError;

verus! {

/// The USB interface number the card exposes its endpoints on.
pub const CARD_INTERFACE: u8 = 0;

/// Host-to-device interrupt OUT endpoint for command frames.
pub const EP_OUT: u8 = 0x01;

/// Device-to-host interrupt IN endpoint for status frames.
pub const EP_IN: u8 = 0x81;

/// The USB transport collaborator a session drives the card through.
///
/// The driver promises nothing about these calls: every method may fail, and
/// the session's contracts state what holds of its cached state for every
/// outcome. Callers bind this to a real USB stack; tests bind it to a
/// simulated one.
pub trait Transport {
    /// Acquire a handle to the device; `true` on success.
    fn open_device(&mut self) -> bool;

    /// Make the given interface ours for transfers: detach a conflicting
    /// kernel driver if one is active, then claim the interface. Idempotent
    /// on the bus; the session invokes it before every transfer because a
    /// transport need not keep the claim across calls.
    fn ensure_claimed(&mut self, interface: u8) -> Result<(), TransportError>;

    /// Send one frame on an interrupt OUT endpoint, blocking with the
    /// transport's bounded timeout.
    fn write_interrupt(&mut self, endpoint: u8, data: &[u8; 8]) -> Result<(), TransportError>;

    /// Receive up to one frame from an interrupt IN endpoint, blocking with
    /// the transport's bounded timeout; returns the bytes actually read.
    fn read_interrupt(&mut self, endpoint: u8) -> Result<Vec<u8>, TransportError>;
}

} // verus!
