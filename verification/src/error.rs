use vstd::prelude::*;

verus! {

/// An error reported by the USB transport collaborator: a failed claim, a
/// transfer error, or a timeout. The numeric code is the transport's own;
/// this crate only carries it through.
#[derive(Clone, Copy, Debug, PartialEq, Eq, Structural)]
pub struct TransportError {
    pub code: i32,
}

/// Every failure this driver can report.
#[derive(Clone, Copy, Debug, PartialEq, Eq, Structural)]
pub enum K8055Error {
    /// Discovery found no card matching the requested address.
    DeviceNotFound,
    /// A read or write operation was invoked before a successful `open`.
    NotOpen,
    /// The transport reported a claim, transfer, or timeout error.
    TransportFailure(TransportError),
    /// Encoding was requested for a packet variant with no wire format.
    UnsupportedCommand,
    /// Decoding received fewer than the four usable bytes of a status frame.
    ShortFrame,
}

} // verus!
