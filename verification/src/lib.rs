//! Driver logic for the Velleman K8055 USB digital and analog I/O card.
//!
//! The crate models the card's fixed 8-byte wire protocol, the session that
//! caches the last written output state, and the discovery rule that picks one
//! card among the enumerated USB devices. The USB transport itself (opening a
//! device, claiming its interface, interrupt transfers) is reached through the
//! [`Transport`] trait, so that callers supply the real bus and tests supply a
//! simulated one.

mod channel;
mod codec;
mod discovery;
mod error;
mod session;
mod transport;

pub use channel::AnalogChannel;
pub use channel::CardAddress;
pub use channel::DigitalChannel;
pub use codec::analog_in1_of;
pub use codec::analog_in2_of;
pub use codec::decode;
pub use codec::digital_in_of;
pub use codec::encode;
pub use codec::set_state_frame;
pub use codec::Packet;
pub use codec::OPCODE_SET_STATE;
pub use discovery::find_any_k8055;
pub use discovery::find_device;
pub use discovery::found_any;
pub use discovery::found_at;
pub use discovery::is_any_card;
pub use discovery::is_card_pid;
pub use discovery::matches_card;
pub use discovery::DeviceDesc;
pub use discovery::PID_FIRST;
pub use discovery::PID_LAST;
pub use discovery::VENDOR_ID;
pub use error::K8055Error;
pub use error::TransportError;
pub use session::analog_write_ok;
pub use session::digital_write_ok;
pub use session::lemma_analog_writes_independent;
pub use session::lemma_failed_write_keeps_cache;
pub use session::lemma_masked_write_full;
pub use session::lemma_open_idempotent;
pub use session::lemma_reset_clears_outputs;
pub use session::masked_digital_write_ok;
pub use session::open_step;
pub use session::outputs_unchanged;
pub use session::set_state_ok;
pub use session::K8055;
pub use transport::Transport;
pub use transport::CARD_INTERFACE;
pub use transport::EP_IN;
pub use transport::EP_OUT;
