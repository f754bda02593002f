use vstd::prelude::*;

use crate::channel::AnalogChannel;
use crate::channel::DigitalChannel;
use crate::error::K8055Error;

verus! {

/// The opcode that starts every outbound "set analog and digital state"
/// frame; the only outbound command this hardware defines.
pub const OPCODE_SET_STATE: u8 = 5;

/// One wire message of the card's fixed 8-byte protocol.
#[derive(Clone, Copy, Debug, PartialEq, Eq, Structural)]
pub enum Packet {
    /// Outbound command: digital output mask, analog 1, analog 2.
    SetAnalogDigital(u8, u8, u8),
    /// Inbound report: digital input mask, status byte, analog 1 in, analog 2 in.
    Status(u8, u8, u8, u8),
}

/// The bytes of the outbound frame for digital mask `dig` and analog values
/// `ana1`, `ana2`: the fixed opcode, the three payload bytes, and four zero
/// trailing bytes.
pub open spec fn set_state_frame(dig: u8, ana1: u8, ana2: u8) -> Seq<u8> {
    seq![OPCODE_SET_STATE, dig, ana1, ana2, 0u8, 0u8, 0u8, 0u8]
}

/// Encode an outbound command as its 8-byte frame.
///
/// Only `SetAnalogDigital` has a wire format; every other variant is refused
/// loudly rather than mapped to some default frame.
pub fn encode(p: &Packet) -> (r: Result<[u8; 8], K8055Error>)
    ensures
        *p matches Packet::SetAnalogDigital(dig, ana1, ana2) ==> (r matches Ok(frame)
            && frame@ == set_state_frame(dig, ana1, ana2)),
        *p is Status ==> r == Err::<[u8; 8], K8055Error>(K8055Error::UnsupportedCommand),
{
    match *p {
        Packet::SetAnalogDigital(dig, ana1, ana2) => {
            let frame: [u8; 8] = [OPCODE_SET_STATE, dig, ana1, ana2, 0u8, 0u8, 0u8, 0u8];
            proof {
                assert(frame@ =~= set_state_frame(dig, ana1, ana2));
            }
            Ok(frame)
        },
        Packet::Status(..) => Err(K8055Error::UnsupportedCommand),
    }
}

/// Decode an inbound status frame.
///
/// The frame is positional: digital input mask, status byte, analog input 1,
/// analog input 2, then reserved bytes that are ignored. Any buffer holding
/// the four leading bytes decodes; a shorter one is a short read from the
/// transport and is refused.
pub fn decode(d: &Vec<u8>) -> (r: Result<Packet, K8055Error>)
    ensures
        d@.len() >= 4 ==> r == Ok::<Packet, K8055Error>(Packet::Status(d@[0], d@[1], d@[2], d@[3])),
        d@.len() < 4 ==> r == Err::<Packet, K8055Error>(K8055Error::ShortFrame),
{
    if d.len() < 4 {
        Err(K8055Error::ShortFrame)
    } else {
        Ok(Packet::Status(d[0], d[1], d[2], d[3]))
    }
}

/// The digital-in field of a status frame: its first byte, as a line mask.
pub fn digital_in_of(p: Packet) -> (r: DigitalChannel)
    requires
        p is Status,
    ensures
        p matches Packet::Status(dig, _, _, _) ==> r.bits == dig,
{
    match p {
        Packet::Status(dig, _, _, _) => DigitalChannel { bits: dig },
        Packet::SetAnalogDigital(..) => unreached(),
    }
}

/// The analog-in channel 1 field of a status frame: its third byte.
pub fn analog_in1_of(p: Packet) -> (r: AnalogChannel)
    requires
        p is Status,
    ensures
        p matches Packet::Status(_, _, ana1, _) ==> r == AnalogChannel::A1(ana1),
{
    match p {
        Packet::Status(_, _, ana1, _) => AnalogChannel::A1(ana1),
        Packet::SetAnalogDigital(..) => unreached(),
    }
}

/// The analog-in channel 2 field of a status frame: its fourth byte.
pub fn analog_in2_of(p: Packet) -> (r: AnalogChannel)
    requires
        p is Status,
    ensures
        p matches Packet::Status(_, _, _, ana2) ==> r == AnalogChannel::A2(ana2),
{
    match p {
        Packet::Status(_, _, _, ana2) => AnalogChannel::A2(ana2),
        Packet::SetAnalogDigital(..) => unreached(),
    }
}

} // verus!
