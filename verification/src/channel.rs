use vstd::prelude::*;

verus! {

/// One combination of the card's 8 digital lines, one bit per line.
///
/// Every byte is a valid combination, so [`DigitalChannel::from_bits`] is
/// total. Combinations are built with [`DigitalChannel::and`],
/// [`DigitalChannel::or`] and [`DigitalChannel::xor`].
#[derive(Clone, Copy, Debug, PartialEq, Eq, Structural)]
pub struct DigitalChannel {
    pub bits: u8,
}

impl DigitalChannel {
    /// All lines off.
    pub fn dzero() -> (r: DigitalChannel)
        ensures
            r.bits == 0,
    {
        DigitalChannel { bits: 0 }
    }

    /// Digital line 1.
    pub fn d1() -> (r: DigitalChannel)
        ensures
            r.bits == 1,
    {
        DigitalChannel { bits: 1 }
    }

    /// Digital line 2.
    pub fn d2() -> (r: DigitalChannel)
        ensures
            r.bits == 2,
    {
        DigitalChannel { bits: 2 }
    }

    /// Digital line 3.
    pub fn d3() -> (r: DigitalChannel)
        ensures
            r.bits == 4,
    {
        DigitalChannel { bits: 4 }
    }

    /// Digital line 4.
    pub fn d4() -> (r: DigitalChannel)
        ensures
            r.bits == 8,
    {
        DigitalChannel { bits: 8 }
    }

    /// Digital line 5.
    pub fn d5() -> (r: DigitalChannel)
        ensures
            r.bits == 16,
    {
        DigitalChannel { bits: 16 }
    }

    /// Digital line 6.
    pub fn d6() -> (r: DigitalChannel)
        ensures
            r.bits == 32,
    {
        DigitalChannel { bits: 32 }
    }

    /// Digital line 7.
    pub fn d7() -> (r: DigitalChannel)
        ensures
            r.bits == 64,
    {
        DigitalChannel { bits: 64 }
    }

    /// Digital line 8.
    pub fn d8() -> (r: DigitalChannel)
        ensures
            r.bits == 128,
    {
        DigitalChannel { bits: 128 }
    }

    /// All lines on.
    pub fn dall() -> (r: DigitalChannel)
        ensures
            r.bits == 255,
    {
        DigitalChannel { bits: 255 }
    }

    /// Interpret a raw byte as a line combination; total, every byte is valid.
    pub fn from_bits(bits: u8) -> (r: Option<DigitalChannel>)
        ensures
            r == Some((DigitalChannel { bits })),
    {
        Some(DigitalChannel { bits })
    }

    /// The raw byte of this combination.
    pub fn bits(&self) -> (r: u8)
        ensures
            r == self.bits,
    {
        self.bits
    }

    /// Bitwise intersection: lines on in both combinations.
    pub fn and(self, other: DigitalChannel) -> (r: DigitalChannel)
        ensures
            r.bits == (self.bits & other.bits),
    {
        DigitalChannel { bits: self.bits & other.bits }
    }

    /// Bitwise union: lines on in either combination.
    pub fn or(self, other: DigitalChannel) -> (r: DigitalChannel)
        ensures
            r.bits == (self.bits | other.bits),
    {
        DigitalChannel { bits: self.bits | other.bits }
    }

    /// Bitwise difference of the two combinations: lines on in exactly one.
    pub fn xor(self, other: DigitalChannel) -> (r: DigitalChannel)
        ensures
            r.bits == (self.bits ^ other.bits),
    {
        DigitalChannel { bits: self.bits ^ other.bits }
    }
}

/// The hardware-jumper address of one card, given as the USB product id it
/// selects, or zero for "match any card during discovery".
#[derive(Clone, Copy, Debug, PartialEq, Eq, Structural)]
pub struct CardAddress {
    pub bits: u16,
}

impl CardAddress {
    /// The card jumpered to product id `0x5500`.
    pub fn card_1() -> (r: CardAddress)
        ensures
            r.bits == 0x5500,
    {
        CardAddress { bits: 0x5500 }
    }

    /// The card jumpered to product id `0x5501`.
    pub fn card_2() -> (r: CardAddress)
        ensures
            r.bits == 0x5501,
    {
        CardAddress { bits: 0x5501 }
    }

    /// The card jumpered to product id `0x5502`.
    pub fn card_3() -> (r: CardAddress)
        ensures
            r.bits == 0x5502,
    {
        CardAddress { bits: 0x5502 }
    }

    /// The card jumpered to product id `0x5503`.
    pub fn card_4() -> (r: CardAddress)
        ensures
            r.bits == 0x5503,
    {
        CardAddress { bits: 0x5503 }
    }

    /// Match the first card found at any of the four addresses.
    pub fn card_any() -> (r: CardAddress)
        ensures
            r.bits == 0,
    {
        CardAddress { bits: 0 }
    }
}

/// A value for one of the card's two 8-bit analog output or input channels.
///
/// The selector is part of the value, so a channel-1 value can never be
/// mistaken for a channel-2 value.
#[derive(Clone, Copy, Debug, PartialEq, Eq, Structural)]
pub enum AnalogChannel {
    A1(u8),
    A2(u8),
}

} // verus!
