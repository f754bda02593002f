use vstd::prelude::*;

use crate::channel::AnalogChannel;
use crate::channel::DigitalChannel;
use crate::codec;
use crate::codec::Packet;
use crate::codec::analog_in1_of;
use crate::codec::analog_in2_of;
use crate::codec::digital_in_of;
use crate::error::K8055Error;
use crate::transport::Transport;
use crate::transport::CARD_INTERFACE;
use crate::transport::EP_IN;
use crate::transport::EP_OUT;

verus! {

/// A session controlling one card through a transport `T`.
///
/// The session tracks whether the device has been opened and caches the last
/// output state confirmed by a successful write, so that partial updates (a
/// new digital mask, one analog channel) can resend the other, untouched
/// values. The cache starts at zero, the card's power-on default, and changes
/// only when an outbound transfer succeeds.
pub struct K8055<T> {
    port: T,
    opened: bool,
    dig: u8,
    ana1: u8,
    ana2: u8,
}

impl<T> K8055<T> {
    /// Whether `open` has succeeded on this session.
    pub closed spec fn is_open(&self) -> bool {
        self.opened
    }

    /// The cached digital output mask.
    pub closed spec fn dig_out(&self) -> u8 {
        self.dig
    }

    /// The cached analog channel 1 output value.
    pub closed spec fn ana1_out(&self) -> u8 {
        self.ana1
    }

    /// The cached analog channel 2 output value.
    pub closed spec fn ana2_out(&self) -> u8 {
        self.ana2
    }

    /// The transport this session owns.
    pub closed spec fn port(&self) -> T {
        self.port
    }

    /// End the session and hand its transport back; dropping that releases
    /// the device claim.
    pub fn into_port(self) -> (r: T)
        ensures
            r == self.port(),
    {
        self.port
    }
}

/// The cached outputs of `post` are those of `pre`: what every failed or
/// read-only operation must leave behind.
pub open spec fn outputs_unchanged<T>(pre: K8055<T>, post: K8055<T>) -> bool {
    &&& post.dig_out() == pre.dig_out()
    &&& post.ana1_out() == pre.ana1_out()
    &&& post.ana2_out() == pre.ana2_out()
}

/// A successful outbound write: the session stayed open and the cache now
/// holds exactly the values that went out on the wire.
pub open spec fn set_state_ok<T>(pre: K8055<T>, post: K8055<T>, dig: u8, ana1: u8, ana2: u8) -> bool {
    &&& pre.is_open()
    &&& post.is_open()
    &&& post.dig_out() == dig
    &&& post.ana1_out() == ana1
    &&& post.ana2_out() == ana2
}

/// A successful digital write: the new mask is cached, both analog values are
/// resent and cached unchanged.
pub open spec fn digital_write_ok<T>(pre: K8055<T>, post: K8055<T>, d: DigitalChannel) -> bool {
    set_state_ok(pre, post, d.bits, pre.ana1_out(), pre.ana2_out())
}

/// A successful masked digital write: only lines on in `mask` can be set; the
/// rest are forced off, not left as they were.
pub open spec fn masked_digital_write_ok<T>(
    pre: K8055<T>,
    post: K8055<T>,
    d: DigitalChannel,
    mask: DigitalChannel,
) -> bool {
    set_state_ok(pre, post, d.bits & mask.bits, pre.ana1_out(), pre.ana2_out())
}

/// A successful analog write: the targeted channel is cached anew, the other
/// channel and the digital mask are resent and cached unchanged.
pub open spec fn analog_write_ok<T>(pre: K8055<T>, post: K8055<T>, a: AnalogChannel) -> bool {
    match a {
        AnalogChannel::A1(v) => set_state_ok(pre, post, pre.dig_out(), v, pre.ana2_out()),
        AnalogChannel::A2(v) => set_state_ok(pre, post, pre.dig_out(), pre.ana1_out(), v),
    }
}

/// One call of `open`: the result reports the resulting openness, the cached
/// outputs never move, and on an already open session nothing changes at all.
pub open spec fn open_step<T>(pre: K8055<T>, post: K8055<T>, r: bool) -> bool {
    &&& r == post.is_open()
    &&& pre.is_open() ==> post == pre
    &&& outputs_unchanged(pre, post)
}

impl<T: Transport> K8055<T> {
    /// Wrap a transport for one discovered card into an unopened session with
    /// zeroed cached outputs, the card's power-on state.
    pub fn new(port: T) -> (r: K8055<T>)
        ensures
            !r.is_open(),
            r.dig_out() == 0,
            r.ana1_out() == 0,
            r.ana2_out() == 0,
            r.port() == port,
    {
        K8055 { port, opened: false, dig: 0, ana1: 0, ana2: 0 }
    }

    /// Open the device for I/O.
    ///
    /// Returns `true` if the device is now open. On an already open session
    /// this is a no-op success.
    pub fn open(&mut self) -> (r: bool)
        ensures
            open_step(*old(self), *final(self), r),
    {
        if self.opened {
            return true;
        }
        if self.port.open_device() {
            self.opened = true;
            true
        } else {
            false
        }
    }

    /// Encode `p`, claim the interface, send the frame, and cache the sent
    /// values; on any failure the cache keeps its previous values.
    fn write(&mut self, p: &Packet) -> (r: Result<(), K8055Error>)
        ensures
            final(self).is_open() == old(self).is_open(),
            !old(self).is_open() ==> r == Err::<(), K8055Error>(K8055Error::NotOpen),
            r is Err ==> outputs_unchanged(*old(self), *final(self)),
            r is Ok ==> (*p matches Packet::SetAnalogDigital(dig, ana1, ana2) && set_state_ok(
                *old(self),
                *final(self),
                dig,
                ana1,
                ana2,
            )),
            old(self).is_open() && *p is Status ==> r == Err::<(), K8055Error>(
                K8055Error::UnsupportedCommand,
            ),
            old(self).is_open() && *p is SetAnalogDigital ==> (r is Ok || r matches Err(
                K8055Error::TransportFailure(_),
            )),
    {
        if !self.opened {
            return Err(K8055Error::NotOpen);
        }
        let frame = match codec::encode(p) {
            Ok(f) => f,
            Err(e) => {
                return Err(e);
            },
        };
        match self.port.ensure_claimed(CARD_INTERFACE) {
            Ok(()) => {},
            Err(e) => {
                return Err(K8055Error::TransportFailure(e));
            },
        }
        match self.port.write_interrupt(EP_OUT, &frame) {
            Ok(()) => {
                match *p {
                    Packet::SetAnalogDigital(dig, ana1, ana2) => {
                        self.dig = dig;
                        self.ana1 = ana1;
                        self.ana2 = ana2;
                        Ok(())
                    },
                    Packet::Status(..) => unreached(),
                }
            },
            Err(e) => Err(K8055Error::TransportFailure(e)),
        }
    }

    /// Claim the interface, receive one frame, and decode it; the cached
    /// outputs are never touched by a read.
    fn read(&mut self) -> (r: Result<Packet, K8055Error>)
        ensures
            final(self).is_open() == old(self).is_open(),
            outputs_unchanged(*old(self), *final(self)),
            !old(self).is_open() ==> r == Err::<Packet, K8055Error>(K8055Error::NotOpen),
            r matches Ok(p) ==> p is Status,
            old(self).is_open() ==> (r is Ok || r matches Err(K8055Error::TransportFailure(_))
                || r == Err::<Packet, K8055Error>(K8055Error::ShortFrame)),
    {
        if !self.opened {
            return Err(K8055Error::NotOpen);
        }
        match self.port.ensure_claimed(CARD_INTERFACE) {
            Ok(()) => {},
            Err(e) => {
                return Err(K8055Error::TransportFailure(e));
            },
        }
        match self.port.read_interrupt(EP_IN) {
            Ok(data) => codec::decode(&data),
            Err(e) => Err(K8055Error::TransportFailure(e)),
        }
    }

    /// Set the digital mask and both analog outputs to zero in one frame.
    pub fn reset(&mut self) -> (r: Result<(), K8055Error>)
        ensures
            final(self).is_open() == old(self).is_open(),
            !old(self).is_open() ==> r == Err::<(), K8055Error>(K8055Error::NotOpen),
            r is Ok ==> set_state_ok(*old(self), *final(self), 0, 0, 0),
            r is Err ==> outputs_unchanged(*old(self), *final(self)),
            old(self).is_open() ==> (r is Ok || r matches Err(K8055Error::TransportFailure(_))),
    {
        self.write(&Packet::SetAnalogDigital(0u8, 0u8, 0u8))
    }

    /// Write the digital mask `d`, resending the cached analog values.
    pub fn write_digital_out(&mut self, d: DigitalChannel) -> (r: Result<(), K8055Error>)
        ensures
            final(self).is_open() == old(self).is_open(),
            !old(self).is_open() ==> r == Err::<(), K8055Error>(K8055Error::NotOpen),
            r is Ok ==> digital_write_ok(*old(self), *final(self), d),
            r is Err ==> outputs_unchanged(*old(self), *final(self)),
            old(self).is_open() ==> (r is Ok || r matches Err(K8055Error::TransportFailure(_))),
    {
        let p = Packet::SetAnalogDigital(d.bits, self.ana1, self.ana2);
        self.write(&p)
    }

    /// Write `d` masked by `mask`: lines off in `mask` are forced off in the
    /// frame sent, not read back from the device.
    pub fn write_digital_out_mask(&mut self, d: DigitalChannel, mask: DigitalChannel) -> (r: Result<
        (),
        K8055Error,
    >)
        ensures
            final(self).is_open() == old(self).is_open(),
            !old(self).is_open() ==> r == Err::<(), K8055Error>(K8055Error::NotOpen),
            r is Ok ==> masked_digital_write_ok(*old(self), *final(self), d, mask),
            r is Err ==> outputs_unchanged(*old(self), *final(self)),
            old(self).is_open() ==> (r is Ok || r matches Err(K8055Error::TransportFailure(_))),
    {
        self.write_digital_out(d.and(mask))
    }

    /// The cached digital output mask; never touches the hardware.
    pub fn get_digital_out(&mut self) -> (r: DigitalChannel)
        ensures
            *final(self) == *old(self),
            r.bits == old(self).dig_out(),
    {
        DigitalChannel { bits: self.dig }
    }

    /// The cached digital output mask restricted to `d`; never touches the
    /// hardware.
    pub fn get_digital_out_mask(&mut self, d: DigitalChannel) -> (r: DigitalChannel)
        ensures
            *final(self) == *old(self),
            r.bits == (old(self).dig_out() & d.bits),
    {
        DigitalChannel { bits: self.dig & d.bits }
    }

    /// Read a status frame and return its digital input mask, extracted by
    /// [`digital_in_of`].
    pub fn read_digital_in(&mut self) -> (r: Result<DigitalChannel, K8055Error>)
        ensures
            final(self).is_open() == old(self).is_open(),
            outputs_unchanged(*old(self), *final(self)),
            !old(self).is_open() ==> r == Err::<DigitalChannel, K8055Error>(K8055Error::NotOpen),
            old(self).is_open() ==> (r is Ok || r matches Err(K8055Error::TransportFailure(_))
                || r == Err::<DigitalChannel, K8055Error>(K8055Error::ShortFrame)),
    {
        match self.read() {
            Ok(p) => Ok(digital_in_of(p)),
            Err(e) => Err(e),
        }
    }

    /// Read a status frame and return its digital input mask restricted to
    /// `mask`: the value `read_digital_in` yields, intersected with `mask`.
    pub fn read_digital_in_mask(&mut self, mask: DigitalChannel) -> (r: Result<
        DigitalChannel,
        K8055Error,
    >)
        ensures
            final(self).is_open() == old(self).is_open(),
            outputs_unchanged(*old(self), *final(self)),
            !old(self).is_open() ==> r == Err::<DigitalChannel, K8055Error>(K8055Error::NotOpen),
            r matches Ok(c) ==> c.bits == (c.bits & mask.bits),
            old(self).is_open() ==> (r is Ok || r matches Err(K8055Error::TransportFailure(_))
                || r == Err::<DigitalChannel, K8055Error>(K8055Error::ShortFrame)),
    {
        match self.read_digital_in() {
            Ok(c) => {
                let masked = c.and(mask);
                proof {
                    let x = c.bits;
                    let m = mask.bits;
                    assert(((x & m) & m) == (x & m)) by (bit_vector);
                }
                Ok(masked)
            },
            Err(e) => Err(e),
        }
    }

    /// Write one analog output channel, resending the cached digital mask and
    /// the cached value of the other analog channel.
    pub fn write_analog_out(&mut self, a: AnalogChannel) -> (r: Result<(), K8055Error>)
        ensures
            final(self).is_open() == old(self).is_open(),
            !old(self).is_open() ==> r == Err::<(), K8055Error>(K8055Error::NotOpen),
            r is Ok ==> analog_write_ok(*old(self), *final(self), a),
            r is Err ==> outputs_unchanged(*old(self), *final(self)),
            old(self).is_open() ==> (r is Ok || r matches Err(K8055Error::TransportFailure(_))),
    {
        let p = match a {
            AnalogChannel::A1(v) => Packet::SetAnalogDigital(self.dig, v, self.ana2),
            AnalogChannel::A2(v) => Packet::SetAnalogDigital(self.dig, self.ana1, v),
        };
        self.write(&p)
    }

    /// The cached analog channel 1 output value; never touches the hardware.
    pub fn get_analog_out1(&mut self) -> (r: AnalogChannel)
        ensures
            *final(self) == *old(self),
            r == AnalogChannel::A1(old(self).ana1_out()),
    {
        AnalogChannel::A1(self.ana1)
    }

    /// The cached analog channel 2 output value; never touches the hardware.
    pub fn get_analog_out2(&mut self) -> (r: AnalogChannel)
        ensures
            *final(self) == *old(self),
            r == AnalogChannel::A2(old(self).ana2_out()),
    {
        AnalogChannel::A2(self.ana2)
    }

    /// Read a status frame and return its analog channel 1 input value,
    /// extracted by [`analog_in1_of`].
    pub fn read_analog_in1(&mut self) -> (r: Result<AnalogChannel, K8055Error>)
        ensures
            final(self).is_open() == old(self).is_open(),
            outputs_unchanged(*old(self), *final(self)),
            !old(self).is_open() ==> r == Err::<AnalogChannel, K8055Error>(K8055Error::NotOpen),
            r matches Ok(a) ==> a is A1,
            old(self).is_open() ==> (r is Ok || r matches Err(K8055Error::TransportFailure(_))
                || r == Err::<AnalogChannel, K8055Error>(K8055Error::ShortFrame)),
    {
        match self.read() {
            Ok(p) => Ok(analog_in1_of(p)),
            Err(e) => Err(e),
        }
    }

    /// Read a status frame and return its analog channel 2 input value,
    /// extracted by [`analog_in2_of`].
    pub fn read_analog_in2(&mut self) -> (r: Result<AnalogChannel, K8055Error>)
        ensures
            final(self).is_open() == old(self).is_open(),
            outputs_unchanged(*old(self), *final(self)),
            !old(self).is_open() ==> r == Err::<AnalogChannel, K8055Error>(K8055Error::NotOpen),
            r matches Ok(a) ==> a is A2,
            old(self).is_open() ==> (r is Ok || r matches Err(K8055Error::TransportFailure(_))
                || r == Err::<AnalogChannel, K8055Error>(K8055Error::ShortFrame)),
    {
        match self.read() {
            Ok(p) => Ok(analog_in2_of(p)),
            Err(e) => Err(e),
        }
    }
}

/// Writing all lines through any mask `mask` leaves exactly the mask's lines
/// set in the cached digital output: the value a following `get_digital_out`
/// returns is `mask` itself.
pub proof fn lemma_masked_write_full<T>(
    pre: K8055<T>,
    post: K8055<T>,
    d: DigitalChannel,
    mask: DigitalChannel,
)
    requires
        d.bits == 255,
        masked_digital_write_ok(pre, post, d, mask),
    ensures
        post.dig_out() == mask.bits,
{
    let m = mask.bits;
    assert((255u8 & m) == m) by (bit_vector);
}

/// Writing analog channel 1 and then analog channel 2 leaves both cached
/// values in place: neither write disturbs the other channel.
pub proof fn lemma_analog_writes_independent<T>(
    s0: K8055<T>,
    s1: K8055<T>,
    s2: K8055<T>,
    x: u8,
    y: u8,
)
    requires
        analog_write_ok(s0, s1, AnalogChannel::A1(x)),
        analog_write_ok(s1, s2, AnalogChannel::A2(y)),
    ensures
        s1.ana1_out() == x,
        s2.ana1_out() == x,
        s2.ana2_out() == y,
{
}

/// After a successful `reset`, the cached digital mask is the all-off value
/// and both cached analog outputs are zero.
pub proof fn lemma_reset_clears_outputs<T>(pre: K8055<T>, post: K8055<T>)
    requires
        set_state_ok(pre, post, 0, 0, 0),
    ensures
        post.dig_out() == 0,
        post.ana1_out() == 0,
        post.ana2_out() == 0,
{
}

/// Once `open` has succeeded, a second `open` succeeds as well and changes
/// nothing about the session.
pub proof fn lemma_open_idempotent<T>(
    s0: K8055<T>,
    s1: K8055<T>,
    s2: K8055<T>,
    r1: bool,
    r2: bool,
)
    requires
        open_step(s0, s1, r1),
        open_step(s1, s2, r2),
        r1,
    ensures
        r2,
        s2 == s1,
{
}

/// A failed write after a successful digital write leaves the cached outputs
/// at the values the successful write confirmed.
pub proof fn lemma_failed_write_keeps_cache<T>(
    s0: K8055<T>,
    s1: K8055<T>,
    s2: K8055<T>,
    d: DigitalChannel,
)
    requires
        digital_write_ok(s0, s1, d),
        outputs_unchanged(s1, s2),
    ensures
        s2.dig_out() == d.bits,
        s2.ana1_out() == s0.ana1_out(),
        s2.ana2_out() == s0.ana2_out(),
{
}

} // verus!
