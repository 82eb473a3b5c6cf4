//! The capability set of a radio device.
use crate::time::Instant;
use vstd::prelude::*;

verus! {

/// An IEEE 802.15.4 device.
pub trait Device {
    /// Powers the radio down.
    fn disable(&mut self);

    /// Powers the radio up.
    fn enable(&mut self);

    /// Hands each frame the device has to `rx`, with the instant it arrived.
    fn receive<RX>(&mut self, rx: RX) where RX: FnMut(&[u8], Instant);

    /// Lets `tx` fill the transmit buffer. `tx` returns the part it wrote, to
    /// be sent, or nothing to abort the transmission.
    fn transmit<TX>(&mut self, tx: TX) where TX: for<'b> Fn(&'b mut [u8]) -> Option<&'b [u8]>;
}

} // verus!
