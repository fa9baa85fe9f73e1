use vstd::prelude::*;
use crate::bus::Bus;
use crate::timer::tick;

verus! {

/// The unit that counts the delay counter down.
pub struct Delay {}

impl Delay {
    /// A delay unit. It holds no state of its own.
    pub fn new() -> (delay: Delay) {
        Delay {  }
    }

    /// One tick: a delay counter above zero loses one; at zero nothing
    /// changes.
    pub fn update(&mut self, bus: &mut impl DelayBus)
        ensures
            *final(self) == *old(self),
            final(bus).delay() == tick(old(bus).delay()),
            *final(bus) == (if old(bus).delay() > 0 {
                old(bus).with_delay(tick(old(bus).delay()))
            } else {
                *old(bus)
            }),
    {
        let value = bus.read_delay();

        if value > 0 {
            bus.write_delay(value - 1);
        }
    }
}

/// What the delay unit asks of the peripherals: access to the delay counter.
pub trait DelayBus: Sized {
    /// The delay counter.
    spec fn delay(&self) -> u8;

    /// The same peripherals with `value` in the delay counter.
    spec fn with_delay(&self, value: u8) -> Self;

    /// Sets the delay counter and nothing else.
    fn write_delay(&mut self, value: u8)
        ensures
            *final(self) == old(self).with_delay(value),
            final(self).delay() == value,
    ;

    /// The delay counter.
    fn read_delay(&self) -> (value: u8)
        ensures
            value == self.delay(),
    ;
}

impl DelayBus for Bus {
    open spec fn delay(&self) -> u8 {
        self.delay
    }

    open spec fn with_delay(&self, value: u8) -> Bus {
        Bus { delay: value, ..*self }
    }

    fn write_delay(&mut self, value: u8) {
        self.delay = value;
    }

    fn read_delay(&self) -> (value: u8) {
        self.delay
    }
}

} // verus!
