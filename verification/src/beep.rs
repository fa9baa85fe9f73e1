use vstd::prelude::*;
use crate::bus::Bus;
use crate::timer::tick;

verus! {

/// What the host does to its tone generator after a tick.
#[derive(Copy, Clone, Debug, PartialEq, Eq, Structural)]
pub enum AudioAction {
    /// Start the tone.
    Resume,
    /// Stop the tone.
    Pause,
    /// Leave the tone as it is.
    Keep,
}

/// The unit that counts the sound counter down and says whether to beep.
pub struct Beeper {
    beep: bool,
}

impl View for Beeper {
    type V = bool;

    /// Whether the sound counter was above zero when the last tick ended.
    closed spec fn view(&self) -> bool {
        self.beep
    }
}

impl Beeper {
    /// A silent beeper.
    pub fn new() -> (beeper: Beeper)
        ensures
            !beeper@,
    {
        Beeper { beep: false }
    }

    /// One tick: a sound counter above zero loses one, and at zero nothing
    /// changes in the peripherals; then the beeper sounds if the counter is
    /// still above zero.
    pub fn update(&mut self, bus: &mut impl BeeperBus)
        ensures
            final(self)@ == (final(bus).sound() > 0),
            final(bus).sound() == tick(old(bus).sound()),
            *final(bus) == (if old(bus).sound() > 0 {
                old(bus).with_sound(tick(old(bus).sound()))
            } else {
                *old(bus)
            }),
    {
        let value = bus.read_sound();

        if value > 0 {
            bus.write_sound(value - 1);
        }

        self.beep = bus.read_sound() > 0;
    }

    /// What to do with a tone generator that is playing or not: start it
    /// when the beeper sounds and it is silent, stop it when the beeper is
    /// silent and it plays, else leave it.
    pub fn audio_action(&self, playing: bool) -> (action: AudioAction)
        ensures
            action == (if self@ && !playing {
                AudioAction::Resume
            } else if !self@ && playing {
                AudioAction::Pause
            } else {
                AudioAction::Keep
            }),
    {
        if self.is_beeping() {
            if !playing {
                AudioAction::Resume
            } else {
                AudioAction::Keep
            }
        } else if playing {
            AudioAction::Pause
        } else {
            AudioAction::Keep
        }
    }

    /// Whether the beeper sounds.
    pub fn is_beeping(&self) -> (beeping: bool)
        ensures
            beeping == self@,
    {
        self.beep
    }
}

/// What the beeper asks of the peripherals: access to the sound counter.
pub trait BeeperBus: Sized {
    /// The sound counter.
    spec fn sound(&self) -> u8;

    /// The same peripherals with `value` in the sound counter.
    spec fn with_sound(&self, value: u8) -> Self;

    /// Sets the sound counter and nothing else.
    fn write_sound(&mut self, value: u8)
        ensures
            *final(self) == old(self).with_sound(value),
            final(self).sound() == value,
    ;

    /// The sound counter.
    fn read_sound(&self) -> (value: u8)
        ensures
            value == self.sound(),
    ;
}

impl BeeperBus for Bus {
    open spec fn sound(&self) -> u8 {
        self.beep
    }

    open spec fn with_sound(&self, value: u8) -> Bus {
        Bus { beep: value, ..*self }
    }

    fn read_sound(&self) -> (value: u8) {
        self.beep
    }

    fn write_sound(&mut self, value: u8) {
        self.beep = value;
    }
}

} // verus!
