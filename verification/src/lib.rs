//! A CHIP-8 virtual machine: the processor, its peripherals and the two
//! timer units, with the behaviour of every instruction stated and proved.
//!
//! The machine is driven from outside: a host calls [`cpu::Cpu::emulate`]
//! once per processor cycle and the `update` of [`delay::Delay`] and
//! [`beep::Beeper`] once per timer tick, sets the keys of the keypad, and
//! shows the display.
//!
//! [`isa`] defines what each instruction does to the machine as a value;
//! [`sprite`] and [`theorems`] hold what follows from those definitions.

pub mod beep;
pub mod bus;
pub mod cpu;
pub mod delay;
pub mod isa;
pub mod keypad;
pub mod rom;
pub mod sprite;
pub mod state;
pub mod theorems;
pub mod timer;
