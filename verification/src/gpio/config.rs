//! What can be configured for a pin, and how a configuration folds into a pin map.

use vstd::prelude::*;
use crate::error::Error;
use crate::gpio::{Dimension, Gpio};
use crate::gpio::pin_map::{pin_levels, with_pin, lemma_with_pin_levels};

verus! {

/// A configuration of one pin: it names the pin map it belongs to and the level
/// it gives the pin there.
pub trait PinConfig {
    /// The pin map that this configuration belongs to.
    spec fn dimension(&self) -> Dimension;

    /// The level that this configuration gives a pin.
    spec fn level(&self) -> bool;

    /// Folds this configuration for `pin` into the pin maps, and returns the whole new
    /// map of its dimension with the offset of the register that must receive it.
    ///
    /// A pin above 15 is refused and changes nothing. Otherwise only the bit of `pin`
    /// in the map of this configuration's dimension changes.
    fn update_pin_map(&self, pin: u8, gpio: &mut Gpio) -> (outcome: Result<(u16, u16), Error>)
        ensures
            pin > 15 ==> outcome == Err::<(u16, u16), Error>(Error::InvalidPin) && final(gpio)@
                == old(gpio)@,
            pin <= 15 ==> outcome == Ok::<(u16, u16), Error>(
                (with_pin(old(gpio)@.get(self.dimension()), pin, self.level()), self.dimension().offset()),
            ) && final(gpio)@ == old(gpio)@.set(
                self.dimension(),
                with_pin(old(gpio)@.get(self.dimension()), pin, self.level()),
            ),
            pin <= 15 ==> pin_levels(final(gpio)@.get(self.dimension())) == pin_levels(
                old(gpio)@.get(self.dimension()),
            ).update(pin as int, self.level()),
    ;
}

/// Represents a pin being used for `Output` or `Input`.
#[derive(Debug, Clone, Copy, PartialEq, Eq, Structural)]
pub enum Mode {
    Input,
    Output,
}

impl PinConfig for Mode {
    open spec fn dimension(&self) -> Dimension {
        Dimension::Mode
    }

    open spec fn level(&self) -> bool {
        *self == Mode::Output
    }

    fn update_pin_map(&self, pin: u8, gpio: &mut Gpio) -> (outcome: Result<(u16, u16), Error>) {
        let level: bool = match self {
            Mode::Input => false,
            Mode::Output => true,
        };
        gpio.transition(Dimension::Mode, pin, level)
    }
}

/// Represents a pin being `On` or `Off`.
#[derive(Debug, Clone, Copy, PartialEq, Eq, Structural)]
pub enum State {
    Off,
    On,
}

impl PinConfig for State {
    open spec fn dimension(&self) -> Dimension {
        Dimension::State
    }

    open spec fn level(&self) -> bool {
        *self == State::On
    }

    fn update_pin_map(&self, pin: u8, gpio: &mut Gpio) -> (outcome: Result<(u16, u16), Error>) {
        let level: bool = match self {
            State::Off => false,
            State::On => true,
        };
        gpio.transition(Dimension::State, pin, level)
    }
}

/// Represents a pin being used for `Digital` or `Pwm`.
#[derive(Debug, Clone, Copy, PartialEq, Eq, Structural)]
pub enum Function {
    Digital,
    Pwm,
}

impl PinConfig for Function {
    open spec fn dimension(&self) -> Dimension {
        Dimension::Function
    }

    open spec fn level(&self) -> bool {
        *self == Function::Pwm
    }

    fn update_pin_map(&self, pin: u8, gpio: &mut Gpio) -> (outcome: Result<(u16, u16), Error>) {
        let level: bool = match self {
            Function::Digital => false,
            Function::Pwm => true,
        };
        gpio.transition(Dimension::Function, pin, level)
    }
}

/// Sets the bit of `pin` in `pin_map` to `config`, which is 0 or 1, and leaves the
/// other fifteen bits as they are. Each bit stands for a pin:
///
/// ```text
/// 0000000000000000   every pin is off
/// 1000000000000011   pins 0, 1 and 15 are on
/// ```
///
/// The bit is first cleared with the mask `1 << pin`, then `config << pin` is OR-ed in.
pub fn set_pin_config(pin: u8, config: u16, pin_map: &mut u16)
    requires
        pin <= 15,
    ensures
        *final(pin_map) == (config << pin) | (*old(pin_map) & !(1u16 << pin)),
        config <= 1 ==> *final(pin_map) == with_pin(*old(pin_map), pin, config == 1),
        config <= 1 ==> pin_levels(*final(pin_map)) == pin_levels(*old(pin_map)).update(
            pin as int,
            config == 1,
        ),
{
    let mask: u16 = 1u16 << pin;
    proof {
        if config <= 1 {
            lemma_with_pin_levels(*pin_map, pin, config == 1);
        }
    }
    *pin_map = config << pin | (*pin_map & !mask);
}

} // verus!
