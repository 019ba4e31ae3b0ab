//! The GPIO pins: three pin maps mirrored to the FPGA, and the PWM banks.

use vstd::prelude::*;
use crate::error::Error;
use crate::gpio::config::set_pin_config;
use crate::gpio::pin_map::{pin_levels, with_pin, lemma_with_pin_levels};

pub mod bank;
pub mod config;
pub mod pin_map;
pub mod set;

verus! {

/// The three things that are configured for each pin. Each has a pin map of its own
/// and a register of its own on the FPGA.
#[derive(Debug, Clone, Copy, PartialEq, Eq, Structural)]
pub enum Dimension {
    /// Whether a pin is an input or an output.
    Mode,
    /// Whether a pin is off or on.
    State,
    /// Whether a pin is digital or driven by a PWM bank.
    Function,
}

impl Dimension {
    /// Where the register of this dimension lies, counted from the GPIO base address.
    pub open spec fn offset(self) -> u16 {
        match self {
            Dimension::Mode => 0,
            Dimension::State => 1,
            Dimension::Function => 2,
        }
    }

    /// Where the register of this dimension lies, counted from the GPIO base address.
    pub fn address_offset(&self) -> (offset: u16)
        ensures
            offset == self.offset(),
    {
        match self {
            Dimension::Mode => 0,
            Dimension::State => 1,
            Dimension::Function => 2,
        }
    }
}

/// What a [`Gpio`] holds: the map of each dimension, bit `i` for pin `i`.
pub struct PinMaps {
    pub mode: u16,
    pub state: u16,
    pub function: u16,
}

impl PinMaps {
    /// The map of one dimension.
    pub open spec fn get(self, dimension: Dimension) -> u16 {
        match dimension {
            Dimension::Mode => self.mode,
            Dimension::State => self.state,
            Dimension::Function => self.function,
        }
    }

    /// These maps, with `map` in place of the map of one dimension.
    pub open spec fn set(self, dimension: Dimension, map: u16) -> PinMaps {
        match dimension {
            Dimension::Mode => PinMaps { mode: map, ..self },
            Dimension::State => PinMaps { state: map, ..self },
            Dimension::Function => PinMaps { function: map, ..self },
        }
    }
}

/// The pin maps of one board. They mirror what was last sent to the FPGA and are
/// never read back from it. [`Gpio::transition`] is the only way to change them.
///
/// A map is changed before its write is issued, and stays changed whatever becomes
/// of the write: nothing is rolled back when the device later fails to take it.
#[derive(Debug)]
pub struct Gpio {
    mode_pin_map: u16,
    state_pin_map: u16,
    function_pin_map: u16,
}

impl View for Gpio {
    type V = PinMaps;

    closed spec fn view(&self) -> PinMaps {
        PinMaps {
            mode: self.mode_pin_map,
            state: self.state_pin_map,
            function: self.function_pin_map,
        }
    }
}

impl Gpio {
    /// The pin maps of a board on which nothing was configured yet: every bit is zero.
    pub fn new() -> (gpio: Gpio)
        ensures
            gpio@ == (PinMaps { mode: 0, state: 0, function: 0 }),
    {
        Gpio { mode_pin_map: 0, state_pin_map: 0, function_pin_map: 0 }
    }

    /// The current map of one dimension.
    pub fn pin_map(&self, dimension: Dimension) -> (map: u16)
        ensures
            map == self@.get(dimension),
    {
        match dimension {
            Dimension::Mode => self.mode_pin_map,
            Dimension::State => self.state_pin_map,
            Dimension::Function => self.function_pin_map,
        }
    }

    /// Gives `pin` the level `level` in the map of `dimension`, and returns the whole
    /// new map with the offset of the register that must receive it.
    ///
    /// A pin above 15 is refused and changes nothing. Otherwise only the bit of `pin`
    /// in the one map changes.
    pub fn transition(&mut self, dimension: Dimension, pin: u8, level: bool) -> (outcome: Result<
        (u16, u16),
        Error,
    >)
        ensures
            pin > 15 ==> outcome == Err::<(u16, u16), Error>(Error::InvalidPin) && final(self)@
                == old(self)@,
            pin <= 15 ==> outcome == Ok::<(u16, u16), Error>(
                (with_pin(old(self)@.get(dimension), pin, level), dimension.offset()),
            ) && final(self)@ == old(self)@.set(
                dimension,
                with_pin(old(self)@.get(dimension), pin, level),
            ),
            pin <= 15 ==> pin_levels(final(self)@.get(dimension)) == pin_levels(
                old(self)@.get(dimension),
            ).update(pin as int, level),
    {
        if pin > 15 {
            return Err(Error::InvalidPin);
        }
        let mut pin_map: u16 = self.pin_map(dimension);
        let config: u16 = if level {
            1
        } else {
            0
        };
        set_pin_config(pin, config, &mut pin_map);
        proof {
            lemma_with_pin_levels(old(self)@.get(dimension), pin, level);
        }
        match dimension {
            Dimension::Mode => {
                self.mode_pin_map = pin_map;
            },
            Dimension::State => {
                self.state_pin_map = pin_map;
            },
            Dimension::Function => {
                self.function_pin_map = pin_map;
            },
        }
        Ok((pin_map, dimension.address_offset()))
    }
}

} // verus!
