//! The PWM banks: four groups of four pins, each with a timer block of its own.

use vstd::prelude::*;
use crate::bus::Bus;
use crate::bus::frame::{register_payload, Transaction};
use crate::bus::memory_map::fpga_address;

verus! {

/// How many banks a board has.
pub const BANK_COUNT: usize = 4;

/// How far the timer block of the first bank lies behind the GPIO base address.
pub const BANK_BASE: u16 = 4;

/// How far the timer block of one bank lies behind that of the bank before it.
pub const BANK_STRIDE: u16 = 6;

/// Where the timer block of bank `index` starts.
pub open spec fn bank_offset(index: int) -> int {
    fpga_address::GPIO + BANK_BASE + BANK_STRIDE * index
}

/// The timer blocks of two different banks share no address: each is one stride
/// long, and the next one starts where it ends.
pub proof fn lemma_banks_apart(first: int, second: int)
    requires
        0 <= first < second < BANK_COUNT,
    ensures
        bank_offset(first) + BANK_STRIDE <= bank_offset(second),
        bank_offset(second) + BANK_STRIDE <= u16::MAX,
{
}

/// Bank contains functions to configure a PWM.
/// A bank is a set of 4 pins, starting from pin 0 and going in order.
///
/// Bank 0: pins 0 to 3
///
/// Bank 1: pins 4 to 7
///
/// Bank 2: pins 8 to 11
///
/// Bank 3: pins 12 to 15
#[derive(Debug, Clone, Copy, PartialEq, Eq, Structural)]
pub struct Bank {
    /// FPGA memory offset
    pub memory_offset: u16,
    /// The period that was set last.
    pub timer_setup: u16,
}

impl Bank {
    /// Create a new instance of GPIO Bank.
    pub fn new() -> (bank: Bank)
        ensures
            bank == (Bank { memory_offset: 0, timer_setup: 0 }),
    {
        Bank { memory_offset: 0x0, timer_setup: 0x0 }
    }

    /// Create 4 banks configured for use in a MATRIX device.
    pub fn new_set() -> (banks: Vec<Bank>)
        ensures
            banks@.len() == BANK_COUNT,
            forall|i: int|
                0 <= i < BANK_COUNT ==> #[trigger] banks@[i] == (Bank {
                    memory_offset: bank_offset(i) as u16,
                    timer_setup: 0,
                }),
    {
        // create a bank for each set of 4 pins
        let mut banks: Vec<Bank> = Vec::new();

        // configure each bank with the proper address offsets
        let mut gpio_base_address: u16 = fpga_address::GPIO + BANK_BASE;
        while banks.len() < BANK_COUNT
            invariant
                banks@.len() <= BANK_COUNT,
                gpio_base_address == bank_offset(banks@.len() as int),
                forall|i: int|
                    0 <= i < banks@.len() ==> #[trigger] banks@[i] == (Bank {
                        memory_offset: bank_offset(i) as u16,
                        timer_setup: 0,
                    }),
            decreases BANK_COUNT - banks@.len(),
        {
            let mut bank = Bank::new();
            bank.memory_offset = gpio_base_address;
            banks.push(bank);
            gpio_base_address = gpio_base_address + BANK_STRIDE;
        }

        banks
    }

    /// Set the period for PWM: writes `period` to the register behind the start of
    /// the timer block, and keeps it as the period that was set last.
    pub fn set_period(&mut self, bus: &mut Bus, period: u16)
        requires
            old(bus)@.open,
        ensures
            *final(self) == (Bank { timer_setup: period, ..*old(self) }),
            final(bus)@ == old(bus)@.issue(
                Transaction::register_write((old(self).memory_offset + 1) as u32, period),
            ),
    {
        Bank::bus_write(bus, self.memory_offset as u32 + 1, period);
        self.timer_setup = period;
    }

    /// Set the duty cycle for PWM: writes `duty` to the register of `channel`. The
    /// channels of a bank are 0 to 3. A channel above 3 is not refused: it addresses
    /// a register behind the bank's own, `channel + 2` behind the start of its block.
    pub fn set_duty(&self, bus: &mut Bus, channel: u16, duty: u16)
        requires
            old(bus)@.open,
        ensures
            final(bus)@ == old(bus)@.issue(
                Transaction::register_write((self.memory_offset + 2 + channel) as u32, duty),
            ),
    {
        Bank::bus_write(bus, self.memory_offset as u32 + 2 + channel as u32, duty);
    }

    /// Send a bank configuration to the MATRIX bus.
    fn bus_write(bus: &mut Bus, memory_offset: u32, timer_setup: u16)
        requires
            old(bus)@.open,
        ensures
            final(bus)@ == old(bus)@.issue(Transaction::register_write(memory_offset, timer_setup)),
    {
        bus.write(memory_offset, register_payload(timer_setup));
    }
}

} // verus!
