//! The raw SPI link to the board: how it is configured, and the ioctl request codes
//! that configure it.
//!
//! A request code packs four fields into 32 bits, from the top: two bits for the
//! direction, fourteen for the size of the argument, eight for the magic byte of
//! the driver and eight for the number of the command.

use vstd::prelude::*;

verus! {

/// The device file of the SPI link.
pub const SPI_DEVICE_FILE: &'static str = "/dev/spidev0.0";

/// The magic byte of the SPI driver, the letter `k`.
pub const SPI_IOC_MAGIC: u8 = 0x6b;

/// The SPI mode of the link.
pub const SPI_MODE: u32 = 3;

/// The bits of a word on the link.
pub const SPI_BITS: u32 = 8;

/// The highest clock of the link, in Hz.
pub const SPI_SPEED: u32 = 15_000_000;

/// The delay between transfers on the link, in microseconds.
pub const SPI_DELAY: u32 = 0;

/// Which way the argument of an ioctl goes, as seen by the caller.
#[derive(Debug, Clone, Copy, PartialEq, Eq, Structural)]
pub enum Direction {
    /// The driver fills the argument in.
    Read,
    /// The driver takes the argument.
    Write,
}

impl Direction {
    /// The two direction bits of a request code.
    pub open spec fn bits(self) -> u32 {
        match self {
            Direction::Read => 2,
            Direction::Write => 1,
        }
    }
}

/// What of the link is configured.
#[derive(Debug, Clone, Copy, PartialEq, Eq, Structural)]
pub enum SpiSetting {
    /// The SPI mode.
    Mode,
    /// The bits of a word.
    BitsPerWord,
    /// The highest clock, in Hz.
    MaxSpeedHz,
}

impl SpiSetting {
    /// The number of the command that reads or writes the setting.
    pub open spec fn number_of(self) -> u8 {
        match self {
            SpiSetting::Mode => 1,
            SpiSetting::BitsPerWord => 3,
            SpiSetting::MaxSpeedHz => 4,
        }
    }

    /// The size of the argument, in bytes.
    pub open spec fn size_of(self) -> u16 {
        match self {
            SpiSetting::Mode => 1,
            SpiSetting::BitsPerWord => 1,
            SpiSetting::MaxSpeedHz => 4,
        }
    }

    /// The value that the link is configured with.
    pub open spec fn value_of(self) -> u32 {
        match self {
            SpiSetting::Mode => SPI_MODE,
            SpiSetting::BitsPerWord => SPI_BITS,
            SpiSetting::MaxSpeedHz => SPI_SPEED,
        }
    }

    /// The number of the command that reads or writes the setting.
    pub fn number(&self) -> (number: u8)
        ensures
            number == self.number_of(),
    {
        match self {
            SpiSetting::Mode => 1,
            SpiSetting::BitsPerWord => 3,
            SpiSetting::MaxSpeedHz => 4,
        }
    }

    /// The size of the argument, in bytes.
    pub fn size(&self) -> (size: u16)
        ensures
            size == self.size_of(),
    {
        match self {
            SpiSetting::Mode => 1,
            SpiSetting::BitsPerWord => 1,
            SpiSetting::MaxSpeedHz => 4,
        }
    }

    /// The value that the link is configured with.
    pub fn value(&self) -> (value: u32)
        ensures
            value == self.value_of(),
    {
        match self {
            SpiSetting::Mode => SPI_MODE,
            SpiSetting::BitsPerWord => SPI_BITS,
            SpiSetting::MaxSpeedHz => SPI_SPEED,
        }
    }
}

/// The request code of a command. Of `size` only the low fourteen bits count.
pub open spec fn request_code_of(direction: Direction, magic: u8, number: u8, size: u16) -> int {
    direction.bits() * 0x4000_0000 + (size % 0x4000) * 0x1_0000 + magic * 0x100 + number
}

/// The request code of the command that reads or writes a setting of the SPI link.
pub open spec fn spi_request_code_of(direction: Direction, setting: SpiSetting) -> int {
    request_code_of(direction, SPI_IOC_MAGIC, setting.number_of(), setting.size_of())
}

/// Packs the four fields of a command into its request code.
pub fn request_code(direction: Direction, magic: u8, number: u8, size: u16) -> (code: u32)
    ensures
        code == request_code_of(direction, magic, number, size),
{
    let bits: u32 = match direction {
        Direction::Read => 2,
        Direction::Write => 1,
    };
    let code: u32 = (bits << 30) | ((size as u32 & 0x3fff) << 16) | ((magic as u32) << 8)
        | number as u32;
    assert(code == bits * 0x4000_0000 + (size % 0x4000) * 0x1_0000 + magic * 0x100 + number)
        by (bit_vector)
        requires
            code == (bits << 30) | ((size as u32 & 0x3fff) << 16) | ((magic as u32) << 8)
                | number as u32,
            bits == 1 || bits == 2,
    ;
    code
}

/// The request code of the command that reads or writes a setting of the SPI link.
pub fn spi_request_code(direction: Direction, setting: SpiSetting) -> (code: u32)
    ensures
        code == spi_request_code_of(direction, setting),
{
    request_code(direction, SPI_IOC_MAGIC, setting.number(), setting.size())
}

/// One command to the SPI driver.
#[derive(Debug, Clone, Copy, PartialEq, Eq, Structural)]
pub struct SpiCommand {
    /// Which way the argument goes.
    pub direction: Direction,
    /// What is configured.
    pub setting: SpiSetting,
    /// The request code to hand to the driver.
    pub request_code: u32,
    /// The value that the driver takes for the setting, or is expected to give.
    pub value: u32,
}

/// The command that writes or reads `setting`.
pub open spec fn spi_command_of(direction: Direction, setting: SpiSetting) -> SpiCommand {
    SpiCommand {
        direction,
        setting,
        request_code: spi_request_code_of(direction, setting) as u32,
        value: setting.value_of(),
    }
}

/// The commands that configure the link: each setting is written and then read,
/// the mode first, then the bits of a word, then the speed.
pub open spec fn spi_setup_of() -> Seq<SpiCommand> {
    seq![
        spi_command_of(Direction::Write, SpiSetting::Mode),
        spi_command_of(Direction::Read, SpiSetting::Mode),
        spi_command_of(Direction::Write, SpiSetting::BitsPerWord),
        spi_command_of(Direction::Read, SpiSetting::BitsPerWord),
        spi_command_of(Direction::Write, SpiSetting::MaxSpeedHz),
        spi_command_of(Direction::Read, SpiSetting::MaxSpeedHz),
    ]
}

/// The command that writes or reads `setting`.
pub fn spi_command(direction: Direction, setting: SpiSetting) -> (command: SpiCommand)
    ensures
        command == spi_command_of(direction, setting),
{
    SpiCommand {
        direction,
        setting,
        request_code: spi_request_code(direction, setting),
        value: setting.value(),
    }
}

/// The commands that configure the link, in the order in which the driver is to
/// get them. The link is configured when the driver has taken each of them.
pub fn spi_setup() -> (commands: Vec<SpiCommand>)
    ensures
        commands@ == spi_setup_of(),
{
    let mut commands: Vec<SpiCommand> = Vec::new();
    commands.push(spi_command(Direction::Write, SpiSetting::Mode));
    commands.push(spi_command(Direction::Read, SpiSetting::Mode));
    commands.push(spi_command(Direction::Write, SpiSetting::BitsPerWord));
    commands.push(spi_command(Direction::Read, SpiSetting::BitsPerWord));
    commands.push(spi_command(Direction::Write, SpiSetting::MaxSpeedHz));
    commands.push(spi_command(Direction::Read, SpiSetting::MaxSpeedHz));
    assert(commands@ =~= spi_setup_of());
    commands
}

/// The six request codes of the SPI link, as the kernel's header gives them.
pub proof fn lemma_spi_request_codes()
    ensures
        spi_request_code_of(Direction::Read, SpiSetting::Mode) == 2147576577,
        spi_request_code_of(Direction::Read, SpiSetting::BitsPerWord) == 2147576579,
        spi_request_code_of(Direction::Read, SpiSetting::MaxSpeedHz) == 2147773188,
        spi_request_code_of(Direction::Write, SpiSetting::Mode) == 1073834753,
        spi_request_code_of(Direction::Write, SpiSetting::BitsPerWord) == 1073834755,
        spi_request_code_of(Direction::Write, SpiSetting::MaxSpeedHz) == 1074031364,
{
}

} // verus!
