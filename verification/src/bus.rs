//! The bus: the one channel between the host and the registers of the FPGA.
//!
//! A [`Bus`] does no I/O of its own. Reads and writes are queued in the order in
//! which they were issued, and the driver that owns the device file takes them
//! from the queue and hands each to the device. Bringing a bus up is a
//! conversation of the same kind: [`Bus::init`] and [`BusInit::advance`] say what to
//! ask the device next, and are told what it answered.

use vstd::prelude::*;
use crate::Device;
use crate::bus::frame::{le_value, read_le, Request, Transaction};
use crate::bus::memory_map::{device_info, fpga_address};
use crate::error::Error;

pub mod frame;
pub mod memory_map;
pub mod spi;

verus! {

/// The device file of the register map.
pub const DEVICE_FILE: &'static str = "/dev/matrixio_regmap";

/// How many bytes the identity registers hold: the identity code, then the version.
pub const DEVICE_INFO_LENGTH: u32 = 8;

/// How many bytes the clock register holds.
pub const FPGA_FREQUENCY_LENGTH: u32 = 4;

/// The board that an identity code names.
pub open spec fn device_of(code: u32) -> Device {
    if code == device_info::MATRIX_CREATOR {
        Device::Creator
    } else if code == device_info::MATRIX_VOICE {
        Device::Voice
    } else {
        Device::Unknown
    }
}

/// What the identity registers say: eight bytes, the identity code and then the
/// version of the board, each a little-endian `u32`.
pub open spec fn device_info_of(reply: Seq<u8>) -> Result<(Device, u32), Error> {
    if reply.len() != 8 {
        Err(Error::TransmissionFailure)
    } else if device_of(le_value(reply.subrange(0, 4)) as u32) == Device::Unknown {
        Err(Error::UnknownDevice)
    } else {
        Ok(
            (
                device_of(le_value(reply.subrange(0, 4)) as u32),
                le_value(reply.subrange(4, 8)) as u32,
            ),
        )
    }
}

/// The frequency that a value of the clock register stands for. Its high 16 bits
/// multiply the oscillator's frequency and its low 16 bits divide it.
pub open spec fn frequency_of(raw: u32) -> Result<u32, Error> {
    let value0 = raw as int / 0x1_0000;
    let value1 = raw as int % 0x1_0000;
    if value1 == 0 {
        Err(Error::InvalidFrequency)
    } else if device_info::FPGA_CLOCK * value0 / value1 > u32::MAX {
        Err(Error::InvalidFrequency)
    } else {
        Ok((device_info::FPGA_CLOCK * value0 / value1) as u32)
    }
}

/// What the clock register says: four bytes, a little-endian `u32`.
pub open spec fn fpga_frequency_of(reply: Seq<u8>) -> Result<u32, Error> {
    if reply.len() != 4 {
        Err(Error::TransmissionFailure)
    } else {
        frequency_of(le_value(reply) as u32)
    }
}

/// What the contracts say of a [`Bus`].
pub struct BusView {
    /// The descriptor of the device file.
    pub handle: i32,
    /// The kind of board that is attached.
    pub device_name: Device,
    /// The version of the board.
    pub device_version: u32,
    /// The frequency of the FPGA, in Hz.
    pub fpga_frequency: u32,
    /// Whether the bus still holds its handle.
    pub open: bool,
    /// The transactions that were issued and not yet taken by the driver, oldest first.
    pub pending: Seq<Transaction>,
}

impl BusView {
    /// This bus after one more transaction was issued.
    pub open spec fn issue(self, transaction: Transaction) -> BusView {
        BusView { pending: self.pending.push(transaction), ..self }
    }

    /// This bus after it gave up its handle.
    pub open spec fn closed(self) -> BusView {
        BusView { open: false, ..self }
    }
}

/// Closing a bus a second time changes nothing.
pub proof fn lemma_close_idempotent(bus: BusView)
    ensures
        bus.closed().closed() == bus.closed(),
        !bus.open ==> bus.closed() == bus,
{
}

/// The transactions that a queue of requests stands for.
pub open spec fn transactions(requests: Seq<Request>) -> Seq<Transaction> {
    requests.map_values(|request: Request| request@)
}

/// Bridge for talking to the MATRIX kernel modules. Every read and write of a
/// register of the FPGA goes through it.
#[derive(Debug)]
pub struct Bus {
    board: Board,
    open: bool,
    pending: Vec<Request>,
}

/// What bringing up the bus found out. It does not change afterwards.
#[derive(Debug)]
struct Board {
    regmap_fd: i32,
    device_name: Device,
    device_version: u32,
    fpga_frequency: u32,
}

impl Board {
    #[verifier::type_invariant]
    spec fn well_formed(self) -> bool {
        &&& self.regmap_fd >= 0
        &&& self.device_name != Device::Unknown
    }
}

impl View for Bus {
    type V = BusView;

    closed spec fn view(&self) -> BusView {
        BusView {
            handle: self.board.regmap_fd,
            device_name: self.board.device_name,
            device_version: self.board.device_version,
            fpga_frequency: self.board.fpga_frequency,
            open: self.open,
            pending: transactions(self.pending@),
        }
    }
}

/// How far bringing up a bus has come.
#[derive(Debug, Clone, Copy, PartialEq, Eq, Structural)]
pub enum InitStage {
    /// The identity registers were asked for.
    Identifying,
    /// The board is known, and the clock register was asked for.
    Calibrating { device_name: Device, device_version: u32 },
}

/// A bus that is being brought up: the device is open, and an answer is awaited.
#[derive(Debug)]
pub struct BusInit {
    handle: i32,
    stage: InitStage,
}

/// What to do next while a bus is brought up.
#[derive(Debug)]
pub enum InitStep {
    /// Hand the request to the device, and its answer to [`BusInit::advance`].
    Transfer(BusInit, Request),
    /// The bus is up.
    Ready(Bus),
    /// The bus cannot be brought up. The handle, if there is one, is to be released.
    Failed(Error),
}

/// What the contracts say of an [`InitStep`].
pub enum InitStepView {
    /// The conversation goes on with `handle`, at `stage`, by asking `request`.
    Transfer { handle: i32, stage: InitStage, request: Transaction },
    /// The bus is up.
    Ready(BusView),
    /// The bus cannot be brought up.
    Failed(Error),
}

impl View for InitStep {
    type V = InitStepView;

    open spec fn view(&self) -> InitStepView {
        match self {
            InitStep::Transfer(next, request) => InitStepView::Transfer {
                handle: next.handle(),
                stage: next.stage(),
                request: request@,
            },
            InitStep::Ready(bus) => InitStepView::Ready(bus@),
            InitStep::Failed(error) => InitStepView::Failed(*error),
        }
    }
}

/// The request for the identity registers.
pub open spec fn device_info_request() -> Transaction {
    Transaction::Read { address: fpga_address::CONF as u32, length: DEVICE_INFO_LENGTH }
}

/// The request for the clock register.
pub open spec fn fpga_frequency_request() -> Transaction {
    Transaction::Read { address: (fpga_address::CONF + 4) as u32, length: FPGA_FREQUENCY_LENGTH }
}

/// The first step of bringing up a bus. Without a handle, or with a negative one,
/// there is no transport. Otherwise the device is asked for its identity.
pub open spec fn first_step(handle: Option<i32>) -> InitStepView {
    match handle {
        Some(fd) => if fd >= 0 {
            InitStepView::Transfer {
                handle: fd,
                stage: InitStage::Identifying,
                request: device_info_request(),
            }
        } else {
            InitStepView::Failed(Error::TransportUnavailable)
        },
        None => InitStepView::Failed(Error::TransportUnavailable),
    }
}

/// The step that follows the answer `reply` at `stage`; `None` is a transaction that
/// failed.
///
/// A failed transaction, a bad answer to the identity request and a bad answer to
/// the clock request each end the conversation with their error. A good identity is
/// followed by the request for the clock register, and a good clock ratio by the
/// bus: open, with nothing pending, holding what the two answers said.
pub open spec fn next_step(handle: i32, stage: InitStage, reply: Option<Seq<u8>>) -> InitStepView {
    match reply {
        None => InitStepView::Failed(Error::TransmissionFailure),
        Some(bytes) => match stage {
            InitStage::Identifying => match device_info_of(bytes) {
                Ok((device_name, device_version)) => InitStepView::Transfer {
                    handle,
                    stage: InitStage::Calibrating { device_name, device_version },
                    request: fpga_frequency_request(),
                },
                Err(error) => InitStepView::Failed(error),
            },
            InitStage::Calibrating { device_name, device_version } => match fpga_frequency_of(
                bytes,
            ) {
                Ok(fpga_frequency) => InitStepView::Ready(
                    BusView {
                        handle,
                        device_name,
                        device_version,
                        fpga_frequency,
                        open: true,
                        pending: Seq::empty(),
                    },
                ),
                Err(error) => InitStepView::Failed(error),
            },
        },
    }
}

/// The bytes of an answer, if there is one.
pub open spec fn reply_bytes(reply: Option<Vec<u8>>) -> Option<Seq<u8>> {
    match reply {
        Some(bytes) => Some(bytes@),
        None => None,
    }
}

impl BusInit {
    #[verifier::type_invariant]
    spec fn well_formed(self) -> bool {
        &&& self.handle >= 0
        &&& self.stage matches InitStage::Calibrating { device_name, .. } ==> device_name
            != Device::Unknown
    }

    /// The descriptor of the device file.
    pub closed spec fn handle(&self) -> i32 {
        self.handle
    }

    /// How far bringing up the bus has come.
    pub closed spec fn stage(&self) -> InitStage {
        self.stage
    }

    /// Takes the answer of the device to the request that was handed out last, or
    /// `None` if the transaction failed, and says what to do next.
    ///
    /// A failed transaction and an answer of the wrong length end in
    /// `TransmissionFailure`. An identity code that names no known board ends in
    /// `UnknownDevice`, and the clock register is then never asked for. A clock ratio
    /// without a frequency ends in `InvalidFrequency`. Only when both answers are
    /// good is there a bus: it is open, nothing is pending on it, and it holds what
    /// the two answers said.
    pub fn advance(self, reply: Option<Vec<u8>>) -> (step: InitStep)
        ensures
            step@ == next_step(self.handle(), self.stage(), reply_bytes(reply)),
    {
        proof {
            use_type_invariant(&self);
        }
        let bytes: Vec<u8> = match reply {
            Some(bytes) => bytes,
            None => {
                return InitStep::Failed(Error::TransmissionFailure);
            },
        };
        match self.stage {
            InitStage::Identifying => match Bus::get_device_info(bytes.as_slice()) {
                Ok((device_name, device_version)) => {
                    let next = BusInit {
                        handle: self.handle,
                        stage: InitStage::Calibrating { device_name, device_version },
                    };
                    let address: u32 = (fpga_address::CONF + 4) as u32;
                    InitStep::Transfer(next, Request::read(address, FPGA_FREQUENCY_LENGTH))
                },
                Err(error) => InitStep::Failed(error),
            },
            InitStage::Calibrating { device_name, device_version } => match Bus::get_fpga_frequency(
                bytes.as_slice(),
            ) {
                Ok(fpga_frequency) => {
                    let board = Board {
                        regmap_fd: self.handle,
                        device_name,
                        device_version,
                        fpga_frequency,
                    };
                    let bus = Bus { board, open: true, pending: Vec::new() };
                    assert(bus@.pending =~= Seq::empty());
                    InitStep::Ready(bus)
                },
                Err(error) => InitStep::Failed(error),
            },
        }
    }
}

impl Bus {
    /// Starts bringing up a bus on the device file that the caller has opened:
    /// `handle` is its descriptor, or `None` if it could not be opened.
    ///
    /// Without a handle, or with a negative one, there is no transport. Otherwise the
    /// first thing to ask the device for is its identity.
    pub fn init(handle: Option<i32>) -> (step: InitStep)
        ensures
            step@ == first_step(handle),
    {
        match handle {
            Some(fd) if fd >= 0 => {
                let next = BusInit { handle: fd, stage: InitStage::Identifying };
                let address: u32 = fpga_address::CONF as u32;
                InitStep::Transfer(next, Request::read(address, DEVICE_INFO_LENGTH))
            },
            _ => InitStep::Failed(Error::TransportUnavailable),
        }
    }

    /// The descriptor of the device file.
    pub fn regmap_fd(&self) -> (handle: i32)
        ensures
            handle == self@.handle,
            handle >= 0,
    {
        proof {
            use_type_invariant(&self.board);
        }
        self.board.regmap_fd
    }

    /// The kind of board that is attached. It is never `Unknown`: a bus is only ever
    /// brought up on a board that has identified itself.
    pub fn device_name(&self) -> (device_name: Device)
        ensures
            device_name == self@.device_name,
            device_name != Device::Unknown,
    {
        proof {
            use_type_invariant(&self.board);
        }
        self.board.device_name
    }

    /// The version of the board.
    pub fn device_version(&self) -> (device_version: u32)
        ensures
            device_version == self@.device_version,
    {
        self.board.device_version
    }

    /// The frequency of the FPGA, in Hz.
    pub fn fpga_frequency(&self) -> (fpga_frequency: u32)
        ensures
            fpga_frequency == self@.fpga_frequency,
    {
        self.board.fpga_frequency
    }

    /// Whether the bus still holds its handle.
    pub fn is_open(&self) -> (open: bool)
        ensures
            open == self@.open,
    {
        self.open
    }

    /// Issues one transaction that writes `payload` to `address`.
    pub fn write(&mut self, address: u32, payload: Vec<u8>)
        requires
            old(self)@.open,
            payload@.len() <= u32::MAX,
        ensures
            final(self)@ == old(self)@.issue(Transaction::Write { address, payload: payload@ }),
    {
        self.issue(Request::write(address, payload));
    }

    /// Issues one transaction that asks for `length` bytes starting at `address`.
    /// The driver hands the answer to [`Request::accept`].
    pub fn read(&mut self, address: u32, length: u32)
        requires
            old(self)@.open,
        ensures
            final(self)@ == old(self)@.issue(Transaction::Read { address, length }),
    {
        self.issue(Request::read(address, length));
    }

    /// Gives up the handle. Closing a closed bus changes nothing. What is still
    /// pending stays in the queue.
    pub fn close(&mut self)
        ensures
            final(self)@ == old(self)@.closed(),
    {
        self.open = false;
    }

    /// Takes the pending requests out of the queue, oldest first, to hand them to
    /// the device.
    pub fn take_pending(&mut self) -> (requests: Vec<Request>)
        ensures
            transactions(requests@) == old(self)@.pending,
            final(self)@ == (BusView { pending: Seq::empty(), ..old(self)@ }),
    {
        let mut requests: Vec<Request> = Vec::new();
        core::mem::swap(&mut requests, &mut self.pending);
        assert(transactions(self.pending@) =~= Seq::empty());
        requests
    }

    /// Puts one request at the end of the queue.
    fn issue(&mut self, request: Request)
        ensures
            final(self)@ == old(self)@.issue(request@),
    {
        self.pending.push(request);
        assert(transactions(self.pending@) =~= transactions(old(self).pending@).push(request@));
    }

    /// Reads the answer of the identity registers: the kind of board and its version.
    ///
    /// An answer that is not eight bytes long is a failed transmission. An identity
    /// code other than the two known ones is an unknown device.
    pub fn get_device_info(reply: &[u8]) -> (outcome: Result<(Device, u32), Error>)
        ensures
            outcome == device_info_of(reply@),
    {
        if reply.len() != 8 {
            return Err(Error::TransmissionFailure);
        }
        let (device_name, device_version) = match (read_le(reply, 0), read_le(reply, 4)) {
            (Some(device_name), Some(device_version)) => (device_name, device_version),
            _ => {
                return Err(Error::TransmissionFailure);
            },
        };
        if device_name == device_info::MATRIX_CREATOR {
            Ok((Device::Creator, device_version))
        } else if device_name == device_info::MATRIX_VOICE {
            Ok((Device::Voice, device_version))
        } else {
            Err(Error::UnknownDevice)
        }
    }

    /// Reads the answer of the clock register: the frequency of the FPGA.
    ///
    /// An answer that is not four bytes long is a failed transmission. A ratio whose
    /// low half is zero, or whose frequency does not fit 32 bits, is an invalid
    /// frequency.
    pub fn get_fpga_frequency(reply: &[u8]) -> (outcome: Result<u32, Error>)
        ensures
            outcome == fpga_frequency_of(reply@),
    {
        if reply.len() != 4 {
            return Err(Error::TransmissionFailure);
        }
        let raw: u32 = match read_le(reply, 0) {
            Some(raw) => raw,
            None => {
                return Err(Error::TransmissionFailure);
            },
        };
        assert(reply@.subrange(0, 4) =~= reply@);
        // extract both 16-bit numbers from the register
        let value0: u32 = raw >> 16;
        let value1: u32 = raw & !(value0 << 16);
        assert(value0 == raw / 0x1_0000 && value1 == raw % 0x1_0000) by (bit_vector)
            requires
                value0 == raw >> 16,
                value1 == raw & !(value0 << 16),
        ;
        if value1 == 0 {
            return Err(Error::InvalidFrequency);
        }
        assert(device_info::FPGA_CLOCK * value0 <= 50_000_000 * 0xffff) by (nonlinear_arith)
            requires
                device_info::FPGA_CLOCK == 50_000_000,
                value0 <= 0xffff,
        ;
        let product: u64 = device_info::FPGA_CLOCK as u64 * value0 as u64;
        let frequency: u64 = product / value1 as u64;
        if frequency > u32::MAX as u64 {
            return Err(Error::InvalidFrequency);
        }
        Ok(frequency as u32)
    }
}

} // verus!
