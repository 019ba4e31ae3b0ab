//! Transactions and their layout on the wire.
//!
//! Every request to the device starts with the same header of eight bytes, the
//! address and then the length, each a little-endian `u32`. A write carries its
//! payload behind the header; a read is answered with as many bytes as it asked for.

use vstd::prelude::*;
use crate::bus::memory_map::ioctl_code;
use crate::error::Error;

verus! {

/// The four bytes of `value`, least significant first.
pub open spec fn le_bytes(value: u32) -> Seq<u8> {
    seq![
        (value % 256) as u8,
        (value / 256 % 256) as u8,
        (value / 65536 % 256) as u8,
        (value / 16777216) as u8,
    ]
}

/// The number that four bytes stand for, least significant first.
pub open spec fn le_value(bytes: Seq<u8>) -> int
    recommends
        bytes.len() == 4,
{
    bytes[0] + 256 * bytes[1] + 65536 * bytes[2] + 16777216 * bytes[3]
}

/// The two bytes of a register value, least significant first.
pub open spec fn register_bytes(value: u16) -> Seq<u8> {
    seq![(value % 256) as u8, (value / 256) as u8]
}

/// Reading back the four bytes of a number gives the number.
pub proof fn lemma_le_value_of_bytes(value: u32)
    ensures
        le_bytes(value).len() == 4,
        le_value(le_bytes(value)) == value,
{
    assert(value == value % 256 + 256 * (value / 256 % 256) + 65536 * (value / 65536 % 256)
        + 16777216 * (value / 16777216)) by (bit_vector);
    assert(value / 16777216 < 256) by (bit_vector);
}

/// Four bytes stand for a number of 32 bits, and writing that number out gives the
/// four bytes again.
pub proof fn lemma_le_bytes_of_value(bytes: Seq<u8>)
    requires
        bytes.len() == 4,
    ensures
        0 <= le_value(bytes) <= u32::MAX,
        le_bytes(le_value(bytes) as u32) == bytes,
{
    let b0: u8 = bytes[0];
    let b1: u8 = bytes[1];
    let b2: u8 = bytes[2];
    let b3: u8 = bytes[3];
    let value: u32 = le_value(bytes) as u32;
    assert(value == b0 + 256 * b1 + 65536 * b2 + 16777216 * b3);
    assert(value % 256 == b0 && value / 256 % 256 == b1 && value / 65536 % 256 == b2 && value
        / 16777216 == b3) by (bit_vector)
        requires
            value == b0 + 256 * b1 + 65536 * b2 + 16777216 * b3,
    ;
    assert(le_bytes(value) =~= bytes);
}

/// One transaction with the FPGA, as the contracts speak of it.
pub enum Transaction {
    /// Asks for `length` bytes that start at `address`.
    Read { address: u32, length: u32 },
    /// Writes `payload` to `address`.
    Write { address: u32, payload: Seq<u8> },
}

impl Transaction {
    /// The address that the transaction starts at.
    pub open spec fn address(self) -> u32 {
        match self {
            Transaction::Read { address, .. } => address,
            Transaction::Write { address, .. } => address,
        }
    }

    /// How many bytes are read or written.
    pub open spec fn length(self) -> nat {
        match self {
            Transaction::Read { length, .. } => length as nat,
            Transaction::Write { payload, .. } => payload.len(),
        }
    }

    /// The bytes handed to the device: the header, and behind it the payload of a write.
    pub open spec fn frame(self) -> Seq<u8> {
        match self {
            Transaction::Read { address, length } => le_bytes(address) + le_bytes(length),
            Transaction::Write { address, payload } => le_bytes(address) + le_bytes(
                payload.len() as u32,
            ) + payload,
        }
    }

    /// The write of one register value, two bytes long.
    pub open spec fn register_write(address: u32, value: u16) -> Transaction {
        Transaction::Write { address, payload: register_bytes(value) }
    }
}

/// A frame is read back as it was written: its first eight bytes are the address
/// and the length of the transaction, and what follows is the payload of a write.
pub proof fn lemma_frame_read_back(transaction: Transaction)
    requires
        transaction.length() <= u32::MAX,
    ensures
        le_value(transaction.frame().subrange(0, 4)) == transaction.address(),
        le_value(transaction.frame().subrange(4, 8)) == transaction.length(),
        transaction matches Transaction::Read { .. } ==> transaction.frame().len() == 8,
        transaction matches Transaction::Write { payload, .. } ==> transaction.frame().subrange(
            8,
            transaction.frame().len() as int,
        ) == payload,
{
    let frame = transaction.frame();
    let address = transaction.address();
    let length = transaction.length() as u32;
    lemma_le_value_of_bytes(address);
    lemma_le_value_of_bytes(length);
    assert(frame.subrange(0, 4) =~= le_bytes(address));
    assert(frame.subrange(4, 8) =~= le_bytes(length));
    if let Transaction::Write { payload, .. } = transaction {
        assert(frame.subrange(8, frame.len() as int) =~= payload);
    }
}

/// One transaction with the FPGA, ready to be handed to the device.
#[derive(Debug)]
pub struct Request {
    address: u32,
    length: u32,
    payload: Vec<u8>,
    write: bool,
}

impl View for Request {
    type V = Transaction;

    closed spec fn view(&self) -> Transaction {
        if self.write {
            Transaction::Write { address: self.address, payload: self.payload@ }
        } else {
            Transaction::Read { address: self.address, length: self.length }
        }
    }
}

impl Request {
    #[verifier::type_invariant]
    spec fn well_formed(self) -> bool {
        if self.write {
            self.payload@.len() == self.length
        } else {
            self.payload@.len() == 0
        }
    }

    /// A request for `length` bytes that start at `address`.
    pub fn read(address: u32, length: u32) -> (request: Request)
        ensures
            request@ == (Transaction::Read { address, length }),
    {
        Request { address, length, payload: Vec::new(), write: false }
    }

    /// A request that writes `payload` to `address`.
    pub fn write(address: u32, payload: Vec<u8>) -> (request: Request)
        requires
            payload@.len() <= u32::MAX,
        ensures
            request@ == (Transaction::Write { address, payload: payload@ }),
    {
        let length: u32 = payload.len() as u32;
        Request { address, length, payload, write: true }
    }

    /// The address that the request starts at.
    pub fn address(&self) -> (address: u32)
        ensures
            address == self@.address(),
    {
        self.address
    }

    /// How many bytes are read or written.
    pub fn length(&self) -> (length: u32)
        ensures
            length == self@.length(),
    {
        proof {
            use_type_invariant(self);
        }
        self.length
    }

    /// Whether the request writes.
    pub fn is_write(&self) -> (write: bool)
        ensures
            write == (self@ is Write),
    {
        self.write
    }

    /// The bytes that a write carries; none for a read.
    pub fn payload(&self) -> (payload: &Vec<u8>)
        ensures
            payload@ == (match self@ {
                Transaction::Read { .. } => Seq::<u8>::empty(),
                Transaction::Write { payload, .. } => payload,
            }),
    {
        proof {
            use_type_invariant(self);
        }
        &self.payload
    }

    /// The ioctl request code under which the device file takes this request.
    pub fn ioctl_code(&self) -> (code: i32)
        ensures
            code == (if self@ is Write {
                ioctl_code::WRITE
            } else {
                ioctl_code::READ
            }),
    {
        if self.write {
            ioctl_code::WRITE
        } else {
            ioctl_code::READ
        }
    }

    /// The bytes to hand to the device: the header, and behind it the payload of a write.
    pub fn encode(&self) -> (frame: Vec<u8>)
        ensures
            frame@ == self@.frame(),
    {
        proof {
            use_type_invariant(self);
        }
        let mut frame: Vec<u8> = Vec::new();
        push_le_bytes(&mut frame, self.address);
        push_le_bytes(&mut frame, self.length);
        let mut i: usize = 0;
        while i < self.payload.len()
            invariant
                i <= self.payload@.len(),
                frame@ == le_bytes(self.address) + le_bytes(self.length) + self.payload@.subrange(
                    0,
                    i as int,
                ),
            decreases self.payload@.len() - i,
        {
            frame.push(self.payload[i]);
            i = i + 1;
        }
        assert(self.payload@.subrange(0, i as int) =~= self.payload@);
        frame
    }

    /// Takes the answer of the device to a read: the bytes, if they are as many as
    /// the request asked for. Any other answer, and any answer to a write, is a
    /// failed transmission.
    pub fn accept(&self, reply: Vec<u8>) -> (outcome: Result<Vec<u8>, Error>)
        ensures
            (self@ is Read && reply@.len() == self@.length()) ==> outcome == Ok::<Vec<u8>, Error>(
                reply,
            ),
            !(self@ is Read && reply@.len() == self@.length()) ==> outcome == Err::<
                Vec<u8>,
                Error,
            >(Error::TransmissionFailure),
    {
        if !self.write && reply.len() == self.length as usize {
            Ok(reply)
        } else {
            Err(Error::TransmissionFailure)
        }
    }
}

/// Appends the four bytes of `value` to `frame`, least significant first.
fn push_le_bytes(frame: &mut Vec<u8>, value: u32)
    ensures
        final(frame)@ == old(frame)@ + le_bytes(value),
{
    frame.push((value % 256) as u8);
    frame.push((value / 256 % 256) as u8);
    frame.push((value / 65536 % 256) as u8);
    frame.push((value / 16777216) as u8);
    assert(frame@ =~= old(frame)@ + le_bytes(value));
}

/// The number that the four bytes of `bytes` from `at` on stand for, least
/// significant first; `None` where fewer than four bytes are left.
pub fn read_le(bytes: &[u8], at: usize) -> (value: Option<u32>)
    ensures
        at + 4 <= bytes@.len() ==> value == Some(
            le_value(bytes@.subrange(at as int, at + 4)) as u32,
        ),
        at + 4 > bytes@.len() ==> value is None,
{
    if bytes.len() < 4 || at > bytes.len() - 4 {
        return None;
    }
    let b0: u32 = bytes[at] as u32;
    let b1: u32 = bytes[at + 1] as u32;
    let b2: u32 = bytes[at + 2] as u32;
    let b3: u32 = bytes[at + 3] as u32;
    Some(b0 + 256 * b1 + 65536 * b2 + 16777216 * b3)
}

/// The two bytes of a register value, least significant first.
pub fn register_payload(value: u16) -> (payload: Vec<u8>)
    ensures
        payload@ == register_bytes(value),
{
    let mut payload: Vec<u8> = Vec::new();
    payload.push((value % 256) as u8);
    payload.push((value / 256) as u8);
    assert(payload@ =~= register_bytes(value));
    payload
}

} // verus!
