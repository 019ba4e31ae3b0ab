use matrix_rhal::bus::frame::{read_le, register_payload, Request};
use matrix_rhal::bus::memory_map::{device_info, fpga_address, ioctl_code};
use matrix_rhal::bus::{Bus, InitStep, DEVICE_FILE, DEVICE_INFO_LENGTH, FPGA_FREQUENCY_LENGTH};
use matrix_rhal::error::Error;
use matrix_rhal::Device;

fn le(value: u32) -> Vec<u8> {
    vec![
        (value & 0xff) as u8,
        ((value >> 8) & 0xff) as u8,
        ((value >> 16) & 0xff) as u8,
        (value >> 24) as u8,
    ]
}

fn identity(code: u32, version: u32) -> Vec<u8> {
    let mut reply = le(code);
    reply.extend(le(version));
    reply
}

/// Runs the whole conversation with the answers given, and returns how it ended.
fn converse(handle: Option<i32>, identity: Option<Vec<u8>>, clock: Option<Vec<u8>>) -> InitStep {
    let first = match Bus::init(handle) {
        InitStep::Transfer(next, _) => next,
        step => return step,
    };
    let second = match first.advance(identity) {
        InitStep::Transfer(next, _) => next,
        step => return step,
    };
    second.advance(clock)
}

fn failure(step: InitStep) -> Error {
    match step {
        InitStep::Failed(error) => error,
        other => panic!("the bus came up or goes on: {:?}", other),
    }
}

fn creator() -> Bus {
    match converse(
        Some(3),
        Some(identity(device_info::MATRIX_CREATOR, 1)),
        Some(le(0x0001_0002)),
    ) {
        InitStep::Ready(bus) => bus,
        other => panic!("the bus did not come up: {:?}", other),
    }
}

#[test]
fn the_register_map_has_its_device_file() {
    assert_eq!(DEVICE_FILE, "/dev/matrixio_regmap");
}

#[test]
fn init_without_a_handle_has_no_transport() {
    assert_eq!(failure(Bus::init(None)), Error::TransportUnavailable);
}

#[test]
fn init_with_a_negative_handle_has_no_transport() {
    assert_eq!(failure(Bus::init(Some(-1))), Error::TransportUnavailable);
}

#[test]
fn init_asks_for_the_identity_first() {
    match Bus::init(Some(0)) {
        InitStep::Transfer(_, request) => {
            assert!(!request.is_write());
            assert_eq!(request.address(), fpga_address::CONF as u32);
            assert_eq!(request.length(), 8);
            assert_eq!(request.length(), DEVICE_INFO_LENGTH);
            assert_eq!(request.ioctl_code(), ioctl_code::READ);
            assert_eq!(request.encode(), vec![0, 0, 0, 0, 8, 0, 0, 0]);
        }
        other => panic!("no request: {:?}", other),
    }
}

#[test]
fn init_asks_for_the_clock_second() {
    let first = match Bus::init(Some(7)) {
        InitStep::Transfer(next, _) => next,
        other => panic!("no request: {:?}", other),
    };
    match first.advance(Some(identity(device_info::MATRIX_VOICE, 2))) {
        InitStep::Transfer(_, request) => {
            assert!(!request.is_write());
            assert_eq!(request.address(), fpga_address::CONF as u32 + 4);
            assert_eq!(request.length(), 4);
            assert_eq!(request.length(), FPGA_FREQUENCY_LENGTH);
            assert_eq!(request.encode(), vec![4, 0, 0, 0, 4, 0, 0, 0]);
        }
        other => panic!("no request: {:?}", other),
    }
}

#[test]
fn init_brings_up_a_creator() {
    let bus = creator();
    assert_eq!(bus.regmap_fd(), 3);
    assert_eq!(bus.device_name(), Device::Creator);
    assert_eq!(bus.device_version(), 1);
    assert_eq!(bus.fpga_frequency(), device_info::FPGA_CLOCK / 2);
    assert!(bus.is_open());
}

#[test]
fn init_brings_up_a_voice() {
    let step = converse(
        Some(0),
        Some(identity(device_info::MATRIX_VOICE, 0x0102_0304)),
        Some(le(0x0004_0001)),
    );
    match step {
        InitStep::Ready(mut bus) => {
            assert_eq!(bus.regmap_fd(), 0);
            assert_eq!(bus.device_name(), Device::Voice);
            assert_eq!(bus.device_version(), 0x0102_0304);
            assert_eq!(bus.fpga_frequency(), 200_000_000);
            assert!(bus.is_open());
            assert!(bus.take_pending().is_empty());
        }
        other => panic!("the bus did not come up: {:?}", other),
    }
}

#[test]
fn init_stops_at_an_unknown_device() {
    let step = converse(Some(3), Some(identity(0xdead_beef, 1)), Some(le(0x0001_0002)));
    assert_eq!(failure(step), Error::UnknownDevice);
}

#[test]
fn init_stops_when_the_identity_is_not_answered() {
    let step = converse(Some(3), None, Some(le(0x0001_0002)));
    assert_eq!(failure(step), Error::TransmissionFailure);
}

#[test]
fn init_stops_at_a_short_identity() {
    let step = converse(Some(3), Some(le(device_info::MATRIX_CREATOR)), Some(le(0x0001_0002)));
    assert_eq!(failure(step), Error::TransmissionFailure);
}

#[test]
fn init_stops_when_the_clock_is_not_answered() {
    let step = converse(Some(3), Some(identity(device_info::MATRIX_CREATOR, 1)), None);
    assert_eq!(failure(step), Error::TransmissionFailure);
}

#[test]
fn init_stops_at_a_long_clock_answer() {
    let step = converse(
        Some(3),
        Some(identity(device_info::MATRIX_CREATOR, 1)),
        Some(vec![2, 0, 1, 0, 0]),
    );
    assert_eq!(failure(step), Error::TransmissionFailure);
}

#[test]
fn init_stops_at_a_clock_ratio_with_a_zero_divisor() {
    let step = converse(
        Some(3),
        Some(identity(device_info::MATRIX_CREATOR, 1)),
        Some(le(0x0001_0000)),
    );
    assert_eq!(failure(step), Error::InvalidFrequency);
}

#[test]
fn device_info_knows_the_two_boards() {
    assert_eq!(
        Bus::get_device_info(&[0xE8, 0x44, 0xC3, 0x05, 0x2A, 0, 0, 0]),
        Ok((Device::Creator, 42))
    );
    assert_eq!(
        Bus::get_device_info(&[0xD2, 0xBA, 0x32, 0x60, 0xFF, 0xFF, 0xFF, 0xFF]),
        Ok((Device::Voice, u32::MAX))
    );
}

#[test]
fn device_info_refuses_other_codes() {
    assert_eq!(Bus::get_device_info(&[0; 8]), Err(Error::UnknownDevice));
    assert_eq!(
        Bus::get_device_info(&[0xE8, 0x44, 0xC3, 0x06, 0, 0, 0, 0]),
        Err(Error::UnknownDevice)
    );
    // the code of a Creator with its bytes in the other order
    assert_eq!(
        Bus::get_device_info(&[0x05, 0xC3, 0x44, 0xE8, 0, 0, 0, 0]),
        Err(Error::UnknownDevice)
    );
}

#[test]
fn device_info_refuses_other_lengths() {
    assert_eq!(Bus::get_device_info(&[]), Err(Error::TransmissionFailure));
    assert_eq!(
        Bus::get_device_info(&[0xE8, 0x44, 0xC3, 0x05, 1, 0, 0]),
        Err(Error::TransmissionFailure)
    );
    assert_eq!(
        Bus::get_device_info(&[0xE8, 0x44, 0xC3, 0x05, 1, 0, 0, 0, 0]),
        Err(Error::TransmissionFailure)
    );
}

#[test]
fn frequency_of_one_over_two_is_half_the_clock() {
    // raw register value 0x00010002: value0 = 1, value1 = 2
    assert_eq!(Bus::get_fpga_frequency(&le(0x0001_0002)), Ok(device_info::FPGA_CLOCK * 1 / 2));
    assert_eq!(Bus::get_fpga_frequency(&[0x02, 0x00, 0x01, 0x00]), Ok(25_000_000));
}

#[test]
fn frequency_rounds_down() {
    // 50_000_000 * 3 / 7
    assert_eq!(Bus::get_fpga_frequency(&le(0x0003_0007)), Ok(21_428_571));
}

#[test]
fn frequency_with_a_zero_multiplier_is_zero() {
    assert_eq!(Bus::get_fpga_frequency(&le(0x0000_0001)), Ok(0));
}

#[test]
fn frequency_with_a_zero_divisor_is_an_error() {
    assert_eq!(Bus::get_fpga_frequency(&le(0x0001_0000)), Err(Error::InvalidFrequency));
    assert_eq!(Bus::get_fpga_frequency(&le(0)), Err(Error::InvalidFrequency));
    assert_eq!(Bus::get_fpga_frequency(&le(0xffff_0000)), Err(Error::InvalidFrequency));
}

#[test]
fn frequency_that_does_not_fit_is_an_error() {
    // 50_000_000 * 85 = 4_250_000_000 fits, 50_000_000 * 86 does not
    assert_eq!(Bus::get_fpga_frequency(&le(0x0055_0001)), Ok(4_250_000_000));
    assert_eq!(Bus::get_fpga_frequency(&le(0x0056_0001)), Err(Error::InvalidFrequency));
    assert_eq!(Bus::get_fpga_frequency(&le(0xffff_0001)), Err(Error::InvalidFrequency));
    // the product is past 32 bits, the quotient is not
    assert_eq!(Bus::get_fpga_frequency(&le(0xffff_ffff)), Ok(50_000_000));
    assert_eq!(Bus::get_fpga_frequency(&le(0x00ac_0003)), Ok(2_866_666_666));
}

#[test]
fn frequency_refuses_other_lengths() {
    assert_eq!(Bus::get_fpga_frequency(&[2, 0, 1]), Err(Error::TransmissionFailure));
    assert_eq!(Bus::get_fpga_frequency(&[2, 0, 1, 0, 0]), Err(Error::TransmissionFailure));
    assert_eq!(Bus::get_fpga_frequency(&[]), Err(Error::TransmissionFailure));
}

#[test]
fn write_issues_one_transaction() {
    let mut bus = creator();
    bus.write(0x4001, vec![0xab, 0xcd, 0xef]);
    let pending = bus.take_pending();
    assert_eq!(pending.len(), 1);
    assert!(pending[0].is_write());
    assert_eq!(pending[0].address(), 0x4001);
    assert_eq!(pending[0].length(), 3);
    assert_eq!(pending[0].payload(), &vec![0xab, 0xcd, 0xef]);
    assert_eq!(pending[0].ioctl_code(), ioctl_code::WRITE);
    assert_eq!(pending[0].ioctl_code(), 1200);
    assert_eq!(pending[0].encode(), vec![0x01, 0x40, 0, 0, 3, 0, 0, 0, 0xab, 0xcd, 0xef]);
}

#[test]
fn read_issues_one_transaction() {
    let mut bus = creator();
    bus.read(0x1234_5678, 0x0102);
    let pending = bus.take_pending();
    assert_eq!(pending.len(), 1);
    assert!(!pending[0].is_write());
    assert_eq!(pending[0].address(), 0x1234_5678);
    assert_eq!(pending[0].length(), 0x0102);
    assert!(pending[0].payload().is_empty());
    assert_eq!(pending[0].ioctl_code(), ioctl_code::READ);
    assert_eq!(pending[0].ioctl_code(), 1201);
    assert_eq!(pending[0].encode(), vec![0x78, 0x56, 0x34, 0x12, 0x02, 0x01, 0, 0]);
}

#[test]
fn transactions_are_pending_in_the_order_of_issue() {
    let mut bus = creator();
    bus.write(1, vec![1]);
    bus.read(2, 2);
    bus.write(3, vec![]);
    let pending = bus.take_pending();
    assert_eq!(pending.len(), 3);
    assert_eq!(pending[0].address(), 1);
    assert_eq!(pending[1].address(), 2);
    assert_eq!(pending[2].address(), 3);
    assert_eq!(pending[2].encode(), vec![3, 0, 0, 0, 0, 0, 0, 0]);
    // what was taken is no longer pending
    assert!(bus.take_pending().is_empty());
    bus.write(4, vec![4]);
    let pending = bus.take_pending();
    assert_eq!(pending.len(), 1);
    assert_eq!(pending[0].address(), 4);
}

#[test]
fn close_is_idempotent() {
    let mut bus = creator();
    bus.write(1, vec![1]);
    bus.close();
    assert!(!bus.is_open());
    bus.close();
    assert!(!bus.is_open());
    // the identity stays, and so does what was pending
    assert_eq!(bus.device_name(), Device::Creator);
    assert_eq!(bus.device_version(), 1);
    assert_eq!(bus.fpga_frequency(), 25_000_000);
    assert_eq!(bus.regmap_fd(), 3);
    assert_eq!(bus.take_pending().len(), 1);
}

#[test]
fn a_read_accepts_an_answer_of_its_length_only() {
    let request = Request::read(0, 4);
    assert_eq!(request.accept(vec![1, 2, 3, 4]), Ok(vec![1, 2, 3, 4]));
    assert_eq!(request.accept(vec![1, 2, 3]), Err(Error::TransmissionFailure));
    assert_eq!(request.accept(vec![1, 2, 3, 4, 5]), Err(Error::TransmissionFailure));
    assert_eq!(request.accept(vec![]), Err(Error::TransmissionFailure));
    assert_eq!(Request::read(0, 0).accept(vec![]), Ok(vec![]));
}

#[test]
fn a_write_accepts_no_answer() {
    let request = Request::write(0, vec![1, 2]);
    assert_eq!(request.accept(vec![1, 2]), Err(Error::TransmissionFailure));
    assert_eq!(request.accept(vec![]), Err(Error::TransmissionFailure));
}

#[test]
fn numbers_are_read_least_significant_byte_first() {
    let bytes = [0x78, 0x56, 0x34, 0x12, 0xff, 0xff, 0xff, 0xff, 0x00];
    assert_eq!(read_le(&bytes, 0), Some(0x1234_5678));
    assert_eq!(read_le(&bytes, 1), Some(0xff12_3456));
    assert_eq!(read_le(&bytes, 4), Some(u32::MAX));
    assert_eq!(read_le(&bytes, 5), Some(0x00ff_ffff));
}

#[test]
fn numbers_are_not_read_past_the_end() {
    let bytes = [0x78, 0x56, 0x34, 0x12, 0xff];
    assert_eq!(read_le(&bytes, 1), Some(0xff12_3456));
    assert_eq!(read_le(&bytes, 2), None);
    assert_eq!(read_le(&bytes, 5), None);
    assert_eq!(read_le(&bytes, usize::MAX), None);
    assert_eq!(read_le(&bytes[..3], 0), None);
    assert_eq!(read_le(&[], 0), None);
}

#[test]
fn reading_back_an_encoded_header_gives_its_fields() {
    for (address, length) in [(0u32, 0u32), (1, 2), (0x4016, 2), (u32::MAX, u32::MAX), (0x0102_0304, 0x0a0b_0c0d)] {
        let frame = Request::read(address, length).encode();
        assert_eq!(frame.len(), 8);
        assert_eq!(read_le(&frame, 0), Some(address));
        assert_eq!(read_le(&frame, 4), Some(length));
    }
}

#[test]
fn a_register_value_is_two_bytes() {
    assert_eq!(register_payload(0), vec![0, 0]);
    assert_eq!(register_payload(7), vec![7, 0]);
    assert_eq!(register_payload(0x8003), vec![0x03, 0x80]);
    assert_eq!(register_payload(u16::MAX), vec![0xff, 0xff]);
}
