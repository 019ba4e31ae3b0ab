//! The register map of the FPGA and the constants of the boards.

pub mod device_info;
pub mod fpga_address;
pub mod ioctl_code;
