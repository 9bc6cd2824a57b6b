//! The reply of `smartctl --scan-open`: the devices that smartctl found.

use vstd::prelude::*;

verus! {

/// The devices listed by a scan, in the order smartctl listed them.
#[derive(Debug, Clone)]
pub struct Scan {
    pub devices: Vec<Device>,
}

/// One device of a scan.
#[derive(Debug, Clone)]
pub struct Device {
    /// The device path, such as `/dev/sda`.
    pub name: String,
    /// smartctl's own name for the device and its access method.
    pub info_name: String,
    /// The device type (smartctl's `type` field).
    pub device_type: Type,
    /// The protocol by which the device is read.
    pub protocol: Protocol,
}

/// Device types that smartctl reports (`sat`, `nvme`).
#[derive(Debug, Clone, Copy, PartialEq, Eq, Structural)]
pub enum Type {
    Sat,
    Nvme,
}

/// Protocols that smartctl reports (`ATA`, `NVMe`).
#[derive(Debug, Clone, Copy, Hash, PartialEq, Eq, Structural)]
pub enum Protocol {
    Ata,
    NVMe,
}

} // verus!
