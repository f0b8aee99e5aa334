pub mod device;
pub mod disk;
pub mod manager;
pub mod printer;

use vstd::prelude::*;

pub use manager::DeviceManager;

verus! {

#[derive(Clone, Copy, Debug, PartialEq, Eq, Structural)]
pub enum KnownDevice {
    HardDisk,
    FloppyDrive,
    PortableFloppy,
    HardDisk2,
    FloppyDrive2,
    Printer,
}

/// The device that answers at each bus address.
pub open spec fn device_at(address: u8) -> Option<KnownDevice> {
    if address == 4 {
        Some(KnownDevice::HardDisk)
    } else if address == 5 {
        Some(KnownDevice::FloppyDrive)
    } else if address == 6 {
        Some(KnownDevice::PortableFloppy)
    } else if address == 12 {
        Some(KnownDevice::HardDisk2)
    } else if address == 13 {
        Some(KnownDevice::FloppyDrive2)
    } else if address == 25 {
        Some(KnownDevice::Printer)
    } else {
        None
    }
}

impl KnownDevice {
    pub fn from_address(address: u8) -> (device: Option<Self>)
        ensures
            device == device_at(address),
    {
        match address {
            4 => Some(Self::HardDisk),
            5 => Some(Self::FloppyDrive),
            6 => Some(Self::PortableFloppy),
            12 => Some(Self::HardDisk2),
            13 => Some(Self::FloppyDrive2),
            25 => Some(Self::Printer),
            _ => None,
        }
    }
}

/// Each known device answers at exactly one address.
pub proof fn lemma_addresses_distinct(a: u8, b: u8)
    requires
        device_at(a) is Some,
        device_at(a) == device_at(b),
    ensures
        a == b,
{
}

} // verus!
