use vstd::prelude::*;

use crate::pci::{find_general, first_general, DeviceAddr, GeneralDevice, PciDevice};

verus! {

/// Intel Vendor id
pub const INTEL_VENDOR: u16 = 0x8086;
/// Device ID for Intel 82577L (e1000e)
pub const INTEL_82577L: u16 = 0x100e;

/// The e1000e network card.
#[derive(Clone, Copy, Debug)]
pub struct E1000Driver {
    /// Where the card sits on the bus.
    pub addr: DeviceAddr,
    pub device: GeneralDevice,
    /// Physical address of the card's register block, as taken from its first
    /// base address register.
    pub register_base_addr: u64,
}

impl E1000Driver {
    /// Picks the first e1000e among the devices found on the bus. Bus
    /// mastering and memory space access are then to be enabled at `addr`.
    pub fn init(devices: &[(DeviceAddr, PciDevice)]) -> (r: Result<E1000Driver, ()>)
        ensures
            match first_general(devices@, INTEL_VENDOR, INTEL_82577L) {
                Some((addr, device)) => r == Ok::<E1000Driver, ()>(
                    E1000Driver { addr, device, register_base_addr: (device.bar0 / 16) as u64 },
                ),
                None => r == Err::<E1000Driver, ()>(()),
            },
    {
        match find_general(devices, INTEL_VENDOR, INTEL_82577L) {
            Some((addr, device)) => Ok(
                E1000Driver { addr, device, register_base_addr: (device.bar0 / 16) as u64 },
            ),
            None => Err(()),
        }
    }
}

} // verus!
