use vstd::prelude::*;

use crate::pci::{DeviceAddr, GeneralDevice, PciDevice};

verus! {

/// Vendor ID for Intel
pub const INTEL_VENDOR: u16 = 0x8086;
/// Device ID for the e1000 that Qemu, Bochs and VirtualBox emulate.
pub const E1000_DEVICE: u16 = 0x100E;
/// Device ID for Intel I217
pub const E1000_I217: u16 = 0x153A;
/// Device ID for Intel 82577LM
pub const E1000_82577LM: u16 = 0x10EA;

/// Whether `d` is an emulated e1000.
pub open spec fn is_e1000(d: PciDevice) -> bool {
    d matches PciDevice::General(g) && g.header.vendor_id == INTEL_VENDOR
        && g.header.device_id == E1000_DEVICE
}

/// The last emulated e1000 among `devices`.
pub open spec fn last_e1000(devices: Seq<(DeviceAddr, PciDevice)>) -> Option<(DeviceAddr, GeneralDevice)>
    decreases devices.len(),
{
    if devices.len() == 0 {
        None
    } else {
        let (addr, d) = devices.last();
        if is_e1000(d) {
            match d {
                PciDevice::General(g) => Some((addr, g)),
                _ => None,
            }
        } else {
            last_e1000(devices.drop_last())
        }
    }
}

/// The e1000 network card.
#[derive(Clone, Copy, Debug)]
pub struct Driver {
    pub device: GeneralDevice,
    pub addr: DeviceAddr,
}

impl Driver {
    /// Picks the e1000 among the devices found on the bus (the last one, where
    /// there are several). Bus mastering is then to be enabled at `addr`.
    pub fn init(devices: &[(DeviceAddr, PciDevice)]) -> (r: Result<Driver, ()>)
        ensures
            match last_e1000(devices@) {
                Some((addr, device)) => r == Ok::<Driver, ()>(Driver { device, addr }),
                None => r == Err::<Driver, ()>(()),
            },
    {
        let mut found: Option<(DeviceAddr, GeneralDevice)> = None;
        let mut i: usize = 0;
        while i < devices.len()
            invariant
                i <= devices@.len(),
                found == last_e1000(devices@.subrange(0, i as int)),
            decreases devices@.len() - i,
        {
            let (addr, d) = devices[i];
            proof {
                let pre = devices@.subrange(0, i as int);
                assert(devices@.subrange(0, i + 1).drop_last() =~= pre);
            }
            if let PciDevice::General(g) = d {
                if g.header.vendor_id == INTEL_VENDOR && g.header.device_id == E1000_DEVICE {
                    found = Some((addr, g));
                }
            }
            i = i + 1;
        }
        assert(devices@.subrange(0, devices@.len() as int) =~= devices@);
        match found {
            Some((addr, device)) => Ok(Driver { device, addr }),
            None => Err(()),
        }
    }
}

} // verus!
