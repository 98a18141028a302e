use vstd::prelude::*;

use crate::io::port::Port;
use crate::pci::bar::Bar;
use crate::pci::{find_general, first_general, DeviceAddr, PciDevice};

verus! {

pub const VENDOR_ID: u16 = 0x10ec;
pub const DEVICE_ID: u16 = 0x8139;
/// How many receive descriptors fit in the 8 KiB receive buffer.
pub const RX_BUFFER_SIZE: usize = 8192 / 16;

/// A receive descriptor.
#[derive(Clone, Copy, Debug, PartialEq, Eq)]
pub struct RxDescriptor {
    pub flags: u32,
    pub vlan: u32,
    pub low_buf: u32,
    pub high_buf: u32,
}

/// The RTL8139 network card.
#[derive(Debug)]
pub struct Rtl8139Driver {
    /// Where the card sits on the bus.
    pub addr: DeviceAddr,
    /// The card's I/O port block.
    pub io: Port<u32>,
    pub rx_descriptors: Vec<Option<RxDescriptor>>,
}

impl Rtl8139Driver {
    /// Picks the first RTL8139 among the devices found on the bus. Its first
    /// base address register must be in I/O space; that gives the card's port
    /// block. The receive descriptors start empty. Bus mastering is then to be
    /// enabled at `addr`, and the card switched on and reset through `io`.
    pub fn init(devices: &[(DeviceAddr, PciDevice)]) -> (r: Result<Self, ()>)
        ensures
            match first_general(devices@, VENDOR_ID, DEVICE_ID) {
                Some((addr, g)) => match (if g.bar0 % 2 == 1 {
                    Some((g.bar0 / 4) as u16)
                } else {
                    None::<u16>
                }) {
                    Some(base) => r matches Ok(d) && d.addr == addr && d.io.base == base
                        && d.rx_descriptors@ == Seq::new(
                        RX_BUFFER_SIZE as nat,
                        |i: int| None::<RxDescriptor>,
                    ),
                    None => r is Err,
                },
                None => r is Err,
            },
    {
        let found = find_general(devices, VENDOR_ID, DEVICE_ID);
        let (addr, device) = match found {
            Some(x) => x,
            None => return Err(()),
        };
        match Bar::parse(device.bar0) {
            Ok(Bar::Io { address }) => {
                let mut rx_descriptors: Vec<Option<RxDescriptor>> = Vec::new();
                let mut k: usize = 0;
                while k < RX_BUFFER_SIZE
                    invariant
                        k <= RX_BUFFER_SIZE,
                        rx_descriptors@ == Seq::new(k as nat, |i: int| None::<RxDescriptor>),
                    decreases RX_BUFFER_SIZE - k,
                {
                    rx_descriptors.push(None);
                    k = k + 1;
                    assert(rx_descriptors@ =~= Seq::new(k as nat, |i: int| None::<RxDescriptor>));
                }
                Ok(Rtl8139Driver { addr, io: Port::new(address), rx_descriptors })
            },
            _ => Err(()),
        }
    }
}

} // verus!
