use vstd::prelude::*;

pub mod bar;

use crate::io::port::Port;

verus! {

/// Port used for selecting a pci device's config register.
pub const CONFIG_ADDRESS: u16 = 0xCF8;
/// Port used for reading or writing the selected config register.
pub const CONFIG_DATA: u16 = 0xCFC;
/// How many config registers a device's header spans.
pub const CONFIG_REGISTERS: usize = 16;

/// Pci header: the first four config registers, common to every device.
#[derive(Clone, Copy, Debug, PartialEq, Eq)]
pub struct PciHeader {
    pub vendor_id: u16,
    pub device_id: u16,
    /// Controls the device's ability to generate and respond to PCI cycles.
    pub command: u16,
    /// Status information for PCI bus related events.
    pub status: u16,
    pub revision_id: u8,
    /// Register-level programming interface.
    pub prog_if: u8,
    /// The specific function the device performs.
    pub subclass: u8,
    /// The type of function the device performs.
    pub class_code: u8,
    /// System cache line size in 32-bit units.
    pub cache_line_size: u8,
    /// Latency timer in units of PCI bus clocks.
    pub latency_timer: u8,
    pub header_type: u8,
    /// Built in self test.
    pub bist: u8,
}

/// General PCI device: a header of type 0.
#[derive(Clone, Copy, Debug, PartialEq, Eq)]
pub struct GeneralDevice {
    pub header: PciHeader,
    pub bar0: u32,
    pub bar1: u32,
    pub bar2: u32,
    pub bar3: u32,
    pub bar4: u32,
    pub bar5: u32,
    /// Points to the Card Information Structure.
    pub cardbus_cis_pointer: u32,
    pub subsystem_vendor_id: u16,
    pub subsystem_device_id: u16,
    pub expansion_rom_address: u32,
    /// Offset of the device's list of capabilities.
    pub capabilities_pointer: u8,
    /// Which input of the interrupt controllers the interrupt pin reaches.
    pub interrupt_line: u8,
    /// Which interrupt pin the device uses; 0 for none.
    pub interrupt_pin: u8,
    /// Burst period length, in 1/4 microsecond units.
    pub min_grant: u8,
    /// How often the device needs the bus, in 1/4 microsecond units.
    pub max_latency: u8,
}

/// PCI device
#[derive(Clone, Copy, Debug, PartialEq, Eq)]
pub enum PciDevice {
    General(GeneralDevice),
    /// PCI To PCI bridge device.
    PciPciBridge(PciHeader),
    /// PCI to card bus bridge device.
    PciCardbusBridge(PciHeader),
    Unknown(PciHeader),
}

/// Message-signalled interrupt capability.
#[derive(Clone, Copy, Debug, PartialEq, Eq)]
pub struct MsiCapabilities {
    pub capability_id: u8,
    pub next_pointer: u8,
    pub message_control: u8,
    pub message_addr_low: u32,
    pub message_addr_high: u32,
    pub message_data: u8,
    pub mask: u32,
    pub pending: u32,
}

#[derive(Clone, Copy, Debug, PartialEq, Eq)]
pub enum PciError {
    NonExistentDevice,
}

/// Address of a device function on the bus.
#[derive(Clone, Copy, Debug, PartialEq, Eq)]
pub struct DeviceAddr {
    pub bus: u8,
    pub slot: u8,
    pub function: u8,
}

impl DeviceAddr {
    pub fn new(bus: u8, slot: u8, function: u8) -> (r: Self)
        ensures
            r == (DeviceAddr { bus, slot, function }),
    {
        DeviceAddr { bus, slot, function }
    }
}

impl PciDevice {
    /// A name for the kind of device.
    pub fn to_string(&self) -> (r: &'static str)
        ensures
            self is General ==> r@ == "General"@,
            self is PciPciBridge ==> r@ == "PCI to PCI bridge"@,
            self is PciCardbusBridge ==> r@ == "Pci cardbus bridge"@,
            self is Unknown ==> r@ == "Unknown"@,
    {
        match self {
            PciDevice::General(_) => "General",
            PciDevice::PciPciBridge(_) => "PCI to PCI bridge",
            PciDevice::PciCardbusBridge(_) => "Pci cardbus bridge",
            PciDevice::Unknown(_) => "Unknown",
        }
    }
}

/// The header held by config registers 0 to 3: each register holds its
/// fields from the least significant end.
pub open spec fn header_of(r0: u32, r1: u32, r2: u32, r3: u32) -> PciHeader {
    PciHeader {
        vendor_id: (r0 % 0x10000) as u16,
        device_id: (r0 / 0x10000) as u16,
        command: (r1 % 0x10000) as u16,
        status: (r1 / 0x10000) as u16,
        revision_id: (r2 % 0x100) as u8,
        prog_if: (r2 / 0x100 % 0x100) as u8,
        subclass: (r2 / 0x10000 % 0x100) as u8,
        class_code: (r2 / 0x1000000) as u8,
        cache_line_size: (r3 % 0x100) as u8,
        latency_timer: (r3 / 0x100 % 0x100) as u8,
        header_type: (r3 / 0x10000 % 0x100) as u8,
        bist: (r3 / 0x1000000) as u8,
    }
}

/// The device that the config registers `c` describe, or the error for an
/// absent device (vendor id 0xFFFF).
pub open spec fn device_of(c: Seq<u32>) -> Result<PciDevice, PciError> {
    let h = header_of(c[0], c[1], c[2], c[3]);
    if h.vendor_id == 0xFFFF {
        Err(PciError::NonExistentDevice)
    } else if h.header_type == 0 {
        Ok(
            PciDevice::General(
                GeneralDevice {
                    header: h,
                    bar0: c[4],
                    bar1: c[5],
                    bar2: c[6],
                    bar3: c[7],
                    bar4: c[8],
                    bar5: c[9],
                    cardbus_cis_pointer: c[10],
                    subsystem_vendor_id: (c[11] % 0x10000) as u16,
                    subsystem_device_id: (c[11] / 0x10000) as u16,
                    expansion_rom_address: c[12],
                    capabilities_pointer: (c[13] % 0x100) as u8,
                    interrupt_line: (c[15] % 0x100) as u8,
                    interrupt_pin: (c[15] / 0x100 % 0x100) as u8,
                    min_grant: (c[15] / 0x10000 % 0x100) as u8,
                    max_latency: (c[15] / 0x1000000) as u8,
                },
            ),
        )
    } else if h.header_type == 1 {
        Ok(PciDevice::PciPciBridge(h))
    } else if h.header_type == 2 {
        Ok(PciDevice::PciCardbusBridge(h))
    } else {
        Ok(PciDevice::Unknown(h))
    }
}

/// The value written to the address port to select config register `offset`
/// (rounded down to a multiple of 4) of a device function: the enable bit,
/// then bus, slot, function and offset.
pub open spec fn config_address_of(bus: u8, slot: u8, function: u8, offset: u8) -> int {
    0x8000_0000 + bus * 0x10000 + slot * 0x800 + function * 0x100 + (offset - offset % 4)
}

/// Provides functionality for interacting with PCI devices: the two ports of
/// the configuration mechanism and the rules for reading what they hand back.
#[derive(Debug)]
pub struct Pci {
    pub command_port: Port<u32>,
    pub data_port: Port<u32>,
}

impl Pci {
    pub fn new() -> (r: Pci)
        ensures
            r.command_port.base == CONFIG_ADDRESS,
            r.data_port.base == CONFIG_DATA,
    {
        Pci { command_port: Port::new(CONFIG_ADDRESS), data_port: Port::new(CONFIG_DATA) }
    }

    /// The value that selects a config register when written to the command
    /// port.
    pub fn select_config(bus: u8, slot: u8, function: u8, offset: u8) -> (r: u32)
        requires
            slot < 32,
            function < 8,
        ensures
            r == config_address_of(bus, slot, function, offset),
    {
        let r: u32 = ((bus as u32) << 16u32) | ((slot as u32) << 11u32) | ((function as u32)
            << 8u32) | ((offset as u32) & 0xFCu32) | (1u32 << 31u32);
        let b = bus as u32;
        let s = slot as u32;
        let f = function as u32;
        let o = offset as u32;
        assert(r == 0x8000_0000u32 + b * 0x10000u32 + s * 0x800u32 + f * 0x100u32 + (o - o % 4u32))
            by (bit_vector)
            requires
                r == (b << 16u32) | (s << 11u32) | (f << 8u32) | (o & 0xFCu32) | (1u32 << 31u32),
                b < 256,
                s < 32,
                f < 8,
                o < 256,
        ;
        r
    }

    /// Whether a device answers, judged by its config register 0: a vendor id
    /// of 0xFFFF means that none does. `get_pci_device` fails exactly where
    /// this is false.
    pub fn device_present(register0: u32) -> (r: bool)
        ensures
            r == (register0 % 0x10000 != 0xFFFF),
    {
        register0 % 0x10000 != 0xFFFF
    }

    /// Reads a device from its first sixteen config registers, in order.
    /// A vendor id of 0xFFFF means that no device answers.
    pub fn get_pci_device(config: &[u32]) -> (r: Result<PciDevice, PciError>)
        requires
            config@.len() >= CONFIG_REGISTERS,
        ensures
            r == device_of(config@),
    {
        let r0 = config[0];
        let r1 = config[1];
        let r2 = config[2];
        let r3 = config[3];
        let header = PciHeader {
            vendor_id: (r0 % 0x10000) as u16,
            device_id: (r0 / 0x10000) as u16,
            command: (r1 % 0x10000) as u16,
            status: (r1 / 0x10000) as u16,
            revision_id: (r2 % 0x100) as u8,
            prog_if: (r2 / 0x100 % 0x100) as u8,
            subclass: (r2 / 0x10000 % 0x100) as u8,
            class_code: (r2 / 0x1000000) as u8,
            cache_line_size: (r3 % 0x100) as u8,
            latency_timer: (r3 / 0x100 % 0x100) as u8,
            header_type: (r3 / 0x10000 % 0x100) as u8,
            bist: (r3 / 0x1000000) as u8,
        };
        if header.vendor_id == 0xFFFF {
            return Err(PciError::NonExistentDevice);
        }
        match header.header_type {
            0 => Ok(
                PciDevice::General(
                    GeneralDevice {
                        header,
                        bar0: config[4],
                        bar1: config[5],
                        bar2: config[6],
                        bar3: config[7],
                        bar4: config[8],
                        bar5: config[9],
                        cardbus_cis_pointer: config[10],
                        subsystem_vendor_id: (config[11] % 0x10000) as u16,
                        subsystem_device_id: (config[11] / 0x10000) as u16,
                        expansion_rom_address: config[12],
                        capabilities_pointer: (config[13] % 0x100) as u8,
                        interrupt_line: (config[15] % 0x100) as u8,
                        interrupt_pin: (config[15] / 0x100 % 0x100) as u8,
                        min_grant: (config[15] / 0x10000 % 0x100) as u8,
                        max_latency: (config[15] / 0x1000000) as u8,
                    },
                ),
            ),
            1 => Ok(PciDevice::PciPciBridge(header)),
            2 => Ok(PciDevice::PciCardbusBridge(header)),
            _ => Ok(PciDevice::Unknown(header)),
        }
    }

    /// The command register `command` with bus mastering enabled (bit 2).
    pub fn enable_bus_mastering(command: u32) -> (r: u32)
        ensures
            r == command | 4,
    {
        command | 4
    }

    /// The command register `command` with memory space access enabled
    /// (bit 1).
    pub fn enable_mmio(command: u32) -> (r: u32)
        ensures
            r == command | 2,
    {
        command | 2
    }

    /// A walk over every device function address.
    pub fn bus_iterator(&self) -> (r: PciBusIterator)
        ensures
            r.position() == 0,
    {
        PciBusIterator::new()
    }
}

/// The number of device function addresses: 256 buses of 32 slots of 8
/// functions.
pub open spec fn function_count() -> nat {
    256 * 32 * 8
}

/// The index of a device function address in bus, slot, function order.
pub open spec fn address_index(a: DeviceAddr) -> nat {
    a.bus as nat * 256 + a.slot as nat * 8 + a.function as nat
}

/// A walk over every device function address, bus by bus, slot by slot,
/// function by function. Whoever holds it reads each function's config
/// registers and hands them to `Pci::get_pci_device`.
#[derive(Clone, Copy, Debug)]
pub struct PciBusIterator {
    bus: u8,
    slot: u8,
    function: u8,
    done: bool,
}

impl PciBusIterator {
    /// How many addresses have been visited.
    pub closed spec fn position(&self) -> nat {
        if self.done {
            function_count()
        } else {
            address_index(DeviceAddr { bus: self.bus, slot: self.slot, function: self.function })
        }
    }

    pub closed spec fn wf(&self) -> bool {
        self.slot < 32 && self.function < 8
    }

    pub fn new() -> (r: PciBusIterator)
        ensures
            r.wf(),
            r.position() == 0,
    {
        PciBusIterator { bus: 0, slot: 0, function: 0, done: false }
    }

    /// The next address, or `None` once every one has been visited.
    pub fn next(&mut self) -> (r: Option<DeviceAddr>)
        requires
            old(self).wf(),
        ensures
            final(self).wf(),
            old(self).position() < function_count() ==> (r matches Some(a) && a.slot < 32
                && a.function < 8 && address_index(a) == old(self).position()),
            old(self).position() < function_count() ==> final(self).position() == old(
                self,
            ).position() + 1,
            old(self).position() >= function_count() ==> r is None && final(self).position()
                == old(self).position(),
    {
        if self.done {
            return None;
        }
        let a = DeviceAddr::new(self.bus, self.slot, self.function);
        if self.function < 7 {
            self.function = self.function + 1;
        } else if self.slot < 31 {
            self.slot = self.slot + 1;
            self.function = 0;
        } else if self.bus < 255 {
            self.bus = self.bus + 1;
            self.slot = 0;
            self.function = 0;
        } else {
            self.done = true;
        }
        Some(a)
    }
}

#[derive(Clone, Copy, Debug, PartialEq, Eq)]
pub enum PciCapability {
    Msi,
    Unknown,
}

/// A walk over a device's list of capabilities. Whoever holds it reads the
/// config register that `register` names and hands it to `next`.
#[derive(Clone, Copy, Debug)]
pub struct PciCapabilityIterator {
    pub bus: u8,
    pub slot: u8,
    pub function: u8,
    /// Offset of the next capability.
    pub ptr: u8,
    /// The number of steps left.
    pub attempts_left: u8,
}

impl PciCapabilityIterator {
    pub fn new(bus: u8, slot: u8, function: u8, capabilities_ptr: u8, max_attempts: u8) -> (r:
        PciCapabilityIterator)
        ensures
            r == (PciCapabilityIterator {
                bus,
                slot,
                function,
                ptr: capabilities_ptr,
                attempts_left: max_attempts,
            }),
    {
        PciCapabilityIterator {
            bus,
            slot,
            function,
            ptr: capabilities_ptr,
            attempts_left: max_attempts,
        }
    }

    /// The config register offset of the next capability (its pointer with the
    /// two reserved low bits cleared), or `None` once no steps are left.
    pub fn register(&self) -> (r: Option<u8>)
        ensures
            self.attempts_left == 0 ==> r is None,
            self.attempts_left > 0 ==> r == Some((self.ptr - self.ptr % 4) as u8),
    {
        if self.attempts_left == 0 {
            None
        } else {
            Some(self.ptr - self.ptr % 4)
        }
    }

    /// Takes the config register `reg` read at `register()`, yields the
    /// capability that it names with its offset, and follows its next
    /// pointer.
    pub fn next(&mut self, reg: u32) -> (r: Option<(PciCapability, u8)>)
        ensures
            old(self).attempts_left == 0 ==> r is None,
            old(self).attempts_left == 0 ==> *final(self) == *old(self),
            old(self).attempts_left > 0 ==> {
                &&& r matches Some((c, p))
                &&& p == old(self).ptr - old(self).ptr % 4
                &&& (reg % 0x100 == 5 ==> c == PciCapability::Msi)
                &&& (reg % 0x100 != 5 ==> c == PciCapability::Unknown)
                &&& final(self).ptr == reg / 0x100 % 0x100
                &&& final(self).attempts_left == old(self).attempts_left - 1
                &&& final(self).bus == old(self).bus
                &&& final(self).slot == old(self).slot
                &&& final(self).function == old(self).function
            },
    {
        if self.attempts_left == 0 {
            return None;
        }
        let ptr = self.ptr - self.ptr % 4;
        let capability = if reg % 0x100 == 5 {
            PciCapability::Msi
        } else {
            PciCapability::Unknown
        };
        self.ptr = (reg / 0x100 % 0x100) as u8;
        self.attempts_left = self.attempts_left - 1;
        Some((capability, ptr))
    }
}

/// The first general device among `devices` with the given vendor and device
/// ids, with its address.
pub open spec fn first_general(devices: Seq<(DeviceAddr, PciDevice)>, vendor_id: u16, device_id: u16) -> Option<(DeviceAddr, GeneralDevice)>
    decreases devices.len(),
{
    if devices.len() == 0 {
        None
    } else {
        match devices[0].1 {
            PciDevice::General(g) => if g.header.vendor_id == vendor_id && g.header.device_id
                == device_id {
                Some((devices[0].0, g))
            } else {
                first_general(devices.drop_first(), vendor_id, device_id)
            },
            _ => first_general(devices.drop_first(), vendor_id, device_id),
        }
    }
}

/// Finds the first general device among `devices` with the given vendor and
/// device ids.
pub fn find_general(devices: &[(DeviceAddr, PciDevice)], vendor_id: u16, device_id: u16) -> (r:
    Option<(DeviceAddr, GeneralDevice)>)
    ensures
        r == first_general(devices@, vendor_id, device_id),
{
    let mut i: usize = 0;
    assert(devices@.subrange(0, devices@.len() as int) =~= devices@);
    while i < devices.len()
        invariant
            i <= devices@.len(),
            first_general(devices@, vendor_id, device_id) == first_general(
                devices@.subrange(i as int, devices@.len() as int),
                vendor_id,
                device_id,
            ),
        decreases devices@.len() - i,
    {
        let (addr, d) = devices[i];
        proof {
            let rest = devices@.subrange(i as int, devices@.len() as int);
            assert(rest.drop_first() =~= devices@.subrange(i + 1, devices@.len() as int));
            assert(rest[0] == devices@[i as int]);
        }
        if let PciDevice::General(g) = d {
            if g.header.vendor_id == vendor_id && g.header.device_id == device_id {
                return Some((addr, g));
            }
        }
        i = i + 1;
    }
    assert(devices@.subrange(i as int, devices@.len() as int) =~= Seq::<
        (DeviceAddr, PciDevice),
    >::empty());
    None
}

} // verus!
