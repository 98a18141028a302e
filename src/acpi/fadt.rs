use vstd::prelude::*;

use crate::acpi::{header_at, AcpiHeader};
use crate::bytes::{le_u16, le_u32, le_u64, read_u16, read_u32, read_u64};

verus! {

/// Size in bytes of the power-management table's layout read here, up to and
/// including the reset value and the three reserved bytes after it.
pub const FADT_SIZE: usize = 132;

/// A generic address: where a register lives and how to reach it.
#[derive(Clone, Copy, Debug, PartialEq, Eq)]
pub struct GenericAddressStructure {
    pub address_space: u8,
    pub bit_width: u8,
    pub bit_offset: u8,
    pub access_size: u8,
    pub address: u64,
}

/// `g` holds the generic address laid out in `s` at `a`.
pub open spec fn generic_address_at(g: GenericAddressStructure, s: Seq<u8>, a: int) -> bool {
    &&& g.address_space == s[a]
    &&& g.bit_width == s[a + 1]
    &&& g.bit_offset == s[a + 2]
    &&& g.access_size == s[a + 3]
    &&& g.address as nat == le_u64(s, a + 4)
}

/// The power-management table (FADT): fixed-layout hardware configuration.
#[derive(Clone, Copy, Debug)]
pub struct Fadt {
    /// An ACPI header containing standard ACPI table header information.
    pub header: AcpiHeader,
    /// The 32-bit physical address of the firmware control structure.
    pub firmware_ctrl: u32,
    /// The 32-bit physical address of the Differentiated System Description Table (DSDT).
    pub dsdt: u32,
    /// Reserved field.
    pub reserved: u8,
    /// Preferred power management profile.
    pub prefered_power_management_profile: u8,
    /// System Control Interrupt (SCI) vector.
    pub sci_interrupt: u16,
    /// System Management Interrupt (SMI) command port.
    pub smi_command_port: u32,
    /// ACPI enable value.
    pub acpi_enable: u8,
    /// ACPI disable value.
    pub acpi_disable: u8,
    /// S4BIOS request value.
    pub s4bios_req: u8,
    /// Processor state control value.
    pub pstate_control: u8,
    /// Physical address of the Power Management 1A event block.
    pub pm1a_event_block: u32,
    /// Physical address of the Power Management 1B event block.
    pub pm1b_event_block: u32,
    /// Physical address of the Power Management 1A control block.
    pub pm1a_control_block: u32,
    /// Physical address of the Power Management 1B control block.
    pub pm1b_control_block: u32,
    /// Physical address of the Power Management 2 control block.
    pub pm2_control_block: u32,
    /// Physical address of the Power Management timer block.
    pub pm_timer_block: u32,
    /// Physical address of the General Purpose Event 0 block.
    pub gpe0_block: u32,
    /// Physical address of the General Purpose Event 1 block.
    pub gpe1_block: u32,
    /// Length of the Power Management 1 event block.
    pub pm1_event_length: u8,
    /// Length of the Power Management 1 control block.
    pub pm1_control_length: u8,
    /// Length of the Power Management 2 control block.
    pub pm2_control_length: u8,
    /// Length of the Power Management timer block.
    pub pm_timer_length: u8,
    /// Length of the General Purpose Event 0 block.
    pub gpe0_length: u8,
    /// Length of the General Purpose Event 1 block.
    pub gpe1_length: u8,
    /// Base index of the General Purpose Event 1.
    pub gpe1_base: u8,
    /// C-state control value.
    pub cstate_control: u8,
    /// Worst-case latency for C2 state.
    pub worst_c2_latency: u16,
    /// Worst-case latency for C3 state.
    pub worst_c3_latency: u16,
    /// Flush size value.
    pub flush_size: u16,
    /// Flush stride value.
    pub flush_stride: u16,
    /// Duty cycle offset value.
    pub duty_offset: u8,
    /// Duty cycle width value.
    pub duty_width: u8,
    /// Day alarm value.
    pub day_alarm: u8,
    /// Month alarm value.
    pub month_alarm: u8,
    /// Century value.
    pub century: u8,
    /// IA-PC boot architecture flags.
    pub boot_architecture_flags: u16,
    /// Reserved field.
    pub reserved2: u8,
    /// Flags specifying capabilities and features of the ACPI hardware.
    pub flags: u32,
    /// Generic address structure representing the system reset register.
    pub reset_register: GenericAddressStructure,
    /// Reset value.
    pub reset_value: u8,
    /// Reserved field.
    pub reserved3: [u8; 3],
}

/// `f` holds the power-management table laid out in `s` at `a`.
pub open spec fn fadt_at(f: Fadt, s: Seq<u8>, a: int) -> bool {
    &&& header_at(f.header, s, a)
    &&& f.firmware_ctrl as nat == le_u32(s, a + 36)
    &&& f.dsdt as nat == le_u32(s, a + 40)
    &&& f.reserved == s[a + 44]
    &&& f.prefered_power_management_profile == s[a + 45]
    &&& f.sci_interrupt as nat == le_u16(s, a + 46)
    &&& f.smi_command_port as nat == le_u32(s, a + 48)
    &&& f.acpi_enable == s[a + 52]
    &&& f.acpi_disable == s[a + 53]
    &&& f.s4bios_req == s[a + 54]
    &&& f.pstate_control == s[a + 55]
    &&& f.pm1a_event_block as nat == le_u32(s, a + 56)
    &&& f.pm1b_event_block as nat == le_u32(s, a + 60)
    &&& f.pm1a_control_block as nat == le_u32(s, a + 64)
    &&& f.pm1b_control_block as nat == le_u32(s, a + 68)
    &&& f.pm2_control_block as nat == le_u32(s, a + 72)
    &&& f.pm_timer_block as nat == le_u32(s, a + 76)
    &&& f.gpe0_block as nat == le_u32(s, a + 80)
    &&& f.gpe1_block as nat == le_u32(s, a + 84)
    &&& f.pm1_event_length == s[a + 88]
    &&& f.pm1_control_length == s[a + 89]
    &&& f.pm2_control_length == s[a + 90]
    &&& f.pm_timer_length == s[a + 91]
    &&& f.gpe0_length == s[a + 92]
    &&& f.gpe1_length == s[a + 93]
    &&& f.gpe1_base == s[a + 94]
    &&& f.cstate_control == s[a + 95]
    &&& f.worst_c2_latency as nat == le_u16(s, a + 96)
    &&& f.worst_c3_latency as nat == le_u16(s, a + 98)
    &&& f.flush_size as nat == le_u16(s, a + 100)
    &&& f.flush_stride as nat == le_u16(s, a + 102)
    &&& f.duty_offset == s[a + 104]
    &&& f.duty_width == s[a + 105]
    &&& f.day_alarm == s[a + 106]
    &&& f.month_alarm == s[a + 107]
    &&& f.century == s[a + 108]
    &&& f.boot_architecture_flags as nat == le_u16(s, a + 109)
    &&& f.reserved2 == s[a + 111]
    &&& f.flags as nat == le_u32(s, a + 112)
    &&& generic_address_at(f.reset_register, s, a + 116)
    &&& f.reset_value == s[a + 128]
    &&& f.reserved3@ == s.subrange(a + 129, a + 132)
}

impl Fadt {
    /// Reads the power-management table laid out in `mem` at `addr`; `None`
    /// where its 132 bytes do not all lie in `mem`.
    pub fn from_addr(mem: &[u8], addr: usize) -> (r: Option<Fadt>)
        ensures
            r.is_some() <==> addr + FADT_SIZE <= mem@.len(),
            r matches Some(f) ==> fadt_at(f, mem@, addr as int),
    {
        if addr > mem.len() || mem.len() - addr < FADT_SIZE {
            return None;
        }
        let header = match AcpiHeader::from_addr(mem, addr) {
            Some(h) => h,
            None => return None,
        };
        let reset_register = GenericAddressStructure {
            address_space: mem[addr + 116],
            bit_width: mem[addr + 117],
            bit_offset: mem[addr + 118],
            access_size: mem[addr + 119],
            address: read_u64(mem, addr + 120),
        };
        let reserved3 = [mem[addr + 129], mem[addr + 130], mem[addr + 131]];
        assert(reserved3@ =~= mem@.subrange(addr + 129, addr + 132));
        Some(
            Fadt {
                header,
                firmware_ctrl: read_u32(mem, addr + 36),
                dsdt: read_u32(mem, addr + 40),
                reserved: mem[addr + 44],
                prefered_power_management_profile: mem[addr + 45],
                sci_interrupt: read_u16(mem, addr + 46),
                smi_command_port: read_u32(mem, addr + 48),
                acpi_enable: mem[addr + 52],
                acpi_disable: mem[addr + 53],
                s4bios_req: mem[addr + 54],
                pstate_control: mem[addr + 55],
                pm1a_event_block: read_u32(mem, addr + 56),
                pm1b_event_block: read_u32(mem, addr + 60),
                pm1a_control_block: read_u32(mem, addr + 64),
                pm1b_control_block: read_u32(mem, addr + 68),
                pm2_control_block: read_u32(mem, addr + 72),
                pm_timer_block: read_u32(mem, addr + 76),
                gpe0_block: read_u32(mem, addr + 80),
                gpe1_block: read_u32(mem, addr + 84),
                pm1_event_length: mem[addr + 88],
                pm1_control_length: mem[addr + 89],
                pm2_control_length: mem[addr + 90],
                pm_timer_length: mem[addr + 91],
                gpe0_length: mem[addr + 92],
                gpe1_length: mem[addr + 93],
                gpe1_base: mem[addr + 94],
                cstate_control: mem[addr + 95],
                worst_c2_latency: read_u16(mem, addr + 96),
                worst_c3_latency: read_u16(mem, addr + 98),
                flush_size: read_u16(mem, addr + 100),
                flush_stride: read_u16(mem, addr + 102),
                duty_offset: mem[addr + 104],
                duty_width: mem[addr + 105],
                day_alarm: mem[addr + 106],
                month_alarm: mem[addr + 107],
                century: mem[addr + 108],
                boot_architecture_flags: read_u16(mem, addr + 109),
                reserved2: mem[addr + 111],
                flags: read_u32(mem, addr + 112),
                reset_register,
                reset_value: mem[addr + 128],
                reserved3,
            },
        )
    }
}

} // verus!
