use vstd::prelude::*;

use crate::acpi::{header_at, AcpiHeader, HEADER_SIZE};
use crate::bytes::{le_u16, le_u32, le_u64, read_u16, read_u32, read_u64};

verus! {

/// Size of the fixed part of the interrupt-topology table: the header, the
/// local interrupt controller address and the flags.
pub const MADT_FIXED_SIZE: usize = 44;

/// Processor Local APIC.
#[derive(Clone, Copy, Debug, PartialEq, Eq)]
pub struct LocalApicEntry {
    /// ACPI Processor ID
    pub acpi_processor_id: u8,
    /// APIC id.
    pub apic_id: u8,
    /// Bit 0: the processor is enabled; bit 1: it can be enabled.
    pub flags: u32,
}

/// I/O APIC.
#[derive(Clone, Copy, Debug, PartialEq, Eq)]
pub struct IoApicEntry {
    /// IO Apic ID
    pub apic_id: u8,
    pub reserved: u8,
    /// IO Apic address
    pub apic_addr: u32,
    /// Global System Interrupt Base
    pub global_system_interrupt_base: u32,
}

/// I/O APIC Interrupt Source Override: how an IRQ source maps to a global
/// system interrupt.
#[derive(Clone, Copy, Debug, PartialEq, Eq)]
pub struct IoApicInterruptSourceOverrideEntry {
    pub bus_source: u8,
    pub irq_source: u8,
    pub global_system_interrupt: u32,
    pub flags: u16,
}

/// I/O APIC Non-maskable interrupt source: which I/O APIC inputs are
/// non-maskable.
#[derive(Clone, Copy, Debug, PartialEq, Eq)]
pub struct IoApicNonMaskableInterruptSourceEntry {
    pub nmi_source: u8,
    pub reserved: u8,
    pub flags: u16,
    pub global_system_interrupt: u32,
}

/// Local APIC Non-maskable interrupts.
#[derive(Clone, Copy, Debug, PartialEq, Eq)]
pub struct LocalApicNonMaskableInterruptsEntry {
    /// ACPI Processor ID (0xFF means all processors)
    pub acpi_processor_id: u8,
    pub flags: u16,
    pub lint: u8,
}

/// Local APIC Address Override: a 64-bit address that replaces the 32-bit
/// one of the table's fixed part.
#[derive(Clone, Copy, Debug, PartialEq, Eq)]
pub struct LocalApicAddressOverrideEntry {
    pub reserved: u16,
    /// 64-bit physical address of Local APIC
    pub local_apic_address: u64,
}

/// Processor Local x2APIC: a processor whose ids do not fit the Local APIC
/// record.
#[derive(Clone, Copy, Debug, PartialEq, Eq)]
pub struct ProcessorLocalx2ApicEntry {
    pub reserved: u16,
    /// Processor's local x2APIC ID
    pub processor_id: u32,
    /// Flags (same as the Local APIC flags)
    pub flags: u32,
    /// ACPI id
    pub acpi_id: u32,
}

/// One record of the interrupt-topology table's record stream.
#[derive(Clone, Copy, Debug, PartialEq, Eq)]
pub enum MadtEntryKind {
    LocalApic(LocalApicEntry),
    IoApic(IoApicEntry),
    IoApicInterruptSourceOverride(IoApicInterruptSourceOverrideEntry),
    IoApicNonMaskableInterruptSource(IoApicNonMaskableInterruptSourceEntry),
    LocalApicAddressOverride(LocalApicAddressOverrideEntry),
    LocalApicNonMaskableInterrupts(LocalApicNonMaskableInterruptsEntry),
    ProcessorLocalx2Apic(ProcessorLocalx2ApicEntry),
}

/// The smallest record length that holds a record of kind `tag`, or 0 where
/// `tag` names no known kind.
pub open spec fn record_size(tag: u8) -> nat {
    if tag == 0 {
        8
    } else if tag == 1 {
        12
    } else if tag == 2 {
        10
    } else if tag == 3 {
        10
    } else if tag == 4 {
        6
    } else if tag == 5 {
        12
    } else if tag == 9 {
        16
    } else {
        0
    }
}

/// The record that starts at `i` in `s` (tag at `i`, length at `i + 1`,
/// payload from `i + 2`), or `None` where its tag is unknown or its declared
/// length is too short for its kind.
pub open spec fn decode_record(s: Seq<u8>, i: int) -> Option<MadtEntryKind> {
    let tag = s[i];
    let p = i + 2;
    if record_size(tag) == 0 || (s[i + 1] as nat) < record_size(tag) {
        None
    } else if tag == 0 {
        Some(
            MadtEntryKind::LocalApic(
                LocalApicEntry {
                    acpi_processor_id: s[p],
                    apic_id: s[p + 1],
                    flags: le_u32(s, p + 2) as u32,
                },
            ),
        )
    } else if tag == 1 {
        Some(
            MadtEntryKind::IoApic(
                IoApicEntry {
                    apic_id: s[p],
                    reserved: s[p + 1],
                    apic_addr: le_u32(s, p + 2) as u32,
                    global_system_interrupt_base: le_u32(s, p + 6) as u32,
                },
            ),
        )
    } else if tag == 2 {
        Some(
            MadtEntryKind::IoApicInterruptSourceOverride(
                IoApicInterruptSourceOverrideEntry {
                    bus_source: s[p],
                    irq_source: s[p + 1],
                    global_system_interrupt: le_u32(s, p + 2) as u32,
                    flags: le_u16(s, p + 6) as u16,
                },
            ),
        )
    } else if tag == 3 {
        Some(
            MadtEntryKind::IoApicNonMaskableInterruptSource(
                IoApicNonMaskableInterruptSourceEntry {
                    nmi_source: s[p],
                    reserved: s[p + 1],
                    flags: le_u16(s, p + 2) as u16,
                    global_system_interrupt: le_u32(s, p + 4) as u32,
                },
            ),
        )
    } else if tag == 4 {
        Some(
            MadtEntryKind::LocalApicNonMaskableInterrupts(
                LocalApicNonMaskableInterruptsEntry {
                    acpi_processor_id: s[p],
                    flags: le_u16(s, p + 1) as u16,
                    lint: s[p + 3],
                },
            ),
        )
    } else if tag == 5 {
        Some(
            MadtEntryKind::LocalApicAddressOverride(
                LocalApicAddressOverrideEntry {
                    reserved: le_u16(s, p) as u16,
                    local_apic_address: le_u64(s, p + 2) as u64,
                },
            ),
        )
    } else {
        Some(
            MadtEntryKind::ProcessorLocalx2Apic(
                ProcessorLocalx2ApicEntry {
                    reserved: le_u16(s, p) as u16,
                    processor_id: le_u32(s, p + 2) as u32,
                    flags: le_u32(s, p + 6) as u32,
                    acpi_id: le_u32(s, p + 10) as u32,
                },
            ),
        )
    }
}

/// The records that a walk of the stream `s` yields from offset `i`. The walk
/// ends where fewer than two bytes are left, where a record declares a length
/// below 2, or where a record would run past the end of `s`; a record of an
/// unknown kind is passed over.
pub open spec fn madt_walk(s: Seq<u8>, i: int) -> Seq<MadtEntryKind>
    decreases s.len() - i,
{
    if i < 0 || i + 2 > s.len() {
        seq![]
    } else if s[i + 1] < 2 || i + s[i + 1] > s.len() {
        seq![]
    } else {
        match decode_record(s, i) {
            Some(e) => seq![e] + madt_walk(s, i + s[i + 1]),
            None => madt_walk(s, i + s[i + 1]),
        }
    }
}

/// A record that declares a length below 2 ends the walk at once: nothing is
/// yielded from it on.
pub proof fn lemma_short_record_ends_walk(s: Seq<u8>, i: int)
    requires
        0 <= i,
        i + 2 <= s.len(),
        s[i + 1] < 2,
    ensures
        madt_walk(s, i) == Seq::<MadtEntryKind>::empty(),
{
}

/// A record whose declared length runs past the end of the stream is not
/// yielded, and the walk ends there.
pub proof fn lemma_truncated_record_ends_walk(s: Seq<u8>, i: int)
    requires
        0 <= i,
        i + 2 <= s.len(),
        i + s[i + 1] > s.len(),
    ensures
        madt_walk(s, i) == Seq::<MadtEntryKind>::empty(),
{
}

/// Decodes the record at `at` of `s`, whose declared length lies within `s`.
fn decode_record_at(s: &[u8], at: usize) -> (r: Option<MadtEntryKind>)
    requires
        at + 2 <= s@.len(),
        at + s@[at + 1] <= s@.len(),
    ensures
        r == decode_record(s@, at as int),
{
    let tag = s[at];
    let len = s[at + 1];
    let p = at + 2;
    if tag == 0 && len >= 8 {
        Some(
            MadtEntryKind::LocalApic(
                LocalApicEntry {
                    acpi_processor_id: s[p],
                    apic_id: s[p + 1],
                    flags: read_u32(s, p + 2),
                },
            ),
        )
    } else if tag == 1 && len >= 12 {
        Some(
            MadtEntryKind::IoApic(
                IoApicEntry {
                    apic_id: s[p],
                    reserved: s[p + 1],
                    apic_addr: read_u32(s, p + 2),
                    global_system_interrupt_base: read_u32(s, p + 6),
                },
            ),
        )
    } else if tag == 2 && len >= 10 {
        Some(
            MadtEntryKind::IoApicInterruptSourceOverride(
                IoApicInterruptSourceOverrideEntry {
                    bus_source: s[p],
                    irq_source: s[p + 1],
                    global_system_interrupt: read_u32(s, p + 2),
                    flags: read_u16(s, p + 6),
                },
            ),
        )
    } else if tag == 3 && len >= 10 {
        Some(
            MadtEntryKind::IoApicNonMaskableInterruptSource(
                IoApicNonMaskableInterruptSourceEntry {
                    nmi_source: s[p],
                    reserved: s[p + 1],
                    flags: read_u16(s, p + 2),
                    global_system_interrupt: read_u32(s, p + 4),
                },
            ),
        )
    } else if tag == 4 && len >= 6 {
        Some(
            MadtEntryKind::LocalApicNonMaskableInterrupts(
                LocalApicNonMaskableInterruptsEntry {
                    acpi_processor_id: s[p],
                    flags: read_u16(s, p + 1),
                    lint: s[p + 3],
                },
            ),
        )
    } else if tag == 5 && len >= 12 {
        Some(
            MadtEntryKind::LocalApicAddressOverride(
                LocalApicAddressOverrideEntry {
                    reserved: read_u16(s, p),
                    local_apic_address: read_u64(s, p + 2),
                },
            ),
        )
    } else if tag == 9 && len >= 16 {
        Some(
            MadtEntryKind::ProcessorLocalx2Apic(
                ProcessorLocalx2ApicEntry {
                    reserved: read_u16(s, p),
                    processor_id: read_u32(s, p + 2),
                    flags: read_u32(s, p + 6),
                    acpi_id: read_u32(s, p + 10),
                },
            ),
        )
    } else {
        None
    }
}

/// A walk over the record stream of an interrupt-topology table. It reads only
/// within the stream it was made from.
#[derive(Clone, Copy, Debug)]
pub struct MadtEntryIterator<'a> {
    stream: &'a [u8],
    /// Offset of the next record in the stream.
    index: usize,
}

impl<'a> MadtEntryIterator<'a> {
    /// The stream walked over.
    pub closed spec fn stream(&self) -> Seq<u8> {
        self.stream@
    }

    /// The offset of the next record.
    pub closed spec fn position(&self) -> nat {
        self.index as nat
    }

    /// The records that are still to come.
    pub open spec fn remaining(&self) -> Seq<MadtEntryKind> {
        madt_walk(self.stream(), self.position() as int)
    }

    pub open spec fn wf(&self) -> bool {
        self.position() <= self.stream().len()
    }

    /// Starts a walk at the beginning of `stream`.
    pub fn new(stream: &'a [u8]) -> (r: MadtEntryIterator<'a>)
        ensures
            r.wf(),
            r.stream() == stream@,
            r.position() == 0,
            r.remaining() == madt_walk(stream@, 0),
    {
        MadtEntryIterator { stream, index: 0 }
    }

    /// Yields the next record of a known kind, passing over records of unknown
    /// kinds. `None` once the walk is exhausted; it stays exhausted.
    pub fn next(&mut self) -> (r: Option<MadtEntryKind>)
        requires
            old(self).wf(),
        ensures
            final(self).wf(),
            final(self).stream() == old(self).stream(),
            match r {
                None => old(self).remaining() == Seq::<MadtEntryKind>::empty()
                    && final(self).remaining() == Seq::<MadtEntryKind>::empty(),
                Some(e) => old(self).remaining() == seq![e] + final(self).remaining()
                    && final(self).position() >= old(self).position() + 2,
            },
    {
        let len = self.stream.len();
        let ghost start = self.index as int;
        loop
            invariant
                self.wf(),
                self.stream() == old(self).stream(),
                len == self.stream().len(),
                old(self).position() <= self.position(),
                madt_walk(self.stream(), start) == madt_walk(self.stream(), self.index as int),
                start == old(self).position(),
            decreases len - self.index,
        {
            let at = self.index;
            if len < 2 || at > len - 2 {
                self.index = len;
                return None;
            }
            let size = self.stream[at + 1] as usize;
            if size < 2 || size > len - at {
                self.index = len;
                return None;
            }
            self.index = at + size;
            let entry = decode_record_at(self.stream, at);
            if let Some(e) = entry {
                return Some(e);
            }
        }
    }
}

/// The interrupt-topology table (MADT): its fixed part and its record stream.
#[derive(Clone, Copy, Debug)]
pub struct Madt<'a> {
    /// Acpi Header
    pub header: AcpiHeader,
    /// Local APIC Address
    pub apic_addr: u32,
    /// Flags (1 = Dual 8259 Legacy PICs Installed)
    pub flags: u32,
    /// The record stream: the table's bytes after its fixed part.
    pub entry_stream: &'a [u8],
}

/// The record stream of the table laid out in `s` at `a` with declared length
/// `length`: the bytes after the fixed part up to the declared end, or up to
/// the end of `s` where the table is cut short there (none where the declared
/// length does not cover the fixed part).
pub open spec fn madt_stream(s: Seq<u8>, a: int, length: int) -> Seq<u8> {
    if length < MADT_FIXED_SIZE {
        seq![]
    } else if a + length > s.len() {
        s.subrange(a + MADT_FIXED_SIZE, s.len() as int)
    } else {
        s.subrange(a + MADT_FIXED_SIZE, a + length)
    }
}

/// Whether the fixed part of the table laid out in `s` at `a` lies within `s`.
pub open spec fn madt_fits(s: Seq<u8>, a: int) -> bool {
    a + MADT_FIXED_SIZE <= s.len()
}

/// `m` holds the interrupt-topology table laid out in `s` at `a`.
pub open spec fn madt_at(m: Madt, s: Seq<u8>, a: int) -> bool {
    &&& header_at(m.header, s, a)
    &&& m.apic_addr as nat == le_u32(s, a + 36)
    &&& m.flags as nat == le_u32(s, a + 40)
    &&& m.stream() == madt_stream(s, a, m.header.length as int)
}

impl<'a> Madt<'a> {
    /// The record stream that follows the fixed part.
    pub open spec fn stream(&self) -> Seq<u8> {
        self.entry_stream@
    }

    /// Reads the table laid out in `mem` at `addr`. `None` where its fixed part
    /// runs past the end of `mem`; where only its record stream does, the
    /// stream stops at the end of `mem`.
    pub fn from_addr(mem: &'a [u8], addr: usize) -> (r: Option<Madt<'a>>)
        ensures
            r.is_some() <==> madt_fits(mem@, addr as int),
            r matches Some(m) ==> madt_at(m, mem@, addr as int),
    {
        if addr > mem.len() || mem.len() - addr < MADT_FIXED_SIZE {
            return None;
        }
        let header = match AcpiHeader::from_addr(mem, addr) {
            Some(h) => h,
            None => return None,
        };
        let length = header.length as usize;
        let entry_stream: &'a [u8] = if length < MADT_FIXED_SIZE {
            vstd::slice::slice_subrange(mem, 0, 0)
        } else if length > mem.len() - addr {
            vstd::slice::slice_subrange(mem, addr + MADT_FIXED_SIZE, mem.len())
        } else {
            vstd::slice::slice_subrange(mem, addr + MADT_FIXED_SIZE, addr + length)
        };
        assert(length < MADT_FIXED_SIZE ==> entry_stream@ =~= seq![]);
        Some(
            Madt {
                header,
                apic_addr: read_u32(mem, addr + HEADER_SIZE),
                flags: read_u32(mem, addr + 40),
                entry_stream,
            },
        )
    }

    /// A walk over the record stream, from its start.
    pub fn iter(&self) -> (r: MadtEntryIterator<'a>)
        ensures
            r.wf(),
            r.stream() == self.stream(),
            r.remaining() == madt_walk(self.stream(), 0),
    {
        MadtEntryIterator::new(self.entry_stream)
    }

    /// Every record of a known kind in the stream, in order.
    pub fn entries(&self) -> (r: Vec<MadtEntryKind>)
        ensures
            r@ == madt_walk(self.stream(), 0),
    {
        let mut it = self.iter();
        let mut out: Vec<MadtEntryKind> = Vec::new();
        loop
            invariant
                it.wf(),
                it.stream() == self.stream(),
                out@ + it.remaining() == madt_walk(self.stream(), 0),
            decreases it.stream().len() - it.position(),
        {
            match it.next() {
                Some(e) => {
                    out.push(e);
                    assert(out@ + it.remaining() =~= madt_walk(self.stream(), 0));
                },
                None => {
                    assert(out@ =~= madt_walk(self.stream(), 0));
                    return out;
                },
            }
        }
    }
}

} // verus!
