use vstd::prelude::*;

use crate::acpi::madt::{madt_fits, madt_stream, madt_walk, LocalApicEntry, MadtEntryKind};
use crate::acpi::rsdt::readable_tables;
use crate::acpi::{apic_signature, facp_signature, table_valid, Acpi, AcpiTableKind};
use crate::bytes::le_u32;

verus! {

/// Local APIC Task Priority Register
pub const LAPIC_TPR: usize = 0x0080;
/// Local APIC Spurious Interrupt Vector Register
pub const LAPIC_SVR: usize = 0x00f0;
/// What the spurious interrupt vector register is set to: the enable bit and
/// vector 0xFF.
pub const LAPIC_SVR_ENABLE: u32 = 0x100 | 0xff;

/// The local interrupt controller records among `records`, in order.
pub open spec fn local_apics_in(records: Seq<MadtEntryKind>) -> Seq<LocalApicEntry>
    decreases records.len(),
{
    if records.len() == 0 {
        seq![]
    } else {
        match records[0] {
            MadtEntryKind::LocalApic(e) => seq![e] + local_apics_in(records.drop_first()),
            _ => local_apics_in(records.drop_first()),
        }
    }
}

/// Whether dispatch finds an interrupt-topology table at `a` in `s` whose
/// checksum holds.
pub open spec fn is_madt_at(s: Seq<u8>, a: int) -> bool {
    s.subrange(a, a + 4) == apic_signature() && madt_fits(s, a) && table_valid(s, a)
}

/// The records of the interrupt-topology table at `a` in `s`.
pub open spec fn madt_records_at(s: Seq<u8>, a: int) -> Seq<MadtEntryKind> {
    madt_walk(madt_stream(s, a, le_u32(s, a + 4) as int), 0)
}

/// The local interrupt controllers of every interrupt-topology table among the
/// tables at `t`, table by table.
pub open spec fn topology_apics(s: Seq<u8>, t: Seq<u32>) -> Seq<LocalApicEntry>
    decreases t.len(),
{
    if t.len() == 0 {
        seq![]
    } else {
        (if is_madt_at(s, t[0] as int) {
            local_apics_in(madt_records_at(s, t[0] as int))
        } else {
            seq![]
        }) + topology_apics(s, t.drop_first())
    }
}

/// The local interrupt controller address of the last interrupt-topology
/// table among the tables at `t`, or `current` where there is none.
pub open spec fn topology_address(s: Seq<u8>, t: Seq<u32>, current: u32) -> u32
    decreases t.len(),
{
    if t.len() == 0 {
        current
    } else {
        topology_address(
            s,
            t.drop_first(),
            if is_madt_at(s, t[0] as int) {
                le_u32(s, t[0] + 36) as u32
            } else {
                current
            },
        )
    }
}

/// What the interrupt-controller initializer needs from the firmware tables.
#[derive(Debug)]
pub struct LocalApicTopology {
    /// Physical address of the local interrupt controllers' registers.
    pub local_apic_address: u32,
    /// Every local interrupt controller record.
    pub local_apics: Vec<LocalApicEntry>,
}

/// Collects the local interrupt controller records of every interrupt-topology
/// table that the root table points to, and the local interrupt controller
/// address of the last such table (0 where there is none). A table whose
/// checksum fails is passed over.
pub fn discover_local_apics(acpi: &Acpi) -> (r: LocalApicTopology)
    requires
        acpi.rsdt.wf(),
    ensures
        ({
            let s = acpi.rsdt.mem@;
            let t = readable_tables(s, acpi.rsdt.entries());
            &&& r.local_apic_address == topology_address(s, t, 0)
            &&& r.local_apics@ == topology_apics(s, t)
        }),
{
    let ghost s = acpi.rsdt.mem@;
    let ghost all = readable_tables(s, acpi.rsdt.entries());
    let mut local_apics: Vec<LocalApicEntry> = Vec::new();
    let mut local_apic_address: u32 = 0;
    let mut tables = acpi.rsdt.raw_iter();
    loop
        invariant
            tables.wf(),
            tables.memory() == s,
            s == acpi.rsdt.mem@,
            all == readable_tables(s, acpi.rsdt.entries()),
            topology_address(s, all, 0) == topology_address(
                s,
                readable_tables(s, tables.pending()),
                local_apic_address,
            ),
            topology_apics(s, all) == local_apics@ + topology_apics(
                s,
                readable_tables(s, tables.pending()),
            ),
        decreases readable_tables(s, tables.pending()).len(),
    {
        let ghost t = readable_tables(s, tables.pending());
        match tables.next() {
            None => {
                assert(local_apics@ =~= topology_apics(s, all));
                return LocalApicTopology { local_apic_address, local_apics };
            },
            Some((header, p)) => {
                let valid = header.validate_checksum(acpi.rsdt.mem, p as usize);
                let kind = if valid {
                    AcpiTableKind::try_parse(acpi.rsdt.mem, p as usize)
                } else {
                    Err(())
                };
                match kind {
                    Ok(AcpiTableKind::Madt(madt)) => {
                        let ghost before = local_apics@;
                        proof {
                            assert(madt_walk(madt.stream(), 0) == madt_records_at(s, t[0] as int));
                        }
                        local_apic_address = madt.apic_addr;
                        let mut records = madt.iter();
                        loop
                            invariant
                                records.wf(),
                                records.stream() == madt.stream(),
                                madt_walk(madt.stream(), 0) == madt_records_at(s, t[0] as int),
                                before + local_apics_in(madt_walk(madt.stream(), 0))
                                    == local_apics@ + local_apics_in(records.remaining()),
                            ensures
                                local_apics@ == before + local_apics_in(
                                    madt_records_at(s, t[0] as int),
                                ),
                            decreases records.stream().len() - records.position(),
                        {
                            let ghost rest = records.remaining();
                            match records.next() {
                                None => {
                                    assert(local_apics@ + local_apics_in(records.remaining())
                                        =~= local_apics@);
                                    break;
                                },
                                Some(MadtEntryKind::LocalApic(e)) => {
                                    assert(rest.drop_first() =~= records.remaining());
                                    local_apics.push(e);
                                    assert(local_apics@ + local_apics_in(records.remaining())
                                        =~= before + local_apics_in(madt_walk(madt.stream(), 0)));
                                },
                                Some(_) => {
                                    assert(rest.drop_first() =~= records.remaining());
                                },
                            }
                        }
                        proof {
                            assert(topology_apics(s, all) =~= local_apics@ + topology_apics(
                                s,
                                t.drop_first(),
                            ));
                        }
                    },
                    other => {
                        proof {
                            let sub = s.subrange(t[0] as int, t[0] + 4);
                            if let Ok(AcpiTableKind::Fadt(_)) = other {
                                if sub == apic_signature() {
                                    assert(sub[0] == facp_signature()[0]);
                                }
                            }
                            assert(!is_madt_at(s, t[0] as int));
                            assert(topology_apics(s, t) =~= topology_apics(s, t.drop_first()));
                        }
                    },
                }
            },
        }
    }
}

} // verus!
