use firmware_tables::acpi::madt::{Madt, MadtEntryIterator, MadtEntryKind};
use firmware_tables::apic::discover_local_apics;
use firmware_tables::acpi::rsdp::{Rsdp, RsdpError};
use firmware_tables::acpi::rsdt::Rsdt;
use firmware_tables::acpi::{init_acpi, AcpiError, AcpiHeader, AcpiTableKind};
use firmware_tables::bytes::checksum_valid;

/// Writes a table header at `at` with the given signature and length, and
/// fixes its checksum byte so that the `length` bytes sum to zero.
fn put_header(mem: &mut Vec<u8>, at: usize, sig: &[u8; 4], length: u32) {
    mem[at..at + 4].copy_from_slice(sig);
    mem[at + 4..at + 8].copy_from_slice(&length.to_le_bytes());
    mem[at + 8] = 1;
    mem[at + 10..at + 16].copy_from_slice(b"OEMID ");
}

fn fix_checksum(mem: &mut Vec<u8>, at: usize, length: usize, checksum_at: usize) {
    mem[checksum_at] = 0;
    let sum: u8 = mem[at..at + length].iter().fold(0u8, |a, b| a.wrapping_add(*b));
    mem[checksum_at] = 0u8.wrapping_sub(sum);
}

fn put_rsdp(mem: &mut Vec<u8>, at: usize, rsdt: u64) {
    mem[at..at + 8].copy_from_slice(b"RSD PTR ");
    mem[at + 9..at + 15].copy_from_slice(b"OEMID ");
    mem[at + 16..at + 24].copy_from_slice(&rsdt.to_le_bytes());
    fix_checksum(mem, at, 24, at + 8);
}

fn put_rsdt(mem: &mut Vec<u8>, at: usize, entries: &[u32]) {
    let length = 36 + 4 * entries.len();
    put_header(mem, at, b"RSDT", length as u32);
    for (i, e) in entries.iter().enumerate() {
        mem[at + 36 + 4 * i..at + 40 + 4 * i].copy_from_slice(&e.to_le_bytes());
    }
    fix_checksum(mem, at, length, at + 9);
}

fn put_madt(mem: &mut Vec<u8>, at: usize, records: &[u8]) {
    let length = 44 + records.len();
    put_header(mem, at, b"APIC", length as u32);
    mem[at + 36..at + 40].copy_from_slice(&0xFEE0_0000u32.to_le_bytes());
    mem[at + 40..at + 44].copy_from_slice(&1u32.to_le_bytes());
    mem[at + 44..at + length].copy_from_slice(records);
    fix_checksum(mem, at, length, at + 9);
}

#[test]
fn checksum_holds_and_breaks_on_any_flipped_byte() {
    let mut mem = vec![0u8; 64];
    put_rsdt(&mut mem, 0, &[0x1000, 0x2000]);
    assert!(checksum_valid(&mem, 0, 44));
    let h = AcpiHeader::from_addr(&mem, 0).unwrap();
    assert!(h.validate_checksum(&mem, 0));
    for i in 0..44 {
        let mut bad = mem.clone();
        bad[i] ^= 0x40;
        assert!(!checksum_valid(&bad, 0, 44), "byte {}", i);
    }
}

#[test]
fn checksum_is_a_sum_not_a_last_byte_test() {
    assert!(checksum_valid(&[0x10, 0xF0], 0, 2));
    assert!(!checksum_valid(&[0x10, 0x00], 0, 2));
    assert!(checksum_valid(&[], 0, 0));
}

#[test]
fn header_checksum_fails_when_length_runs_past_memory() {
    let mut mem = vec![0u8; 40];
    put_header(&mut mem, 0, b"XSDT", 100);
    let h = AcpiHeader::from_addr(&mem, 0).unwrap();
    assert_eq!(h.length, 100);
    assert!(!h.validate_checksum(&mem, 0));
}

#[test]
fn header_fields_are_read_little_endian() {
    let mut mem = vec![0u8; 36];
    put_header(&mut mem, 0, b"FACP", 0x0102_0304);
    mem[16..24].copy_from_slice(&0x1122_3344_5566_7788u64.to_le_bytes());
    mem[32..36].copy_from_slice(&7u32.to_le_bytes());
    let h = AcpiHeader::from_addr(&mem, 0).unwrap();
    assert_eq!(&h.signature, b"FACP");
    assert_eq!(h.length, 0x0102_0304);
    assert_eq!(h.revision, 1);
    assert_eq!(&h.oem_id, b"OEMID ");
    assert_eq!(h.oem_table_id, 0x1122_3344_5566_7788);
    assert_eq!(h.creator_revision, 7);
    assert!(AcpiHeader::from_addr(&mem, 1).is_none());
}

#[test]
fn rsdp_is_located_and_validated() {
    let mut mem = vec![0u8; 64];
    put_rsdp(&mut mem, 8, 0x1234);
    assert_eq!(Rsdp::check(&mem, 8), None);
    let d = Rsdp::from_addr(&mem, 8);
    assert_eq!(d.rsdt_address, 0x1234);
    assert_eq!(&d.signature, b"RSD PTR ");
    assert_eq!(&d.oem_id, b"OEMID ");
    assert_eq!(Rsdp::check(&mem, 44), Some(RsdpError::Truncated));
    let mut bad_sig = mem.clone();
    bad_sig[8] = b'X';
    assert_eq!(Rsdp::check(&bad_sig, 8), Some(RsdpError::InvalidSignature));
    let mut bad_sum = mem.clone();
    bad_sum[30] ^= 1;
    assert_eq!(Rsdp::check(&bad_sum, 8), Some(RsdpError::InvalidChecksum));
}

#[test]
fn rsdp_address_is_pointer_sized() {
    let mut mem = vec![0u8; 32];
    put_rsdp(&mut mem, 0, 0xFF00_0001_0000_1000);
    assert_eq!(Rsdp::check(&mem, 0), None);
    assert_eq!(Rsdp::from_addr(&mem, 0).rsdt_address, 0xFF00_0001_0000_1000);
}

#[test]
fn root_table_with_no_entries_yields_nothing() {
    let mut mem = vec![0u8; 64];
    put_rsdt(&mut mem, 0, &[]);
    let t = Rsdt::from_addr(&mem, 0).unwrap();
    assert_eq!(t.entry_count(), 0);
    assert!(t.addresses().is_empty());
    assert!(t.iter().next().is_none());
    assert!(t.raw_iter().next().is_none());
}

#[test]
fn root_table_shorter_than_its_header_yields_nothing() {
    let mut mem = vec![0u8; 64];
    put_header(&mut mem, 0, b"RSDT", 20);
    let t = Rsdt::from_addr(&mem, 0).unwrap();
    assert_eq!(t.entry_count(), 0);
    assert!(t.iter().next().is_none());
}

#[test]
fn root_table_round_trip() {
    let mut mem = vec![0u8; 64];
    put_rsdt(&mut mem, 0, &[0xDEAD_BEEF, 0x0000_1000]);
    let t = Rsdt::from_addr(&mem, 0).unwrap();
    assert_eq!(t.entry_count(), 2);
    assert_eq!(t.addresses(), vec![0xDEAD_BEEF, 0x0000_1000]);
}

#[test]
fn root_table_running_past_memory_is_refused() {
    let mut mem = vec![0u8; 40];
    put_header(&mut mem, 0, b"RSDT", 48);
    assert!(Rsdt::from_addr(&mem, 0).is_none());
}

fn dispatch_memory() -> Vec<u8> {
    let mut mem = vec![0u8; 512];
    put_header(&mut mem, 100, b"FACP", 132);
    mem[100 + 40..100 + 44].copy_from_slice(&0x3000u32.to_le_bytes());
    mem[100 + 46..100 + 48].copy_from_slice(&9u16.to_le_bytes());
    mem[100 + 116] = 1;
    mem[100 + 120..100 + 128].copy_from_slice(&0xCF9u64.to_le_bytes());
    mem[100 + 128] = 6;
    fix_checksum(&mut mem, 100, 132, 109);
    put_madt(&mut mem, 240, &[0, 8, 1, 2, 1, 0, 0, 0]);
    put_header(&mut mem, 300, b"BOGU", 36);
    put_rsdt(&mut mem, 400, &[100, 240, 300, 0xFFFF_0000]);
    put_rsdp(&mut mem, 0, 400);
    mem
}

#[test]
fn dispatch_on_signature() {
    let mem = dispatch_memory();
    match AcpiTableKind::try_parse(&mem, 100) {
        Ok(AcpiTableKind::Fadt(f)) => {
            assert_eq!(f.dsdt, 0x3000);
            assert_eq!(f.sci_interrupt, 9);
            assert_eq!(f.reset_register.address_space, 1);
            assert_eq!(f.reset_register.address, 0xCF9);
            assert_eq!(f.reset_value, 6);
        }
        other => panic!("expected a power-management table, got {:?}", other),
    }
    match AcpiTableKind::try_parse(&mem, 240) {
        Ok(AcpiTableKind::Madt(m)) => {
            assert_eq!(m.apic_addr, 0xFEE0_0000);
            assert_eq!(m.flags, 1);
        }
        other => panic!("expected an interrupt-topology table, got {:?}", other),
    }
    match AcpiTableKind::try_parse(&mem, 300) {
        Ok(AcpiTableKind::Unknown(h)) => {
            assert_eq!(&h.signature, b"BOGU");
            assert_eq!(h.length, 36);
        }
        other => panic!("expected an unknown table, got {:?}", other),
    }
    assert!(AcpiTableKind::try_parse(&mem, 500).is_err());
}

#[test]
fn dispatch_of_truncated_fadt_is_unknown() {
    let mut mem = vec![0u8; 100];
    put_header(&mut mem, 0, b"FACP", 132);
    match AcpiTableKind::try_parse(&mem, 0) {
        Ok(AcpiTableKind::Unknown(h)) => assert_eq!(&h.signature, b"FACP"),
        other => panic!("expected an unknown table, got {:?}", other),
    }
}

#[test]
fn discovery_walks_every_readable_table() {
    let mem = dispatch_memory();
    let acpi = init_acpi(&mem, 0).unwrap();
    assert_eq!(acpi.rsdt.addr, 400);
    let mut it = acpi.rsdt.iter();
    assert!(matches!(it.next(), Some(AcpiTableKind::Fadt(_))));
    assert!(matches!(it.next(), Some(AcpiTableKind::Madt(_))));
    assert!(matches!(it.next(), Some(AcpiTableKind::Unknown(_))));
    assert!(it.next().is_none());
    let mut raw = acpi.rsdt.raw_iter();
    let (h, p) = raw.next().unwrap();
    assert_eq!((&h.signature, p), (b"FACP", 100));
    assert_eq!(raw.next().unwrap().1, 240);
    assert_eq!(raw.next().unwrap().1, 300);
    assert!(raw.next().is_none());
}

#[test]
fn madt_cut_short_by_memory_is_clipped() {
    let mut mem = vec![0u8; 52];
    put_madt(&mut mem, 0, &[0, 8, 3, 4, 1, 0, 0, 0]);
    mem[4..8].copy_from_slice(&100u32.to_le_bytes());
    let m = Madt::from_addr(&mem, 0).unwrap();
    assert_eq!(m.apic_addr, 0xFEE0_0000);
    assert_eq!(m.entry_stream.len(), 8);
    assert_eq!(m.entries().len(), 1);
    assert!(Madt::from_addr(&mem[..40], 0).is_none());
}

#[test]
fn dsdt_lookup_skips_fadt_with_bad_checksum() {
    let mut mem = dispatch_memory();
    mem[100 + 60] ^= 1;
    let acpi = init_acpi(&mem, 0).unwrap();
    assert_eq!(acpi.scan(*b"DSDT"), None);
    assert_eq!(acpi.scan(*b"FACP"), Some(100));
}

#[test]
fn discovery_lookup_by_signature() {
    let mem = dispatch_memory();
    let acpi = init_acpi(&mem, 0).unwrap();
    assert_eq!(acpi.scan(*b"APIC"), Some(240));
    assert_eq!(acpi.scan(*b"BOGU"), Some(300));
    assert_eq!(acpi.scan(*b"DSDT"), Some(0x3000));
    assert_eq!(acpi.scan(*b"SSDT"), None);
}

#[test]
fn discovery_errors() {
    let mem = dispatch_memory();
    assert_eq!(
        init_acpi(&mem, 1).unwrap_err(),
        AcpiError::Rsdp(RsdpError::InvalidSignature)
    );
    let mut bad_root = mem.clone();
    bad_root[400 + 36] ^= 1;
    assert_eq!(init_acpi(&bad_root, 0).unwrap_err(), AcpiError::RootTableChecksum);
    let mut far_root = vec![0u8; 64];
    put_rsdp(&mut far_root, 0, 60);
    assert_eq!(init_acpi(&far_root, 0).unwrap_err(), AcpiError::RootTableUnreadable);
}

fn madt_records(records: &[u8]) -> Vec<MadtEntryKind> {
    let mut mem = vec![0u8; 44 + records.len()];
    put_madt(&mut mem, 0, records);
    let m = Madt::from_addr(&mem, 0).unwrap();
    m.entries()
}

#[test]
fn madt_single_local_apic() {
    let mut mem = vec![0u8; 52];
    put_madt(&mut mem, 0, &[0, 8, 3, 4, 1, 0, 0, 0]);
    let m = Madt::from_addr(&mem, 0).unwrap();
    let mut it = m.iter();
    match it.next() {
        Some(MadtEntryKind::LocalApic(e)) => {
            assert_eq!(e.acpi_processor_id, 3);
            assert_eq!(e.apic_id, 4);
            assert_eq!(e.flags, 1);
        }
        other => panic!("expected a local APIC record, got {:?}", other),
    }
    assert!(it.next().is_none());
    assert!(it.next().is_none());
}

#[test]
fn madt_zero_length_record_ends_walk() {
    assert!(madt_records(&[0, 0, 1, 2, 3, 4, 5, 6]).is_empty());
    assert!(madt_records(&[0, 1, 1, 2, 3, 4, 5, 6]).is_empty());
}

#[test]
fn madt_truncated_record_is_not_yielded() {
    let e = madt_records(&[0, 8, 1, 1, 1, 0, 0, 0, 1, 12, 2, 0, 0, 0]);
    assert_eq!(e.len(), 1);
    assert!(matches!(e[0], MadtEntryKind::LocalApic(_)));
}

#[test]
fn madt_unknown_record_is_passed_over() {
    let e = madt_records(&[7, 4, 0, 0, 0, 8, 5, 6, 1, 0, 0, 0]);
    assert_eq!(e.len(), 1);
    match e[0] {
        MadtEntryKind::LocalApic(l) => assert_eq!(l.apic_id, 6),
        other => panic!("expected a local APIC record, got {:?}", other),
    }
}

#[test]
fn madt_every_record_kind() {
    let mut r: Vec<u8> = Vec::new();
    r.extend_from_slice(&[1, 12, 2, 0, 0x00, 0x00, 0xC0, 0xFE, 0, 0, 0, 0]);
    r.extend_from_slice(&[2, 10, 0, 9, 9, 0, 0, 0, 0x0F, 0]);
    r.extend_from_slice(&[3, 10, 1, 0, 5, 0, 3, 0, 0, 0]);
    r.extend_from_slice(&[4, 6, 0xFF, 5, 0, 1]);
    r.extend_from_slice(&[5, 12, 0, 0, 0, 0, 0xE0, 0xFE, 0, 0, 0, 0]);
    r.extend_from_slice(&[9, 16, 0, 0, 7, 0, 0, 0, 1, 0, 0, 0, 8, 0, 0, 0]);
    let e = madt_records(&r);
    assert_eq!(e.len(), 6);
    match e[0] {
        MadtEntryKind::IoApic(x) => {
            assert_eq!(x.apic_id, 2);
            assert_eq!(x.apic_addr, 0xFEC0_0000);
            assert_eq!(x.global_system_interrupt_base, 0);
        }
        other => panic!("{:?}", other),
    }
    match e[1] {
        MadtEntryKind::IoApicInterruptSourceOverride(x) => {
            assert_eq!(x.irq_source, 9);
            assert_eq!(x.global_system_interrupt, 9);
            assert_eq!(x.flags, 0x0F);
        }
        other => panic!("{:?}", other),
    }
    match e[2] {
        MadtEntryKind::IoApicNonMaskableInterruptSource(x) => {
            assert_eq!(x.nmi_source, 1);
            assert_eq!(x.flags, 5);
            assert_eq!(x.global_system_interrupt, 3);
        }
        other => panic!("{:?}", other),
    }
    match e[3] {
        MadtEntryKind::LocalApicNonMaskableInterrupts(x) => {
            assert_eq!(x.acpi_processor_id, 0xFF);
            assert_eq!(x.flags, 5);
            assert_eq!(x.lint, 1);
        }
        other => panic!("{:?}", other),
    }
    match e[4] {
        MadtEntryKind::LocalApicAddressOverride(x) => {
            assert_eq!(x.local_apic_address, 0xFEE0_0000)
        }
        other => panic!("{:?}", other),
    }
    match e[5] {
        MadtEntryKind::ProcessorLocalx2Apic(x) => {
            assert_eq!(x.processor_id, 7);
            assert_eq!(x.flags, 1);
            assert_eq!(x.acpi_id, 8);
        }
        other => panic!("{:?}", other),
    }
}

#[test]
fn madt_walk_is_restartable() {
    let mut mem = vec![0u8; 60];
    put_madt(&mut mem, 0, &[0, 8, 1, 1, 1, 0, 0, 0, 0, 8, 2, 2, 1, 0, 0, 0]);
    let m = Madt::from_addr(&mem, 0).unwrap();
    assert_eq!(m.entries(), m.entries());
    let mut it = MadtEntryIterator::new(&mem[44..60]);
    assert!(it.next().is_some());
    assert!(it.next().is_some());
    assert!(it.next().is_none());
}

#[test]
fn madt_lone_tag_byte_ends_walk() {
    assert!(madt_records(&[0]).is_empty());
}

#[test]
fn local_apic_topology_from_every_madt() {
    let mut mem = vec![0u8; 512];
    put_madt(&mut mem, 100, &[0, 8, 0, 0, 1, 0, 0, 0, 1, 12, 9, 0, 0, 0, 0xC0, 0xFE, 0, 0, 0, 0, 0, 8, 1, 1, 1, 0, 0, 0]);
    put_madt(&mut mem, 200, &[0, 8, 2, 5, 1, 0, 0, 0]);
    mem[200 + 36..200 + 40].copy_from_slice(&0xFEE1_0000u32.to_le_bytes());
    fix_checksum(&mut mem, 200, 52, 209);
    put_header(&mut mem, 300, b"HPET", 36);
    put_rsdt(&mut mem, 400, &[100, 300, 200]);
    put_rsdp(&mut mem, 0, 400);
    let acpi = init_acpi(&mem, 0).unwrap();
    let t = discover_local_apics(&acpi);
    assert_eq!(t.local_apic_address, 0xFEE1_0000);
    let ids: Vec<u8> = t.local_apics.iter().map(|e| e.apic_id).collect();
    assert_eq!(ids, vec![0, 1, 5]);
}

#[test]
fn local_apic_topology_skips_madt_with_bad_checksum() {
    let mut mem = vec![0u8; 512];
    put_madt(&mut mem, 100, &[0, 8, 0, 0, 1, 0, 0, 0]);
    put_madt(&mut mem, 200, &[0, 8, 2, 5, 1, 0, 0, 0]);
    mem[200 + 50] ^= 1;
    put_rsdt(&mut mem, 400, &[100, 200]);
    put_rsdp(&mut mem, 0, 400);
    let acpi = init_acpi(&mem, 0).unwrap();
    let t = discover_local_apics(&acpi);
    assert_eq!(t.local_apic_address, 0xFEE0_0000);
    let ids: Vec<u8> = t.local_apics.iter().map(|e| e.apic_id).collect();
    assert_eq!(ids, vec![0]);
}

#[test]
fn local_apic_topology_without_madt() {
    let mut mem = vec![0u8; 512];
    put_header(&mut mem, 300, b"HPET", 36);
    put_rsdt(&mut mem, 400, &[300]);
    put_rsdp(&mut mem, 0, 400);
    let acpi = init_acpi(&mem, 0).unwrap();
    let t = discover_local_apics(&acpi);
    assert_eq!(t.local_apic_address, 0);
    assert!(t.local_apics.is_empty());
}
