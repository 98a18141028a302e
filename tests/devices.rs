use firmware_tables::display::font::{FontError, PSFFont};
use firmware_tables::display::{Color, Display};
use firmware_tables::io::port::Port;
use firmware_tables::memory::heap::BumpAllocator;
use firmware_tables::net::driver::rtl8139::{Rtl8139Driver, RX_BUFFER_SIZE};
use firmware_tables::net::driver::e1000::E1000Driver;
use firmware_tables::net::e1000::Driver;
use firmware_tables::paging::frame::{
    stringify_entry_type, BitMapFrameAllocator, MemoryRegion, MAX_PHYSICAL_ADDRESS,
};
use firmware_tables::pci::bar::Bar;
use firmware_tables::pci::{
    DeviceAddr, Pci, PciBusIterator, PciCapability, PciCapabilityIterator, PciDevice, PciError,
    PciHeader, CONFIG_ADDRESS, CONFIG_DATA,
};

fn config(vendor: u16, device: u16, header_type: u8, bar0: u32) -> Vec<u32> {
    let mut c = vec![0u32; 16];
    c[0] = (device as u32) << 16 | vendor as u32;
    c[1] = 0x0010_0007;
    c[2] = 0x0200_0003;
    c[3] = (header_type as u32) << 16 | 0x0000_4010;
    c[4] = bar0;
    c[11] = 0x1234_5678;
    c[13] = 0x40;
    c[15] = 0x0102_010B;
    c
}

fn general(vendor: u16, device: u16, bar0: u32) -> PciDevice {
    Pci::get_pci_device(&config(vendor, device, 0, bar0)).unwrap()
}

#[test]
fn pci_device_decoding() {
    let d = general(0x8086, 0x100E, 0xFEB8_0000);
    match d {
        PciDevice::General(g) => {
            assert_eq!(g.header.vendor_id, 0x8086);
            assert_eq!(g.header.device_id, 0x100E);
            assert_eq!(g.header.command, 7);
            assert_eq!(g.header.status, 0x10);
            assert_eq!(g.header.revision_id, 3);
            assert_eq!(g.header.class_code, 2);
            assert_eq!(g.header.cache_line_size, 0x10);
            assert_eq!(g.header.latency_timer, 0x40);
            assert_eq!(g.bar0, 0xFEB8_0000);
            assert_eq!(g.subsystem_vendor_id, 0x5678);
            assert_eq!(g.subsystem_device_id, 0x1234);
            assert_eq!(g.capabilities_pointer, 0x40);
            assert_eq!(g.interrupt_line, 0x0B);
            assert_eq!(g.interrupt_pin, 1);
            assert_eq!(g.min_grant, 2);
            assert_eq!(g.max_latency, 1);
        }
        other => panic!("expected a general device, got {:?}", other),
    }
    assert_eq!(d.to_string(), "General");
}

#[test]
fn pci_bridges_and_absent_devices() {
    let bridge = Pci::get_pci_device(&config(0x8086, 1, 1, 0)).unwrap();
    assert!(matches!(bridge, PciDevice::PciPciBridge(PciHeader { header_type: 1, .. })));
    assert_eq!(bridge.to_string(), "PCI to PCI bridge");
    let card = Pci::get_pci_device(&config(0x8086, 1, 2, 0)).unwrap();
    assert_eq!(card.to_string(), "Pci cardbus bridge");
    let odd = Pci::get_pci_device(&config(0x8086, 1, 0x7F, 0)).unwrap();
    assert_eq!(odd.to_string(), "Unknown");
    assert_eq!(
        Pci::get_pci_device(&vec![0xFFFF_FFFFu32; 16]).unwrap_err(),
        PciError::NonExistentDevice
    );
}

#[test]
fn pci_config_address_and_command_bits() {
    assert_eq!(Pci::select_config(0, 0, 0, 0), 0x8000_0000);
    assert_eq!(Pci::select_config(1, 2, 3, 0x3F), 0x8001_133C);
    assert_eq!(Pci::enable_bus_mastering(0x0000_0003), 0x0000_0007);
    assert_eq!(Pci::enable_mmio(0x0000_0004), 0x0000_0006);
    let pci = Pci::new();
    assert_eq!(pci.command_port.base, CONFIG_ADDRESS);
    assert_eq!(pci.data_port.base, CONFIG_DATA);
}

#[test]
fn pci_bus_walk_covers_every_function_once() {
    let mut it = Pci::new().bus_iterator();
    assert_eq!(it.next(), Some(DeviceAddr::new(0, 0, 0)));
    assert_eq!(it.next(), Some(DeviceAddr::new(0, 0, 1)));
    let mut count: usize = 2;
    let mut last = DeviceAddr::new(0, 0, 1);
    while let Some(a) = it.next() {
        assert!(a.slot < 32 && a.function < 8);
        count += 1;
        last = a;
    }
    assert_eq!(count, 256 * 32 * 8);
    assert_eq!(last, DeviceAddr::new(255, 31, 7));
    assert_eq!(it.next(), None);
    let mut fresh = PciBusIterator::new();
    for _ in 0..8 {
        fresh.next();
    }
    assert_eq!(fresh.next(), Some(DeviceAddr::new(0, 1, 0)));
}

#[test]
fn pci_capability_walk() {
    let mut it = PciCapabilityIterator::new(0, 3, 0, 0x43, 2);
    assert_eq!(it.register(), Some(0x40));
    assert_eq!(it.next(0x0000_5005), Some((PciCapability::Msi, 0x40)));
    assert_eq!(it.register(), Some(0x50));
    assert_eq!(it.next(0x0000_0011), Some((PciCapability::Unknown, 0x50)));
    assert_eq!(it.register(), None);
    assert_eq!(it.next(0x0000_5005), None);
}

#[test]
fn bar_kinds() {
    assert_eq!(Bar::parse(0xC001).unwrap(), Bar::Io { address: 0x3000 });
    assert_eq!(Bar::parse(0xFEB8_0000).unwrap(), Bar::Memory32);
    assert_eq!(Bar::parse(0xFEB8_0002).unwrap(), Bar::Memory64);
}

#[test]
fn port_numbers() {
    let p: Port<u32> = Port::new(0xC000);
    assert_eq!(p.base, 0xC000);
    assert_eq!(p.offset(0x37), Some(0xC037));
    assert_eq!(Port::<u8>::new(0xFFFF).offset(1), None);
}

#[test]
fn e1000_is_the_last_match() {
    let devices = vec![
        (DeviceAddr::new(0, 1, 0), general(0x8086, 0x100E, 1)),
        (DeviceAddr::new(0, 2, 0), general(0x10EC, 0x8139, 2)),
        (DeviceAddr::new(0, 3, 0), general(0x8086, 0x100E, 3)),
    ];
    let d = Driver::init(&devices).unwrap();
    assert_eq!(d.addr, DeviceAddr::new(0, 3, 0));
    assert_eq!(d.device.bar0, 3);
    assert!(Driver::init(&devices[1..2]).is_err());
}

#[test]
fn rtl8139_needs_an_io_bar() {
    let devices = vec![
        (DeviceAddr::new(0, 1, 0), general(0x8086, 0x100E, 1)),
        (DeviceAddr::new(0, 4, 0), general(0x10EC, 0x8139, 0xC001)),
        (DeviceAddr::new(0, 5, 0), general(0x10EC, 0x8139, 0xD001)),
    ];
    let d = Rtl8139Driver::init(&devices).unwrap();
    assert_eq!(d.addr, DeviceAddr::new(0, 4, 0));
    assert_eq!(d.io.base, 0x3000);
    assert_eq!(d.rx_descriptors.len(), RX_BUFFER_SIZE);
    assert!(d.rx_descriptors.iter().all(|r| r.is_none()));
    let memory_bar = vec![(DeviceAddr::new(0, 4, 0), general(0x10EC, 0x8139, 0xFEB8_0000))];
    assert!(Rtl8139Driver::init(&memory_bar).is_err());
    assert!(Rtl8139Driver::init(&[]).is_err());
}

#[test]
fn bump_allocator() {
    let mut a = BumpAllocator::new_empty();
    assert_eq!(a, BumpAllocator { start: 0, next: 0, size: 0 });
    assert_eq!(a.allocate(8, 8), None);
    a.init(0x1000, 64);
    assert_eq!(a.next, 0x1000);
    assert_eq!(a.allocate(4, 4), Some(0x1000));
    assert_eq!(a.allocate(16, 8), Some(0x1010));
    assert_eq!(a.next, 0x1020);
    assert_eq!(a.allocate(32, 1), Some(0x1020));
    assert_eq!(a.allocate(1, 1), None);
    assert_eq!(a.next, 0x1040);
}

fn font_bytes(char_size: u8) -> Vec<u8> {
    let mut f = vec![0x36, 0x04, 0, char_size];
    for g in 0..256usize {
        for row in 0..char_size as usize {
            f.push((g + row) as u8);
        }
    }
    f
}

#[test]
fn font_parsing_and_glyphs() {
    let bytes = font_bytes(2);
    let font = PSFFont::parse(&bytes).unwrap();
    assert_eq!(font.glyph_size(), (8, 2));
    assert_eq!(font.glyph(0).unwrap(), &[0, 1]);
    assert_eq!(font.glyph(65).unwrap(), &[65, 66]);
    assert_eq!(font.glyph(255).unwrap(), &[255, 0]);
    assert!(font.glyph(256).is_none());
    assert_eq!(PSFFont::parse(&bytes[..3]).unwrap_err(), FontError::TooShort);
    assert_eq!(PSFFont::parse(&bytes[..100]).unwrap_err(), FontError::TooShort);
    let mut bad = bytes.clone();
    bad[0] = 0x72;
    assert_eq!(PSFFont::parse(&bad).unwrap_err(), FontError::BadMagic);
}

#[test]
fn color_is_stored_blue_green_red() {
    assert_eq!(Color::new(1, 2, 3).as_bytes(), [3, 2, 1, 0]);
}

#[test]
fn display_draws_pixels_and_characters() {
    assert!(Display::new(4, 4, 3).is_none());
    let mut d = Display::new(10, 3, 4).unwrap();
    assert_eq!(d.data.len(), 120);
    d.draw_pixel(2, 1, Color::new(9, 8, 7));
    assert_eq!(&d.data[48..52], &[7, 8, 9, 0]);
    assert!(d.data[..48].iter().all(|b| *b == 0));
    let mut bytes = vec![0x36, 0x04, 0, 1];
    for g in 0..256usize {
        bytes.push(if g == 'A' as usize { 0b1000_0001 } else { 0 });
    }
    let font = PSFFont::parse(&bytes).unwrap();
    let mut d = Display::new(10, 2, 4).unwrap();
    d.draw_pixel(0, 1, Color::new(1, 1, 1));
    d.draw_character(1, 1, 'A', &font);
    let px = |d: &Display, x: usize, y: usize| d.data[(y * 10 + x) * 4..(y * 10 + x) * 4 + 4].to_vec();
    assert_eq!(px(&d, 1, 1), vec![0, 0, 255, 0]);
    assert_eq!(px(&d, 2, 1), vec![0, 0, 0, 0]);
    assert_eq!(px(&d, 8, 1), vec![0, 0, 255, 0]);
    assert_eq!(px(&d, 0, 1), vec![1, 1, 1, 0]);
    let before = d.data.clone();
    d.draw_character(0, 0, '\u{1F600}', &font);
    assert_eq!(d.data, before);
}

#[test]
fn e1000e_is_the_first_match_with_its_register_block() {
    let devices = vec![
        (DeviceAddr::new(0, 1, 0), general(0x10EC, 0x8139, 1)),
        (DeviceAddr::new(0, 2, 0), general(0x8086, 0x100E, 0xFEB8_0000)),
        (DeviceAddr::new(0, 3, 0), general(0x8086, 0x100E, 0xFEC0_0000)),
    ];
    let d = E1000Driver::init(&devices).unwrap();
    assert_eq!(d.addr, DeviceAddr::new(0, 2, 0));
    assert_eq!(d.register_base_addr, 0x0FEB_8000);
    assert!(E1000Driver::init(&devices[..1]).is_err());
}

#[test]
fn frame_allocator_hands_out_free_usable_frames() {
    let map = vec![
        MemoryRegion { base: 0x0, length: 0x2000, entry_type: 1 },
        MemoryRegion { base: 0x10000, length: 0x2000, entry_type: 0 },
        MemoryRegion { base: 0x20010, length: 0x1000, entry_type: 0 },
    ];
    let mut a = BitMapFrameAllocator::new(map);
    assert!(!a.is_used(0x10000));
    assert_eq!(a.allocate_frame(), Some(0x10000));
    assert!(a.is_used(0x10000));
    assert!(a.is_used(0x10FFF));
    assert_eq!(a.allocate_frame(), Some(0x11000));
    assert_eq!(a.allocate_frame(), Some(0x20000));
    assert_eq!(a.allocate_frame(), None);
    a.deallocate_frame(0x11000);
    assert!(!a.is_used(0x11000));
    assert!(a.is_used(0x10000));
    assert_eq!(a.allocate_frame(), Some(0x11000));
    a.mark_unused(0x10000);
    a.mark_used(0x7000);
    assert!(a.is_used(0x7000));
    assert!(!a.is_used(0x6000));
    assert!(!a.is_used(0x8000));
}

#[test]
fn frame_allocator_skips_untracked_frames() {
    let map = vec![MemoryRegion { base: MAX_PHYSICAL_ADDRESS, length: 0x10000, entry_type: 0 }];
    let mut a = BitMapFrameAllocator::new(map);
    assert_eq!(a.allocate_frame(), None);
}

#[test]
fn memory_map_type_names() {
    assert_eq!(stringify_entry_type(0), "usable");
    assert_eq!(stringify_entry_type(2), "acpi reclaimable");
    assert_eq!(stringify_entry_type(7), "framebuffer");
    assert_eq!(stringify_entry_type(8), "unknown");
}

#[test]
fn draw_pixel_by_buffer_index() {
    let mut d = Display::new(10, 3, 4).unwrap();
    d.draw_pixel(12, 0, Color::new(9, 8, 7));
    assert_eq!(&d.data[48..52], &[7, 8, 9, 0]);
    assert!(d.data[..48].iter().all(|b| *b == 0));
    assert!(d.data[52..].iter().all(|b| *b == 0));
}

#[test]
fn pci_presence_from_register_zero() {
    assert!(!Pci::device_present(0xFFFF_FFFF));
    assert!(!Pci::device_present(0x1234_FFFF));
    assert!(Pci::device_present(0x100E_8086));
}

#[test]
fn display_too_large_is_refused() {
    assert!(Display::new(u64::MAX, 2, 4).is_none());
    assert!(Display::new(0, 0, 4).unwrap().data.is_empty());
}
