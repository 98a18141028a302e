//! Hardware discovery for a freestanding x86_64 kernel: the firmware
//! description tables (ACPI) read from physical memory, and the PCI, display,
//! memory and network pieces that consume what they describe.

pub mod acpi;
pub mod apic;
pub mod bytes;
pub mod display;
pub mod io;
pub mod memory;
pub mod net;
pub mod paging;
pub mod pci;
