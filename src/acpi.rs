use vstd::prelude::*;

pub mod fadt;
pub mod madt;
pub mod rsdp;
pub mod rsdt;

use crate::acpi::fadt::{fadt_at, Fadt, FADT_SIZE};
use crate::acpi::madt::{madt_at, madt_fits, Madt};
use crate::acpi::rsdp::{rsdp_error, Rsdp, RsdpError};
use crate::acpi::rsdt::{readable_tables, Rsdt, RsdtRawIterator};
use crate::bytes::{checksum_valid, le_u32, le_u64, read_u32, read_u64, sums_to_zero};

verus! {

/// Size in bytes of the standard header that starts every table.
pub const HEADER_SIZE: usize = 36;

/// The standard header that starts every firmware description table.
#[derive(Clone, Copy, Debug)]
pub struct AcpiHeader {
    pub signature: [u8; 4],
    /// Total length of the table, header included, in bytes.
    pub length: u32,
    pub revision: u8,
    pub checksum: u8,
    pub oem_id: [u8; 6],
    pub oem_table_id: u64,
    pub oem_revision: u32,
    pub creator_id: u32,
    pub creator_revision: u32,
}

/// `h` holds the fields of the header laid out in `s` at `a`.
pub open spec fn header_at(h: AcpiHeader, s: Seq<u8>, a: int) -> bool {
    &&& h.signature@ == s.subrange(a, a + 4)
    &&& h.length as nat == le_u32(s, a + 4)
    &&& h.revision == s[a + 8]
    &&& h.checksum == s[a + 9]
    &&& h.oem_id@ == s.subrange(a + 10, a + 16)
    &&& h.oem_table_id as nat == le_u64(s, a + 16)
    &&& h.oem_revision as nat == le_u32(s, a + 24)
    &&& h.creator_id as nat == le_u32(s, a + 28)
    &&& h.creator_revision as nat == le_u32(s, a + 32)
}

/// Copies the four bytes at `at`.
pub fn read_bytes4(data: &[u8], at: usize) -> (r: [u8; 4])
    requires
        at + 4 <= data@.len(),
    ensures
        r@ == data@.subrange(at as int, at + 4),
{
    let r = [data[at], data[at + 1], data[at + 2], data[at + 3]];
    assert(r@ =~= data@.subrange(at as int, at + 4));
    r
}

/// Copies the six bytes at `at`.
pub fn read_bytes6(data: &[u8], at: usize) -> (r: [u8; 6])
    requires
        at + 6 <= data@.len(),
    ensures
        r@ == data@.subrange(at as int, at + 6),
{
    let r = [data[at], data[at + 1], data[at + 2], data[at + 3], data[at + 4], data[at + 5]];
    assert(r@ =~= data@.subrange(at as int, at + 6));
    r
}

impl AcpiHeader {
    /// Reads the header laid out in `mem` at `addr`; `None` where the 36 bytes
    /// do not all lie in `mem`.
    pub fn from_addr(mem: &[u8], addr: usize) -> (r: Option<AcpiHeader>)
        ensures
            r.is_some() <==> addr + HEADER_SIZE <= mem@.len(),
            r matches Some(h) ==> header_at(h, mem@, addr as int),
    {
        if addr > mem.len() || mem.len() - addr < HEADER_SIZE {
            return None;
        }
        Some(AcpiHeader {
            signature: read_bytes4(mem, addr),
            length: read_u32(mem, addr + 4),
            revision: mem[addr + 8],
            checksum: mem[addr + 9],
            oem_id: read_bytes6(mem, addr + 10),
            oem_table_id: read_u64(mem, addr + 16),
            oem_revision: read_u32(mem, addr + 24),
            creator_id: read_u32(mem, addr + 28),
            creator_revision: read_u32(mem, addr + 32),
        })
    }

    /// Checks the table that this header starts, laid out in `mem` at `addr`:
    /// its `length` bytes must sum to zero modulo 256. A table whose declared
    /// length runs past the end of `mem` is not valid.
    pub fn validate_checksum(&self, mem: &[u8], addr: usize) -> (r: bool)
        ensures
            r == (addr + self.length <= mem@.len() && sums_to_zero(
                mem@,
                addr as int,
                addr + self.length,
            )),
    {
        let len = self.length as usize;
        if addr > mem.len() || mem.len() - addr < len {
            return false;
        }
        checksum_valid(mem, addr, len)
    }
}

/// Whether the table laid out in `s` at `a` lies in `s` up to its declared
/// length and its bytes sum to zero modulo 256: what `validate_checksum`
/// checks.
pub open spec fn table_valid(s: Seq<u8>, a: int) -> bool {
    a + le_u32(s, a + 4) <= s.len() && sums_to_zero(s, a, a + le_u32(s, a + 4))
}

/// The signature of the power-management table: `"FACP"`.
pub open spec fn facp_signature() -> Seq<u8> {
    seq![70u8, 65u8, 67u8, 80u8]
}

/// The signature of the interrupt-topology table: `"APIC"`.
pub open spec fn apic_signature() -> Seq<u8> {
    seq![65u8, 80u8, 73u8, 67u8]
}

/// Whether `sig` is the four bytes `a`, `b`, `c`, `d`.
fn signature_is(sig: [u8; 4], a: u8, b: u8, c: u8, d: u8) -> (r: bool)
    ensures
        r == (sig@ == seq![a, b, c, d]),
{
    let r = sig[0] == a && sig[1] == b && sig[2] == c && sig[3] == d;
    proof {
        if r {
            assert(sig@ =~= seq![a, b, c, d]);
        } else if sig@ == seq![a, b, c, d] {
            assert(sig@[0] == a && sig@[1] == b && sig@[2] == c && sig@[3] == d);
        }
    }
    r
}

/// A table that the root table points to, told apart by its signature.
/// Dispatch does not look at checksums, so that one damaged table cannot hide
/// the others: a consumer that wants a table's fields checked first calls
/// `AcpiHeader::validate_checksum` on its header.
#[derive(Debug)]
#[non_exhaustive]
pub enum AcpiTableKind<'a> {
    Fadt(Fadt),
    Madt(Madt<'a>),
    Unknown(AcpiHeader),
}

/// `k` is what dispatch makes of the table laid out in `s` at `a`, whose
/// header lies in `s`: a power-management table for `"FACP"` and an
/// interrupt-topology table for `"APIC"` where the layout of that kind lies in
/// `s`, and otherwise the header alone. Checksums play no part.
pub open spec fn dispatched(k: AcpiTableKind, s: Seq<u8>, a: int) -> bool {
    let sig = s.subrange(a, a + 4);
    let fadt = sig == facp_signature() && a + FADT_SIZE <= s.len();
    let madt = sig == apic_signature() && madt_fits(s, a);
    match k {
        AcpiTableKind::Fadt(f) => fadt && fadt_at(f, s, a),
        AcpiTableKind::Madt(m) => madt && madt_at(m, s, a),
        AcpiTableKind::Unknown(h) => !fadt && !madt && header_at(h, s, a),
    }
}

impl<'a> AcpiTableKind<'a> {
    /// Reads the table laid out in `mem` at `addr` and dispatches it on its
    /// signature. `Err` only where its header does not lie in `mem`; a table
    /// with an unknown signature, a bad checksum or a layout that does not fit
    /// is represented as `Unknown`, never refused.
    pub fn try_parse(mem: &'a [u8], addr: usize) -> (r: Result<AcpiTableKind<'a>, ()>)
        ensures
            r.is_ok() <==> addr + HEADER_SIZE <= mem@.len(),
            r matches Ok(k) ==> dispatched(k, mem@, addr as int),
    {
        let header = match AcpiHeader::from_addr(mem, addr) {
            Some(h) => h,
            None => return Err(()),
        };
        if signature_is(header.signature, 70, 65, 67, 80) {
            if let Some(f) = Fadt::from_addr(mem, addr) {
                return Ok(AcpiTableKind::Fadt(f));
            }
        } else if signature_is(header.signature, 65, 80, 73, 67) {
            if let Some(m) = Madt::from_addr(mem, addr) {
                return Ok(AcpiTableKind::Madt(m));
            }
        }
        proof {
            assert(header.signature@ == mem@.subrange(addr as int, addr + 4));
        }
        Ok(AcpiTableKind::Unknown(header))
    }
}

/// The signature of the differentiated description table: `"DSDT"`. The
/// power-management table points to it rather than the root table.
pub open spec fn dsdt_signature() -> Seq<u8> {
    seq![68u8, 83u8, 68u8, 84u8]
}

/// Why discovery could not start.
#[derive(Clone, Copy, Debug, PartialEq, Eq)]
pub enum AcpiError {
    /// The root descriptor was refused.
    Rsdp(RsdpError),
    /// The root table's header or declared length runs past the end of memory.
    RootTableUnreadable,
    /// The root table's bytes do not sum to zero modulo 256.
    RootTableChecksum,
}

/// The outcome of discovery: the validated root table, handed explicitly to
/// whatever consumes the tables.
#[derive(Clone, Copy, Debug)]
pub struct Acpi<'a> {
    pub rsdt: Rsdt<'a>,
}

/// Locates and validates the root descriptor at `rsdp_address` in `mem`
/// (physical memory, indexed by physical address), then the root table that it
/// points to.
pub fn init_acpi<'a>(mem: &'a [u8], rsdp_address: usize) -> (r: Result<Acpi<'a>, AcpiError>)
    ensures
        ({
            let s = mem@;
            let a = rsdp_address as int;
            let t = le_u64(s, a + 16) as int;
            match rsdp_error(s, a) {
                Some(e) => r == Err::<Acpi, AcpiError>(AcpiError::Rsdp(e)),
                None => if !(t + HEADER_SIZE <= s.len() && t + le_u32(s, t + 4) <= s.len()) {
                    r == Err::<Acpi, AcpiError>(AcpiError::RootTableUnreadable)
                } else if !sums_to_zero(s, t, t + le_u32(s, t + 4)) {
                    r == Err::<Acpi, AcpiError>(AcpiError::RootTableChecksum)
                } else {
                    r matches Ok(acpi) && acpi.rsdt.wf() && acpi.rsdt.mem == mem && acpi.rsdt.addr
                        == t
                },
            }
        }),
{
    if let Some(e) = Rsdp::check(mem, rsdp_address) {
        return Err(AcpiError::Rsdp(e));
    }
    let rsdp = Rsdp::from_addr(mem, rsdp_address);
    if rsdp.rsdt_address > mem.len() as u64 {
        return Err(AcpiError::RootTableUnreadable);
    }
    let rsdt = match Rsdt::from_addr(mem, rsdp.rsdt_address as usize) {
        Some(t) => t,
        None => return Err(AcpiError::RootTableUnreadable),
    };
    if !rsdt.header.validate_checksum(mem, rsdt.addr) {
        return Err(AcpiError::RootTableChecksum);
    }
    Ok(Acpi { rsdt })
}

/// The first address of `t` whose table in `s` has signature `sig`.
pub open spec fn first_with_signature(s: Seq<u8>, t: Seq<u32>, sig: Seq<u8>) -> Option<u32>
    decreases t.len(),
{
    if t.len() == 0 {
        None
    } else if s.subrange(t[0] as int, t[0] + 4) == sig {
        Some(t[0])
    } else {
        first_with_signature(s, t.drop_first(), sig)
    }
}

/// The first address of `t` at which dispatch finds a power-management table.
pub open spec fn first_fadt(s: Seq<u8>, t: Seq<u32>) -> Option<u32>
    decreases t.len(),
{
    if t.len() == 0 {
        None
    } else if s.subrange(t[0] as int, t[0] + 4) == facp_signature() && t[0] + FADT_SIZE
        <= s.len() && table_valid(s, t[0] as int) {
        Some(t[0])
    } else {
        first_fadt(s, t.drop_first())
    }
}

/// What a lookup of `sig` among the tables that `rsdt` points to finds: for
/// `"DSDT"`, the address that the first power-management table whose checksum
/// holds points to; otherwise the address of the first table with that
/// signature. `None` where there is no such table: without a power-management
/// table there is nothing that locates the differentiated description table,
/// and the caller decides whether boot can go on without it.
pub open spec fn lookup(rsdt: Rsdt, sig: Seq<u8>) -> Option<u64> {
    let t = readable_tables(rsdt.mem@, rsdt.entries());
    if sig == dsdt_signature() {
        match first_fadt(rsdt.mem@, t) {
            Some(p) => Some(le_u32(rsdt.mem@, p + 40) as u64),
            None => None,
        }
    } else {
        match first_with_signature(rsdt.mem@, t, sig) {
            Some(p) => Some(p as u64),
            None => None,
        }
    }
}

impl<'a> Acpi<'a> {
    /// Finds the physical address of the table with signature `signature`:
    /// the differentiated description table through the first power-management
    /// table whose checksum holds, any other through the root table. `None`
    /// where no such table is found.
    pub fn scan(&self, signature: [u8; 4]) -> (r: Option<u64>)
        requires
            self.rsdt.wf(),
        ensures
            r == lookup(self.rsdt, signature@),
    {
        if signature_is(signature, 68, 83, 68, 84) {
            let mut it: RsdtRawIterator<'a> = self.rsdt.raw_iter();
            loop
                invariant
                    signature@ == dsdt_signature(),
                    it.wf(),
                    it.memory() == self.rsdt.mem@,
                    first_fadt(self.rsdt.mem@, readable_tables(self.rsdt.mem@, self.rsdt.entries()))
                        == first_fadt(self.rsdt.mem@, readable_tables(it.memory(), it.pending())),
                decreases readable_tables(it.memory(), it.pending()).len(),
            {
                let ghost t = readable_tables(it.memory(), it.pending());
                match it.next() {
                    None => {
                        return None;
                    },
                    Some((header, p)) => {
                        let valid = header.validate_checksum(self.rsdt.mem, p as usize);
                        let kind = if valid {
                            AcpiTableKind::try_parse(self.rsdt.mem, p as usize)
                        } else {
                            Err(())
                        };
                        match kind {
                            Ok(AcpiTableKind::Fadt(f)) => {
                                return Some(f.dsdt as u64);
                            },
                            other => {
                                proof {
                                    let s = self.rsdt.mem@;
                                    let sub = s.subrange(t[0] as int, t[0] + 4);
                                    if let Ok(AcpiTableKind::Madt(_)) = other {
                                        if sub == facp_signature() {
                                            assert(sub[0] == apic_signature()[0]);
                                        }
                                    }
                                    assert(first_fadt(s, t) == first_fadt(s, t.drop_first()));
                                }
                            },
                        }
                    },
                }
            }
        } else {
            let mut it: RsdtRawIterator<'a> = self.rsdt.raw_iter();
            loop
                invariant
                    signature@ != dsdt_signature(),
                    it.wf(),
                    it.memory() == self.rsdt.mem@,
                    first_with_signature(
                        self.rsdt.mem@,
                        readable_tables(self.rsdt.mem@, self.rsdt.entries()),
                        signature@,
                    ) == first_with_signature(
                        self.rsdt.mem@,
                        readable_tables(it.memory(), it.pending()),
                        signature@,
                    ),
                decreases readable_tables(it.memory(), it.pending()).len(),
            {
                let ghost t = readable_tables(it.memory(), it.pending());
                match it.next() {
                    None => return None,
                    Some((h, p)) => {
                        proof {
                            assert(signature@ =~= seq![
                                signature[0],
                                signature[1],
                                signature[2],
                                signature[3],
                            ]);
                        }
                        if signature_is(
                            h.signature,
                            signature[0],
                            signature[1],
                            signature[2],
                            signature[3],
                        ) {
                            return Some(p);
                        }
                    },
                }
            }
        }
    }
}

} // verus!
