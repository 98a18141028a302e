use vstd::prelude::*;

use crate::acpi::read_bytes6;
use crate::bytes::{checksum_valid, le_u64, read_u64, sums_to_zero};

verus! {

/// Size in bytes of the root descriptor: signature, checksum, OEM id,
/// revision and the pointer-sized root table address. Its checksum covers all
/// of it.
pub const RSDP_SIZE: usize = 24;

/// The signature that a root descriptor starts with: `"RSD PTR "`.
pub open spec fn rsdp_signature() -> Seq<u8> {
    seq![82u8, 83u8, 68u8, 32u8, 80u8, 84u8, 82u8, 32u8]
}

/// The root descriptor (RSDP), which locates the root table.
#[derive(Clone, Copy, Debug)]
pub struct Rsdp {
    pub signature: [u8; 8],
    pub checksum: u8,
    pub oem_id: [u8; 6],
    pub revision: u8,
    /// Physical address of the root table: the pointer-sized field at offset
    /// 16.
    pub rsdt_address: u64,
}

/// Why a root descriptor was refused.
#[derive(Clone, Copy, Debug, PartialEq, Eq)]
pub enum RsdpError {
    /// The descriptor does not lie wholly in memory.
    Truncated,
    /// The first eight bytes are not `"RSD PTR "`.
    InvalidSignature,
    /// The descriptor's bytes do not sum to zero modulo 256.
    InvalidChecksum,
}

/// `r` holds the root descriptor laid out in `s` at `a`.
pub open spec fn rsdp_at(r: Rsdp, s: Seq<u8>, a: int) -> bool {
    &&& r.signature@ == s.subrange(a, a + 8)
    &&& r.checksum == s[a + 8]
    &&& r.oem_id@ == s.subrange(a + 9, a + 15)
    &&& r.revision == s[a + 15]
    &&& r.rsdt_address as nat == le_u64(s, a + 16)
}

/// Whether the eight bytes of `mem` at `addr` are the root descriptor's
/// signature.
fn has_rsdp_signature(mem: &[u8], addr: usize) -> (r: bool)
    requires
        addr + 8 <= mem@.len(),
    ensures
        r == (mem@.subrange(addr as int, addr + 8) == rsdp_signature()),
{
    let r = mem[addr] == 82 && mem[addr + 1] == 83 && mem[addr + 2] == 68 && mem[addr + 3] == 32
        && mem[addr + 4] == 80 && mem[addr + 5] == 84 && mem[addr + 6] == 82 && mem[addr + 7]
        == 32;
    proof {
        let sub = mem@.subrange(addr as int, addr + 8);
        if r {
            assert(sub =~= rsdp_signature());
        } else {
            assert(sub != rsdp_signature()) by {
                if sub == rsdp_signature() {
                    assert(sub[0] == 82 && sub[1] == 83 && sub[2] == 68 && sub[3] == 32);
                    assert(sub[4] == 80 && sub[5] == 84 && sub[6] == 82 && sub[7] == 32);
                }
            }
        }
    }
    r
}

/// Why the root descriptor laid out in `s` at `a` is refused, or `None`
/// where it is valid.
pub open spec fn rsdp_error(s: Seq<u8>, a: int) -> Option<RsdpError> {
    if a + RSDP_SIZE > s.len() {
        Some(RsdpError::Truncated)
    } else if s.subrange(a, a + 8) != rsdp_signature() {
        Some(RsdpError::InvalidSignature)
    } else if !sums_to_zero(s, a, a + RSDP_SIZE) {
        Some(RsdpError::InvalidChecksum)
    } else {
        None
    }
}

impl Rsdp {
    /// Tells why the root descriptor at `rsdp_addr` in `mem` would be refused:
    /// it must lie in `mem`, start with `"RSD PTR "` and its 24 bytes must sum
    /// to zero modulo 256. `None` where it is valid.
    pub fn check(mem: &[u8], rsdp_addr: usize) -> (r: Option<RsdpError>)
        ensures
            r == rsdp_error(mem@, rsdp_addr as int),
    {
        if rsdp_addr > mem.len() || mem.len() - rsdp_addr < RSDP_SIZE {
            return Some(RsdpError::Truncated);
        }
        if !has_rsdp_signature(mem, rsdp_addr) {
            return Some(RsdpError::InvalidSignature);
        }
        if !checksum_valid(mem, rsdp_addr, RSDP_SIZE) {
            return Some(RsdpError::InvalidChecksum);
        }
        None
    }

    /// Reads the root descriptor at `rsdp_addr` in `mem`. A descriptor that
    /// `check` refuses leaves boot without a root table: callers check first.
    pub fn from_addr(mem: &[u8], rsdp_addr: usize) -> (r: Rsdp)
        requires
            rsdp_error(mem@, rsdp_addr as int) is None,
        ensures
            rsdp_at(r, mem@, rsdp_addr as int),
    {
        let a = rsdp_addr;
        let signature = [
            mem[a],
            mem[a + 1],
            mem[a + 2],
            mem[a + 3],
            mem[a + 4],
            mem[a + 5],
            mem[a + 6],
            mem[a + 7],
        ];
        assert(signature@ =~= mem@.subrange(a as int, a + 8));
        Rsdp {
            signature,
            checksum: mem[a + 8],
            oem_id: read_bytes6(mem, a + 9),
            revision: mem[a + 15],
            rsdt_address: read_u64(mem, a + 16),
        }
    }
}

} // verus!
