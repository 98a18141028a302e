use vstd::prelude::*;

use crate::acpi::{dispatched, header_at, AcpiHeader, AcpiTableKind, HEADER_SIZE};
use crate::bytes::{le_u32, read_u32};

verus! {

/// How many 32-bit table addresses follow the header of a root table whose
/// declared length is `length`: none where `length` does not even cover the
/// header.
pub open spec fn entry_count(length: nat) -> nat {
    if length < HEADER_SIZE {
        0
    } else {
        ((length - HEADER_SIZE) / 4) as nat
    }
}

/// The table addresses held by the root table laid out in `s` at `a` with
/// declared length `length`.
pub open spec fn rsdt_entries(s: Seq<u8>, a: int, length: nat) -> Seq<u32> {
    Seq::new(entry_count(length), |i: int| le_u32(s, a + HEADER_SIZE + 4 * i) as u32)
}

/// Whether a table header at physical address `p` lies wholly in `s`.
pub open spec fn readable(s: Seq<u8>, p: u32) -> bool {
    p + HEADER_SIZE <= s.len()
}

/// The addresses of `p` whose table header lies in `s`, in order.
pub open spec fn readable_tables(s: Seq<u8>, p: Seq<u32>) -> Seq<u32>
    decreases p.len(),
{
    if p.len() == 0 {
        seq![]
    } else if readable(s, p[0]) {
        seq![p[0]] + readable_tables(s, p.drop_first())
    } else {
        readable_tables(s, p.drop_first())
    }
}

proof fn lemma_slot_in_table(i: int, length: int)
    requires
        0 <= i < entry_count(length as nat),
        length >= 0,
    ensures
        HEADER_SIZE + 4 * i + 4 <= length,
{
    assert(HEADER_SIZE + 4 * i + 4 <= length) by (nonlinear_arith)
        requires
            0 <= i < (length - HEADER_SIZE) / 4,
            length >= HEADER_SIZE,
    ;
}

/// The root table (RSDT): a header followed by the 32-bit physical addresses of
/// the other tables. `mem` is physical memory, indexed by physical address.
#[derive(Clone, Copy, Debug)]
pub struct Rsdt<'a> {
    pub header: AcpiHeader,
    pub mem: &'a [u8],
    /// Physical address of the table.
    pub addr: usize,
}

/// A walk over the tables that a root table points to.
#[derive(Clone, Copy, Debug)]
pub struct RsdtIterator<'a> {
    mem: &'a [u8],
    /// Where the address array starts.
    ptr_start: usize,
    /// The number of table addresses.
    entries: usize,
    /// Index of the next address.
    index: usize,
}

/// A walk over the headers and addresses of the tables that a root table
/// points to.
#[derive(Clone, Copy, Debug)]
pub struct RsdtRawIterator<'a> {
    inner: RsdtIterator<'a>,
}

impl<'a> Rsdt<'a> {
    /// The header lies in memory and so do all the bytes that it declares.
    pub open spec fn wf(&self) -> bool {
        &&& self.addr + HEADER_SIZE <= self.mem@.len()
        &&& self.addr + self.header.length <= self.mem@.len()
        &&& header_at(self.header, self.mem@, self.addr as int)
    }

    /// The table addresses that this root table holds.
    pub open spec fn entries(&self) -> Seq<u32> {
        rsdt_entries(self.mem@, self.addr as int, self.header.length as nat)
    }

    /// Reads the root table at physical address `addr`. `None` where its header
    /// or its declared length runs past the end of `mem`.
    pub fn from_addr(mem: &'a [u8], addr: usize) -> (r: Option<Rsdt<'a>>)
        ensures
            r.is_some() <==> (addr + HEADER_SIZE <= mem@.len() && addr + le_u32(mem@, addr + 4)
                <= mem@.len()),
            r matches Some(t) ==> t.wf() && t.mem == mem && t.addr == addr,
    {
        let header = match AcpiHeader::from_addr(mem, addr) {
            Some(h) => h,
            None => return None,
        };
        if header.length as usize > mem.len() - addr {
            return None;
        }
        Some(Rsdt { header, mem, addr })
    }

    /// The number of table addresses; zero where the declared length does not
    /// exceed the header.
    pub fn entry_count(&self) -> (r: usize)
        requires
            self.wf(),
        ensures
            r == self.entries().len(),
    {
        let length = self.header.length as usize;
        if length < HEADER_SIZE {
            0
        } else {
            (length - HEADER_SIZE) / 4
        }
    }

    /// Every table address, in order.
    pub fn addresses(&self) -> (r: Vec<u32>)
        requires
            self.wf(),
        ensures
            r@ == self.entries(),
    {
        let n = self.entry_count();
        let mlen = self.mem.len();
        let mut out: Vec<u32> = Vec::new();
        let mut i: usize = 0;
        while i < n
            invariant
                self.wf(),
                n == self.entries().len(),
                i <= n,
                mlen == self.mem@.len(),
                out@ == self.entries().subrange(0, i as int),
            decreases n - i,
        {
            proof {
                lemma_slot_in_table(i as int, self.header.length as int);
            }
            let a = read_u32(self.mem, self.addr + HEADER_SIZE + 4 * i);
            out.push(a);
            i = i + 1;
            assert(out@ =~= self.entries().subrange(0, i as int));
        }
        assert(out@ =~= self.entries());
        out
    }

    /// A walk over the tables, dispatched by signature.
    pub fn iter(&self) -> (r: RsdtIterator<'a>)
        requires
            self.wf(),
        ensures
            r.wf(),
            r.memory() == self.mem@,
            r.pending() == self.entries(),
    {
        let n = self.entry_count();
        let _mlen = self.mem.len();
        proof {
            if n > 0 {
                lemma_slot_in_table(n - 1, self.header.length as int);
            }
        }
        let r = RsdtIterator { mem: self.mem, ptr_start: self.addr + HEADER_SIZE, entries: n, index: 0 };
        assert(r.pending() =~= self.entries());
        r
    }

    /// A walk over the tables' headers and addresses.
    pub fn raw_iter(&self) -> (r: RsdtRawIterator<'a>)
        requires
            self.wf(),
        ensures
            r.wf(),
            r.memory() == self.mem@,
            r.pending() == self.entries(),
    {
        RsdtRawIterator { inner: self.iter() }
    }
}

impl<'a> RsdtIterator<'a> {
    pub closed spec fn wf(&self) -> bool {
        &&& self.ptr_start + 4 * self.entries <= self.mem@.len()
        &&& self.index <= self.entries
    }

    /// Physical memory that the walk reads.
    pub closed spec fn memory(&self) -> Seq<u8> {
        self.mem@
    }

    /// The table addresses not yet visited.
    pub closed spec fn pending(&self) -> Seq<u32> {
        Seq::new(
            (self.entries - self.index) as nat,
            |j: int| le_u32(self.mem@, self.ptr_start + 4 * (self.index + j)) as u32,
        )
    }

    /// Moves to the next address whose table header lies in memory, and
    /// returns that address.
    fn next_readable(&mut self) -> (r: Option<usize>)
        requires
            old(self).wf(),
        ensures
            final(self).wf(),
            final(self).memory() == old(self).memory(),
            match r {
                None => readable_tables(old(self).memory(), old(self).pending()) == Seq::<
                    u32,
                >::empty() && final(self).pending() == Seq::<u32>::empty(),
                Some(p) => {
                    let t = readable_tables(old(self).memory(), old(self).pending());
                    &&& t.len() > 0
                    &&& p == t[0]
                    &&& readable_tables(final(self).memory(), final(self).pending())
                        == t.drop_first()
                    &&& p + HEADER_SIZE <= old(self).memory().len()
                },
            },
    {
        loop
            invariant
                self.wf(),
                self.memory() == old(self).memory(),
                readable_tables(self.memory(), old(self).pending()) == readable_tables(
                    self.memory(),
                    self.pending(),
                ),
            decreases self.entries - self.index,
        {
            if self.index >= self.entries {
                assert(self.pending() =~= Seq::<u32>::empty());
                return None;
            }
            let ghost before = self.pending();
            let _mlen = self.mem.len();
            let p = read_u32(self.mem, self.ptr_start + 4 * self.index);
            self.index = self.index + 1;
            assert(self.pending() =~= before.drop_first());
            if (p as usize) <= self.mem.len() && self.mem.len() - (p as usize) >= HEADER_SIZE {
                return Some(p as usize);
            }
        }
    }

    /// Yields the next table whose header lies in memory, dispatched by its
    /// signature; addresses whose header does not lie in memory are passed
    /// over. `None` once every address has been visited.
    pub fn next(&mut self) -> (r: Option<AcpiTableKind<'a>>)
        requires
            old(self).wf(),
        ensures
            final(self).wf(),
            final(self).memory() == old(self).memory(),
            match r {
                None => readable_tables(old(self).memory(), old(self).pending()) == Seq::<
                    u32,
                >::empty() && final(self).pending() == Seq::<u32>::empty(),
                Some(k) => {
                    let t = readable_tables(old(self).memory(), old(self).pending());
                    &&& t.len() > 0
                    &&& dispatched(k, old(self).memory(), t[0] as int)
                    &&& readable_tables(final(self).memory(), final(self).pending())
                        == t.drop_first()
                },
            },
    {
        match self.next_readable() {
            None => None,
            Some(p) => match AcpiTableKind::try_parse(self.mem, p) {
                Ok(k) => Some(k),
                Err(()) => None,
            },
        }
    }
}

impl<'a> RsdtRawIterator<'a> {
    pub closed spec fn wf(&self) -> bool {
        self.inner.wf()
    }

    /// Physical memory that the walk reads.
    pub closed spec fn memory(&self) -> Seq<u8> {
        self.inner.memory()
    }

    /// The table addresses not yet visited.
    pub closed spec fn pending(&self) -> Seq<u32> {
        self.inner.pending()
    }

    /// Yields the header and the address of the next table whose header lies in
    /// memory; addresses whose header does not lie in memory are passed over.
    /// `None` once every address has been visited.
    pub fn next(&mut self) -> (r: Option<(AcpiHeader, u64)>)
        requires
            old(self).wf(),
        ensures
            final(self).wf(),
            final(self).memory() == old(self).memory(),
            match r {
                None => readable_tables(old(self).memory(), old(self).pending()) == Seq::<
                    u32,
                >::empty() && final(self).pending() == Seq::<u32>::empty(),
                Some((h, p)) => {
                    let t = readable_tables(old(self).memory(), old(self).pending());
                    &&& t.len() > 0
                    &&& p == t[0]
                    &&& p + HEADER_SIZE <= old(self).memory().len()
                    &&& header_at(h, old(self).memory(), p as int)
                    &&& readable_tables(final(self).memory(), final(self).pending())
                        == t.drop_first()
                },
            },
    {
        match self.inner.next_readable() {
            None => None,
            Some(p) => match AcpiHeader::from_addr(self.inner.mem, p) {
                Some(h) => Some((h, p as u64)),
                None => None,
            },
        }
    }
}

/// The four bytes that store `x` in little-endian order.
pub open spec fn u32_bytes(x: u32) -> Seq<u8> {
    seq![
        (x % 256) as u8,
        (x / 256 % 256) as u8,
        (x / 256 / 256 % 256) as u8,
        (x / 256 / 256 / 256 % 256) as u8,
    ]
}

/// A root table whose declared length covers no whole address slot holds no
/// addresses, and a walk over it yields nothing.
pub proof fn lemma_header_only_root_table_is_empty(t: Rsdt)
    requires
        t.wf(),
        t.header.length < HEADER_SIZE + 4,
    ensures
        t.entries() == Seq::<u32>::empty(),
        readable_tables(t.mem@, t.entries()) == Seq::<u32>::empty(),
{
    assert(t.entries() =~= Seq::<u32>::empty());
}

/// A root table built with the addresses `first` and `second`, in that order,
/// yields exactly those two addresses, in that order.
pub proof fn lemma_root_table_round_trip(t: Rsdt, first: u32, second: u32)
    requires
        t.wf(),
        t.header.length == HEADER_SIZE + 8,
        t.mem@.subrange(t.addr + HEADER_SIZE, t.addr + HEADER_SIZE + 4) == u32_bytes(first),
        t.mem@.subrange(t.addr + HEADER_SIZE + 4, t.addr + HEADER_SIZE + 8) == u32_bytes(second),
    ensures
        t.entries() == seq![first, second],
{
    let s = t.mem@;
    let a = t.addr + HEADER_SIZE;
    assert(s[a] == u32_bytes(first)[0] && s[a + 1] == u32_bytes(first)[1]);
    assert(s[a + 2] == u32_bytes(first)[2] && s[a + 3] == u32_bytes(first)[3]);
    assert(s[a + 4] == u32_bytes(second)[0] && s[a + 5] == u32_bytes(second)[1]);
    assert(s[a + 6] == u32_bytes(second)[2] && s[a + 7] == u32_bytes(second)[3]);
    assert(le_u32(s, a) == first);
    assert(le_u32(s, a + 4) == second);
    assert(t.entries() =~= seq![first, second]);
}

} // verus!
