use vstd::prelude::*;

verus! {

pub const FRAME_SIZE: u64 = 4096;
/// Bytes in the allocator's bitmap.
pub const MAX_BITMAP_ENTRIES: usize = 50000;
/// Frames at or above this physical address are not tracked.
pub const MAX_PHYSICAL_ADDRESS: u64 = 4096 * 50000;
/// The memory map type of regions that are free for use.
pub const USABLE: u64 = 0;

/// One region of the boot memory map.
#[derive(Clone, Copy, Debug, PartialEq, Eq)]
pub struct MemoryRegion {
    pub base: u64,
    pub length: u64,
    /// The region's type code: 0 is usable, see `stringify_entry_type`.
    pub entry_type: u64,
}

/// A name for a memory map type code.
pub fn stringify_entry_type(entry_type: u64) -> (r: &'static str)
    ensures
        entry_type == 0 ==> r@ == "usable"@,
        entry_type == 1 ==> r@ == "reserved"@,
        entry_type == 2 ==> r@ == "acpi reclaimable"@,
        entry_type == 3 ==> r@ == "acpi nvs"@,
        entry_type == 4 ==> r@ == "bad memory"@,
        entry_type == 5 ==> r@ == "bootloader reclaimable"@,
        entry_type == 6 ==> r@ == "kernel and modules"@,
        entry_type == 7 ==> r@ == "framebuffer"@,
        entry_type > 7 ==> r@ == "unknown"@,
{
    match entry_type {
        0 => "usable",
        1 => "reserved",
        2 => "acpi reclaimable",
        3 => "acpi nvs",
        4 => "bad memory",
        5 => "bootloader reclaimable",
        6 => "kernel and modules",
        7 => "framebuffer",
        _ => "unknown",
    }
}

/// Whether frame number `n` is marked used in `bitmap`: bit `7 - n % 8` of
/// byte `n / 8`, counting from the least significant bit.
pub open spec fn frame_used(bitmap: Seq<u8>, n: int) -> bool {
    (bitmap[n / 8] >> ((7 - n % 8) as u8)) & 1u8 == 1u8
}

/// The number of the frame that holds physical address `addr`.
pub open spec fn frame_number(addr: int) -> int {
    addr / FRAME_SIZE as int
}

/// The frames that the allocator hands out: usable-region addresses, stepped
/// by a frame from the region's base, below the tracking limit.
pub open spec fn candidate(region: MemoryRegion, k: int) -> bool {
    &&& region.entry_type == USABLE
    &&& 0 <= k
    &&& region.base + FRAME_SIZE * k < region.base + region.length
    &&& region.base + FRAME_SIZE * k < MAX_PHYSICAL_ADDRESS
}

proof fn lemma_set_bit(b: u8, k: u8, j: u8)
    requires
        k < 8,
        j < 8,
    ensures
        (((b | (1u8 << k)) >> j) & 1u8 == 1u8) == (j == k || (b >> j) & 1u8 == 1u8),
{
    assert((((b | (1u8 << k)) >> j) & 1u8 == 1u8) == (j == k || (b >> j) & 1u8 == 1u8))
        by (bit_vector)
        requires
            k < 8,
            j < 8,
    ;
}

proof fn lemma_clear_bit(b: u8, k: u8, j: u8)
    requires
        k < 8,
        j < 8,
    ensures
        (((b & !(1u8 << k)) >> j) & 1u8 == 1u8) == (j != k && (b >> j) & 1u8 == 1u8),
{
    assert((((b & !(1u8 << k)) >> j) & 1u8 == 1u8) == (j != k && (b >> j) & 1u8 == 1u8))
        by (bit_vector)
        requires
            k < 8,
            j < 8,
    ;
}

/// A physical frame allocator that keeps one bit per frame.
#[derive(Debug)]
pub struct BitMapFrameAllocator {
    pub memory_map: Vec<MemoryRegion>,
    pub bitmap: Vec<u8>,
}

impl BitMapFrameAllocator {
    pub open spec fn wf(&self) -> bool {
        self.bitmap@.len() == MAX_BITMAP_ENTRIES
    }

    /// An allocator over the usable regions of `memory_map`, with every frame
    /// free.
    pub fn new(memory_map: Vec<MemoryRegion>) -> (r: BitMapFrameAllocator)
        ensures
            r.wf(),
            r.memory_map@ == memory_map@,
            forall|n: int| 0 <= n < MAX_BITMAP_ENTRIES * 8 ==> !frame_used(r.bitmap@, n),
    {
        let mut bitmap: Vec<u8> = Vec::new();
        let mut i: usize = 0;
        while i < MAX_BITMAP_ENTRIES
            invariant
                i <= MAX_BITMAP_ENTRIES,
                bitmap@.len() == i,
                forall|k: int| 0 <= k < i ==> bitmap@[k] == 0u8,
            decreases MAX_BITMAP_ENTRIES - i,
        {
            bitmap.push(0);
            i = i + 1;
        }
        assert forall|n: int| 0 <= n < MAX_BITMAP_ENTRIES * 8 implies !frame_used(bitmap@, n) by {
            let s = (7 - n % 8) as u8;
            assert((0u8 >> s) & 1u8 == 0u8) by (bit_vector);
        }
        BitMapFrameAllocator { memory_map, bitmap }
    }

    /// Whether the frame that holds `frame` is marked used.
    pub fn is_used(&self, frame: u64) -> (r: bool)
        requires
            self.wf(),
            frame < MAX_PHYSICAL_ADDRESS,
        ensures
            r == frame_used(self.bitmap@, frame_number(frame as int)),
    {
        let num = (frame / FRAME_SIZE) as usize;
        (self.bitmap[num / 8] >> ((7 - num % 8) as u8)) & 1 == 1
    }

    /// Marks the frame that holds `frame` used; no other frame changes.
    pub fn mark_used(&mut self, frame: u64)
        requires
            old(self).wf(),
            frame < MAX_PHYSICAL_ADDRESS,
        ensures
            final(self).wf(),
            final(self).memory_map == old(self).memory_map,
            forall|n: int|
                0 <= n < MAX_BITMAP_ENTRIES * 8 ==> #[trigger] frame_used(final(self).bitmap@, n)
                    == (n == frame_number(frame as int) || frame_used(old(self).bitmap@, n)),
    {
        let num = (frame / FRAME_SIZE) as usize;
        let k = (7 - num % 8) as u8;
        let b = self.bitmap[num / 8];
        self.bitmap.set(num / 8, b | (1u8 << k));
        proof {
            assert forall|n: int| 0 <= n < MAX_BITMAP_ENTRIES * 8 implies #[trigger] frame_used(
                self.bitmap@,
                n,
            ) == (n == num || frame_used(old(self).bitmap@, n)) by {
                if n / 8 == num / 8 {
                    lemma_set_bit(b, k, (7 - n % 8) as u8);
                }
            }
        }
    }

    /// Marks the frame that holds `frame` free; no other frame changes.
    pub fn mark_unused(&mut self, frame: u64)
        requires
            old(self).wf(),
            frame < MAX_PHYSICAL_ADDRESS,
        ensures
            final(self).wf(),
            final(self).memory_map == old(self).memory_map,
            forall|n: int|
                0 <= n < MAX_BITMAP_ENTRIES * 8 ==> #[trigger] frame_used(final(self).bitmap@, n)
                    == (n != frame_number(frame as int) && frame_used(old(self).bitmap@, n)),
    {
        let num = (frame / FRAME_SIZE) as usize;
        let k = (7 - num % 8) as u8;
        let b = self.bitmap[num / 8];
        self.bitmap.set(num / 8, b & !(1u8 << k));
        proof {
            assert forall|n: int| 0 <= n < MAX_BITMAP_ENTRIES * 8 implies #[trigger] frame_used(
                self.bitmap@,
                n,
            ) == (n != num && frame_used(old(self).bitmap@, n)) by {
                if n / 8 == num / 8 {
                    lemma_clear_bit(b, k, (7 - n % 8) as u8);
                }
            }
        }
    }

    /// Gives the frame that holds `frame` back.
    pub fn deallocate_frame(&mut self, frame: u64)
        requires
            old(self).wf(),
            frame < MAX_PHYSICAL_ADDRESS,
        ensures
            final(self).wf(),
            final(self).memory_map == old(self).memory_map,
            forall|n: int|
                0 <= n < MAX_BITMAP_ENTRIES * 8 ==> #[trigger] frame_used(final(self).bitmap@, n)
                    == (n != frame_number(frame as int) && frame_used(old(self).bitmap@, n)),
    {
        self.mark_unused(frame);
    }

    /// Hands out a free frame of a usable region and marks it used: the
    /// frame-aligned address of a candidate. `None`, with nothing changed,
    /// where every candidate frame is used.
    pub fn allocate_frame(&mut self) -> (r: Option<u64>)
        requires
            old(self).wf(),
        ensures
            final(self).wf(),
            final(self).memory_map == old(self).memory_map,
            match r {
                Some(f) => {
                    &&& f % FRAME_SIZE == 0
                    &&& exists|i: int, k: int|
                        0 <= i < old(self).memory_map@.len() && #[trigger] candidate(
                            old(self).memory_map@[i],
                            k,
                        ) && frame_number(old(self).memory_map@[i].base + FRAME_SIZE * k)
                            == frame_number(f as int)
                    &&& !frame_used(old(self).bitmap@, frame_number(f as int))
                    &&& forall|n: int|
                        0 <= n < MAX_BITMAP_ENTRIES * 8 ==> #[trigger] frame_used(
                            final(self).bitmap@,
                            n,
                        ) == (n == frame_number(f as int) || frame_used(old(self).bitmap@, n))
                },
                None => {
                    &&& final(self).bitmap@ == old(self).bitmap@
                    &&& forall|i: int, k: int|
                        0 <= i < old(self).memory_map@.len() && #[trigger] candidate(
                            old(self).memory_map@[i],
                            k,
                        ) ==> frame_used(
                            old(self).bitmap@,
                            frame_number(old(self).memory_map@[i].base + FRAME_SIZE * k),
                        )
                },
            },
    {
        let n = self.memory_map.len();
        let mut i: usize = 0;
        while i < n
            invariant
                self.wf(),
                *self == *old(self),
                n == self.memory_map@.len(),
                i <= n,
                forall|j: int, k: int|
                    0 <= j < i && #[trigger] candidate(self.memory_map@[j], k) ==> frame_used(
                        self.bitmap@,
                        frame_number(self.memory_map@[j].base + FRAME_SIZE * k),
                    ),
            decreases n - i,
        {
            let region = self.memory_map[i];
            if region.entry_type == USABLE {
                let mut k: u64 = 0;
                let mut addr: u64 = region.base;
                while addr < MAX_PHYSICAL_ADDRESS && addr - region.base < region.length
                    invariant
                        self.wf(),
                        *self == *old(self),
                        n == self.memory_map@.len(),
                        i < n,
                        region == self.memory_map@[i as int],
                        region.entry_type == USABLE,
                        addr == region.base + FRAME_SIZE * k,
                        forall|j: int, c: int|
                            0 <= j < i && #[trigger] candidate(self.memory_map@[j], c)
                                ==> frame_used(
                                self.bitmap@,
                                frame_number(self.memory_map@[j].base + FRAME_SIZE * c),
                            ),
                        forall|c: int|
                            0 <= c < k && #[trigger] candidate(region, c) ==> frame_used(
                                self.bitmap@,
                                frame_number(region.base + FRAME_SIZE * c),
                            ),
                    decreases if addr < MAX_PHYSICAL_ADDRESS {
                        MAX_PHYSICAL_ADDRESS - addr
                    } else {
                        0
                    },
                {
                    let frame = addr - addr % FRAME_SIZE;
                    if !self.is_used(frame) {
                        proof {
                            assert(candidate(old(self).memory_map@[i as int], k as int));
                        }
                        self.mark_used(frame);
                        return Some(frame);
                    }
                    k = k + 1;
                    addr = addr + FRAME_SIZE;
                }
                assert forall|c: int| #[trigger] candidate(region, c) implies frame_used(
                    self.bitmap@,
                    frame_number(region.base + FRAME_SIZE * c),
                ) by {
                    if c >= k {
                        assert(FRAME_SIZE * c >= FRAME_SIZE * k) by (nonlinear_arith)
                            requires
                                c >= k,
                        ;
                    }
                }
            }
            i = i + 1;
        }
        None
    }
}

} // verus!
