use vstd::prelude::*;

verus! {

/// Start of the kernel heap in virtual memory.
pub const HEAP_START: u64 = 0x4444_4444_0000;
/// Size of the kernel heap in bytes.
pub const HEAP_SIZE: usize = 1000 * 1024;

/// `n` rounded up to a multiple of `k`.
pub open spec fn round_up(n: int, k: int) -> int {
    n + (k - n % k) % k
}

/// A bump allocator over the region `[start, start + size)`: each allocation
/// takes the next free block and nothing is ever given back.
#[derive(Clone, Copy, Debug, PartialEq, Eq)]
pub struct BumpAllocator {
    pub start: usize,
    /// The first address not yet handed out.
    pub next: usize,
    pub size: usize,
}

impl BumpAllocator {
    /// An allocator over no memory at all.
    pub fn new_empty() -> (r: Self)
        ensures
            r == (BumpAllocator { start: 0, next: 0, size: 0 }),
    {
        BumpAllocator { start: 0, next: 0, size: 0 }
    }

    /// Hands the allocator the region `[start, start + size)`.
    pub fn init(&mut self, start: usize, size: usize)
        ensures
            *final(self) == (BumpAllocator { start, next: start, size }),
    {
        self.start = start;
        self.next = start;
        self.size = size;
    }

    /// Allocates a block for a layout of `size` bytes aligned to `align`. The
    /// block is `max(size, align)` bytes long and aligned to its own length;
    /// `None` where it would not end within the region. Nothing changes on
    /// `None`.
    pub fn allocate(&mut self, size: usize, align: usize) -> (r: Option<usize>)
        requires
            align > 0,
            old(self).start + old(self).size <= usize::MAX,
        ensures
            ({
                let len = if size > align {
                    size as int
                } else {
                    align as int
                };
                let a = round_up(old(self).next as int, len);
                if a + len <= old(self).start + old(self).size {
                    r == Some(a as usize) && *final(self) == (BumpAllocator {
                        next: (a + len) as usize,
                        ..*old(self)
                    })
                } else {
                    r is None && *final(self) == *old(self)
                }
            }),
    {
        let len: usize = if size > align {
            size
        } else {
            align
        };
        let pad: usize = (len - self.next % len) % len;
        if pad > usize::MAX - self.next {
            return None;
        }
        let a: usize = self.next + pad;
        if len > usize::MAX - a || self.start + self.size < a + len {
            return None;
        }
        self.next = a + len;
        Some(a)
    }
}

} // verus!
