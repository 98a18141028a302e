use vstd::prelude::*;

verus! {

/// A base address register, told apart by its low bits.
#[derive(Clone, Copy, Debug, PartialEq, Eq)]
pub enum Bar {
    Memory32,
    Memory64,
    Io { address: u16 },
}

impl Bar {
    /// Reads a base address register: bit 0 set means I/O space, whose address
    /// is the register shifted right by two; otherwise bit 1 tells a 64-bit
    /// memory register from a 32-bit one.
    pub fn parse(bar: u32) -> (r: Result<Self, ()>)
        ensures
            bar % 2 == 1 ==> r == Ok::<Bar, ()>(Bar::Io { address: (bar / 4) as u16 }),
            bar % 4 == 0 ==> r == Ok::<Bar, ()>(Bar::Memory32),
            bar % 4 == 2 ==> r == Ok::<Bar, ()>(Bar::Memory64),
    {
        if bar % 2 == 1 {
            Ok(Bar::Io { address: (bar / 4) as u16 })
        } else if bar % 4 == 0 {
            Ok(Bar::Memory32)
        } else {
            Ok(Bar::Memory64)
        }
    }
}

} // verus!
