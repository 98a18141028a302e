use vstd::prelude::*;

use core::marker::PhantomData;

verus! {

/// An I/O port that carries values of type `T`. Only its number is held here;
/// the instructions that reach it belong to the platform layer.
#[derive(Debug)]
pub struct Port<T> {
    pub base: u16,
    pub phantom: PhantomData<T>,
}

impl<T> Port<T> {
    /// The port numbered `base`.
    pub fn new(base: u16) -> (r: Self)
        ensures
            r.base == base,
    {
        Port { base, phantom: PhantomData }
    }

    /// The number of the port `offset` past this one; `None` where it would
    /// pass the last port number.
    pub fn offset(&self, offset: u16) -> (r: Option<u16>)
        ensures
            self.base + offset <= u16::MAX ==> r == Some((self.base + offset) as u16),
            self.base + offset > u16::MAX ==> r is None,
    {
        self.base.checked_add(offset)
    }
}

} // verus!
