//! A placeholder allocator, installed before the real heap exists: every
//! allocation fails, so an accidental early allocation is observable
//! immediately instead of corrupting arbitrary memory. Deallocating through
//! it is a fatal error in the running kernel, since nothing can have been
//! allocated from it.

use vstd::prelude::*;

verus! {

/// The always-failing allocator.
pub struct Dummy;

impl Dummy {
    /// Unconditionally reports allocation failure.
    pub fn allocate(&self, _size: usize, _align: usize) -> (r: Option<usize>)
        ensures
            r is None,
    {
        None
    }
}

} // verus!
