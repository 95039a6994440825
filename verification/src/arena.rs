//! The data-segment arena: an append-only byte buffer living in the glue
//! module's own memory. Offsets handed out are stable because the buffer
//! only ever grows; the whole buffer becomes one active data segment at
//! assembly time.

use vstd::prelude::*;

verus! {

/// The number of bytes in one WebAssembly memory page.
pub const PAGE_SIZE: u32 = 65536;

/// An append-only byte buffer with stable 32-bit offsets.
#[derive(Debug)]
pub struct DataSegments {
    pub bytes: Vec<u8>,
}

impl DataSegments {
    /// Create an empty arena.
    pub fn new() -> (r: Self)
        ensures
            r.bytes@ =~= Seq::<u8>::empty(),
    {
        DataSegments { bytes: Vec::new() }
    }

    /// Append `data`, returning the offset at which it begins.
    pub fn add(&mut self, data: &[u8]) -> (offset: u32)
        requires
            old(self).bytes@.len() + data@.len() <= u32::MAX,
        ensures
            offset == old(self).bytes@.len(),
            final(self).bytes@ == old(self).bytes@ + data@,
    {
        let offset = self.bytes.len() as u32;
        let mut i: usize = 0;
        while i < data.len()
            invariant
                i <= data@.len(),
                self.bytes@ == old(self).bytes@ + data@.take(i as int),
            decreases data@.len() - i,
        {
            self.bytes.push(data[i]);
            assert(old(self).bytes@ + data@.take(i as int) + seq![data@[i as int]] =~= old(
                self,
            ).bytes@ + data@.take(i + 1));
            i += 1;
        }
        assert(data@.take(data@.len() as int) =~= data@);
        offset
    }

    /// The current length of the arena.
    pub fn len(&self) -> (r: usize)
        ensures
            r == self.bytes@.len(),
    {
        self.bytes.len()
    }

    /// The least page count whose span holds the whole arena.
    pub fn min_pages(&self) -> (r: u64)
        requires
            self.bytes@.len() <= u32::MAX,
        ensures
            r == spec_min_pages(self.bytes@.len() as nat),
    {
        let len = self.bytes.len() as u64;
        (len + (PAGE_SIZE as u64 - 1)) / PAGE_SIZE as u64
    }
}

/// `ceil(len / PAGE_SIZE)`.
pub open spec fn spec_min_pages(len: nat) -> nat {
    ((len + (PAGE_SIZE - 1) as nat) / (PAGE_SIZE as nat)) as nat
}

} // verus!
