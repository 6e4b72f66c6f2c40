use vstd::prelude::*;

verus! {

/// Number of addressable bytes: the whole 16-bit address range.
pub const MEMORY_SIZE: usize = 0x10000;

/// A flat byte-addressable memory of 65536 locations.
pub struct MemoryBus {
    pub data: [u8; 0x10000],
}

impl MemoryBus {
    /// A memory with every byte zero.
    pub fn new() -> (m: MemoryBus)
        ensures
            m.data@ == Seq::new(0x10000, |_i: int| 0u8),
    {
        let m = MemoryBus { data: [0u8; 0x10000] };
        assert(m.data@ =~= Seq::new(0x10000, |_i: int| 0u8));
        m
    }

    /// The byte stored at `address`.
    pub fn read_data(&self, address: u16) -> (r: u8)
        ensures
            r == self.data@[address as int],
    {
        self.data[address as usize]
    }

    /// Stores `value` at `address`; every other byte is kept.
    pub fn write_data(&mut self, address: u16, value: u8)
        ensures
            final(self).data@ == old(self).data@.update(address as int, value),
    {
        self.data[address as usize] = value;
    }

    /// Copies `image` to the start of memory; the bytes past its end are kept.
    pub fn load_image(&mut self, image: &[u8])
        requires
            image@.len() <= MEMORY_SIZE,
        ensures
            final(self).data@ == image@ + old(self).data@.subrange(
                image@.len() as int,
                MEMORY_SIZE as int,
            ),
    {
        let n = image.len();
        let mut i: usize = 0;
        while i < n
            invariant
                n == image@.len() <= MEMORY_SIZE,
                i <= n,
                self.data@.len() == MEMORY_SIZE,
                forall|j: int| 0 <= j < i ==> self.data@[j] == image@[j],
                forall|j: int| i <= j < MEMORY_SIZE ==> self.data@[j] == old(self).data@[j],
            decreases n - i,
        {
            self.data[i] = image[i];
            i = i + 1;
        }
        assert(self.data@ =~= image@ + old(self).data@.subrange(n as int, MEMORY_SIZE as int));
    }
}

} // verus!
