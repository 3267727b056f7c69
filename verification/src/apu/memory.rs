use vstd::prelude::*;

verus! {

/// The memory at `mem` with `bytes` written from address `start` on.
pub open spec fn bytes_loaded(mem: Seq<u8>, start: int, bytes: Seq<u8>) -> Seq<u8> {
    Seq::new(
        mem.len(),
        |i: int|
            if start <= i < start + bytes.len() {
                bytes[i - start]
            } else {
                mem[i]
            },
    )
}

/// Law: reading back a block written by `bytes_loaded` gives the block, and
/// every address outside the block keeps its byte.
pub proof fn lemma_bytes_loaded_read_back(mem: Seq<u8>, start: int, bytes: Seq<u8>, addr: int)
    requires
        0 <= start,
        start + bytes.len() <= mem.len(),
        0 <= addr < mem.len(),
    ensures
        bytes_loaded(mem, start, bytes).len() == mem.len(),
        start <= addr < start + bytes.len() ==> bytes_loaded(mem, start, bytes)[addr] == bytes[addr - start],
        !(start <= addr < start + bytes.len()) ==> bytes_loaded(mem, start, bytes)[addr] == mem[addr],
{
}

/// The 64 KiB address space from which the delta-modulation channel reads its
/// samples.
pub struct Memory {
    pub memory: [u8; 0x10000],
}

impl Memory {
    pub fn new() -> (r: Memory)
        ensures
            r.memory@ == Seq::new(0x10000, |i: int| 0u8),
    {
        let r = Memory { memory: [0; 0x10000] };
        assert(r.memory@ =~= Seq::new(0x10000, |i: int| 0u8));
        r
    }

    pub fn get_byte(&self, addr: u16) -> (r: u8)
        ensures
            r == self.memory@[addr as int],
    {
        self.memory[addr as usize]
    }

    pub fn load_byte(&mut self, addr: u16, byte: u8)
        ensures
            final(self).memory@ == old(self).memory@.update(addr as int, byte),
    {
        self.memory[addr as usize] = byte;
    }

    pub fn load_bytes(&mut self, start: u16, bytes: &Vec<u8>)
        requires
            start + bytes.len() <= 0x10000,
        ensures
            final(self).memory@ == bytes_loaded(old(self).memory@, start as int, bytes@),
    {
        let start = start as usize;
        let mut i: usize = 0;
        while i < bytes.len()
            invariant
                i <= bytes.len(),
                start + bytes.len() <= 0x10000,
                self.memory@ == bytes_loaded(old(self).memory@, start as int, bytes@.take(i as int)),
            decreases bytes.len() - i,
        {
            self.memory[start + i] = bytes[i];
            i += 1;
            assert(self.memory@ =~= bytes_loaded(old(self).memory@, start as int, bytes@.take(i as int)));
        }
        assert(bytes@.take(i as int) =~= bytes@);
    }
}

} // verus!
