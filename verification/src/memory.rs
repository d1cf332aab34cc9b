//! Byte-addressable memory with little-endian word access.
//!
//! Addresses are 16 bits wide and the store covers the whole address space,
//! so a byte access can never be out of bounds; word access wraps from the
//! top of memory back to address zero for its high byte.

use vstd::prelude::*;

verus! {

/// Number of addressable bytes: the full 16-bit address space.
pub const MEM_SIZE: usize = 0x10000;

/// The address that follows `addr`, wrapping at the top of the address space.
pub open spec fn addr_inc(addr: u16) -> u16 {
    if addr == 0xFFFF {
        0
    } else {
        (addr + 1) as u16
    }
}

/// Low byte of a 16-bit word.
pub open spec fn low_byte(w: u16) -> u8 {
    (w & 0xFF) as u8
}

/// High byte of a 16-bit word.
pub open spec fn high_byte(w: u16) -> u8 {
    (w >> 8) as u8
}

/// The word with `lo` as its low byte and `hi` as its high byte.
pub open spec fn word_from_bytes(lo: u8, hi: u8) -> u16 {
    (lo as u16) | ((hi as u16) << 8)
}

/// The little-endian word stored at `addr`: low byte at `addr`, high byte at
/// the following address (which wraps at the top of memory).
pub open spec fn word_at(m: Seq<u8>, addr: u16) -> u16 {
    word_from_bytes(m[addr as int], m[addr_inc(addr) as int])
}

/// Memory contents after a little-endian word write of `data` at `addr`.
pub open spec fn word_written(m: Seq<u8>, data: u16, addr: u16) -> Seq<u8> {
    m.update(addr as int, low_byte(data)).update(addr_inc(addr) as int, high_byte(data))
}

/// The address that follows `addr`, computed executably.
pub fn wrap_inc(addr: u16) -> (r: u16)
    ensures
        r == addr_inc(addr),
{
    if addr == 0xFFFF {
        0
    } else {
        addr + 1
    }
}

/// A fixed-size byte store covering the full 16-bit address space.
#[derive(Debug)]
pub struct MEM {
    data: Vec<u8>,
}

impl View for MEM {
    type V = Seq<u8>;

    closed spec fn view(&self) -> Seq<u8> {
        self.data@
    }
}

impl MEM {
    /// The store always spans the whole address space.
    pub open spec fn wf(&self) -> bool {
        self@.len() == MEM_SIZE
    }

    /// A zero-initialized memory.
    pub fn new() -> (m: MEM)
        ensures
            m.wf(),
            forall|i: int| 0 <= i < MEM_SIZE ==> m@[i] == 0u8,
    {
        let mut data: Vec<u8> = Vec::new();
        while data.len() < MEM_SIZE
            invariant
                data@.len() <= MEM_SIZE,
                forall|i: int| 0 <= i < data@.len() ==> data@[i] == 0u8,
            decreases MEM_SIZE - data.len(),
        {
            data.push(0u8);
        }
        MEM { data }
    }

    /// The byte stored at `addr`; never fails, every 16-bit address is in bounds.
    pub fn read_byte(&self, addr: u16) -> (b: u8)
        requires
            self.wf(),
        ensures
            b == self@[addr as int],
    {
        self.data[addr as usize]
    }

    /// Stores `value` at `addr`; never fails, every 16-bit address is in bounds.
    pub fn write_byte(&mut self, addr: u16, value: u8)
        requires
            old(self).wf(),
        ensures
            final(self).wf(),
            final(self)@ == old(self)@.update(addr as int, value),
    {
        self.data[addr as usize] = value;
    }

    /// The little-endian word at `addr`: low byte at `addr`, high byte at the
    /// following address, wrapping at the top of memory.
    pub fn read_word(&self, addr: u16) -> (w: u16)
        requires
            self.wf(),
        ensures
            w == word_at(self@, addr),
    {
        let lo = self.read_byte(addr);
        let hi = self.read_byte(wrap_inc(addr));
        (lo as u16) | ((hi as u16) << 8)
    }

    /// Writes `data` little-endian at `addr`: low byte at `addr`, high byte
    /// at the following address, wrapping at the top of memory.
    pub fn write_word(&mut self, data: u16, addr: u16)
        requires
            old(self).wf(),
        ensures
            final(self).wf(),
            final(self)@ == word_written(old(self)@, data, addr),
    {
        self.write_byte(addr, (data & 0xFF) as u8);
        self.write_byte(wrap_inc(addr), (data >> 8) as u8);
    }
}

/// Law: a word written at an address is read back unchanged at that address,
/// for every 16-bit word and every address, the top-of-memory wrap boundary
/// included (there the high byte sits at address zero for both the write and
/// the read).
pub proof fn lemma_word_round_trip(m: Seq<u8>, data: u16, addr: u16)
    requires
        m.len() == MEM_SIZE,
    ensures
        word_at(word_written(m, data, addr), addr) == data,
{
    assert(addr_inc(addr) != addr);
    assert((((data & 0xFF) as u8) as u16) | (((((data >> 8) as u8) as u16)) << 8) == data)
        by (bit_vector);
}

} // verus!
