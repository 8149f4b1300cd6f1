//! The memory bus: a flat byte array over the whole 16-bit address space.
use vstd::prelude::*;

use crate::bytes::{high_byte, join, join_bytes, lemma_join_split, low_byte, split};

verus! {

/// Number of addressable bytes: the whole 16-bit address space.
pub const MEMORY_SIZE: usize = 0x10000;

/// Size of the region that `load_rom` writes, starting at address 0.
pub const ROM_LIMIT: usize = 0x8000;

/// The address after `address`, wrapping from 0xFFFF to 0x0000.
pub open spec fn next_address(address: u16) -> u16 {
    ((address + 1) % 0x10000) as u16
}

/// The little-endian word at `address`: the low byte there, the high byte at
/// the following address (wrapping).
pub open spec fn word_at(mem: Seq<u8>, address: u16) -> int {
    join_bytes(mem[next_address(address) as int], mem[address as int])
}

/// `mem` after the little-endian word `value` is stored at `address`.
pub open spec fn with_word(mem: Seq<u8>, address: u16, value: u16) -> Seq<u8> {
    mem.update(address as int, low_byte(value)).update(next_address(address) as int, high_byte(value))
}

/// How many bytes of an image of `len` bytes are loaded.
pub open spec fn loaded_len(len: nat) -> nat {
    if len < ROM_LIMIT {
        len
    } else {
        ROM_LIMIT as nat
    }
}

/// `mem` after loading `data`: its first `loaded_len` bytes replace the
/// start of memory, and the rest of memory is kept.
pub open spec fn with_image(mem: Seq<u8>, data: Seq<u8>) -> Seq<u8> {
    data.take(loaded_len(data.len()) as int) + mem.skip(loaded_len(data.len()) as int)
}

/// The machine's memory, one byte per 16-bit address.
pub struct Mmu {
    memory: [u8; MEMORY_SIZE],
}

impl View for Mmu {
    type V = Seq<u8>;

    closed spec fn view(&self) -> Seq<u8> {
        self.memory@
    }
}

/// The view of a memory bus always holds one byte per address.
pub broadcast proof fn lemma_view_len(m: &Mmu)
    ensures
        (#[trigger] m@).len() == MEMORY_SIZE,
{
}

impl Mmu {
    /// A memory bus with every byte zero.
    pub fn new() -> (r: Mmu)
        ensures
            r@.len() == MEMORY_SIZE,
            forall|i: int| 0 <= i < MEMORY_SIZE ==> #[trigger] r@[i] == 0,
    {
        Mmu { memory: [0u8; MEMORY_SIZE] }
    }

    /// The byte at `address`.
    pub fn read_byte(&self, address: u16) -> (r: u8)
        ensures
            r == self@[address as int],
    {
        self.memory[address as usize]
    }

    /// Stores `value` at `address`.
    pub fn write_byte(&mut self, address: u16, value: u8)
        ensures
            final(self)@ == old(self)@.update(address as int, value),
    {
        self.memory[address as usize] = value;
    }

    /// The little-endian word at `address`; at 0xFFFF the high byte comes
    /// from address 0x0000.
    pub fn read_word(&self, address: u16) -> (r: u16)
        ensures
            r == word_at(self@, address),
    {
        let low = self.read_byte(address);
        let high = self.read_byte(address.wrapping_add(1));
        join(high, low)
    }

    /// Stores `value` little-endian at `address`: the low byte there, the high
    /// byte at the following address (wrapping).
    pub fn write_word(&mut self, address: u16, value: u16)
        ensures
            final(self)@ == with_word(old(self)@, address, value),
    {
        let (high, low) = split(value);
        self.write_byte(address, low);
        self.write_byte(address.wrapping_add(1), high);
    }

    /// Copies the first `min(data.len(), ROM_LIMIT)` bytes of `data` to the
    /// start of memory; the rest of `data` is ignored, and no address from
    /// `ROM_LIMIT` on is written.
    pub fn load_rom(&mut self, data: &[u8])
        ensures
            final(self)@ == with_image(old(self)@, data@),
    {
        let size: usize = if data.len() < ROM_LIMIT {
            data.len()
        } else {
            ROM_LIMIT
        };
        let mut i: usize = 0;
        while i < size
            invariant
                size == loaded_len(data@.len()),
                i <= size,
                self@.len() == MEMORY_SIZE,
                forall|j: int| 0 <= j < i ==> self@[j] == data@[j],
                forall|j: int| i <= j < MEMORY_SIZE ==> self@[j] == old(self)@[j],
            decreases size - i,
        {
            self.memory[i] = data[i];
            i = i + 1;
        }
        assert(self@ =~= with_image(old(self)@, data@));
    }
}

/// A byte written at `address` reads back at `address`, and every other
/// address keeps its byte.
pub proof fn lemma_byte_write_read(m: &Mmu, address: u16, value: u8, other: u16)
    ensures
        m@.update(address as int, value)[address as int] == value,
        other != address ==> m@.update(address as int, value)[other as int] == m@[other as int],
{
}

/// A word written at any address, 0xFFFF included, reads back unchanged.
pub proof fn lemma_word_write_read(m: &Mmu, address: u16, value: u16)
    ensures
        word_at(with_word(m@, address, value), address) == value,
{
    lemma_join_split(value);
}

/// Loading an image puts its first `loaded_len` bytes at addresses from 0 on
/// and leaves every other address, in particular each from `ROM_LIMIT` on, as
/// it was.
pub proof fn lemma_image_region(m: &Mmu, data: Seq<u8>, address: u16)
    ensures
        with_image(m@, data).len() == MEMORY_SIZE,
        address < loaded_len(data.len()) ==> with_image(m@, data)[address as int]
            == data[address as int],
        address >= loaded_len(data.len()) ==> with_image(m@, data)[address as int]
            == m@[address as int],
        address >= ROM_LIMIT ==> with_image(m@, data)[address as int] == m@[address as int],
{
}

} // verus!
