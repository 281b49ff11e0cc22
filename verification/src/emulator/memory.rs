//! Byte-addressed memory with bounds-checked little-endian accessors.

use vstd::prelude::*;
use crate::emulator::bits::{
    lemma_bytes_of_half, lemma_bytes_of_word, lemma_half_of_bytes, lemma_word_of_bytes,
};

verus! {

/// Number of bytes the architecture can address.
pub const MEMORY_SIZE: u32 = 768;

/// The only fault the machine can raise.
#[derive(Debug, Clone, Copy, PartialEq, Eq, Structural)]
pub enum Fault {
    /// An access touched a byte at or beyond the capacity of the memory.
    OutOfBounds,
}

/// Number of bytes of `mem` that can be addressed: the bytes present, up to
/// the architecture's limit.
pub open spec fn capacity(mem: Seq<u8>) -> int {
    if mem.len() <= MEMORY_SIZE {
        mem.len() as int
    } else {
        MEMORY_SIZE as int
    }
}

/// Whether the `width` bytes starting at `address` all lie below the
/// capacity, that is, whether the highest byte touched does.
pub open spec fn accessible(mem: Seq<u8>, address: int, width: int) -> bool {
    0 <= address && address + width <= capacity(mem)
}

/// The 16-bit value stored at `address`, least significant byte first.
pub open spec fn load16(mem: Seq<u8>, address: int) -> int {
    mem[address] + 0x100 * mem[address + 1]
}

/// The 32-bit value stored at `address`, least significant byte first.
pub open spec fn load32(mem: Seq<u8>, address: int) -> int {
    mem[address] + 0x100 * mem[address + 1] + 0x1_0000 * mem[address + 2] + 0x100_0000 * mem[address
        + 3]
}

/// Byte number `k` of `value`, counting from the least significant.
pub open spec fn byte_of(value: int, k: int) -> u8 {
    if k == 0 {
        (value % 0x100) as u8
    } else if k == 1 {
        ((value / 0x100) % 0x100) as u8
    } else if k == 2 {
        ((value / 0x1_0000) % 0x100) as u8
    } else {
        ((value / 0x100_0000) % 0x100) as u8
    }
}

/// `mem` with `value` stored at `address`.
pub open spec fn store8(mem: Seq<u8>, address: int, value: u8) -> Seq<u8> {
    mem.update(address, value)
}

/// `mem` with the two bytes of `value` stored at `address`, least
/// significant byte first.
pub open spec fn store16(mem: Seq<u8>, address: int, value: u16) -> Seq<u8> {
    mem.update(address, byte_of(value as int, 0)).update(address + 1, byte_of(value as int, 1))
}

/// `mem` with the four bytes of `value` stored at `address`, least
/// significant byte first.
pub open spec fn store32(mem: Seq<u8>, address: int, value: u32) -> Seq<u8> {
    mem.update(address, byte_of(value as int, 0)).update(
        address + 1,
        byte_of(value as int, 1),
    ).update(address + 2, byte_of(value as int, 2)).update(address + 3, byte_of(value as int, 3))
}

/// `mem` extended with zero bytes up to the architecture's limit; a longer
/// `mem` is left as it is.
pub open spec fn padded(mem: Seq<u8>) -> Seq<u8> {
    if mem.len() >= MEMORY_SIZE {
        mem
    } else {
        mem + Seq::new((MEMORY_SIZE - mem.len()) as nat, |i: int| 0u8)
    }
}

/// Padding opens every address below `MEMORY_SIZE`. It keeps each byte that
/// was there and puts zeros behind them, and a second padding changes
/// nothing.
pub proof fn lemma_padded(mem: Seq<u8>)
    ensures
        capacity(padded(mem)) == MEMORY_SIZE,
        padded(mem).len() >= mem.len(),
        forall|i: int| 0 <= i < mem.len() ==> padded(mem)[i] == mem[i],
        forall|i: int| mem.len() <= i < padded(mem).len() ==> padded(mem)[i] == 0,
        padded(padded(mem)) == padded(mem),
{
}

/// A 32-bit access at the last byte below the capacity is out of bounds;
/// one that ends at the capacity is in bounds.
pub proof fn lemma_last_word(mem: Seq<u8>)
    requires
        capacity(mem) >= 4,
    ensures
        !accessible(mem, capacity(mem) - 1, 4),
        accessible(mem, capacity(mem) - 4, 4),
{
}

/// Storing a byte changes no other byte, and it leaves the capacity as it
/// was.
pub proof fn lemma_store8_frame(mem: Seq<u8>, address: int, value: u8, i: int)
    requires
        accessible(mem, address, 1),
        0 <= i < mem.len(),
        i != address,
    ensures
        capacity(store8(mem, address, value)) == capacity(mem),
        store8(mem, address, value)[i] == mem[i],
{
}

/// Storing a 16-bit value changes no byte outside the two that it touches,
/// and it leaves the capacity as it was.
pub proof fn lemma_store16_frame(mem: Seq<u8>, address: int, value: u16, i: int)
    requires
        accessible(mem, address, 2),
        0 <= i < mem.len(),
        !(address <= i < address + 2),
    ensures
        capacity(store16(mem, address, value)) == capacity(mem),
        store16(mem, address, value)[i] == mem[i],
{
}

/// Storing a 32-bit value changes no byte outside the four that it
/// touches, and it leaves the capacity as it was.
pub proof fn lemma_store32_frame(mem: Seq<u8>, address: int, value: u32, i: int)
    requires
        accessible(mem, address, 4),
        0 <= i < mem.len(),
        !(address <= i < address + 4),
    ensures
        capacity(store32(mem, address, value)) == capacity(mem),
        store32(mem, address, value)[i] == mem[i],
{
}

/// A byte that was stored is the byte that is loaded.
pub proof fn lemma_round_trip_8(mem: Seq<u8>, address: int, value: u8)
    requires
        accessible(mem, address, 1),
    ensures
        accessible(store8(mem, address, value), address, 1),
        store8(mem, address, value)[address] == value,
{
}

/// A 16-bit value that was stored is the value that is loaded.
pub proof fn lemma_round_trip_16(mem: Seq<u8>, address: int, value: u16)
    requires
        accessible(mem, address, 2),
    ensures
        accessible(store16(mem, address, value), address, 2),
        load16(store16(mem, address, value), address) == value,
{
}

/// A 32-bit value that was stored is the value that is loaded.
pub proof fn lemma_round_trip_32(mem: Seq<u8>, address: int, value: u32)
    requires
        accessible(mem, address, 4),
    ensures
        accessible(store32(mem, address, value), address, 4),
        load32(store32(mem, address, value), address) == value,
{
}

/// Values of the three widths stored at ranges that do not overlap are all
/// loaded again, each at its own address.
pub proof fn lemma_round_trips_independent(
    mem: Seq<u8>,
    a8: int,
    v8: u8,
    a16: int,
    v16: u16,
    a32: int,
    v32: u32,
)
    requires
        accessible(mem, a8, 1),
        accessible(mem, a16, 2),
        accessible(mem, a32, 4),
        a8 < a16 || a16 + 2 <= a8,
        a8 < a32 || a32 + 4 <= a8,
        a16 + 2 <= a32 || a32 + 4 <= a16,
    ensures
        ({
            let after = store32(store16(store8(mem, a8, v8), a16, v16), a32, v32);
            &&& after[a8] == v8
            &&& load16(after, a16) == v16
            &&& load32(after, a32) == v32
        }),
{
}

/// The flat memory of the machine. It owns its bytes: they are reached
/// through the accessors only, each of which checks its bounds.
#[derive(Debug)]
pub struct Memory {
    memory_array: Vec<u8>,
}

impl View for Memory {
    type V = Seq<u8>;

    closed spec fn view(&self) -> Seq<u8> {
        self.memory_array@
    }
}

impl Memory {
    /// A memory that holds exactly the given program image.
    pub fn new(memory_array: Vec<u8>) -> (m: Self)
        ensures
            m@ == memory_array@,
    {
        Self { memory_array }
    }

    /// Pads the memory with zero bytes up to `MEMORY_SIZE`. Bytes already
    /// present are kept, also beyond that size.
    pub fn init(&mut self)
        ensures
            final(self)@ == padded(old(self)@),
    {
        while self.memory_array.len() < MEMORY_SIZE as usize
            invariant
                self.memory_array@.len() >= old(self)@.len(),
                self.memory_array@.len() <= MEMORY_SIZE || self.memory_array@ == old(self)@,
                self.memory_array@.subrange(0, old(self)@.len() as int) == old(self)@,
                forall|i: int|
                    old(self)@.len() <= i < self.memory_array@.len() ==> self.memory_array@[i]
                        == 0,
            decreases MEMORY_SIZE - self.memory_array@.len(),
        {
            self.memory_array.push(0);
        }
        assert(self.memory_array@ =~= padded(old(self)@));
    }

    /// Number of bytes that can be addressed.
    pub fn size(&self) -> (n: u32)
        ensures
            n == capacity(self@),
    {
        if self.memory_array.len() < MEMORY_SIZE as usize {
            self.memory_array.len() as u32
        } else {
            MEMORY_SIZE
        }
    }

    /// Reads the byte at `address`.
    pub fn read_data_8bit(&self, address: u32) -> (r: Result<u8, Fault>)
        ensures
            match r {
                Ok(value) => accessible(self@, address as int, 1) && value == self@[address as int],
                Err(fault) => !accessible(self@, address as int, 1) && fault == Fault::OutOfBounds,
            },
    {
        if address >= self.size() {
            return Err(Fault::OutOfBounds);
        }
        Ok(self.memory_array[address as usize])
    }

    /// Reads the little-endian 16-bit value at `address`.
    pub fn read_data_16bit(&self, address: u32) -> (r: Result<u16, Fault>)
        ensures
            match r {
                Ok(value) => accessible(self@, address as int, 2) && value == load16(
                    self@,
                    address as int,
                ),
                Err(fault) => !accessible(self@, address as int, 2) && fault == Fault::OutOfBounds,
            },
    {
        let limit: u32 = self.size();
        if limit < 2 || address > limit - 2 {
            return Err(Fault::OutOfBounds);
        }
        let at: usize = address as usize;
        let b0: u8 = self.memory_array[at];
        let b1: u8 = self.memory_array[at + 1];
        proof {
            lemma_half_of_bytes(b0, b1);
        }
        Ok((b1 as u16) << 8 | b0 as u16)
    }

    /// Reads the little-endian 32-bit value at `address`.
    pub fn read_data(&self, address: u32) -> (r: Result<u32, Fault>)
        ensures
            match r {
                Ok(value) => accessible(self@, address as int, 4) && value == load32(
                    self@,
                    address as int,
                ),
                Err(fault) => !accessible(self@, address as int, 4) && fault == Fault::OutOfBounds,
            },
    {
        let limit: u32 = self.size();
        if limit < 4 || address > limit - 4 {
            return Err(Fault::OutOfBounds);
        }
        let at: usize = address as usize;
        let b0: u8 = self.memory_array[at];
        let b1: u8 = self.memory_array[at + 1];
        let b2: u8 = self.memory_array[at + 2];
        let b3: u8 = self.memory_array[at + 3];
        proof {
            lemma_word_of_bytes(b0, b1, b2, b3);
        }
        Ok((b3 as u32) << 24 | (b2 as u32) << 16 | (b1 as u32) << 8 | b0 as u32)
    }

    /// Writes `data` to the byte at `address`. On a fault nothing is
    /// written.
    pub fn write_data_8bit(&mut self, address: u32, data: u8) -> (r: Result<(), Fault>)
        ensures
            match r {
                Ok(_) => accessible(old(self)@, address as int, 1) && final(self)@ == store8(
                    old(self)@,
                    address as int,
                    data,
                ),
                Err(fault) => !accessible(old(self)@, address as int, 1) && fault
                    == Fault::OutOfBounds && final(self)@ == old(self)@,
            },
    {
        if address >= self.size() {
            return Err(Fault::OutOfBounds);
        }
        self.memory_array[address as usize] = data;
        Ok(())
    }

    /// Writes `data` at `address`, least significant byte first. On a fault
    /// nothing is written.
    pub fn write_data_16bit(&mut self, address: u32, data: u16) -> (r: Result<(), Fault>)
        ensures
            match r {
                Ok(_) => accessible(old(self)@, address as int, 2) && final(self)@ == store16(
                    old(self)@,
                    address as int,
                    data,
                ),
                Err(fault) => !accessible(old(self)@, address as int, 2) && fault
                    == Fault::OutOfBounds && final(self)@ == old(self)@,
            },
    {
        let limit: u32 = self.size();
        if limit < 2 || address > limit - 2 {
            return Err(Fault::OutOfBounds);
        }
        let at: usize = address as usize;
        proof {
            lemma_bytes_of_half(data);
        }
        self.memory_array[at] = (data & 0x00FF) as u8;
        self.memory_array[at + 1] = (data >> 8) as u8;
        Ok(())
    }

    /// Writes `data` at `address`, least significant byte first. On a fault
    /// nothing is written.
    pub fn write_data(&mut self, address: u32, data: u32) -> (r: Result<(), Fault>)
        ensures
            match r {
                Ok(_) => accessible(old(self)@, address as int, 4) && final(self)@ == store32(
                    old(self)@,
                    address as int,
                    data,
                ),
                Err(fault) => !accessible(old(self)@, address as int, 4) && fault
                    == Fault::OutOfBounds && final(self)@ == old(self)@,
            },
    {
        let limit: u32 = self.size();
        if limit < 4 || address > limit - 4 {
            return Err(Fault::OutOfBounds);
        }
        let at: usize = address as usize;
        proof {
            lemma_bytes_of_word(data);
        }
        self.memory_array[at] = (data & 0x0000_00FF) as u8;
        self.memory_array[at + 1] = ((data >> 8) & 0x0000_00FF) as u8;
        self.memory_array[at + 2] = ((data >> 16) & 0x0000_00FF) as u8;
        self.memory_array[at + 3] = (data >> 24) as u8;
        Ok(())
    }
}

} // verus!
