use vstd::prelude::*;

verus! {

/// The number of addresses of the machine: every 16-bit value is one.
pub const MEMORY_SIZE: usize = 0x1_0000;

/// The byte of `bytes` at `address`, and zero where `bytes` has no such address.
pub open spec fn byte_at(bytes: Seq<u8>, address: int) -> u8 {
    if 0 <= address < bytes.len() {
        bytes[address]
    } else {
        0
    }
}

/// The 16-bit value whose low half is `low` and whose high half is `high`.
pub open spec fn word(low: u8, high: u8) -> u16 {
    (high * 256 + low) as u16
}

/// The low half of `value`.
pub open spec fn low_byte(value: u16) -> u8 {
    (value % 256) as u8
}

/// The high half of `value`.
pub open spec fn high_byte(value: u16) -> u8 {
    (value / 256) as u8
}

/// The 16-bit operand of an instruction at `address`: its low half is the byte after the
/// opcode and its high half the byte after that, each zero where `bytes` ends before it.
pub open spec fn operand_word(bytes: Seq<u8>, address: int) -> u16 {
    word(byte_at(bytes, address + 1), byte_at(bytes, address + 2))
}

/// What a memory holds after `image` was loaded at address 0: the image, cut at the size
/// of the address space, then zeros.
pub open spec fn loaded(image: Seq<u8>) -> Seq<u8> {
    Seq::new(MEMORY_SIZE as nat, |address: int| byte_at(image, address))
}

/// Joining two halves is shifting the high one left by eight bits and or-ing the low one
/// in.
pub proof fn lemma_word_is_shift_or(low: u8, high: u8)
    ensures
        word(low, high) == ((high as u16) << 8) | (low as u16),
{
    assert(((high as u16) << 8) | (low as u16) == (high as u16) * 256 + (low as u16))
        by (bit_vector);
}

/// The halves of a join are the two bytes that were joined.
pub proof fn lemma_halves_of_word(low: u8, high: u8)
    ensures
        low_byte(word(low, high)) == low,
        high_byte(word(low, high)) == high,
{
}

/// A 16-bit value is the join of its two halves.
pub proof fn lemma_word_of_halves(value: u16)
    ensures
        word(low_byte(value), high_byte(value)) == value,
{
}

/// Reads the byte at `address`, or zero where `buffer` ends before it.
pub fn read_8(buffer: &Vec<u8>, address: usize) -> (value: u8)
    ensures
        value == byte_at(buffer@, address as int),
{
    if address < buffer.len() {
        buffer[address]
    } else {
        0
    }
}

/// Reads the little-endian 16-bit operand of the instruction at `pc`: the bytes at
/// `pc + 1` (low) and `pc + 2` (high), each taken as zero where `buffer` ends before it.
pub fn read_16(buffer: &Vec<u8>, pc: usize) -> (value: u16)
    ensures
        value == operand_word(buffer@, pc as int),
        low_byte(value) == byte_at(buffer@, pc + 1),
        high_byte(value) == byte_at(buffer@, pc + 2),
{
    let len = buffer.len();
    let low: u8 = if pc < len {
        read_8(buffer, pc + 1)
    } else {
        0
    };
    let high: u8 = if pc < len && pc + 1 < len {
        read_8(buffer, pc + 2)
    } else {
        0
    };
    proof {
        lemma_word_is_shift_or(low, high);
        lemma_halves_of_word(low, high);
    }
    ((high as u16) << 8) | (low as u16)
}

/// The memory of the machine: one byte at each of the 65536 addresses.
pub struct Memory {
    bytes: Vec<u8>,
}

impl View for Memory {
    type V = Seq<u8>;

    closed spec fn view(&self) -> Seq<u8> {
        self.bytes@
    }
}

impl Memory {
    #[verifier::type_invariant]
    spec fn well_formed(&self) -> bool {
        self.bytes@.len() == MEMORY_SIZE
    }

    /// A memory that holds `image` from address 0 on and zero at every address after it.
    /// Bytes of the image that no 16-bit address reaches are left out.
    pub fn load(image: &Vec<u8>) -> (memory: Memory)
        ensures
            memory@ == loaded(image@),
    {
        let mut bytes: Vec<u8> = Vec::new();
        let mut address: usize = 0;
        while address < MEMORY_SIZE
            invariant
                address <= MEMORY_SIZE,
                bytes@.len() == address,
                forall|i: int| 0 <= i < address ==> bytes@[i] == byte_at(image@, i),
            decreases MEMORY_SIZE - address,
        {
            bytes.push(read_8(image, address));
            address += 1;
        }
        assert(bytes@ =~= loaded(image@));
        Memory { bytes }
    }

    /// The bytes of the memory, in address order.
    pub fn bytes(&self) -> (bytes: &Vec<u8>)
        ensures
            bytes@ == self@,
            bytes@.len() == MEMORY_SIZE,
    {
        proof {
            use_type_invariant(self);
        }
        &self.bytes
    }

    /// The byte at `address`.
    pub fn read(&self, address: u16) -> (value: u8)
        ensures
            value == self@[address as int],
            value == byte_at(self@, address as int),
            self@.len() == MEMORY_SIZE,
    {
        proof {
            use_type_invariant(self);
        }
        self.bytes[address as usize]
    }

    /// Stores `value` at `address` and leaves every other byte as it was.
    pub fn write(&mut self, address: u16, value: u8)
        ensures
            final(self)@ == old(self)@.update(address as int, value),
            final(self)@.len() == MEMORY_SIZE,
    {
        proof {
            use_type_invariant(&*self);
        }
        self.bytes[address as usize] = value;
    }
}

} // verus!
