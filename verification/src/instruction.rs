use crate::memory::{
    byte_at, high_byte, lemma_word_is_shift_or, low_byte, operand_word, read_16, read_8,
};
use crate::table::{encoded_length, mnemonic_of, operand_bytes, Mnemonic};
use vstd::prelude::*;

verus! {

/// One of the seven 8-bit registers.
#[derive(Clone, Copy, Debug, PartialEq, Eq, Structural)]
pub enum Register {
    A,
    B,
    C,
    D,
    E,
    H,
    L,
}

/// Where an 8-bit operand lives: in a register, or in the memory byte whose address is
/// the register pair H:L.
#[derive(Clone, Copy, Debug, PartialEq, Eq, Structural)]
pub enum Location {
    Register(Register),
    Memory,
}

/// Two registers taken as one 16-bit value, the stack pointer, or the accumulator with
/// the flags.
#[derive(Clone, Copy, Debug, PartialEq, Eq, Structural)]
pub enum RegisterPair {
    Bc,
    De,
    Hl,
    Sp,
    Psw,
}

/// The operand bytes of an instruction.
#[derive(Clone, Copy, Debug, PartialEq, Eq, Structural)]
pub enum Operand {
    /// No byte follows the opcode.
    Implied,
    /// One byte follows: an immediate value or a device number.
    Byte(u8),
    /// Two bytes follow, low half first: an immediate value or an address.
    Word(u16),
}

/// The direction of a transfer between the accumulator and a device.
#[derive(Clone, Copy, Debug, PartialEq, Eq, Structural)]
pub enum Direction {
    /// From the device to the accumulator.
    Input,
    /// From the accumulator to the device.
    Output,
}

/// A one-byte transfer between the accumulator and one of the 256 numbered devices.
#[derive(Clone, Copy, Debug, PartialEq, Eq, Structural)]
pub struct Transfer {
    pub device: u8,
    pub direction: Direction,
}

/// A decoded instruction.
#[derive(Clone, Copy, Debug, PartialEq, Eq, Structural)]
pub struct Instruction {
    /// The first byte of the instruction.
    pub opcode: u8,
    /// The operation that the opcode selects.
    pub mnemonic: Mnemonic,
    /// The bytes that follow the opcode.
    pub operand: Operand,
    /// The number of bytes of the instruction, or 0 where the opcode is undefined.
    pub length: u16,
}

/// The location that a 3-bit register field of an opcode names.
pub open spec fn location_of(field: u8) -> Location {
    if field == 0 {
        Location::Register(Register::B)
    } else if field == 1 {
        Location::Register(Register::C)
    } else if field == 2 {
        Location::Register(Register::D)
    } else if field == 3 {
        Location::Register(Register::E)
    } else if field == 4 {
        Location::Register(Register::H)
    } else if field == 5 {
        Location::Register(Register::L)
    } else if field == 6 {
        Location::Memory
    } else {
        Location::Register(Register::A)
    }
}

/// The location that bits 3 to 5 of `opcode` name: the one that a move, an immediate
/// load, an increment or a decrement writes.
pub open spec fn destination_location(opcode: u8) -> Location {
    location_of((opcode / 8) % 8)
}

/// The location that bits 0 to 2 of `opcode` name: the one that a move, an addition, a
/// subtraction, a logic operation or a comparison reads.
pub open spec fn source_location(opcode: u8) -> Location {
    location_of(opcode % 8)
}

/// The register pair that bits 4 and 5 of `opcode` name. The fourth pair is the
/// accumulator with the flags for an instruction that works on the stack and the stack
/// pointer for any other.
pub open spec fn selected_pair(opcode: u8, on_stack: bool) -> RegisterPair {
    let field = (opcode / 16) % 4;
    if field == 0 {
        RegisterPair::Bc
    } else if field == 1 {
        RegisterPair::De
    } else if field == 2 {
        RegisterPair::Hl
    } else if on_stack {
        RegisterPair::Psw
    } else {
        RegisterPair::Sp
    }
}

/// The location that an instruction writes, where its encoding names one.
pub open spec fn destination_of(mnemonic: Mnemonic, opcode: u8) -> Option<Location> {
    match mnemonic {
        Mnemonic::Mov | Mnemonic::Mvi | Mnemonic::Inr | Mnemonic::Dcr => Some(
            destination_location(opcode),
        ),
        _ => None,
    }
}

/// The location that an instruction reads, where its encoding names one.
pub open spec fn source_of(mnemonic: Mnemonic, opcode: u8) -> Option<Location> {
    match mnemonic {
        Mnemonic::Mov
        | Mnemonic::Add
        | Mnemonic::Adc
        | Mnemonic::Sub
        | Mnemonic::Sbb
        | Mnemonic::Ana
        | Mnemonic::Xra
        | Mnemonic::Ora
        | Mnemonic::Cmp => Some(source_location(opcode)),
        _ => None,
    }
}

/// The register pair that an instruction works on, where its encoding names one.
pub open spec fn pair_of(mnemonic: Mnemonic, opcode: u8) -> Option<RegisterPair> {
    match mnemonic {
        Mnemonic::Push | Mnemonic::Pop => Some(selected_pair(opcode, true)),
        Mnemonic::Lxi
        | Mnemonic::Inx
        | Mnemonic::Dcx
        | Mnemonic::Dad
        | Mnemonic::Stax
        | Mnemonic::Ldax => Some(selected_pair(opcode, false)),
        _ => None,
    }
}

/// The operand of an instruction of `count` operand bytes at `address`. A byte that
/// `memory` does not hold counts as zero.
pub open spec fn operand_at(memory: Seq<u8>, address: int, count: nat) -> Operand {
    if count == 0 {
        Operand::Implied
    } else if count == 1 {
        Operand::Byte(byte_at(memory, address + 1))
    } else {
        Operand::Word(operand_word(memory, address))
    }
}

/// The instruction that `memory` holds at `address`.
pub open spec fn decode_spec(memory: Seq<u8>, address: u16) -> Instruction {
    let opcode = byte_at(memory, address as int);
    let mnemonic = mnemonic_of(opcode);
    Instruction {
        opcode,
        mnemonic,
        operand: operand_at(memory, address as int, operand_bytes(mnemonic)),
        length: encoded_length(mnemonic) as u16,
    }
}

impl Operand {
    /// The number of operand bytes.
    pub open spec fn arity(self) -> nat {
        match self {
            Operand::Implied => 0,
            Operand::Byte(_) => 1,
            Operand::Word(_) => 2,
        }
    }

    /// The operand as a number: the byte, the 16-bit value, or 0 where there is none.
    pub open spec fn value(self) -> u16 {
        match self {
            Operand::Implied => 0,
            Operand::Byte(byte) => byte as u16,
            Operand::Word(word) => word,
        }
    }

    /// The number of operand bytes.
    pub fn count(self) -> (count: u8)
        ensures
            count == self.arity(),
    {
        match self {
            Operand::Implied => 0,
            Operand::Byte(_) => 1,
            Operand::Word(_) => 2,
        }
    }

    /// The operand as a number: the byte, the 16-bit value, or 0 where there is none.
    pub fn number(self) -> (number: u16)
        ensures
            number == self.value(),
    {
        match self {
            Operand::Implied => 0,
            Operand::Byte(byte) => byte as u16,
            Operand::Word(word) => word,
        }
    }
}

impl Instruction {
    /// The fields agree with the opcode: the mnemonic is the one that the opcode map
    /// gives, and the operand and the length are those of the mnemonic.
    pub open spec fn well_formed(self) -> bool {
        &&& self.mnemonic == mnemonic_of(self.opcode)
        &&& self.operand.arity() == operand_bytes(self.mnemonic)
        &&& self.length == encoded_length(self.mnemonic)
    }

    /// The transfer that the instruction asks of a device, if it is an input or output
    /// instruction.
    pub open spec fn transfer_spec(self) -> Option<Transfer> {
        match (self.mnemonic, self.operand) {
            (Mnemonic::In, Operand::Byte(device)) => Some(
                Transfer { device, direction: Direction::Input },
            ),
            (Mnemonic::Out, Operand::Byte(device)) => Some(
                Transfer { device, direction: Direction::Output },
            ),
            _ => None,
        }
    }

    /// The location that the instruction writes, if its encoding names one.
    pub fn destination(&self) -> (location: Option<Location>)
        ensures
            location == destination_of(self.mnemonic, self.opcode),
    {
        match self.mnemonic {
            Mnemonic::Mov | Mnemonic::Mvi | Mnemonic::Inr | Mnemonic::Dcr => Some(
                destination_in(self.opcode),
            ),
            _ => None,
        }
    }

    /// The location that the instruction reads, if its encoding names one.
    pub fn source(&self) -> (location: Option<Location>)
        ensures
            location == source_of(self.mnemonic, self.opcode),
    {
        match self.mnemonic {
            Mnemonic::Mov
            | Mnemonic::Add
            | Mnemonic::Adc
            | Mnemonic::Sub
            | Mnemonic::Sbb
            | Mnemonic::Ana
            | Mnemonic::Xra
            | Mnemonic::Ora
            | Mnemonic::Cmp => Some(source_in(self.opcode)),
            _ => None,
        }
    }

    /// The register pair that the instruction works on, if its encoding names one.
    pub fn pair(&self) -> (pair: Option<RegisterPair>)
        ensures
            pair == pair_of(self.mnemonic, self.opcode),
    {
        match self.mnemonic {
            Mnemonic::Push | Mnemonic::Pop => Some(pair_in(self.opcode, true)),
            Mnemonic::Lxi
            | Mnemonic::Inx
            | Mnemonic::Dcx
            | Mnemonic::Dad
            | Mnemonic::Stax
            | Mnemonic::Ldax => Some(pair_in(self.opcode, false)),
            _ => None,
        }
    }

    /// The transfer that the instruction asks of a device, if it is an input or output
    /// instruction: the device number is its operand byte.
    pub fn transfer(&self) -> (transfer: Option<Transfer>)
        ensures
            transfer == self.transfer_spec(),
    {
        match (self.mnemonic, self.operand) {
            (Mnemonic::In, Operand::Byte(device)) => Some(
                Transfer { device, direction: Direction::Input },
            ),
            (Mnemonic::Out, Operand::Byte(device)) => Some(
                Transfer { device, direction: Direction::Output },
            ),
            _ => None,
        }
    }
}

/// The location that bits 3 to 5 of `opcode` name.
pub fn destination_in(opcode: u8) -> (location: Location)
    ensures
        location == destination_location(opcode),
{
    location_from_field((opcode / 8) % 8)
}

/// The location that bits 0 to 2 of `opcode` name.
pub fn source_in(opcode: u8) -> (location: Location)
    ensures
        location == source_location(opcode),
{
    location_from_field(opcode % 8)
}

/// The register pair that bits 4 and 5 of `opcode` name, for an instruction that works
/// on the stack or for one that does not.
pub fn pair_in(opcode: u8, on_stack: bool) -> (pair: RegisterPair)
    ensures
        pair == selected_pair(opcode, on_stack),
{
    let field: u8 = (opcode / 16) % 4;
    match field {
        0 => RegisterPair::Bc,
        1 => RegisterPair::De,
        2 => RegisterPair::Hl,
        _ => if on_stack {
            RegisterPair::Psw
        } else {
            RegisterPair::Sp
        },
    }
}

fn location_from_field(field: u8) -> (location: Location)
    ensures
        location == location_of(field),
{
    match field {
        0 => Location::Register(Register::B),
        1 => Location::Register(Register::C),
        2 => Location::Register(Register::D),
        3 => Location::Register(Register::E),
        4 => Location::Register(Register::H),
        5 => Location::Register(Register::L),
        6 => Location::Memory,
        _ => Location::Register(Register::A),
    }
}

/// Decodes the instruction at `address`. Every opcode decodes: one without a modelled
/// operation gives the mnemonic `Undefined` and the length 0. Operand bytes are the
/// bytes at `address + 1` and `address + 2`; one that lies beyond the end of `memory`
/// is taken as zero, and so is the opcode itself.
pub fn decode(memory: &Vec<u8>, address: u16) -> (instruction: Instruction)
    ensures
        instruction == decode_spec(memory@, address),
        instruction.well_formed(),
        instruction.length <= 3,
        instruction.length == 0 <==> instruction.mnemonic == Mnemonic::Undefined,
{
    let at = address as usize;
    let opcode = read_8(memory, at);
    let mnemonic = Mnemonic::of(opcode);
    let count = mnemonic.operand_bytes();
    let operand = if count == 0 {
        Operand::Implied
    } else if count == 1 {
        Operand::Byte(read_8(memory, at + 1))
    } else {
        Operand::Word(read_16(memory, at))
    };
    Instruction { opcode, mnemonic, operand, length: mnemonic.encoded_length() }
}

/// Every opcode has a length of 0, 1, 2 or 3 bytes. It is 0 for exactly the opcodes
/// without a modelled operation, and otherwise one more than the number of operand
/// bytes.
pub proof fn lemma_length_of_every_opcode(opcode: u8)
    ensures
        0 <= encoded_length(mnemonic_of(opcode)) <= 3,
        encoded_length(mnemonic_of(opcode)) == 0 <==> mnemonic_of(opcode) == Mnemonic::Undefined,
        mnemonic_of(opcode) != Mnemonic::Undefined ==> encoded_length(mnemonic_of(opcode)) == 1
            + operand_bytes(mnemonic_of(opcode)),
{
}

/// The mnemonic and the length of an instruction depend on its opcode alone: two
/// places that hold the same opcode decode to them alike, whatever surrounds them.
pub proof fn lemma_length_depends_on_opcode_alone(
    first: Seq<u8>,
    first_address: u16,
    second: Seq<u8>,
    second_address: u16,
)
    requires
        byte_at(first, first_address as int) == byte_at(second, second_address as int),
    ensures
        decode_spec(first, first_address).mnemonic == decode_spec(second, second_address).mnemonic,
        decode_spec(first, first_address).length == decode_spec(second, second_address).length,
        decode_spec(first, first_address).operand.arity() == decode_spec(
            second,
            second_address,
        ).operand.arity(),
{
}

/// Decoding reads no more than the opcode and the two bytes after it.
pub proof fn lemma_decode_reads_three_bytes(first: Seq<u8>, second: Seq<u8>, address: u16)
    requires
        byte_at(first, address as int) == byte_at(second, address as int),
        byte_at(first, address + 1) == byte_at(second, address + 1),
        byte_at(first, address + 2) == byte_at(second, address + 2),
    ensures
        decode_spec(first, address) == decode_spec(second, address),
{
}

/// Operand bytes that lie beyond the end of the memory decode as zero: the whole
/// operand where the memory ends right after the opcode, and the high half of a 16-bit
/// operand where it ends one byte later.
pub proof fn lemma_operand_past_the_end(memory: Seq<u8>, address: u16)
    ensures
        decode_spec(memory, address).well_formed(),
        memory.len() <= address + 1 ==> decode_spec(memory, address).operand.value() == 0,
        memory.len() <= address + 2 ==> high_byte(decode_spec(memory, address).operand.value())
            == 0,
        memory.len() <= address ==> decode_spec(memory, address) == (Instruction {
            opcode: 0,
            mnemonic: Mnemonic::Nop,
            operand: Operand::Implied,
            length: 1,
        }),
{
}

/// The operand of a three-byte instruction is the byte at `address + 2` shifted left by
/// eight bits, with the byte at `address + 1` in the low half.
pub proof fn lemma_word_operand_is_little_endian(memory: Seq<u8>, address: u16)
    requires
        operand_bytes(mnemonic_of(byte_at(memory, address as int))) == 2,
    ensures
        decode_spec(memory, address).operand == Operand::Word(
            ((byte_at(memory, address + 2) as u16) << 8) | (byte_at(memory, address + 1) as u16),
        ),
        low_byte(decode_spec(memory, address).operand.value()) == byte_at(memory, address + 1),
        high_byte(decode_spec(memory, address).operand.value()) == byte_at(memory, address + 2),
{
    lemma_word_is_shift_or(byte_at(memory, address + 1), byte_at(memory, address + 2));
}

/// The opcode map follows the encoding of the processor. A move lies in the second
/// quarter of the opcodes, and an arithmetic or logic operation on a location in the
/// third, so bits 0 to 2 name what it reads. An immediate load, an increment and a
/// decrement have 6, 4 and 5 in bits 0 to 2, so bits 3 to 5 name what they write. A
/// 16-bit immediate load has 1 in bits 0 to 3, so bits 4 and 5 name its pair.
pub proof fn lemma_opcode_map_follows_encoding(opcode: u8)
    ensures
        mnemonic_of(opcode) == Mnemonic::Mov ==> 0x40 <= opcode < 0x80,
        source_of(mnemonic_of(opcode), opcode) is Some && mnemonic_of(opcode) != Mnemonic::Mov
            ==> 0x80 <= opcode < 0xc0,
        mnemonic_of(opcode) == Mnemonic::Mvi ==> opcode < 0x40 && opcode % 8 == 6,
        mnemonic_of(opcode) == Mnemonic::Inr ==> opcode < 0x40 && opcode % 8 == 4,
        mnemonic_of(opcode) == Mnemonic::Dcr ==> opcode < 0x40 && opcode % 8 == 5,
        mnemonic_of(opcode) == Mnemonic::Lxi <==> opcode < 0x40 && opcode % 16 == 1,
        mnemonic_of(opcode) == Mnemonic::Hlt <==> opcode == 0x76,
        mnemonic_of(opcode) == Mnemonic::Jmp <==> opcode == 0xc3,
        mnemonic_of(opcode) == Mnemonic::Call <==> opcode == 0xcd,
        mnemonic_of(opcode) == Mnemonic::Ret <==> opcode == 0xc9,
{
}

} // verus!
