use crate::instruction::{
    decode, decode_spec, destination_of, pair_of, source_of, Instruction, Location, Operand,
    Register, RegisterPair,
};
use crate::memory::{byte_at, high_byte, low_byte, MEMORY_SIZE};
use crate::table::{name_of, Mnemonic};
use vstd::prelude::*;
use vstd::string::*;

verus! {

/// The sixteen hexadecimal digits, in order.
pub open spec fn hex_digits() -> Seq<char> {
    "0123456789abcdef"@
}

/// `value` as two hexadecimal digits, the high one first.
pub open spec fn hex_byte(value: u8) -> Seq<char> {
    seq![hex_digits()[(value / 16) as int], hex_digits()[(value % 16) as int]]
}

/// `value` as four hexadecimal digits, the highest first.
pub open spec fn hex_word(value: u16) -> Seq<char> {
    hex_byte(high_byte(value)) + hex_byte(low_byte(value))
}

/// The name of a location in a listing; the memory byte at H:L is `M`.
pub open spec fn location_name(location: Location) -> Seq<char> {
    match location {
        Location::Register(Register::A) => "A"@,
        Location::Register(Register::B) => "B"@,
        Location::Register(Register::C) => "C"@,
        Location::Register(Register::D) => "D"@,
        Location::Register(Register::E) => "E"@,
        Location::Register(Register::H) => "H"@,
        Location::Register(Register::L) => "L"@,
        Location::Memory => "M"@,
    }
}

/// The name of a register pair in a listing: that of its first register.
pub open spec fn pair_name(pair: RegisterPair) -> Seq<char> {
    match pair {
        RegisterPair::Bc => "B"@,
        RegisterPair::De => "D"@,
        RegisterPair::Hl => "H"@,
        RegisterPair::Sp => "SP"@,
        RegisterPair::Psw => "PSW"@,
    }
}

/// What follows the mnemonic for the operands that the opcode itself names: a space and
/// the registers, the accumulator of a direct load or store, or the number of a restart.
pub open spec fn arguments(mnemonic: Mnemonic, opcode: u8) -> Seq<char> {
    match (
        destination_of(mnemonic, opcode),
        source_of(mnemonic, opcode),
        pair_of(mnemonic, opcode),
    ) {
        (Some(destination), Some(source), _) => " "@ + location_name(destination) + ","@
            + location_name(source),
        (Some(destination), None, _) => " "@ + location_name(destination),
        (None, Some(source), _) => " "@ + location_name(source),
        (None, None, Some(pair)) => " "@ + pair_name(pair),
        (None, None, None) => match mnemonic {
            Mnemonic::Sta | Mnemonic::Lda => " A"@,
            Mnemonic::Rst => " "@ + seq![hex_digits()[((opcode / 8) % 8) as int]],
            _ => Seq::empty(),
        },
    }
}

/// The operand bytes as the memory holds them: two digits each, low byte first, a space
/// between two.
pub open spec fn raw_operand(operand: Operand) -> Seq<char> {
    match operand {
        Operand::Implied => Seq::empty(),
        Operand::Byte(byte) => hex_byte(byte),
        Operand::Word(word) => hex_byte(low_byte(word)) + " "@ + hex_byte(high_byte(word)),
    }
}

/// The operand as a reader takes it: a tab, `$` and the value, a 16-bit one with its
/// high byte first.
pub open spec fn shown_operand(operand: Operand) -> Seq<char> {
    match operand {
        Operand::Implied => Seq::empty(),
        Operand::Byte(byte) => "\t$"@ + hex_byte(byte),
        Operand::Word(word) => "\t$"@ + hex_word(word),
    }
}

/// The line of a listing for `instruction` at `address`: the address in four digits, a
/// space, the opcode in two, a space, the operand bytes, a tab, the mnemonic with its
/// registers, and the operand.
pub open spec fn render_spec(instruction: Instruction, address: u16) -> Seq<char> {
    hex_word(address) + " "@ + hex_byte(instruction.opcode) + " "@ + raw_operand(
        instruction.operand,
    ) + "\t"@ + name_of(instruction.mnemonic) + arguments(
        instruction.mnemonic,
        instruction.opcode,
    ) + shown_operand(instruction.operand)
}

/// The lines of the listing of `memory` from `address` on: one for each instruction in
/// turn, up to the end of the memory or of the address space, or up to and with the
/// first undefined opcode.
pub open spec fn listing_from(memory: Seq<u8>, address: int) -> Seq<Seq<char>>
    decreases
        if address < MEMORY_SIZE {
            MEMORY_SIZE - address
        } else {
            0
        },
{
    if 0 <= address < memory.len() && address < MEMORY_SIZE {
        let instruction = decode_spec(memory, address as u16);
        let line = render_spec(instruction, address as u16);
        if instruction.length == 0 {
            seq![line]
        } else {
            seq![line] + listing_from(memory, address + instruction.length)
        }
    } else {
        Seq::empty()
    }
}

/// The texts of `lines`.
pub open spec fn texts(lines: Seq<String>) -> Seq<Seq<char>> {
    lines.map_values(|line: String| line@)
}

fn push_hex_digit(text: &mut String, value: u8)
    requires
        value < 16,
    ensures
        final(text)@ == old(text)@.push(hex_digits()[value as int]),
{
    let digits = "0123456789abcdef";
    proof {
        reveal_strlit("0123456789abcdef");
        assert(vstd::utf8::is_ascii_chars(digits@));
    }
    let start = value as usize;
    let digit = digits.substring_ascii(start, start + 1);
    assert(digit@ =~= seq![hex_digits()[value as int]]);
    text.append(digit);
    assert(text@ =~= old(text)@.push(hex_digits()[value as int]));
}

fn push_hex_byte(text: &mut String, value: u8)
    ensures
        final(text)@ == old(text)@ + hex_byte(value),
{
    push_hex_digit(text, value / 16);
    push_hex_digit(text, value % 16);
    assert(text@ =~= old(text)@ + hex_byte(value));
}

fn push_hex_word(text: &mut String, value: u16)
    ensures
        final(text)@ == old(text)@ + hex_word(value),
{
    push_hex_byte(text, (value / 256) as u8);
    push_hex_byte(text, (value % 256) as u8);
    assert(text@ =~= old(text)@ + hex_word(value));
}

fn name_of_location(location: Location) -> (name: &'static str)
    ensures
        name@ == location_name(location),
{
    match location {
        Location::Register(Register::A) => "A",
        Location::Register(Register::B) => "B",
        Location::Register(Register::C) => "C",
        Location::Register(Register::D) => "D",
        Location::Register(Register::E) => "E",
        Location::Register(Register::H) => "H",
        Location::Register(Register::L) => "L",
        Location::Memory => "M",
    }
}

fn name_of_pair(pair: RegisterPair) -> (name: &'static str)
    ensures
        name@ == pair_name(pair),
{
    match pair {
        RegisterPair::Bc => "B",
        RegisterPair::De => "D",
        RegisterPair::Hl => "H",
        RegisterPair::Sp => "SP",
        RegisterPair::Psw => "PSW",
    }
}

fn push_arguments(text: &mut String, instruction: &Instruction)
    ensures
        final(text)@ == old(text)@ + arguments(instruction.mnemonic, instruction.opcode),
{
    match (instruction.destination(), instruction.source(), instruction.pair()) {
        (Some(destination), Some(source), _) => {
            text.append(" ");
            text.append(name_of_location(destination));
            text.append(",");
            text.append(name_of_location(source));
        },
        (Some(destination), None, _) => {
            text.append(" ");
            text.append(name_of_location(destination));
        },
        (None, Some(source), _) => {
            text.append(" ");
            text.append(name_of_location(source));
        },
        (None, None, Some(pair)) => {
            text.append(" ");
            text.append(name_of_pair(pair));
        },
        (None, None, None) => match instruction.mnemonic {
            Mnemonic::Sta | Mnemonic::Lda => {
                text.append(" A");
            },
            Mnemonic::Rst => {
                text.append(" ");
                push_hex_digit(text, (instruction.opcode / 8) % 8);
            },
            _ => {},
        },
    }
    assert(text@ =~= old(text)@ + arguments(instruction.mnemonic, instruction.opcode));
}

fn push_raw_operand(text: &mut String, operand: Operand)
    ensures
        final(text)@ == old(text)@ + raw_operand(operand),
{
    match operand {
        Operand::Implied => {},
        Operand::Byte(byte) => {
            push_hex_byte(text, byte);
        },
        Operand::Word(word) => {
            push_hex_byte(text, (word % 256) as u8);
            text.append(" ");
            push_hex_byte(text, (word / 256) as u8);
        },
    }
    assert(text@ =~= old(text)@ + raw_operand(operand));
}

fn push_shown_operand(text: &mut String, operand: Operand)
    ensures
        final(text)@ == old(text)@ + shown_operand(operand),
{
    match operand {
        Operand::Implied => {},
        Operand::Byte(byte) => {
            text.append("\t$");
            push_hex_byte(text, byte);
        },
        Operand::Word(word) => {
            text.append("\t$");
            push_hex_word(text, word);
        },
    }
    assert(text@ =~= old(text)@ + shown_operand(operand));
}

/// Renders the line of a listing for `instruction` at `address`. The text depends on
/// these two values alone.
pub fn render(instruction: &Instruction, address: u16) -> (text: String)
    ensures
        text@ == render_spec(*instruction, address),
{
    let mut text = String::new();
    push_hex_word(&mut text, address);
    text.append(" ");
    push_hex_byte(&mut text, instruction.opcode);
    text.append(" ");
    push_raw_operand(&mut text, instruction.operand);
    text.append("\t");
    text.append(instruction.mnemonic.name());
    push_arguments(&mut text, instruction);
    push_shown_operand(&mut text, instruction.operand);
    assert(text@ =~= render_spec(*instruction, address));
    text
}

/// Decodes the instruction at `pc` and renders its line. Returns the line and the
/// length of the instruction, which is 0 where the opcode is undefined.
pub fn disassemble(pc: u16, buffer: &Vec<u8>) -> (result: (String, u16))
    ensures
        result.0@ == render_spec(decode_spec(buffer@, pc), pc),
        result.1 == decode_spec(buffer@, pc).length,
        result.1 <= 3,
{
    let instruction = decode(buffer, pc);
    (render(&instruction, pc), instruction.length)
}

/// Lists `buffer` from address 0: the line of each instruction in turn, up to the end
/// of the buffer or of the address space. An undefined opcode ends the listing after
/// its own line.
pub fn listing(buffer: &Vec<u8>) -> (lines: Vec<String>)
    ensures
        texts(lines@) == listing_from(buffer@, 0),
{
    let mut lines: Vec<String> = Vec::new();
    let mut address: usize = 0;
    while address < buffer.len() && address < MEMORY_SIZE
        invariant
            address <= MEMORY_SIZE + 3,
            texts(lines@) + listing_from(buffer@, address as int) == listing_from(buffer@, 0),
        decreases MEMORY_SIZE + 3 - address,
    {
        let (line, length) = disassemble(address as u16, buffer);
        proof {
            assert(texts(lines@.push(line)) =~= texts(lines@) + seq![line@]);
        }
        lines.push(line);
        if length == 0 {
            return lines;
        }
        address += length as usize;
    }
    proof {
        assert(texts(lines@) =~= listing_from(buffer@, 0));
    }
    lines
}

/// The line of an instruction depends on its address, its opcode and the two bytes
/// after the opcode, and on nothing else: two memories that agree there give the same
/// line, character for character. So does the same memory read twice.
pub proof fn lemma_line_depends_on_three_bytes(first: Seq<u8>, second: Seq<u8>, address: u16)
    requires
        byte_at(first, address as int) == byte_at(second, address as int),
        byte_at(first, address + 1) == byte_at(second, address + 1),
        byte_at(first, address + 2) == byte_at(second, address + 2),
    ensures
        render_spec(decode_spec(first, address), address) == render_spec(
            decode_spec(second, address),
            address,
        ),
{
}

/// Every line begins with the four digits of the address, a space, the two digits of
/// the opcode and a space.
pub proof fn lemma_line_begins_with_address_and_opcode(instruction: Instruction, address: u16)
    ensures
        render_spec(instruction, address).len() >= 9,
        render_spec(instruction, address).subrange(0, 4) == hex_word(address),
        render_spec(instruction, address)[4] == ' ',
        render_spec(instruction, address).subrange(5, 7) == hex_byte(instruction.opcode),
        render_spec(instruction, address)[7] == ' ',
{
    reveal_strlit(" ");
    reveal_strlit("\t");
    let head = hex_word(address) + " "@ + hex_byte(instruction.opcode) + " "@;
    let tail = raw_operand(instruction.operand) + "\t"@ + name_of(instruction.mnemonic)
        + arguments(instruction.mnemonic, instruction.opcode) + shown_operand(
        instruction.operand,
    );
    assert(render_spec(instruction, address) =~= head + tail);
    assert(head.len() == 8);
    assert(tail.len() >= 1);
    assert(render_spec(instruction, address).subrange(0, 4) =~= hex_word(address));
    assert(render_spec(instruction, address).subrange(5, 7) =~= hex_byte(instruction.opcode));
}

/// A listing is empty only for an empty buffer. Its first line is that of the
/// instruction at address 0, and where that opcode is undefined it is the only line.
pub proof fn lemma_listing_starts_at_zero(memory: Seq<u8>)
    ensures
        listing_from(memory, 0).len() == 0 <==> memory.len() == 0,
        memory.len() > 0 ==> listing_from(memory, 0)[0] == render_spec(decode_spec(memory, 0), 0),
        memory.len() > 0 && decode_spec(memory, 0).length == 0 ==> listing_from(memory, 0).len()
            == 1,
{
}

} // verus!
