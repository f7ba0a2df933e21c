use vstd::prelude::*;

use crate::table::Mnemonic::{
    Adc, Add, Adi, Ana, Ani, Call, Cm, Cma, Cmc, Cmp, Cnc, Cnz, Cpe, Cpi, Cz, Daa, Dad, Dcr,
    Dcx, Ei, Hlt, In, Inr, Inx, Jc, Jm, Jmp, Jnc, Jnz, Jpo, Jz, Lda, Ldax, Lhld, Lxi, Mov, Mvi,
    Nop, Ora, Ori, Out, Pchl, Pop, Push, Rar, Rc, Reserved, Ret, Rim, Rlc, Rm, Rnc, Rnz, Rp,
    Rpo, Rrc, Rst, Rz, Sbb, Sbi, Shld, Sim, Sta, Stax, Stc, Sub, Sui, Undefined, Xchg, Xra, Xri,
    Xthl,
};

verus! {

/// The name of an operation of the processor, without its operands.
#[derive(Clone, Copy, Debug, PartialEq, Eq, Structural)]
pub enum Mnemonic {
    // Data transfer.
    Mov,
    Mvi,
    Lxi,
    Lda,
    Sta,
    Lhld,
    Shld,
    Ldax,
    Stax,
    Xchg,
    // Arithmetic.
    Add,
    Adc,
    Sub,
    Sbb,
    Inr,
    Dcr,
    Inx,
    Dcx,
    Dad,
    Daa,
    Adi,
    Sui,
    Sbi,
    // Logic, compare and rotate.
    Ana,
    Xra,
    Ora,
    Cmp,
    Ani,
    Xri,
    Ori,
    Cpi,
    Rlc,
    Rrc,
    Rar,
    Cma,
    Cmc,
    Stc,
    // Jumps, calls and returns.
    Jmp,
    Jnz,
    Jz,
    Jnc,
    Jc,
    Jpo,
    Jm,
    Pchl,
    Call,
    Cnz,
    Cz,
    Cnc,
    Cpe,
    Cm,
    Ret,
    Rnz,
    Rz,
    Rnc,
    Rc,
    Rpo,
    Rp,
    Rm,
    Rst,
    // Stack, input/output and machine control.
    Push,
    Pop,
    Xthl,
    In,
    Out,
    Ei,
    Hlt,
    Nop,
    Rim,
    Sim,
    /// An encoding without an operation of its own that still occupies one byte;
    /// listings show it as `-`.
    Reserved,
    /// An opcode for which no operation is modelled.
    Undefined,
}

/// The opcode map: entry `n` names the operation that opcode `n` selects.
pub const OPCODES: [Mnemonic; 256] = [
    // 0x00
    Nop, Lxi, Stax, Inx, Inr, Dcr, Mvi, Rlc,
    Reserved, Dad, Ldax, Dcx, Inr, Dcr, Mvi, Rrc,
    Reserved, Lxi, Stax, Inx, Inr, Dcr, Mvi, Undefined,
    Reserved, Dad, Ldax, Dcx, Inr, Dcr, Mvi, Rar,
    Rim, Lxi, Shld, Inx, Inr, Dcr, Mvi, Daa,
    Reserved, Dad, Lhld, Dcx, Inr, Undefined, Mvi, Cma,
    Sim, Lxi, Sta, Undefined, Inr, Dcr, Mvi, Stc,
    Reserved, Dad, Lda, Undefined, Inr, Dcr, Mvi, Cmc,
    // 0x40
    Mov, Mov, Mov, Mov, Mov, Mov, Mov, Mov,
    Mov, Mov, Mov, Mov, Mov, Mov, Mov, Mov,
    Mov, Mov, Undefined, Undefined, Mov, Undefined, Mov, Mov,
    Undefined, Mov, Undefined, Mov, Undefined, Undefined, Mov, Mov,
    Mov, Mov, Mov, Mov, Mov, Mov, Mov, Mov,
    Mov, Mov, Undefined, Undefined, Mov, Mov, Mov, Mov,
    Mov, Mov, Mov, Mov, Mov, Undefined, Hlt, Mov,
    Mov, Mov, Mov, Mov, Mov, Mov, Mov, Mov,
    // 0x80
    Add, Add, Add, Add, Add, Add, Add, Undefined,
    Adc, Undefined, Adc, Adc, Undefined, Undefined, Adc, Undefined,
    Sub, Undefined, Undefined, Undefined, Sub, Undefined, Undefined, Sub,
    Sbb, Sbb, Sbb, Sbb, Undefined, Sbb, Sbb, Undefined,
    Ana, Undefined, Undefined, Ana, Undefined, Undefined, Ana, Ana,
    Ana, Undefined, Xra, Undefined, Undefined, Undefined, Undefined, Xra,
    Ora, Undefined, Undefined, Ora, Ora, Undefined, Ora, Undefined,
    Cmp, Undefined, Undefined, Cmp, Cmp, Undefined, Cmp, Undefined,
    // 0xc0
    Rnz, Pop, Jnz, Jmp, Cnz, Push, Adi, Undefined,
    Rz, Ret, Jz, Undefined, Cz, Call, Undefined, Undefined,
    Rnc, Pop, Jnc, Out, Cnc, Push, Sui, Undefined,
    Rc, Undefined, Jc, In, Undefined, Undefined, Sbi, Undefined,
    Rpo, Pop, Jpo, Xthl, Undefined, Push, Ani, Undefined,
    Undefined, Pchl, Undefined, Xchg, Cpe, Undefined, Xri, Undefined,
    Rp, Pop, Undefined, Undefined, Undefined, Push, Ori, Undefined,
    Rm, Undefined, Jm, Ei, Cm, Undefined, Cpi, Rst,
];

/// The operation that `opcode` selects.
pub open spec fn mnemonic_of(opcode: u8) -> Mnemonic {
    OPCODES[opcode as int]
}

/// The number of operand bytes that follow the opcode of `mnemonic`: two for a 16-bit
/// immediate or address, one for an 8-bit immediate or a device number, none otherwise.
pub open spec fn operand_bytes(mnemonic: Mnemonic) -> nat {
    match mnemonic {
        Lxi | Lda | Sta | Lhld | Shld => 2,
        Jmp | Jnz | Jz | Jnc | Jc | Jpo | Jm => 2,
        Call | Cnz | Cz | Cnc | Cpe | Cm => 2,
        Mvi | Adi | Sui | Sbi | Ani | Xri | Ori | Cpi | In | Out => 1,
        _ => 0,
    }
}

/// The number of bytes that an instruction of `mnemonic` occupies, opcode included.
/// It is 0 for `Undefined` alone.
pub open spec fn encoded_length(mnemonic: Mnemonic) -> nat {
    if mnemonic == Undefined {
        0
    } else {
        1 + operand_bytes(mnemonic)
    }
}

/// The text of `mnemonic` as a listing shows it.
pub open spec fn name_of(mnemonic: Mnemonic) -> Seq<char> {
    match mnemonic {
            Mov => "MOV"@,
            Mvi => "MVI"@,
            Lxi => "LXI"@,
            Lda => "LDA"@,
            Sta => "STA"@,
            Lhld => "LHLD"@,
            Shld => "SHLD"@,
            Ldax => "LDAX"@,
            Stax => "STAX"@,
            Xchg => "XCHG"@,
            Add => "ADD"@,
            Adc => "ADC"@,
            Sub => "SUB"@,
            Sbb => "SBB"@,
            Inr => "INR"@,
            Dcr => "DCR"@,
            Inx => "INX"@,
            Dcx => "DCX"@,
            Dad => "DAD"@,
            Daa => "DAA"@,
            Adi => "ADI"@,
            Sui => "SUI"@,
            Sbi => "SBI"@,
            Ana => "ANA"@,
            Xra => "XRA"@,
            Ora => "ORA"@,
            Cmp => "CMP"@,
            Ani => "ANI"@,
            Xri => "XRI"@,
            Ori => "ORI"@,
            Cpi => "CPI"@,
            Rlc => "RLC"@,
            Rrc => "RRC"@,
            Rar => "RAR"@,
            Cma => "CMA"@,
            Cmc => "CMC"@,
            Stc => "STC"@,
            Jmp => "JMP"@,
            Jnz => "JNZ"@,
            Jz => "JZ"@,
            Jnc => "JNC"@,
            Jc => "JC"@,
            Jpo => "JPO"@,
            Jm => "JM"@,
            Pchl => "PCHL"@,
            Call => "CALL"@,
            Cnz => "CNZ"@,
            Cz => "CZ"@,
            Cnc => "CNC"@,
            Cpe => "CPE"@,
            Cm => "CM"@,
            Ret => "RET"@,
            Rnz => "RNZ"@,
            Rz => "RZ"@,
            Rnc => "RNC"@,
            Rc => "RC"@,
            Rpo => "RPO"@,
            Rp => "RP"@,
            Rm => "RM"@,
            Rst => "RST"@,
            Push => "PUSH"@,
            Pop => "POP"@,
            Xthl => "XTHL"@,
            In => "IN"@,
            Out => "OUT"@,
            Ei => "EI"@,
            Hlt => "HLT"@,
            Nop => "NOP"@,
            Rim => "RIM"@,
            Sim => "SIM"@,
            Reserved => "-"@,
            Undefined => "???"@,
    }
}

impl Mnemonic {
    /// Looks `opcode` up in the opcode map.
    pub fn of(opcode: u8) -> (mnemonic: Mnemonic)
        ensures
            mnemonic == mnemonic_of(opcode),
    {
        OPCODES[opcode as usize]
    }

    /// The number of operand bytes that follow the opcode.
    pub fn operand_bytes(self) -> (count: u8)
        ensures
            count == operand_bytes(self),
    {
        match self {
            Lxi | Lda | Sta | Lhld | Shld => 2,
            Jmp | Jnz | Jz | Jnc | Jc | Jpo | Jm => 2,
            Call | Cnz | Cz | Cnc | Cpe | Cm => 2,
            Mvi | Adi | Sui | Sbi | Ani | Xri | Ori | Cpi | In | Out => 1,
            _ => 0,
        }
    }

    /// The number of bytes the instruction occupies, 0 for `Undefined`.
    pub fn encoded_length(self) -> (length: u16)
        ensures
            length == encoded_length(self),
            length <= 3,
            length == 0 <==> self == Undefined,
    {
        match self {
            Undefined => 0,
            _ => 1 + (self.operand_bytes() as u16),
        }
    }

    /// The text of the mnemonic as a listing shows it.
    pub fn name(self) -> (text: &'static str)
        ensures
            text@ == name_of(self),
    {
        match self {
            Mov => "MOV",
            Mvi => "MVI",
            Lxi => "LXI",
            Lda => "LDA",
            Sta => "STA",
            Lhld => "LHLD",
            Shld => "SHLD",
            Ldax => "LDAX",
            Stax => "STAX",
            Xchg => "XCHG",
            Add => "ADD",
            Adc => "ADC",
            Sub => "SUB",
            Sbb => "SBB",
            Inr => "INR",
            Dcr => "DCR",
            Inx => "INX",
            Dcx => "DCX",
            Dad => "DAD",
            Daa => "DAA",
            Adi => "ADI",
            Sui => "SUI",
            Sbi => "SBI",
            Ana => "ANA",
            Xra => "XRA",
            Ora => "ORA",
            Cmp => "CMP",
            Ani => "ANI",
            Xri => "XRI",
            Ori => "ORI",
            Cpi => "CPI",
            Rlc => "RLC",
            Rrc => "RRC",
            Rar => "RAR",
            Cma => "CMA",
            Cmc => "CMC",
            Stc => "STC",
            Jmp => "JMP",
            Jnz => "JNZ",
            Jz => "JZ",
            Jnc => "JNC",
            Jc => "JC",
            Jpo => "JPO",
            Jm => "JM",
            Pchl => "PCHL",
            Call => "CALL",
            Cnz => "CNZ",
            Cz => "CZ",
            Cnc => "CNC",
            Cpe => "CPE",
            Cm => "CM",
            Ret => "RET",
            Rnz => "RNZ",
            Rz => "RZ",
            Rnc => "RNC",
            Rc => "RC",
            Rpo => "RPO",
            Rp => "RP",
            Rm => "RM",
            Rst => "RST",
            Push => "PUSH",
            Pop => "POP",
            Xthl => "XTHL",
            In => "IN",
            Out => "OUT",
            Ei => "EI",
            Hlt => "HLT",
            Nop => "NOP",
            Rim => "RIM",
            Sim => "SIM",
            Reserved => "-",
            Undefined => "???",
        }
    }
}

} // verus!
