use crate::instruction::{Register, RegisterPair};
use crate::memory::{high_byte, low_byte, word};
use vstd::prelude::*;

verus! {

/// The five condition bits.
#[derive(Clone, Copy, Debug, PartialEq, Eq, Structural)]
pub struct Flags {
    /// The last result was zero.
    pub zero: bool,
    /// The last addition carried out of bit 7, or the last subtraction borrowed.
    pub carry: bool,
    /// Bit 7 of the last result was set.
    pub sign: bool,
    /// The last result had an even number of set bits.
    pub parity: bool,
    /// The last operation carried out of bit 3.
    pub auxiliary_carry: bool,
}

/// Whether the machine still runs.
#[derive(Clone, Copy, Debug, PartialEq, Eq, Structural)]
pub enum Status {
    Running,
    /// The machine has stopped for good: no instruction is executed from here.
    Halted,
}

/// The registers of the processor.
#[derive(Clone, Copy, Debug, PartialEq, Eq, Structural)]
pub struct State {
    /// The accumulator.
    pub a: u8,
    pub b: u8,
    pub c: u8,
    pub d: u8,
    pub e: u8,
    pub h: u8,
    pub l: u8,
    pub flags: Flags,
    /// The program counter: the address of the next instruction.
    pub pc: u16,
    /// The stack pointer: the address of the top of the stack.
    pub sp: u16,
    pub interrupts_enabled: bool,
    pub status: Status,
}

impl State {
    /// The state in which a session starts: running at address 0, every register zero,
    /// every flag clear.
    pub open spec fn initial() -> State {
        State {
            a: 0,
            b: 0,
            c: 0,
            d: 0,
            e: 0,
            h: 0,
            l: 0,
            flags: Flags {
                zero: false,
                carry: false,
                sign: false,
                parity: false,
                auxiliary_carry: false,
            },
            pc: 0,
            sp: 0,
            interrupts_enabled: false,
            status: Status::Running,
        }
    }

    /// What `register` holds.
    pub open spec fn register(self, register: Register) -> u8 {
        match register {
            Register::A => self.a,
            Register::B => self.b,
            Register::C => self.c,
            Register::D => self.d,
            Register::E => self.e,
            Register::H => self.h,
            Register::L => self.l,
        }
    }

    /// The state with `value` in `register` and everything else as it is.
    pub open spec fn with_register(self, register: Register, value: u8) -> State {
        match register {
            Register::A => State { a: value, ..self },
            Register::B => State { b: value, ..self },
            Register::C => State { c: value, ..self },
            Register::D => State { d: value, ..self },
            Register::E => State { e: value, ..self },
            Register::H => State { h: value, ..self },
            Register::L => State { l: value, ..self },
        }
    }

    /// The address that the pair H:L holds: H is its high half.
    pub open spec fn hl(self) -> u16 {
        word(self.l, self.h)
    }

    /// The state with the 16-bit `value` in `pair`: the high half in the first register
    /// of the pair and the low half in the second, or the whole in the stack pointer.
    /// The accumulator with the flags takes no 16-bit value and stays as it is.
    pub open spec fn with_pair(self, pair: RegisterPair, value: u16) -> State {
        match pair {
            RegisterPair::Bc => State { b: high_byte(value), c: low_byte(value), ..self },
            RegisterPair::De => State { d: high_byte(value), e: low_byte(value), ..self },
            RegisterPair::Hl => State { h: high_byte(value), l: low_byte(value), ..self },
            RegisterPair::Sp => State { sp: value, ..self },
            RegisterPair::Psw => self,
        }
    }

    /// The state in which a session starts.
    pub fn new() -> (state: State)
        ensures
            state == State::initial(),
    {
        State {
            a: 0,
            b: 0,
            c: 0,
            d: 0,
            e: 0,
            h: 0,
            l: 0,
            flags: Flags {
                zero: false,
                carry: false,
                sign: false,
                parity: false,
                auxiliary_carry: false,
            },
            pc: 0,
            sp: 0,
            interrupts_enabled: false,
            status: Status::Running,
        }
    }

    /// What `register` holds.
    pub fn get(&self, register: Register) -> (value: u8)
        ensures
            value == self.register(register),
    {
        match register {
            Register::A => self.a,
            Register::B => self.b,
            Register::C => self.c,
            Register::D => self.d,
            Register::E => self.e,
            Register::H => self.h,
            Register::L => self.l,
        }
    }

    /// Puts `value` into `register`.
    pub fn set(&mut self, register: Register, value: u8)
        ensures
            *final(self) == old(self).with_register(register, value),
    {
        match register {
            Register::A => {
                self.a = value;
            },
            Register::B => {
                self.b = value;
            },
            Register::C => {
                self.c = value;
            },
            Register::D => {
                self.d = value;
            },
            Register::E => {
                self.e = value;
            },
            Register::H => {
                self.h = value;
            },
            Register::L => {
                self.l = value;
            },
        }
    }

    /// The address that the pair H:L holds.
    pub fn address(&self) -> (address: u16)
        ensures
            address == self.hl(),
    {
        (self.h as u16) * 256 + (self.l as u16)
    }

    /// Puts the 16-bit `value` into `pair`.
    pub fn set_pair(&mut self, pair: RegisterPair, value: u16)
        ensures
            *final(self) == old(self).with_pair(pair, value),
    {
        let high = (value / 256) as u8;
        let low = (value % 256) as u8;
        match pair {
            RegisterPair::Bc => {
                self.b = high;
                self.c = low;
            },
            RegisterPair::De => {
                self.d = high;
                self.e = low;
            },
            RegisterPair::Hl => {
                self.h = high;
                self.l = low;
            },
            RegisterPair::Sp => {
                self.sp = value;
            },
            RegisterPair::Psw => {},
        }
    }
}

} // verus!
