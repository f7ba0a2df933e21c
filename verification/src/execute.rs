use crate::alu::{combine, combined, decrement, increment, predecessor, successor};
use crate::cpu::{State, Status};
use crate::instruction::{
    decode, decode_spec, destination_in, destination_location, pair_in, selected_pair,
    source_in, source_location, Instruction, Location,
};
use crate::memory::{
    byte_at, high_byte, lemma_word_of_halves, low_byte, word, Memory, MEMORY_SIZE,
};
use crate::table::Mnemonic;
use vstd::prelude::*;

verus! {

/// `value` brought into the 16-bit address space: addresses wrap round at both ends.
pub open spec fn wrapped(value: int) -> u16 {
    (value % 0x1_0000) as u16
}

/// What `location` holds: the register, or the byte of `memory` at the address H:L.
pub open spec fn fetched(state: State, memory: Seq<u8>, location: Location) -> u8 {
    match location {
        Location::Register(register) => state.register(register),
        Location::Memory => byte_at(memory, state.hl() as int),
    }
}

/// The state and the memory after `value` was put into `location`: into the register,
/// or into the byte of `memory` at the address H:L.
pub open spec fn stored(state: State, memory: Seq<u8>, location: Location, value: u8) -> (
    State,
    Seq<u8>,
) {
    match location {
        Location::Register(register) => (state.with_register(register, value), memory),
        Location::Memory => (state, memory.update(state.hl() as int, value)),
    }
}

/// The memory after the 16-bit `value` was pushed on a stack whose top is `sp`: the
/// high half goes to `sp - 1` and the low half to `sp - 2`.
pub open spec fn pushed(memory: Seq<u8>, sp: u16, value: u16) -> Seq<u8> {
    memory.update(wrapped(sp - 1) as int, high_byte(value)).update(
        wrapped(sp - 2) as int,
        low_byte(value),
    )
}

/// The 16-bit value on top of a stack whose top is `sp`: the low half is at `sp` and
/// the high half at `sp + 1`.
pub open spec fn top_of_stack(memory: Seq<u8>, sp: u16) -> u16 {
    word(byte_at(memory, sp as int), byte_at(memory, wrapped(sp + 1) as int))
}

/// The registers and the memory after `instruction` was carried out, the status left
/// aside.
///
/// * An undefined opcode and `HLT` set the program counter to 0 and change nothing else.
/// * `JMP` sets the program counter to its operand.
/// * `CALL` pushes the address of the next instruction and goes to its operand.
/// * `RET` pops the program counter.
/// * `LXI` puts its operand into a register pair or the stack pointer.
/// * `MVI` puts its operand byte into a register or the memory byte at H:L.
/// * `MOV` copies one location to another.
/// * `ADD`, `ADC`, `SUB`, `SBB`, `ANA`, `XRA`, `ORA` combine the accumulator with a
///   location and set the flags; `CMP` sets the flags alone.
/// * `INR` and `DCR` count a location up or down and set all flags but the carry.
/// * Every other instruction does nothing.
///
/// But for the first four, the program counter then moves on by the length of the
/// instruction.
pub open spec fn effect(state: State, instruction: Instruction, memory: Seq<u8>) -> (
    State,
    Seq<u8>,
) {
    let opcode = instruction.opcode;
    let operand = instruction.operand.value();
    let after = wrapped(state.pc + instruction.length);
    let moved = State { pc: after, ..state };
    match instruction.mnemonic {
        Mnemonic::Undefined | Mnemonic::Hlt => (State { pc: 0, ..state }, memory),
        Mnemonic::Jmp => (State { pc: operand, ..state }, memory),
        Mnemonic::Call => (
            State { pc: operand, sp: wrapped(state.sp - 2), ..state },
            pushed(memory, state.sp, after),
        ),
        Mnemonic::Ret => (
            State { pc: top_of_stack(memory, state.sp), sp: wrapped(state.sp + 2), ..state },
            memory,
        ),
        Mnemonic::Lxi => (moved.with_pair(selected_pair(opcode, false), operand), memory),
        Mnemonic::Mvi => stored(moved, memory, destination_location(opcode), low_byte(operand)),
        Mnemonic::Mov => stored(
            moved,
            memory,
            destination_location(opcode),
            fetched(state, memory, source_location(opcode)),
        ),
        Mnemonic::Add
        | Mnemonic::Adc
        | Mnemonic::Sub
        | Mnemonic::Sbb
        | Mnemonic::Ana
        | Mnemonic::Xra
        | Mnemonic::Ora
        | Mnemonic::Cmp => {
            let outcome = combined(
                instruction.mnemonic,
                state.a,
                fetched(state, memory, source_location(opcode)),
                state.flags,
            );
            (State { a: outcome.value, flags: outcome.flags, ..moved }, memory)
        },
        Mnemonic::Inr => {
            let outcome = successor(
                fetched(state, memory, destination_location(opcode)),
                state.flags,
            );
            stored(
                State { flags: outcome.flags, ..moved },
                memory,
                destination_location(opcode),
                outcome.value,
            )
        },
        Mnemonic::Dcr => {
            let outcome = predecessor(
                fetched(state, memory, destination_location(opcode)),
                state.flags,
            );
            stored(
                State { flags: outcome.flags, ..moved },
                memory,
                destination_location(opcode),
                outcome.value,
            )
        },
        _ => (moved, memory),
    }
}

/// The status after a step that left the registers as in `state`: the machine has
/// halted where the program counter is 0, and runs on anywhere else.
pub open spec fn settled(state: State) -> State {
    State {
        status: if state.pc == 0 {
            Status::Halted
        } else {
            Status::Running
        },
        ..state
    }
}

/// The state and the memory after `instruction` was carried out.
pub open spec fn execute_spec(state: State, instruction: Instruction, memory: Seq<u8>) -> (
    State,
    Seq<u8>,
) {
    let (next, written) = effect(state, instruction, memory);
    (settled(next), written)
}

/// The state and the memory after one step: the instruction at the program counter is
/// decoded and carried out.
pub open spec fn step_spec(state: State, memory: Seq<u8>) -> (State, Seq<u8>) {
    execute_spec(state, decode_spec(memory, state.pc), memory)
}

fn forward(address: u16, by: u16) -> (moved: u16)
    ensures
        moved == wrapped(address + by),
{
    ((address as u32 + by as u32) % 0x1_0000) as u16
}

fn backward(address: u16, by: u16) -> (moved: u16)
    ensures
        moved == wrapped(address - by),
{
    if address >= by {
        address - by
    } else {
        (0x1_0000 + address as u32 - by as u32) as u16
    }
}

fn fetch(state: &State, memory: &Memory, location: Location) -> (value: u8)
    ensures
        value == fetched(*state, memory@, location),
{
    match location {
        Location::Register(register) => state.get(register),
        Location::Memory => memory.read(state.address()),
    }
}

fn store(state: &mut State, memory: &mut Memory, location: Location, value: u8)
    ensures
        (*final(state), final(memory)@) == stored(*old(state), old(memory)@, location, value),
{
    match location {
        Location::Register(register) => {
            state.set(register, value);
        },
        Location::Memory => {
            memory.write(state.address(), value);
        },
    }
}

fn call(state: State, after: u16, target: u16, memory: &mut Memory) -> (next: State)
    ensures
        next == (State { pc: target, sp: wrapped(state.sp - 2), ..state }),
        final(memory)@ == pushed(old(memory)@, state.sp, after),
{
    memory.write(backward(state.sp, 1), (after / 256) as u8);
    memory.write(backward(state.sp, 2), (after % 256) as u8);
    let mut next = state;
    next.sp = backward(state.sp, 2);
    next.pc = target;
    next
}

fn ret(state: State, memory: &Memory) -> (next: State)
    ensures
        next == (State {
            pc: top_of_stack(memory@, state.sp),
            sp: wrapped(state.sp + 2),
            ..state
        }),
{
    let low = memory.read(state.sp);
    let high = memory.read(forward(state.sp, 1));
    let mut next = state;
    next.pc = (high as u16) * 256 + (low as u16);
    next.sp = forward(state.sp, 2);
    next
}

fn compute(state: State, moved: State, instruction: &Instruction, memory: &Memory) -> (next:
    State)
    ensures
        next == ({
            let outcome = combined(
                instruction.mnemonic,
                state.a,
                fetched(state, memory@, source_location(instruction.opcode)),
                state.flags,
            );
            State { a: outcome.value, flags: outcome.flags, ..moved }
        }),
{
    let value = fetch(&state, memory, source_in(instruction.opcode));
    let outcome = combine(instruction.mnemonic, state.a, value, state.flags);
    let mut next = moved;
    next.a = outcome.value;
    next.flags = outcome.flags;
    next
}

fn count(state: State, moved: State, instruction: &Instruction, memory: &mut Memory) -> (next:
    State)
    requires
        instruction.mnemonic == Mnemonic::Inr || instruction.mnemonic == Mnemonic::Dcr,
    ensures
        (next, final(memory)@) == ({
            let location = destination_location(instruction.opcode);
            let value = fetched(state, old(memory)@, location);
            let outcome = if instruction.mnemonic == Mnemonic::Inr {
                successor(value, state.flags)
            } else {
                predecessor(value, state.flags)
            };
            stored(State { flags: outcome.flags, ..moved }, old(memory)@, location, outcome.value)
        }),
{
    let location = destination_in(instruction.opcode);
    let value = fetch(&state, memory, location);
    let outcome = match instruction.mnemonic {
        Mnemonic::Inr => increment(value, state.flags),
        _ => decrement(value, state.flags),
    };
    let mut next = moved;
    next.flags = outcome.flags;
    store(&mut next, memory, location, outcome.value);
    next
}

/// Carries out `instruction` on `state` and `memory` and returns the next state. The
/// machine has halted afterwards where the next program counter is 0, whichever
/// instruction brought it there.
pub fn execute(state: State, instruction: &Instruction, memory: &mut Memory) -> (next: State)
    requires
        state.status == Status::Running,
    ensures
        next == execute_spec(state, *instruction, old(memory)@).0,
        final(memory)@ == execute_spec(state, *instruction, old(memory)@).1,
        next.status == Status::Halted <==> next.pc == 0,
{
    let opcode = instruction.opcode;
    let operand = instruction.operand.number();
    let after = forward(state.pc, instruction.length);
    let mut moved = state;
    moved.pc = after;
    let mut next = match instruction.mnemonic {
        Mnemonic::Undefined | Mnemonic::Hlt => {
            let mut stopped = state;
            stopped.pc = 0;
            stopped
        },
        Mnemonic::Jmp => {
            let mut jumped = state;
            jumped.pc = operand;
            jumped
        },
        Mnemonic::Call => call(state, after, operand, memory),
        Mnemonic::Ret => ret(state, memory),
        Mnemonic::Lxi => {
            moved.set_pair(pair_in(opcode, false), operand);
            moved
        },
        Mnemonic::Mvi => {
            store(&mut moved, memory, destination_in(opcode), (operand % 256) as u8);
            moved
        },
        Mnemonic::Mov => {
            let value = fetch(&state, memory, source_in(opcode));
            store(&mut moved, memory, destination_in(opcode), value);
            moved
        },
        Mnemonic::Add
        | Mnemonic::Adc
        | Mnemonic::Sub
        | Mnemonic::Sbb
        | Mnemonic::Ana
        | Mnemonic::Xra
        | Mnemonic::Ora
        | Mnemonic::Cmp => compute(state, moved, instruction, memory),
        Mnemonic::Inr | Mnemonic::Dcr => count(state, moved, instruction, memory),
        _ => moved,
    };
    next.status = if next.pc == 0 {
        Status::Halted
    } else {
        Status::Running
    };
    next
}

/// Runs one step: decodes the instruction at the program counter of `state`, carries it
/// out on `state` and `memory`, and returns the next state. A write to the memory is
/// seen by the next step, which decodes from the same memory.
pub fn step(state: State, memory: &mut Memory) -> (next: State)
    requires
        state.status == Status::Running,
    ensures
        next == step_spec(state, old(memory)@).0,
        final(memory)@ == step_spec(state, old(memory)@).1,
        next.status == Status::Halted <==> next.pc == 0,
{
    let instruction = decode(memory.bytes(), state.pc);
    execute(state, &instruction, memory)
}

/// The machine has halted after a step exactly where the program counter is 0.
pub proof fn lemma_halted_at_zero(state: State, instruction: Instruction, memory: Seq<u8>)
    ensures
        execute_spec(state, instruction, memory).0.status == Status::Halted <==> execute_spec(
            state,
            instruction,
            memory,
        ).0.pc == 0,
{
}

/// An undefined opcode and `HLT` halt the machine and change no register but the
/// program counter, and no byte of the memory.
pub proof fn lemma_halt_changes_nothing_else(
    state: State,
    instruction: Instruction,
    memory: Seq<u8>,
)
    requires
        instruction.mnemonic == Mnemonic::Undefined || instruction.mnemonic == Mnemonic::Hlt,
    ensures
        execute_spec(state, instruction, memory) == (
            State { pc: 0, status: Status::Halted, ..state },
            memory,
        ),
{
}

/// An opcode of length 0 halts the machine: the undefined opcodes are exactly those.
pub proof fn lemma_undefined_opcode_halts(state: State, memory: Seq<u8>)
    requires
        decode_spec(memory, state.pc).length == 0,
    ensures
        step_spec(state, memory) == (State { pc: 0, status: Status::Halted, ..state }, memory),
{
}

/// An instruction that neither jumps nor halts leaves the program counter at the
/// address right after it, which wraps round at the end of the address space.
pub proof fn lemma_program_counter_moves_on(
    state: State,
    instruction: Instruction,
    memory: Seq<u8>,
)
    requires
        instruction.mnemonic != Mnemonic::Undefined,
        instruction.mnemonic != Mnemonic::Hlt,
        instruction.mnemonic != Mnemonic::Jmp,
        instruction.mnemonic != Mnemonic::Call,
        instruction.mnemonic != Mnemonic::Ret,
    ensures
        execute_spec(state, instruction, memory).0.pc == wrapped(state.pc + instruction.length),
{
}

/// A step keeps the size of the memory.
pub proof fn lemma_step_keeps_memory_size(state: State, memory: Seq<u8>)
    requires
        memory.len() == MEMORY_SIZE,
    ensures
        step_spec(state, memory).1.len() == MEMORY_SIZE,
{
}

/// Wrapping brings a value that lies within one address space of the 16-bit range
/// back into it, and leaves a value of that range as it is.
pub proof fn lemma_wrapped(value: int)
    ensures
        0 <= value < 0x1_0000 ==> wrapped(value) == value,
        -0x1_0000 <= value < 0 ==> wrapped(value) == value + 0x1_0000,
        0x1_0000 <= value < 0x2_0000 ==> wrapped(value) == value - 0x1_0000,
{
}

/// A return right after a call comes back to the instruction after the call, with the
/// stack pointer where it was before the call.
pub proof fn lemma_return_undoes_call(
    state: State,
    call: Instruction,
    ret: Instruction,
    memory: Seq<u8>,
)
    requires
        memory.len() == MEMORY_SIZE,
        call.mnemonic == Mnemonic::Call,
        ret.mnemonic == Mnemonic::Ret,
    ensures
        ({
            let (called, written) = effect(state, call, memory);
            let (returned, restored) = effect(called, ret, written);
            &&& called.pc == call.operand.value()
            &&& returned.pc == wrapped(state.pc + call.length)
            &&& returned.sp == state.sp
            &&& restored == written
        }),
{
    let after = wrapped(state.pc + call.length);
    let top = wrapped(state.sp - 2);
    let above = wrapped(state.sp - 1);
    lemma_wrapped(state.sp - 2);
    lemma_wrapped(state.sp - 1);
    lemma_wrapped(top + 1);
    lemma_wrapped(top + 2);
    assert(wrapped(top + 1) == above);
    assert(wrapped(top + 2) == state.sp);
    assert(top != above);
    let written = pushed(memory, state.sp, after);
    assert(byte_at(written, top as int) == low_byte(after));
    assert(byte_at(written, above as int) == high_byte(after));
    lemma_word_of_halves(after);
}

} // verus!
