use intel8080::cpu::{Flags, State, Status};
use intel8080::execute::{execute, step};
use intel8080::instruction::{decode, Instruction, Operand, Register, RegisterPair};
use intel8080::memory::Memory;
use intel8080::table::Mnemonic;

fn machine(image: &[u8]) -> (State, Memory) {
    (State::new(), Memory::load(&image.to_vec()))
}

fn clear() -> Flags {
    Flags { zero: false, carry: false, sign: false, parity: false, auxiliary_carry: false }
}

#[test]
fn a_session_starts_running_at_zero_with_clear_registers() {
    let state = State::new();
    assert_eq!(state.pc, 0);
    assert_eq!(state.sp, 0);
    assert_eq!(
        (state.a, state.b, state.c, state.d, state.e, state.h, state.l),
        (0, 0, 0, 0, 0, 0, 0)
    );
    assert_eq!(state.flags, clear());
    assert!(!state.interrupts_enabled);
    assert_eq!(state.status, Status::Running);
}

#[test]
fn lxi_sp_loads_the_stack_pointer() {
    let (state, mut memory) = machine(&[0x31, 0x00, 0x20]);
    let next = step(state, &mut memory);
    assert_eq!(next.sp, 0x2000);
    assert_eq!(next.pc, state.pc + 3);
    assert_eq!(next, State { sp: 0x2000, pc: 3, ..state });
}

#[test]
fn mvi_b_loads_register_b() {
    let (state, mut memory) = machine(&[0x06, 0x05]);
    let next = step(state, &mut memory);
    assert_eq!(next.b, 0x05);
    assert_eq!(next.pc, state.pc + 2);
    assert_eq!(next, State { b: 0x05, pc: 2, ..state });
}

#[test]
fn jmp_to_zero_halts_the_machine() {
    let (state, mut memory) = machine(&[0x00, 0xc3, 0x00, 0x00]);
    let state = step(state, &mut memory);
    assert_eq!(state.status, Status::Running);
    assert_eq!(state.pc, 1);
    let next = step(state, &mut memory);
    assert_eq!(next.pc, 0x0000);
    assert_eq!(next.status, Status::Halted);
}

#[test]
fn jmp_goes_to_its_target() {
    let (state, mut memory) = machine(&[0xc3, 0x34, 0x12]);
    let next = step(state, &mut memory);
    assert_eq!(next, State { pc: 0x1234, ..state });
}

#[test]
fn nop_moves_on_by_one() {
    let (state, mut memory) = machine(&[0x00]);
    let next = step(state, &mut memory);
    assert_eq!(next, State { pc: 1, ..state });
}

#[test]
fn hlt_halts_and_keeps_the_registers() {
    let mut memory = Memory::load(&vec![0x00, 0x00, 0x76]);
    let state = State { a: 1, b: 2, h: 3, sp: 0x4000, pc: 2, ..State::new() };
    let next = step(state, &mut memory);
    assert_eq!(next, State { pc: 0, status: Status::Halted, ..state });
}

#[test]
fn an_undefined_opcode_halts_and_keeps_the_registers() {
    for opcode in [0x17u8, 0x2d, 0x87, 0xfd] {
        let mut memory = Memory::load(&vec![0x00, opcode, 0x12, 0x34]);
        let before = memory.bytes().clone();
        let state = State { a: 9, sp: 0x1000, pc: 1, ..State::new() };
        let next = step(state, &mut memory);
        assert_eq!(next, State { pc: 0, status: Status::Halted, ..state });
        assert_eq!(memory.bytes(), &before);
    }
}

#[test]
fn other_instructions_move_on_by_their_length() {
    let cases: [(u8, u16); 12] = [
        (0xfb, 1),
        (0x07, 1),
        (0x09, 1),
        (0x03, 1),
        (0xc5, 1),
        (0xc8, 1),
        (0xc6, 2),
        (0xd3, 2),
        (0xdb, 2),
        (0xc2, 3),
        (0x22, 3),
        (0x3a, 3),
    ];
    for (opcode, length) in cases {
        let mut image = vec![0u8; 0x20];
        image[0x10] = opcode;
        image[0x11] = 0x55;
        image[0x12] = 0x66;
        let mut memory = Memory::load(&image);
        let before = memory.bytes().clone();
        let state = State {
            a: 0x11,
            b: 0x22,
            h: 0x00,
            l: 0x18,
            sp: 0x001c,
            pc: 0x10,
            flags: Flags { carry: true, ..clear() },
            ..State::new()
        };
        let next = step(state, &mut memory);
        assert_eq!(next, State { pc: 0x10 + length, ..state }, "opcode {:02x}", opcode);
        assert_eq!(memory.bytes(), &before);
    }
}

#[test]
fn the_program_counter_wraps_round() {
    let mut image = vec![0u8; 0x1_0000];
    image[0xfffe] = 0x06;
    image[0xffff] = 0x07;
    let mut memory = Memory::load(&image);
    let state = State { pc: 0xfffe, ..State::new() };
    let next = step(state, &mut memory);
    assert_eq!(next, State { b: 7, pc: 0, status: Status::Halted, ..state });

    image[0xffff] = 0x3e;
    image[0x0000] = 0x99;
    let mut memory = Memory::load(&image);
    let state = State { pc: 0xffff, ..State::new() };
    let next = step(state, &mut memory);
    assert_eq!(next, State { a: 0, pc: 1, ..state });
}

#[test]
fn lxi_loads_each_pair() {
    let (state, mut memory) = machine(&[0x01, 0x34, 0x12, 0x11, 0x78, 0x56, 0x21, 0xbc, 0x9a]);
    let state = step(state, &mut memory);
    assert_eq!((state.b, state.c, state.pc), (0x12, 0x34, 3));
    let state = step(state, &mut memory);
    assert_eq!((state.d, state.e, state.pc), (0x56, 0x78, 6));
    let state = step(state, &mut memory);
    assert_eq!((state.h, state.l, state.pc), (0x9a, 0xbc, 9));
    assert_eq!(state.address(), 0x9abc);
    assert_eq!(state.sp, 0);
}

#[test]
fn mvi_loads_each_register_and_the_memory_byte() {
    let image = [
        0x26, 0x01, 0x2e, 0x00, 0x36, 0xee, 0x3e, 0x0a, 0x0e, 0x0c, 0x16, 0x0d, 0x1e, 0x0e,
    ];
    let (mut state, mut memory) = machine(&image);
    for _ in 0..7 {
        state = step(state, &mut memory);
    }
    assert_eq!((state.h, state.l), (0x01, 0x00));
    assert_eq!(memory.read(0x0100), 0xee);
    assert_eq!((state.a, state.c, state.d, state.e), (0x0a, 0x0c, 0x0d, 0x0e));
    assert_eq!(state.pc, 14);
    assert_eq!(state.flags, clear());
}

#[test]
fn mov_copies_between_registers_and_memory() {
    let (state, mut memory) = machine(&[0x41, 0x77, 0x5e, 0x7f]);
    let state = State { a: 0xa1, c: 0xc3, h: 0x02, l: 0x10, ..state };
    let state = step(state, &mut memory);
    assert_eq!(state.b, 0xc3);
    assert_eq!(state.pc, 1);
    let state = step(state, &mut memory);
    assert_eq!(memory.read(0x0210), 0xa1);
    assert_eq!(state.pc, 2);
    let state = step(state, &mut memory);
    assert_eq!(state.e, 0xa1);
    let state = step(state, &mut memory);
    assert_eq!(
        state,
        State { a: 0xa1, b: 0xc3, c: 0xc3, e: 0xa1, h: 0x02, l: 0x10, pc: 4, ..State::new() }
    );
}

#[test]
fn call_pushes_the_return_address_and_ret_pops_it() {
    let mut image = vec![0u8; 0x40];
    image[0x10] = 0xcd;
    image[0x11] = 0x30;
    image[0x12] = 0x00;
    image[0x30] = 0xc9;
    let mut memory = Memory::load(&image);
    let state = State { pc: 0x0010, sp: 0x2400, ..State::new() };
    let called = step(state, &mut memory);
    assert_eq!(called, State { pc: 0x0030, sp: 0x23fe, ..state });
    assert_eq!(memory.read(0x23ff), 0x00);
    assert_eq!(memory.read(0x23fe), 0x13);
    let returned = step(called, &mut memory);
    assert_eq!(returned, State { pc: 0x0013, sp: 0x2400, ..state });
}

#[test]
fn call_stores_the_high_byte_above_the_low_byte() {
    let mut image = vec![0u8; 0x1300];
    image[0x12fd] = 0xcd;
    image[0x12fe] = 0x05;
    image[0x12ff] = 0x00;
    let mut memory = Memory::load(&image);
    let state = State { pc: 0x12fd, sp: 0x0100, ..State::new() };
    let called = step(state, &mut memory);
    assert_eq!(called.pc, 0x0005);
    assert_eq!(called.sp, 0x00fe);
    assert_eq!(memory.read(0x00ff), 0x13);
    assert_eq!(memory.read(0x00fe), 0x00);
}

#[test]
fn the_stack_pointer_wraps_round() {
    let (state, mut memory) = machine(&[0x00, 0xcd, 0x34, 0x12]);
    let state = State { pc: 1, sp: 0x0001, ..state };
    let called = step(state, &mut memory);
    assert_eq!(called.sp, 0xffff);
    assert_eq!(called.pc, 0x1234);
    assert_eq!(memory.read(0x0000), 0x00);
    assert_eq!(memory.read(0xffff), 0x04);

    let mut image = vec![0u8; 0x1_0000];
    image[0x0000] = 0x56;
    image[0x0010] = 0xc9;
    image[0xffff] = 0x78;
    let mut memory = Memory::load(&image);
    let state = State { pc: 0x0010, sp: 0xffff, ..State::new() };
    let returned = step(state, &mut memory);
    assert_eq!(returned.pc, 0x5678);
    assert_eq!(returned.sp, 0x0001);
}

#[test]
fn ret_to_zero_halts_the_machine() {
    let (state, mut memory) = machine(&[0x00, 0xc9]);
    let state = State { pc: 1, sp: 0x0100, ..state };
    let next = step(state, &mut memory);
    assert_eq!(next, State { pc: 0, sp: 0x0102, status: Status::Halted, ..state });
}

#[test]
fn add_sets_value_and_flags() {
    let (state, mut memory) = machine(&[0x80]);
    let state = State { a: 0x3a, b: 0xc6, ..state };
    let next = step(state, &mut memory);
    assert_eq!(next.a, 0x00);
    assert_eq!(
        next.flags,
        Flags { zero: true, carry: true, sign: false, parity: true, auxiliary_carry: true }
    );
    assert_eq!(next.pc, 1);
    assert_eq!(next.b, 0xc6);
}

#[test]
fn add_reads_the_memory_byte_at_hl() {
    let mut image = vec![0u8; 0x200];
    image[0] = 0x86;
    image[0x0123] = 0x70;
    let mut memory = Memory::load(&image);
    let state = State { a: 0x20, h: 0x01, l: 0x23, ..State::new() };
    let next = step(state, &mut memory);
    assert_eq!(next.a, 0x90);
    assert_eq!(
        next.flags,
        Flags { zero: false, carry: false, sign: true, parity: true, auxiliary_carry: false }
    );
}

#[test]
fn adc_and_sbb_take_the_carry() {
    let (state, mut memory) = machine(&[0x88, 0x98]);
    let state = State { a: 0x0f, b: 0x00, flags: Flags { carry: true, ..clear() }, ..state };
    let next = step(state, &mut memory);
    assert_eq!(next.a, 0x10);
    assert_eq!(
        next.flags,
        Flags { zero: false, carry: false, sign: false, parity: false, auxiliary_carry: true }
    );

    let state = State { a: 0x00, b: 0x00, flags: Flags { carry: true, ..clear() }, pc: 1, ..state };
    let next = step(state, &mut memory);
    assert_eq!(next.a, 0xff);
    assert_eq!(
        next.flags,
        Flags { zero: false, carry: true, sign: true, parity: true, auxiliary_carry: false }
    );
}

#[test]
fn sub_of_the_accumulator_from_itself_is_zero() {
    let (state, mut memory) = machine(&[0x97]);
    let state = State { a: 0x3e, ..state };
    let next = step(state, &mut memory);
    assert_eq!(next.a, 0x00);
    assert_eq!(
        next.flags,
        Flags { zero: true, carry: false, sign: false, parity: true, auxiliary_carry: true }
    );
}

#[test]
fn sub_borrows() {
    let (state, mut memory) = machine(&[0x90]);
    let state = State { a: 0x10, b: 0x21, ..state };
    let next = step(state, &mut memory);
    assert_eq!(next.a, 0xef);
    assert_eq!(
        next.flags,
        Flags { zero: false, carry: true, sign: true, parity: false, auxiliary_carry: false }
    );
}

#[test]
fn cmp_sets_the_flags_and_keeps_the_accumulator() {
    let (state, mut memory) = machine(&[0xbb, 0xb8]);
    let state = State { a: 0x0a, e: 0x05, b: 0x0a, ..state };
    let next = step(state, &mut memory);
    assert_eq!(next.a, 0x0a);
    assert_eq!(
        next.flags,
        Flags { zero: false, carry: false, sign: false, parity: true, auxiliary_carry: true }
    );
    let next = step(next, &mut memory);
    assert_eq!(next.a, 0x0a);
    assert_eq!(
        next.flags,
        Flags { zero: true, carry: false, sign: false, parity: true, auxiliary_carry: true }
    );
    assert_eq!(next.pc, 2);
}

#[test]
fn logic_operations_clear_the_carry() {
    let carried = Flags { carry: true, auxiliary_carry: true, ..clear() };
    let (state, mut memory) = machine(&[0xa0, 0xaa, 0xb3, 0xa8]);

    let start = State { a: 0xfc, b: 0x0f, flags: carried, ..state };
    let next = step(start, &mut memory);
    assert_eq!(next.a, 0x0c);
    assert_eq!(
        next.flags,
        Flags { zero: false, carry: false, sign: false, parity: true, auxiliary_carry: true }
    );

    let start = State { a: 0xff, d: 0x0f, flags: carried, pc: 1, ..state };
    let next = step(start, &mut memory);
    assert_eq!(next.a, 0xf0);
    assert_eq!(
        next.flags,
        Flags { zero: false, carry: false, sign: true, parity: true, auxiliary_carry: false }
    );

    let start = State { a: 0x01, e: 0x02, flags: carried, pc: 2, ..state };
    let next = step(start, &mut memory);
    assert_eq!(next.a, 0x03);
    assert_eq!(
        next.flags,
        Flags { zero: false, carry: false, sign: false, parity: true, auxiliary_carry: false }
    );

    let start = State { a: 0xf0, b: 0x33, flags: carried, pc: 3, ..state };
    let next = step(start, &mut memory);
    assert_eq!(next.a, 0x30);
    assert_eq!(next.pc, 4);
}

#[test]
fn inr_and_dcr_keep_the_carry() {
    let (state, mut memory) = machine(&[0x04, 0x05, 0x05]);
    let state = State { b: 0xff, flags: Flags { carry: true, ..clear() }, ..state };
    let next = step(state, &mut memory);
    assert_eq!(next.b, 0x00);
    assert_eq!(
        next.flags,
        Flags { zero: true, carry: true, sign: false, parity: true, auxiliary_carry: true }
    );
    let next = step(next, &mut memory);
    assert_eq!(next.b, 0xff);
    assert_eq!(
        next.flags,
        Flags { zero: false, carry: true, sign: true, parity: true, auxiliary_carry: false }
    );
    let next = step(next, &mut memory);
    assert_eq!(next.b, 0xfe);
    assert_eq!(
        next.flags,
        Flags { zero: false, carry: true, sign: true, parity: false, auxiliary_carry: true }
    );
    assert_eq!(next.pc, 3);
}

#[test]
fn inr_and_dcr_work_on_the_memory_byte_at_hl() {
    let mut image = vec![0u8; 0x300];
    image[0] = 0x34;
    image[1] = 0x35;
    image[2] = 0x35;
    image[0x0280] = 0x0f;
    let mut memory = Memory::load(&image);
    let state = State { h: 0x02, l: 0x80, ..State::new() };
    let next = step(state, &mut memory);
    assert_eq!(memory.read(0x0280), 0x10);
    assert!(next.flags.auxiliary_carry);
    assert!(!next.flags.zero);
    let next = step(next, &mut memory);
    assert_eq!(memory.read(0x0280), 0x0f);
    assert!(!next.flags.auxiliary_carry);
    let next = step(next, &mut memory);
    assert_eq!(memory.read(0x0280), 0x0e);
    assert!(next.flags.auxiliary_carry);
    assert_eq!(next, State { flags: next.flags, pc: 3, ..state });
}

#[test]
fn a_written_opcode_is_decoded_by_the_next_step() {
    let (state, mut memory) = machine(&[0x21, 0x05, 0x00, 0x36, 0x3c, 0x00, 0x76]);
    let state = step(state, &mut memory);
    assert_eq!(state.address(), 0x0005);
    assert_eq!(decode(memory.bytes(), 5).mnemonic, Mnemonic::Nop);
    let state = step(state, &mut memory);
    assert_eq!(state.pc, 5);
    assert_eq!(memory.read(5), 0x3c);
    assert_eq!(decode(memory.bytes(), 5).mnemonic, Mnemonic::Inr);
    let state = step(state, &mut memory);
    assert_eq!(state.a, 0x01);
    assert_eq!(state.pc, 6);
    let state = step(state, &mut memory);
    assert_eq!(state.status, Status::Halted);
}

#[test]
fn step_is_decode_then_execute() {
    let image = vec![0x3e, 0x7f, 0x3c, 0x47, 0x80, 0xcd, 0x09, 0x00, 0x76, 0xc9];
    let mut stepped = Memory::load(&image);
    let mut executed = Memory::load(&image);
    let mut state = State { sp: 0x0100, ..State::new() };
    for _ in 0..7 {
        let instruction = decode(executed.bytes(), state.pc);
        let by_parts = execute(state, &instruction, &mut executed);
        let whole = step(state, &mut stepped);
        assert_eq!(whole, by_parts);
        assert_eq!(stepped.bytes(), executed.bytes());
        state = whole;
    }
    assert_eq!(state.status, Status::Halted);
    assert_eq!((state.a, state.b), (0x00, 0x80));
}

#[test]
fn execute_goes_by_the_instruction_it_is_given() {
    let mut memory = Memory::load(&vec![0x00]);
    let state = State { pc: 0x0200, ..State::new() };
    let jump = Instruction {
        opcode: 0xc3,
        mnemonic: Mnemonic::Jmp,
        operand: Operand::Word(0x4321),
        length: 3,
    };
    assert_eq!(execute(state, &jump, &mut memory), State { pc: 0x4321, ..state });
    let load = Instruction {
        opcode: 0x11,
        mnemonic: Mnemonic::Lxi,
        operand: Operand::Word(0xabcd),
        length: 3,
    };
    assert_eq!(
        execute(state, &load, &mut memory),
        State { d: 0xab, e: 0xcd, pc: 0x0203, ..state }
    );
}

#[test]
fn registers_are_read_and_written_by_name() {
    let mut state = State::new();
    let registers = [
        Register::A,
        Register::B,
        Register::C,
        Register::D,
        Register::E,
        Register::H,
        Register::L,
    ];
    for (index, register) in registers.iter().enumerate() {
        state.set(*register, 0x10 + index as u8);
    }
    assert_eq!(
        (state.a, state.b, state.c, state.d, state.e, state.h, state.l),
        (0x10, 0x11, 0x12, 0x13, 0x14, 0x15, 0x16)
    );
    for (index, register) in registers.iter().enumerate() {
        assert_eq!(state.get(*register), 0x10 + index as u8);
    }
    assert_eq!(state.address(), 0x1516);
}

#[test]
fn pairs_take_the_high_half_first() {
    let mut state = State::new();
    state.set_pair(RegisterPair::Bc, 0x1234);
    state.set_pair(RegisterPair::De, 0x5678);
    state.set_pair(RegisterPair::Hl, 0x9abc);
    state.set_pair(RegisterPair::Sp, 0xdef0);
    assert_eq!((state.b, state.c), (0x12, 0x34));
    assert_eq!((state.d, state.e), (0x56, 0x78));
    assert_eq!((state.h, state.l), (0x9a, 0xbc));
    assert_eq!(state.sp, 0xdef0);
    let before = state;
    state.set_pair(RegisterPair::Psw, 0xffff);
    assert_eq!(state, before);
}
