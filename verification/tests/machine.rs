use stack_vm::error::VmError;
use stack_vm::memory::{Addressable, LinearMemory};
use stack_vm::register::Register;
use stack_vm::vm::{Machine, MEMORY_KILO_BYTES};

fn sig_halt(vm: &mut Machine<LinearMemory>) {
    vm.machine_halted = true;
}

/// Writes `bytes` into memory at consecutive addresses starting from 0.
fn load(machine: &mut Machine<LinearMemory>, bytes: &[u8]) {
    let mut addr: u16 = 0;
    for b in bytes {
        machine.memory.write(addr, *b).unwrap();
        addr += 1;
    }
}

// PUSH 10; PUSH 8; ADDSTACK; POPREG A; SIGNAL 0xF0
const ADDITION_PROGRAM: [u8; 10] = [0x01, 0x0a, 0x01, 0x08, 0x10, 0x00, 0x02, 0x00, 0x0f, 0xf0];

#[test]
fn unknown_instruction() {
    let mut machine = Machine::new();
    machine.memory.write(0, 0xF).unwrap();
    assert!(machine.step().is_err());
}

#[test]
fn out_of_bounds() {
    let mut machine = Machine::new();

    assert!(machine
        .memory
        .write(u16::try_from(MEMORY_KILO_BYTES * 1024 + 1).unwrap(), 0xf)
        .is_err());
}

#[test]
fn addition() {
    let mut machine = Machine::new();
    machine.define_handler(0xf0, sig_halt);

    load(&mut machine, &ADDITION_PROGRAM);

    machine.step().unwrap(); // PUSH 10
    machine.step().unwrap(); // PUSH 8
    machine.step().unwrap(); // ADDSTACK
    machine.step().unwrap(); // POPREGISTER A
    machine.step().unwrap(); // SIGNAL 0xF0

    assert_eq!(machine.get_register(Register::A), 18);
}

#[test]
fn subsequent_addition() {
    let mut machine = Machine::new();
    machine.define_handler(0xf0, sig_halt);

    for _ in 1..=2 {
        load(&mut machine, &ADDITION_PROGRAM);

        machine.step().unwrap(); // PUSH 10
        machine.step().unwrap(); // PUSH 8
        machine.step().unwrap(); // ADDSTACK
        machine.step().unwrap(); // POPREGISTER A
        machine.step().unwrap(); // SIGNAL 0xF0

        assert_eq!(machine.get_register(Register::A), 18);
    }
}

#[test]
fn end_to_end_halt() {
    let mut machine = Machine::new();
    machine.define_handler(0xf0, sig_halt);

    load(&mut machine, &ADDITION_PROGRAM);

    for _ in 0..5 {
        machine.step().unwrap();
    }

    assert_eq!(machine.get_register(Register::A), 18);
    assert!(machine.machine_halted);
}

#[test]
fn repeat_run_matches_first() {
    let mut first: Vec<u16> = Vec::new();
    for run in 0..2 {
        let mut machine = Machine::new();
        machine.define_handler(0xf0, sig_halt);
        load(&mut machine, &ADDITION_PROGRAM);
        for _ in 0..5 {
            machine.step().unwrap();
        }
        let regs = vec![
            machine.get_register(Register::A),
            machine.get_register(Register::B),
            machine.get_register(Register::C),
            machine.get_register(Register::M),
            machine.get_register(Register::SP),
            machine.get_register(Register::PC),
            machine.get_register(Register::BP),
            machine.get_register(Register::FL),
        ];
        if run == 0 {
            first = regs;
        } else {
            assert_eq!(regs, first);
        }
    }
}

#[test]
fn word_roundtrip() {
    let mut machine = Machine::new();
    machine.memory.write_u16(100, 0xABCD).unwrap();
    assert_eq!(machine.memory.read_u16(100).unwrap(), 0xABCD);
    // big-endian: high byte at the lower address
    assert_eq!(machine.memory.read(100).unwrap(), 0xAB);
    assert_eq!(machine.memory.read(101).unwrap(), 0xCD);
}

#[test]
fn bounds_edge() {
    let mut machine = Machine::new();
    let capacity = u16::try_from(machine.memory.capacity()).unwrap();
    assert_eq!(machine.memory.capacity(), MEMORY_KILO_BYTES * 1024);
    assert_eq!(
        machine.memory.write(capacity, 0x55),
        Err(VmError::OutOfBoundsAccess)
    );
    assert_eq!(machine.memory.write(capacity - 1, 0x55), Ok(()));
    assert_eq!(machine.memory.read(capacity - 1).unwrap(), 0x55);
    // a 16-bit write needs room for both bytes
    assert_eq!(
        machine.memory.write_u16(capacity - 1, 0x1234),
        Err(VmError::OutOfBoundsAccess)
    );
}

#[test]
fn push_pop_symmetry() {
    let mut machine = Machine::new();
    machine.push(0x1234).unwrap();
    assert_eq!(machine.get_register(Register::SP), 2);
    assert_eq!(machine.pop().unwrap(), 0x1234);
    assert_eq!(machine.get_register(Register::SP), 0);
}

#[test]
fn pop_underflow() {
    let mut machine = Machine::new();
    assert_eq!(machine.pop(), Err(VmError::StackUnderflow));
    assert_eq!(machine.get_register(Register::SP), 0);
}

#[test]
fn unknown_opcode_skipped() {
    let mut machine = Machine::new();
    machine.memory.write(0, 0xF0).unwrap();
    assert_eq!(machine.step(), Err(VmError::InvalidOpcode));
    assert_eq!(machine.get_register(Register::PC), 2);
    for r in [
        Register::A,
        Register::B,
        Register::C,
        Register::M,
        Register::SP,
        Register::BP,
        Register::FL,
    ] {
        assert_eq!(machine.get_register(r), 0);
    }
}

#[test]
fn unknown_signal() {
    let mut machine = Machine::new();
    // SIGNAL 0xAB with no handler registered
    load(&mut machine, &[0x0f, 0xab]);
    assert_eq!(machine.step(), Err(VmError::UnknownSignal));
    assert!(!machine.machine_halted);
    assert_eq!(machine.get_register(Register::PC), 2);
}

#[test]
fn redefined_handler_replaces() {
    let mut machine = Machine::new();
    machine.define_handler(0xf0, sig_halt);
    machine.define_handler(0xf0, |_vm: &mut Machine<LinearMemory>| {});
    load(&mut machine, &[0x0f, 0xf0]);
    machine.step().unwrap();
    // the replacement handler ran, not the halting one
    assert!(!machine.machine_halted);
}

#[test]
fn handler_mutates_machine() {
    let mut machine = Machine::new();
    machine.define_handler(0x07, |vm: &mut Machine<LinearMemory>| {
        vm.machine_halted = true;
        vm.memory.write(50, 0x99).unwrap();
    });
    load(&mut machine, &[0x0f, 0x07]);
    machine.step().unwrap();
    assert!(machine.machine_halted);
    assert_eq!(machine.memory.read(50).unwrap(), 0x99);
}

#[test]
fn nop_advances_pc_only() {
    let mut machine = Machine::new();
    // fresh memory is zero-filled, and 0x0000 is NOP
    machine.step().unwrap();
    assert_eq!(machine.get_register(Register::PC), 2);
    assert_eq!(machine.get_register(Register::A), 0);
    assert_eq!(machine.get_register(Register::SP), 0);
}

#[test]
fn push_reg_copies_value() {
    let mut machine = Machine::new();
    // PUSH 7; POPREG B; PUSHREG B; POPREG C
    load(&mut machine, &[0x01, 0x07, 0x02, 0x01, 0x03, 0x01, 0x02, 0x02]);
    for _ in 0..4 {
        machine.step().unwrap();
    }
    assert_eq!(machine.get_register(Register::B), 7);
    assert_eq!(machine.get_register(Register::C), 7);
}

#[test]
fn jmp_sets_pc() {
    let mut machine = Machine::new();
    // PUSH 8; POPREG M; JMP M; then at 8: PUSH 42; POPREG A
    load(&mut machine, &[0x01, 0x08, 0x02, 0x03, 0x20, 0x03, 0x00, 0x00]);
    machine.memory.write(8, 0x01).unwrap();
    machine.memory.write(9, 0x2a).unwrap();
    machine.memory.write(10, 0x02).unwrap();
    machine.memory.write(11, 0x00).unwrap();
    machine.step().unwrap(); // PUSH 8
    machine.step().unwrap(); // POPREG M
    machine.step().unwrap(); // JMP M
    assert_eq!(machine.get_register(Register::PC), 8);
    machine.step().unwrap(); // PUSH 42
    machine.step().unwrap(); // POPREG A
    assert_eq!(machine.get_register(Register::A), 42);
    assert_eq!(machine.get_register(Register::PC), 12);
}

#[test]
fn add_reg_wraps() {
    let mut machine = Machine::new();
    let mut program: Vec<u8> = vec![
        0x01, 0xff, // PUSH 255
        0x02, 0x00, // POPREG A
    ];
    for _ in 0..8 {
        program.extend_from_slice(&[0x11, 0x00]); // ADDREG A A
    }
    program.extend_from_slice(&[
        0x01, 0xff, // PUSH 255
        0x02, 0x01, // POPREG B
        0x11, 0x10, // ADDREG A B -> A == 0xFFFF
        0x01, 0x02, // PUSH 2
        0x02, 0x01, // POPREG B
        0x11, 0x10, // ADDREG A B -> wraps to 1
    ]);
    load(&mut machine, &program);
    for _ in 0..16 {
        machine.step().unwrap();
    }
    assert_eq!(machine.get_register(Register::A), 1);
}

#[test]
fn add_stack_partial_failure() {
    let mut machine = Machine::new();
    // PUSH 5; ADDSTACK -- the second pop underflows
    load(&mut machine, &[0x01, 0x05, 0x10, 0x00]);
    machine.step().unwrap();
    assert_eq!(machine.get_register(Register::SP), 2);
    assert_eq!(machine.step(), Err(VmError::StackUnderflow));
    // the first pop's effect on SP stays applied
    assert_eq!(machine.get_register(Register::SP), 0);
    assert_eq!(machine.get_register(Register::PC), 4);
}

#[test]
fn stack_beyond_capacity() {
    let mut machine = Machine::new();
    let mut program: Vec<u8> = vec![
        0x01, 0xff, // PUSH 255
        0x02, 0x00, // POPREG A
    ];
    for _ in 0..6 {
        program.extend_from_slice(&[0x11, 0x00]); // ADDREG A A
    }
    program.extend_from_slice(&[
        0x03, 0x00, // PUSHREG A
        0x02, 0x04, // POPREG SP -> SP = 255 * 64 = 16320, past capacity
    ]);
    load(&mut machine, &program);
    for _ in 0..10 {
        machine.step().unwrap();
    }
    assert_eq!(machine.get_register(Register::SP), 16320);
    // a push beyond the end of memory fails and moves nothing
    assert_eq!(machine.push(7), Err(VmError::OutOfBoundsAccess));
    assert_eq!(machine.get_register(Register::SP), 16320);
    // a pop decrements SP first, then fails on the out-of-range read
    assert_eq!(machine.pop(), Err(VmError::OutOfBoundsAccess));
    assert_eq!(machine.get_register(Register::SP), 16318);
}

#[test]
fn status_renders_registers() {
    let machine = Machine::new();
    assert_eq!(machine.status(), "A=0 B=0 C=0 M=0 SP=0 PC=0 BP=0 FL=0");

    let mut machine = Machine::new();
    machine.define_handler(0xf0, sig_halt);
    load(&mut machine, &ADDITION_PROGRAM);
    for _ in 0..5 {
        machine.step().unwrap();
    }
    assert_eq!(machine.status(), "A=18 B=0 C=0 M=0 SP=0 PC=10 BP=0 FL=0");
}
