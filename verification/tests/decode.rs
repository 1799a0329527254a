use stack_vm::error::VmError;
use stack_vm::op::{decode, Instruction};
use stack_vm::register::Register;

#[test]
fn decode_each_instruction() {
    assert_eq!(decode(0x0000), Ok(Instruction::Nop));
    assert_eq!(decode(0x010a), Ok(Instruction::Push(10)));
    assert_eq!(decode(0x0200), Ok(Instruction::PopReg(Register::A)));
    assert_eq!(decode(0x0304), Ok(Instruction::PushReg(Register::SP)));
    assert_eq!(decode(0x0fab), Ok(Instruction::Signal(0xab)));
    assert_eq!(decode(0x1000), Ok(Instruction::AddStack));
    assert_eq!(
        decode(0x1110),
        Ok(Instruction::AddReg(Register::A, Register::B))
    );
    assert_eq!(decode(0x2007), Ok(Instruction::Jmp(Register::FL)));
}

#[test]
fn decode_unmapped_opcode() {
    assert_eq!(decode(0xf000), Err(VmError::InvalidOpcode));
    assert_eq!(decode(0x0400), Err(VmError::InvalidOpcode));
    assert_eq!(decode(0xffff), Err(VmError::InvalidOpcode));
}

#[test]
fn decode_bad_register_operand() {
    // operand byte 9 names no register
    assert_eq!(decode(0x0209), Err(VmError::InvalidOpcode));
    // a nibble of 8 in the two-register form names no register
    assert_eq!(decode(0x1180), Err(VmError::InvalidOpcode));
    assert_eq!(decode(0x1108), Err(VmError::InvalidOpcode));
}
