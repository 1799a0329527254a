use vstd::prelude::*;

use crate::error::VmError;
use crate::register::Register;

verus! {

/// One decoded instruction. A value of this type exists only between the
/// decode and the dispatch of a single step; it is immutable once decoded.
#[derive(Clone, Copy, PartialEq, Eq, Structural, Debug)]
pub enum Instruction {
    /// No effect.
    Nop,
    /// Push the zero-extended immediate.
    Push(u8),
    /// Pop a word into the register.
    PopReg(Register),
    /// Push the value of the register.
    PushReg(Register),
    /// Pop two words, push their wrapping sum.
    AddStack,
    /// First register gains the second, wrapping.
    AddReg(Register, Register),
    /// Dispatch the signal id to its registered handler.
    Signal(u8),
    /// Set the program counter to the value of the register.
    Jmp(Register),
}

/// The register identity that the operand byte `b` names, if any. Register
/// operands are encoded as the slot of [`crate::register::reg_idx`].
pub open spec fn reg_of_byte(b: u8) -> Option<Register> {
    if b == 0 {
        Some(Register::A)
    } else if b == 1 {
        Some(Register::B)
    } else if b == 2 {
        Some(Register::C)
    } else if b == 3 {
        Some(Register::M)
    } else if b == 4 {
        Some(Register::SP)
    } else if b == 5 {
        Some(Register::PC)
    } else if b == 6 {
        Some(Register::BP)
    } else if b == 7 {
        Some(Register::FL)
    } else {
        None
    }
}

/// What a raw 16-bit word decodes to. The high byte carries the opcode, the
/// low byte the operand: an immediate literal, a signal id, one register
/// slot, or (for the two-register form) a register slot in each nibble, the
/// first operand in the low nibble. `None` stands for a word that no
/// instruction matches: an unmapped opcode, or an operand byte that names no
/// register.
pub open spec fn decode_spec(word: u16) -> Option<Instruction> {
    let opcode = word / 256;
    let operand = (word % 256) as u8;
    if opcode == 0x00 {
        Some(Instruction::Nop)
    } else if opcode == 0x01 {
        Some(Instruction::Push(operand))
    } else if opcode == 0x02 {
        match reg_of_byte(operand) {
            Some(r) => Some(Instruction::PopReg(r)),
            None => None,
        }
    } else if opcode == 0x03 {
        match reg_of_byte(operand) {
            Some(r) => Some(Instruction::PushReg(r)),
            None => None,
        }
    } else if opcode == 0x0F {
        Some(Instruction::Signal(operand))
    } else if opcode == 0x10 {
        Some(Instruction::AddStack)
    } else if opcode == 0x11 {
        match (reg_of_byte(operand % 16), reg_of_byte(operand / 16)) {
            (Some(r1), Some(r2)) => Some(Instruction::AddReg(r1, r2)),
            _ => None,
        }
    } else if opcode == 0x20 {
        match reg_of_byte(operand) {
            Some(r) => Some(Instruction::Jmp(r)),
            None => None,
        }
    } else {
        None
    }
}

/// Executable form of [`reg_of_byte`].
pub fn register_from_byte(b: u8) -> (r: Option<Register>)
    ensures
        r == reg_of_byte(b),
{
    if b == 0 {
        Some(Register::A)
    } else if b == 1 {
        Some(Register::B)
    } else if b == 2 {
        Some(Register::C)
    } else if b == 3 {
        Some(Register::M)
    } else if b == 4 {
        Some(Register::SP)
    } else if b == 5 {
        Some(Register::PC)
    } else if b == 6 {
        Some(Register::BP)
    } else if b == 7 {
        Some(Register::FL)
    } else {
        None
    }
}

/// Decode a fetched word, or reject it. Decoding is pure: it looks at the
/// word alone. Exactly the words of [`decode_spec`] are accepted; every
/// other word fails with `InvalidOpcode`.
pub fn decode(word: u16) -> (res: Result<Instruction, VmError>)
    ensures
        (decode_spec(word) matches Some(instr) ==> res == Ok::<Instruction, VmError>(instr)),
        (decode_spec(word) is None ==> res == Err::<Instruction, VmError>(VmError::InvalidOpcode)),
{
    let opcode = (word / 256) as u8;
    let operand = (word % 256) as u8;
    match opcode {
        0x00 => Ok(Instruction::Nop),
        0x01 => Ok(Instruction::Push(operand)),
        0x02 => match register_from_byte(operand) {
            Some(r) => Ok(Instruction::PopReg(r)),
            None => Err(VmError::InvalidOpcode),
        },
        0x03 => match register_from_byte(operand) {
            Some(r) => Ok(Instruction::PushReg(r)),
            None => Err(VmError::InvalidOpcode),
        },
        0x0F => Ok(Instruction::Signal(operand)),
        0x10 => Ok(Instruction::AddStack),
        0x11 => match (register_from_byte(operand % 16), register_from_byte(operand / 16)) {
            (Some(r1), Some(r2)) => Ok(Instruction::AddReg(r1, r2)),
            _ => Err(VmError::InvalidOpcode),
        },
        0x20 => match register_from_byte(operand) {
            Some(r) => Ok(Instruction::Jmp(r)),
            None => Err(VmError::InvalidOpcode),
        },
        _ => Err(VmError::InvalidOpcode),
    }
}

} // verus!
