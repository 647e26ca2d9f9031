//! The instruction set, in its linked form: every control-flow target is a
//! concrete program address. The assembler-side symbolic forms (labels,
//! relative offsets) cannot be represented here, so a program handed to the
//! machine is resolved by construction.

use vstd::prelude::*;

use crate::machine::REGISTER_COUNT;

verus! {

/// How many program addresses exist: addresses are ten bits wide, so the
/// program counter wraps modulo this count.
pub const ADDRESS_COUNT: u32 = 1024;

/// The largest legal program address.
pub const ADDRESS_MAX_VALUE: u32 = 1023;

/// The most negative memory offset an instruction can carry (a four-bit
/// two's-complement field).
pub const MEMORY_OFFSET_MIN: i8 = -8;

/// The most positive memory offset an instruction can carry.
pub const MEMORY_OFFSET_MAX: i8 = 7;

/// The condition a branch tests: one of the two flags, asserted or denied.
#[derive(Clone, Copy, PartialEq, Eq, Structural, Debug)]
pub enum Condition {
    Zero,
    NotZero,
    Carry,
    NotCarry,
}

/// One decoded instruction. Register operands are register-file indices,
/// immediates are machine words, control-flow targets are resolved program
/// addresses, and memory offsets are small signed displacements.
#[derive(Clone, Copy, PartialEq, Eq, Structural, Debug)]
pub enum Instruction {
    NoOperation,
    Halt,

    /// RegC = RegA + RegB
    Addition(u8, u8, u8),
    /// RegC = RegA - RegB
    Subtraction(u8, u8, u8),
    /// RegC = !(RegA | RegB)
    BitwiseNOR(u8, u8, u8),
    /// RegC = RegA & RegB
    BitwiseAND(u8, u8, u8),
    /// RegC = RegA ^ RegB
    BitwiseXOR(u8, u8, u8),
    /// RegC = RegA >> 1
    RightShift(u8, u8),

    /// RegA = Immediate
    LoadImmediate(u8, u8),
    /// RegA = RegA + Immediate
    AddImmediate(u8, u8),

    /// PC = Address
    Jump(u32),
    /// PC = Condition ? Address : PC + 1
    Branch(Condition, u32),
    /// PC = Address (and push PC + 1 to the stack)
    Call(u32),
    /// PC = top of stack (and pop the stack)
    Return,

    /// RegB = Memory[RegA + Offset]
    MemoryLoad(u8, u8, i8),
    /// Memory[RegA + Offset] = RegB
    MemoryStore(u8, u8, i8),
}

/// Whether every operand of the instruction is in range: register indices
/// below the register count, targets at legal addresses, offsets within the
/// four-bit field. A stream that violates this is an assembler bug, not a
/// runtime condition; the machine requires it of every loaded instruction.
pub open spec fn wf_instruction(instruction: Instruction) -> bool {
    match instruction {
        Instruction::NoOperation => true,
        Instruction::Halt => true,
        Instruction::Addition(a, b, c) => a < REGISTER_COUNT && b < REGISTER_COUNT && c < REGISTER_COUNT,
        Instruction::Subtraction(a, b, c) => a < REGISTER_COUNT && b < REGISTER_COUNT && c < REGISTER_COUNT,
        Instruction::BitwiseNOR(a, b, c) => a < REGISTER_COUNT && b < REGISTER_COUNT && c < REGISTER_COUNT,
        Instruction::BitwiseAND(a, b, c) => a < REGISTER_COUNT && b < REGISTER_COUNT && c < REGISTER_COUNT,
        Instruction::BitwiseXOR(a, b, c) => a < REGISTER_COUNT && b < REGISTER_COUNT && c < REGISTER_COUNT,
        Instruction::RightShift(a, c) => a < REGISTER_COUNT && c < REGISTER_COUNT,
        Instruction::LoadImmediate(a, _) => a < REGISTER_COUNT,
        Instruction::AddImmediate(a, _) => a < REGISTER_COUNT,
        Instruction::Jump(target) => target <= ADDRESS_MAX_VALUE,
        Instruction::Branch(_, target) => target <= ADDRESS_MAX_VALUE,
        Instruction::Call(target) => target <= ADDRESS_MAX_VALUE,
        Instruction::Return => true,
        Instruction::MemoryLoad(a, b, offset) => a < REGISTER_COUNT && b < REGISTER_COUNT && MEMORY_OFFSET_MIN <= offset
            <= MEMORY_OFFSET_MAX,
        Instruction::MemoryStore(a, b, offset) => a < REGISTER_COUNT && b < REGISTER_COUNT && MEMORY_OFFSET_MIN <= offset
            <= MEMORY_OFFSET_MAX,
    }
}

} // verus!
