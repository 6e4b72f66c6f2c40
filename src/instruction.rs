use vstd::prelude::*;

use crate::register::{Pair, Reg8};

verus! {

/// The escape byte that selects the prefixed opcode table.
pub const PREFIX: u8 = 0xCB;

/// Source operand of an 8-bit arithmetic instruction.
#[derive(Clone, Copy, Debug, PartialEq, Eq, Structural)]
pub enum Operand {
    /// An 8-bit data register.
    Reg(Reg8),
    /// The byte in memory at the address held in HL.
    AtHl,
}

/// A decoded operation: what an opcode does, with its operands resolved.
#[derive(Clone, Copy, Debug, PartialEq, Eq, Structural)]
pub enum Instruction {
    /// Does nothing.
    Nop,
    /// Loads the 16-bit immediate that follows the opcode (low byte first)
    /// into a register pair.
    LoadPairImmediate(Pair),
    /// Stores A at the address held in a register pair.
    StoreAtPair(Pair),
    /// Loads A from the address held in a register pair.
    LoadFromPair(Pair),
    /// Adds one to a register pair, wrapping; no flag changes.
    IncrementPair(Pair),
    /// Subtracts one from a register pair, wrapping; no flag changes.
    DecrementPair(Pair),
    /// Adds one to an 8-bit register.
    Increment(Reg8),
    /// Subtracts one from an 8-bit register.
    Decrement(Reg8),
    /// Loads the byte that follows the opcode into an 8-bit register.
    LoadImmediate(Reg8),
    /// Copies the second register into the first.
    Load(Reg8, Reg8),
    /// Rotates A left by one bit, circularly.
    RotateLeftA,
    /// Stores SP (low byte first) at the 16-bit immediate address that
    /// follows the opcode (low byte first).
    StoreSp,
    /// Adds a register pair into HL.
    AddHl(Pair),
    /// Adds an operand and the carry flag into A.
    Add(Operand),
    /// Subtracts an operand and the carry flag from A.
    Sub(Operand),
}

impl Instruction {
    /// Bytes the instruction occupies, opcode included.
    pub open spec fn spec_length(self) -> u16 {
        match self {
            Instruction::LoadPairImmediate(_) | Instruction::StoreSp => 3,
            Instruction::LoadImmediate(_) => 2,
            _ => 1,
        }
    }

    /// Bytes the instruction occupies, opcode included.
    #[verifier::when_used_as_spec(spec_length)]
    pub fn length(self) -> (n: u16)
        ensures
            n == self.spec_length(),
    {
        match self {
            Instruction::LoadPairImmediate(_) | Instruction::StoreSp => 3,
            Instruction::LoadImmediate(_) => 2,
            _ => 1,
        }
    }
}

/// The operand selected by the low three bits of an arithmetic opcode.
pub open spec fn spec_operand_of(bits: u8) -> Operand {
    match bits % 8 {
        0 => Operand::Reg(Reg8::B),
        1 => Operand::Reg(Reg8::C),
        2 => Operand::Reg(Reg8::D),
        3 => Operand::Reg(Reg8::E),
        4 => Operand::Reg(Reg8::H),
        5 => Operand::Reg(Reg8::L),
        6 => Operand::AtHl,
        _ => Operand::Reg(Reg8::A),
    }
}

/// The operand selected by the low three bits of an arithmetic opcode.
#[verifier::when_used_as_spec(spec_operand_of)]
pub fn operand_of(bits: u8) -> (o: Operand)
    ensures
        o == spec_operand_of(bits),
{
    match bits % 8 {
        0 => Operand::Reg(Reg8::B),
        1 => Operand::Reg(Reg8::C),
        2 => Operand::Reg(Reg8::D),
        3 => Operand::Reg(Reg8::E),
        4 => Operand::Reg(Reg8::H),
        5 => Operand::Reg(Reg8::L),
        6 => Operand::AtHl,
        _ => Operand::Reg(Reg8::A),
    }
}

/// The table of un-prefixed opcodes; `None` where no operation is defined.
pub open spec fn opcode_table(opcode: u8) -> Option<Instruction> {
    match opcode {
        0x00 => Some(Instruction::Nop),
        0x01 => Some(Instruction::LoadPairImmediate(Pair::BC)),
        0x02 => Some(Instruction::StoreAtPair(Pair::BC)),
        0x03 => Some(Instruction::IncrementPair(Pair::BC)),
        0x04 => Some(Instruction::Increment(Reg8::B)),
        0x05 => Some(Instruction::Decrement(Reg8::B)),
        0x06 => Some(Instruction::LoadImmediate(Reg8::B)),
        0x07 => Some(Instruction::RotateLeftA),
        0x08 => Some(Instruction::StoreSp),
        0x09 => Some(Instruction::AddHl(Pair::BC)),
        0x0A => Some(Instruction::LoadFromPair(Pair::BC)),
        0x0B => Some(Instruction::DecrementPair(Pair::BC)),
        0x0C => Some(Instruction::Increment(Reg8::C)),
        0x0D => Some(Instruction::Decrement(Reg8::C)),
        0x0E => Some(Instruction::LoadImmediate(Reg8::C)),
        0x1E => Some(Instruction::LoadImmediate(Reg8::E)),
        0x2E => Some(Instruction::LoadImmediate(Reg8::L)),
        0x3E => Some(Instruction::LoadImmediate(Reg8::A)),
        0x78 => Some(Instruction::Load(Reg8::A, Reg8::B)),
        _ if 0x80 <= opcode && opcode <= 0x87 => Some(Instruction::Add(spec_operand_of(opcode))),
        _ if 0x90 <= opcode && opcode <= 0x97 => Some(Instruction::Sub(spec_operand_of(opcode))),
        _ => None,
    }
}

/// The table of opcodes that follow the escape byte; `None` where no
/// operation is defined.
pub open spec fn prefixed_table(opcode: u8) -> Option<Instruction> {
    None
}

/// Looks an un-prefixed opcode up in the table.
pub fn decode(opcode: u8) -> (r: Option<Instruction>)
    ensures
        r == opcode_table(opcode),
{
    match opcode {
        0x00 => Some(Instruction::Nop),
        0x01 => Some(Instruction::LoadPairImmediate(Pair::BC)),
        0x02 => Some(Instruction::StoreAtPair(Pair::BC)),
        0x03 => Some(Instruction::IncrementPair(Pair::BC)),
        0x04 => Some(Instruction::Increment(Reg8::B)),
        0x05 => Some(Instruction::Decrement(Reg8::B)),
        0x06 => Some(Instruction::LoadImmediate(Reg8::B)),
        0x07 => Some(Instruction::RotateLeftA),
        0x08 => Some(Instruction::StoreSp),
        0x09 => Some(Instruction::AddHl(Pair::BC)),
        0x0A => Some(Instruction::LoadFromPair(Pair::BC)),
        0x0B => Some(Instruction::DecrementPair(Pair::BC)),
        0x0C => Some(Instruction::Increment(Reg8::C)),
        0x0D => Some(Instruction::Decrement(Reg8::C)),
        0x0E => Some(Instruction::LoadImmediate(Reg8::C)),
        0x1E => Some(Instruction::LoadImmediate(Reg8::E)),
        0x2E => Some(Instruction::LoadImmediate(Reg8::L)),
        0x3E => Some(Instruction::LoadImmediate(Reg8::A)),
        0x78 => Some(Instruction::Load(Reg8::A, Reg8::B)),
        _ if 0x80 <= opcode && opcode <= 0x87 => Some(Instruction::Add(operand_of(opcode))),
        _ if 0x90 <= opcode && opcode <= 0x97 => Some(Instruction::Sub(operand_of(opcode))),
        _ => None,
    }
}

/// Looks an opcode that followed the escape byte up in the prefixed table.
pub fn decode_prefixed(opcode: u8) -> (r: Option<Instruction>)
    ensures
        r == prefixed_table(opcode),
{
    None
}

} // verus!
