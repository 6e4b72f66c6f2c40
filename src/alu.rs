use vstd::prelude::*;

use crate::cpu::Cpu;
use crate::register::{lemma_pair_round_trip, CpuFlags, Registers};

verus! {

/// The carry flag as a number: 1 when set, else 0.
pub open spec fn carry_in(r: Registers) -> int {
    if r.flag(CpuFlags::C) {
        1
    } else {
        0
    }
}

/// `v` plus the carry flag added into A.
pub open spec fn add8(r: Registers, v: u8) -> Registers {
    let sum = r.a + v + carry_in(r);
    Registers { a: (sum % 256) as u8, ..r }.with_flags(
        sum % 256 == 0,
        false,
        r.a % 16 + v % 16 + carry_in(r) > 15,
        sum > 255,
    )
}

/// `v` and the carry flag subtracted from A.
pub open spec fn sub8(r: Registers, v: u8) -> Registers {
    let diff = r.a - v - carry_in(r);
    Registers { a: (diff % 256) as u8, ..r }.with_flags(
        diff % 256 == 0,
        true,
        r.a % 16 < v % 16 + carry_in(r),
        r.a < v + carry_in(r),
    )
}

/// Half-carry of a 16-bit add: a carry out of bit 11.
pub open spec fn half_carry16(x: int, y: int) -> bool {
    x % 4096 + y % 4096 > 4095
}

/// Carry of a 16-bit add: a carry out of bit 15.
pub open spec fn carry16(x: int, y: int) -> bool {
    x + y > 65535
}

/// `v` added into HL; the zero flag is kept.
pub open spec fn add16(r: Registers, v: u16) -> Registers {
    r.with_flag(CpuFlags::N, false).with_flag(CpuFlags::H, half_carry16(r.hl(), v as int)).with_flag(
        CpuFlags::C,
        carry16(r.hl(), v as int),
    ).with_hl(((r.hl() + v) % 65536) as u16)
}

/// A rotated left by one bit, bit 7 going to bit 0 and to the carry flag.
pub open spec fn rlc(r: Registers) -> Registers {
    let rotated = (r.a * 2) % 256 + r.a / 128;
    Registers { a: rotated as u8, ..r }.with_flags(rotated == 0, false, false, r.a >= 128)
}

/// The flags after incrementing `v`; the carry flag is kept.
pub open spec fn inc_flags(r: Registers, v: u8) -> Registers {
    r.with_flag(CpuFlags::Z, (v + 1) % 256 == 0).with_flag(CpuFlags::N, false).with_flag(
        CpuFlags::H,
        v % 16 == 15,
    )
}

/// The flags after decrementing `v`; the carry flag is kept.
pub open spec fn dec_flags(r: Registers, v: u8) -> Registers {
    r.with_flag(CpuFlags::Z, v == 1).with_flag(CpuFlags::N, true).with_flag(CpuFlags::H, v % 16 == 0)
}

/// The 16-bit add is symmetric in its operands: swapping them gives the
/// same half-carry, carry and sum, so adding `v` into HL leaves the same
/// registers as adding the old HL into HL holding `v`.
pub proof fn lemma_add16_symmetric(r: Registers, v: u16)
    ensures
        half_carry16(r.hl(), v as int) == half_carry16(v as int, r.hl()),
        carry16(r.hl(), v as int) == carry16(v as int, r.hl()),
        add16(r, v) == add16(r.with_hl(v), r.hl() as u16),
{
    lemma_pair_round_trip(r, v);
}

impl Cpu {
    /// Adds `value` and the carry flag into A, and sets all four flags.
    pub fn alu_add(&mut self, value: u8)
        ensures
            final(self).registers == add8(old(self).registers, value),
            final(self).bus == old(self).bus,
            final(self).registers.a == (old(self).registers.a + value + carry_in(old(self).registers))
                % 256,
            final(self).registers.flag(CpuFlags::Z) == (final(self).registers.a == 0),
            !final(self).registers.flag(CpuFlags::N),
            final(self).registers.flag(CpuFlags::H) == (old(self).registers.a % 16 + value % 16
                + carry_in(old(self).registers) > 15),
            final(self).registers.flag(CpuFlags::C) == (old(self).registers.a + value + carry_in(
                old(self).registers,
            ) > 255),
    {
        let c: u8 = if self.registers.get_flag(CpuFlags::C) {
            1
        } else {
            0
        };
        let a = self.registers.a;
        let r = a.wrapping_add(value).wrapping_add(c);
        proof {
            assert(a & 0xF == a % 16 && value & 0xF == value % 16) by (bit_vector);
        }
        self.registers.a = r;
        self.registers.set_flags(
            r == 0,
            false,
            (a & 0xF) + (value & 0xF) + c > 0xF,
            (a as u16) + (value as u16) + (c as u16) > 0xFF,
        );
    }

    /// Subtracts `value` and the carry flag from A, and sets all four flags.
    /// The carry flag reports a borrow out of the full byte.
    pub fn alu_sub(&mut self, value: u8)
        ensures
            final(self).registers == sub8(old(self).registers, value),
            final(self).bus == old(self).bus,
            final(self).registers.a == (old(self).registers.a - value - carry_in(old(self).registers))
                % 256,
            final(self).registers.flag(CpuFlags::Z) == (final(self).registers.a == 0),
            final(self).registers.flag(CpuFlags::N),
            final(self).registers.flag(CpuFlags::H) == (old(self).registers.a % 16 < value % 16
                + carry_in(old(self).registers)),
            final(self).registers.flag(CpuFlags::C) == (old(self).registers.a < value + carry_in(
                old(self).registers,
            )),
            old(self).registers.a < value ==> final(self).registers.flag(CpuFlags::C),
    {
        let c: u8 = if self.registers.get_flag(CpuFlags::C) {
            1
        } else {
            0
        };
        let a = self.registers.a;
        let r = a.wrapping_sub(value).wrapping_sub(c);
        proof {
            assert(a & 0xF == a % 16 && value & 0xF == value % 16) by (bit_vector);
        }
        self.registers.a = r;
        self.registers.set_flags(
            r == 0,
            true,
            (a & 0xF) < (value & 0xF) + c,
            (a as u16) < (value as u16) + (c as u16),
        );
    }

    /// Adds `value` into HL. Sets the subtract, half-carry (out of bit 11) and
    /// carry flags; the zero flag is kept.
    pub fn alu_add_16(&mut self, value: u16)
        ensures
            final(self).registers == add16(old(self).registers, value),
            final(self).bus == old(self).bus,
            final(self).registers.hl() == (old(self).registers.hl() + value) % 65536,
            final(self).registers.flag(CpuFlags::Z) == old(self).registers.flag(CpuFlags::Z),
            !final(self).registers.flag(CpuFlags::N),
            final(self).registers.flag(CpuFlags::H) == half_carry16(old(self).registers.hl(), value as int),
            final(self).registers.flag(CpuFlags::C) == carry16(old(self).registers.hl(), value as int),
    {
        let hl = self.registers.get_hl();
        let r = hl.wrapping_add(value);
        proof {
            assert(hl & 0x0FFF == hl % 4096 && value & 0x0FFF == value % 4096) by (bit_vector);
        }
        self.registers.set_flag(CpuFlags::N, false);
        self.registers.set_flag(CpuFlags::H, (hl & 0x0FFF) + (value & 0x0FFF) > 0x0FFF);
        self.registers.set_flag(CpuFlags::C, (hl as u32) + (value as u32) > 0xFFFF);
        self.registers.set_hl(r);
    }

    /// Rotates A left by one bit: bit 7 goes to bit 0 and to the carry flag.
    /// The zero flag reports a zero result; subtract and half-carry are cleared.
    pub fn alu_rlc(&mut self)
        ensures
            final(self).registers == rlc(old(self).registers),
            final(self).bus == old(self).bus,
            final(self).registers.a == (old(self).registers.a * 2) % 256 + old(self).registers.a
                / 128,
            final(self).registers.flag(CpuFlags::C) == (old(self).registers.a >= 128),
            final(self).registers.flag(CpuFlags::Z) == (final(self).registers.a == 0),
            !final(self).registers.flag(CpuFlags::H),
            !final(self).registers.flag(CpuFlags::N),
    {
        let a = self.registers.a;
        let result = (a << 1) | (a >> 7);
        proof {
            assert((a << 1) | (a >> 7) == (a * 2) % 256 + a / 128) by (bit_vector);
            assert((a & 0x80 == 0x80) == (a >= 128)) by (bit_vector);
        }
        self.registers.a = result;
        self.registers.set_flags(result == 0, false, false, a & 0x80 == 0x80);
    }

    /// Returns `reg` minus one, wrapping, and sets the zero, subtract and
    /// half-carry flags; the carry flag is kept.
    pub fn decrement_reg(&mut self, reg: u8) -> (r: u8)
        ensures
            r == (reg - 1) % 256,
            final(self).registers == dec_flags(old(self).registers, reg),
            final(self).bus == old(self).bus,
            final(self).registers.flag(CpuFlags::Z) == (r == 0),
            final(self).registers.flag(CpuFlags::N),
            final(self).registers.flag(CpuFlags::H) == (reg % 16 == 0),
            final(self).registers.flag(CpuFlags::C) == old(self).registers.flag(CpuFlags::C),
    {
        let result = reg.wrapping_sub(1);
        proof {
            assert(reg & 0x0F == reg % 16) by (bit_vector);
        }
        self.registers.set_flag(CpuFlags::Z, result == 0);
        self.registers.set_flag(CpuFlags::N, true);
        self.registers.set_flag(CpuFlags::H, (reg & 0x0F) == 0);
        result
    }

    /// Returns `reg` plus one, wrapping, and sets the zero, subtract and
    /// half-carry flags; the carry flag is kept.
    pub fn increment_reg(&mut self, reg: u8) -> (r: u8)
        ensures
            r == (reg + 1) % 256,
            final(self).registers == inc_flags(old(self).registers, reg),
            final(self).bus == old(self).bus,
            final(self).registers.flag(CpuFlags::Z) == (r == 0),
            !final(self).registers.flag(CpuFlags::N),
            final(self).registers.flag(CpuFlags::H) == (reg % 16 + 1 > 15),
            final(self).registers.flag(CpuFlags::C) == old(self).registers.flag(CpuFlags::C),
    {
        let result = reg.wrapping_add(1);
        proof {
            assert(reg & 0x0F == reg % 16) by (bit_vector);
        }
        self.registers.set_flag(CpuFlags::Z, result == 0);
        self.registers.set_flag(CpuFlags::N, false);
        self.registers.set_flag(CpuFlags::H, (reg & 0x0F) + 1 > 0x0F);
        result
    }
}

} // verus!
