use vstd::prelude::*;

verus! {

/// The four condition flags, each one bit of the flags register `f`.
#[derive(Clone, Copy, Debug, PartialEq, Eq, Structural)]
pub enum CpuFlags {
    /// Zero (bit 7).
    Z,
    /// Subtract (bit 6).
    N,
    /// Half-carry (bit 5).
    H,
    /// Carry (bit 4).
    C,
}

impl CpuFlags {
    /// The bit of `f` that holds this flag.
    pub open spec fn spec_mask(self) -> u8 {
        match self {
            CpuFlags::Z => 0x80,
            CpuFlags::N => 0x40,
            CpuFlags::H => 0x20,
            CpuFlags::C => 0x10,
        }
    }

    /// The bit of `f` that holds this flag.
    #[verifier::when_used_as_spec(spec_mask)]
    pub fn mask(self) -> (m: u8)
        ensures
            m == self.spec_mask(),
    {
        match self {
            CpuFlags::Z => 0x80,
            CpuFlags::N => 0x40,
            CpuFlags::H => 0x20,
            CpuFlags::C => 0x10,
        }
    }
}

/// One of the seven 8-bit data registers.
#[derive(Clone, Copy, Debug, PartialEq, Eq, Structural)]
pub enum Reg8 {
    A,
    B,
    C,
    D,
    E,
    H,
    L,
}

/// A pair of 8-bit registers read and written as one 16-bit value, high
/// register first.
#[derive(Clone, Copy, Debug, PartialEq, Eq, Structural)]
pub enum Pair {
    BC,
    DE,
    HL,
}

/// The register file: seven 8-bit registers, the flags byte, the stack
/// pointer and the program counter.
#[derive(Clone, Copy, Debug, PartialEq, Eq, Structural)]
pub struct Registers {
    pub a: u8,
    pub f: u8,
    pub b: u8,
    pub c: u8,
    pub d: u8,
    pub e: u8,
    pub h: u8,
    pub l: u8,
    pub pc: u16,
    pub sp: u16,
}

impl Registers {
    /// The register file right after boot.
    pub open spec fn boot() -> Registers {
        Registers {
            a: 0x01,
            f: 0xF0,
            b: 0x00,
            c: 0x13,
            d: 0x00,
            e: 0xD8,
            h: 0x01,
            l: 0x4D,
            pc: 0x0100,
            sp: 0xFFFE,
        }
    }

    /// The low nibble of `f`, which carries no flag, is zero.
    pub open spec fn wf(self) -> bool {
        self.f % 16 == 0
    }

    /// AF: A high, the flag bits of F low (its low nibble read as zero).
    pub open spec fn af(self) -> int {
        self.a * 256 + (self.f - self.f % 16)
    }

    /// BC: B high, C low.
    pub open spec fn bc(self) -> int {
        self.b * 256 + self.c
    }

    /// DE: D high, E low.
    pub open spec fn de(self) -> int {
        self.d * 256 + self.e
    }

    /// HL: H high, L low.
    pub open spec fn hl(self) -> int {
        self.h * 256 + self.l
    }

    /// The registers with AF replaced by `v`, the low nibble of F cleared.
    pub open spec fn with_af(self, v: u16) -> Registers {
        Registers { a: (v / 256) as u8, f: (v % 256 - v % 16) as u8, ..self }
    }

    /// The registers with BC replaced by `v`, high byte first.
    pub open spec fn with_bc(self, v: u16) -> Registers {
        Registers { b: (v / 256) as u8, c: (v % 256) as u8, ..self }
    }

    /// The registers with DE replaced by `v`, high byte first.
    pub open spec fn with_de(self, v: u16) -> Registers {
        Registers { d: (v / 256) as u8, e: (v % 256) as u8, ..self }
    }

    /// The registers with HL replaced by `v`, high byte first.
    pub open spec fn with_hl(self, v: u16) -> Registers {
        Registers { h: (v / 256) as u8, l: (v % 256) as u8, ..self }
    }

    /// Whether `flag` is set in `f`.
    pub open spec fn flag(self, flag: CpuFlags) -> bool {
        self.f & flag.mask() != 0
    }

    /// The registers with the bit of `flag` in `f` set to `on`, all other
    /// bits of `f` and all other registers kept.
    pub open spec fn with_flag(self, flag: CpuFlags, on: bool) -> Registers {
        Registers { f: if on { self.f | flag.mask() } else { self.f & !flag.mask() }, ..self }
    }

    /// The value of an 8-bit data register.
    pub open spec fn reg(self, r: Reg8) -> u8 {
        match r {
            Reg8::A => self.a,
            Reg8::B => self.b,
            Reg8::C => self.c,
            Reg8::D => self.d,
            Reg8::E => self.e,
            Reg8::H => self.h,
            Reg8::L => self.l,
        }
    }

    /// The registers with one 8-bit data register replaced by `v`.
    pub open spec fn with_reg(self, r: Reg8, v: u8) -> Registers {
        match r {
            Reg8::A => Registers { a: v, ..self },
            Reg8::B => Registers { b: v, ..self },
            Reg8::C => Registers { c: v, ..self },
            Reg8::D => Registers { d: v, ..self },
            Reg8::E => Registers { e: v, ..self },
            Reg8::H => Registers { h: v, ..self },
            Reg8::L => Registers { l: v, ..self },
        }
    }

    /// The 16-bit value of a register pair.
    pub open spec fn pair(self, p: Pair) -> int {
        match p {
            Pair::BC => self.bc(),
            Pair::DE => self.de(),
            Pair::HL => self.hl(),
        }
    }

    /// The registers with a register pair replaced by `v`.
    pub open spec fn with_pair(self, p: Pair, v: u16) -> Registers {
        match p {
            Pair::BC => self.with_bc(v),
            Pair::DE => self.with_de(v),
            Pair::HL => self.with_hl(v),
        }
    }

    /// The registers with all four flags written, in the order Z, N, H, C.
    pub open spec fn with_flags(self, z: bool, n: bool, h: bool, c: bool) -> Registers {
        self.with_flag(CpuFlags::Z, z).with_flag(CpuFlags::N, n).with_flag(CpuFlags::H, h).with_flag(
            CpuFlags::C,
            c,
        )
    }

    pub fn new() -> (r: Registers)
        ensures
            r == Registers::boot(),
            r.wf(),
    {
        assert(0x80u8 | 0x40u8 | 0x20u8 | 0x10u8 == 0xF0u8) by (bit_vector);
        Registers {
            a: 0x01,
            f: CpuFlags::Z.mask() | CpuFlags::N.mask() | CpuFlags::H.mask() | CpuFlags::C.mask(),
            b: 0x00,
            c: 0x13,
            d: 0x00,
            e: 0xD8,
            h: 0x01,
            l: 0x4D,
            pc: 0x0100,
            sp: 0xFFFE,
        }
    }

    pub fn get_af(&self) -> (r: u16)
        ensures
            r == self.af(),
    {
        let (a, f) = (self.a, self.f);
        assert(((a as u16) << 8) | ((f & 0xF0) as u16) == a * 256 + (f - f % 16)) by (bit_vector);
        ((self.a as u16) << 8) | ((self.f & 0xF0) as u16)
    }

    pub fn get_bc(&self) -> (r: u16)
        ensures
            r == self.bc(),
    {
        compose(self.b, self.c)
    }

    pub fn get_de(&self) -> (r: u16)
        ensures
            r == self.de(),
    {
        compose(self.d, self.e)
    }

    pub fn get_hl(&self) -> (r: u16)
        ensures
            r == self.hl(),
    {
        compose(self.h, self.l)
    }

    /// Writes AF; the low nibble of the flags byte is cleared.
    pub fn set_af(&mut self, value: u16)
        ensures
            *final(self) == old(self).with_af(value),
            final(self).af() == value - value % 16,
            final(self).wf(),
    {
        assert((value >> 8) as u8 == value / 256) by (bit_vector);
        assert((value & 0x00F0) as u8 == value % 256 - value % 16) by (bit_vector);
        self.a = (value >> 8) as u8;
        self.f = (value & 0x00F0) as u8;
        proof {
            lemma_pair_round_trip(*old(self), value);
        }
    }

    pub fn set_bc(&mut self, value: u16)
        ensures
            *final(self) == old(self).with_bc(value),
            final(self).bc() == value,
    {
        let (hi, lo) = split(value);
        self.b = hi;
        self.c = lo;
    }

    pub fn set_de(&mut self, value: u16)
        ensures
            *final(self) == old(self).with_de(value),
            final(self).de() == value,
    {
        let (hi, lo) = split(value);
        self.d = hi;
        self.e = lo;
    }

    pub fn set_hl(&mut self, value: u16)
        ensures
            *final(self) == old(self).with_hl(value),
            final(self).hl() == value,
    {
        let (hi, lo) = split(value);
        self.h = hi;
        self.l = lo;
    }

    pub fn get_flag(&self, flag: CpuFlags) -> (r: bool)
        ensures
            r == self.flag(flag),
    {
        self.f & flag.mask() > 0
    }

    /// Sets or clears one flag; no other bit of `f` changes.
    pub fn set_flag(&mut self, flag: CpuFlags, set: bool)
        ensures
            *final(self) == old(self).with_flag(flag, set),
            final(self).flag(flag) == set,
            forall|other: CpuFlags| other != flag ==> final(self).flag(other) == old(self).flag(other),
            final(self).f % 16 == old(self).f % 16,
    {
        let mask = flag.mask();
        if set {
            self.f = self.f | mask;
        } else {
            self.f = self.f & !mask;
        }
        proof {
            lemma_with_flag(*old(self), flag, set);
        }
    }

    /// Advances the program counter by `value`, wrapping past 0xFFFF.
    pub fn increment_pc(&mut self, value: u16)
        ensures
            *final(self) == (Registers { pc: ((old(self).pc + value) % 65536) as u16, ..*old(self) }),
    {
        self.pc = self.pc.wrapping_add(value);
    }

    /// Writes all four flags; the low nibble of `f` and the other registers
    /// are kept.
    pub fn set_flags(&mut self, z: bool, n: bool, h: bool, c: bool)
        ensures
            *final(self) == old(self).with_flags(z, n, h, c),
            final(self).flag(CpuFlags::Z) == z,
            final(self).flag(CpuFlags::N) == n,
            final(self).flag(CpuFlags::H) == h,
            final(self).flag(CpuFlags::C) == c,
            final(self).f % 16 == old(self).f % 16,
    {
        self.set_flag(CpuFlags::Z, z);
        self.set_flag(CpuFlags::N, n);
        self.set_flag(CpuFlags::H, h);
        self.set_flag(CpuFlags::C, c);
    }

    /// The value of an 8-bit data register.
    pub fn read_reg(&self, r: Reg8) -> (v: u8)
        ensures
            v == self.reg(r),
    {
        match r {
            Reg8::A => self.a,
            Reg8::B => self.b,
            Reg8::C => self.c,
            Reg8::D => self.d,
            Reg8::E => self.e,
            Reg8::H => self.h,
            Reg8::L => self.l,
        }
    }

    /// Replaces one 8-bit data register.
    pub fn write_reg(&mut self, r: Reg8, v: u8)
        ensures
            *final(self) == old(self).with_reg(r, v),
    {
        match r {
            Reg8::A => self.a = v,
            Reg8::B => self.b = v,
            Reg8::C => self.c = v,
            Reg8::D => self.d = v,
            Reg8::E => self.e = v,
            Reg8::H => self.h = v,
            Reg8::L => self.l = v,
        }
    }

    /// The 16-bit value of a register pair.
    pub fn get_pair(&self, p: Pair) -> (v: u16)
        ensures
            v == self.pair(p),
    {
        match p {
            Pair::BC => self.get_bc(),
            Pair::DE => self.get_de(),
            Pair::HL => self.get_hl(),
        }
    }

    /// Replaces a register pair.
    pub fn set_pair(&mut self, p: Pair, v: u16)
        ensures
            *final(self) == old(self).with_pair(p, v),
            final(self).pair(p) == v,
    {
        match p {
            Pair::BC => self.set_bc(v),
            Pair::DE => self.set_de(v),
            Pair::HL => self.set_hl(v),
        }
    }
}

/// The 16-bit value with high byte `hi` and low byte `lo`.
pub(crate) fn compose(hi: u8, lo: u8) -> (r: u16)
    ensures
        r == hi * 256 + lo,
{
    assert(((hi as u16) << 8) | (lo as u16) == hi * 256 + lo) by (bit_vector);
    ((hi as u16) << 8) | (lo as u16)
}

/// The high and low bytes of a 16-bit value.
pub(crate) fn split(v: u16) -> (r: (u8, u8))
    ensures
        r.0 == v / 256,
        r.1 == v % 256,
{
    assert((v >> 8) as u8 == v / 256) by (bit_vector);
    assert((v & 0x00FF) as u8 == v % 256) by (bit_vector);
    ((v >> 8) as u8, (v & 0x00FF) as u8)
}

/// Setting or clearing one flag bit decides that bit and leaves the other
/// flag bits and the low nibble as they were.
proof fn lemma_flag_bits(f: u8, m: u8, n: u8)
    by (bit_vector)
    requires
        m == 0x80 || m == 0x40 || m == 0x20 || m == 0x10,
        n == 0x80 || n == 0x40 || n == 0x20 || n == 0x10,
    ensures
        (f | m) & m != 0,
        (f & !m) & m == 0,
        m != n ==> (((f | m) & n) != 0) == ((f & n) != 0),
        m != n ==> (((f & !m) & n) != 0) == ((f & n) != 0),
        (f | m) % 16 == f % 16,
        (f & !m) % 16 == f % 16,
{
}

/// Writing one flag decides that flag and keeps the other three and the
/// low nibble of `f`.
pub broadcast proof fn lemma_with_flag(r: Registers, flag: CpuFlags, on: bool)
    ensures
        #![trigger r.with_flag(flag, on)]
        r.with_flag(flag, on).flag(flag) == on,
        forall|other: CpuFlags| other != flag ==> r.with_flag(flag, on).flag(other) == r.flag(other),
        r.with_flag(flag, on).f % 16 == r.f % 16,
{
    lemma_flag_bits(r.f, flag.mask(), flag.mask());
    assert forall|other: CpuFlags| other != flag implies r.with_flag(flag, on).flag(other) == r.flag(
        other,
    ) by {
        lemma_flag_bits(r.f, flag.mask(), other.mask());
    }
}

/// Writing a register pair and reading it back gives the value written; for
/// AF the low nibble of the flags byte reads back as zero.
pub proof fn lemma_pair_round_trip(r: Registers, v: u16)
    ensures
        r.with_bc(v).bc() == v,
        r.with_de(v).de() == v,
        r.with_hl(v).hl() == v,
        r.with_af(v).af() == v - v % 16,
        r.with_af(v).wf(),
{
    assert((v % 256 - v % 16) % 16 == 0) by (nonlinear_arith);
}

} // verus!
