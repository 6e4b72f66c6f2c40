use vstd::prelude::*;

use crate::alu::{add16, add8, dec_flags, inc_flags, rlc, sub8};
use crate::instruction::{
    decode,
    decode_prefixed,
    opcode_table,
    prefixed_table,
    Instruction,
    Operand,
    PREFIX,
};
use crate::memorybus::MemoryBus;
use crate::register::{compose, split, Reg8, Registers};

verus! {

/// Why a step could not be carried out.
#[derive(Clone, Copy, Debug, PartialEq, Eq, Structural)]
pub enum CpuError {
    /// No operation is defined for `opcode`. `prefix` holds the escape byte
    /// when the opcode followed one; `pc` is the address of the instruction.
    UnimplementedOpcode { opcode: u8, prefix: Option<u8>, pc: u16 },
}

/// The abstract state of the machine: registers and the 65536 memory bytes.
pub struct Machine {
    pub regs: Registers,
    pub mem: Seq<u8>,
}

/// The address after `addr`, wrapping past 0xFFFF.
pub open spec fn next_addr(addr: int) -> int {
    (addr + 1) % 65536
}

/// The 16-bit value stored low byte first at `addr`.
pub open spec fn word_at(mem: Seq<u8>, addr: int) -> int {
    mem[next_addr(addr)] * 256 + mem[addr]
}

/// The value of an arithmetic operand in state `s`.
pub open spec fn operand_value(s: Machine, o: Operand) -> u8 {
    match o {
        Operand::Reg(x) => s.regs.reg(x),
        Operand::AtHl => s.mem[s.regs.hl()],
    }
}

/// The state after carrying out `ins` in state `s`, with its immediate
/// operand bytes starting at address `at`. The program counter is not moved.
#[verifier::opaque]
pub open spec fn effect(ins: Instruction, s: Machine, at: int) -> Machine {
    let r = s.regs;
    let m = s.mem;
    match ins {
        Instruction::Nop => s,
        Instruction::LoadPairImmediate(p) => Machine {
            regs: r.with_pair(p, word_at(m, at) as u16),
            mem: m,
        },
        Instruction::StoreAtPair(p) => Machine { regs: r, mem: m.update(r.pair(p), r.a) },
        Instruction::LoadFromPair(p) => Machine { regs: r.with_reg(Reg8::A, m[r.pair(p)]), mem: m },
        Instruction::IncrementPair(p) => Machine {
            regs: r.with_pair(p, ((r.pair(p) + 1) % 65536) as u16),
            mem: m,
        },
        Instruction::DecrementPair(p) => Machine {
            regs: r.with_pair(p, ((r.pair(p) - 1) % 65536) as u16),
            mem: m,
        },
        Instruction::Increment(x) => Machine {
            regs: inc_flags(r, r.reg(x)).with_reg(x, ((r.reg(x) + 1) % 256) as u8),
            mem: m,
        },
        Instruction::Decrement(x) => Machine {
            regs: dec_flags(r, r.reg(x)).with_reg(x, ((r.reg(x) - 1) % 256) as u8),
            mem: m,
        },
        Instruction::LoadImmediate(x) => Machine { regs: r.with_reg(x, m[at]), mem: m },
        Instruction::Load(dst, src) => Machine { regs: r.with_reg(dst, r.reg(src)), mem: m },
        Instruction::RotateLeftA => Machine { regs: rlc(r), mem: m },
        Instruction::StoreSp => {
            let addr = word_at(m, at);
            Machine {
                regs: r,
                mem: m.update(addr, (r.sp % 256) as u8).update(next_addr(addr), (r.sp / 256) as u8),
            }
        },
        Instruction::AddHl(p) => Machine { regs: add16(r, r.pair(p) as u16), mem: m },
        Instruction::Add(o) => Machine { regs: add8(r, operand_value(s, o)), mem: m },
        Instruction::Sub(o) => Machine { regs: sub8(r, operand_value(s, o)), mem: m },
    }
}

/// No instruction writes the low nibble of the flags byte, so a register
/// file whose low nibble is zero keeps it zero.
pub proof fn lemma_effect_keeps_wf(ins: Instruction, s: Machine, at: int)
    requires
        s.regs.wf(),
    ensures
        effect(ins, s, at).regs.wf(),
{
    broadcast use crate::register::lemma_with_flag;

    reveal(effect);
    let r = s.regs;
    match ins {
        Instruction::Increment(x) => {
            assert(inc_flags(r, r.reg(x)).wf());
        },
        Instruction::Decrement(x) => {
            assert(dec_flags(r, r.reg(x)).wf());
        },
        _ => {},
    }
}

/// `s` with the program counter moved on by `n` bytes, wrapping.
pub open spec fn advance(s: Machine, n: int) -> Machine {
    Machine { regs: Registers { pc: ((s.regs.pc + n) % 65536) as u16, ..s.regs }, mem: s.mem }
}

/// What executing the un-prefixed `opcode` in state `s` gives: the new
/// state (program counter not moved) and the bytes the instruction took.
pub open spec fn execute_result(s: Machine, opcode: u8) -> Result<(Machine, u16), CpuError> {
    match opcode_table(opcode) {
        Some(ins) => Ok((effect(ins, s, next_addr(s.regs.pc as int)), ins.spec_length())),
        None => Err(CpuError::UnimplementedOpcode { opcode, prefix: None, pc: s.regs.pc }),
    }
}

/// What executing `opcode`, which followed the escape byte, in state `s`
/// gives: the new state (program counter not moved) and the bytes the
/// instruction took, escape byte included.
pub open spec fn execute_prefixed_result(s: Machine, opcode: u8) -> Result<(Machine, u16), CpuError> {
    match prefixed_table(opcode) {
        Some(ins) => Ok(
            (
                effect(ins, s, next_addr(next_addr(s.regs.pc as int))),
                (ins.spec_length() + 1) as u16,
            ),
        ),
        None => Err(CpuError::UnimplementedOpcode { opcode, prefix: Some(PREFIX), pc: s.regs.pc }),
    }
}

/// The outcome of one fetch-decode-execute cycle from state `s`.
pub open spec fn step_result(s: Machine) -> Result<Machine, CpuError> {
    let pc = s.regs.pc as int;
    let fetched = if s.mem[pc] == PREFIX {
        execute_prefixed_result(s, s.mem[next_addr(pc)])
    } else {
        execute_result(s, s.mem[pc])
    };
    match fetched {
        Ok((t, n)) => Ok(advance(t, n as int)),
        Err(e) => Err(e),
    }
}

/// The CPU: its register file and the memory it runs on.
pub struct Cpu {
    pub registers: Registers,
    pub bus: MemoryBus,
}

impl Cpu {
    /// The registers and memory contents as a mathematical value.
    pub open spec fn state(&self) -> Machine {
        Machine { regs: self.registers, mem: self.bus.data@ }
    }

    /// A CPU with the post-boot registers and zeroed memory.
    pub fn new() -> (cpu: Cpu)
        ensures
            cpu.registers == Registers::boot(),
            cpu.bus.data@ == Seq::new(0x10000, |_i: int| 0u8),
    {
        Cpu { registers: Registers::new(), bus: MemoryBus::new() }
    }

    /// The value of an arithmetic operand.
    fn operand(&self, o: Operand) -> (v: u8)
        ensures
            v == operand_value(self.state(), o),
    {
        match o {
            Operand::Reg(x) => self.registers.read_reg(x),
            Operand::AtHl => self.bus.read_data(self.registers.get_hl()),
        }
    }

    /// The 16-bit value stored low byte first at `addr`.
    fn read_word(&self, addr: u16) -> (v: u16)
        ensures
            v == word_at(self.bus.data@, addr as int),
    {
        let lo = self.bus.read_data(addr);
        let next = addr.wrapping_add(1);
        assert(next == next_addr(addr as int));
        let hi = self.bus.read_data(next);
        compose(hi, lo)
    }

    /// Carries out a load or store, its immediate operand bytes starting at
    /// `at`.
    #[verifier::rlimit(30)]
    fn run_transfer(&mut self, ins: Instruction, at: u16)
        requires
            ins is LoadPairImmediate || ins is StoreAtPair || ins is LoadFromPair
                || ins is LoadImmediate || ins is Load || ins is StoreSp,
        ensures
            final(self).state() == effect(ins, old(self).state(), at as int),
    {
        reveal(effect);
        match ins {
            Instruction::LoadPairImmediate(p) => {
                let v = self.read_word(at);
                self.registers.set_pair(p, v);
            },
            Instruction::StoreAtPair(p) => {
                let addr = self.registers.get_pair(p);
                self.bus.write_data(addr, self.registers.a);
            },
            Instruction::LoadFromPair(p) => {
                let addr = self.registers.get_pair(p);
                self.registers.a = self.bus.read_data(addr);
            },
            Instruction::LoadImmediate(x) => {
                let v = self.bus.read_data(at);
                self.registers.write_reg(x, v);
            },
            Instruction::Load(dst, src) => {
                let v = self.registers.read_reg(src);
                self.registers.write_reg(dst, v);
            },
            _ => {
                let addr = self.read_word(at);
                let (hi, lo) = split(self.registers.sp);
                let next = addr.wrapping_add(1);
                assert(next == next_addr(addr as int));
                self.bus.write_data(addr, lo);
                self.bus.write_data(next, hi);
            },
        }
    }

    /// Carries out an increment or decrement of a register or register pair.
    #[verifier::rlimit(30)]
    fn run_counter(&mut self, ins: Instruction, at: u16)
        requires
            ins is IncrementPair || ins is DecrementPair || ins is Increment || ins is Decrement,
        ensures
            final(self).state() == effect(ins, old(self).state(), at as int),
    {
        reveal(effect);
        match ins {
            Instruction::IncrementPair(p) => {
                let v = self.registers.get_pair(p);
                let w = v.wrapping_add(1);
                assert(w == ((v + 1) % 65536) as u16);
                self.registers.set_pair(p, w);
            },
            Instruction::DecrementPair(p) => {
                let v = self.registers.get_pair(p);
                let w = v.wrapping_sub(1);
                assert(w == ((v - 1) % 65536) as u16);
                self.registers.set_pair(p, w);
            },
            Instruction::Increment(x) => {
                let v = self.registers.read_reg(x);
                let r = self.increment_reg(v);
                self.registers.write_reg(x, r);
            },
            Instruction::Decrement(x) => {
                let v = self.registers.read_reg(x);
                let r = self.decrement_reg(v);
                self.registers.write_reg(x, r);
            },
            _ => {},
        }
    }

    /// Carries out an arithmetic instruction.
    fn run_alu(&mut self, ins: Instruction, at: u16)
        requires
            ins is RotateLeftA || ins is AddHl || ins is Add || ins is Sub,
        ensures
            final(self).state() == effect(ins, old(self).state(), at as int),
    {
        reveal(effect);
        match ins {
            Instruction::RotateLeftA => self.alu_rlc(),
            Instruction::AddHl(p) => {
                let v = self.registers.get_pair(p);
                self.alu_add_16(v);
            },
            Instruction::Add(o) => {
                let v = self.operand(o);
                self.alu_add(v);
            },
            Instruction::Sub(o) => {
                let v = self.operand(o);
                self.alu_sub(v);
            },
            _ => {},
        }
    }

    /// Carries out `ins`, its immediate operand bytes starting at `at`.
    fn run(&mut self, ins: Instruction, at: u16)
        ensures
            final(self).state() == effect(ins, old(self).state(), at as int),
    {
        match ins {
            Instruction::Nop => {
                proof {
                    reveal(effect);
                }
            },
            Instruction::IncrementPair(_) | Instruction::DecrementPair(_) | Instruction::Increment(_)
            | Instruction::Decrement(_) => self.run_counter(ins, at),
            Instruction::RotateLeftA | Instruction::AddHl(_) | Instruction::Add(_) | Instruction::Sub(
                _,
            ) => self.run_alu(ins, at),
            _ => self.run_transfer(ins, at),
        }
    }

    /// Executes one un-prefixed opcode whose operands follow the program
    /// counter, and returns the bytes the instruction took. The program
    /// counter is not moved. On an opcode with no defined operation nothing
    /// changes and the error names the opcode and the program counter.
    pub fn execute(&mut self, opcode: u8) -> (r: Result<u16, CpuError>)
        ensures
            match execute_result(old(self).state(), opcode) {
                Ok((t, n)) => r == Ok::<u16, CpuError>(n) && final(self).state() == t,
                Err(e) => r == Err::<u16, CpuError>(e) && *final(self) == *old(self),
            },
    {
        match decode(opcode) {
            Some(ins) => {
                let at = self.registers.pc.wrapping_add(1);
                assert(at == next_addr(self.registers.pc as int));
                self.run(ins, at);
                Ok(ins.length())
            },
            None => Err(CpuError::UnimplementedOpcode { opcode, prefix: None, pc: self.registers.pc }),
        }
    }

    /// Executes one opcode that followed the escape byte at the program
    /// counter, and returns the bytes the instruction took, escape byte
    /// included. The program counter is not moved. On an opcode with no
    /// defined operation nothing changes.
    pub fn execute_prefixed(&mut self, opcode: u8) -> (r: Result<u16, CpuError>)
        ensures
            match execute_prefixed_result(old(self).state(), opcode) {
                Ok((t, n)) => r == Ok::<u16, CpuError>(n) && final(self).state() == t,
                Err(e) => r == Err::<u16, CpuError>(e) && *final(self) == *old(self),
            },
    {
        match decode_prefixed(opcode) {
            Some(ins) => {
                let at = self.registers.pc.wrapping_add(2);
                assert(at == next_addr(next_addr(self.registers.pc as int)));
                self.run(ins, at);
                Ok(ins.length() + 1)
            },
            None => Err(
                CpuError::UnimplementedOpcode { opcode, prefix: Some(PREFIX), pc: self.registers.pc },
            ),
        }
    }

    /// One fetch-decode-execute cycle: reads the opcode at the program
    /// counter (and the next byte after the escape byte), executes it and
    /// moves the program counter past the instruction, wrapping. When no
    /// operation is defined the error is returned and nothing changes.
    pub fn step(&mut self) -> (r: Result<(), CpuError>)
        ensures
            match step_result(old(self).state()) {
                Ok(t) => r is Ok && final(self).state() == t,
                Err(e) => r == Err::<(), CpuError>(e) && *final(self) == *old(self),
            },
            old(self).registers.wf() ==> final(self).registers.wf(),
    {
        let pc = self.registers.pc;
        let opcode = self.bus.read_data(pc);
        let executed = if opcode == PREFIX {
            let next = self.bus.read_data(pc.wrapping_add(1));
            self.execute_prefixed(next)
        } else {
            self.execute(opcode)
        };
        proof {
            if old(self).registers.wf() && executed is Ok {
                let s = old(self).state();
                let pc = s.regs.pc as int;
                if opcode == PREFIX {
                    lemma_effect_keeps_wf(
                        prefixed_table(s.mem[next_addr(pc)]).unwrap(),
                        s,
                        next_addr(next_addr(pc)),
                    );
                } else {
                    lemma_effect_keeps_wf(opcode_table(opcode).unwrap(), s, next_addr(pc));
                }
            }
        }
        match executed {
            Ok(bytes) => {
                self.registers.increment_pc(bytes);
                Ok(())
            },
            Err(e) => Err(e),
        }
    }
}

} // verus!
