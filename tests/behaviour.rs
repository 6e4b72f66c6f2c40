use gb_core::cpu::CpuError;
use gb_core::instruction::{decode, decode_prefixed, Instruction, Operand, PREFIX};
use gb_core::{Cpu, CpuFlags, Pair, Reg8, Registers};

fn cpu_with_program(program: &[u8]) -> Cpu {
    let mut cpu = Cpu::new();
    let pc = cpu.registers.pc;
    for (i, byte) in program.iter().enumerate() {
        cpu.bus.write_data(pc.wrapping_add(i as u16), *byte);
    }
    cpu
}

fn flags(cpu: &Cpu) -> (bool, bool, bool, bool) {
    (
        cpu.registers.get_flag(CpuFlags::Z),
        cpu.registers.get_flag(CpuFlags::N),
        cpu.registers.get_flag(CpuFlags::H),
        cpu.registers.get_flag(CpuFlags::C),
    )
}

#[test]
fn add_boundary_with_carry_in() {
    let mut cpu = Cpu::new();
    cpu.registers.a = 0xFF;
    cpu.registers.f = CpuFlags::C.mask();
    cpu.alu_add(0xFF);
    assert_eq!(cpu.registers.a, 0xFF);
    assert_eq!(flags(&cpu), (false, false, true, true));
}

#[test]
fn add_matches_formulas_on_all_operands() {
    for a in 0..=255u8 {
        for v in [0x00u8, 0x01, 0x0F, 0x10, 0x7F, 0x80, 0xF0, 0xFF] {
            for c in 0..=1u8 {
                let mut cpu = Cpu::new();
                cpu.registers.a = a;
                cpu.registers.f = if c == 1 { CpuFlags::C.mask() } else { 0 };
                cpu.alu_add(v);
                let sum = a as u16 + v as u16 + c as u16;
                assert_eq!(cpu.registers.a, (sum % 256) as u8);
                assert_eq!(
                    flags(&cpu),
                    (sum % 256 == 0, false, (a & 0xF) + (v & 0xF) + c > 0xF, sum > 0xFF)
                );
            }
        }
    }
}

#[test]
fn add_without_carry_in_sets_half_carry() {
    let mut cpu = Cpu::new();
    cpu.registers.a = 0x0F;
    cpu.registers.f = 0;
    cpu.alu_add(0x01);
    assert_eq!(cpu.registers.a, 0x10);
    assert_eq!(flags(&cpu), (false, false, true, false));
}

#[test]
fn sub_below_operand_borrows() {
    let mut cpu = Cpu::new();
    cpu.registers.a = 0x05;
    cpu.registers.f = 0;
    cpu.alu_sub(0x0A);
    assert_eq!(cpu.registers.a, 0xFB);
    assert!(cpu.registers.get_flag(CpuFlags::C));
    assert!(cpu.registers.get_flag(CpuFlags::N));
}

#[test]
fn sub_with_borrow_in() {
    let mut cpu = Cpu::new();
    cpu.registers.a = 0x10;
    cpu.registers.f = CpuFlags::C.mask();
    cpu.alu_sub(0x0F);
    assert_eq!(cpu.registers.a, 0x00);
    assert_eq!(flags(&cpu), (true, true, true, false));
}

#[test]
fn sub_equal_operand_and_borrow_in_wraps() {
    let mut cpu = Cpu::new();
    cpu.registers.a = 0x00;
    cpu.registers.f = CpuFlags::C.mask();
    cpu.alu_sub(0x00);
    assert_eq!(cpu.registers.a, 0xFF);
    assert_eq!(flags(&cpu), (false, true, true, true));
}

#[test]
fn add16_flags_do_not_depend_on_operand_order() {
    for (x, y) in [(0x0FFFu16, 0x0001u16), (0xFFFF, 0x0001), (0x1234, 0x4321), (0x8800, 0x8800)] {
        let mut first = Cpu::new();
        first.registers.set_hl(x);
        first.alu_add_16(y);
        let mut second = Cpu::new();
        second.registers.set_hl(y);
        second.alu_add_16(x);
        assert_eq!(first.registers, second.registers);
    }
}

#[test]
fn add16_carries_and_keeps_zero() {
    let mut cpu = Cpu::new();
    cpu.registers.f = CpuFlags::Z.mask() | CpuFlags::N.mask();
    cpu.registers.set_hl(0xFFFF);
    cpu.alu_add_16(0x0001);
    assert_eq!(cpu.registers.get_hl(), 0x0000);
    assert_eq!(flags(&cpu), (true, false, true, true));
}

#[test]
fn add16_half_carry_out_of_bit_eleven() {
    let mut cpu = Cpu::new();
    cpu.registers.f = 0;
    cpu.registers.set_hl(0x0800);
    cpu.alu_add_16(0x0800);
    assert_eq!(cpu.registers.get_hl(), 0x1000);
    assert_eq!(flags(&cpu), (false, false, true, false));
}

#[test]
fn pair_round_trips() {
    let mut regs = Registers::new();
    for x in [0x0000u16, 0x0001, 0x00FF, 0x0100, 0xBEEF, 0xFFFF] {
        regs.set_bc(x);
        assert_eq!(regs.get_bc(), x);
        regs.set_de(x);
        assert_eq!(regs.get_de(), x);
        regs.set_hl(x);
        assert_eq!(regs.get_hl(), x);
        regs.set_af(x);
        assert_eq!(regs.get_af(), x & 0xFFF0);
        assert_eq!(regs.f & 0x0F, 0);
    }
}

#[test]
fn set_af_masks_low_nibble() {
    let mut regs = Registers::new();
    regs.set_af(0x12FF);
    assert_eq!(regs.a, 0x12);
    assert_eq!(regs.f, 0xF0);
    assert_eq!(regs.get_af(), 0x12F0);
}

#[test]
fn get_af_ignores_low_nibble_of_f() {
    let mut regs = Registers::new();
    regs.a = 0xAB;
    regs.f = 0x5F;
    assert_eq!(regs.get_af(), 0xAB50);
}

#[test]
fn set_flag_touches_one_bit() {
    let mut regs = Registers::new();
    regs.f = 0x0A;
    regs.set_flag(CpuFlags::C, true);
    assert_eq!(regs.f, 0x1A);
    regs.set_flag(CpuFlags::Z, true);
    assert_eq!(regs.f, 0x9A);
    regs.set_flag(CpuFlags::C, false);
    assert_eq!(regs.f, 0x8A);
}

#[test]
fn set_flags_writes_four_bits() {
    let mut regs = Registers::new();
    regs.f = 0x00;
    regs.set_flags(true, false, true, false);
    assert_eq!(regs.f, 0xA0);
    regs.set_flags(false, true, false, true);
    assert_eq!(regs.f, 0x50);
}

#[test]
fn increment_pc_wraps() {
    let mut regs = Registers::new();
    regs.pc = 0xFFFF;
    regs.increment_pc(1);
    assert_eq!(regs.pc, 0x0000);
    regs.pc = 0xFFF0;
    regs.increment_pc(0x20);
    assert_eq!(regs.pc, 0x0010);
}

#[test]
fn register_and_pair_access_by_name() {
    let mut regs = Registers::new();
    regs.write_reg(Reg8::D, 0x12);
    regs.write_reg(Reg8::E, 0x34);
    assert_eq!(regs.read_reg(Reg8::D), 0x12);
    assert_eq!(regs.get_pair(Pair::DE), 0x1234);
    regs.set_pair(Pair::HL, 0xC0DE);
    assert_eq!(regs.read_reg(Reg8::H), 0xC0);
    assert_eq!(regs.read_reg(Reg8::L), 0xDE);
}

#[test]
fn nop_changes_only_pc() {
    let mut cpu = cpu_with_program(&[0x00]);
    let before = cpu.registers;
    cpu.step().unwrap();
    assert_eq!(cpu.registers.pc, 0x0101);
    assert_eq!(cpu.registers, Registers { pc: 0x0101, ..before });
}

#[test]
fn load_b_into_a_advances_pc() {
    let mut cpu = cpu_with_program(&[0x78]);
    cpu.registers.b = 0x42;
    cpu.registers.a = 0x51;
    cpu.step().unwrap();
    assert_eq!(cpu.registers.a, 0x42);
    assert_eq!(cpu.registers.pc, 0x0101);
}

#[test]
fn add_scenario_through_step() {
    let mut cpu = cpu_with_program(&[0x80]);
    cpu.registers.a = 0x0F;
    cpu.registers.b = 0x01;
    cpu.registers.f = 0;
    cpu.step().unwrap();
    assert_eq!(cpu.registers.a, 0x10);
    assert_eq!(flags(&cpu), (false, false, true, false));
}

#[test]
fn unimplemented_opcode_is_reported() {
    let mut cpu = cpu_with_program(&[0xD3]);
    let before = cpu.registers;
    let result = cpu.step();
    assert_eq!(
        result,
        Err(CpuError::UnimplementedOpcode { opcode: 0xD3, prefix: None, pc: 0x0100 })
    );
    assert_eq!(cpu.registers, before);
}

#[test]
fn execute_reports_unimplemented_opcode() {
    let mut cpu = Cpu::new();
    cpu.registers.pc = 0x4000;
    let result = cpu.execute(0xFF);
    assert_eq!(
        result,
        Err(CpuError::UnimplementedOpcode { opcode: 0xFF, prefix: None, pc: 0x4000 })
    );
    assert_eq!(cpu.registers.pc, 0x4000);
}

#[test]
fn prefixed_opcode_is_reported_with_prefix() {
    let mut cpu = cpu_with_program(&[PREFIX, 0x37]);
    let before = cpu.registers;
    let result = cpu.step();
    assert_eq!(
        result,
        Err(CpuError::UnimplementedOpcode { opcode: 0x37, prefix: Some(0xCB), pc: 0x0100 })
    );
    assert_eq!(cpu.registers, before);
}

#[test]
fn execute_returns_instruction_length() {
    let mut cpu = Cpu::new();
    assert_eq!(cpu.execute(0x00), Ok(1));
    assert_eq!(cpu.execute(0x06), Ok(2));
    assert_eq!(cpu.execute(0x01), Ok(3));
    assert_eq!(cpu.registers.pc, 0x0100);
}

#[test]
fn decode_table_entries() {
    assert_eq!(decode(0x00), Some(Instruction::Nop));
    assert_eq!(decode(0x86), Some(Instruction::Add(Operand::AtHl)));
    assert_eq!(decode(0x97), Some(Instruction::Sub(Operand::Reg(Reg8::A))));
    assert_eq!(decode(0x3E), Some(Instruction::LoadImmediate(Reg8::A)));
    assert_eq!(decode(0x10), None);
    assert_eq!(decode(PREFIX), None);
    assert_eq!(decode_prefixed(0x00), None);
    assert_eq!(Instruction::StoreSp.length(), 3);
}

#[test]
fn load_bc_immediate_is_low_byte_first() {
    let mut cpu = cpu_with_program(&[0x01, 0x34, 0x12]);
    cpu.step().unwrap();
    assert_eq!(cpu.registers.get_bc(), 0x1234);
    assert_eq!(cpu.registers.pc, 0x0103);
}

#[test]
fn immediate_operand_wraps_past_top_of_memory() {
    let mut cpu = Cpu::new();
    cpu.registers.pc = 0xFFFF;
    cpu.bus.write_data(0xFFFF, 0x0E);
    cpu.bus.write_data(0x0000, 0x99);
    cpu.step().unwrap();
    assert_eq!(cpu.registers.c, 0x99);
    assert_eq!(cpu.registers.pc, 0x0001);
}

#[test]
fn load_immediates_into_c_e_l_a() {
    let mut cpu = cpu_with_program(&[0x0E, 0x11, 0x1E, 0x22, 0x2E, 0x33, 0x3E, 0x44]);
    for _ in 0..4 {
        cpu.step().unwrap();
    }
    assert_eq!(cpu.registers.c, 0x11);
    assert_eq!(cpu.registers.e, 0x22);
    assert_eq!(cpu.registers.l, 0x33);
    assert_eq!(cpu.registers.a, 0x44);
    assert_eq!(cpu.registers.pc, 0x0108);
}

#[test]
fn load_a_from_address_in_bc() {
    let mut cpu = cpu_with_program(&[0x0A]);
    cpu.registers.set_bc(0x2000);
    cpu.bus.write_data(0x2000, 0x5C);
    cpu.step().unwrap();
    assert_eq!(cpu.registers.a, 0x5C);
}

#[test]
fn increment_and_decrement_bc_wrap_without_flags() {
    let mut cpu = cpu_with_program(&[0x0B, 0x03, 0x03]);
    cpu.registers.set_bc(0x0000);
    let f = cpu.registers.f;
    cpu.step().unwrap();
    assert_eq!(cpu.registers.get_bc(), 0xFFFF);
    cpu.step().unwrap();
    assert_eq!(cpu.registers.get_bc(), 0x0000);
    cpu.step().unwrap();
    assert_eq!(cpu.registers.get_bc(), 0x0001);
    assert_eq!(cpu.registers.f, f);
}

#[test]
fn increment_register_sets_flags_and_keeps_carry() {
    let mut cpu = cpu_with_program(&[0x04, 0x0C]);
    cpu.registers.b = 0xFF;
    cpu.registers.c = 0x0F;
    cpu.registers.f = CpuFlags::C.mask() | CpuFlags::N.mask();
    cpu.step().unwrap();
    assert_eq!(cpu.registers.b, 0x00);
    assert_eq!(flags(&cpu), (true, false, true, true));
    cpu.step().unwrap();
    assert_eq!(cpu.registers.c, 0x10);
    assert_eq!(flags(&cpu), (false, false, true, true));
}

#[test]
fn decrement_register_sets_flags_and_keeps_carry() {
    let mut cpu = cpu_with_program(&[0x05, 0x0D]);
    cpu.registers.b = 0x01;
    cpu.registers.c = 0x00;
    cpu.registers.f = 0;
    cpu.step().unwrap();
    assert_eq!(cpu.registers.b, 0x00);
    assert_eq!(flags(&cpu), (true, true, false, false));
    cpu.step().unwrap();
    assert_eq!(cpu.registers.c, 0xFF);
    assert_eq!(flags(&cpu), (false, true, true, false));
}

#[test]
fn rotate_left_moves_bit_seven_to_carry() {
    let mut cpu = cpu_with_program(&[0x07, 0x07]);
    cpu.registers.a = 0x85;
    cpu.registers.f = CpuFlags::N.mask() | CpuFlags::H.mask();
    cpu.step().unwrap();
    assert_eq!(cpu.registers.a, 0x0B);
    assert_eq!(flags(&cpu), (false, false, false, true));
    cpu.step().unwrap();
    assert_eq!(cpu.registers.a, 0x16);
    assert_eq!(flags(&cpu), (false, false, false, false));
}

#[test]
fn rotate_left_of_zero_sets_zero() {
    let mut cpu = Cpu::new();
    cpu.registers.a = 0;
    cpu.alu_rlc();
    assert_eq!(cpu.registers.a, 0);
    assert_eq!(flags(&cpu), (true, false, false, false));
}

#[test]
fn store_sp_at_immediate_address() {
    let mut cpu = cpu_with_program(&[0x08, 0x00, 0xC0]);
    cpu.registers.sp = 0xBEEF;
    cpu.step().unwrap();
    assert_eq!(cpu.bus.read_data(0xC000), 0xEF);
    assert_eq!(cpu.bus.read_data(0xC001), 0xBE);
    assert_eq!(cpu.registers.pc, 0x0103);
}

#[test]
fn add_bc_into_hl_through_step() {
    let mut cpu = cpu_with_program(&[0x09]);
    cpu.registers.set_hl(0x8000);
    cpu.registers.set_bc(0x8001);
    cpu.registers.f = CpuFlags::Z.mask();
    cpu.step().unwrap();
    assert_eq!(cpu.registers.get_hl(), 0x0001);
    assert_eq!(flags(&cpu), (true, false, false, true));
}

#[test]
fn add_uses_carry_flag_as_carry_in() {
    let mut cpu = cpu_with_program(&[0x82]);
    cpu.registers.a = 0x10;
    cpu.registers.d = 0x20;
    cpu.registers.f = CpuFlags::C.mask();
    cpu.step().unwrap();
    assert_eq!(cpu.registers.a, 0x31);
    assert_eq!(cpu.registers.f, 0x00);
}

#[test]
fn increment_and_decrement_reg_return_wrapped_values() {
    let mut cpu = Cpu::new();
    assert_eq!(cpu.increment_reg(0xFF), 0x00);
    assert_eq!(cpu.decrement_reg(0x00), 0xFF);
}
