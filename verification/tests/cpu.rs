use ktc32_emu::emulator::cpu::Cpu;

fn cpu_with(values: &[(u8, u32)]) -> Cpu {
    let mut cpu = Cpu::new();
    for (num, value) in values {
        cpu.set_reg(*num, *value);
    }
    cpu
}

#[test]
fn new_cpu_is_all_zero() {
    let cpu = Cpu::new();
    assert_eq!(cpu.pc, 0);
    for num in 0..32u8 {
        assert_eq!(cpu.get_reg(num), 0);
    }
}

#[test]
fn every_register_but_zero_reads_back_what_was_written() {
    let mut cpu = Cpu::new();
    for num in 1..32u8 {
        let value = 0x1000_0000 + num as u32;
        cpu.set_reg(num, value);
        assert_eq!(cpu.get_reg(num), value);
    }
    for num in 1..32u8 {
        assert_eq!(cpu.get_reg(num), 0x1000_0000 + num as u32);
    }
}

#[test]
fn register_zero_is_hardwired_to_zero() {
    let mut cpu = Cpu::new();
    cpu.set_reg(0, 0xFFFF_FFFF);
    assert_eq!(cpu.get_reg(0), 0);
    assert_eq!(cpu.register[0], 0);
    cpu.register[0] = 5;
    assert_eq!(cpu.get_reg(0), 0);
}

#[test]
fn set_reg_leaves_the_program_counter() {
    let mut cpu = Cpu::new();
    cpu.pc = 40;
    cpu.set_reg(3, 9);
    assert_eq!(cpu.pc, 40);
}

#[test]
fn mov_copies_rs_to_rd() {
    let mut cpu = cpu_with(&[(1, 11), (2, 22)]);
    cpu.mov(1, 2);
    assert_eq!(cpu.get_reg(1), 22);
    assert_eq!(cpu.get_reg(2), 22);
    cpu.mov(2, 0);
    assert_eq!(cpu.get_reg(2), 0);
}

#[test]
fn add_adds() {
    let mut cpu = cpu_with(&[(1, 5), (2, 3)]);
    cpu.add(1, 2);
    assert_eq!(cpu.get_reg(1), 8);
    assert_eq!(cpu.get_reg(2), 3);
}

#[test]
fn add_wraps_on_overflow() {
    let mut cpu = cpu_with(&[(1, 0xFFFF_FFFF), (2, 1)]);
    cpu.add(1, 2);
    assert_eq!(cpu.get_reg(1), 0);
    let mut cpu = cpu_with(&[(1, 0x8000_0000), (2, 0x8000_0001)]);
    cpu.add(1, 2);
    assert_eq!(cpu.get_reg(1), 1);
}

#[test]
fn add_a_register_to_itself() {
    let mut cpu = cpu_with(&[(4, 0x4000_0001)]);
    cpu.add(4, 4);
    assert_eq!(cpu.get_reg(4), 0x8000_0002);
}

#[test]
fn sub_wraps_below_zero() {
    let mut cpu = cpu_with(&[(1, 0), (2, 1)]);
    cpu.sub(1, 2);
    assert_eq!(cpu.get_reg(1), 0xFFFF_FFFF);
    let mut cpu = cpu_with(&[(1, 10), (2, 3)]);
    cpu.sub(1, 2);
    assert_eq!(cpu.get_reg(1), 7);
}

#[test]
fn and_or_xor_work_bit_by_bit() {
    let mut cpu = cpu_with(&[(1, 0b1100), (2, 0b1010)]);
    cpu.and(1, 2);
    assert_eq!(cpu.get_reg(1), 0b1000);
    let mut cpu = cpu_with(&[(1, 0b1100), (2, 0b1010)]);
    cpu.or(1, 2);
    assert_eq!(cpu.get_reg(1), 0b1110);
    let mut cpu = cpu_with(&[(1, 0b1100), (2, 0b1010)]);
    cpu.xor(1, 2);
    assert_eq!(cpu.get_reg(1), 0b0110);
}

#[test]
fn sll_shifts_left_and_drops_the_high_bits() {
    let mut cpu = cpu_with(&[(1, 0x8000_0001), (2, 4)]);
    cpu.sll(1, 2);
    assert_eq!(cpu.get_reg(1), 0x0000_0010);
}

#[test]
fn shift_amount_from_a_register_is_taken_modulo_32() {
    let mut cpu = cpu_with(&[(1, 1), (2, 33)]);
    cpu.sll(1, 2);
    assert_eq!(cpu.get_reg(1), 2);
    let mut cpu = cpu_with(&[(1, 0x10), (2, 32)]);
    cpu.srl(1, 2);
    assert_eq!(cpu.get_reg(1), 0x10);
    let mut cpu = cpu_with(&[(1, 0x8000_0000), (2, 0xFFFF_FFE1)]);
    cpu.sra(1, 2);
    assert_eq!(cpu.get_reg(1), 0xC000_0000);
}

#[test]
fn srl_fills_with_zeros() {
    let mut cpu = cpu_with(&[(1, 0x8000_0000), (2, 31)]);
    cpu.srl(1, 2);
    assert_eq!(cpu.get_reg(1), 1);
}

#[test]
fn sra_fills_with_the_sign_bit() {
    let mut cpu = cpu_with(&[(1, 0x8000_0000), (2, 31)]);
    cpu.sra(1, 2);
    assert_eq!(cpu.get_reg(1), 0xFFFF_FFFF);
    let mut cpu = cpu_with(&[(1, 0x7FFF_FFFF), (2, 4)]);
    cpu.sra(1, 2);
    assert_eq!(cpu.get_reg(1), 0x07FF_FFFF);
    let mut cpu = cpu_with(&[(1, 0xFFFF_FFF0), (2, 2)]);
    cpu.sra(1, 2);
    assert_eq!(cpu.get_reg(1), 0xFFFF_FFFC);
}

#[test]
fn slt_compares_as_signed_and_writes_rd() {
    let mut cpu = cpu_with(&[(1, 0xFFFF_FFFF), (2, 1)]);
    cpu.slt(1, 2);
    assert_eq!(cpu.get_reg(1), 1);
    assert_eq!(cpu.get_reg(31), 0);
    let mut cpu = cpu_with(&[(1, 1), (2, 0xFFFF_FFFF)]);
    cpu.slt(1, 2);
    assert_eq!(cpu.get_reg(1), 0);
    let mut cpu = cpu_with(&[(1, 7), (2, 7)]);
    cpu.slt(1, 2);
    assert_eq!(cpu.get_reg(1), 0);
}

#[test]
fn sltu_compares_as_unsigned_and_writes_rd() {
    let mut cpu = cpu_with(&[(1, 0xFFFF_FFFF), (2, 1)]);
    cpu.sltu(1, 2);
    assert_eq!(cpu.get_reg(1), 0);
    let mut cpu = cpu_with(&[(1, 1), (2, 0xFFFF_FFFF)]);
    cpu.sltu(1, 2);
    assert_eq!(cpu.get_reg(1), 1);
    assert_eq!(cpu.get_reg(31), 0);
}

#[test]
fn shifts_by_an_immediate() {
    let mut cpu = cpu_with(&[(1, 0x8000_0001)]);
    cpu.slli(1, 1);
    assert_eq!(cpu.get_reg(1), 2);
    let mut cpu = cpu_with(&[(1, 0x8000_0001)]);
    cpu.srli(1, 1);
    assert_eq!(cpu.get_reg(1), 0x4000_0000);
    let mut cpu = cpu_with(&[(1, 0x8000_0001)]);
    cpu.srai(1, 1);
    assert_eq!(cpu.get_reg(1), 0xC000_0000);
    let mut cpu = cpu_with(&[(1, 0x8000_0001)]);
    cpu.srai(1, 31);
    assert_eq!(cpu.get_reg(1), 0xFFFF_FFFF);
    let mut cpu = cpu_with(&[(1, 0x1234_5678)]);
    cpu.slli(1, 0);
    assert_eq!(cpu.get_reg(1), 0x1234_5678);
    cpu.slli(1, 31);
    assert_eq!(cpu.get_reg(1), 0);
}

#[test]
fn addi_adds_a_signed_immediate_and_wraps() {
    let mut cpu = cpu_with(&[(2, 10)]);
    cpu.addi(1, 2, 5);
    assert_eq!(cpu.get_reg(1), 15);
    cpu.addi(1, 2, -11);
    assert_eq!(cpu.get_reg(1), 0xFFFF_FFFF);
    let mut cpu = cpu_with(&[(2, 0xFFFF_FFFF)]);
    cpu.addi(1, 2, 1);
    assert_eq!(cpu.get_reg(1), 0);
    cpu.addi(3, 0, 7);
    assert_eq!(cpu.get_reg(3), 7);
}

#[test]
fn logic_with_an_immediate_uses_all_32_bits_of_it() {
    let mut cpu = cpu_with(&[(2, 0x1234_5678)]);
    cpu.andi(1, 2, -1);
    assert_eq!(cpu.get_reg(1), 0x1234_5678);
    cpu.andi(1, 2, 0xFF);
    assert_eq!(cpu.get_reg(1), 0x78);
    cpu.ori(1, 2, -256);
    assert_eq!(cpu.get_reg(1), 0xFFFF_FF78);
    cpu.xori(1, 2, -1);
    assert_eq!(cpu.get_reg(1), 0xEDCB_A987);
}

#[test]
fn slti_compares_as_signed() {
    let mut cpu = cpu_with(&[(2, 0xFFFF_FFFE)]);
    cpu.slti(1, 2, -1);
    assert_eq!(cpu.get_reg(1), 1);
    cpu.slti(1, 2, -2);
    assert_eq!(cpu.get_reg(1), 0);
    cpu.slti(1, 2, 0);
    assert_eq!(cpu.get_reg(1), 1);
}

#[test]
fn sltiu_compares_as_unsigned() {
    let mut cpu = cpu_with(&[(2, 5)]);
    cpu.sltiu(1, 2, -1);
    assert_eq!(cpu.get_reg(1), 1);
    cpu.sltiu(1, 2, 5);
    assert_eq!(cpu.get_reg(1), 0);
    cpu.sltiu(1, 2, 6);
    assert_eq!(cpu.get_reg(1), 1);
}

#[test]
fn an_operation_into_register_zero_is_dropped() {
    let mut cpu = cpu_with(&[(1, 5), (2, 6)]);
    cpu.add(0, 1);
    cpu.mov(0, 2);
    cpu.addi(0, 1, 9);
    cpu.slt(0, 1);
    cpu.slli(0, 3);
    assert_eq!(cpu.get_reg(0), 0);
    assert_eq!(cpu.register[0], 0);
    assert_eq!(cpu.get_reg(1), 5);
    assert_eq!(cpu.get_reg(2), 6);
}

#[test]
fn register_zero_as_a_source_is_zero() {
    let mut cpu = cpu_with(&[(1, 5)]);
    cpu.register[0] = 77;
    cpu.add(1, 0);
    assert_eq!(cpu.get_reg(1), 5);
    cpu.and(1, 0);
    assert_eq!(cpu.get_reg(1), 0);
}

#[test]
fn operations_leave_the_program_counter() {
    let mut cpu = cpu_with(&[(1, 5), (2, 6)]);
    cpu.pc = 12;
    cpu.add(1, 2);
    cpu.sll(1, 2);
    cpu.addi(1, 2, 3);
    cpu.sltiu(1, 2, 3);
    assert_eq!(cpu.pc, 12);
}
