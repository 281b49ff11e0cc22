use ktc32_emu::emulator::instruction::{Mnemonic, Type};
use ktc32_emu::emulator::memory::Fault;
use ktc32_emu::emulator::Emulator;

fn machine() -> Emulator {
    let mut emulator = Emulator::new(Vec::new());
    emulator.init();
    emulator
}

fn r(mnemonic: Mnemonic, rd: u8, rs: u8) -> Type {
    Type::RFormat { mnemonic, rd, rs }
}

fn i16(mnemonic: Mnemonic, rd: u8, imm: u8) -> Type {
    Type::I16Format { mnemonic, rd, imm }
}

fn i32(mnemonic: Mnemonic, rd: u8, rs: u8, imm: i32) -> Type {
    Type::I32Format { mnemonic, rd, rs, imm }
}

fn registers(emulator: &Emulator) -> Vec<u32> {
    (0..32u8).map(|n| emulator.get_register(n)).collect()
}

#[test]
fn execute_register_operations() {
    let mut e = machine();
    e.set_register(1, 12);
    e.set_register(2, 10);
    assert_eq!(e.execute(&r(Mnemonic::Add, 1, 2)), Ok(()));
    assert_eq!(e.get_register(1), 22);
    assert_eq!(e.execute(&r(Mnemonic::Sub, 1, 2)), Ok(()));
    assert_eq!(e.get_register(1), 12);
    assert_eq!(e.execute(&r(Mnemonic::And, 1, 2)), Ok(()));
    assert_eq!(e.get_register(1), 8);
    assert_eq!(e.execute(&r(Mnemonic::Or, 1, 2)), Ok(()));
    assert_eq!(e.get_register(1), 10);
    assert_eq!(e.execute(&r(Mnemonic::Xor, 1, 2)), Ok(()));
    assert_eq!(e.get_register(1), 0);
    assert_eq!(e.execute(&r(Mnemonic::Mov, 1, 2)), Ok(()));
    assert_eq!(e.get_register(1), 10);
    e.set_register(3, 2);
    assert_eq!(e.execute(&r(Mnemonic::Sll, 1, 3)), Ok(()));
    assert_eq!(e.get_register(1), 40);
    assert_eq!(e.execute(&r(Mnemonic::Srl, 1, 3)), Ok(()));
    assert_eq!(e.get_register(1), 10);
    e.set_register(1, 0xFFFF_FF00);
    assert_eq!(e.execute(&r(Mnemonic::Sra, 1, 3)), Ok(()));
    assert_eq!(e.get_register(1), 0xFFFF_FFC0);
    assert_eq!(e.execute(&r(Mnemonic::Slt, 1, 3)), Ok(()));
    assert_eq!(e.get_register(1), 1);
    e.set_register(1, 0xFFFF_FF00);
    assert_eq!(e.execute(&r(Mnemonic::Sltu, 1, 3)), Ok(()));
    assert_eq!(e.get_register(1), 0);
    assert_eq!(e.cpu.pc, 0);
}

#[test]
fn execute_add_wraps_without_a_fault() {
    let mut e = machine();
    e.set_register(1, 0xFFFF_FFFF);
    e.set_register(2, 1);
    assert_eq!(e.execute(&r(Mnemonic::Add, 1, 2)), Ok(()));
    assert_eq!(e.get_register(1), 0);
    assert_eq!(e.execute(&r(Mnemonic::Sub, 1, 2)), Ok(()));
    assert_eq!(e.get_register(1), 0xFFFF_FFFF);
    assert_eq!(e.execute(&i32(Mnemonic::Addi, 1, 1, 1)), Ok(()));
    assert_eq!(e.get_register(1), 0);
}

#[test]
fn execute_shifts_by_an_immediate() {
    let mut e = machine();
    e.set_register(1, 0x8000_0010);
    assert_eq!(e.execute(&i16(Mnemonic::Slli, 1, 4)), Ok(()));
    assert_eq!(e.get_register(1), 0x0000_0100);
    e.set_register(1, 0x8000_0010);
    assert_eq!(e.execute(&i16(Mnemonic::Srli, 1, 4)), Ok(()));
    assert_eq!(e.get_register(1), 0x0800_0001);
    e.set_register(1, 0x8000_0010);
    assert_eq!(e.execute(&i16(Mnemonic::Srai, 1, 4)), Ok(()));
    assert_eq!(e.get_register(1), 0xF800_0001);
}

#[test]
fn execute_immediate_operations() {
    let mut e = machine();
    e.set_register(2, 0xF0);
    assert_eq!(e.execute(&i32(Mnemonic::Addi, 1, 2, -0xF1)), Ok(()));
    assert_eq!(e.get_register(1), 0xFFFF_FFFF);
    assert_eq!(e.execute(&i32(Mnemonic::Andi, 1, 2, 0x3C)), Ok(()));
    assert_eq!(e.get_register(1), 0x30);
    assert_eq!(e.execute(&i32(Mnemonic::Ori, 1, 2, 0x0F)), Ok(()));
    assert_eq!(e.get_register(1), 0xFF);
    assert_eq!(e.execute(&i32(Mnemonic::Xori, 1, 2, 0xFF)), Ok(()));
    assert_eq!(e.get_register(1), 0x0F);
    assert_eq!(e.execute(&i32(Mnemonic::Slti, 1, 2, 0xF1)), Ok(()));
    assert_eq!(e.get_register(1), 1);
    assert_eq!(e.execute(&i32(Mnemonic::Sltiu, 1, 2, 0xF0)), Ok(()));
    assert_eq!(e.get_register(1), 0);
}

#[test]
fn branches_add_the_offset_to_the_program_counter_when_taken() {
    let cases = [
        (Mnemonic::Beq, 5u32, 5u32, true),
        (Mnemonic::Beq, 5, 6, false),
        (Mnemonic::Bnq, 5, 6, true),
        (Mnemonic::Bnq, 5, 5, false),
        (Mnemonic::Blt, 0xFFFF_FFFF, 1, true),
        (Mnemonic::Blt, 1, 0xFFFF_FFFF, false),
        (Mnemonic::Blt, 3, 3, false),
        (Mnemonic::Bge, 1, 0xFFFF_FFFF, true),
        (Mnemonic::Bge, 3, 3, true),
        (Mnemonic::Bge, 0xFFFF_FFFF, 1, false),
        (Mnemonic::Bltu, 1, 0xFFFF_FFFF, true),
        (Mnemonic::Bltu, 0xFFFF_FFFF, 1, false),
        (Mnemonic::Bgeu, 0xFFFF_FFFF, 1, true),
        (Mnemonic::Bgeu, 3, 3, true),
        (Mnemonic::Bgeu, 1, 0xFFFF_FFFF, false),
    ];
    for (mnemonic, a, b, taken) in cases {
        let mut e = machine();
        e.set_register(1, a);
        e.set_register(2, b);
        e.cpu.pc = 100;
        assert_eq!(e.execute(&i32(mnemonic, 1, 2, 24)), Ok(()));
        assert_eq!(e.cpu.pc, if taken { 124 } else { 100 });
        assert_eq!(e.get_register(1), a);
        assert_eq!(e.get_register(2), b);
    }
}

#[test]
fn a_backward_branch_subtracts() {
    let mut e = machine();
    e.cpu.pc = 100;
    assert_eq!(e.execute(&i32(Mnemonic::Beq, 0, 0, -20)), Ok(()));
    assert_eq!(e.cpu.pc, 80);
}

#[test]
fn the_program_counter_wraps_around() {
    let mut e = machine();
    e.cpu.pc = 4;
    assert_eq!(e.execute(&i32(Mnemonic::Beq, 0, 0, -8)), Ok(()));
    assert_eq!(e.cpu.pc, 0xFFFF_FFFC);
    assert_eq!(e.execute(&i32(Mnemonic::Beq, 0, 0, 8)), Ok(()));
    assert_eq!(e.cpu.pc, 4);
}

#[test]
fn jalr_links_and_jumps_to_register_plus_offset() {
    let mut e = machine();
    e.cpu.pc = 48;
    e.set_register(2, 200);
    assert_eq!(e.execute(&i32(Mnemonic::Jalr, 1, 2, -4)), Ok(()));
    assert_eq!(e.get_register(1), 48);
    assert_eq!(e.cpu.pc, 196);
}

#[test]
fn jalr_reads_its_base_after_writing_the_link() {
    let mut e = machine();
    e.cpu.pc = 48;
    e.set_register(1, 200);
    assert_eq!(e.execute(&i32(Mnemonic::Jalr, 1, 1, 4)), Ok(()));
    assert_eq!(e.get_register(1), 48);
    assert_eq!(e.cpu.pc, 52);
}

#[test]
fn jalr_with_link_register_zero_only_jumps() {
    let mut e = machine();
    e.cpu.pc = 48;
    e.set_register(2, 0xFFFF_FFFF);
    assert_eq!(e.execute(&i32(Mnemonic::Jalr, 0, 2, 1)), Ok(()));
    assert_eq!(e.get_register(0), 0);
    assert_eq!(e.cpu.pc, 0);
}

#[test]
fn jal_links_and_jumps_relative_to_the_program_counter() {
    let mut e = machine();
    e.cpu.pc = 48;
    let jal = Type::JFormat { mnemonic: Mnemonic::Jal, rd: 31, imm: -48 };
    assert_eq!(e.execute(&jal), Ok(()));
    assert_eq!(e.get_register(31), 48);
    assert_eq!(e.cpu.pc, 0);
    let jal = Type::JFormat { mnemonic: Mnemonic::Jal, rd: 0, imm: 1_048_575 };
    assert_eq!(e.execute(&jal), Ok(()));
    assert_eq!(e.cpu.pc, 1_048_575);
}

#[test]
fn loads_extend_sign_or_zero() {
    let mut e = machine();
    assert_eq!(e.write_memory_32(16, 0x89AB_CDEF), Ok(()));
    e.set_register(2, 12);
    assert_eq!(e.execute(&i32(Mnemonic::Lb, 1, 2, 4)), Ok(()));
    assert_eq!(e.get_register(1), 0xFFFF_FFEF);
    assert_eq!(e.execute(&i32(Mnemonic::Lbu, 1, 2, 4)), Ok(()));
    assert_eq!(e.get_register(1), 0x0000_00EF);
    assert_eq!(e.execute(&i32(Mnemonic::Lh, 1, 2, 4)), Ok(()));
    assert_eq!(e.get_register(1), 0xFFFF_CDEF);
    assert_eq!(e.execute(&i32(Mnemonic::Lhu, 1, 2, 4)), Ok(()));
    assert_eq!(e.get_register(1), 0x0000_CDEF);
    assert_eq!(e.execute(&i32(Mnemonic::Lw, 1, 2, 4)), Ok(()));
    assert_eq!(e.get_register(1), 0x89AB_CDEF);
}

#[test]
fn loads_of_positive_values_do_not_extend() {
    let mut e = machine();
    assert_eq!(e.write_memory_32(0, 0x0000_7F7F), Ok(()));
    assert_eq!(e.execute(&i32(Mnemonic::Lb, 1, 0, 0)), Ok(()));
    assert_eq!(e.get_register(1), 0x7F);
    assert_eq!(e.execute(&i32(Mnemonic::Lh, 1, 0, 0)), Ok(()));
    assert_eq!(e.get_register(1), 0x7F7F);
}

#[test]
fn load_uses_the_base_register_and_a_negative_offset() {
    let mut e = machine();
    assert_eq!(e.write_memory_8(7, 0x42), Ok(()));
    e.set_register(5, 10);
    assert_eq!(e.execute(&i32(Mnemonic::Lbu, 6, 5, -3)), Ok(()));
    assert_eq!(e.get_register(6), 0x42);
}

#[test]
fn load_into_register_zero_is_dropped() {
    let mut e = machine();
    assert_eq!(e.write_memory_32(0, 0xFFFF_FFFF), Ok(()));
    assert_eq!(e.execute(&i32(Mnemonic::Lw, 0, 0, 0)), Ok(()));
    assert_eq!(e.get_register(0), 0);
}

#[test]
fn stores_write_the_low_bits() {
    let mut e = machine();
    e.set_register(1, 0x1234_5678);
    e.set_register(2, 32);
    assert_eq!(e.execute(&i32(Mnemonic::Sb, 1, 2, 0)), Ok(()));
    assert_eq!(e.read_memory_32(32), Ok(0x0000_0078));
    assert_eq!(e.execute(&i32(Mnemonic::Sh, 1, 2, 4)), Ok(()));
    assert_eq!(e.read_memory_32(36), Ok(0x0000_5678));
    assert_eq!(e.execute(&i32(Mnemonic::Sw, 1, 2, 8)), Ok(()));
    assert_eq!(e.read_memory_32(40), Ok(0x1234_5678));
    assert_eq!(e.get_register(1), 0x1234_5678);
    assert_eq!(e.cpu.pc, 0);
}

#[test]
fn lui_puts_the_immediate_in_the_upper_half() {
    let mut e = machine();
    assert_eq!(e.execute(&i32(Mnemonic::Lui, 1, 9, 0x1234)), Ok(()));
    assert_eq!(e.get_register(1), 0x1234_0000);
    assert_eq!(e.execute(&i32(Mnemonic::Lui, 1, 9, -1)), Ok(()));
    assert_eq!(e.get_register(1), 0xFFFF_0000);
    assert_eq!(e.execute(&i32(Mnemonic::Lui, 1, 9, -32768)), Ok(()));
    assert_eq!(e.get_register(1), 0x8000_0000);
}

#[test]
fn a_load_out_of_bounds_faults_and_changes_nothing() {
    for (mnemonic, last_good) in [
        (Mnemonic::Lb, 767),
        (Mnemonic::Lbu, 767),
        (Mnemonic::Lh, 766),
        (Mnemonic::Lhu, 766),
        (Mnemonic::Lw, 764),
    ] {
        let mut e = machine();
        e.set_register(1, 99);
        e.set_register(2, last_good);
        e.cpu.pc = 8;
        assert_eq!(e.execute(&i32(mnemonic, 1, 2, 1)), Err(Fault::OutOfBounds));
        assert_eq!(e.get_register(1), 99);
        assert_eq!(e.cpu.pc, 8);
        assert_eq!(e.execute(&i32(mnemonic, 1, 2, 0)), Ok(()));
        assert_eq!(e.get_register(1), 0);
    }
}

#[test]
fn a_store_out_of_bounds_faults_and_changes_nothing() {
    for (mnemonic, last_good) in [(Mnemonic::Sb, 767), (Mnemonic::Sh, 766), (Mnemonic::Sw, 764)] {
        let mut e = machine();
        e.set_register(1, 0xFFFF_FFFF);
        e.set_register(2, last_good);
        assert_eq!(e.execute(&i32(mnemonic, 1, 2, 1)), Err(Fault::OutOfBounds));
        assert_eq!(e.read_memory_32(764), Ok(0));
        assert_eq!(e.execute(&i32(mnemonic, 1, 2, 0)), Ok(()));
        assert_ne!(e.read_memory_32(764), Ok(0));
    }
}

#[test]
fn an_effective_address_wraps_around() {
    let mut e = machine();
    assert_eq!(e.write_memory_8(3, 0x5A), Ok(()));
    e.set_register(2, 0xFFFF_FFFF);
    assert_eq!(e.execute(&i32(Mnemonic::Lbu, 1, 2, 4)), Ok(()));
    assert_eq!(e.get_register(1), 0x5A);
    assert_eq!(e.execute(&i32(Mnemonic::Lbu, 1, 0, -1)), Err(Fault::OutOfBounds));
}

#[test]
fn unknown_instructions_do_nothing() {
    let mut e = machine();
    e.set_register(1, 7);
    e.cpu.pc = 20;
    let before = registers(&e);
    assert_eq!(e.execute(&r(Mnemonic::Unknown, 0, 0)), Ok(()));
    assert_eq!(e.execute(&i32(Mnemonic::Unknown, 0, 0, 0)), Ok(()));
    assert_eq!(e.execute(&r(Mnemonic::Unknown, 1, 1)), Ok(()));
    assert_eq!(registers(&e), before);
    assert_eq!(e.cpu.pc, 20);
    assert_eq!(e.read_memory_32(0), Ok(0));
}

#[test]
fn a_mnemonic_in_a_format_that_does_not_carry_it_does_nothing() {
    let mut e = machine();
    e.set_register(1, 7);
    e.set_register(2, 1);
    e.cpu.pc = 20;
    let before = registers(&e);
    assert_eq!(e.execute(&r(Mnemonic::Addi, 1, 2)), Ok(()));
    assert_eq!(e.execute(&r(Mnemonic::Slli, 1, 2)), Ok(()));
    assert_eq!(e.execute(&i16(Mnemonic::Add, 1, 2)), Ok(()));
    assert_eq!(e.execute(&i32(Mnemonic::Add, 1, 2, 3)), Ok(()));
    assert_eq!(e.execute(&i32(Mnemonic::Jal, 1, 2, 8)), Ok(()));
    assert_eq!(e.execute(&Type::JFormat { mnemonic: Mnemonic::Jalr, rd: 1, imm: 8 }), Ok(()));
    assert_eq!(e.execute(&Type::JFormat { mnemonic: Mnemonic::Beq, rd: 1, imm: 8 }), Ok(()));
    assert_eq!(registers(&e), before);
    assert_eq!(e.cpu.pc, 20);
}

#[test]
fn execute_leaves_the_break_point() {
    let mut e = machine();
    e.break_point = 123;
    assert_eq!(e.execute(&i32(Mnemonic::Addi, 1, 0, 5)), Ok(()));
    assert_eq!(e.execute(&i32(Mnemonic::Sw, 1, 0, 0)), Ok(()));
    assert_eq!(e.execute(&i32(Mnemonic::Beq, 0, 0, 8)), Ok(()));
    assert_eq!(e.break_point, 123);
}
