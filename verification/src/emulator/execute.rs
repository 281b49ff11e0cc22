//! The executor: the effect of one decoded instruction on the machine.
//!
//! The program counter that an instruction sees is the address of the
//! instruction after it: the control loop advances it before it executes.
//! Branch and jump offsets are therefore relative to the next instruction,
//! and the return address that a jump saves is the address of the next
//! instruction.

use vstd::prelude::*;
use crate::emulator::bits::{
    lemma_low_bits, lemma_sign_extend_byte, lemma_sign_extend_half, lemma_upper_immediate,
    lemma_word_as_signed, signed32, signed_value, wrap32,
};
use crate::emulator::cpu::{Cpu, CpuState};
use crate::emulator::instruction::{Mnemonic, Type};
use crate::emulator::memory::{
    accessible, capacity, load16, load32, store16, store32, store8, Fault, Memory,
};
use crate::emulator::{Emulator, MachineState};

verus! {

/// Whether the conditional branch `mnemonic` is taken when `rd` holds `a`
/// and `rs` holds `b`.
pub open spec fn branch_taken(mnemonic: Mnemonic, a: u32, b: u32) -> bool {
    match mnemonic {
        Mnemonic::Beq => a == b,
        Mnemonic::Bnq => a != b,
        Mnemonic::Blt => signed32(a) < signed32(b),
        Mnemonic::Bge => signed32(a) >= signed32(b),
        Mnemonic::Bltu => a < b,
        Mnemonic::Bgeu => a >= b,
        _ => false,
    }
}

/// The address that a load or store reaches: `rs + imm`, modulo 2^32.
pub open spec fn effective_address(cpu: CpuState, rs: u8, imm: i32) -> u32 {
    wrap32(cpu.read(rs) + imm)
}

/// The effect of a record in the register-register format. A mnemonic that
/// the format does not carry has no effect.
pub open spec fn execute_register_op(
    cpu: CpuState,
    mnemonic: Mnemonic,
    rd: u8,
    rs: u8,
) -> CpuState {
    match mnemonic {
        Mnemonic::Mov => cpu.mov(rd, rs),
        Mnemonic::Add => cpu.add(rd, rs),
        Mnemonic::Sub => cpu.sub(rd, rs),
        Mnemonic::And => cpu.and(rd, rs),
        Mnemonic::Or => cpu.or(rd, rs),
        Mnemonic::Xor => cpu.xor(rd, rs),
        Mnemonic::Sll => cpu.sll(rd, rs),
        Mnemonic::Srl => cpu.srl(rd, rs),
        Mnemonic::Sra => cpu.sra(rd, rs),
        Mnemonic::Slt => cpu.slt(rd, rs),
        Mnemonic::Sltu => cpu.sltu(rd, rs),
        _ => cpu,
    }
}

/// The effect of a record in the shift-immediate format. A mnemonic that
/// the format does not carry has no effect.
pub open spec fn execute_shift_immediate(
    cpu: CpuState,
    mnemonic: Mnemonic,
    rd: u8,
    imm: u8,
) -> CpuState {
    match mnemonic {
        Mnemonic::Slli => cpu.slli(rd, imm),
        Mnemonic::Srli => cpu.srli(rd, imm),
        Mnemonic::Srai => cpu.srai(rd, imm),
        _ => cpu,
    }
}

/// The effect of a record in the 32-bit immediate format on the processor
/// alone, for the mnemonics that do not touch memory. A mnemonic that the
/// format does not carry has no effect.
pub open spec fn execute_immediate_op(
    cpu: CpuState,
    mnemonic: Mnemonic,
    rd: u8,
    rs: u8,
    imm: i32,
) -> CpuState {
    match mnemonic {
        Mnemonic::Addi => cpu.addi(rd, rs, imm),
        Mnemonic::Andi => cpu.andi(rd, rs, imm),
        Mnemonic::Ori => cpu.ori(rd, rs, imm),
        Mnemonic::Xori => cpu.xori(rd, rs, imm),
        Mnemonic::Slti => cpu.slti(rd, rs, imm),
        Mnemonic::Sltiu => cpu.sltiu(rd, rs, imm),
        Mnemonic::Beq | Mnemonic::Bnq | Mnemonic::Blt | Mnemonic::Bge | Mnemonic::Bltu
        | Mnemonic::Bgeu => if branch_taken(mnemonic, cpu.read(rd), cpu.read(rs)) {
            cpu.jump(wrap32(cpu.pc + imm))
        } else {
            cpu
        },
        Mnemonic::Jalr => {
            let linked = cpu.write(rd, cpu.pc);
            linked.jump(wrap32(linked.read(rs) + imm))
        },
        Mnemonic::Lui => cpu.write(rd, wrap32(imm * 0x1_0000)),
        _ => cpu,
    }
}

/// The effect of a record in the jump format on the processor. A mnemonic
/// that the format does not carry has no effect.
pub open spec fn execute_jump(cpu: CpuState, mnemonic: Mnemonic, rd: u8, imm: i32) -> CpuState {
    match mnemonic {
        Mnemonic::Jal => cpu.write(rd, cpu.pc).jump(wrap32(cpu.pc + imm)),
        _ => cpu,
    }
}

/// Number of bytes that a load or store touches; 0 for every other
/// mnemonic.
pub open spec fn access_width(mnemonic: Mnemonic) -> int {
    match mnemonic {
        Mnemonic::Lb | Mnemonic::Lbu | Mnemonic::Sb => 1,
        Mnemonic::Lh | Mnemonic::Lhu | Mnemonic::Sh => 2,
        Mnemonic::Lw | Mnemonic::Sw => 4,
        _ => 0,
    }
}

/// The word that the load `mnemonic` puts into its register when it reads
/// at `address`: `LB` and `LH` extend the sign, `LBU` and `LHU` fill with
/// zeros.
pub open spec fn loaded_value(mnemonic: Mnemonic, mem: Seq<u8>, address: int) -> u32 {
    match mnemonic {
        Mnemonic::Lb => wrap32(signed_value(mem[address] as int, 0x100)),
        Mnemonic::Lh => wrap32(signed_value(load16(mem, address), 0x1_0000)),
        Mnemonic::Lbu => mem[address] as u32,
        Mnemonic::Lhu => load16(mem, address) as u32,
        _ => load32(mem, address) as u32,
    }
}

/// The memory after the store `mnemonic` has written the low bits of
/// `value` at `address`.
pub open spec fn stored_memory(
    mnemonic: Mnemonic,
    mem: Seq<u8>,
    address: int,
    value: u32,
) -> Seq<u8> {
    match mnemonic {
        Mnemonic::Sb => store8(mem, address, (value % 0x100) as u8),
        Mnemonic::Sh => store16(mem, address, (value % 0x1_0000) as u16),
        _ => store32(mem, address, value),
    }
}

/// The effect of a load: register `rd` takes what lies at the effective
/// address, or the load faults because not all of its bytes are accessible.
pub open spec fn execute_load(
    s: MachineState,
    mnemonic: Mnemonic,
    rd: u8,
    rs: u8,
    imm: i32,
) -> Result<MachineState, Fault> {
    let address = effective_address(s.cpu, rs, imm) as int;
    if accessible(s.mem, address, access_width(mnemonic)) {
        Ok(MachineState { cpu: s.cpu.write(rd, loaded_value(mnemonic, s.mem, address)), ..s })
    } else {
        Err(Fault::OutOfBounds)
    }
}

/// The effect of a store: the memory at the effective address takes the
/// low bits of register `rd`, or the store faults because not all of its
/// bytes are accessible.
pub open spec fn execute_store(
    s: MachineState,
    mnemonic: Mnemonic,
    rd: u8,
    rs: u8,
    imm: i32,
) -> Result<MachineState, Fault> {
    let address = effective_address(s.cpu, rs, imm) as int;
    if accessible(s.mem, address, access_width(mnemonic)) {
        Ok(MachineState { mem: stored_memory(mnemonic, s.mem, address, s.cpu.read(rd)), ..s })
    } else {
        Err(Fault::OutOfBounds)
    }
}

/// The state after executing `inst` in state `s`, or the fault that the
/// instruction raises. A faulting instruction changes nothing. A record
/// whose mnemonic is `UNKNOWN`, or one that its format does not carry, has
/// no effect.
pub open spec fn execute_spec(inst: Type, s: MachineState) -> Result<MachineState, Fault> {
    match inst {
        Type::RFormat { mnemonic, rd, rs } => Ok(
            MachineState { cpu: execute_register_op(s.cpu, mnemonic, rd, rs), ..s },
        ),
        Type::I16Format { mnemonic, rd, imm } => Ok(
            MachineState { cpu: execute_shift_immediate(s.cpu, mnemonic, rd, imm), ..s },
        ),
        Type::I32Format { mnemonic, rd, rs, imm } => if mnemonic.is_load() {
            execute_load(s, mnemonic, rd, rs, imm)
        } else if mnemonic.is_store() {
            execute_store(s, mnemonic, rd, rs, imm)
        } else {
            Ok(MachineState { cpu: execute_immediate_op(s.cpu, mnemonic, rd, rs, imm), ..s })
        },
        Type::JFormat { mnemonic, rd, imm } => Ok(
            MachineState { cpu: execute_jump(s.cpu, mnemonic, rd, imm), ..s },
        ),
    }
}

/// Only a load or a store whose bytes are not all accessible faults, and
/// then with `OutOfBounds`. Every other instruction succeeds on every
/// state: arithmetic wraps, and an unknown instruction does nothing.
pub proof fn lemma_faults_are_memory_faults(inst: Type, s: MachineState)
    ensures
        execute_spec(inst, s) is Err <==> (inst matches Type::I32Format { mnemonic, rs, imm, .. }
            && access_width(mnemonic) > 0 && !accessible(
            s.mem,
            effective_address(s.cpu, rs, imm) as int,
            access_width(mnemonic),
        )),
        execute_spec(inst, s) matches Err(fault) ==> fault == Fault::OutOfBounds,
{
}

/// An instruction leaves the break point alone, keeps the register file
/// at its 32 slots and the memory at its capacity.
pub proof fn lemma_execute_preserves_shape(inst: Type, s: MachineState)
    requires
        inst.wf(),
        s.cpu.wf(),
    ensures
        execute_spec(inst, s) matches Ok(after) ==> {
            &&& after.break_point == s.break_point
            &&& after.cpu.wf()
            &&& capacity(after.mem) == capacity(s.mem)
        },
{
}

/// Carries out a record in the register-register format.
fn run_register_op(cpu: &mut Cpu, mnemonic: Mnemonic, rd: u8, rs: u8)
    requires
        rd < 32,
        rs < 32,
    ensures
        final(cpu)@ == execute_register_op(old(cpu)@, mnemonic, rd, rs),
{
    match mnemonic {
        Mnemonic::Mov => cpu.mov(rd, rs),
        Mnemonic::Add => cpu.add(rd, rs),
        Mnemonic::Sub => cpu.sub(rd, rs),
        Mnemonic::And => cpu.and(rd, rs),
        Mnemonic::Or => cpu.or(rd, rs),
        Mnemonic::Xor => cpu.xor(rd, rs),
        Mnemonic::Sll => cpu.sll(rd, rs),
        Mnemonic::Srl => cpu.srl(rd, rs),
        Mnemonic::Sra => cpu.sra(rd, rs),
        Mnemonic::Slt => cpu.slt(rd, rs),
        Mnemonic::Sltu => cpu.sltu(rd, rs),
        _ => {},
    }
}

/// Carries out a record in the shift-immediate format.
fn run_shift_immediate(cpu: &mut Cpu, mnemonic: Mnemonic, rd: u8, imm: u8)
    requires
        rd < 32,
        imm < 32,
    ensures
        final(cpu)@ == execute_shift_immediate(old(cpu)@, mnemonic, rd, imm),
{
    match mnemonic {
        Mnemonic::Slli => cpu.slli(rd, imm),
        Mnemonic::Srli => cpu.srli(rd, imm),
        Mnemonic::Srai => cpu.srai(rd, imm),
        _ => {},
    }
}

/// Decides a conditional branch on the values of its two registers.
fn decide_branch(mnemonic: Mnemonic, a: u32, b: u32) -> (taken: bool)
    ensures
        taken == branch_taken(mnemonic, a, b),
{
    proof {
        lemma_word_as_signed(a);
        lemma_word_as_signed(b);
    }
    match mnemonic {
        Mnemonic::Beq => a == b,
        Mnemonic::Bnq => a != b,
        Mnemonic::Blt => (#[verifier::truncate] (a as i32)) < (#[verifier::truncate] (b as i32)),
        Mnemonic::Bge => (#[verifier::truncate] (a as i32)) >= (#[verifier::truncate] (b as i32)),
        Mnemonic::Bltu => a < b,
        Mnemonic::Bgeu => a >= b,
        _ => false,
    }
}

/// Carries out a record in the 32-bit immediate format that works on the
/// processor alone.
fn run_immediate_op(cpu: &mut Cpu, mnemonic: Mnemonic, rd: u8, rs: u8, imm: i32)
    requires
        rd < 32,
        rs < 32,
    ensures
        final(cpu)@ == execute_immediate_op(old(cpu)@, mnemonic, rd, rs, imm),
{
    match mnemonic {
        Mnemonic::Addi => cpu.addi(rd, rs, imm),
        Mnemonic::Andi => cpu.andi(rd, rs, imm),
        Mnemonic::Ori => cpu.ori(rd, rs, imm),
        Mnemonic::Xori => cpu.xori(rd, rs, imm),
        Mnemonic::Slti => cpu.slti(rd, rs, imm),
        Mnemonic::Sltiu => cpu.sltiu(rd, rs, imm),
        Mnemonic::Beq | Mnemonic::Bnq | Mnemonic::Blt | Mnemonic::Bge | Mnemonic::Bltu
        | Mnemonic::Bgeu => {
            if decide_branch(mnemonic, cpu.get_reg(rd), cpu.get_reg(rs)) {
                cpu.pc = cpu.pc.wrapping_add_signed(imm);
            }
        },
        Mnemonic::Jalr => {
            let link: u32 = cpu.pc;
            cpu.set_reg(rd, link);
            cpu.pc = cpu.get_reg(rs).wrapping_add_signed(imm);
        },
        Mnemonic::Lui => {
            proof {
                lemma_upper_immediate(imm);
            }
            cpu.set_reg(rd, (#[verifier::truncate] (imm as u32)) << 16);
        },
        _ => {},
    }
}

/// Carries out a record in the jump format.
fn run_jump(cpu: &mut Cpu, mnemonic: Mnemonic, rd: u8, imm: i32)
    requires
        rd < 32,
    ensures
        final(cpu)@ == execute_jump(old(cpu)@, mnemonic, rd, imm),
{
    match mnemonic {
        Mnemonic::Jal => {
            let link: u32 = cpu.pc;
            cpu.set_reg(rd, link);
            cpu.pc = link.wrapping_add_signed(imm);
        },
        _ => {},
    }
}

/// Reads what the load `mnemonic` puts into its register.
fn load(memory: &Memory, mnemonic: Mnemonic, address: u32) -> (r: Result<u32, Fault>)
    requires
        mnemonic.is_load(),
    ensures
        match r {
            Ok(value) => accessible(memory@, address as int, access_width(mnemonic)) && value
                == loaded_value(mnemonic, memory@, address as int),
            Err(fault) => !accessible(memory@, address as int, access_width(mnemonic)) && fault
                == Fault::OutOfBounds,
        },
{
    match mnemonic {
        Mnemonic::Lb => {
            let byte: u8 = memory.read_data_8bit(address)?;
            proof {
                lemma_sign_extend_byte(byte);
            }
            let value: i32 = (#[verifier::truncate] (byte as i8)) as i32;
            Ok(#[verifier::truncate] (value as u32))
        },
        Mnemonic::Lh => {
            let half: u16 = memory.read_data_16bit(address)?;
            proof {
                lemma_sign_extend_half(half);
            }
            let value: i32 = (#[verifier::truncate] (half as i16)) as i32;
            Ok(#[verifier::truncate] (value as u32))
        },
        Mnemonic::Lbu => {
            let byte: u8 = memory.read_data_8bit(address)?;
            Ok(byte as u32)
        },
        Mnemonic::Lhu => {
            let half: u16 = memory.read_data_16bit(address)?;
            Ok(half as u32)
        },
        _ => memory.read_data(address),
    }
}

/// Writes the low bits of `value` as the store `mnemonic` does.
fn store(
    memory: &mut Memory,
    mnemonic: Mnemonic,
    address: u32,
    value: u32,
) -> (r: Result<(), Fault>)
    requires
        mnemonic.is_store(),
    ensures
        match r {
            Ok(_) => accessible(old(memory)@, address as int, access_width(mnemonic))
                && final(memory)@ == stored_memory(mnemonic, old(memory)@, address as int, value),
            Err(fault) => !accessible(old(memory)@, address as int, access_width(mnemonic))
                && fault == Fault::OutOfBounds && final(memory)@ == old(memory)@,
        },
{
    proof {
        lemma_low_bits(value);
    }
    match mnemonic {
        Mnemonic::Sb => memory.write_data_8bit(address, #[verifier::truncate] (value as u8)),
        Mnemonic::Sh => memory.write_data_16bit(address, #[verifier::truncate] (value as u16)),
        _ => memory.write_data(address, value),
    }
}

impl Emulator {
    /// Carries out a load.
    fn run_load(&mut self, mnemonic: Mnemonic, rd: u8, rs: u8, imm: i32) -> (r: Result<(), Fault>)
        requires
            mnemonic.is_load(),
            rd < 32,
            rs < 32,
        ensures
            match execute_load(old(self)@, mnemonic, rd, rs, imm) {
                Ok(s) => r is Ok && final(self)@ == s,
                Err(fault) => r is Err && r->Err_0 == fault && final(self)@ == old(self)@,
            },
    {
        let address: u32 = self.cpu.get_reg(rs).wrapping_add_signed(imm);
        let value: u32 = load(&self.memory, mnemonic, address)?;
        self.cpu.set_reg(rd, value);
        Ok(())
    }

    /// Carries out a store.
    fn run_store(&mut self, mnemonic: Mnemonic, rd: u8, rs: u8, imm: i32) -> (r: Result<(), Fault>)
        requires
            mnemonic.is_store(),
            rd < 32,
            rs < 32,
        ensures
            match execute_store(old(self)@, mnemonic, rd, rs, imm) {
                Ok(s) => r is Ok && final(self)@ == s,
                Err(fault) => r is Err && r->Err_0 == fault && final(self)@ == old(self)@,
            },
    {
        let address: u32 = self.cpu.get_reg(rs).wrapping_add_signed(imm);
        let value: u32 = self.cpu.get_reg(rd);
        store(&mut self.memory, mnemonic, address, value)
    }

    /// Executes one decoded instruction on the machine. A memory fault is
    /// returned, and then nothing has changed.
    pub fn execute(&mut self, format: &Type) -> (r: Result<(), Fault>)
        requires
            format.wf(),
        ensures
            match execute_spec(*format, old(self)@) {
                Ok(s) => r is Ok && final(self)@ == s,
                Err(fault) => r is Err && r->Err_0 == fault && final(self)@ == old(self)@,
            },
    {
        match format {
            Type::RFormat { mnemonic, rd, rs } => {
                run_register_op(&mut self.cpu, *mnemonic, *rd, *rs);
                Ok(())
            },
            Type::I16Format { mnemonic, rd, imm } => {
                run_shift_immediate(&mut self.cpu, *mnemonic, *rd, *imm);
                Ok(())
            },
            Type::I32Format { mnemonic, rd, rs, imm } => match mnemonic {
                Mnemonic::Lb | Mnemonic::Lh | Mnemonic::Lbu | Mnemonic::Lhu | Mnemonic::Lw => {
                    self.run_load(*mnemonic, *rd, *rs, *imm)
                },
                Mnemonic::Sb | Mnemonic::Sh | Mnemonic::Sw => {
                    self.run_store(*mnemonic, *rd, *rs, *imm)
                },
                _ => {
                    run_immediate_op(&mut self.cpu, *mnemonic, *rd, *rs, *imm);
                    Ok(())
                },
            },
            Type::JFormat { mnemonic, rd, imm } => {
                run_jump(&mut self.cpu, *mnemonic, *rd, *imm);
                Ok(())
            },
        }
    }
}

} // verus!
