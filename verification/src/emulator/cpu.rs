//! The register file and the arithmetic and logic operations on it.

use vstd::prelude::*;
use vstd::arithmetic::div_mod::{
    lemma_fundamental_div_mod, lemma_fundamental_div_mod_converse_div, lemma_mod_bound,
};
use vstd::arithmetic::power2::{lemma2_to64, lemma_pow2_pos, lemma_pow2_unfold, pow2};
use vstd::bits::lemma_u32_shr_is_div;
use crate::emulator::bits::{
    lemma_shift_amount, lemma_signed_as_word, lemma_word_as_signed, signed32, wrap32,
};

verus! {

/// The mathematical model of the processor state: the program counter and
/// the 32 stored register values.
///
/// Register 0 is hardwired to zero: `read` never looks at its slot and
/// `write` never changes it.
#[verifier::ext_equal]
pub struct CpuState {
    pub pc: u32,
    pub regs: Seq<u32>,
}

impl CpuState {
    /// There are exactly 32 register slots.
    pub open spec fn wf(self) -> bool {
        self.regs.len() == 32
    }

    /// The value that register `n` reads as.
    pub open spec fn read(self, n: u8) -> u32 {
        if n == 0 {
            0
        } else {
            self.regs[n as int]
        }
    }

    /// The state after writing `value` to register `n`.
    pub open spec fn write(self, n: u8, value: u32) -> CpuState {
        if n == 0 {
            self
        } else {
            CpuState { pc: self.pc, regs: self.regs.update(n as int, value) }
        }
    }

    /// The state after setting the program counter to `target`.
    pub open spec fn jump(self, target: u32) -> CpuState {
        CpuState { pc: target, regs: self.regs }
    }

    /// `rd := rs`
    pub open spec fn mov(self, rd: u8, rs: u8) -> CpuState {
        self.write(rd, self.read(rs))
    }

    /// `rd := rd + rs`, modulo 2^32
    pub open spec fn add(self, rd: u8, rs: u8) -> CpuState {
        self.write(rd, wrap32(self.read(rd) + self.read(rs)))
    }

    /// `rd := rd - rs`, modulo 2^32
    pub open spec fn sub(self, rd: u8, rs: u8) -> CpuState {
        self.write(rd, wrap32(self.read(rd) - self.read(rs)))
    }

    /// `rd := rd & rs`
    pub open spec fn and(self, rd: u8, rs: u8) -> CpuState {
        self.write(rd, self.read(rd) & self.read(rs))
    }

    /// `rd := rd | rs`
    pub open spec fn or(self, rd: u8, rs: u8) -> CpuState {
        self.write(rd, self.read(rd) | self.read(rs))
    }

    /// `rd := rd ^ rs`
    pub open spec fn xor(self, rd: u8, rs: u8) -> CpuState {
        self.write(rd, self.read(rd) ^ self.read(rs))
    }

    /// `rd := rd << (rs mod 32)`
    pub open spec fn sll(self, rd: u8, rs: u8) -> CpuState {
        self.write(rd, shift_left(self.read(rd), self.read(rs) % 32))
    }

    /// `rd := rd >> (rs mod 32)`, filling with zeros
    pub open spec fn srl(self, rd: u8, rs: u8) -> CpuState {
        self.write(rd, shift_right(self.read(rd), self.read(rs) % 32))
    }

    /// `rd := rd >> (rs mod 32)`, filling with the sign bit
    pub open spec fn sra(self, rd: u8, rs: u8) -> CpuState {
        self.write(rd, shift_right_signed(self.read(rd), self.read(rs) % 32))
    }

    /// `rd := 1` if `rd < rs` as signed numbers, else `rd := 0`
    pub open spec fn slt(self, rd: u8, rs: u8) -> CpuState {
        self.write(rd, flag(signed32(self.read(rd)) < signed32(self.read(rs))))
    }

    /// `rd := 1` if `rd < rs` as unsigned numbers, else `rd := 0`
    pub open spec fn sltu(self, rd: u8, rs: u8) -> CpuState {
        self.write(rd, flag(self.read(rd) < self.read(rs)))
    }

    /// `rd := rd << imm`
    pub open spec fn slli(self, rd: u8, imm: u8) -> CpuState {
        self.write(rd, shift_left(self.read(rd), imm as u32))
    }

    /// `rd := rd >> imm`, filling with zeros
    pub open spec fn srli(self, rd: u8, imm: u8) -> CpuState {
        self.write(rd, shift_right(self.read(rd), imm as u32))
    }

    /// `rd := rd >> imm`, filling with the sign bit
    pub open spec fn srai(self, rd: u8, imm: u8) -> CpuState {
        self.write(rd, shift_right_signed(self.read(rd), imm as u32))
    }

    /// `rd := rs + imm`, modulo 2^32
    pub open spec fn addi(self, rd: u8, rs: u8, imm: i32) -> CpuState {
        self.write(rd, wrap32(self.read(rs) + imm))
    }

    /// `rd := rs & imm`, the immediate read as a 32-bit word
    pub open spec fn andi(self, rd: u8, rs: u8, imm: i32) -> CpuState {
        self.write(rd, self.read(rs) & wrap32(imm as int))
    }

    /// `rd := rs | imm`, the immediate read as a 32-bit word
    pub open spec fn ori(self, rd: u8, rs: u8, imm: i32) -> CpuState {
        self.write(rd, self.read(rs) | wrap32(imm as int))
    }

    /// `rd := rs ^ imm`, the immediate read as a 32-bit word
    pub open spec fn xori(self, rd: u8, rs: u8, imm: i32) -> CpuState {
        self.write(rd, self.read(rs) ^ wrap32(imm as int))
    }

    /// `rd := 1` if `rs < imm` as signed numbers, else `rd := 0`
    pub open spec fn slti(self, rd: u8, rs: u8, imm: i32) -> CpuState {
        self.write(rd, flag(signed32(self.read(rs)) < imm))
    }

    /// `rd := 1` if `rs < imm` as unsigned numbers, the immediate read as a
    /// 32-bit word, else `rd := 0`
    pub open spec fn sltiu(self, rd: u8, rs: u8, imm: i32) -> CpuState {
        self.write(rd, flag(self.read(rs) < wrap32(imm as int)))
    }
}

/// A register other than register 0 reads as the value last written to it;
/// register 0 reads as zero whatever was written. A write changes no other
/// register and not the program counter.
pub proof fn lemma_register_round_trip(s: CpuState, r: u8, value: u32)
    requires
        s.wf(),
        r < 32,
    ensures
        1 <= r ==> s.write(r, value).read(r) == value,
        r == 0 ==> s.write(r, value).read(r) == 0,
        forall|n: u8| n < 32 && n != r ==> s.write(r, value).read(n) == s.read(n),
        s.write(r, value).pc == s.pc,
        s.write(r, value).wf(),
{
}

/// The word that stands for a truth value: 1 or 0.
pub open spec fn flag(b: bool) -> u32 {
    if b {
        1
    } else {
        0
    }
}

/// `a` shifted left by `amount` bits; the bits that leave the word are lost.
pub open spec fn shift_left(a: u32, amount: u32) -> u32 {
    a << amount
}

/// `a` shifted right by `amount` bits; zeros enter from the left.
pub open spec fn shift_right(a: u32, amount: u32) -> u32 {
    a >> amount
}

/// `a` shifted right by `amount` bits as a two's complement number: copies
/// of the sign bit enter from the left.
pub open spec fn shift_right_signed(a: u32, amount: u32) -> u32 {
    wrap32(((signed32(a) as i32) >> amount) as int)
}

/// A left shift multiplies by a power of two, modulo 2^32.
pub proof fn lemma_shift_left_multiplies(a: u32, amount: u32)
    requires
        amount < 32,
    ensures
        shift_left(a, amount) == wrap32(a * pow2(amount as nat)),
    decreases amount,
{
    if amount == 0 {
        assert(a << 0u32 == a) by (bit_vector);
        lemma2_to64();
        assert(a * pow2(0) == a);
    } else {
        let less = (amount - 1) as u32;
        let shifted = a << less;
        let product = a * pow2(less as nat);
        lemma_shift_left_multiplies(a, less);
        assert((a << amount) == ((a << less) << 1u32)) by (bit_vector)
            requires
                amount == less + 1,
                less < 31,
        ;
        assert((shifted << 1u32) == (2 * shifted) % 0x1_0000_0000) by (bit_vector);
        lemma_pow2_unfold(amount as nat);
        assert(a * pow2(amount as nat) == 2 * product) by (nonlinear_arith)
            requires
                pow2(amount as nat) == 2 * pow2(less as nat),
                product == a * pow2(less as nat),
        ;
    }
}

/// A right shift divides by a power of two and rounds down.
pub proof fn lemma_shift_right_divides(a: u32, amount: u32)
    requires
        amount < 32,
    ensures
        shift_right(a, amount) == a as int / pow2(amount as nat) as int,
{
    lemma_u32_shr_is_div(a, amount);
}

/// A signed right shift divides the two's complement reading by a power of
/// two and rounds down, towards minus infinity.
pub proof fn lemma_shift_right_signed_divides(a: u32, amount: u32)
    requires
        amount < 32,
    ensures
        signed32(shift_right_signed(a, amount)) == signed32(a) / pow2(amount as nat) as int,
    decreases amount,
{
    let value = signed32(a) as i32;
    lemma_signed_as_word(value >> amount);
    if amount == 0 {
        assert(value >> 0u32 == value) by (bit_vector);
        lemma2_to64();
        assert(signed32(a) / 1 == signed32(a));
    } else {
        let less = (amount - 1) as u32;
        let shifted = value >> less;
        let half = shifted >> 1u32;
        let bit = shifted & 1;
        let unit = pow2(less as nat) as int;
        let rest = signed32(a) % unit;
        lemma_shift_right_signed_divides(a, less);
        assert((value >> amount) == ((value >> less) >> 1u32)) by (bit_vector)
            requires
                amount == less + 1,
                less < 31,
        ;
        assert(2 * (shifted >> 1u32) + (shifted & 1) == shifted && ((shifted & 1) == 0 || (shifted
            & 1) == 1)) by (bit_vector);
        lemma_pow2_unfold(amount as nat);
        lemma_pow2_pos(less as nat);
        lemma_fundamental_div_mod(signed32(a), unit);
        lemma_mod_bound(signed32(a), unit);
        assert(signed32(a) == half * (2 * unit) + (unit * bit + rest)) by (nonlinear_arith)
            requires
                signed32(a) == unit * shifted + rest,
                shifted == 2 * half + bit,
        ;
        assert(0 <= unit * bit + rest < 2 * unit) by (nonlinear_arith)
            requires
                0 <= rest < unit,
                bit == 0 || bit == 1,
        ;
        lemma_fundamental_div_mod_converse_div(
            signed32(a),
            2 * unit,
            half as int,
            unit * bit + rest,
        );
    }
}

/// The processor: program counter and register file.
#[derive(Debug)]
pub struct Cpu {
    pub pc: u32,
    pub register: [u32; 32],
}

impl View for Cpu {
    type V = CpuState;

    open spec fn view(&self) -> CpuState {
        CpuState { pc: self.pc, regs: self.register@ }
    }
}

/// The model of every processor is well-formed: it has 32 register slots.
pub proof fn lemma_view_is_well_formed(cpu: Cpu)
    ensures
        cpu@.wf(),
{
}

impl Cpu {
    /// A processor with every register and the program counter at zero.
    pub fn new() -> (cpu: Self)
        ensures
            cpu@.pc == 0,
            cpu@.regs == Seq::new(32, |i: int| 0u32),
    {
        Cpu { pc: 0, register: [0;32] }
    }

    /// Reads register `num`; register 0 reads as zero.
    pub fn get_reg(&self, num: u8) -> (value: u32)
        requires
            num < 32,
        ensures
            value == self@.read(num),
    {
        if num == 0 {
            0
        } else {
            self.register[num as usize]
        }
    }

    /// Writes `data` to register `num`; a write to register 0 is dropped.
    pub fn set_reg(&mut self, num: u8, data: u32)
        requires
            num < 32,
        ensures
            final(self)@ == old(self)@.write(num, data),
    {
        if num != 0 {
            self.register[num as usize] = data;
        }
    }

    /// Copies register `rs` to register `rd`.
    pub fn mov(&mut self, rd: u8, rs: u8)
        requires
            rd < 32,
            rs < 32,
        ensures
            final(self)@ == old(self)@.mov(rd, rs),
    {
        let data: u32 = self.get_reg(rs);
        self.set_reg(rd, data);
    }

    /// Adds register `rs` to register `rd`; the sum wraps around at 2^32.
    pub fn add(&mut self, rd: u8, rs: u8)
        requires
            rd < 32,
            rs < 32,
        ensures
            final(self)@ == old(self)@.add(rd, rs),
    {
        let data: u32 = self.get_reg(rd).wrapping_add(self.get_reg(rs));
        self.set_reg(rd, data);
    }

    /// Subtracts register `rs` from register `rd`; the difference wraps around
    /// at 2^32.
    pub fn sub(&mut self, rd: u8, rs: u8)
        requires
            rd < 32,
            rs < 32,
        ensures
            final(self)@ == old(self)@.sub(rd, rs),
    {
        let data: u32 = self.get_reg(rd).wrapping_sub(self.get_reg(rs));
        self.set_reg(rd, data);
    }

    /// Bitwise AND of registers `rd` and `rs`, into `rd`.
    pub fn and(&mut self, rd: u8, rs: u8)
        requires
            rd < 32,
            rs < 32,
        ensures
            final(self)@ == old(self)@.and(rd, rs),
    {
        let data: u32 = self.get_reg(rd) & self.get_reg(rs);
        self.set_reg(rd, data);
    }

    /// Bitwise OR of registers `rd` and `rs`, into `rd`.
    pub fn or(&mut self, rd: u8, rs: u8)
        requires
            rd < 32,
            rs < 32,
        ensures
            final(self)@ == old(self)@.or(rd, rs),
    {
        let data: u32 = self.get_reg(rd) | self.get_reg(rs);
        self.set_reg(rd, data);
    }

    /// Bitwise exclusive OR of registers `rd` and `rs`, into `rd`.
    pub fn xor(&mut self, rd: u8, rs: u8)
        requires
            rd < 32,
            rs < 32,
        ensures
            final(self)@ == old(self)@.xor(rd, rs),
    {
        let data: u32 = self.get_reg(rd) ^ self.get_reg(rs);
        self.set_reg(rd, data);
    }

    /// Shifts register `rd` left by the low five bits of register `rs`.
    pub fn sll(&mut self, rd: u8, rs: u8)
        requires
            rd < 32,
            rs < 32,
        ensures
            final(self)@ == old(self)@.sll(rd, rs),
    {
        let amount: u32 = self.get_reg(rs) & 0x0000_001F;
        proof {
            lemma_shift_amount(self@.read(rs));
        }
        let data: u32 = self.get_reg(rd) << amount;
        self.set_reg(rd, data)
    }

    /// Shifts register `rd` right by the low five bits of register `rs`, filling
    /// with zeros.
    pub fn srl(&mut self, rd: u8, rs: u8)
        requires
            rd < 32,
            rs < 32,
        ensures
            final(self)@ == old(self)@.srl(rd, rs),
    {
        let amount: u32 = self.get_reg(rs) & 0x0000_001F;
        proof {
            lemma_shift_amount(self@.read(rs));
        }
        let data: u32 = self.get_reg(rd) >> amount;
        self.set_reg(rd, data);
    }

    /// Shifts register `rd` right by the low five bits of register `rs`, filling
    /// with the sign bit.
    pub fn sra(&mut self, rd: u8, rs: u8)
        requires
            rd < 32,
            rs < 32,
        ensures
            final(self)@ == old(self)@.sra(rd, rs),
    {
        let amount: u32 = self.get_reg(rs) & 0x0000_001F;
        let value: u32 = self.get_reg(rd);
        proof {
            lemma_shift_amount(self@.read(rs));
            lemma_word_as_signed(value);
        }
        let data: i32 = (#[verifier::truncate] (value as i32)) >> amount;
        proof {
            lemma_signed_as_word(data);
        }
        self.set_reg(rd, #[verifier::truncate] (data as u32));
    }

    /// Sets `rd` to 1 if register `rd` is less than register `rs`, both read
    /// as signed numbers, and to 0 otherwise. The result goes to `rd`, as for
    /// every other operation: no register doubles as a flags slot.
    pub fn slt(&mut self, rd: u8, rs: u8)
        requires
            rd < 32,
            rs < 32,
        ensures
            final(self)@ == old(self)@.slt(rd, rs),
    {
        let a: u32 = self.get_reg(rd);
        let b: u32 = self.get_reg(rs);
        proof {
            lemma_word_as_signed(a);
            lemma_word_as_signed(b);
        }
        let data: u32 = if (#[verifier::truncate] (a as i32)) < (#[verifier::truncate] (b as i32)) {
            1
        } else {
            0
        };
        self.set_reg(rd, data);
    }

    /// Sets `rd` to 1 if register `rd` is less than register `rs`, both read
    /// as unsigned numbers, and to 0 otherwise. The result goes to `rd`, as
    /// for every other operation: no register doubles as a flags slot.
    pub fn sltu(&mut self, rd: u8, rs: u8)
        requires
            rd < 32,
            rs < 32,
        ensures
            final(self)@ == old(self)@.sltu(rd, rs),
    {
        let data: u32 = if self.get_reg(rd) < self.get_reg(rs) {
            1
        } else {
            0
        };
        self.set_reg(rd, data)
    }

    /// Shifts register `rd` left by `imm` bits.
    pub fn slli(&mut self, rd: u8, imm: u8)
        requires
            rd < 32,
            imm < 32,
        ensures
            final(self)@ == old(self)@.slli(rd, imm),
    {
        let data: u32 = self.get_reg(rd) << (imm as u32);
        self.set_reg(rd, data);
    }

    /// Shifts register `rd` right by `imm` bits, filling with zeros.
    pub fn srli(&mut self, rd: u8, imm: u8)
        requires
            rd < 32,
            imm < 32,
        ensures
            final(self)@ == old(self)@.srli(rd, imm),
    {
        let data: u32 = self.get_reg(rd) >> (imm as u32);
        self.set_reg(rd, data);
    }

    /// Shifts register `rd` right by `imm` bits, filling with the sign bit.
    pub fn srai(&mut self, rd: u8, imm: u8)
        requires
            rd < 32,
            imm < 32,
        ensures
            final(self)@ == old(self)@.srai(rd, imm),
    {
        let value: u32 = self.get_reg(rd);
        proof {
            lemma_word_as_signed(value);
        }
        let data: i32 = (#[verifier::truncate] (value as i32)) >> (imm as u32);
        proof {
            lemma_signed_as_word(data);
        }
        self.set_reg(rd, #[verifier::truncate] (data as u32));
    }

    /// Adds the signed immediate to register `rs`, into `rd`; the sum wraps
    /// around at 2^32.
    pub fn addi(&mut self, rd: u8, rs: u8, imm: i32)
        requires
            rd < 32,
            rs < 32,
        ensures
            final(self)@ == old(self)@.addi(rd, rs, imm),
    {
        let data: u32 = self.get_reg(rs).wrapping_add_signed(imm);
        self.set_reg(rd, data);
    }

    /// Bitwise AND of register `rs` and the sign-extended immediate, into `rd`.
    pub fn andi(&mut self, rd: u8, rs: u8, imm: i32)
        requires
            rd < 32,
            rs < 32,
        ensures
            final(self)@ == old(self)@.andi(rd, rs, imm),
    {
        proof {
            lemma_signed_as_word(imm);
        }
        let data: u32 = self.get_reg(rs) & (#[verifier::truncate] (imm as u32));
        self.set_reg(rd, data);
    }

    /// Bitwise OR of register `rs` and the sign-extended immediate, into `rd`.
    pub fn ori(&mut self, rd: u8, rs: u8, imm: i32)
        requires
            rd < 32,
            rs < 32,
        ensures
            final(self)@ == old(self)@.ori(rd, rs, imm),
    {
        proof {
            lemma_signed_as_word(imm);
        }
        let data: u32 = self.get_reg(rs) | (#[verifier::truncate] (imm as u32));
        self.set_reg(rd, data);
    }

    /// Bitwise exclusive OR of register `rs` and the sign-extended immediate,
    /// into `rd`.
    pub fn xori(&mut self, rd: u8, rs: u8, imm: i32)
        requires
            rd < 32,
            rs < 32,
        ensures
            final(self)@ == old(self)@.xori(rd, rs, imm),
    {
        proof {
            lemma_signed_as_word(imm);
        }
        let data: u32 = self.get_reg(rs) ^ (#[verifier::truncate] (imm as u32));
        self.set_reg(rd, data);
    }

    /// Sets `rd` to 1 if register `rs` is less than the immediate, both read as
    /// signed numbers, and to 0 otherwise.
    pub fn slti(&mut self, rd: u8, rs: u8, imm: i32)
        requires
            rd < 32,
            rs < 32,
        ensures
            final(self)@ == old(self)@.slti(rd, rs, imm),
    {
        let a: u32 = self.get_reg(rs);
        proof {
            lemma_word_as_signed(a);
        }
        let data: u32 = if (#[verifier::truncate] (a as i32)) < imm {
            1
        } else {
            0
        };
        self.set_reg(rd, data)
    }

    /// Sets `rd` to 1 if register `rs` is less than the sign-extended immediate,
    /// both read as unsigned numbers, and to 0 otherwise.
    pub fn sltiu(&mut self, rd: u8, rs: u8, imm: i32)
        requires
            rd < 32,
            rs < 32,
        ensures
            final(self)@ == old(self)@.sltiu(rd, rs, imm),
    {
        proof {
            lemma_signed_as_word(imm);
        }
        let data: u32 = if self.get_reg(rs) < (#[verifier::truncate] (imm as u32)) {
            1
        } else {
            0
        };
        self.set_reg(rd, data)
    }
}

} // verus!
