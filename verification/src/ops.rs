//! The 56 instruction semantics.
//!
//! Each operation consumes the operand resolved by the current addressing
//! mode, mutates registers, flags and memory, and reports the extra cycle a
//! taken branch costs. Every transition is specified as a pure function on
//! [`CpuView`] and each executable method is proved to implement it.

use vstd::prelude::*;
use crate::state::{Cpu6502, CpuView, OperandKind, IRQ_VECTOR};

verus! {

impl CpuView {
    /// Add with carry, shared by ADC and SBC: `sum = A + m + C`; carry out
    /// when the sum exceeds 255; overflow when the operands share a sign
    /// and the result's sign differs; N and Z from the new accumulator.
    pub open spec fn adc_core(self, m: u8) -> CpuView {
        let sum = self.a + m + (if self.c { 1int } else { 0int });
        let res = ((sum % 0x100) as u8);
        (CpuView {
            a: res,
            c: sum > 0xff,
            v: ((self.a ^ m) & 0x80) == 0 && ((self.a ^ res) & 0x80) != 0,
            ..self
        }).with_nz(res)
    }

    /// ADC: accumulator plus operand plus carry.
    pub open spec fn adc_spec(self) -> (CpuView, u8) {
        (self.adc_core(self.operand_value()), 0u8)
    }

    /// SBC: ADC of the operand's one's complement.
    pub open spec fn sbc_spec(self) -> (CpuView, u8) {
        (self.adc_core(((0xff - self.operand_value()) as u8)), 0u8)
    }

    /// AND: bitwise and into the accumulator.
    pub open spec fn and_spec(self) -> (CpuView, u8) {
        let res = self.a & self.operand_value();
        ((CpuView { a: res, ..self }).with_nz(res), 0u8)
    }

    /// EOR: bitwise exclusive or into the accumulator.
    pub open spec fn eor_spec(self) -> (CpuView, u8) {
        let res = self.a ^ self.operand_value();
        ((CpuView { a: res, ..self }).with_nz(res), 0u8)
    }

    /// ORA: bitwise or into the accumulator.
    pub open spec fn ora_spec(self) -> (CpuView, u8) {
        let res = self.a | self.operand_value();
        ((CpuView { a: res, ..self }).with_nz(res), 0u8)
    }

    /// ASL: shift left in place; the bit shifted off becomes the carry.
    pub open spec fn asl_spec(self) -> (CpuView, u8) {
        let m = self.operand_value();
        let res = m << 1;
        let s1 = self.write_operand(res);
        ((CpuView { c: m >= 0x80, ..s1 }).with_nz(res), 0u8)
    }

    /// LSR: shift right in place; the bit shifted off becomes the carry.
    pub open spec fn lsr_spec(self) -> (CpuView, u8) {
        let m = self.operand_value();
        let res = m >> 1;
        let s1 = self.write_operand(res);
        ((CpuView { c: (m & 1) != 0, ..s1 }).with_nz(res), 0u8)
    }

    /// ROL: rotate left in place through the carry.
    pub open spec fn rol_spec(self) -> (CpuView, u8) {
        let m = self.operand_value();
        let res = (m << 1) | (if self.c { 1u8 } else { 0u8 });
        let s1 = self.write_operand(res);
        ((CpuView { c: m >= 0x80, ..s1 }).with_nz(res), 0u8)
    }

    /// ROR: rotate right in place through the carry.
    pub open spec fn ror_spec(self) -> (CpuView, u8) {
        let m = self.operand_value();
        let res = (m >> 1) | (if self.c { 0x80u8 } else { 0u8 });
        let s1 = self.write_operand(res);
        ((CpuView { c: (m & 1) != 0, ..s1 }).with_nz(res), 0u8)
    }

    /// A taken branch: `pc` moves to the resolved target and one extra
    /// cycle is reported; an untaken branch changes nothing.
    pub open spec fn branch_spec(self, taken: bool) -> (CpuView, u8) {
        if taken {
            (CpuView { pc: self.operand, ..self }, 1u8)
        } else {
            (self, 0u8)
        }
    }

    /// BIT: Z from `A & m`; N and V copied from bits 7 and 6 of the operand.
    pub open spec fn bit_spec(self) -> (CpuView, u8) {
        let m = self.operand_value();
        (
            CpuView {
                z: (self.a & m) == 0,
                n: (m & 0x80) != 0,
                v: (m & 0x40) != 0,
                ..self
            },
            0u8,
        )
    }

    /// BRK: push the address after the padding byte, push the status byte,
    /// set the interrupt-disable flag, and jump through the IRQ vector.
    ///
    /// The pushed status byte is the derived projection as it stands, so it
    /// carries the stored B flag; the NMOS hardware instead forces bit 4 set
    /// in the pushed copy. Nothing here depends on that bit, and the design
    /// leaves it open, so the uniform projection is used.
    pub open spec fn brk_spec(self) -> (CpuView, u8) {
        let ret = (((self.pc + 1) % 0x10000) as u16);
        let s1 = self.push_spec(((ret >> 8) as u8));
        let s2 = s1.push_spec(((ret % 0x100) as u8));
        let s3 = s2.push_spec(s2.status());
        let s4 = CpuView { i: true, ..s3 };
        (CpuView { pc: s4.read_word(IRQ_VECTOR), ..s4 }, 0u8)
    }

    /// CMP/CPX/CPY: compare a register with the operand; C when the
    /// register is at least the operand, Z when equal, N from bit 7 of the
    /// wrapped difference.
    pub open spec fn compare_spec(self, reg: u8) -> CpuView {
        let m = self.operand_value();
        let diff = (((reg + 0x100 - m) % 0x100) as u8);
        CpuView { c: reg >= m, z: reg == m, n: (diff & 0x80) != 0, ..self }
    }

    /// INC/DEC on the operand location: add or subtract one with 8-bit
    /// wraparound; N and Z from the result; the carry is untouched.
    pub open spec fn inc_spec(self) -> (CpuView, u8) {
        let res = ((self.operand_value() + 1) % 0x100) as u8;
        (self.write_operand(res).with_nz(res), 0u8)
    }

    /// DEC (see [`CpuView::inc_spec`]).
    pub open spec fn dec_spec(self) -> (CpuView, u8) {
        let res = ((self.operand_value() + 0xff) % 0x100) as u8;
        (self.write_operand(res).with_nz(res), 0u8)
    }

    /// INX/INY/DEX/DEY helper: a register stepped with wraparound.
    pub open spec fn step_reg(v: u8, up: bool) -> u8 {
        if up {
            ((v + 1) % 0x100) as u8
        } else {
            ((v + 0xff) % 0x100) as u8
        }
    }

    /// JMP: `pc` moves to the resolved address.
    pub open spec fn jmp_spec(self) -> (CpuView, u8) {
        (CpuView { pc: self.operand, ..self }, 0u8)
    }

    /// JSR: push the address of the last byte of the instruction, then jump.
    pub open spec fn jsr_spec(self) -> (CpuView, u8) {
        let ret = (((self.pc + 0xffff) % 0x10000) as u16);
        let s1 = self.push_spec(((ret >> 8) as u8));
        let s2 = s1.push_spec(((ret % 0x100) as u8));
        (CpuView { pc: self.operand, ..s2 }, 0u8)
    }

    /// LDA/LDX/LDY: load the operand into a register; N and Z from it.
    pub open spec fn lda_spec(self) -> (CpuView, u8) {
        let m = self.operand_value();
        ((CpuView { a: m, ..self }).with_nz(m), 0u8)
    }

    /// LDX (see [`CpuView::lda_spec`]).
    pub open spec fn ldx_spec(self) -> (CpuView, u8) {
        let m = self.operand_value();
        ((CpuView { x: m, ..self }).with_nz(m), 0u8)
    }

    /// LDY (see [`CpuView::lda_spec`]).
    pub open spec fn ldy_spec(self) -> (CpuView, u8) {
        let m = self.operand_value();
        ((CpuView { y: m, ..self }).with_nz(m), 0u8)
    }

    /// PHA: push the accumulator.
    pub open spec fn pha_spec(self) -> (CpuView, u8) {
        (self.push_spec(self.a), 0u8)
    }

    /// PHP: push the derived status byte.
    pub open spec fn php_spec(self) -> (CpuView, u8) {
        (self.push_spec(self.status()), 0u8)
    }

    /// PLA: pull into the accumulator; N and Z from it.
    pub open spec fn pla_spec(self) -> (CpuView, u8) {
        let (s1, m) = self.pull_spec();
        ((CpuView { a: m, ..s1 }).with_nz(m), 0u8)
    }

    /// PLP: pull into the seven flags.
    pub open spec fn plp_spec(self) -> (CpuView, u8) {
        let (s1, p) = self.pull_spec();
        (s1.with_status(p), 0u8)
    }

    /// RTI: pull the status byte, then the return address; no increment.
    pub open spec fn rti_spec(self) -> (CpuView, u8) {
        let (s1, p) = self.pull_spec();
        let s2 = s1.with_status(p);
        let (s3, lo) = s2.pull_spec();
        let (s4, hi) = s3.pull_spec();
        (CpuView { pc: (((hi as u16) << 8) | (lo as u16)), ..s4 }, 0u8)
    }

    /// RTS: pull the return address and resume one byte past it.
    pub open spec fn rts_spec(self) -> (CpuView, u8) {
        let (s1, lo) = self.pull_spec();
        let (s2, hi) = s1.pull_spec();
        let addr = (((hi as u16) << 8) | (lo as u16));
        (CpuView { pc: (((addr + 1) % 0x10000) as u16), ..s2 }, 0u8)
    }

    /// STA/STX/STY: store a register at the operand location; no flags.
    pub open spec fn sta_spec(self) -> (CpuView, u8) {
        (self.write_operand(self.a), 0u8)
    }

    /// STX (see [`CpuView::sta_spec`]).
    pub open spec fn stx_spec(self) -> (CpuView, u8) {
        (self.write_operand(self.x), 0u8)
    }

    /// STY (see [`CpuView::sta_spec`]).
    pub open spec fn sty_spec(self) -> (CpuView, u8) {
        (self.write_operand(self.y), 0u8)
    }
}

impl Cpu6502 {
    /// ADC (see [`CpuView::adc_spec`]).
    pub fn adc(&mut self) -> (r: u8)
        requires
            old(self).wf(),
        ensures
            (final(self)@, r) == old(self)@.adc_spec(),
            final(self).wf(),
    {
        let m = self.operand_value();
        let sum: u32 = (self.a as u32) + (m as u32) + (if self.c { 1u32 } else { 0u32 });
        let res = (sum % 0x100) as u8;
        self.c = sum > 0xff;
        self.v = ((self.a ^ m) & 0x80) == 0 && ((self.a ^ res) & 0x80) != 0;
        self.a = res;
        self.update_n_and_z();
        0
    }

    /// SBC (see [`CpuView::sbc_spec`]).
    pub fn sbc(&mut self) -> (r: u8)
        requires
            old(self).wf(),
        ensures
            (final(self)@, r) == old(self)@.sbc_spec(),
            final(self).wf(),
    {
        let m = self.operand_value();
        let inv = 0xffu8 - m;
        let sum: u32 = (self.a as u32) + (inv as u32) + (if self.c { 1u32 } else { 0u32 });
        let res = (sum % 0x100) as u8;
        self.c = sum > 0xff;
        self.v = ((self.a ^ inv) & 0x80) == 0 && ((self.a ^ res) & 0x80) != 0;
        self.a = res;
        self.update_n_and_z();
        0
    }

    /// AND (see [`CpuView::and_spec`]).
    pub fn and(&mut self) -> (r: u8)
        requires
            old(self).wf(),
        ensures
            (final(self)@, r) == old(self)@.and_spec(),
            final(self).wf(),
    {
        self.a = self.a & self.operand_value();
        self.update_n_and_z();
        0
    }

    /// EOR (see [`CpuView::eor_spec`]).
    pub fn eor(&mut self) -> (r: u8)
        requires
            old(self).wf(),
        ensures
            (final(self)@, r) == old(self)@.eor_spec(),
            final(self).wf(),
    {
        self.a = self.a ^ self.operand_value();
        self.update_n_and_z();
        0
    }

    /// ORA (see [`CpuView::ora_spec`]).
    pub fn ora(&mut self) -> (r: u8)
        requires
            old(self).wf(),
        ensures
            (final(self)@, r) == old(self)@.ora_spec(),
            final(self).wf(),
    {
        self.a = self.a | self.operand_value();
        self.update_n_and_z();
        0
    }

    /// ASL (see [`CpuView::asl_spec`]).
    pub fn asl(&mut self) -> (r: u8)
        requires
            old(self).wf(),
        ensures
            (final(self)@, r) == old(self)@.asl_spec(),
            final(self).wf(),
    {
        let m = self.operand_value();
        let res = m << 1;
        self.write_operand(res);
        self.c = m >= 0x80;
        self.n = (res & 0x80) != 0;
        self.z = res == 0;
        0
    }

    /// LSR (see [`CpuView::lsr_spec`]).
    pub fn lsr(&mut self) -> (r: u8)
        requires
            old(self).wf(),
        ensures
            (final(self)@, r) == old(self)@.lsr_spec(),
            final(self).wf(),
    {
        let m = self.operand_value();
        let res = m >> 1;
        self.write_operand(res);
        self.c = (m & 1) != 0;
        self.n = (res & 0x80) != 0;
        self.z = res == 0;
        0
    }

    /// ROL (see [`CpuView::rol_spec`]).
    pub fn rol(&mut self) -> (r: u8)
        requires
            old(self).wf(),
        ensures
            (final(self)@, r) == old(self)@.rol_spec(),
            final(self).wf(),
    {
        let m = self.operand_value();
        let res = (m << 1) | (if self.c { 1u8 } else { 0u8 });
        self.write_operand(res);
        self.c = m >= 0x80;
        self.n = (res & 0x80) != 0;
        self.z = res == 0;
        0
    }

    /// ROR (see [`CpuView::ror_spec`]).
    pub fn ror(&mut self) -> (r: u8)
        requires
            old(self).wf(),
        ensures
            (final(self)@, r) == old(self)@.ror_spec(),
            final(self).wf(),
    {
        let m = self.operand_value();
        let res = (m >> 1) | (if self.c { 0x80u8 } else { 0u8 });
        self.write_operand(res);
        self.c = (m & 1) != 0;
        self.n = (res & 0x80) != 0;
        self.z = res == 0;
        0
    }

    /// BCC: branch when the carry is clear.
    pub fn bcc(&mut self) -> (r: u8)
        requires
            old(self).wf(),
        ensures
            (final(self)@, r) == old(self)@.branch_spec(!old(self)@.c),
            final(self).wf(),
    {
        if !self.c {
            self.pc = self.operand;
            1
        } else {
            0
        }
    }

    /// BCS: branch when the carry is set.
    pub fn bcs(&mut self) -> (r: u8)
        requires
            old(self).wf(),
        ensures
            (final(self)@, r) == old(self)@.branch_spec(old(self)@.c),
            final(self).wf(),
    {
        if self.c {
            self.pc = self.operand;
            1
        } else {
            0
        }
    }

    /// BEQ: branch when the zero flag is set.
    pub fn beq(&mut self) -> (r: u8)
        requires
            old(self).wf(),
        ensures
            (final(self)@, r) == old(self)@.branch_spec(old(self)@.z),
            final(self).wf(),
    {
        if self.z {
            self.pc = self.operand;
            1
        } else {
            0
        }
    }

    /// BNE: branch when the zero flag is clear.
    pub fn bne(&mut self) -> (r: u8)
        requires
            old(self).wf(),
        ensures
            (final(self)@, r) == old(self)@.branch_spec(!old(self)@.z),
            final(self).wf(),
    {
        if !self.z {
            self.pc = self.operand;
            1
        } else {
            0
        }
    }

    /// BMI: branch when the negative flag is set.
    pub fn bmi(&mut self) -> (r: u8)
        requires
            old(self).wf(),
        ensures
            (final(self)@, r) == old(self)@.branch_spec(old(self)@.n),
            final(self).wf(),
    {
        if self.n {
            self.pc = self.operand;
            1
        } else {
            0
        }
    }

    /// BPL: branch when the negative flag is clear.
    pub fn bpl(&mut self) -> (r: u8)
        requires
            old(self).wf(),
        ensures
            (final(self)@, r) == old(self)@.branch_spec(!old(self)@.n),
            final(self).wf(),
    {
        if !self.n {
            self.pc = self.operand;
            1
        } else {
            0
        }
    }

    /// BVC: branch when the overflow flag is clear.
    pub fn bvc(&mut self) -> (r: u8)
        requires
            old(self).wf(),
        ensures
            (final(self)@, r) == old(self)@.branch_spec(!old(self)@.v),
            final(self).wf(),
    {
        if !self.v {
            self.pc = self.operand;
            1
        } else {
            0
        }
    }

    /// BVS: branch when the overflow flag is set.
    pub fn bvs(&mut self) -> (r: u8)
        requires
            old(self).wf(),
        ensures
            (final(self)@, r) == old(self)@.branch_spec(old(self)@.v),
            final(self).wf(),
    {
        if self.v {
            self.pc = self.operand;
            1
        } else {
            0
        }
    }

    /// BIT (see [`CpuView::bit_spec`]).
    pub fn bit(&mut self) -> (r: u8)
        requires
            old(self).wf(),
        ensures
            (final(self)@, r) == old(self)@.bit_spec(),
            final(self).wf(),
    {
        let m = self.operand_value();
        self.z = (self.a & m) == 0;
        self.n = (m & 0x80) != 0;
        self.v = (m & 0x40) != 0;
        0
    }

    /// BRK (see [`CpuView::brk_spec`]).
    pub fn brk(&mut self) -> (r: u8)
        requires
            old(self).wf(),
        ensures
            (final(self)@, r) == old(self)@.brk_spec(),
            final(self).wf(),
    {
        let ret = (((self.pc as u32) + 1) % 0x10000) as u16;
        self.push((ret >> 8) as u8);
        self.push((ret % 0x100) as u8);
        let p = self.status();
        self.push(p);
        self.i = true;
        self.pc = self.read_word(IRQ_VECTOR);
        0
    }

    /// CLC: clear the carry flag.
    pub fn clc(&mut self) -> (r: u8)
        requires
            old(self).wf(),
        ensures
            (final(self)@, r) == (CpuView { c: false, ..old(self)@ }, 0u8),
            final(self).wf(),
    {
        self.c = false;
        0
    }

    /// CLD: clear the decimal flag.
    pub fn cld(&mut self) -> (r: u8)
        requires
            old(self).wf(),
        ensures
            (final(self)@, r) == (CpuView { d: false, ..old(self)@ }, 0u8),
            final(self).wf(),
    {
        self.d = false;
        0
    }

    /// CLI: clear the interrupt-disable flag.
    pub fn cli(&mut self) -> (r: u8)
        requires
            old(self).wf(),
        ensures
            (final(self)@, r) == (CpuView { i: false, ..old(self)@ }, 0u8),
            final(self).wf(),
    {
        self.i = false;
        0
    }

    /// CLV: clear the overflow flag.
    pub fn clv(&mut self) -> (r: u8)
        requires
            old(self).wf(),
        ensures
            (final(self)@, r) == (CpuView { v: false, ..old(self)@ }, 0u8),
            final(self).wf(),
    {
        self.v = false;
        0
    }

    /// SEC: set the carry flag.
    pub fn sec(&mut self) -> (r: u8)
        requires
            old(self).wf(),
        ensures
            (final(self)@, r) == (CpuView { c: true, ..old(self)@ }, 0u8),
            final(self).wf(),
    {
        self.c = true;
        0
    }

    /// SED: set the decimal flag.
    pub fn sed(&mut self) -> (r: u8)
        requires
            old(self).wf(),
        ensures
            (final(self)@, r) == (CpuView { d: true, ..old(self)@ }, 0u8),
            final(self).wf(),
    {
        self.d = true;
        0
    }

    /// SEI: set the interrupt-disable flag.
    pub fn sei(&mut self) -> (r: u8)
        requires
            old(self).wf(),
        ensures
            (final(self)@, r) == (CpuView { i: true, ..old(self)@ }, 0u8),
            final(self).wf(),
    {
        self.i = true;
        0
    }

    /// CMP (see [`CpuView::compare_spec`], against the accumulator).
    pub fn cmp(&mut self) -> (r: u8)
        requires
            old(self).wf(),
        ensures
            (final(self)@, r) == (old(self)@.compare_spec(old(self)@.a), 0u8),
            final(self).wf(),
    {
        let m = self.operand_value();
        let diff = ((((self.a as u16) + 0x100) - (m as u16)) % 0x100) as u8;
        self.c = self.a >= m;
        self.z = self.a == m;
        self.n = (diff & 0x80) != 0;
        0
    }

    /// CPX (see [`CpuView::compare_spec`], against the X register).
    pub fn cpx(&mut self) -> (r: u8)
        requires
            old(self).wf(),
        ensures
            (final(self)@, r) == (old(self)@.compare_spec(old(self)@.x), 0u8),
            final(self).wf(),
    {
        let m = self.operand_value();
        let diff = ((((self.x as u16) + 0x100) - (m as u16)) % 0x100) as u8;
        self.c = self.x >= m;
        self.z = self.x == m;
        self.n = (diff & 0x80) != 0;
        0
    }

    /// CPY (see [`CpuView::compare_spec`], against the Y register).
    pub fn cpy(&mut self) -> (r: u8)
        requires
            old(self).wf(),
        ensures
            (final(self)@, r) == (old(self)@.compare_spec(old(self)@.y), 0u8),
            final(self).wf(),
    {
        let m = self.operand_value();
        let diff = ((((self.y as u16) + 0x100) - (m as u16)) % 0x100) as u8;
        self.c = self.y >= m;
        self.z = self.y == m;
        self.n = (diff & 0x80) != 0;
        0
    }

    /// INC (see [`CpuView::inc_spec`]).
    pub fn inc(&mut self) -> (r: u8)
        requires
            old(self).wf(),
        ensures
            (final(self)@, r) == old(self)@.inc_spec(),
            final(self).wf(),
    {
        let res = (((self.operand_value() as u16) + 1) % 0x100) as u8;
        self.write_operand(res);
        self.n = (res & 0x80) != 0;
        self.z = res == 0;
        0
    }

    /// DEC (see [`CpuView::dec_spec`]).
    pub fn dec(&mut self) -> (r: u8)
        requires
            old(self).wf(),
        ensures
            (final(self)@, r) == old(self)@.dec_spec(),
            final(self).wf(),
    {
        let res = (((self.operand_value() as u16) + 0xff) % 0x100) as u8;
        self.write_operand(res);
        self.n = (res & 0x80) != 0;
        self.z = res == 0;
        0
    }

    /// INX: step X up with wraparound; N and Z from it.
    pub fn inx(&mut self) -> (r: u8)
        requires
            old(self).wf(),
        ensures
            (final(self)@, r) == ((CpuView { x: CpuView::step_reg(old(self)@.x, true), ..old(
                self,
            )@ }).with_nz(CpuView::step_reg(old(self)@.x, true)), 0u8),
            final(self).wf(),
    {
        let res = (((self.x as u16) + 1) % 0x100) as u8;
        self.x = res;
        self.n = (res & 0x80) != 0;
        self.z = res == 0;
        0
    }

    /// INY: step Y up with wraparound; N and Z from it.
    pub fn iny(&mut self) -> (r: u8)
        requires
            old(self).wf(),
        ensures
            (final(self)@, r) == ((CpuView { y: CpuView::step_reg(old(self)@.y, true), ..old(
                self,
            )@ }).with_nz(CpuView::step_reg(old(self)@.y, true)), 0u8),
            final(self).wf(),
    {
        let res = (((self.y as u16) + 1) % 0x100) as u8;
        self.y = res;
        self.n = (res & 0x80) != 0;
        self.z = res == 0;
        0
    }

    /// DEX: step X down with wraparound; N and Z from it.
    pub fn dex(&mut self) -> (r: u8)
        requires
            old(self).wf(),
        ensures
            (final(self)@, r) == ((CpuView { x: CpuView::step_reg(old(self)@.x, false), ..old(
                self,
            )@ }).with_nz(CpuView::step_reg(old(self)@.x, false)), 0u8),
            final(self).wf(),
    {
        let res = (((self.x as u16) + 0xff) % 0x100) as u8;
        self.x = res;
        self.n = (res & 0x80) != 0;
        self.z = res == 0;
        0
    }

    /// DEY: step Y down with wraparound; N and Z from it.
    pub fn dey(&mut self) -> (r: u8)
        requires
            old(self).wf(),
        ensures
            (final(self)@, r) == ((CpuView { y: CpuView::step_reg(old(self)@.y, false), ..old(
                self,
            )@ }).with_nz(CpuView::step_reg(old(self)@.y, false)), 0u8),
            final(self).wf(),
    {
        let res = (((self.y as u16) + 0xff) % 0x100) as u8;
        self.y = res;
        self.n = (res & 0x80) != 0;
        self.z = res == 0;
        0
    }

    /// JMP (see [`CpuView::jmp_spec`]).
    pub fn jmp(&mut self) -> (r: u8)
        requires
            old(self).wf(),
        ensures
            (final(self)@, r) == old(self)@.jmp_spec(),
            final(self).wf(),
    {
        self.pc = self.operand;
        0
    }

    /// JSR (see [`CpuView::jsr_spec`]).
    pub fn jsr(&mut self) -> (r: u8)
        requires
            old(self).wf(),
        ensures
            (final(self)@, r) == old(self)@.jsr_spec(),
            final(self).wf(),
    {
        let ret = (((self.pc as u32) + 0xffff) % 0x10000) as u16;
        let target = self.operand;
        self.push((ret >> 8) as u8);
        self.push((ret % 0x100) as u8);
        self.pc = target;
        0
    }

    /// LDA (see [`CpuView::lda_spec`]).
    pub fn lda(&mut self) -> (r: u8)
        requires
            old(self).wf(),
        ensures
            (final(self)@, r) == old(self)@.lda_spec(),
            final(self).wf(),
    {
        self.a = self.operand_value();
        self.update_n_and_z();
        0
    }

    /// LDX (see [`CpuView::ldx_spec`]).
    pub fn ldx(&mut self) -> (r: u8)
        requires
            old(self).wf(),
        ensures
            (final(self)@, r) == old(self)@.ldx_spec(),
            final(self).wf(),
    {
        let m = self.operand_value();
        self.x = m;
        self.n = (m & 0x80) != 0;
        self.z = m == 0;
        0
    }

    /// LDY (see [`CpuView::ldy_spec`]).
    pub fn ldy(&mut self) -> (r: u8)
        requires
            old(self).wf(),
        ensures
            (final(self)@, r) == old(self)@.ldy_spec(),
            final(self).wf(),
    {
        let m = self.operand_value();
        self.y = m;
        self.n = (m & 0x80) != 0;
        self.z = m == 0;
        0
    }

    /// NOP: no effect.
    pub fn nop(&mut self) -> (r: u8)
        requires
            old(self).wf(),
        ensures
            (final(self)@, r) == (old(self)@, 0u8),
            final(self).wf(),
    {
        0
    }

    /// PHA (see [`CpuView::pha_spec`]).
    pub fn pha(&mut self) -> (r: u8)
        requires
            old(self).wf(),
        ensures
            (final(self)@, r) == old(self)@.pha_spec(),
            final(self).wf(),
    {
        let v = self.a;
        self.push(v);
        0
    }

    /// PHP (see [`CpuView::php_spec`]).
    pub fn php(&mut self) -> (r: u8)
        requires
            old(self).wf(),
        ensures
            (final(self)@, r) == old(self)@.php_spec(),
            final(self).wf(),
    {
        let p = self.status();
        self.push(p);
        0
    }

    /// PLA (see [`CpuView::pla_spec`]).
    pub fn pla(&mut self) -> (r: u8)
        requires
            old(self).wf(),
        ensures
            (final(self)@, r) == old(self)@.pla_spec(),
            final(self).wf(),
    {
        let m = self.pull();
        self.a = m;
        self.update_n_and_z();
        0
    }

    /// PLP (see [`CpuView::plp_spec`]).
    pub fn plp(&mut self) -> (r: u8)
        requires
            old(self).wf(),
        ensures
            (final(self)@, r) == old(self)@.plp_spec(),
            final(self).wf(),
    {
        let p = self.pull();
        self.c = (p & 0x01) != 0;
        self.z = (p & 0x02) != 0;
        self.i = (p & 0x04) != 0;
        self.d = (p & 0x08) != 0;
        self.b = (p & 0x10) != 0;
        self.v = (p & 0x40) != 0;
        self.n = (p & 0x80) != 0;
        0
    }

    /// RTI (see [`CpuView::rti_spec`]).
    pub fn rti(&mut self) -> (r: u8)
        requires
            old(self).wf(),
        ensures
            (final(self)@, r) == old(self)@.rti_spec(),
            final(self).wf(),
    {
        let p = self.pull();
        self.c = (p & 0x01) != 0;
        self.z = (p & 0x02) != 0;
        self.i = (p & 0x04) != 0;
        self.d = (p & 0x08) != 0;
        self.b = (p & 0x10) != 0;
        self.v = (p & 0x40) != 0;
        self.n = (p & 0x80) != 0;
        let lo = self.pull();
        let hi = self.pull();
        self.pc = ((hi as u16) << 8) | (lo as u16);
        0
    }

    /// RTS (see [`CpuView::rts_spec`]).
    pub fn rts(&mut self) -> (r: u8)
        requires
            old(self).wf(),
        ensures
            (final(self)@, r) == old(self)@.rts_spec(),
            final(self).wf(),
    {
        let lo = self.pull();
        let hi = self.pull();
        let addr = ((hi as u16) << 8) | (lo as u16);
        self.pc = (((addr as u32) + 1) % 0x10000) as u16;
        0
    }

    /// STA (see [`CpuView::sta_spec`]).
    pub fn sta(&mut self) -> (r: u8)
        requires
            old(self).wf(),
        ensures
            (final(self)@, r) == old(self)@.sta_spec(),
            final(self).wf(),
    {
        let v = self.a;
        self.write_operand(v);
        0
    }

    /// STX (see [`CpuView::stx_spec`]).
    pub fn stx(&mut self) -> (r: u8)
        requires
            old(self).wf(),
        ensures
            (final(self)@, r) == old(self)@.stx_spec(),
            final(self).wf(),
    {
        let v = self.x;
        self.write_operand(v);
        0
    }

    /// STY (see [`CpuView::sty_spec`]).
    pub fn sty(&mut self) -> (r: u8)
        requires
            old(self).wf(),
        ensures
            (final(self)@, r) == old(self)@.sty_spec(),
            final(self).wf(),
    {
        let v = self.y;
        self.write_operand(v);
        0
    }

    /// TAX: copy A to X; N and Z from it.
    pub fn tax(&mut self) -> (r: u8)
        requires
            old(self).wf(),
        ensures
            (final(self)@, r) == ((CpuView { x: old(self)@.a, ..old(self)@ }).with_nz(
                old(self)@.a,
            ), 0u8),
            final(self).wf(),
    {
        let m = self.a;
        self.x = m;
        self.n = (m & 0x80) != 0;
        self.z = m == 0;
        0
    }

    /// TAY: copy A to Y; N and Z from it.
    pub fn tay(&mut self) -> (r: u8)
        requires
            old(self).wf(),
        ensures
            (final(self)@, r) == ((CpuView { y: old(self)@.a, ..old(self)@ }).with_nz(
                old(self)@.a,
            ), 0u8),
            final(self).wf(),
    {
        let m = self.a;
        self.y = m;
        self.n = (m & 0x80) != 0;
        self.z = m == 0;
        0
    }

    /// TSX: copy the stack pointer to X; N and Z from it.
    pub fn tsx(&mut self) -> (r: u8)
        requires
            old(self).wf(),
        ensures
            (final(self)@, r) == ((CpuView { x: old(self)@.sp, ..old(self)@ }).with_nz(
                old(self)@.sp,
            ), 0u8),
            final(self).wf(),
    {
        let m = self.sp;
        self.x = m;
        self.n = (m & 0x80) != 0;
        self.z = m == 0;
        0
    }

    /// TXA: copy X to A; N and Z from it.
    pub fn txa(&mut self) -> (r: u8)
        requires
            old(self).wf(),
        ensures
            (final(self)@, r) == ((CpuView { a: old(self)@.x, ..old(self)@ }).with_nz(
                old(self)@.x,
            ), 0u8),
            final(self).wf(),
    {
        self.a = self.x;
        self.update_n_and_z();
        0
    }

    /// TXS: copy X to the stack pointer; no flags change.
    pub fn txs(&mut self) -> (r: u8)
        requires
            old(self).wf(),
        ensures
            (final(self)@, r) == (CpuView { sp: old(self)@.x, ..old(self)@ }, 0u8),
            final(self).wf(),
    {
        self.sp = self.x;
        0
    }

    /// TYA: copy Y to A; N and Z from it.
    pub fn tya(&mut self) -> (r: u8)
        requires
            old(self).wf(),
        ensures
            (final(self)@, r) == ((CpuView { a: old(self)@.y, ..old(self)@ }).with_nz(
                old(self)@.y,
            ), 0u8),
            final(self).wf(),
    {
        self.a = self.y;
        self.update_n_and_z();
        0
    }
}

} // verus!
