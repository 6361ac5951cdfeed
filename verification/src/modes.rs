//! The sixteen addressing-mode resolvers.
//!
//! Each resolver consumes the instruction's operand bytes at `pc`, leaves
//! the resolved operand (a value or an effective address) in the CPU's
//! transient operand register, and reports whether the address computation
//! crossed a page boundary (one extra cycle, for the modes where the
//! hardware defines that penalty).

use vstd::prelude::*;
use crate::state::{Cpu6502, CpuView, OperandKind};

verus! {

impl CpuView {
    /// Little-endian word read that stays inside page zero: the high byte's
    /// address wraps modulo 2^8.
    pub open spec fn read_word_zp(self, p: u8) -> u16 {
        let lo = self.read_byte(p as u16);
        let hi = self.read_byte((((p + 1) % 0x100) as u16));
        ((hi as u16) << 8) | (lo as u16)
    }

    /// Absolute: the fetched word is the effective address.
    pub open spec fn abs_spec(self) -> (CpuView, u8) {
        let (s1, w) = self.fetch_word_spec();
        (CpuView { operand: w, kind: OperandKind::Address, ..s1 }, 0u8)
    }

    /// Absolute,X: fetched word plus X, wrapping; a change of high byte
    /// reports the page-cross cycle.
    pub open spec fn abs_x_spec(self) -> (CpuView, u8) {
        let (s1, w) = self.fetch_word_spec();
        let ea = (((w + self.x) % 0x10000) as u16);
        (
            CpuView { operand: ea, kind: OperandKind::Address, ..s1 },
            if (ea >> 8) != (w >> 8) { 1u8 } else { 0u8 },
        )
    }

    /// Absolute,Y: fetched word plus Y, wrapping; page-cross reportable.
    pub open spec fn abs_y_spec(self) -> (CpuView, u8) {
        let (s1, w) = self.fetch_word_spec();
        let ea = (((w + self.y) % 0x10000) as u16);
        (
            CpuView { operand: ea, kind: OperandKind::Address, ..s1 },
            if (ea >> 8) != (w >> 8) { 1u8 } else { 0u8 },
        )
    }

    /// Absolute indirect: the word read at the fetched word's address.
    pub open spec fn abs_indirect_spec(self) -> (CpuView, u8) {
        let (s1, w) = self.fetch_word_spec();
        (CpuView { operand: s1.read_word(w), kind: OperandKind::Address, ..s1 }, 0u8)
    }

    /// Absolute indexed indirect: the word read at (fetched word + X),
    /// wrapping.
    pub open spec fn abs_x_indirect_spec(self) -> (CpuView, u8) {
        let (s1, w) = self.fetch_word_spec();
        let addr = (((w + self.x) % 0x10000) as u16);
        (CpuView { operand: s1.read_word(addr), kind: OperandKind::Address, ..s1 }, 0u8)
    }

    /// Accumulator: the operand is the accumulator itself.
    pub open spec fn acc_spec(self) -> (CpuView, u8) {
        (CpuView { operand: self.a as u16, kind: OperandKind::Accum, ..self }, 0u8)
    }

    /// Immediate: the fetched byte is the operand value.
    pub open spec fn imm_spec(self) -> (CpuView, u8) {
        let (s1, b) = self.fetch_byte_spec();
        (CpuView { operand: b as u16, kind: OperandKind::Value, ..s1 }, 0u8)
    }

    /// Implied: no operand bytes; the operand register is unused.
    pub open spec fn imp_spec(self) -> (CpuView, u8) {
        (CpuView { kind: OperandKind::Unused, ..self }, 0u8)
    }

    /// Relative: the fetched byte is a signed displacement from the address
    /// of the next instruction; a target on another page reports the
    /// page-cross cycle.
    pub open spec fn rel_spec(self) -> (CpuView, u8) {
        let (s1, off) = self.fetch_byte_spec();
        let target = if off < 0x80 {
            (((s1.pc + off) % 0x10000) as u16)
        } else {
            (((s1.pc + off + 0xff00) % 0x10000) as u16)
        };
        (
            CpuView { operand: target, kind: OperandKind::Address, ..s1 },
            if (target >> 8) != (s1.pc >> 8) { 1u8 } else { 0u8 },
        )
    }

    /// Stack: the effective address is the current stack slot,
    /// `0x0100 + sp`.
    pub open spec fn stack_spec(self) -> (CpuView, u8) {
        (CpuView { operand: self.stack_addr(), kind: OperandKind::Address, ..self }, 0u8)
    }

    /// Zero page: the fetched byte is an address in page zero.
    pub open spec fn zp_spec(self) -> (CpuView, u8) {
        let (s1, b) = self.fetch_byte_spec();
        (CpuView { operand: b as u16, kind: OperandKind::Address, ..s1 }, 0u8)
    }

    /// Zero page,X: fetched byte plus X, wrapping inside page zero.
    pub open spec fn zp_x_spec(self) -> (CpuView, u8) {
        let (s1, b) = self.fetch_byte_spec();
        (
            CpuView {
                operand: (((b + self.x) % 0x100) as u16),
                kind: OperandKind::Address,
                ..s1
            },
            0u8,
        )
    }

    /// Zero page,Y: fetched byte plus Y, wrapping inside page zero.
    pub open spec fn zp_y_spec(self) -> (CpuView, u8) {
        let (s1, b) = self.fetch_byte_spec();
        (
            CpuView {
                operand: (((b + self.y) % 0x100) as u16),
                kind: OperandKind::Address,
                ..s1
            },
            0u8,
        )
    }

    /// (Indexed indirect,X): the word read in page zero at
    /// (fetched byte + X) mod 256.
    pub open spec fn zp_x_indirect_spec(self) -> (CpuView, u8) {
        let (s1, b) = self.fetch_byte_spec();
        let ptr = (((b + self.x) % 0x100) as u8);
        (CpuView { operand: s1.read_word_zp(ptr), kind: OperandKind::Address, ..s1 }, 0u8)
    }

    /// Zero page indirect: the word read in page zero at the fetched byte.
    pub open spec fn zp_indirect_spec(self) -> (CpuView, u8) {
        let (s1, b) = self.fetch_byte_spec();
        (CpuView { operand: s1.read_word_zp(b), kind: OperandKind::Address, ..s1 }, 0u8)
    }

    /// (Indirect),Y: the word read in page zero at the fetched byte,
    /// plus Y, wrapping; page-cross reportable.
    pub open spec fn zp_y_indirect_spec(self) -> (CpuView, u8) {
        let (s1, b) = self.fetch_byte_spec();
        let base = s1.read_word_zp(b);
        let ea = (((base + self.y) % 0x10000) as u16);
        (
            CpuView { operand: ea, kind: OperandKind::Address, ..s1 },
            if (ea >> 8) != (base >> 8) { 1u8 } else { 0u8 },
        )
    }
}

impl Cpu6502 {
    /// Little-endian word read that stays inside page zero.
    pub fn read_word_zp(&self, p: u8) -> (r: u16)
        requires
            self.wf(),
        ensures
            r == self@.read_word_zp(p),
    {
        let lo = self.read_byte(p as u16);
        let hi = self.read_byte((((p as u16) + 1) % 0x100));
        ((hi as u16) << 8) | (lo as u16)
    }

    /// Absolute mode resolver.
    pub fn abs(&mut self) -> (r: u8)
        requires
            old(self).wf(),
        ensures
            (final(self)@, r) == old(self)@.abs_spec(),
            final(self).wf(),
    {
        self.operand = self.fetch_word();
        self.kind = OperandKind::Address;
        0
    }

    /// Absolute,X mode resolver.
    pub fn abs_x(&mut self) -> (r: u8)
        requires
            old(self).wf(),
        ensures
            (final(self)@, r) == old(self)@.abs_x_spec(),
            final(self).wf(),
    {
        let w = self.fetch_word();
        let ea = (((w as u32) + (self.x as u32)) % 0x10000) as u16;
        self.operand = ea;
        self.kind = OperandKind::Address;
        if (ea >> 8) != (w >> 8) { 1 } else { 0 }
    }

    /// Absolute,Y mode resolver.
    pub fn abs_y(&mut self) -> (r: u8)
        requires
            old(self).wf(),
        ensures
            (final(self)@, r) == old(self)@.abs_y_spec(),
            final(self).wf(),
    {
        let w = self.fetch_word();
        let ea = (((w as u32) + (self.y as u32)) % 0x10000) as u16;
        self.operand = ea;
        self.kind = OperandKind::Address;
        if (ea >> 8) != (w >> 8) { 1 } else { 0 }
    }

    /// Absolute indirect mode resolver.
    pub fn abs_indirect(&mut self) -> (r: u8)
        requires
            old(self).wf(),
        ensures
            (final(self)@, r) == old(self)@.abs_indirect_spec(),
            final(self).wf(),
    {
        let addr = self.fetch_word();
        self.operand = self.read_word(addr);
        self.kind = OperandKind::Address;
        0
    }

    /// Absolute indexed indirect mode resolver.
    pub fn abs_x_indirect(&mut self) -> (r: u8)
        requires
            old(self).wf(),
        ensures
            (final(self)@, r) == old(self)@.abs_x_indirect_spec(),
            final(self).wf(),
    {
        let w = self.fetch_word();
        let addr = (((w as u32) + (self.x as u32)) % 0x10000) as u16;
        self.operand = self.read_word(addr);
        self.kind = OperandKind::Address;
        0
    }

    /// Accumulator mode resolver.
    pub fn acc(&mut self) -> (r: u8)
        requires
            old(self).wf(),
        ensures
            (final(self)@, r) == old(self)@.acc_spec(),
            final(self).wf(),
    {
        self.operand = self.a as u16;
        self.kind = OperandKind::Accum;
        0
    }

    /// Immediate mode resolver.
    pub fn imm(&mut self) -> (r: u8)
        requires
            old(self).wf(),
        ensures
            (final(self)@, r) == old(self)@.imm_spec(),
            final(self).wf(),
    {
        self.operand = self.fetch_byte() as u16;
        self.kind = OperandKind::Value;
        0
    }

    /// Implied mode resolver.
    pub fn imp(&mut self) -> (r: u8)
        requires
            old(self).wf(),
        ensures
            (final(self)@, r) == old(self)@.imp_spec(),
            final(self).wf(),
    {
        self.kind = OperandKind::Unused;
        0
    }

    /// Relative mode resolver.
    pub fn rel(&mut self) -> (r: u8)
        requires
            old(self).wf(),
        ensures
            (final(self)@, r) == old(self)@.rel_spec(),
            final(self).wf(),
    {
        let off = self.fetch_byte();
        let target = if off < 0x80 {
            (((self.pc as u32) + (off as u32)) % 0x10000) as u16
        } else {
            (((self.pc as u32) + (off as u32) + 0xff00) % 0x10000) as u16
        };
        self.operand = target;
        self.kind = OperandKind::Address;
        if (target >> 8) != (self.pc >> 8) { 1 } else { 0 }
    }

    /// Stack mode resolver.
    pub fn stack(&mut self) -> (r: u8)
        requires
            old(self).wf(),
        ensures
            (final(self)@, r) == old(self)@.stack_spec(),
            final(self).wf(),
    {
        self.operand = 0x100u16 + (self.sp as u16);
        self.kind = OperandKind::Address;
        0
    }

    /// Zero-page mode resolver.
    pub fn zp(&mut self) -> (r: u8)
        requires
            old(self).wf(),
        ensures
            (final(self)@, r) == old(self)@.zp_spec(),
            final(self).wf(),
    {
        self.operand = self.fetch_byte() as u16;
        self.kind = OperandKind::Address;
        0
    }

    /// Zero-page,X mode resolver.
    pub fn zp_x(&mut self) -> (r: u8)
        requires
            old(self).wf(),
        ensures
            (final(self)@, r) == old(self)@.zp_x_spec(),
            final(self).wf(),
    {
        let b = self.fetch_byte();
        self.operand = (((b as u16) + (self.x as u16)) % 0x100);
        self.kind = OperandKind::Address;
        0
    }

    /// Zero-page,Y mode resolver.
    pub fn zp_y(&mut self) -> (r: u8)
        requires
            old(self).wf(),
        ensures
            (final(self)@, r) == old(self)@.zp_y_spec(),
            final(self).wf(),
    {
        let b = self.fetch_byte();
        self.operand = (((b as u16) + (self.y as u16)) % 0x100);
        self.kind = OperandKind::Address;
        0
    }

    /// (Indexed indirect,X) mode resolver.
    pub fn zp_x_indirect(&mut self) -> (r: u8)
        requires
            old(self).wf(),
        ensures
            (final(self)@, r) == old(self)@.zp_x_indirect_spec(),
            final(self).wf(),
    {
        let b = self.fetch_byte();
        let ptr = ((((b as u16) + (self.x as u16)) % 0x100)) as u8;
        self.operand = self.read_word_zp(ptr);
        self.kind = OperandKind::Address;
        0
    }

    /// Zero-page indirect mode resolver.
    pub fn zp_indirect(&mut self) -> (r: u8)
        requires
            old(self).wf(),
        ensures
            (final(self)@, r) == old(self)@.zp_indirect_spec(),
            final(self).wf(),
    {
        let b = self.fetch_byte();
        self.operand = self.read_word_zp(b);
        self.kind = OperandKind::Address;
        0
    }

    /// (Indirect),Y mode resolver.
    pub fn zp_y_indirect(&mut self) -> (r: u8)
        requires
            old(self).wf(),
        ensures
            (final(self)@, r) == old(self)@.zp_y_indirect_spec(),
            final(self).wf(),
    {
        let b = self.fetch_byte();
        let base = self.read_word_zp(b);
        let ea = (((base as u32) + (self.y as u32)) % 0x10000) as u16;
        self.operand = ea;
        self.kind = OperandKind::Address;
        if (ea >> 8) != (base >> 8) { 1 } else { 0 }
    }
}

} // verus!
