//! The execution driver.
//!
//! One step is fetch, table lookup, addressing-mode resolution, instruction
//! execution, and cycle totalling: base cost, plus the page-cross penalty
//! where the mode defines one, plus the branch-taken penalty where the
//! instruction defines one. A taken branch pays the page-cross penalty only
//! when it is taken. An opcode mapped to the illegal sentinel is reported
//! as a distinct, recoverable error and costs nothing beyond the fetch.

use vstd::prelude::*;
use crate::state::{Cpu6502, CpuView};
use crate::table::{AddrMode, Entry, Mnemonic, OpcodeDef, OpcodeTable};

verus! {

/// The transition an addressing mode makes: the resolved state and the
/// page-cross indicator.
pub open spec fn resolve_spec(pre: CpuView, m: AddrMode) -> (CpuView, u8) {
    match m {
        AddrMode::Absolute => pre.abs_spec(),
        AddrMode::AbsoluteIndexedIndirect => pre.abs_x_indirect_spec(),
        AddrMode::AbsoluteIndexedX => pre.abs_x_spec(),
        AddrMode::AbsoluteIndexedY => pre.abs_y_spec(),
        AddrMode::AbsoluteIndirect => pre.abs_indirect_spec(),
        AddrMode::Accumulator => pre.acc_spec(),
        AddrMode::Immediate => pre.imm_spec(),
        AddrMode::Implied => pre.imp_spec(),
        AddrMode::ProgramCounterRelative => pre.rel_spec(),
        AddrMode::Stack => pre.stack_spec(),
        AddrMode::ZeroPage => pre.zp_spec(),
        AddrMode::ZeroPageIndexedIndirect => pre.zp_x_indirect_spec(),
        AddrMode::ZeroPageIndexedX => pre.zp_x_spec(),
        AddrMode::ZeroPageIndexedY => pre.zp_y_spec(),
        AddrMode::ZeroPageIndirect => pre.zp_indirect_spec(),
        AddrMode::ZeroPageIndirectIndexedY => pre.zp_y_indirect_spec(),
    }
}

/// The transition an instruction makes: the new state and the extra cycle a
/// taken branch reports.
pub open spec fn execute_spec(pre: CpuView, m: Mnemonic) -> (CpuView, u8) {
    match m {
        Mnemonic::Adc => pre.adc_spec(),
        Mnemonic::And => pre.and_spec(),
        Mnemonic::Asl => pre.asl_spec(),
        Mnemonic::Bcc => pre.branch_spec(!pre.c),
        Mnemonic::Bcs => pre.branch_spec(pre.c),
        Mnemonic::Beq => pre.branch_spec(pre.z),
        Mnemonic::Bit => pre.bit_spec(),
        Mnemonic::Bmi => pre.branch_spec(pre.n),
        Mnemonic::Bne => pre.branch_spec(!pre.z),
        Mnemonic::Bpl => pre.branch_spec(!pre.n),
        Mnemonic::Brk => pre.brk_spec(),
        Mnemonic::Bvc => pre.branch_spec(!pre.v),
        Mnemonic::Bvs => pre.branch_spec(pre.v),
        Mnemonic::Clc => (CpuView { c: false, ..pre }, 0u8),
        Mnemonic::Cld => (CpuView { d: false, ..pre }, 0u8),
        Mnemonic::Cli => (CpuView { i: false, ..pre }, 0u8),
        Mnemonic::Clv => (CpuView { v: false, ..pre }, 0u8),
        Mnemonic::Cmp => (pre.compare_spec(pre.a), 0u8),
        Mnemonic::Cpx => (pre.compare_spec(pre.x), 0u8),
        Mnemonic::Cpy => (pre.compare_spec(pre.y), 0u8),
        Mnemonic::Dec => pre.dec_spec(),
        Mnemonic::Dex => ((CpuView { x: CpuView::step_reg(pre.x, false), ..pre }).with_nz(
            CpuView::step_reg(pre.x, false),
        ), 0u8),
        Mnemonic::Dey => ((CpuView { y: CpuView::step_reg(pre.y, false), ..pre }).with_nz(
            CpuView::step_reg(pre.y, false),
        ), 0u8),
        Mnemonic::Eor => pre.eor_spec(),
        Mnemonic::Inc => pre.inc_spec(),
        Mnemonic::Inx => ((CpuView { x: CpuView::step_reg(pre.x, true), ..pre }).with_nz(
            CpuView::step_reg(pre.x, true),
        ), 0u8),
        Mnemonic::Iny => ((CpuView { y: CpuView::step_reg(pre.y, true), ..pre }).with_nz(
            CpuView::step_reg(pre.y, true),
        ), 0u8),
        Mnemonic::Jmp => pre.jmp_spec(),
        Mnemonic::Jsr => pre.jsr_spec(),
        Mnemonic::Lda => pre.lda_spec(),
        Mnemonic::Ldx => pre.ldx_spec(),
        Mnemonic::Ldy => pre.ldy_spec(),
        Mnemonic::Lsr => pre.lsr_spec(),
        Mnemonic::Nop => (pre, 0u8),
        Mnemonic::Ora => pre.ora_spec(),
        Mnemonic::Pha => pre.pha_spec(),
        Mnemonic::Php => pre.php_spec(),
        Mnemonic::Pla => pre.pla_spec(),
        Mnemonic::Plp => pre.plp_spec(),
        Mnemonic::Rol => pre.rol_spec(),
        Mnemonic::Ror => pre.ror_spec(),
        Mnemonic::Rti => pre.rti_spec(),
        Mnemonic::Rts => pre.rts_spec(),
        Mnemonic::Sbc => pre.sbc_spec(),
        Mnemonic::Sec => (CpuView { c: true, ..pre }, 0u8),
        Mnemonic::Sed => (CpuView { d: true, ..pre }, 0u8),
        Mnemonic::Sei => (CpuView { i: true, ..pre }, 0u8),
        Mnemonic::Sta => pre.sta_spec(),
        Mnemonic::Stx => pre.stx_spec(),
        Mnemonic::Sty => pre.sty_spec(),
        Mnemonic::Tax => ((CpuView { x: pre.a, ..pre }).with_nz(pre.a), 0u8),
        Mnemonic::Tay => ((CpuView { y: pre.a, ..pre }).with_nz(pre.a), 0u8),
        Mnemonic::Tsx => ((CpuView { x: pre.sp, ..pre }).with_nz(pre.sp), 0u8),
        Mnemonic::Txa => ((CpuView { a: pre.x, ..pre }).with_nz(pre.x), 0u8),
        Mnemonic::Txs => (CpuView { sp: pre.x, ..pre }, 0u8),
        Mnemonic::Tya => ((CpuView { a: pre.y, ..pre }).with_nz(pre.y), 0u8),
    }
}

/// Total cycle cost of one defined instruction: base cost, plus the
/// branch-taken extra where the cycle descriptor carries it, plus the
/// page-cross extra where the descriptor carries it — gated, for branches,
/// on the branch having been taken.
pub open spec fn cycle_count(d: OpcodeDef, pcross: u8, extra: u8) -> int {
    d.cycles + (if d.branch_extra {
        extra as int
    } else {
        0int
    }) + (if d.page_extra {
        if d.branch_extra {
            if extra > 0 {
                pcross as int
            } else {
                0int
            }
        } else {
            pcross as int
        }
    } else {
        0int
    })
}

/// One full instruction step: fetch the opcode, look it up, resolve the
/// addressing mode, execute the semantics, and total the cycles. An opcode
/// mapped to the illegal sentinel leaves the state as it stood after the
/// fetch and reports the opcode byte as the error.
pub open spec fn step_spec(pre: CpuView, t: Seq<Entry>) -> (CpuView, Result<u32, u8>) {
    let (s1, op) = pre.fetch_byte_spec();
    match t[op as int] {
        Entry::Illegal => (s1, Result::<u32, u8>::Err(op)),
        Entry::Op(d) => {
            let (s2, pcross) = resolve_spec(s1, d.mode);
            let (s3, extra) = execute_spec(s2, d.mnemonic);
            (s3, Result::<u32, u8>::Ok(cycle_count(d, pcross, extra) as u32))
        },
    }
}

impl Cpu6502 {
    /// Run one addressing-mode resolver, selected by the table entry.
    pub fn resolve(&mut self, m: AddrMode) -> (r: u8)
        requires
            old(self).wf(),
        ensures
            (final(self)@, r) == resolve_spec(old(self)@, m),
            final(self).wf(),
    {
        match m {
            AddrMode::Absolute => self.abs(),
            AddrMode::AbsoluteIndexedIndirect => self.abs_x_indirect(),
            AddrMode::AbsoluteIndexedX => self.abs_x(),
            AddrMode::AbsoluteIndexedY => self.abs_y(),
            AddrMode::AbsoluteIndirect => self.abs_indirect(),
            AddrMode::Accumulator => self.acc(),
            AddrMode::Immediate => self.imm(),
            AddrMode::Implied => self.imp(),
            AddrMode::ProgramCounterRelative => self.rel(),
            AddrMode::Stack => self.stack(),
            AddrMode::ZeroPage => self.zp(),
            AddrMode::ZeroPageIndexedIndirect => self.zp_x_indirect(),
            AddrMode::ZeroPageIndexedX => self.zp_x(),
            AddrMode::ZeroPageIndexedY => self.zp_y(),
            AddrMode::ZeroPageIndirect => self.zp_indirect(),
            AddrMode::ZeroPageIndirectIndexedY => self.zp_y_indirect(),
        }
    }

    /// Run one instruction's semantics, selected by the table entry.
    pub fn execute(&mut self, m: Mnemonic) -> (r: u8)
        requires
            old(self).wf(),
        ensures
            (final(self)@, r) == execute_spec(old(self)@, m),
            final(self).wf(),
    {
        match m {
            Mnemonic::Adc => self.adc(),
            Mnemonic::And => self.and(),
            Mnemonic::Asl => self.asl(),
            Mnemonic::Bcc => self.bcc(),
            Mnemonic::Bcs => self.bcs(),
            Mnemonic::Beq => self.beq(),
            Mnemonic::Bit => self.bit(),
            Mnemonic::Bmi => self.bmi(),
            Mnemonic::Bne => self.bne(),
            Mnemonic::Bpl => self.bpl(),
            Mnemonic::Brk => self.brk(),
            Mnemonic::Bvc => self.bvc(),
            Mnemonic::Bvs => self.bvs(),
            Mnemonic::Clc => self.clc(),
            Mnemonic::Cld => self.cld(),
            Mnemonic::Cli => self.cli(),
            Mnemonic::Clv => self.clv(),
            Mnemonic::Cmp => self.cmp(),
            Mnemonic::Cpx => self.cpx(),
            Mnemonic::Cpy => self.cpy(),
            Mnemonic::Dec => self.dec(),
            Mnemonic::Dex => self.dex(),
            Mnemonic::Dey => self.dey(),
            Mnemonic::Eor => self.eor(),
            Mnemonic::Inc => self.inc(),
            Mnemonic::Inx => self.inx(),
            Mnemonic::Iny => self.iny(),
            Mnemonic::Jmp => self.jmp(),
            Mnemonic::Jsr => self.jsr(),
            Mnemonic::Lda => self.lda(),
            Mnemonic::Ldx => self.ldx(),
            Mnemonic::Ldy => self.ldy(),
            Mnemonic::Lsr => self.lsr(),
            Mnemonic::Nop => self.nop(),
            Mnemonic::Ora => self.ora(),
            Mnemonic::Pha => self.pha(),
            Mnemonic::Php => self.php(),
            Mnemonic::Pla => self.pla(),
            Mnemonic::Plp => self.plp(),
            Mnemonic::Rol => self.rol(),
            Mnemonic::Ror => self.ror(),
            Mnemonic::Rti => self.rti(),
            Mnemonic::Rts => self.rts(),
            Mnemonic::Sbc => self.sbc(),
            Mnemonic::Sec => self.sec(),
            Mnemonic::Sed => self.sed(),
            Mnemonic::Sei => self.sei(),
            Mnemonic::Sta => self.sta(),
            Mnemonic::Stx => self.stx(),
            Mnemonic::Sty => self.sty(),
            Mnemonic::Tax => self.tax(),
            Mnemonic::Tay => self.tay(),
            Mnemonic::Tsx => self.tsx(),
            Mnemonic::Txa => self.txa(),
            Mnemonic::Txs => self.txs(),
            Mnemonic::Tya => self.tya(),
        }
    }

    /// Execute one instruction and return the cycles it consumed, or the
    /// opcode byte when it maps to the illegal sentinel (in which case the
    /// state is unchanged but for `pc` having passed the opcode, and no
    /// cycle cost is reported).
    pub fn step(&mut self, table: &OpcodeTable) -> (r: Result<u32, u8>)
        requires
            old(self).wf(),
            table.wf(),
        ensures
            (final(self)@, r) == step_spec(old(self)@, table@),
            final(self).wf(),
    {
        let op = self.fetch_byte();
        match table.get(op) {
            Entry::Illegal => Err(op),
            Entry::Op(d) => {
                let pcross = self.resolve(d.mode);
                let extra = self.execute(d.mnemonic);
                let total: u32 = (d.cycles as u32) + (if d.branch_extra {
                    extra as u32
                } else {
                    0u32
                }) + (if d.page_extra {
                    if d.branch_extra {
                        if extra > 0 {
                            pcross as u32
                        } else {
                            0u32
                        }
                    } else {
                        pcross as u32
                    }
                } else {
                    0u32
                });
                Ok(total)
            },
        }
    }
}

} // verus!
