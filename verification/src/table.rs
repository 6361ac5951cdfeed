//! The 256-entry opcode dispatch table.
//!
//! The table is built once, at startup, from a declarative list of
//! `(mnemonic, addressing mode, opcode, base cycles, extra-cycle flags)`
//! tuples. Construction rejects a duplicate opcode assignment as a fatal
//! fault; every opcode byte not claimed by the list maps to the explicit
//! illegal-opcode sentinel.

use vstd::prelude::*;

verus! {

/// The sixteen 6502 addressing modes.
#[derive(Clone, Copy, PartialEq, Eq, Structural, Debug)]
pub enum AddrMode {
    Absolute,
    AbsoluteIndexedIndirect,
    AbsoluteIndexedX,
    AbsoluteIndexedY,
    AbsoluteIndirect,
    Accumulator,
    Immediate,
    Implied,
    ProgramCounterRelative,
    Stack,
    ZeroPage,
    ZeroPageIndexedIndirect,
    ZeroPageIndexedX,
    ZeroPageIndexedY,
    ZeroPageIndirect,
    ZeroPageIndirectIndexedY,
}

/// The 56 instruction mnemonics.
#[derive(Clone, Copy, PartialEq, Eq, Structural, Debug)]
pub enum Mnemonic {
    Adc,
    And,
    Asl,
    Bcc,
    Bcs,
    Beq,
    Bit,
    Bmi,
    Bne,
    Bpl,
    Brk,
    Bvc,
    Bvs,
    Clc,
    Cld,
    Cli,
    Clv,
    Cmp,
    Cpx,
    Cpy,
    Dec,
    Dex,
    Dey,
    Eor,
    Inc,
    Inx,
    Iny,
    Jmp,
    Jsr,
    Lda,
    Ldx,
    Ldy,
    Lsr,
    Nop,
    Ora,
    Pha,
    Php,
    Pla,
    Plp,
    Rol,
    Ror,
    Rti,
    Rts,
    Sbc,
    Sec,
    Sed,
    Sei,
    Sta,
    Stx,
    Sty,
    Tax,
    Tay,
    Tsx,
    Txa,
    Txs,
    Tya,
}

/// One line of the declarative instruction specification: which mnemonic and
/// addressing mode an opcode byte selects, its base cycle cost, and which
/// extra-cycle conditions apply (page-crossing, branch-taken).
#[derive(Clone, Copy, PartialEq, Eq, Structural, Debug)]
pub struct OpcodeDef {
    pub mnemonic: Mnemonic,
    pub mode: AddrMode,
    pub opcode: u8,
    pub cycles: u8,
    pub page_extra: bool,
    pub branch_extra: bool,
}

/// One slot of the dispatch table: a defined instruction, or the explicit
/// illegal-opcode sentinel.
#[derive(Clone, Copy, PartialEq, Eq, Structural, Debug)]
pub enum Entry {
    Illegal,
    Op(OpcodeDef),
}

/// No two lines of a declarative specification claim the same opcode byte.
pub open spec fn defs_unique(s: Seq<OpcodeDef>) -> bool {
    forall|i: int, j: int| 0 <= i < j < s.len() ==> s[i].opcode != s[j].opcode
}

/// A 256-slot table faithfully populated from a declarative specification:
/// every listed opcode maps to its line, every unlisted opcode to the
/// illegal sentinel.
pub open spec fn table_matches(s: Seq<OpcodeDef>, t: Seq<Entry>) -> bool {
    &&& t.len() == 256
    &&& forall|i: int| 0 <= i < s.len() ==> t[#[trigger] s[i].opcode as int] == Entry::Op(s[i])
    &&& forall|op: int|
        0 <= op < 256 ==> ((#[trigger] t[op]) is Illegal <==> (forall|i: int|
            0 <= i < s.len() ==> (#[trigger] s[i].opcode) as int != op))
}

/// The opcode dispatch table: 256 slots, indexable by an opcode byte.
pub struct OpcodeTable {
    entries: Vec<Entry>,
}

impl View for OpcodeTable {
    type V = Seq<Entry>;

    closed spec fn view(&self) -> Seq<Entry> {
        self.entries@
    }
}

impl OpcodeTable {
    /// All 256 slots are present.
    pub open spec fn wf(&self) -> bool {
        self@.len() == 256
    }

    /// The slot an opcode byte selects.
    pub fn get(&self, op: u8) -> (e: Entry)
        requires
            self.wf(),
        ensures
            e == self@[op as int],
    {
        self.entries[op as usize]
    }
}

/// Build the dispatch table from a declarative specification.
///
/// Returns the populated table exactly when no two lines claim the same
/// opcode; otherwise the doubly-claimed opcode byte comes back as the error
/// and no table is produced.
pub fn build_table(defs: &Vec<OpcodeDef>) -> (r: Result<OpcodeTable, u8>)
    ensures
        r is Ok <==> defs_unique(defs@),
        r matches Ok(t) ==> t.wf() && table_matches(defs@, t@),
        r matches Err(op) ==> exists|i: int, j: int|
            0 <= i < j < defs@.len() && defs@[i].opcode == op && defs@[j].opcode == op,
{
    let mut entries: Vec<Entry> = Vec::new();
    let mut f: usize = 0;
    while f < 256
        invariant
            f <= 256,
            entries@.len() == f,
            forall|p: int| 0 <= p < f ==> entries@[p] == Entry::Illegal,
        decreases 256 - f,
    {
        entries.push(Entry::Illegal);
        f = f + 1;
    }
    let mut k: usize = 0;
    while k < defs.len()
        invariant
            k <= defs@.len(),
            entries@.len() == 256,
            forall|i: int, j: int| 0 <= i < j < k ==> defs@[i].opcode != defs@[j].opcode,
            forall|i: int|
                0 <= i < k ==> entries@[#[trigger] defs@[i].opcode as int] == Entry::Op(defs@[i]),
            forall|op: int|
                0 <= op < 256 ==> ((#[trigger] entries@[op]) is Illegal <==> (forall|i: int|
                    0 <= i < k ==> (#[trigger] defs@[i].opcode) as int != op)),
        decreases defs@.len() - k,
    {
        let d = defs[k];
        let idx = d.opcode as usize;
        match entries[idx] {
            Entry::Op(_) => {
                proof {
                    let w = choose|i: int|
                        0 <= i < k && (#[trigger] defs@[i].opcode) as int == idx as int;
                    assert(0 <= w < k && defs@[w].opcode == d.opcode);
                }
                return Err(d.opcode);
            },
            Entry::Illegal => {
                entries.set(idx, Entry::Op(d));
            },
        }
        k = k + 1;
    }
    Ok(OpcodeTable { entries })
}

/// One line of the declarative specification, in positional form.
pub open spec fn def_spec(
    mnemonic: Mnemonic,
    mode: AddrMode,
    opcode: u8,
    cycles: u8,
    p: bool,
    t: bool,
) -> OpcodeDef {
    OpcodeDef { mnemonic, mode, opcode, cycles, page_extra: p, branch_extra: t }
}

/// Executable counterpart of [`def_spec`].
fn def(mnemonic: Mnemonic, mode: AddrMode, opcode: u8, cycles: u8, p: bool, t: bool) -> (r:
    OpcodeDef)
    ensures
        r == def_spec(mnemonic, mode, opcode, cycles, p, t),
{
    OpcodeDef { mnemonic, mode, opcode, cycles, page_extra: p, branch_extra: t }
}

/// The lines of [`opcode_defs_spec`] covering the ADC and AND lines.
pub open spec fn defs_adc_and() -> Seq<OpcodeDef> {
    seq![
        def_spec(Mnemonic::Adc, AddrMode::Immediate, 0x69, 2, false, false),
        def_spec(Mnemonic::Adc, AddrMode::Absolute, 0x6d, 4, false, false),
        def_spec(Mnemonic::Adc, AddrMode::AbsoluteIndexedX, 0x7d, 4, true, false),
        def_spec(Mnemonic::Adc, AddrMode::AbsoluteIndexedY, 0x79, 4, true, false),
        def_spec(Mnemonic::Adc, AddrMode::ZeroPage, 0x65, 3, false, false),
        def_spec(Mnemonic::Adc, AddrMode::ZeroPageIndexedX, 0x75, 4, false, false),
        def_spec(Mnemonic::Adc, AddrMode::ZeroPageIndexedIndirect, 0x61, 6, false, false),
        def_spec(Mnemonic::Adc, AddrMode::ZeroPageIndirectIndexedY, 0x71, 5, true, false),
        def_spec(Mnemonic::And, AddrMode::Immediate, 0x29, 2, false, false),
        def_spec(Mnemonic::And, AddrMode::Absolute, 0x2d, 4, false, false),
        def_spec(Mnemonic::And, AddrMode::AbsoluteIndexedX, 0x3d, 4, true, false),
        def_spec(Mnemonic::And, AddrMode::AbsoluteIndexedY, 0x39, 4, true, false),
        def_spec(Mnemonic::And, AddrMode::ZeroPage, 0x25, 3, false, false),
        def_spec(Mnemonic::And, AddrMode::ZeroPageIndexedX, 0x35, 4, false, false),
        def_spec(Mnemonic::And, AddrMode::ZeroPageIndexedIndirect, 0x21, 6, false, false),
        def_spec(Mnemonic::And, AddrMode::ZeroPageIndirectIndexedY, 0x31, 5, true, false),
    ]
}

/// Appends the ADC and AND lines.
fn push_adc_and(v: &mut Vec<OpcodeDef>)
    ensures
        final(v)@ == old(v)@ + defs_adc_and(),
{
    v.push(def(Mnemonic::Adc, AddrMode::Immediate, 0x69, 2, false, false));
    v.push(def(Mnemonic::Adc, AddrMode::Absolute, 0x6d, 4, false, false));
    v.push(def(Mnemonic::Adc, AddrMode::AbsoluteIndexedX, 0x7d, 4, true, false));
    v.push(def(Mnemonic::Adc, AddrMode::AbsoluteIndexedY, 0x79, 4, true, false));
    v.push(def(Mnemonic::Adc, AddrMode::ZeroPage, 0x65, 3, false, false));
    v.push(def(Mnemonic::Adc, AddrMode::ZeroPageIndexedX, 0x75, 4, false, false));
    v.push(def(Mnemonic::Adc, AddrMode::ZeroPageIndexedIndirect, 0x61, 6, false, false));
    v.push(def(Mnemonic::Adc, AddrMode::ZeroPageIndirectIndexedY, 0x71, 5, true, false));
    v.push(def(Mnemonic::And, AddrMode::Immediate, 0x29, 2, false, false));
    v.push(def(Mnemonic::And, AddrMode::Absolute, 0x2d, 4, false, false));
    v.push(def(Mnemonic::And, AddrMode::AbsoluteIndexedX, 0x3d, 4, true, false));
    v.push(def(Mnemonic::And, AddrMode::AbsoluteIndexedY, 0x39, 4, true, false));
    v.push(def(Mnemonic::And, AddrMode::ZeroPage, 0x25, 3, false, false));
    v.push(def(Mnemonic::And, AddrMode::ZeroPageIndexedX, 0x35, 4, false, false));
    v.push(def(Mnemonic::And, AddrMode::ZeroPageIndexedIndirect, 0x21, 6, false, false));
    v.push(def(Mnemonic::And, AddrMode::ZeroPageIndirectIndexedY, 0x31, 5, true, false));
    proof {
        assert(v@ =~= old(v)@ + defs_adc_and());
    }
}

/// The lines of [`opcode_defs_spec`] covering the ASL, branch, BIT and BRK lines.
pub open spec fn defs_asl_branches_brk() -> Seq<OpcodeDef> {
    seq![
        def_spec(Mnemonic::Asl, AddrMode::Accumulator, 0x0a, 2, false, false),
        def_spec(Mnemonic::Asl, AddrMode::Absolute, 0x0e, 6, false, false),
        def_spec(Mnemonic::Asl, AddrMode::AbsoluteIndexedX, 0x1e, 7, false, false),
        def_spec(Mnemonic::Asl, AddrMode::ZeroPage, 0x06, 5, false, false),
        def_spec(Mnemonic::Asl, AddrMode::ZeroPageIndexedX, 0x16, 6, false, false),
        def_spec(Mnemonic::Bcc, AddrMode::ProgramCounterRelative, 0x90, 2, true, true),
        def_spec(Mnemonic::Bcs, AddrMode::ProgramCounterRelative, 0xb0, 2, true, true),
        def_spec(Mnemonic::Beq, AddrMode::ProgramCounterRelative, 0xf0, 2, true, true),
        def_spec(Mnemonic::Bit, AddrMode::Absolute, 0x2c, 4, false, false),
        def_spec(Mnemonic::Bit, AddrMode::ZeroPage, 0x24, 3, false, false),
        def_spec(Mnemonic::Bmi, AddrMode::ProgramCounterRelative, 0x30, 2, true, true),
        def_spec(Mnemonic::Bne, AddrMode::ProgramCounterRelative, 0xd0, 2, true, true),
        def_spec(Mnemonic::Bpl, AddrMode::ProgramCounterRelative, 0x10, 2, true, true),
        def_spec(Mnemonic::Brk, AddrMode::Implied, 0x00, 7, false, false),
        def_spec(Mnemonic::Bvc, AddrMode::ProgramCounterRelative, 0x50, 2, true, true),
        def_spec(Mnemonic::Bvs, AddrMode::ProgramCounterRelative, 0x70, 2, true, true),
    ]
}

/// Appends the ASL, branch, BIT and BRK lines.
fn push_asl_branches_brk(v: &mut Vec<OpcodeDef>)
    ensures
        final(v)@ == old(v)@ + defs_asl_branches_brk(),
{
    v.push(def(Mnemonic::Asl, AddrMode::Accumulator, 0x0a, 2, false, false));
    v.push(def(Mnemonic::Asl, AddrMode::Absolute, 0x0e, 6, false, false));
    v.push(def(Mnemonic::Asl, AddrMode::AbsoluteIndexedX, 0x1e, 7, false, false));
    v.push(def(Mnemonic::Asl, AddrMode::ZeroPage, 0x06, 5, false, false));
    v.push(def(Mnemonic::Asl, AddrMode::ZeroPageIndexedX, 0x16, 6, false, false));
    v.push(def(Mnemonic::Bcc, AddrMode::ProgramCounterRelative, 0x90, 2, true, true));
    v.push(def(Mnemonic::Bcs, AddrMode::ProgramCounterRelative, 0xb0, 2, true, true));
    v.push(def(Mnemonic::Beq, AddrMode::ProgramCounterRelative, 0xf0, 2, true, true));
    v.push(def(Mnemonic::Bit, AddrMode::Absolute, 0x2c, 4, false, false));
    v.push(def(Mnemonic::Bit, AddrMode::ZeroPage, 0x24, 3, false, false));
    v.push(def(Mnemonic::Bmi, AddrMode::ProgramCounterRelative, 0x30, 2, true, true));
    v.push(def(Mnemonic::Bne, AddrMode::ProgramCounterRelative, 0xd0, 2, true, true));
    v.push(def(Mnemonic::Bpl, AddrMode::ProgramCounterRelative, 0x10, 2, true, true));
    v.push(def(Mnemonic::Brk, AddrMode::Implied, 0x00, 7, false, false));
    v.push(def(Mnemonic::Bvc, AddrMode::ProgramCounterRelative, 0x50, 2, true, true));
    v.push(def(Mnemonic::Bvs, AddrMode::ProgramCounterRelative, 0x70, 2, true, true));
    proof {
        assert(v@ =~= old(v)@ + defs_asl_branches_brk());
    }
}

/// The lines of [`opcode_defs_spec`] covering the flag-clearing and compare lines.
pub open spec fn defs_flags_compares() -> Seq<OpcodeDef> {
    seq![
        def_spec(Mnemonic::Clc, AddrMode::Implied, 0x18, 2, false, false),
        def_spec(Mnemonic::Cld, AddrMode::Implied, 0xd8, 2, false, false),
        def_spec(Mnemonic::Cli, AddrMode::Implied, 0x58, 2, false, false),
        def_spec(Mnemonic::Clv, AddrMode::Implied, 0xb8, 2, false, false),
        def_spec(Mnemonic::Cmp, AddrMode::Immediate, 0xc9, 2, false, false),
        def_spec(Mnemonic::Cmp, AddrMode::Absolute, 0xcd, 4, false, false),
        def_spec(Mnemonic::Cmp, AddrMode::AbsoluteIndexedX, 0xdd, 4, true, false),
        def_spec(Mnemonic::Cmp, AddrMode::AbsoluteIndexedY, 0xd9, 4, true, false),
        def_spec(Mnemonic::Cmp, AddrMode::ZeroPage, 0xc5, 3, false, false),
        def_spec(Mnemonic::Cmp, AddrMode::ZeroPageIndexedX, 0xd5, 4, false, false),
        def_spec(Mnemonic::Cmp, AddrMode::ZeroPageIndexedIndirect, 0xc1, 6, false, false),
        def_spec(Mnemonic::Cmp, AddrMode::ZeroPageIndirectIndexedY, 0xd1, 5, true, false),
        def_spec(Mnemonic::Cpx, AddrMode::Immediate, 0xe0, 2, false, false),
        def_spec(Mnemonic::Cpx, AddrMode::Absolute, 0xec, 4, false, false),
        def_spec(Mnemonic::Cpx, AddrMode::ZeroPage, 0xe4, 3, false, false),
        def_spec(Mnemonic::Cpy, AddrMode::Immediate, 0xc0, 2, false, false),
        def_spec(Mnemonic::Cpy, AddrMode::Absolute, 0xcc, 4, false, false),
        def_spec(Mnemonic::Cpy, AddrMode::ZeroPage, 0xc4, 3, false, false),
    ]
}

/// Appends the flag-clearing and compare lines.
fn push_flags_compares(v: &mut Vec<OpcodeDef>)
    ensures
        final(v)@ == old(v)@ + defs_flags_compares(),
{
    v.push(def(Mnemonic::Clc, AddrMode::Implied, 0x18, 2, false, false));
    v.push(def(Mnemonic::Cld, AddrMode::Implied, 0xd8, 2, false, false));
    v.push(def(Mnemonic::Cli, AddrMode::Implied, 0x58, 2, false, false));
    v.push(def(Mnemonic::Clv, AddrMode::Implied, 0xb8, 2, false, false));
    v.push(def(Mnemonic::Cmp, AddrMode::Immediate, 0xc9, 2, false, false));
    v.push(def(Mnemonic::Cmp, AddrMode::Absolute, 0xcd, 4, false, false));
    v.push(def(Mnemonic::Cmp, AddrMode::AbsoluteIndexedX, 0xdd, 4, true, false));
    v.push(def(Mnemonic::Cmp, AddrMode::AbsoluteIndexedY, 0xd9, 4, true, false));
    v.push(def(Mnemonic::Cmp, AddrMode::ZeroPage, 0xc5, 3, false, false));
    v.push(def(Mnemonic::Cmp, AddrMode::ZeroPageIndexedX, 0xd5, 4, false, false));
    v.push(def(Mnemonic::Cmp, AddrMode::ZeroPageIndexedIndirect, 0xc1, 6, false, false));
    v.push(def(Mnemonic::Cmp, AddrMode::ZeroPageIndirectIndexedY, 0xd1, 5, true, false));
    v.push(def(Mnemonic::Cpx, AddrMode::Immediate, 0xe0, 2, false, false));
    v.push(def(Mnemonic::Cpx, AddrMode::Absolute, 0xec, 4, false, false));
    v.push(def(Mnemonic::Cpx, AddrMode::ZeroPage, 0xe4, 3, false, false));
    v.push(def(Mnemonic::Cpy, AddrMode::Immediate, 0xc0, 2, false, false));
    v.push(def(Mnemonic::Cpy, AddrMode::Absolute, 0xcc, 4, false, false));
    v.push(def(Mnemonic::Cpy, AddrMode::ZeroPage, 0xc4, 3, false, false));
    proof {
        assert(v@ =~= old(v)@ + defs_flags_compares());
    }
}

/// The lines of [`opcode_defs_spec`] covering the INC/DEC family and EOR lines.
pub open spec fn defs_inc_dec_eor() -> Seq<OpcodeDef> {
    seq![
        def_spec(Mnemonic::Dec, AddrMode::Absolute, 0xce, 6, false, false),
        def_spec(Mnemonic::Dec, AddrMode::AbsoluteIndexedX, 0xde, 7, false, false),
        def_spec(Mnemonic::Dec, AddrMode::ZeroPage, 0xc6, 5, false, false),
        def_spec(Mnemonic::Dec, AddrMode::ZeroPageIndexedX, 0xd6, 6, false, false),
        def_spec(Mnemonic::Dex, AddrMode::Implied, 0xca, 2, false, false),
        def_spec(Mnemonic::Dey, AddrMode::Implied, 0x88, 2, false, false),
        def_spec(Mnemonic::Eor, AddrMode::Immediate, 0x49, 2, false, false),
        def_spec(Mnemonic::Eor, AddrMode::Absolute, 0x4d, 4, false, false),
        def_spec(Mnemonic::Eor, AddrMode::AbsoluteIndexedX, 0x5d, 4, true, false),
        def_spec(Mnemonic::Eor, AddrMode::AbsoluteIndexedY, 0x59, 4, true, false),
        def_spec(Mnemonic::Eor, AddrMode::ZeroPage, 0x45, 3, false, false),
        def_spec(Mnemonic::Eor, AddrMode::ZeroPageIndexedX, 0x55, 4, false, false),
        def_spec(Mnemonic::Eor, AddrMode::ZeroPageIndexedIndirect, 0x41, 6, false, false),
        def_spec(Mnemonic::Eor, AddrMode::ZeroPageIndirectIndexedY, 0x51, 5, true, false),
        def_spec(Mnemonic::Inc, AddrMode::Absolute, 0xee, 6, false, false),
        def_spec(Mnemonic::Inc, AddrMode::AbsoluteIndexedX, 0xfe, 7, false, false),
        def_spec(Mnemonic::Inc, AddrMode::ZeroPage, 0xe6, 5, false, false),
        def_spec(Mnemonic::Inc, AddrMode::ZeroPageIndexedX, 0xf6, 6, false, false),
        def_spec(Mnemonic::Inx, AddrMode::Implied, 0xe8, 2, false, false),
        def_spec(Mnemonic::Iny, AddrMode::Implied, 0xc8, 2, false, false),
    ]
}

/// Appends the INC/DEC family and EOR lines.
fn push_inc_dec_eor(v: &mut Vec<OpcodeDef>)
    ensures
        final(v)@ == old(v)@ + defs_inc_dec_eor(),
{
    v.push(def(Mnemonic::Dec, AddrMode::Absolute, 0xce, 6, false, false));
    v.push(def(Mnemonic::Dec, AddrMode::AbsoluteIndexedX, 0xde, 7, false, false));
    v.push(def(Mnemonic::Dec, AddrMode::ZeroPage, 0xc6, 5, false, false));
    v.push(def(Mnemonic::Dec, AddrMode::ZeroPageIndexedX, 0xd6, 6, false, false));
    v.push(def(Mnemonic::Dex, AddrMode::Implied, 0xca, 2, false, false));
    v.push(def(Mnemonic::Dey, AddrMode::Implied, 0x88, 2, false, false));
    v.push(def(Mnemonic::Eor, AddrMode::Immediate, 0x49, 2, false, false));
    v.push(def(Mnemonic::Eor, AddrMode::Absolute, 0x4d, 4, false, false));
    v.push(def(Mnemonic::Eor, AddrMode::AbsoluteIndexedX, 0x5d, 4, true, false));
    v.push(def(Mnemonic::Eor, AddrMode::AbsoluteIndexedY, 0x59, 4, true, false));
    v.push(def(Mnemonic::Eor, AddrMode::ZeroPage, 0x45, 3, false, false));
    v.push(def(Mnemonic::Eor, AddrMode::ZeroPageIndexedX, 0x55, 4, false, false));
    v.push(def(Mnemonic::Eor, AddrMode::ZeroPageIndexedIndirect, 0x41, 6, false, false));
    v.push(def(Mnemonic::Eor, AddrMode::ZeroPageIndirectIndexedY, 0x51, 5, true, false));
    v.push(def(Mnemonic::Inc, AddrMode::Absolute, 0xee, 6, false, false));
    v.push(def(Mnemonic::Inc, AddrMode::AbsoluteIndexedX, 0xfe, 7, false, false));
    v.push(def(Mnemonic::Inc, AddrMode::ZeroPage, 0xe6, 5, false, false));
    v.push(def(Mnemonic::Inc, AddrMode::ZeroPageIndexedX, 0xf6, 6, false, false));
    v.push(def(Mnemonic::Inx, AddrMode::Implied, 0xe8, 2, false, false));
    v.push(def(Mnemonic::Iny, AddrMode::Implied, 0xc8, 2, false, false));
    proof {
        assert(v@ =~= old(v)@ + defs_inc_dec_eor());
    }
}

/// The lines of [`opcode_defs_spec`] covering the jump and load lines.
pub open spec fn defs_jmp_loads() -> Seq<OpcodeDef> {
    seq![
        def_spec(Mnemonic::Jmp, AddrMode::Absolute, 0x4c, 3, false, false),
        def_spec(Mnemonic::Jmp, AddrMode::AbsoluteIndirect, 0x6c, 5, false, false),
        def_spec(Mnemonic::Jsr, AddrMode::Absolute, 0x20, 6, false, false),
        def_spec(Mnemonic::Lda, AddrMode::Immediate, 0xa9, 2, false, false),
        def_spec(Mnemonic::Lda, AddrMode::Absolute, 0xad, 4, false, false),
        def_spec(Mnemonic::Lda, AddrMode::AbsoluteIndexedX, 0xbd, 4, true, false),
        def_spec(Mnemonic::Lda, AddrMode::AbsoluteIndexedY, 0xb9, 4, true, false),
        def_spec(Mnemonic::Lda, AddrMode::ZeroPage, 0xa5, 3, false, false),
        def_spec(Mnemonic::Lda, AddrMode::ZeroPageIndexedX, 0xb5, 4, false, false),
        def_spec(Mnemonic::Lda, AddrMode::ZeroPageIndexedIndirect, 0xa1, 6, false, false),
        def_spec(Mnemonic::Lda, AddrMode::ZeroPageIndirectIndexedY, 0xb1, 5, true, false),
        def_spec(Mnemonic::Ldx, AddrMode::Immediate, 0xa2, 2, false, false),
        def_spec(Mnemonic::Ldx, AddrMode::Absolute, 0xae, 4, false, false),
        def_spec(Mnemonic::Ldx, AddrMode::AbsoluteIndexedY, 0xbe, 4, true, false),
        def_spec(Mnemonic::Ldx, AddrMode::ZeroPage, 0xa6, 3, false, false),
        def_spec(Mnemonic::Ldx, AddrMode::ZeroPageIndexedY, 0xb6, 4, false, false),
        def_spec(Mnemonic::Ldy, AddrMode::Immediate, 0xa0, 2, false, false),
        def_spec(Mnemonic::Ldy, AddrMode::Absolute, 0xac, 4, false, false),
        def_spec(Mnemonic::Ldy, AddrMode::AbsoluteIndexedX, 0xbc, 4, true, false),
        def_spec(Mnemonic::Ldy, AddrMode::ZeroPage, 0xa4, 3, false, false),
        def_spec(Mnemonic::Ldy, AddrMode::ZeroPageIndexedX, 0xb4, 4, false, false),
    ]
}

/// Appends the jump and load lines.
fn push_jmp_loads(v: &mut Vec<OpcodeDef>)
    ensures
        final(v)@ == old(v)@ + defs_jmp_loads(),
{
    v.push(def(Mnemonic::Jmp, AddrMode::Absolute, 0x4c, 3, false, false));
    v.push(def(Mnemonic::Jmp, AddrMode::AbsoluteIndirect, 0x6c, 5, false, false));
    v.push(def(Mnemonic::Jsr, AddrMode::Absolute, 0x20, 6, false, false));
    v.push(def(Mnemonic::Lda, AddrMode::Immediate, 0xa9, 2, false, false));
    v.push(def(Mnemonic::Lda, AddrMode::Absolute, 0xad, 4, false, false));
    v.push(def(Mnemonic::Lda, AddrMode::AbsoluteIndexedX, 0xbd, 4, true, false));
    v.push(def(Mnemonic::Lda, AddrMode::AbsoluteIndexedY, 0xb9, 4, true, false));
    v.push(def(Mnemonic::Lda, AddrMode::ZeroPage, 0xa5, 3, false, false));
    v.push(def(Mnemonic::Lda, AddrMode::ZeroPageIndexedX, 0xb5, 4, false, false));
    v.push(def(Mnemonic::Lda, AddrMode::ZeroPageIndexedIndirect, 0xa1, 6, false, false));
    v.push(def(Mnemonic::Lda, AddrMode::ZeroPageIndirectIndexedY, 0xb1, 5, true, false));
    v.push(def(Mnemonic::Ldx, AddrMode::Immediate, 0xa2, 2, false, false));
    v.push(def(Mnemonic::Ldx, AddrMode::Absolute, 0xae, 4, false, false));
    v.push(def(Mnemonic::Ldx, AddrMode::AbsoluteIndexedY, 0xbe, 4, true, false));
    v.push(def(Mnemonic::Ldx, AddrMode::ZeroPage, 0xa6, 3, false, false));
    v.push(def(Mnemonic::Ldx, AddrMode::ZeroPageIndexedY, 0xb6, 4, false, false));
    v.push(def(Mnemonic::Ldy, AddrMode::Immediate, 0xa0, 2, false, false));
    v.push(def(Mnemonic::Ldy, AddrMode::Absolute, 0xac, 4, false, false));
    v.push(def(Mnemonic::Ldy, AddrMode::AbsoluteIndexedX, 0xbc, 4, true, false));
    v.push(def(Mnemonic::Ldy, AddrMode::ZeroPage, 0xa4, 3, false, false));
    v.push(def(Mnemonic::Ldy, AddrMode::ZeroPageIndexedX, 0xb4, 4, false, false));
    proof {
        assert(v@ =~= old(v)@ + defs_jmp_loads());
    }
}

/// The lines of [`opcode_defs_spec`] covering the LSR, NOP, ORA and stack push/pull lines.
pub open spec fn defs_lsr_ora_stack() -> Seq<OpcodeDef> {
    seq![
        def_spec(Mnemonic::Lsr, AddrMode::Accumulator, 0x4a, 2, false, false),
        def_spec(Mnemonic::Lsr, AddrMode::Absolute, 0x4e, 6, false, false),
        def_spec(Mnemonic::Lsr, AddrMode::AbsoluteIndexedX, 0x5e, 7, false, false),
        def_spec(Mnemonic::Lsr, AddrMode::ZeroPage, 0x46, 5, false, false),
        def_spec(Mnemonic::Lsr, AddrMode::ZeroPageIndexedX, 0x56, 6, false, false),
        def_spec(Mnemonic::Nop, AddrMode::Implied, 0xea, 2, false, false),
        def_spec(Mnemonic::Ora, AddrMode::Immediate, 0x09, 2, false, false),
        def_spec(Mnemonic::Ora, AddrMode::Absolute, 0x0d, 4, false, false),
        def_spec(Mnemonic::Ora, AddrMode::AbsoluteIndexedX, 0x1d, 4, true, false),
        def_spec(Mnemonic::Ora, AddrMode::AbsoluteIndexedY, 0x19, 4, true, false),
        def_spec(Mnemonic::Ora, AddrMode::ZeroPage, 0x05, 3, false, false),
        def_spec(Mnemonic::Ora, AddrMode::ZeroPageIndexedX, 0x15, 4, false, false),
        def_spec(Mnemonic::Ora, AddrMode::ZeroPageIndexedIndirect, 0x01, 6, false, false),
        def_spec(Mnemonic::Ora, AddrMode::ZeroPageIndirectIndexedY, 0x11, 5, true, false),
        def_spec(Mnemonic::Pha, AddrMode::Implied, 0x48, 3, false, false),
        def_spec(Mnemonic::Php, AddrMode::Implied, 0x08, 3, false, false),
        def_spec(Mnemonic::Pla, AddrMode::Implied, 0x68, 4, false, false),
        def_spec(Mnemonic::Plp, AddrMode::Implied, 0x28, 4, false, false),
    ]
}

/// Appends the LSR, NOP, ORA and stack push/pull lines.
fn push_lsr_ora_stack(v: &mut Vec<OpcodeDef>)
    ensures
        final(v)@ == old(v)@ + defs_lsr_ora_stack(),
{
    v.push(def(Mnemonic::Lsr, AddrMode::Accumulator, 0x4a, 2, false, false));
    v.push(def(Mnemonic::Lsr, AddrMode::Absolute, 0x4e, 6, false, false));
    v.push(def(Mnemonic::Lsr, AddrMode::AbsoluteIndexedX, 0x5e, 7, false, false));
    v.push(def(Mnemonic::Lsr, AddrMode::ZeroPage, 0x46, 5, false, false));
    v.push(def(Mnemonic::Lsr, AddrMode::ZeroPageIndexedX, 0x56, 6, false, false));
    v.push(def(Mnemonic::Nop, AddrMode::Implied, 0xea, 2, false, false));
    v.push(def(Mnemonic::Ora, AddrMode::Immediate, 0x09, 2, false, false));
    v.push(def(Mnemonic::Ora, AddrMode::Absolute, 0x0d, 4, false, false));
    v.push(def(Mnemonic::Ora, AddrMode::AbsoluteIndexedX, 0x1d, 4, true, false));
    v.push(def(Mnemonic::Ora, AddrMode::AbsoluteIndexedY, 0x19, 4, true, false));
    v.push(def(Mnemonic::Ora, AddrMode::ZeroPage, 0x05, 3, false, false));
    v.push(def(Mnemonic::Ora, AddrMode::ZeroPageIndexedX, 0x15, 4, false, false));
    v.push(def(Mnemonic::Ora, AddrMode::ZeroPageIndexedIndirect, 0x01, 6, false, false));
    v.push(def(Mnemonic::Ora, AddrMode::ZeroPageIndirectIndexedY, 0x11, 5, true, false));
    v.push(def(Mnemonic::Pha, AddrMode::Implied, 0x48, 3, false, false));
    v.push(def(Mnemonic::Php, AddrMode::Implied, 0x08, 3, false, false));
    v.push(def(Mnemonic::Pla, AddrMode::Implied, 0x68, 4, false, false));
    v.push(def(Mnemonic::Plp, AddrMode::Implied, 0x28, 4, false, false));
    proof {
        assert(v@ =~= old(v)@ + defs_lsr_ora_stack());
    }
}

/// The lines of [`opcode_defs_spec`] covering the rotate, return and SBC lines.
pub open spec fn defs_rot_ret_sbc() -> Seq<OpcodeDef> {
    seq![
        def_spec(Mnemonic::Rol, AddrMode::Accumulator, 0x2a, 2, false, false),
        def_spec(Mnemonic::Rol, AddrMode::Absolute, 0x2e, 6, false, false),
        def_spec(Mnemonic::Rol, AddrMode::AbsoluteIndexedX, 0x3e, 7, false, false),
        def_spec(Mnemonic::Rol, AddrMode::ZeroPage, 0x26, 5, false, false),
        def_spec(Mnemonic::Rol, AddrMode::ZeroPageIndexedX, 0x36, 6, false, false),
        def_spec(Mnemonic::Ror, AddrMode::Accumulator, 0x6a, 2, false, false),
        def_spec(Mnemonic::Ror, AddrMode::Absolute, 0x6e, 6, false, false),
        def_spec(Mnemonic::Ror, AddrMode::AbsoluteIndexedX, 0x7e, 7, false, false),
        def_spec(Mnemonic::Ror, AddrMode::ZeroPage, 0x66, 5, false, false),
        def_spec(Mnemonic::Ror, AddrMode::ZeroPageIndexedX, 0x76, 6, false, false),
        def_spec(Mnemonic::Rti, AddrMode::Implied, 0x40, 6, false, false),
        def_spec(Mnemonic::Rts, AddrMode::Implied, 0x60, 6, false, false),
        def_spec(Mnemonic::Sbc, AddrMode::Immediate, 0xe9, 2, false, false),
        def_spec(Mnemonic::Sbc, AddrMode::Absolute, 0xed, 4, false, false),
        def_spec(Mnemonic::Sbc, AddrMode::AbsoluteIndexedX, 0xfd, 4, true, false),
        def_spec(Mnemonic::Sbc, AddrMode::AbsoluteIndexedY, 0xf9, 4, true, false),
        def_spec(Mnemonic::Sbc, AddrMode::ZeroPage, 0xe5, 3, false, false),
        def_spec(Mnemonic::Sbc, AddrMode::ZeroPageIndexedX, 0xf5, 4, false, false),
        def_spec(Mnemonic::Sbc, AddrMode::ZeroPageIndexedIndirect, 0xe1, 6, false, false),
        def_spec(Mnemonic::Sbc, AddrMode::ZeroPageIndirectIndexedY, 0xf1, 5, true, false),
    ]
}

/// Appends the rotate, return and SBC lines.
fn push_rot_ret_sbc(v: &mut Vec<OpcodeDef>)
    ensures
        final(v)@ == old(v)@ + defs_rot_ret_sbc(),
{
    v.push(def(Mnemonic::Rol, AddrMode::Accumulator, 0x2a, 2, false, false));
    v.push(def(Mnemonic::Rol, AddrMode::Absolute, 0x2e, 6, false, false));
    v.push(def(Mnemonic::Rol, AddrMode::AbsoluteIndexedX, 0x3e, 7, false, false));
    v.push(def(Mnemonic::Rol, AddrMode::ZeroPage, 0x26, 5, false, false));
    v.push(def(Mnemonic::Rol, AddrMode::ZeroPageIndexedX, 0x36, 6, false, false));
    v.push(def(Mnemonic::Ror, AddrMode::Accumulator, 0x6a, 2, false, false));
    v.push(def(Mnemonic::Ror, AddrMode::Absolute, 0x6e, 6, false, false));
    v.push(def(Mnemonic::Ror, AddrMode::AbsoluteIndexedX, 0x7e, 7, false, false));
    v.push(def(Mnemonic::Ror, AddrMode::ZeroPage, 0x66, 5, false, false));
    v.push(def(Mnemonic::Ror, AddrMode::ZeroPageIndexedX, 0x76, 6, false, false));
    v.push(def(Mnemonic::Rti, AddrMode::Implied, 0x40, 6, false, false));
    v.push(def(Mnemonic::Rts, AddrMode::Implied, 0x60, 6, false, false));
    v.push(def(Mnemonic::Sbc, AddrMode::Immediate, 0xe9, 2, false, false));
    v.push(def(Mnemonic::Sbc, AddrMode::Absolute, 0xed, 4, false, false));
    v.push(def(Mnemonic::Sbc, AddrMode::AbsoluteIndexedX, 0xfd, 4, true, false));
    v.push(def(Mnemonic::Sbc, AddrMode::AbsoluteIndexedY, 0xf9, 4, true, false));
    v.push(def(Mnemonic::Sbc, AddrMode::ZeroPage, 0xe5, 3, false, false));
    v.push(def(Mnemonic::Sbc, AddrMode::ZeroPageIndexedX, 0xf5, 4, false, false));
    v.push(def(Mnemonic::Sbc, AddrMode::ZeroPageIndexedIndirect, 0xe1, 6, false, false));
    v.push(def(Mnemonic::Sbc, AddrMode::ZeroPageIndirectIndexedY, 0xf1, 5, true, false));
    proof {
        assert(v@ =~= old(v)@ + defs_rot_ret_sbc());
    }
}

/// The lines of [`opcode_defs_spec`] covering the flag-setting, store and transfer lines.
pub open spec fn defs_sets_stores_transfers() -> Seq<OpcodeDef> {
    seq![
        def_spec(Mnemonic::Sec, AddrMode::Implied, 0x38, 2, false, false),
        def_spec(Mnemonic::Sed, AddrMode::Implied, 0xf8, 2, false, false),
        def_spec(Mnemonic::Sei, AddrMode::Implied, 0x78, 2, false, false),
        def_spec(Mnemonic::Sta, AddrMode::Absolute, 0x8d, 4, false, false),
        def_spec(Mnemonic::Sta, AddrMode::AbsoluteIndexedX, 0x9d, 5, false, false),
        def_spec(Mnemonic::Sta, AddrMode::AbsoluteIndexedY, 0x99, 5, false, false),
        def_spec(Mnemonic::Sta, AddrMode::ZeroPage, 0x85, 3, false, false),
        def_spec(Mnemonic::Sta, AddrMode::ZeroPageIndexedX, 0x95, 4, false, false),
        def_spec(Mnemonic::Sta, AddrMode::ZeroPageIndexedIndirect, 0x81, 6, false, false),
        def_spec(Mnemonic::Sta, AddrMode::ZeroPageIndirectIndexedY, 0x91, 6, false, false),
        def_spec(Mnemonic::Stx, AddrMode::Absolute, 0x8e, 4, false, false),
        def_spec(Mnemonic::Stx, AddrMode::ZeroPage, 0x86, 3, false, false),
        def_spec(Mnemonic::Stx, AddrMode::ZeroPageIndexedY, 0x96, 4, false, false),
        def_spec(Mnemonic::Sty, AddrMode::Absolute, 0x8c, 4, false, false),
        def_spec(Mnemonic::Sty, AddrMode::ZeroPage, 0x84, 3, false, false),
        def_spec(Mnemonic::Sty, AddrMode::ZeroPageIndexedX, 0x94, 4, false, false),
        def_spec(Mnemonic::Tax, AddrMode::Implied, 0xaa, 2, false, false),
        def_spec(Mnemonic::Tay, AddrMode::Implied, 0xa8, 2, false, false),
        def_spec(Mnemonic::Tsx, AddrMode::Implied, 0xba, 2, false, false),
        def_spec(Mnemonic::Txa, AddrMode::Implied, 0x8a, 2, false, false),
        def_spec(Mnemonic::Txs, AddrMode::Implied, 0x9a, 2, false, false),
        def_spec(Mnemonic::Tya, AddrMode::Implied, 0x98, 2, false, false),
    ]
}

/// Appends the flag-setting, store and transfer lines.
fn push_sets_stores_transfers(v: &mut Vec<OpcodeDef>)
    ensures
        final(v)@ == old(v)@ + defs_sets_stores_transfers(),
{
    v.push(def(Mnemonic::Sec, AddrMode::Implied, 0x38, 2, false, false));
    v.push(def(Mnemonic::Sed, AddrMode::Implied, 0xf8, 2, false, false));
    v.push(def(Mnemonic::Sei, AddrMode::Implied, 0x78, 2, false, false));
    v.push(def(Mnemonic::Sta, AddrMode::Absolute, 0x8d, 4, false, false));
    v.push(def(Mnemonic::Sta, AddrMode::AbsoluteIndexedX, 0x9d, 5, false, false));
    v.push(def(Mnemonic::Sta, AddrMode::AbsoluteIndexedY, 0x99, 5, false, false));
    v.push(def(Mnemonic::Sta, AddrMode::ZeroPage, 0x85, 3, false, false));
    v.push(def(Mnemonic::Sta, AddrMode::ZeroPageIndexedX, 0x95, 4, false, false));
    v.push(def(Mnemonic::Sta, AddrMode::ZeroPageIndexedIndirect, 0x81, 6, false, false));
    v.push(def(Mnemonic::Sta, AddrMode::ZeroPageIndirectIndexedY, 0x91, 6, false, false));
    v.push(def(Mnemonic::Stx, AddrMode::Absolute, 0x8e, 4, false, false));
    v.push(def(Mnemonic::Stx, AddrMode::ZeroPage, 0x86, 3, false, false));
    v.push(def(Mnemonic::Stx, AddrMode::ZeroPageIndexedY, 0x96, 4, false, false));
    v.push(def(Mnemonic::Sty, AddrMode::Absolute, 0x8c, 4, false, false));
    v.push(def(Mnemonic::Sty, AddrMode::ZeroPage, 0x84, 3, false, false));
    v.push(def(Mnemonic::Sty, AddrMode::ZeroPageIndexedX, 0x94, 4, false, false));
    v.push(def(Mnemonic::Tax, AddrMode::Implied, 0xaa, 2, false, false));
    v.push(def(Mnemonic::Tay, AddrMode::Implied, 0xa8, 2, false, false));
    v.push(def(Mnemonic::Tsx, AddrMode::Implied, 0xba, 2, false, false));
    v.push(def(Mnemonic::Txa, AddrMode::Implied, 0x8a, 2, false, false));
    v.push(def(Mnemonic::Txs, AddrMode::Implied, 0x9a, 2, false, false));
    v.push(def(Mnemonic::Tya, AddrMode::Implied, 0x98, 2, false, false));
    proof {
        assert(v@ =~= old(v)@ + defs_sets_stores_transfers());
    }
}
/// The declarative specification of the documented 6502 instruction set,
/// as a mathematical sequence: for every instruction, each supported
/// addressing mode with its opcode byte, base cycle cost, and extra-cycle
/// conditions (`p` page-cross, `t` branch-taken).
pub open spec fn opcode_defs_spec() -> Seq<OpcodeDef> {
    defs_adc_and() + defs_asl_branches_brk() + defs_flags_compares() + defs_inc_dec_eor()
        + defs_jmp_loads() + defs_lsr_ora_stack() + defs_rot_ret_sbc()
        + defs_sets_stores_transfers()
}

/// The declarative specification of the documented 6502 instruction set:
/// exactly the lines of [`opcode_defs_spec`], ready to be handed to
/// [`build_table`].
pub fn opcode_defs() -> (r: Vec<OpcodeDef>)
    ensures
        r@ == opcode_defs_spec(),
{
    let mut v: Vec<OpcodeDef> = Vec::new();
    push_adc_and(&mut v);
    push_asl_branches_brk(&mut v);
    push_flags_compares(&mut v);
    push_inc_dec_eor(&mut v);
    push_jmp_loads(&mut v);
    push_lsr_ora_stack(&mut v);
    push_rot_ret_sbc(&mut v);
    push_sets_stores_transfers(&mut v);
    proof {
        assert(v@ =~= opcode_defs_spec());
    }
    v
}

} // verus!
