//! Laws the emulator core obeys, proved once and for all over the spec
//! transitions that the executable methods are verified to implement.

use vstd::prelude::*;
use vstd::arithmetic::div_mod::{
    lemma_add_mod_noop_right,
    lemma_mod_add_multiples_vanish,
    lemma_small_mod,
};
use crate::state::CpuView;
use crate::table::{defs_unique, table_matches, Entry, Mnemonic, OpcodeDef, AddrMode};
use crate::driver::{execute_spec, step_spec};

verus! {

/// INC then DEC (or DEC then INC) restores the operand location's 8-bit
/// value, for every starting value: the wraparound round-trips. Flags are
/// not required to round-trip, only the value.
pub proof fn lemma_inc_dec_restores_operand(s: CpuView)
    requires
        s.wf(),
    ensures
        execute_spec(execute_spec(s, Mnemonic::Inc).0, Mnemonic::Dec).0.operand_value()
            == s.operand_value(),
        execute_spec(execute_spec(s, Mnemonic::Dec).0, Mnemonic::Inc).0.operand_value()
            == s.operand_value(),
{
    let v = s.operand_value();
    assert((((v + 1) % 0x100) + 0xff) % 0x100 == v) by {
        lemma_add_mod_noop_right(0xff, v + 1, 0x100);
        lemma_mod_add_multiples_vanish(v as int, 0x100);
        lemma_small_mod(v as nat, 0x100);
    }
    assert((((v + 0xff) % 0x100) + 1) % 0x100 == v) by {
        lemma_add_mod_noop_right(1, v + 0xff, 0x100);
        lemma_mod_add_multiples_vanish(v as int, 0x100);
        lemma_small_mod(v as nat, 0x100);
    }
}

/// INX then DEX (or DEX then INX) restores the X register, for every
/// starting value; likewise INY/DEY for Y.
pub proof fn lemma_inx_dex_restores_register(s: CpuView)
    ensures
        execute_spec(execute_spec(s, Mnemonic::Inx).0, Mnemonic::Dex).0.x == s.x,
        execute_spec(execute_spec(s, Mnemonic::Dex).0, Mnemonic::Inx).0.x == s.x,
        execute_spec(execute_spec(s, Mnemonic::Iny).0, Mnemonic::Dey).0.y == s.y,
        execute_spec(execute_spec(s, Mnemonic::Dey).0, Mnemonic::Iny).0.y == s.y,
{
    let vx = s.x;
    let vy = s.y;
    assert((((vx + 1) % 0x100) + 0xff) % 0x100 == vx && (((vx + 0xff) % 0x100) + 1) % 0x100
        == vx) by {
        lemma_add_mod_noop_right(0xff, vx + 1, 0x100);
        lemma_add_mod_noop_right(1, vx + 0xff, 0x100);
        lemma_mod_add_multiples_vanish(vx as int, 0x100);
        lemma_small_mod(vx as nat, 0x100);
    }
    assert((((vy + 1) % 0x100) + 0xff) % 0x100 == vy && (((vy + 0xff) % 0x100) + 1) % 0x100
        == vy) by {
        lemma_add_mod_noop_right(0xff, vy + 1, 0x100);
        lemma_add_mod_noop_right(1, vy + 0xff, 0x100);
        lemma_mod_add_multiples_vanish(vy as int, 0x100);
        lemma_small_mod(vy as nat, 0x100);
    }
}

/// Every opcode byte has exactly one definition in a well-built table:
/// either the explicit illegal sentinel, claimed by no line of the
/// declarative specification, or the instruction of exactly one line —
/// never both, never neither.
pub proof fn lemma_table_exactly_one(s: Seq<OpcodeDef>, t: Seq<Entry>, op: u8)
    requires
        table_matches(s, t),
        defs_unique(s),
    ensures
        t[op as int] is Illegal ==> forall|i: int| 0 <= i < s.len() ==> s[i].opcode != op,
        t[op as int] matches Entry::Op(d) ==> exists|i: int|
            0 <= i < s.len() && s[i] == d && d.opcode == op,
        forall|i: int, j: int|
            0 <= i < s.len() && 0 <= j < s.len() && s[i].opcode == op && s[j].opcode == op
                ==> i == j,
{
    match t[op as int] {
        Entry::Op(d) => {
            assert(!(t[op as int] is Illegal));
            let w = choose|i: int|
                0 <= i < s.len() && (#[trigger] s[i].opcode) as int == op as int;
            assert(0 <= w < s.len() && s[w].opcode == op);
            assert(t[s[w].opcode as int] == Entry::Op(s[w]));
            assert(s[w] == d && d.opcode == op);
        },
        Entry::Illegal => {},
    }
    assert forall|i: int, j: int|
        0 <= i < s.len() && 0 <= j < s.len() && s[i].opcode == op && s[j].opcode == op
        implies i == j by {
        if i < j {
            assert(s[i].opcode != s[j].opcode);
        } else if j < i {
            assert(s[j].opcode != s[i].opcode);
        }
    }
}

/// Branch cycle accounting: a taken BEQ whose target sits on the page of
/// the next instruction costs base + 1 cycles; a taken BEQ to another page
/// costs base + 2.
pub proof fn lemma_beq_cycle_accounting(s: CpuView, t: Seq<Entry>)
    requires
        s.wf(),
        s.z,
        t.len() == 256,
        s.read_byte(s.pc) == 0xf0,
        t[0xf0] == (Entry::Op(OpcodeDef {
            mnemonic: Mnemonic::Beq,
            mode: AddrMode::ProgramCounterRelative,
            opcode: 0xf0,
            cycles: 2,
            page_extra: true,
            branch_extra: true,
        })),
    ensures
        ({
            let (s1, op) = s.fetch_byte_spec();
            let (s2, pcross) = s1.rel_spec();
            &&& step_spec(s, t).0 == (CpuView { pc: s2.operand, ..s2 })
            &&& step_spec(s, t).1 == Result::<u32, u8>::Ok(
                if (s2.operand >> 8) == (s2.pc >> 8) {
                    3u32
                } else {
                    4u32
                },
            )
        }),
{
}

/// The state reached after `n` consecutive PHA instructions.
pub open spec fn pha_n(s: CpuView, n: nat) -> CpuView
    decreases n,
{
    if n == 0 {
        s
    } else {
        execute_spec(pha_n(s, (n - 1) as nat), Mnemonic::Pha).0
    }
}

/// After `n` pushes the stack pointer has moved down by `n` modulo 256,
/// while the accumulator and the amount of memory are untouched.
pub proof fn lemma_pha_n_sp(s: CpuView, n: nat)
    requires
        s.wf(),
    ensures
        (pha_n(s, n).sp + n) % 0x100 == s.sp as int % 0x100,
        pha_n(s, n).a == s.a,
        pha_n(s, n).wf(),
    decreases n,
{
    if n > 0 {
        lemma_pha_n_sp(s, (n - 1) as nat);
        let p = pha_n(s, (n - 1) as nat).sp;
        let q = pha_n(s, n).sp;
        assert(q == (p + 0xff) % 0x100);
        assert((q + n) % 0x100 == (p + 0xff + n) % 0x100) by {
            lemma_add_mod_noop_right(n as int, p + 0xff, 0x100);
            lemma_add_mod_noop_right(n as int, q as int, 0x100);
            lemma_small_mod(q as nat, 0x100);
        }
        assert((p + 0xff + n) % 0x100 == (p + (n - 1)) % 0x100) by {
            lemma_mod_add_multiples_vanish(p + n - 1, 0x100);
        }
    } else {
        lemma_small_mod(s.sp as nat, 0x100);
    }
}

/// Stack wraparound: 256 pushes in sequence bring the stack pointer back
/// to its starting value, so the 257th push writes the very memory slot
/// the first push wrote — overwriting the first pushed byte.
#[verifier::rlimit(60)]
pub proof fn lemma_stack_full_wrap(s: CpuView)
    requires
        s.wf(),
    ensures
        pha_n(s, 256).sp == s.sp,
        pha_n(s, 256).stack_addr() == s.stack_addr(),
        pha_n(s, 257).mem[s.stack_addr() as int] == s.a,
        pha_n(s, 1).mem[s.stack_addr() as int] == s.a,
{
    lemma_pha_n_sp(s, 256);
    let w = pha_n(s, 256);
    let q = w.sp;
    assert((q + 256) % 0x100 == q as int % 0x100) by {
        lemma_mod_add_multiples_vanish(q as int, 0x100);
    }
    assert(q as int % 0x100 == q && s.sp as int % 0x100 == s.sp) by {
        lemma_small_mod(q as nat, 0x100);
        lemma_small_mod(s.sp as nat, 0x100);
    }
    assert(q == s.sp);
    assert(pha_n(s, 257) == execute_spec(w, Mnemonic::Pha).0);
    assert(execute_spec(w, Mnemonic::Pha).0.mem == w.mem.update(w.stack_addr() as int, w.a));
    assert(w.mem.update(w.stack_addr() as int, w.a)[s.stack_addr() as int] == s.a);
    assert(pha_n(s, 0) == s);
    assert(pha_n(s, 1) == execute_spec(s, Mnemonic::Pha).0);
    assert(execute_spec(s, Mnemonic::Pha).0.mem == s.mem.update(s.stack_addr() as int, s.a));
}

} // verus!
