//! Register, flag and memory state of the emulated CPU.
//!
//! All register and address arithmetic wraps modulo 2^8 or 2^16; the stack
//! lives at `0x0100 + sp`. The mathematical model of a CPU is [`CpuView`],
//! reached through `@`; every mutation of [`Cpu6502`] is specified as a pure
//! transition on views.

use vstd::prelude::*;

verus! {

/// Address of the word holding the non-maskable-interrupt handler.
pub const NMI_VECTOR: u16 = 0xfffa;

/// Address of the word holding the reset entry point.
pub const RESET_VECTOR: u16 = 0xfffc;

/// Address of the word holding the interrupt-request / BRK handler.
pub const IRQ_VECTOR: u16 = 0xfffe;

/// Number of addressable memory bytes (the full 16-bit address space).
pub const MEM_SIZE: usize = 0x10000;

/// What the transient `operand` register of the CPU currently denotes:
/// nothing (implied mode), an immediate value, the accumulator, or an
/// effective memory address.
#[derive(Clone, Copy, PartialEq, Eq, Structural, Debug)]
pub enum OperandKind {
    Unused,
    Value,
    Accum,
    Address,
}

/// Mathematical model of the whole CPU: registers, flags, the 64 KiB of
/// memory as a sequence, and the transient resolved operand.
pub struct CpuView {
    pub a: u8,
    pub x: u8,
    pub y: u8,
    pub pc: u16,
    pub sp: u8,
    pub c: bool,
    pub z: bool,
    pub i: bool,
    pub d: bool,
    pub b: bool,
    pub v: bool,
    pub n: bool,
    pub mem: Seq<u8>,
    pub operand: u16,
    pub kind: OperandKind,
}

impl CpuView {
    /// The one structural invariant: memory covers the full address space.
    pub open spec fn wf(self) -> bool {
        self.mem.len() == MEM_SIZE
    }

    /// Byte at `addr`.
    pub open spec fn read_byte(self, addr: u16) -> u8 {
        self.mem[addr as int]
    }

    /// Little-endian word at `addr`; the high byte wraps around the top of
    /// the address space.
    pub open spec fn read_word(self, addr: u16) -> u16 {
        let lo = self.read_byte(addr);
        let hi = self.read_byte((((addr + 1) % 0x10000) as u16));
        ((hi as u16) << 8) | (lo as u16)
    }

    /// Memory with the byte at `addr` replaced.
    pub open spec fn write_byte(self, addr: u16, val: u8) -> CpuView {
        CpuView { mem: self.mem.update(addr as int, val), ..self }
    }

    /// The derived status byte, `N V 1 B D I Z C` from bit 7 down to bit 0;
    /// the unused bit 5 reads as 1.
    pub open spec fn status(self) -> u8 {
        (if self.n { 0x80u8 } else { 0u8 })
        | (if self.v { 0x40u8 } else { 0u8 })
        | 0x20u8
        | (if self.b { 0x10u8 } else { 0u8 })
        | (if self.d { 0x08u8 } else { 0u8 })
        | (if self.i { 0x04u8 } else { 0u8 })
        | (if self.z { 0x02u8 } else { 0u8 })
        | (if self.c { 0x01u8 } else { 0u8 })
    }

    /// Flags N and Z set from a result byte.
    pub open spec fn with_nz(self, val: u8) -> CpuView {
        CpuView { n: (val & 0x80) != 0, z: val == 0, ..self }
    }

    /// All seven flags set from a status byte (bit 5 is ignored).
    pub open spec fn with_status(self, p: u8) -> CpuView {
        CpuView {
            c: (p & 0x01) != 0,
            z: (p & 0x02) != 0,
            i: (p & 0x04) != 0,
            d: (p & 0x08) != 0,
            b: (p & 0x10) != 0,
            v: (p & 0x40) != 0,
            n: (p & 0x80) != 0,
            ..self
        }
    }

    /// The byte the current instruction operates on: memory at the resolved
    /// address, the accumulator itself, or the resolved immediate value
    /// (kept in the low byte of `operand`).
    pub open spec fn operand_value(self) -> u8 {
        match self.kind {
            OperandKind::Address => self.read_byte(self.operand),
            OperandKind::Accum => self.a,
            _ => (self.operand % 0x100) as u8,
        }
    }

    /// Writing back to the resolved operand location: the accumulator or a
    /// memory byte. With no writable location resolved, nothing changes.
    pub open spec fn write_operand(self, val: u8) -> CpuView {
        match self.kind {
            OperandKind::Accum => CpuView { a: val, ..self },
            OperandKind::Address => self.write_byte(self.operand, val),
            _ => self,
        }
    }

    /// The stack slot the next push writes: `0x0100 + sp`.
    pub open spec fn stack_addr(self) -> u16 {
        (0x100 + self.sp) as u16
    }

    /// One push: write `val` at `0x0100 + sp`, then decrement `sp` with
    /// 8-bit wraparound.
    pub open spec fn push_spec(self, val: u8) -> CpuView {
        let s1 = self.write_byte(self.stack_addr(), val);
        CpuView { sp: ((self.sp + 0xff) % 0x100) as u8, ..s1 }
    }

    /// One pull: increment `sp` with 8-bit wraparound, then read the byte at
    /// `0x0100 + sp`.
    pub open spec fn pull_spec(self) -> (CpuView, u8) {
        let nsp = ((self.sp + 1) % 0x100) as u8;
        (CpuView { sp: nsp, ..self }, self.read_byte((0x100 + nsp) as u16))
    }

    /// Fetch: byte at `pc`, with `pc` advanced by one (wrapping).
    pub open spec fn fetch_byte_spec(self) -> (CpuView, u8) {
        (CpuView { pc: ((self.pc + 1) % 0x10000) as u16, ..self }, self.read_byte(self.pc))
    }

    /// Fetch: little-endian word at `pc`, with `pc` advanced by two
    /// (wrapping).
    pub open spec fn fetch_word_spec(self) -> (CpuView, u16) {
        (CpuView { pc: ((self.pc + 2) % 0x10000) as u16, ..self }, self.read_word(self.pc))
    }

    /// Power-on register values with `pc` loaded from the reset vector;
    /// memory is untouched.
    pub open spec fn reset_spec(self) -> CpuView {
        CpuView {
            a: 0,
            x: 0,
            y: 0,
            pc: self.read_word(RESET_VECTOR),
            sp: 0,
            c: false,
            z: false,
            i: false,
            d: false,
            b: false,
            v: false,
            n: false,
            operand: 0,
            kind: OperandKind::Unused,
            mem: self.mem,
        }
    }
}

/// The emulated CPU: registers, flags, memory, and the transient operand
/// resolved by the current instruction's addressing mode.
pub struct Cpu6502 {
    pub a: u8,
    pub x: u8,
    pub y: u8,
    pub pc: u16,
    pub sp: u8,
    pub c: bool,
    pub z: bool,
    pub i: bool,
    pub d: bool,
    pub b: bool,
    pub v: bool,
    pub n: bool,
    pub mem: Vec<u8>,
    pub operand: u16,
    pub kind: OperandKind,
}

impl View for Cpu6502 {
    type V = CpuView;

    open spec fn view(&self) -> CpuView {
        CpuView {
            a: self.a,
            x: self.x,
            y: self.y,
            pc: self.pc,
            sp: self.sp,
            c: self.c,
            z: self.z,
            i: self.i,
            d: self.d,
            b: self.b,
            v: self.v,
            n: self.n,
            mem: self.mem@,
            operand: self.operand,
            kind: self.kind,
        }
    }
}

impl Default for Cpu6502 {
    /// A cold CPU: registers and flags zeroed, memory zero-filled, and `pc`
    /// holding the reset vector's own address (the placeholder; `reset`
    /// dereferences it).
    fn default() -> (r: Self)
        ensures
            r.wf(),
            r@ == (CpuView {
                a: 0,
                x: 0,
                y: 0,
                pc: RESET_VECTOR,
                sp: 0,
                c: false,
                z: false,
                i: false,
                d: false,
                b: false,
                v: false,
                n: false,
                mem: Seq::new(MEM_SIZE as nat, |j: int| 0u8),
                operand: 0,
                kind: OperandKind::Unused,
            }),
    {
        let mut mem: Vec<u8> = Vec::new();
        let mut k: usize = 0;
        while k < MEM_SIZE
            invariant
                k <= MEM_SIZE,
                mem@.len() == k,
                forall|j: int| 0 <= j < k ==> mem@[j] == 0u8,
            decreases MEM_SIZE - k,
        {
            mem.push(0u8);
            k = k + 1;
        }
        proof {
            assert(mem@ =~= Seq::new(MEM_SIZE as nat, |j: int| 0u8));
        }
        Cpu6502 {
            a: 0,
            x: 0,
            y: 0,
            pc: RESET_VECTOR,
            sp: 0,
            c: false,
            z: false,
            i: false,
            d: false,
            b: false,
            v: false,
            n: false,
            mem,
            operand: 0,
            kind: OperandKind::Unused,
        }
    }
}

impl Cpu6502 {
    /// Memory covers the full address space.
    pub open spec fn wf(&self) -> bool {
        self@.wf()
    }

    /// Byte read at an arbitrary address.
    pub fn read_byte(&self, addr: u16) -> (r: u8)
        requires
            self.wf(),
        ensures
            r == self@.read_byte(addr),
    {
        self.mem[addr as usize]
    }

    /// Little-endian word read at an arbitrary address; the high byte's
    /// address wraps modulo 2^16.
    pub fn read_word(&self, addr: u16) -> (r: u16)
        requires
            self.wf(),
        ensures
            r == self@.read_word(addr),
    {
        let lo = self.read_byte(addr);
        let hi = self.read_byte((((addr as u32) + 1) % 0x10000) as u16);
        ((hi as u16) << 8) | (lo as u16)
    }

    /// Byte write at an arbitrary address.
    pub fn write_byte(&mut self, addr: u16, val: u8)
        requires
            old(self).wf(),
        ensures
            final(self)@ == old(self)@.write_byte(addr, val),
            final(self).wf(),
    {
        self.mem.set(addr as usize, val);
    }

    /// Little-endian word write at an arbitrary address; the high byte's
    /// address wraps modulo 2^16.
    pub fn write_word(&mut self, addr: u16, val: u16)
        requires
            old(self).wf(),
        ensures
            final(self)@ == old(self)@
                .write_byte(addr, (val % 0x100) as u8)
                .write_byte((((addr + 1) % 0x10000) as u16), (val >> 8) as u8),
            final(self).wf(),
    {
        self.write_byte(addr, (val % 0x100) as u8);
        self.write_byte((((addr as u32) + 1) % 0x10000) as u16, (val >> 8) as u8);
    }

    /// Bulk load of a program image: `bytes[k]` is placed at `addr + k`.
    /// The image must fit below the top of the address space.
    pub fn load(&mut self, addr: u16, bytes: &Vec<u8>)
        requires
            old(self).wf(),
            addr + bytes@.len() <= MEM_SIZE,
        ensures
            final(self).wf(),
            final(self)@ == (CpuView { mem: final(self)@.mem, ..old(self)@ }),
            forall|k: int| 0 <= k < bytes@.len() ==> final(self)@.mem[addr + k] == bytes@[k],
            forall|j: int|
                0 <= j < MEM_SIZE && !(addr <= j < addr + bytes@.len()) ==> final(self)@.mem[j]
                    == old(self)@.mem[j],
    {
        let mut k: usize = 0;
        while k < bytes.len()
            invariant
                old(self).wf(),
                self.wf(),
                k <= bytes@.len(),
                addr + bytes@.len() <= MEM_SIZE,
                self@ == (CpuView { mem: self@.mem, ..old(self)@ }),
                forall|t: int| 0 <= t < k ==> self@.mem[addr + t] == bytes@[t],
                forall|j: int|
                    0 <= j < MEM_SIZE && !(addr <= j < addr + k) ==> self@.mem[j] == old(
                        self,
                    )@.mem[j],
            decreases bytes@.len() - k,
        {
            let dst = ((addr as usize) + k) as u16;
            self.write_byte(dst, bytes[k]);
            k = k + 1;
        }
    }

    /// Fetch the byte at `pc` and advance `pc` by one (wrapping).
    pub fn fetch_byte(&mut self) -> (r: u8)
        requires
            old(self).wf(),
        ensures
            (final(self)@, r) == old(self)@.fetch_byte_spec(),
            final(self).wf(),
    {
        let val = self.read_byte(self.pc);
        self.pc = (((self.pc as u32) + 1) % 0x10000) as u16;
        val
    }

    /// Fetch the little-endian word at `pc` and advance `pc` by two
    /// (wrapping).
    pub fn fetch_word(&mut self) -> (r: u16)
        requires
            old(self).wf(),
        ensures
            (final(self)@, r) == old(self)@.fetch_word_spec(),
            final(self).wf(),
    {
        let val = self.read_word(self.pc);
        self.pc = (((self.pc as u32) + 2) % 0x10000) as u16;
        val
    }

    /// The derived status byte, `N V 1 B D I Z C`; never stored, always
    /// recomputed from the seven flags.
    pub fn status(&self) -> (r: u8)
        ensures
            r == self@.status(),
    {
        (if self.n { 0x80u8 } else { 0u8 })
        | (if self.v { 0x40u8 } else { 0u8 })
        | 0x20u8
        | (if self.b { 0x10u8 } else { 0u8 })
        | (if self.d { 0x08u8 } else { 0u8 })
        | (if self.i { 0x04u8 } else { 0u8 })
        | (if self.z { 0x02u8 } else { 0u8 })
        | (if self.c { 0x01u8 } else { 0u8 })
    }

    /// N and Z refreshed from the accumulator.
    pub fn update_n_and_z(&mut self)
        ensures
            final(self)@ == old(self)@.with_nz(old(self)@.a),
    {
        self.n = (self.a & 0x80) != 0;
        self.z = self.a == 0;
    }

    /// The byte the current instruction operates on (see
    /// [`CpuView::operand_value`]).
    pub fn operand_value(&self) -> (r: u8)
        requires
            self.wf(),
        ensures
            r == self@.operand_value(),
    {
        match self.kind {
            OperandKind::Address => self.read_byte(self.operand),
            OperandKind::Accum => self.a,
            _ => (self.operand % 0x100) as u8,
        }
    }

    /// Write back to the resolved operand location (see
    /// [`CpuView::write_operand`]).
    pub fn write_operand(&mut self, val: u8)
        requires
            old(self).wf(),
        ensures
            final(self)@ == old(self)@.write_operand(val),
            final(self).wf(),
    {
        match self.kind {
            OperandKind::Accum => {
                self.a = val;
            },
            OperandKind::Address => {
                self.write_byte(self.operand, val);
            },
            _ => {},
        }
    }

    /// Push a byte onto the stack: write at `0x0100 + sp`, then decrement
    /// `sp` (wrapping).
    pub fn push(&mut self, val: u8)
        requires
            old(self).wf(),
        ensures
            final(self)@ == old(self)@.push_spec(val),
            final(self).wf(),
    {
        let addr = 0x100u16 + (self.sp as u16);
        self.write_byte(addr, val);
        self.sp = (((self.sp as u16) + 0xff) % 0x100) as u8;
    }

    /// Pull a byte from the stack: increment `sp` (wrapping), then read at
    /// `0x0100 + sp`.
    pub fn pull(&mut self) -> (r: u8)
        requires
            old(self).wf(),
        ensures
            (final(self)@, r) == old(self)@.pull_spec(),
            final(self).wf(),
    {
        self.sp = (((self.sp as u16) + 1) % 0x100) as u8;
        self.read_byte(0x100u16 + (self.sp as u16))
    }

    /// Reset: registers and flags return to power-on values and `pc` is
    /// loaded from the word at the reset vector. Memory is untouched.
    pub fn reset(&mut self)
        requires
            old(self).wf(),
        ensures
            final(self)@ == old(self)@.reset_spec(),
            final(self).wf(),
    {
        self.pc = self.read_word(RESET_VECTOR);
        self.a = 0;
        self.x = 0;
        self.y = 0;
        self.sp = 0;
        self.c = false;
        self.z = false;
        self.i = false;
        self.d = false;
        self.b = false;
        self.v = false;
        self.n = false;
        self.operand = 0;
        self.kind = OperandKind::Unused;
    }
}

} // verus!
