//! The Intel-8080-compatible processor core.
//!
//! The processor holds seven 8-bit general registers (A, B, C, D, E, H, L),
//! a 16-bit stack pointer and program counter, the five condition flags
//! (zero, sign, parity, carry, auxiliary carry), and a run state.  One
//! `step` fetches, decodes and executes exactly one instruction over the
//! bus.  The meaning of every supported instruction is written once, as
//! the specification interpreter [`spec_exec_instr`]; `step` is proved to
//! agree with it exactly.
//!
//! Flag conventions, stated once and used consistently on both sides:
//! - addition: carry is the carry out of bit 7, auxiliary carry the carry
//!   out of bit 3;
//! - subtraction and compare: carry is set on a borrow, auxiliary carry is
//!   set when the low nibble needed no borrow;
//! - logical AND sets auxiliary carry to bit 3 of the OR of the operands;
//!   XOR and OR clear it; all three clear carry;
//! - rotates touch only the carry flag; increment and decrement touch
//!   every flag but carry.

use vstd::prelude::*;
use crate::bus::{Bus, BusView, spec_read, spec_write, spec_port_in, spec_port_out};
use crate::EmuError;

verus! {

/// The processor's run state.  Instructions execute only while `Running`.
#[derive(Clone, Copy, PartialEq, Eq, Structural, Debug)]
pub enum RunState {
    /// The tick loop executes instructions.
    Running,
    /// A halt instruction or an illegal opcode was reached; ticks are
    /// no-ops until a restart.
    Halted,
    /// The driver paused the machine; ticks are no-ops until a restart.
    Stopped,
}

/// The five condition flags.
#[derive(Clone, Copy, PartialEq, Eq, Structural, Debug)]
pub struct Flags {
    /// Set when a result is zero.
    pub z: bool,
    /// Set when bit 7 of a result is one.
    pub s: bool,
    /// Set when a result has an even number of one bits.
    pub p: bool,
    /// Carry out (addition) or borrow (subtraction).
    pub cy: bool,
    /// Auxiliary carry, out of bit 3.
    pub ac: bool,
}

/// The processor state.  All fields are plain values, so contracts speak
/// of a `Cpu` directly.
#[derive(Clone, Copy, PartialEq, Eq, Structural, Debug)]
pub struct Cpu {
    pub a: u8,
    pub b: u8,
    pub c: u8,
    pub d: u8,
    pub e: u8,
    pub h: u8,
    pub l: u8,
    pub sp: u16,
    pub pc: u16,
    pub flags: Flags,
    /// The master interrupt-enable latch, set and cleared by the enable
    /// and disable instructions.  The board model wires no interrupt
    /// source, so nothing is serviced; the latch only records what the
    /// program asked.
    pub inte: bool,
    pub run: RunState,
}

/// Processor and bus together: the whole machine, as contracts speak
/// of it.
#[verifier::ext_equal]
pub struct MachV {
    pub cpu: Cpu,
    pub bus: BusView,
}

/// Pack a processor and a bus view into one machine view.
pub open spec fn mach(cpu: Cpu, bus: BusView) -> MachV {
    MachV { cpu, bus }
}

// ---------------------------------------------------------------------
// 16-bit and 8-bit arithmetic helpers
// ---------------------------------------------------------------------

/// A 16-bit value from a low and a high byte.
pub open spec fn spec_w16(lo: u8, hi: u8) -> u16 {
    (hi as u16 * 256 + lo as u16) as u16
}

/// The low byte of a 16-bit value.
pub open spec fn spec_lo(x: u16) -> u8 {
    (x % 256) as u8
}

/// The high byte of a 16-bit value.
pub open spec fn spec_hi(x: u16) -> u8 {
    (x / 256) as u8
}

/// 16-bit increment with wrap-around, matching the processor's address
/// arithmetic.
pub open spec fn spec_inc16(x: u16) -> u16 {
    if x == 0xFFFF {
        0
    } else {
        (x + 1) as u16
    }
}

/// 16-bit decrement with wrap-around.
pub open spec fn spec_dec16(x: u16) -> u16 {
    if x == 0 {
        0xFFFF
    } else {
        (x - 1) as u16
    }
}

/// 8-bit increment with wrap-around.
pub open spec fn spec_inc8(x: u8) -> u8 {
    if x == 0xFF {
        0
    } else {
        (x + 1) as u8
    }
}

/// 8-bit decrement with wrap-around.
pub open spec fn spec_dec8(x: u8) -> u8 {
    if x == 0 {
        0xFF
    } else {
        (x - 1) as u8
    }
}

/// 16-bit addition: the wrapped sum and the carry out of bit 15.
pub open spec fn spec_add16(x: u16, y: u16) -> (u16, bool) {
    (((x + y) % 65536) as u16, x + y >= 65536)
}

/// Even parity of a byte: the number of one bits is even.
pub open spec fn spec_parity(v: u8) -> bool {
    (v % 2 + (v / 2) % 2 + (v / 4) % 2 + (v / 8) % 2 + (v / 16) % 2 + (v / 32) % 2 + (v / 64) % 2
        + (v / 128) % 2) % 2 == 0
}

/// The zero, sign and parity flags of a result, with carry and auxiliary
/// carry supplied by the operation.
pub open spec fn spec_szp(r: u8, cy: bool, ac: bool) -> Flags {
    Flags { z: r == 0, s: r >= 128, p: spec_parity(r), cy, ac }
}

/// 8-bit addition with carry in: the result and its flags.
pub open spec fn spec_addf(a: u8, v: u8, cin: bool) -> (u8, Flags) {
    let ci = if cin {
        1int
    } else {
        0int
    };
    let s = a + v + ci;
    let r = (s % 256) as u8;
    (r, spec_szp(r, s >= 256, a % 16 + v % 16 + ci >= 16))
}

/// 8-bit subtraction with borrow in: the result and its flags.  Carry is
/// the borrow; auxiliary carry is set when the low nibble needed no
/// borrow.
pub open spec fn spec_subf(a: u8, v: u8, bin: bool) -> (u8, Flags) {
    let bi = if bin {
        1int
    } else {
        0int
    };
    let d = a - v - bi;
    let r = ((d + 256) % 256) as u8;
    (r, spec_szp(r, d < 0, a % 16 - (v % 16) - bi >= 0))
}

/// One of the eight accumulator operations, selected as the instruction
/// set encodes them: add, add-with-carry, subtract, subtract-with-borrow,
/// AND, XOR, OR, compare.  Yields the result byte and the flags; for
/// compare, the caller discards the result byte.
pub open spec fn spec_alu(idx: u8, a: u8, v: u8, cy: bool) -> (u8, Flags) {
    if idx == 0 {
        spec_addf(a, v, false)
    } else if idx == 1 {
        spec_addf(a, v, cy)
    } else if idx == 2 {
        spec_subf(a, v, false)
    } else if idx == 3 {
        spec_subf(a, v, cy)
    } else if idx == 4 {
        let r = (a & v) as u8;
        (r, spec_szp(r, false, ((a | v) / 8) % 2 == 1))
    } else if idx == 5 {
        let r = (a ^ v) as u8;
        (r, spec_szp(r, false, false))
    } else if idx == 6 {
        let r = (a | v) as u8;
        (r, spec_szp(r, false, false))
    } else {
        spec_subf(a, v, false)
    }
}

/// The flags packed as the processor stacks them: sign at bit 7, zero at
/// bit 6, auxiliary carry at bit 4, parity at bit 2, a constant one at
/// bit 1, carry at bit 0.
pub open spec fn spec_flags_byte(f: Flags) -> u8 {
    ((if f.s {
        128int
    } else {
        0int
    }) + (if f.z {
        64int
    } else {
        0int
    }) + (if f.ac {
        16int
    } else {
        0int
    }) + (if f.p {
        4int
    } else {
        0int
    }) + 2 + (if f.cy {
        1int
    } else {
        0int
    })) as u8
}

/// The flags unpacked from a stacked byte.
pub open spec fn spec_flags_from_byte(x: u8) -> Flags {
    Flags {
        z: (x / 64) % 2 == 1,
        s: (x / 128) % 2 == 1,
        p: (x / 4) % 2 == 1,
        cy: x % 2 == 1,
        ac: (x / 16) % 2 == 1,
    }
}

// ---------------------------------------------------------------------
// Executable arithmetic helpers
// ---------------------------------------------------------------------

/// 16-bit increment with wrap-around.
pub fn winc(x: u16) -> (r: u16)
    ensures
        r == spec_inc16(x),
{
    if x == 0xFFFF {
        0
    } else {
        x + 1
    }
}

/// 16-bit decrement with wrap-around.
pub fn wdec(x: u16) -> (r: u16)
    ensures
        r == spec_dec16(x),
{
    if x == 0 {
        0xFFFF
    } else {
        x - 1
    }
}

/// Even parity of a byte.
pub fn parity8(v: u8) -> (r: bool)
    ensures
        r == spec_parity(v),
{
    let count: u8 = v % 2 + (v / 2) % 2 + (v / 4) % 2 + (v / 8) % 2 + (v / 16) % 2 + (v / 32) % 2
        + (v / 64) % 2 + (v / 128) % 2;
    count % 2 == 0
}

/// Zero, sign and parity of `r`, with the supplied carry and auxiliary
/// carry.
pub fn flags_szp(r: u8, cy: bool, ac: bool) -> (f: Flags)
    ensures
        f == spec_szp(r, cy, ac),
{
    Flags { z: r == 0, s: r >= 128, p: parity8(r), cy, ac }
}

/// 8-bit addition with carry in.
pub fn addf(a: u8, v: u8, cin: bool) -> (rf: (u8, Flags))
    ensures
        rf == spec_addf(a, v, cin),
{
    let ci: u16 = if cin {
        1
    } else {
        0
    };
    let s: u16 = a as u16 + v as u16 + ci;
    let r: u8 = (s % 256) as u8;
    let ac: bool = a % 16 + v % 16 + (ci as u8) >= 16;
    (r, flags_szp(r, s >= 256, ac))
}

/// 8-bit subtraction with borrow in.
pub fn subf(a: u8, v: u8, bin: bool) -> (rf: (u8, Flags))
    ensures
        rf == spec_subf(a, v, bin),
{
    let bi: u16 = if bin {
        1
    } else {
        0
    };
    let d: u16 = 256 + a as u16 - (v as u16) - bi;
    let r: u8 = (d % 256) as u8;
    let ac: bool = a % 16 >= v % 16 + (bi as u8);
    (r, flags_szp(r, (a as u16) < v as u16 + bi, ac))
}

/// One accumulator operation, by its instruction-set index.
pub fn alu_exec(idx: u8, a: u8, v: u8, cy: bool) -> (rf: (u8, Flags))
    requires
        idx < 8,
    ensures
        rf == spec_alu(idx, a, v, cy),
{
    if idx == 0 {
        addf(a, v, false)
    } else if idx == 1 {
        addf(a, v, cy)
    } else if idx == 2 {
        subf(a, v, false)
    } else if idx == 3 {
        subf(a, v, cy)
    } else if idx == 4 {
        let r = a & v;
        let ac = ((a | v) / 8) % 2 == 1;
        (r, flags_szp(r, false, ac))
    } else if idx == 5 {
        let r = a ^ v;
        (r, flags_szp(r, false, false))
    } else if idx == 6 {
        let r = a | v;
        (r, flags_szp(r, false, false))
    } else {
        subf(a, v, false)
    }
}

/// The flags packed as the processor stacks them.
pub fn flags_byte(f: Flags) -> (x: u8)
    ensures
        x == spec_flags_byte(f),
{
    let mut x: u8 = 2;
    if f.s {
        x = x + 128;
    }
    if f.z {
        x = x + 64;
    }
    if f.ac {
        x = x + 16;
    }
    if f.p {
        x = x + 4;
    }
    if f.cy {
        x = x + 1;
    }
    x
}

/// The flags unpacked from a stacked byte.
pub fn flags_from_byte(x: u8) -> (f: Flags)
    ensures
        f == spec_flags_from_byte(x),
{
    Flags {
        z: (x / 64) % 2 == 1,
        s: (x / 128) % 2 == 1,
        p: (x / 4) % 2 == 1,
        cy: x % 2 == 1,
        ac: (x / 16) % 2 == 1,
    }
}

// ---------------------------------------------------------------------
// Registers, register pairs, and the stack
// ---------------------------------------------------------------------

/// The B-C register pair as a 16-bit value.
pub open spec fn spec_bc(c: Cpu) -> u16 {
    spec_w16(c.c, c.b)
}

/// The D-E register pair as a 16-bit value.
pub open spec fn spec_de(c: Cpu) -> u16 {
    spec_w16(c.e, c.d)
}

/// The H-L register pair as a 16-bit value; it also addresses memory
/// operands.
pub open spec fn spec_hl(c: Cpu) -> u16 {
    spec_w16(c.l, c.h)
}

/// An 8-bit operand by its instruction-set index: B, C, D, E, H, L, the
/// memory byte addressed by H-L, A.
pub open spec fn spec_get_reg(m: MachV, i: u8) -> u8 {
    if i == 0 {
        m.cpu.b
    } else if i == 1 {
        m.cpu.c
    } else if i == 2 {
        m.cpu.d
    } else if i == 3 {
        m.cpu.e
    } else if i == 4 {
        m.cpu.h
    } else if i == 5 {
        m.cpu.l
    } else if i == 6 {
        spec_read(m.bus, spec_hl(m.cpu))
    } else {
        m.cpu.a
    }
}

/// The machine after storing `v` in the operand with index `i`; index 6
/// writes the bus at the address in H-L.
pub open spec fn spec_set_reg(m: MachV, i: u8, v: u8) -> MachV {
    if i == 0 {
        MachV { cpu: Cpu { b: v, ..m.cpu }, ..m }
    } else if i == 1 {
        MachV { cpu: Cpu { c: v, ..m.cpu }, ..m }
    } else if i == 2 {
        MachV { cpu: Cpu { d: v, ..m.cpu }, ..m }
    } else if i == 3 {
        MachV { cpu: Cpu { e: v, ..m.cpu }, ..m }
    } else if i == 4 {
        MachV { cpu: Cpu { h: v, ..m.cpu }, ..m }
    } else if i == 5 {
        MachV { cpu: Cpu { l: v, ..m.cpu }, ..m }
    } else if i == 6 {
        MachV { bus: spec_write(m.bus, spec_hl(m.cpu), v), ..m }
    } else {
        MachV { cpu: Cpu { a: v, ..m.cpu }, ..m }
    }
}

/// A 16-bit register pair by its instruction-set index: B-C, D-E, H-L,
/// the stack pointer.
pub open spec fn spec_get_rp(c: Cpu, rp: u8) -> u16 {
    if rp == 0 {
        spec_bc(c)
    } else if rp == 1 {
        spec_de(c)
    } else if rp == 2 {
        spec_hl(c)
    } else {
        c.sp
    }
}

/// The processor after storing `v` in the register pair with index `rp`.
pub open spec fn spec_set_rp(c: Cpu, rp: u8, v: u16) -> Cpu {
    if rp == 0 {
        Cpu { b: spec_hi(v), c: spec_lo(v), ..c }
    } else if rp == 1 {
        Cpu { d: spec_hi(v), e: spec_lo(v), ..c }
    } else if rp == 2 {
        Cpu { h: spec_hi(v), l: spec_lo(v), ..c }
    } else {
        Cpu { sp: v, ..c }
    }
}

/// The 16-bit little-endian value at `addr` and the following address.
pub open spec fn spec_read16(b: BusView, addr: u16) -> u16 {
    spec_w16(spec_read(b, addr), spec_read(b, spec_inc16(addr)))
}

/// The bus after a 16-bit little-endian processor write at `addr`.
pub open spec fn spec_write16(b: BusView, addr: u16, v: u16) -> BusView {
    spec_write(spec_write(b, addr, spec_lo(v)), spec_inc16(addr), spec_hi(v))
}

/// The machine after pushing `v`: the stack pointer drops by two and the
/// two bytes are stored, high byte first, below the old stack top.
pub open spec fn spec_push16(m: MachV, v: u16) -> MachV {
    let sp1 = spec_dec16(m.cpu.sp);
    let sp2 = spec_dec16(sp1);
    MachV {
        cpu: Cpu { sp: sp2, ..m.cpu },
        bus: spec_write(spec_write(m.bus, sp1, spec_hi(v)), sp2, spec_lo(v)),
    }
}

/// The value popped from the stack top, and the machine after the pop:
/// the stack pointer rises by two.
pub open spec fn spec_pop16(m: MachV) -> (MachV, u16) {
    let v = spec_read16(m.bus, m.cpu.sp);
    (MachV { cpu: Cpu { sp: spec_inc16(spec_inc16(m.cpu.sp)), ..m.cpu }, ..m }, v)
}

/// One of the eight branch conditions, by its instruction-set index:
/// not-zero, zero, no-carry, carry, parity-odd, parity-even, plus, minus.
pub open spec fn spec_cond(cc: u8, f: Flags) -> bool {
    if cc == 0 {
        !f.z
    } else if cc == 1 {
        f.z
    } else if cc == 2 {
        !f.cy
    } else if cc == 3 {
        f.cy
    } else if cc == 4 {
        !f.p
    } else if cc == 5 {
        f.p
    } else if cc == 6 {
        !f.s
    } else {
        f.s
    }
}

/// One branch condition, by its instruction-set index.
pub fn cond_exec(cc: u8, f: &Flags) -> (r: bool)
    requires
        cc < 8,
    ensures
        r == spec_cond(cc, *f),
{
    if cc == 0 {
        !f.z
    } else if cc == 1 {
        f.z
    } else if cc == 2 {
        !f.cy
    } else if cc == 3 {
        f.cy
    } else if cc == 4 {
        !f.p
    } else if cc == 5 {
        f.p
    } else if cc == 6 {
        !f.s
    } else {
        f.s
    }
}

impl Cpu {
    /// The H-L pair as an address.
    pub fn hl(&self) -> (r: u16)
        ensures
            r == spec_hl(*self),
    {
        self.h as u16 * 256 + self.l as u16
    }

    /// The B-C pair as an address.
    pub fn bc(&self) -> (r: u16)
        ensures
            r == spec_bc(*self),
    {
        self.b as u16 * 256 + self.c as u16
    }

    /// The D-E pair as an address.
    pub fn de(&self) -> (r: u16)
        ensures
            r == spec_de(*self),
    {
        self.d as u16 * 256 + self.e as u16
    }

    /// Read the 8-bit operand with index `i`.
    pub fn get_reg(&self, bus: &Bus, i: u8) -> (v: u8)
        requires
            i < 8,
            bus.wf(),
        ensures
            v == spec_get_reg(mach(*self, bus@), i),
    {
        if i == 0 {
            self.b
        } else if i == 1 {
            self.c
        } else if i == 2 {
            self.d
        } else if i == 3 {
            self.e
        } else if i == 4 {
            self.h
        } else if i == 5 {
            self.l
        } else if i == 6 {
            bus.read(self.hl())
        } else {
            self.a
        }
    }

    /// Store `v` in the 8-bit operand with index `i`.
    pub fn set_reg(&mut self, bus: &mut Bus, i: u8, v: u8)
        requires
            i < 8,
            old(bus).wf(),
        ensures
            final(bus).wf(),
            mach(*final(self), final(bus)@) == spec_set_reg(mach(*old(self), old(bus)@), i, v),
    {
        if i == 0 {
            self.b = v;
        } else if i == 1 {
            self.c = v;
        } else if i == 2 {
            self.d = v;
        } else if i == 3 {
            self.e = v;
        } else if i == 4 {
            self.h = v;
        } else if i == 5 {
            self.l = v;
        } else if i == 6 {
            let addr = self.hl();
            bus.write(addr, v);
        } else {
            self.a = v;
        }
    }

    /// Read the register pair with index `rp`.
    pub fn get_rp(&self, rp: u8) -> (v: u16)
        requires
            rp < 4,
        ensures
            v == spec_get_rp(*self, rp),
    {
        if rp == 0 {
            self.bc()
        } else if rp == 1 {
            self.de()
        } else if rp == 2 {
            self.hl()
        } else {
            self.sp
        }
    }

    /// Store `v` in the register pair with index `rp`.
    pub fn set_rp(&mut self, rp: u8, v: u16)
        requires
            rp < 4,
        ensures
            *final(self) == spec_set_rp(*old(self), rp, v),
    {
        let hi = (v / 256) as u8;
        let lo = (v % 256) as u8;
        if rp == 0 {
            self.b = hi;
            self.c = lo;
        } else if rp == 1 {
            self.d = hi;
            self.e = lo;
        } else if rp == 2 {
            self.h = hi;
            self.l = lo;
        } else {
            self.sp = v;
        }
    }

    /// Push `v` onto the stack.
    pub fn push16(&mut self, bus: &mut Bus, v: u16)
        requires
            old(bus).wf(),
        ensures
            final(bus).wf(),
            mach(*final(self), final(bus)@) == spec_push16(mach(*old(self), old(bus)@), v),
    {
        let sp1 = wdec(self.sp);
        let sp2 = wdec(sp1);
        bus.write(sp1, (v / 256) as u8);
        bus.write(sp2, (v % 256) as u8);
        self.sp = sp2;
    }

    /// Pop a value from the stack.
    pub fn pop16(&mut self, bus: &Bus) -> (v: u16)
        requires
            bus.wf(),
        ensures
            mach(*final(self), bus@) == spec_pop16(mach(*old(self), bus@)).0,
            v == spec_pop16(mach(*old(self), bus@)).1,
    {
        let lo = bus.read(self.sp);
        let hi = bus.read(winc(self.sp));
        self.sp = winc(winc(self.sp));
        hi as u16 * 256 + lo as u16
    }
}

/// The 16-bit little-endian value at `addr`.
pub fn read16(bus: &Bus, addr: u16) -> (v: u16)
    requires
        bus.wf(),
    ensures
        v == spec_read16(bus@, addr),
{
    let lo = bus.read(addr);
    let hi = bus.read(winc(addr));
    hi as u16 * 256 + lo as u16
}

// ---------------------------------------------------------------------
// The specification interpreter: one spec function per instruction
// group, and the decoder that dispatches on the fetched opcode.
// ---------------------------------------------------------------------

/// The opcode the machine is about to execute.
pub open spec fn cur_op(m: MachV) -> u8 {
    spec_read(m.bus, m.cpu.pc)
}

/// The machine with the program counter advanced `n` bytes, wrapping.
pub open spec fn spec_advance(m: MachV, n: u8) -> MachV {
    if n == 1 {
        MachV { cpu: Cpu { pc: spec_inc16(m.cpu.pc), ..m.cpu }, ..m }
    } else if n == 2 {
        MachV { cpu: Cpu { pc: spec_inc16(spec_inc16(m.cpu.pc)), ..m.cpu }, ..m }
    } else {
        MachV { cpu: Cpu { pc: spec_inc16(spec_inc16(spec_inc16(m.cpu.pc))), ..m.cpu }, ..m }
    }
}

/// No-operation: only the program counter advances.
pub open spec fn spec_nop(m: MachV) -> MachV {
    spec_advance(m, 1)
}

/// Halt, on the processor alone: the program counter advances past the
/// instruction and the run state becomes `Halted`.
pub open spec fn spec_halt_cpu(c: Cpu) -> Cpu {
    Cpu { pc: spec_inc16(c.pc), run: RunState::Halted, ..c }
}

/// Halt: the program counter advances past the instruction and the run
/// state becomes `Halted`.
pub open spec fn spec_halt(m: MachV) -> MachV {
    MachV { cpu: spec_halt_cpu(m.cpu), ..m }
}

/// Register-to-register (or memory) move.
pub open spec fn spec_mov(m: MachV, op: u8) -> MachV {
    let dst = ((op / 8) % 8) as u8;
    let src = (op % 8) as u8;
    spec_advance(spec_set_reg(m, dst, spec_get_reg(m, src)), 1)
}

/// Accumulator operation with a register (or memory) operand.
pub open spec fn spec_alu_reg(m: MachV, op: u8) -> MachV {
    let idx = ((op / 8) % 8) as u8;
    let src = (op % 8) as u8;
    let v = spec_get_reg(m, src);
    let rf = spec_alu(idx, m.cpu.a, v, m.cpu.flags.cy);
    let a2 = if idx == 7 {
        m.cpu.a
    } else {
        rf.0
    };
    spec_advance(MachV { cpu: Cpu { a: a2, flags: rf.1, ..m.cpu }, ..m }, 1)
}

/// Accumulator operation with an immediate operand.
pub open spec fn spec_alu_imm(m: MachV, op: u8) -> MachV {
    let idx = ((op / 8) % 8) as u8;
    let v = spec_read(m.bus, spec_inc16(m.cpu.pc));
    let rf = spec_alu(idx, m.cpu.a, v, m.cpu.flags.cy);
    let a2 = if idx == 7 {
        m.cpu.a
    } else {
        rf.0
    };
    spec_advance(MachV { cpu: Cpu { a: a2, flags: rf.1, ..m.cpu }, ..m }, 2)
}

/// Move an immediate byte into a register (or memory).
pub open spec fn spec_mvi(m: MachV, op: u8) -> MachV {
    let dst = ((op / 8) % 8) as u8;
    let v = spec_read(m.bus, spec_inc16(m.cpu.pc));
    spec_advance(spec_set_reg(m, dst, v), 2)
}

/// Increment a register (or memory): every flag but carry follows the
/// result; auxiliary carry is the carry out of the low nibble.
pub open spec fn spec_inr(m: MachV, op: u8) -> MachV {
    let dst = ((op / 8) % 8) as u8;
    let v = spec_get_reg(m, dst);
    let r = spec_inc8(v);
    let f = spec_szp(r, m.cpu.flags.cy, v % 16 == 15);
    let m2 = spec_set_reg(m, dst, r);
    spec_advance(MachV { cpu: Cpu { flags: f, ..m2.cpu }, ..m2 }, 1)
}

/// Decrement a register (or memory): every flag but carry follows the
/// result; auxiliary carry is set when the low nibble needed no borrow.
pub open spec fn spec_dcr(m: MachV, op: u8) -> MachV {
    let dst = ((op / 8) % 8) as u8;
    let v = spec_get_reg(m, dst);
    let r = spec_dec8(v);
    let f = spec_szp(r, m.cpu.flags.cy, v % 16 != 0);
    let m2 = spec_set_reg(m, dst, r);
    spec_advance(MachV { cpu: Cpu { flags: f, ..m2.cpu }, ..m2 }, 1)
}

/// Load a register pair with a 16-bit immediate.
pub open spec fn spec_lxi(m: MachV, op: u8) -> MachV {
    let rp = (op / 16) as u8;
    let v = spec_read16(m.bus, spec_inc16(m.cpu.pc));
    spec_advance(MachV { cpu: spec_set_rp(m.cpu, rp, v), ..m }, 3)
}

/// Add a register pair to H-L, on the processor alone; only the carry
/// flag changes.
pub open spec fn spec_dad_cpu(c: Cpu, op: u8) -> Cpu {
    let rp = (op / 16) as u8;
    let sc = spec_add16(spec_hl(c), spec_get_rp(c, rp));
    let f = Flags { cy: sc.1, ..c.flags };
    Cpu { h: spec_hi(sc.0), l: spec_lo(sc.0), flags: f, pc: spec_inc16(c.pc), ..c }
}

/// Add a register pair to H-L; only the carry flag changes.
pub open spec fn spec_dad(m: MachV, op: u8) -> MachV {
    MachV { cpu: spec_dad_cpu(m.cpu, op), ..m }
}

/// Increment or decrement a register pair, on the processor alone; no
/// flag changes.
pub open spec fn spec_inx_dcx_cpu(c: Cpu, op: u8) -> Cpu {
    let rp = (op / 16) as u8;
    let v = spec_get_rp(c, rp);
    let v2 = if op % 16 == 3 {
        spec_inc16(v)
    } else {
        spec_dec16(v)
    };
    Cpu { pc: spec_inc16(c.pc), ..spec_set_rp(c, rp, v2) }
}

/// Increment or decrement a register pair; no flag changes.
pub open spec fn spec_inx_dcx(m: MachV, op: u8) -> MachV {
    MachV { cpu: spec_inx_dcx_cpu(m.cpu, op), ..m }
}

/// The loads and stores through a pair or an immediate address: the
/// accumulator via B-C, D-E or a direct address, and H-L via a direct
/// address.
pub open spec fn spec_mem2(m: MachV, op: u8) -> MachV {
    if op == 0x02 {
        spec_advance(MachV { bus: spec_write(m.bus, spec_bc(m.cpu), m.cpu.a), ..m }, 1)
    } else if op == 0x12 {
        spec_advance(MachV { bus: spec_write(m.bus, spec_de(m.cpu), m.cpu.a), ..m }, 1)
    } else if op == 0x0A {
        spec_advance(MachV { cpu: Cpu { a: spec_read(m.bus, spec_bc(m.cpu)), ..m.cpu }, ..m }, 1)
    } else if op == 0x1A {
        spec_advance(MachV { cpu: Cpu { a: spec_read(m.bus, spec_de(m.cpu)), ..m.cpu }, ..m }, 1)
    } else if op == 0x22 {
        let addr = spec_read16(m.bus, spec_inc16(m.cpu.pc));
        spec_advance(MachV { bus: spec_write16(m.bus, addr, spec_hl(m.cpu)), ..m }, 3)
    } else if op == 0x2A {
        let addr = spec_read16(m.bus, spec_inc16(m.cpu.pc));
        let v = spec_read16(m.bus, addr);
        spec_advance(MachV { cpu: Cpu { h: spec_hi(v), l: spec_lo(v), ..m.cpu }, ..m }, 3)
    } else if op == 0x32 {
        let addr = spec_read16(m.bus, spec_inc16(m.cpu.pc));
        spec_advance(MachV { bus: spec_write(m.bus, addr, m.cpu.a), ..m }, 3)
    } else {
        let addr = spec_read16(m.bus, spec_inc16(m.cpu.pc));
        spec_advance(MachV { cpu: Cpu { a: spec_read(m.bus, addr), ..m.cpu }, ..m }, 3)
    }
}

/// The accumulator rotates and the flag instructions, on the processor
/// alone: rotate left and right, plain and through carry; complement the
/// accumulator; set and complement carry.
pub open spec fn spec_rot7_cpu(c: Cpu, op: u8) -> Cpu {
    let a = c.a;
    let f = c.flags;
    let pc2 = spec_inc16(c.pc);
    if op == 0x07 {
        let a2 = ((a % 128) * 2 + a / 128) as u8;
        Cpu { a: a2, flags: Flags { cy: a / 128 == 1, ..f }, pc: pc2, ..c }
    } else if op == 0x0F {
        let a2 = (a / 2 + (a % 2) * 128) as u8;
        Cpu { a: a2, flags: Flags { cy: a % 2 == 1, ..f }, pc: pc2, ..c }
    } else if op == 0x17 {
        let ci = if f.cy {
            1int
        } else {
            0int
        };
        let a2 = ((a % 128) * 2 + ci) as u8;
        Cpu { a: a2, flags: Flags { cy: a / 128 == 1, ..f }, pc: pc2, ..c }
    } else if op == 0x1F {
        let ci = if f.cy {
            128int
        } else {
            0int
        };
        let a2 = (a / 2 + ci) as u8;
        Cpu { a: a2, flags: Flags { cy: a % 2 == 1, ..f }, pc: pc2, ..c }
    } else if op == 0x2F {
        Cpu { a: (255 - a) as u8, pc: pc2, ..c }
    } else if op == 0x37 {
        Cpu { flags: Flags { cy: true, ..f }, pc: pc2, ..c }
    } else {
        Cpu { flags: Flags { cy: !f.cy, ..f }, pc: pc2, ..c }
    }
}

/// The accumulator rotates and the flag instructions.
pub open spec fn spec_rot7(m: MachV, op: u8) -> MachV {
    MachV { cpu: spec_rot7_cpu(m.cpu, op), ..m }
}

/// Unconditional jump to the immediate address.
pub open spec fn spec_jmp(m: MachV) -> MachV {
    MachV { cpu: Cpu { pc: spec_read16(m.bus, spec_inc16(m.cpu.pc)), ..m.cpu }, ..m }
}

/// Conditional jump: taken exactly when the encoded condition holds.
pub open spec fn spec_jcond(m: MachV, op: u8) -> MachV {
    let cc = ((op / 8) % 8) as u8;
    if spec_cond(cc, m.cpu.flags) {
        spec_jmp(m)
    } else {
        spec_advance(m, 3)
    }
}

/// Unconditional call: the address of the next instruction is pushed and
/// the immediate address becomes the program counter.
pub open spec fn spec_call(m: MachV) -> MachV {
    let target = spec_read16(m.bus, spec_inc16(m.cpu.pc));
    let ret = spec_inc16(spec_inc16(spec_inc16(m.cpu.pc)));
    let m2 = spec_push16(m, ret);
    MachV { cpu: Cpu { pc: target, ..m2.cpu }, ..m2 }
}

/// Conditional call: taken exactly when the encoded condition holds.
pub open spec fn spec_ccond(m: MachV, op: u8) -> MachV {
    let cc = ((op / 8) % 8) as u8;
    if spec_cond(cc, m.cpu.flags) {
        spec_call(m)
    } else {
        spec_advance(m, 3)
    }
}

/// Unconditional return: the program counter is popped from the stack.
pub open spec fn spec_ret(m: MachV) -> MachV {
    let mv = spec_pop16(m);
    MachV { cpu: Cpu { pc: mv.1, ..mv.0.cpu }, ..mv.0 }
}

/// Conditional return: taken exactly when the encoded condition holds.
pub open spec fn spec_rcond(m: MachV, op: u8) -> MachV {
    let cc = ((op / 8) % 8) as u8;
    if spec_cond(cc, m.cpu.flags) {
        spec_ret(m)
    } else {
        spec_advance(m, 1)
    }
}

/// Push a register pair; the fourth pair stacks the accumulator as the
/// high byte and the packed flags as the low byte.
pub open spec fn spec_push_rp(m: MachV, op: u8) -> MachV {
    let rp = ((op / 16) % 4) as u8;
    let v = if rp == 3 {
        spec_w16(spec_flags_byte(m.cpu.flags), m.cpu.a)
    } else {
        spec_get_rp(m.cpu, rp)
    };
    spec_advance(spec_push16(m, v), 1)
}

/// Pop a register pair; the fourth pair restores the accumulator and the
/// packed flags.
pub open spec fn spec_pop_rp(m: MachV, op: u8) -> MachV {
    let rp = ((op / 16) % 4) as u8;
    let mv = spec_pop16(m);
    if rp == 3 {
        spec_advance(
            MachV {
                cpu: Cpu {
                    a: spec_hi(mv.1),
                    flags: spec_flags_from_byte(spec_lo(mv.1)),
                    ..mv.0.cpu
                },
                ..mv.0
            },
            1,
        )
    } else {
        spec_advance(MachV { cpu: spec_set_rp(mv.0.cpu, rp, mv.1), ..mv.0 }, 1)
    }
}

/// Read the immediate port into the accumulator.
pub open spec fn spec_in(m: MachV) -> MachV {
    let port = spec_read(m.bus, spec_inc16(m.cpu.pc));
    spec_advance(MachV { cpu: Cpu { a: spec_port_in(m.bus, port), ..m.cpu }, ..m }, 2)
}

/// Write the accumulator to the immediate port.
pub open spec fn spec_out(m: MachV) -> MachV {
    let port = spec_read(m.bus, spec_inc16(m.cpu.pc));
    spec_advance(MachV { bus: spec_port_out(m.bus, port, m.cpu.a), ..m }, 2)
}

/// Exchange D-E with H-L, on the processor alone.
pub open spec fn spec_xchg_cpu(c: Cpu) -> Cpu {
    Cpu { d: c.h, e: c.l, h: c.d, l: c.e, pc: spec_inc16(c.pc), ..c }
}

/// Exchange D-E with H-L.
pub open spec fn spec_xchg(m: MachV) -> MachV {
    MachV { cpu: spec_xchg_cpu(m.cpu), ..m }
}

/// Exchange H-L with the 16-bit value at the stack top.
pub open spec fn spec_xthl(m: MachV) -> MachV {
    let v = spec_read16(m.bus, m.cpu.sp);
    let b2 = spec_write16(m.bus, m.cpu.sp, spec_hl(m.cpu));
    spec_advance(MachV { cpu: Cpu { h: spec_hi(v), l: spec_lo(v), ..m.cpu }, bus: b2 }, 1)
}

/// Decimal adjust of the accumulator, on the processor alone: after a
/// binary addition of packed decimal operands, corrects the accumulator
/// to packed decimal.  Six is added to the low nibble when it exceeds
/// nine or auxiliary carry is set; ninety-six (hex sixty) is added when
/// the accumulator exceeds hex ninety-nine or carry is set, and exactly
/// then carry comes out set.
pub open spec fn spec_daa_cpu(c: Cpu) -> Cpu {
    let adj1 = c.a % 16 > 9 || c.flags.ac;
    let adj2 = c.a > 0x99 || c.flags.cy;
    let add = ((if adj1 {
        6int
    } else {
        0int
    }) + (if adj2 {
        0x60int
    } else {
        0int
    })) as u8;
    let rf = spec_addf(c.a, add, false);
    Cpu { a: rf.0, flags: Flags { cy: adj2, ..rf.1 }, pc: spec_inc16(c.pc), ..c }
}

/// Decimal adjust of the accumulator.
pub open spec fn spec_daa(m: MachV) -> MachV {
    MachV { cpu: spec_daa_cpu(m.cpu), ..m }
}

/// Enable or disable interrupts, on the processor alone: only the master
/// latch changes.
pub open spec fn spec_intfl_cpu(c: Cpu, op: u8) -> Cpu {
    Cpu { inte: op == 0xFB, pc: spec_inc16(c.pc), ..c }
}

/// Enable or disable interrupts.
pub open spec fn spec_intfl(m: MachV, op: u8) -> MachV {
    MachV { cpu: spec_intfl_cpu(m.cpu, op), ..m }
}

/// Restart: push the address of the next instruction and jump to the
/// fixed vector the opcode encodes, eight times its trap number.
pub open spec fn spec_rst(m: MachV, op: u8) -> MachV {
    let target = (((op / 8) % 8) * 8) as u16;
    let m2 = spec_push16(m, spec_inc16(m.cpu.pc));
    MachV { cpu: Cpu { pc: target, ..m2.cpu }, ..m2 }
}

/// Jump to the address in H-L, on the processor alone.
pub open spec fn spec_pchl_cpu(c: Cpu) -> Cpu {
    Cpu { pc: spec_hl(c), ..c }
}

/// Jump to the address in H-L.
pub open spec fn spec_pchl(m: MachV) -> MachV {
    MachV { cpu: spec_pchl_cpu(m.cpu), ..m }
}

/// Load the stack pointer from H-L, on the processor alone.
pub open spec fn spec_sphl_cpu(c: Cpu) -> Cpu {
    Cpu { sp: spec_hl(c), pc: spec_inc16(c.pc), ..c }
}

/// Load the stack pointer from H-L.
pub open spec fn spec_sphl(m: MachV) -> MachV {
    MachV { cpu: spec_sphl_cpu(m.cpu), ..m }
}

/// Whether the opcode maps to an instruction.  Exactly the twelve bytes
/// the processor's instruction set leaves undefined map to none; fetched
/// as an opcode they halt the machine as illegal.
pub open spec fn supported(op: u8) -> bool {
    if op < 0x40 {
        op == 0x00 || op % 8 >= 1
    } else if op < 0xC0 {
        true
    } else {
        op % 8 == 0 || op % 8 == 2 || op % 8 == 4 || op % 8 == 6 || op % 8 == 7 || op % 16 == 1
            || op % 16 == 5 || op == 0xC3 || op == 0xC9 || op == 0xCD || op == 0xD3 || op == 0xDB
            || op == 0xE3 || op == 0xE9 || op == 0xEB || op == 0xF3 || op == 0xF9 || op == 0xFB
    }
}

/// The machine after executing the supported instruction at the program
/// counter: the decoder, dispatching to the instruction semantics above.
pub open spec fn spec_exec_instr(m: MachV) -> MachV {
    let op = cur_op(m);
    if op == 0x76 {
        spec_halt(m)
    } else if 0x40 <= op && op < 0x80 {
        spec_mov(m, op)
    } else if 0x80 <= op && op < 0xC0 {
        spec_alu_reg(m, op)
    } else if op < 0x40 {
        if op % 8 == 1 {
            if op % 16 == 1 {
                spec_lxi(m, op)
            } else {
                spec_dad(m, op)
            }
        } else if op % 8 == 2 {
            spec_mem2(m, op)
        } else if op % 8 == 3 {
            spec_inx_dcx(m, op)
        } else if op % 8 == 4 {
            spec_inr(m, op)
        } else if op % 8 == 5 {
            spec_dcr(m, op)
        } else if op % 8 == 6 {
            spec_mvi(m, op)
        } else if op % 8 == 7 {
            if op == 0x27 {
                spec_daa(m)
            } else {
                spec_rot7(m, op)
            }
        } else {
            spec_nop(m)
        }
    } else {
        if op == 0xC3 {
            spec_jmp(m)
        } else if op == 0xC9 {
            spec_ret(m)
        } else if op == 0xCD {
            spec_call(m)
        } else if op == 0xD3 {
            spec_out(m)
        } else if op == 0xDB {
            spec_in(m)
        } else if op == 0xE3 {
            spec_xthl(m)
        } else if op == 0xE9 {
            spec_pchl(m)
        } else if op == 0xEB {
            spec_xchg(m)
        } else if op == 0xF9 {
            spec_sphl(m)
        } else if op == 0xF3 || op == 0xFB {
            spec_intfl(m, op)
        } else if op % 8 == 7 {
            spec_rst(m, op)
        } else if op % 8 == 0 {
            spec_rcond(m, op)
        } else if op % 8 == 2 {
            spec_jcond(m, op)
        } else if op % 8 == 4 {
            spec_ccond(m, op)
        } else if op % 8 == 6 {
            spec_alu_imm(m, op)
        } else if op % 16 == 1 {
            spec_pop_rp(m, op)
        } else {
            spec_push_rp(m, op)
        }
    }
}

/// One step of a running machine: a supported instruction executes; an
/// unsupported opcode only turns the run state to `Halted`, leaving the
/// program counter, the registers and the bus untouched.
pub open spec fn spec_step_running(m: MachV) -> MachV {
    if supported(cur_op(m)) {
        spec_exec_instr(m)
    } else {
        MachV { cpu: Cpu { run: RunState::Halted, ..m.cpu }, ..m }
    }
}

/// One tick of the machine: a step while `Running`, a no-op otherwise.
pub open spec fn spec_tick(m: MachV) -> MachV {
    if m.cpu.run == RunState::Running {
        spec_step_running(m)
    } else {
        m
    }
}

/// The encoded byte length of a supported instruction.
pub open spec fn instr_len(op: u8) -> u8 {
    if op < 0x40 {
        if op % 16 == 1 {
            3
        } else if op % 8 == 6 {
            2
        } else if op == 0x22 || op == 0x2A || op == 0x32 || op == 0x3A {
            3
        } else {
            1
        }
    } else if op < 0xC0 {
        1
    } else {
        if op % 8 == 2 || op % 8 == 4 || op == 0xC3 || op == 0xCD {
            3
        } else if op % 8 == 6 || op == 0xD3 || op == 0xDB {
            2
        } else {
            1
        }
    }
}

/// Whether a supported opcode is a control-transfer instruction: a jump,
/// call, return or restart trap, conditional or not, or the jump through
/// H-L.
pub open spec fn is_control_transfer(op: u8) -> bool {
    (0xC0 <= op && (op % 8 == 0 || op % 8 == 2 || op % 8 == 4 || op % 8 == 7)) || op == 0xC3
        || op == 0xC9 || op == 0xCD || op == 0xE9
}

/// Every supported instruction that is not a control transfer advances
/// the program counter by exactly its encoded byte length, wrapping at
/// the top of the address space.
#[verifier::rlimit(50)]
pub proof fn lemma_pc_advance(m: MachV)
    requires
        supported(cur_op(m)),
        !is_control_transfer(cur_op(m)),
    ensures
        spec_exec_instr(m).cpu.pc == spec_advance(m, instr_len(cur_op(m))).cpu.pc,
{
    // The empty branches only split the proof by opcode group, one
    // decoder branch at a time.
    let op = cur_op(m);
    if op < 0x40 {
        if op % 8 == 1 {
        } else if op % 8 == 2 {
        } else if op % 8 == 3 {
        } else if op % 8 == 4 {
        } else if op % 8 == 5 {
        } else if op % 8 == 6 {
        } else if op % 8 == 7 {
        }
    } else if op < 0xC0 {
    } else {
        if op % 16 == 1 {
        } else if op % 16 == 5 {
        } else if op % 8 == 6 {
        } else if op % 8 == 7 {
        }
    }
}

// ---------------------------------------------------------------------
// The executable core: one handler per instruction group, each proved
// equal to its specification, and the fetch-decode-execute step.
// ---------------------------------------------------------------------

/// 8-bit increment with wrap-around.
pub fn winc8(x: u8) -> (r: u8)
    ensures
        r == spec_inc8(x),
{
    if x == 0xFF {
        0
    } else {
        x + 1
    }
}

/// 8-bit decrement with wrap-around.
pub fn wdec8(x: u8) -> (r: u8)
    ensures
        r == spec_dec8(x),
{
    if x == 0 {
        0xFF
    } else {
        x - 1
    }
}

impl Cpu {
    fn op_halt(&mut self)
        ensures
            *final(self) == spec_halt_cpu(*old(self)),
    {
        self.pc = winc(self.pc);
        self.run = RunState::Halted;
    }

    fn op_mov(&mut self, bus: &mut Bus, op: u8)
        requires
            old(bus).wf(),
            0x40 <= op < 0x80,
            op != 0x76,
        ensures
            final(bus).wf(),
            mach(*final(self), final(bus)@) == spec_mov(mach(*old(self), old(bus)@), op),
    {
        let dst = (op / 8) % 8;
        let src = op % 8;
        let v = self.get_reg(bus, src);
        self.set_reg(bus, dst, v);
        self.pc = winc(self.pc);
    }

    fn op_alu_reg(&mut self, bus: &Bus, op: u8)
        requires
            bus.wf(),
            0x80 <= op < 0xC0,
        ensures
            mach(*final(self), bus@) == spec_alu_reg(mach(*old(self), bus@), op),
    {
        let idx = (op / 8) % 8;
        let src = op % 8;
        let v = self.get_reg(bus, src);
        let rf = alu_exec(idx, self.a, v, self.flags.cy);
        if idx != 7 {
            self.a = rf.0;
        }
        self.flags = rf.1;
        self.pc = winc(self.pc);
    }

    fn op_alu_imm(&mut self, bus: &Bus, op: u8)
        requires
            bus.wf(),
            0xC0 <= op,
            op % 8 == 6,
        ensures
            mach(*final(self), bus@) == spec_alu_imm(mach(*old(self), bus@), op),
    {
        let idx = (op / 8) % 8;
        let v = bus.read(winc(self.pc));
        let rf = alu_exec(idx, self.a, v, self.flags.cy);
        if idx != 7 {
            self.a = rf.0;
        }
        self.flags = rf.1;
        self.pc = winc(winc(self.pc));
    }

    fn op_mvi(&mut self, bus: &mut Bus, op: u8)
        requires
            old(bus).wf(),
            op < 0x40,
            op % 8 == 6,
        ensures
            final(bus).wf(),
            mach(*final(self), final(bus)@) == spec_mvi(mach(*old(self), old(bus)@), op),
    {
        let dst = (op / 8) % 8;
        let v = bus.read(winc(self.pc));
        self.set_reg(bus, dst, v);
        self.pc = winc(winc(self.pc));
    }

    fn op_inr(&mut self, bus: &mut Bus, op: u8)
        requires
            old(bus).wf(),
            op < 0x40,
            op % 8 == 4,
        ensures
            final(bus).wf(),
            mach(*final(self), final(bus)@) == spec_inr(mach(*old(self), old(bus)@), op),
    {
        let dst = (op / 8) % 8;
        let v = self.get_reg(bus, dst);
        let r = winc8(v);
        let f = flags_szp(r, self.flags.cy, v % 16 == 15);
        self.set_reg(bus, dst, r);
        self.flags = f;
        self.pc = winc(self.pc);
    }

    fn op_dcr(&mut self, bus: &mut Bus, op: u8)
        requires
            old(bus).wf(),
            op < 0x40,
            op % 8 == 5,
        ensures
            final(bus).wf(),
            mach(*final(self), final(bus)@) == spec_dcr(mach(*old(self), old(bus)@), op),
    {
        let dst = (op / 8) % 8;
        let v = self.get_reg(bus, dst);
        let r = wdec8(v);
        let f = flags_szp(r, self.flags.cy, v % 16 != 0);
        self.set_reg(bus, dst, r);
        self.flags = f;
        self.pc = winc(self.pc);
    }

    fn op_lxi(&mut self, bus: &Bus, op: u8)
        requires
            bus.wf(),
            op < 0x40,
            op % 16 == 1,
        ensures
            mach(*final(self), bus@) == spec_lxi(mach(*old(self), bus@), op),
    {
        let rp = op / 16;
        let v = read16(bus, winc(self.pc));
        self.set_rp(rp, v);
        self.pc = winc(winc(winc(self.pc)));
    }

    fn op_dad(&mut self, op: u8)
        requires
            op < 0x40,
            op % 16 == 9,
        ensures
            *final(self) == spec_dad_cpu(*old(self), op),
    {
        let rp = op / 16;
        let x = self.hl();
        let y = self.get_rp(rp);
        let s: u32 = x as u32 + y as u32;
        let v: u16 = (s % 65536) as u16;
        self.h = (v / 256) as u8;
        self.l = (v % 256) as u8;
        self.flags = Flags { cy: s >= 65536, ..self.flags };
        self.pc = winc(self.pc);
    }

    fn op_inx_dcx(&mut self, op: u8)
        requires
            op < 0x40,
            op % 8 == 3,
        ensures
            *final(self) == spec_inx_dcx_cpu(*old(self), op),
    {
        let rp = op / 16;
        let v = self.get_rp(rp);
        let v2 = if op % 16 == 3 {
            winc(v)
        } else {
            wdec(v)
        };
        self.set_rp(rp, v2);
        self.pc = winc(self.pc);
    }

    fn op_mem2(&mut self, bus: &mut Bus, op: u8)
        requires
            old(bus).wf(),
            op < 0x40,
            op % 8 == 2,
        ensures
            final(bus).wf(),
            mach(*final(self), final(bus)@) == spec_mem2(mach(*old(self), old(bus)@), op),
    {
        if op == 0x02 {
            let addr = self.bc();
            bus.write(addr, self.a);
            self.pc = winc(self.pc);
        } else if op == 0x12 {
            let addr = self.de();
            bus.write(addr, self.a);
            self.pc = winc(self.pc);
        } else if op == 0x0A {
            let addr = self.bc();
            self.a = bus.read(addr);
            self.pc = winc(self.pc);
        } else if op == 0x1A {
            let addr = self.de();
            self.a = bus.read(addr);
            self.pc = winc(self.pc);
        } else if op == 0x22 {
            let addr = read16(bus, winc(self.pc));
            let hl = self.hl();
            bus.write(addr, (hl % 256) as u8);
            bus.write(winc(addr), (hl / 256) as u8);
            self.pc = winc(winc(winc(self.pc)));
        } else if op == 0x2A {
            let addr = read16(bus, winc(self.pc));
            let v = read16(bus, addr);
            self.h = (v / 256) as u8;
            self.l = (v % 256) as u8;
            self.pc = winc(winc(winc(self.pc)));
        } else if op == 0x32 {
            let addr = read16(bus, winc(self.pc));
            bus.write(addr, self.a);
            self.pc = winc(winc(winc(self.pc)));
        } else {
            let addr = read16(bus, winc(self.pc));
            self.a = bus.read(addr);
            self.pc = winc(winc(winc(self.pc)));
        }
    }

    fn op_rot7(&mut self, op: u8)
        requires
            op < 0x40,
            op % 8 == 7,
            op != 0x27,
        ensures
            *final(self) == spec_rot7_cpu(*old(self), op),
    {
        let a = self.a;
        if op == 0x07 {
            self.a = (a % 128) * 2 + a / 128;
            self.flags = Flags { cy: a / 128 == 1, ..self.flags };
        } else if op == 0x0F {
            self.a = a / 2 + (a % 2) * 128;
            self.flags = Flags { cy: a % 2 == 1, ..self.flags };
        } else if op == 0x17 {
            let ci: u8 = if self.flags.cy {
                1
            } else {
                0
            };
            self.a = (a % 128) * 2 + ci;
            self.flags = Flags { cy: a / 128 == 1, ..self.flags };
        } else if op == 0x1F {
            let ci: u8 = if self.flags.cy {
                128
            } else {
                0
            };
            self.a = a / 2 + ci;
            self.flags = Flags { cy: a % 2 == 1, ..self.flags };
        } else if op == 0x2F {
            self.a = 255 - a;
        } else if op == 0x37 {
            self.flags = Flags { cy: true, ..self.flags };
        } else {
            self.flags = Flags { cy: !self.flags.cy, ..self.flags };
        }
        self.pc = winc(self.pc);
    }

    fn op_jmp(&mut self, bus: &Bus)
        requires
            bus.wf(),
        ensures
            mach(*final(self), bus@) == spec_jmp(mach(*old(self), bus@)),
    {
        self.pc = read16(bus, winc(self.pc));
    }

    fn op_jcond(&mut self, bus: &Bus, op: u8)
        requires
            bus.wf(),
            0xC0 <= op,
            op % 8 == 2,
        ensures
            mach(*final(self), bus@) == spec_jcond(mach(*old(self), bus@), op),
    {
        let cc = (op / 8) % 8;
        if cond_exec(cc, &self.flags) {
            self.pc = read16(bus, winc(self.pc));
        } else {
            self.pc = winc(winc(winc(self.pc)));
        }
    }

    fn op_call(&mut self, bus: &mut Bus)
        requires
            old(bus).wf(),
        ensures
            final(bus).wf(),
            mach(*final(self), final(bus)@) == spec_call(mach(*old(self), old(bus)@)),
    {
        let target = read16(bus, winc(self.pc));
        let ret = winc(winc(winc(self.pc)));
        self.push16(bus, ret);
        self.pc = target;
    }

    fn op_ccond(&mut self, bus: &mut Bus, op: u8)
        requires
            old(bus).wf(),
            0xC0 <= op,
            op % 8 == 4,
        ensures
            final(bus).wf(),
            mach(*final(self), final(bus)@) == spec_ccond(mach(*old(self), old(bus)@), op),
    {
        let cc = (op / 8) % 8;
        if cond_exec(cc, &self.flags) {
            self.op_call(bus);
        } else {
            self.pc = winc(winc(winc(self.pc)));
        }
    }

    fn op_ret(&mut self, bus: &Bus)
        requires
            bus.wf(),
        ensures
            mach(*final(self), bus@) == spec_ret(mach(*old(self), bus@)),
    {
        let v = self.pop16(bus);
        self.pc = v;
    }

    fn op_rcond(&mut self, bus: &Bus, op: u8)
        requires
            bus.wf(),
            0xC0 <= op,
            op % 8 == 0,
        ensures
            mach(*final(self), bus@) == spec_rcond(mach(*old(self), bus@), op),
    {
        let cc = (op / 8) % 8;
        if cond_exec(cc, &self.flags) {
            self.op_ret(bus);
        } else {
            self.pc = winc(self.pc);
        }
    }

    fn op_push_rp(&mut self, bus: &mut Bus, op: u8)
        requires
            old(bus).wf(),
            0xC0 <= op,
            op % 16 == 5,
        ensures
            final(bus).wf(),
            mach(*final(self), final(bus)@) == spec_push_rp(mach(*old(self), old(bus)@), op),
    {
        let rp = (op / 16) % 4;
        let v: u16 = if rp == 3 {
            self.a as u16 * 256 + flags_byte(self.flags) as u16
        } else {
            self.get_rp(rp)
        };
        self.push16(bus, v);
        self.pc = winc(self.pc);
    }

    fn op_pop_rp(&mut self, bus: &Bus, op: u8)
        requires
            bus.wf(),
            0xC0 <= op,
            op % 16 == 1,
        ensures
            mach(*final(self), bus@) == spec_pop_rp(mach(*old(self), bus@), op),
    {
        let rp = (op / 16) % 4;
        let v = self.pop16(bus);
        if rp == 3 {
            self.a = (v / 256) as u8;
            self.flags = flags_from_byte((v % 256) as u8);
        } else {
            self.set_rp(rp, v);
        }
        self.pc = winc(self.pc);
    }

    fn op_in(&mut self, bus: &Bus)
        requires
            bus.wf(),
        ensures
            mach(*final(self), bus@) == spec_in(mach(*old(self), bus@)),
    {
        let port = bus.read(winc(self.pc));
        self.a = bus.port_in(port);
        self.pc = winc(winc(self.pc));
    }

    fn op_out(&mut self, bus: &mut Bus)
        requires
            old(bus).wf(),
        ensures
            final(bus).wf(),
            mach(*final(self), final(bus)@) == spec_out(mach(*old(self), old(bus)@)),
    {
        let port = bus.read(winc(self.pc));
        bus.port_out(port, self.a);
        self.pc = winc(winc(self.pc));
    }

    fn op_xchg(&mut self)
        ensures
            *final(self) == spec_xchg_cpu(*old(self)),
    {
        let d = self.d;
        let e = self.e;
        self.d = self.h;
        self.e = self.l;
        self.h = d;
        self.l = e;
        self.pc = winc(self.pc);
    }

    fn op_xthl(&mut self, bus: &mut Bus)
        requires
            old(bus).wf(),
        ensures
            final(bus).wf(),
            mach(*final(self), final(bus)@) == spec_xthl(mach(*old(self), old(bus)@)),
    {
        let v = read16(bus, self.sp);
        let hl = self.hl();
        bus.write(self.sp, (hl % 256) as u8);
        bus.write(winc(self.sp), (hl / 256) as u8);
        self.h = (v / 256) as u8;
        self.l = (v % 256) as u8;
        self.pc = winc(self.pc);
    }

    fn op_daa(&mut self)
        ensures
            *final(self) == spec_daa_cpu(*old(self)),
    {
        let adj1 = self.a % 16 > 9 || self.flags.ac;
        let adj2 = self.a > 0x99 || self.flags.cy;
        let add: u8 = (if adj1 {
            6
        } else {
            0
        }) + (if adj2 {
            0x60
        } else {
            0
        });
        let rf = addf(self.a, add, false);
        self.a = rf.0;
        self.flags = Flags { cy: adj2, ..rf.1 };
        self.pc = winc(self.pc);
    }

    fn op_intfl(&mut self, op: u8)
        requires
            op == 0xF3 || op == 0xFB,
        ensures
            *final(self) == spec_intfl_cpu(*old(self), op),
    {
        self.inte = op == 0xFB;
        self.pc = winc(self.pc);
    }

    fn op_rst(&mut self, bus: &mut Bus, op: u8)
        requires
            old(bus).wf(),
            0xC0 <= op,
            op % 8 == 7,
        ensures
            final(bus).wf(),
            mach(*final(self), final(bus)@) == spec_rst(mach(*old(self), old(bus)@), op),
    {
        let target: u16 = (((op / 8) % 8) * 8) as u16;
        let ret = winc(self.pc);
        self.push16(bus, ret);
        self.pc = target;
    }

    fn op_pchl(&mut self)
        ensures
            *final(self) == spec_pchl_cpu(*old(self)),
    {
        self.pc = self.hl();
    }

    fn op_sphl(&mut self)
        ensures
            *final(self) == spec_sphl_cpu(*old(self)),
    {
        self.sp = self.hl();
        self.pc = winc(self.pc);
    }

    /// One tick of the machine: fetch, decode and execute exactly one
    /// instruction while `Running`; a no-op while `Halted` or `Stopped`.
    /// An unsupported opcode halts the processor, leaves every register,
    /// the program counter and the bus untouched, and is reported once.
    #[verifier::rlimit(80)]
    pub fn step(&mut self, bus: &mut Bus) -> (r: Result<(), EmuError>)
        requires
            old(bus).wf(),
        ensures
            final(bus).wf(),
            mach(*final(self), final(bus)@) == spec_tick(mach(*old(self), old(bus)@)),
            r is Err <==> (old(self).run == RunState::Running && !supported(
                cur_op(mach(*old(self), old(bus)@)),
            )),
            r is Err ==> r == Result::<(), EmuError>::Err(EmuError::IllegalOpcode),
    {
        if self.run != RunState::Running {
            return Ok(());
        }
        let op = bus.read(self.pc);
        if op == 0x76 {
            self.op_halt();
            Ok(())
        } else if 0x40 <= op && op < 0xC0 {
            if op < 0x80 {
                self.op_mov(bus, op);
            } else {
                self.op_alu_reg(bus, op);
            }
            Ok(())
        } else if op < 0x40 {
            if op % 8 == 1 {
                if op % 16 == 1 {
                    self.op_lxi(bus, op);
                } else {
                    self.op_dad(op);
                }
                Ok(())
            } else if op % 8 == 2 {
                self.op_mem2(bus, op);
                Ok(())
            } else if op % 8 == 3 {
                self.op_inx_dcx(op);
                Ok(())
            } else if op % 8 == 4 {
                self.op_inr(bus, op);
                Ok(())
            } else if op % 8 == 5 {
                self.op_dcr(bus, op);
                Ok(())
            } else if op % 8 == 6 {
                self.op_mvi(bus, op);
                Ok(())
            } else if op % 8 == 7 {
                if op == 0x27 {
                    self.op_daa();
                } else {
                    self.op_rot7(op);
                }
                Ok(())
            } else if op == 0x00 {
                self.pc = winc(self.pc);
                Ok(())
            } else {
                self.run = RunState::Halted;
                Err(EmuError::IllegalOpcode)
            }
        } else {
            if op == 0xC3 {
                self.op_jmp(bus);
                Ok(())
            } else if op == 0xC9 {
                self.op_ret(bus);
                Ok(())
            } else if op == 0xCD {
                self.op_call(bus);
                Ok(())
            } else if op == 0xD3 {
                self.op_out(bus);
                Ok(())
            } else if op == 0xDB {
                self.op_in(bus);
                Ok(())
            } else if op == 0xE3 {
                self.op_xthl(bus);
                Ok(())
            } else if op == 0xE9 {
                self.op_pchl();
                Ok(())
            } else if op == 0xEB {
                self.op_xchg();
                Ok(())
            } else if op == 0xF9 {
                self.op_sphl();
                Ok(())
            } else if op == 0xF3 || op == 0xFB {
                self.op_intfl(op);
                Ok(())
            } else if op % 8 == 7 {
                self.op_rst(bus, op);
                Ok(())
            } else if op % 8 == 0 {
                self.op_rcond(bus, op);
                Ok(())
            } else if op % 8 == 2 {
                self.op_jcond(bus, op);
                Ok(())
            } else if op % 8 == 4 {
                self.op_ccond(bus, op);
                Ok(())
            } else if op % 8 == 6 {
                self.op_alu_imm(bus, op);
                Ok(())
            } else if op % 16 == 1 {
                self.op_pop_rp(bus, op);
                Ok(())
            } else if op % 16 == 5 {
                self.op_push_rp(bus, op);
                Ok(())
            } else {
                self.run = RunState::Halted;
                Err(EmuError::IllegalOpcode)
            }
        }
    }
}

} // verus!
