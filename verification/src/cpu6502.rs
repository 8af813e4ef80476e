//! The 6502 interpreter: one instruction per call, with the documented
//! addressing-mode and branch cycle penalties, edge-latched interrupts,
//! and a permanent halt on undecodable opcodes.

use vstd::prelude::*;
use crate::cpu6502_info::{instruction_info, spec_instruction_info, AddressingMode, InstructionInfo};

verus! {

pub const FLAG_C: u8 = 0x01;

pub const FLAG_Z: u8 = 0x02;

pub const FLAG_I: u8 = 0x04;

pub const FLAG_D: u8 = 0x08;

pub const FLAG_B: u8 = 0x10;

pub const FLAG_U: u8 = 0x20;

pub const FLAG_V: u8 = 0x40;

pub const FLAG_N: u8 = 0x80;

/// The address space the processor runs against.  Reads may have side
/// effects (hardware registers do), so both operations take the space
/// mutably; `inv` is whatever well-formedness the implementation needs its
/// dispatch to rely on, and both operations preserve it.  A read's result
/// and after-state are fixed functions of the pre-state, named by the two
/// spec methods, so instruction semantics can be stated over any memory.
pub trait Memory where Self: Sized {
    spec fn inv(&self) -> bool;

    /// The byte a read at `address` returns, as a function of the
    /// pre-state.
    spec fn read_value(&self, address: u16) -> u8;

    /// The state a read at `address` leaves behind.
    spec fn after_read(&self, address: u16) -> Self;

    /// The clocks of the rest of the machine, which no processor-side
    /// access moves: implementations report the counters their other
    /// units keep (zeros when there are none), and both operations
    /// preserve them.
    spec fn clocks(&self) -> (u64, int, u32);

    /// Exactly what a write at `address` does, as a relation between the
    /// space before and after.
    spec fn write_effect(&self, address: u16, value: u8, post: &Self) -> bool;

    fn read(&mut self, address: u16) -> (r: u8)
        requires
            old(self).inv(),
        ensures
            final(self).inv(),
            r == old(self).read_value(address),
            *final(self) == old(self).after_read(address),
            final(self).clocks() == old(self).clocks(),
    ;

    fn write(&mut self, address: u16, value: u8)
        requires
            old(self).inv(),
        ensures
            final(self).inv(),
            old(self).write_effect(address, value, final(self)),
            final(self).clocks() == old(self).clocks(),
    ;
}

/// The opcodes the interpreter implements; anything else halts the
/// core.
pub open spec fn spec_opcode_assigned(op: u8) -> bool {
    op == 0x00 || op == 0x01 || op == 0x05 || op == 0x06 || op == 0x08 || op == 0x09
        || op == 0x0a || op == 0x0d || op == 0x0e || op == 0x10 || op == 0x11 || op == 0x15
        || op == 0x16 || op == 0x18 || op == 0x19 || op == 0x1d || op == 0x1e || op == 0x20
        || op == 0x21 || op == 0x24 || op == 0x25 || op == 0x26 || op == 0x28 || op == 0x29
        || op == 0x2a || op == 0x2c || op == 0x2d || op == 0x2e || op == 0x30 || op == 0x31
        || op == 0x35 || op == 0x36 || op == 0x38 || op == 0x39 || op == 0x3d || op == 0x3e
        || op == 0x40 || op == 0x41 || op == 0x45 || op == 0x46 || op == 0x48 || op == 0x49
        || op == 0x4a || op == 0x4c || op == 0x4d || op == 0x4e || op == 0x50 || op == 0x51
        || op == 0x55 || op == 0x56 || op == 0x58 || op == 0x59 || op == 0x5d || op == 0x5e
        || op == 0x60 || op == 0x61 || op == 0x65 || op == 0x66 || op == 0x68 || op == 0x69
        || op == 0x6a || op == 0x6c || op == 0x6d || op == 0x6e || op == 0x70 || op == 0x71
        || op == 0x75 || op == 0x76 || op == 0x78 || op == 0x79 || op == 0x7d || op == 0x7e
        || op == 0x81 || op == 0x84 || op == 0x85 || op == 0x86 || op == 0x88 || op == 0x8a
        || op == 0x8c || op == 0x8d || op == 0x8e || op == 0x90 || op == 0x91 || op == 0x94
        || op == 0x95 || op == 0x96 || op == 0x98 || op == 0x99 || op == 0x9a || op == 0x9d
        || op == 0xa0 || op == 0xa1 || op == 0xa2 || op == 0xa4 || op == 0xa5 || op == 0xa6
        || op == 0xa8 || op == 0xa9 || op == 0xaa || op == 0xac || op == 0xad || op == 0xae
        || op == 0xb0 || op == 0xb1 || op == 0xb4 || op == 0xb5 || op == 0xb6 || op == 0xb8
        || op == 0xb9 || op == 0xba || op == 0xbc || op == 0xbd || op == 0xbe || op == 0xc0
        || op == 0xc1 || op == 0xc4 || op == 0xc5 || op == 0xc6 || op == 0xc8 || op == 0xc9
        || op == 0xca || op == 0xcc || op == 0xcd || op == 0xce || op == 0xd0 || op == 0xd1
        || op == 0xd5 || op == 0xd6 || op == 0xd8 || op == 0xd9 || op == 0xdd || op == 0xde
        || op == 0xe0 || op == 0xe1 || op == 0xe4 || op == 0xe5 || op == 0xe6 || op == 0xe8
        || op == 0xe9 || op == 0xea || op == 0xec || op == 0xed || op == 0xee || op == 0xf0
        || op == 0xf1 || op == 0xf5 || op == 0xf6 || op == 0xf8 || op == 0xf9 || op == 0xfd
        || op == 0xfe
}

/// Opcodes whose whole effect stays inside the processor registers:
/// implied and accumulator modes, minus the stack and control-flow ones.
pub open spec fn spec_is_register_op(op: u8) -> bool {
    op == 0x0a || op == 0x2a || op == 0x4a || op == 0x6a || op == 0x18 || op == 0x38 || op == 0x58
        || op == 0x78 || op == 0xb8 || op == 0xd8 || op == 0xf8 || op == 0x88 || op == 0x8a
        || op == 0x98 || op == 0x9a || op == 0xa8 || op == 0xaa || op == 0xba || op == 0xc8
        || op == 0xca || op == 0xe8 || op == 0xea
}

/// What a register-only opcode does to the processor state (the program
/// counter and cycle counter are already advanced by the decode step).
pub open spec fn spec_register_op_step(c: Cpu6502, op: u8) -> Cpu6502 {
    if op == 0x0a {
        let a = c.a << 1;
        Cpu6502 { a, p: spec_set_zn(spec_set_flag(c.p, FLAG_C, c.a & 0x80 != 0), a), ..c }
    } else if op == 0x2a {
        let carry: u16 = if c.p & FLAG_C != 0 {
            1
        } else {
            0
        };
        let r = ((c.a as u16) << 1) | carry;
        let a = r as u8;
        Cpu6502 { a, p: spec_set_zn(spec_set_flag(c.p, FLAG_C, r >= 0x100), a), ..c }
    } else if op == 0x4a {
        let a = c.a >> 1;
        Cpu6502 { a, p: spec_set_zn(spec_set_flag(c.p, FLAG_C, c.a & 0x01 != 0), a), ..c }
    } else if op == 0x6a {
        let carry: u8 = if c.p & FLAG_C != 0 {
            1
        } else {
            0
        };
        let a = (c.a >> 1) | (carry << 7);
        Cpu6502 { a, p: spec_set_zn(spec_set_flag(c.p, FLAG_C, c.a & 0x01 != 0), a), ..c }
    } else if op == 0x18 {
        Cpu6502 { p: c.p & !FLAG_C, ..c }
    } else if op == 0x38 {
        Cpu6502 { p: c.p | FLAG_C, ..c }
    } else if op == 0x58 {
        Cpu6502 { p: c.p & !FLAG_I, ..c }
    } else if op == 0x78 {
        Cpu6502 { p: c.p | FLAG_I, ..c }
    } else if op == 0xb8 {
        Cpu6502 { p: c.p & !FLAG_V, ..c }
    } else if op == 0xd8 {
        Cpu6502 { p: c.p & !FLAG_D, ..c }
    } else if op == 0xf8 {
        Cpu6502 { p: c.p | FLAG_D, ..c }
    } else if op == 0x88 {
        let y = c.y.wrapping_sub(1);
        Cpu6502 { y, p: spec_set_zn(c.p, y), ..c }
    } else if op == 0x8a {
        Cpu6502 { a: c.x, p: spec_set_zn(c.p, c.x), ..c }
    } else if op == 0x98 {
        Cpu6502 { a: c.y, p: spec_set_zn(c.p, c.y), ..c }
    } else if op == 0x9a {
        Cpu6502 { sp: c.x, ..c }
    } else if op == 0xa8 {
        Cpu6502 { y: c.a, p: spec_set_zn(c.p, c.a), ..c }
    } else if op == 0xaa {
        Cpu6502 { x: c.a, p: spec_set_zn(c.p, c.a), ..c }
    } else if op == 0xba {
        Cpu6502 { x: c.sp, p: spec_set_zn(c.p, c.sp), ..c }
    } else if op == 0xc8 {
        let y = c.y.wrapping_add(1);
        Cpu6502 { y, p: spec_set_zn(c.p, y), ..c }
    } else if op == 0xca {
        let x = c.x.wrapping_sub(1);
        Cpu6502 { x, p: spec_set_zn(c.p, x), ..c }
    } else if op == 0xe8 {
        let x = c.x.wrapping_add(1);
        Cpu6502 { x, p: spec_set_zn(c.p, x), ..c }
    } else {
        c
    }
}

/// Opcodes whose one operand is the immediate byte after them.
pub open spec fn spec_is_immediate_op(op: u8) -> bool {
    op == 0x09 || op == 0x29 || op == 0x49 || op == 0x69 || op == 0xe9 || op == 0xa9 || op == 0xa2
        || op == 0xa0 || op == 0xc9 || op == 0xe0 || op == 0xc0
}

/// What an immediate-mode opcode does to the processor state, given its
/// operand byte `v`.
pub open spec fn spec_immediate_op_step(c: Cpu6502, op: u8, v: u8) -> Cpu6502 {
    if op == 0x09 {
        let a = c.a | v;
        Cpu6502 { a, p: spec_set_zn(c.p, a), ..c }
    } else if op == 0x29 {
        let a = c.a & v;
        Cpu6502 { a, p: spec_set_zn(c.p, a), ..c }
    } else if op == 0x49 {
        let a = c.a ^ v;
        Cpu6502 { a, p: spec_set_zn(c.p, a), ..c }
    } else if op == 0x69 {
        let carry: u16 = if c.p & FLAG_C != 0 {
            1
        } else {
            0
        };
        let r = c.a as u16 + v as u16 + carry;
        let a = r as u8;
        Cpu6502 {
            a,
            p: spec_set_zn(
                spec_set_flag(
                    spec_set_flag(c.p, FLAG_C, r >= 0x100),
                    FLAG_V,
                    (c.a ^ v) & 0x80 == 0 && (c.a ^ a) & 0x80 != 0,
                ),
                a,
            ),
            ..c
        }
    } else if op == 0xe9 {
        let ncarry: i16 = if c.p & FLAG_C != 0 {
            0
        } else {
            1
        };
        let r = c.a as i16 - v as i16 - ncarry;
        let a = r as u8;
        Cpu6502 {
            a,
            p: spec_set_zn(
                spec_set_flag(
                    spec_set_flag(c.p, FLAG_C, r >= 0),
                    FLAG_V,
                    (c.a ^ v) & 0x80 != 0 && (c.a ^ a) & 0x80 != 0,
                ),
                a,
            ),
            ..c
        }
    } else if op == 0xa9 {
        Cpu6502 { a: v, p: spec_set_zn(c.p, v), ..c }
    } else if op == 0xa2 {
        Cpu6502 { x: v, p: spec_set_zn(c.p, v), ..c }
    } else if op == 0xa0 {
        Cpu6502 { y: v, p: spec_set_zn(c.p, v), ..c }
    } else if op == 0xc9 {
        Cpu6502 { p: spec_compare(c.p, c.a, v), ..c }
    } else if op == 0xe0 {
        Cpu6502 { p: spec_compare(c.p, c.x, v), ..c }
    } else if op == 0xc0 {
        Cpu6502 { p: spec_compare(c.p, c.y, v), ..c }
    } else {
        c
    }
}

/// The zero-page forms of the one-operand arithmetic/load/compare
/// operations.
pub open spec fn spec_is_zeropage_alu_op(op: u8) -> bool {
    op == 0x05 || op == 0x25 || op == 0x45 || op == 0x65 || op == 0xe5 || op == 0xa5 || op == 0xa6
        || op == 0xa4 || op == 0xc5 || op == 0xe4 || op == 0xc4
}

/// The absolute forms of the same operations.
pub open spec fn spec_is_absolute_alu_op(op: u8) -> bool {
    op == 0x0d || op == 0x2d || op == 0x4d || op == 0x6d || op == 0xed || op == 0xad || op == 0xae
        || op == 0xac || op == 0xcd || op == 0xec || op == 0xcc
}

/// The immediate-mode opcode performing the same operation as a memory
/// form: the register effect is shared, only the operand source differs.
pub open spec fn spec_alu_immediate_twin(op: u8) -> u8 {
    if op == 0x05 || op == 0x0d {
        0x09u8
    } else if op == 0x25 || op == 0x2d {
        0x29u8
    } else if op == 0x45 || op == 0x4d {
        0x49u8
    } else if op == 0x65 || op == 0x6d {
        0x69u8
    } else if op == 0xe5 || op == 0xed {
        0xe9u8
    } else if op == 0xa5 || op == 0xad {
        0xa9u8
    } else if op == 0xa6 || op == 0xae {
        0xa2u8
    } else if op == 0xa4 || op == 0xac {
        0xa0u8
    } else if op == 0xc5 || op == 0xcd {
        0xc9u8
    } else if op == 0xe4 || op == 0xec {
        0xe0u8
    } else {
        0xc0u8
    }
}

/// The zero-page stores.
pub open spec fn spec_is_zeropage_store_op(op: u8) -> bool {
    op == 0x85 || op == 0x86 || op == 0x84
}

/// The absolute stores.
pub open spec fn spec_is_absolute_store_op(op: u8) -> bool {
    op == 0x8d || op == 0x8e || op == 0x8c
}

/// The register a store writes out.
pub open spec fn spec_store_value(c: Cpu6502, op: u8) -> u8 {
    if op == 0x85 || op == 0x8d {
        c.a
    } else if op == 0x86 || op == 0x8e {
        c.x
    } else {
        c.y
    }
}

/// The conditional branches.
pub open spec fn spec_is_branch_op(op: u8) -> bool {
    op == 0x10 || op == 0x30 || op == 0x50 || op == 0x70 || op == 0x90 || op == 0xb0 || op == 0xd0
        || op == 0xf0
}

/// The flag condition each branch opcode tests.
pub open spec fn spec_branch_taken(p: u8, op: u8) -> bool {
    if op == 0x10 {
        p & FLAG_N == 0
    } else if op == 0x30 {
        p & FLAG_N != 0
    } else if op == 0x50 {
        p & FLAG_V == 0
    } else if op == 0x70 {
        p & FLAG_V != 0
    } else if op == 0x90 {
        p & FLAG_C == 0
    } else if op == 0xb0 {
        p & FLAG_C != 0
    } else if op == 0xd0 {
        p & FLAG_Z == 0
    } else {
        p & FLAG_Z != 0
    }
}

/// Where a branch lands: the next instruction plus the sign-extended
/// displacement.
pub open spec fn spec_branch_target(pc_next: u16, operand: u8) -> u16 {
    let disp: u16 = if operand & 0x80 == 0x80 {
        operand as u16 | 0xFF00
    } else {
        operand as u16
    };
    pc_next.wrapping_add(disp)
}

/// Opcodes that never redirect the program counter, so it simply advances
/// by the instruction's size.
pub open spec fn spec_is_straightline(op: u8) -> bool {
    spec_opcode_assigned(op) && !spec_is_branch_op(op) && op != 0x00 && op != 0x20 && op != 0x40
        && op != 0x4c && op != 0x60 && op != 0x6c
}

/// No interrupt will be serviced this step: the core is live and nothing
/// is pending that could preempt the fetch.
pub open spec fn spec_no_interrupt(c: Cpu6502) -> bool {
    !c.halted && !c.reset_pending && !c.nmi_pending && !(c.irq_pending && c.p & FLAG_I == 0)
}

/// The little-endian word two chained reads at `address` return.
pub open spec fn spec_read16_value<M: Memory>(m: M, address: u16) -> u16 {
    m.read_value(address) as u16 | (m.after_read(address).read_value(
        address.wrapping_add(1),
    ) as u16) << 8
}

/// The memory state after those two reads.
pub open spec fn spec_read16_after<M: Memory>(m: M, address: u16) -> M {
    m.after_read(address).after_read(address.wrapping_add(1))
}

/// A flat 64 KiB memory with no mapped hardware, for running the
/// processor on its own.
#[derive(Debug, Clone)]
pub struct Ram {
    pub mem: Vec<u8>,
}

impl Ram {
    /// A zero-filled 64 KiB space.
    pub fn new() -> (r: Ram)
        ensures
            r.inv(),
            r.mem@ == Seq::<u8>::new(0x10000, |i: int| 0u8),
    {
        let mut mem: Vec<u8> = Vec::new();
        let mut i: usize = 0;
        while i < 0x10000
            invariant
                i <= 0x10000,
                mem@ =~= Seq::<u8>::new(i as nat, |j: int| 0u8),
            decreases 0x10000 - i,
        {
            mem.push(0);
            i += 1;
            proof {
                assert(mem@ =~= Seq::<u8>::new(i as nat, |j: int| 0u8));
            }
        }
        Ram { mem }
    }
}

impl Memory for Ram {
    open spec fn inv(&self) -> bool {
        self.mem@.len() == 0x10000
    }

    open spec fn read_value(&self, address: u16) -> u8 {
        self.mem@[address as int]
    }

    open spec fn after_read(&self, address: u16) -> Ram {
        *self
    }

    open spec fn clocks(&self) -> (u64, int, u32) {
        (0u64, 0int, 0u32)
    }

    open spec fn write_effect(&self, address: u16, value: u8, post: &Ram) -> bool {
        post.mem@ == self.mem@.update(address as int, value)
    }

    fn read(&mut self, address: u16) -> (r: u8)
        ensures
            *final(self) == *old(self),
            r == old(self).mem@[address as int],
    {
        self.mem[address as usize]
    }

    fn write(&mut self, address: u16, value: u8)
        ensures
            final(self).mem@ == old(self).mem@.update(address as int, value),
    {
        self.mem[address as usize] = value;
    }
}

/// Processor state: the three registers, the flag byte, stack pointer,
/// program counter, the edge-latched interrupt requests, the halt latch,
/// and the cumulative cycle counter.
#[derive(Debug, Clone, Copy, PartialEq, Eq, Structural)]
pub struct Cpu6502 {
    pub a: u8,
    pub x: u8,
    pub y: u8,
    pub p: u8,
    pub sp: u8,
    pub pc: u16,
    pub reset_pending: bool,
    pub nmi_pending: bool,
    pub irq_pending: bool,
    pub halted: bool,
    pub cycles: u64,
}

/// The flag byte with `mask` forced on or off.
pub open spec fn spec_set_flag(p: u8, mask: u8, on: bool) -> u8 {
    if on {
        p | mask
    } else {
        p & !mask
    }
}

/// The flag byte after the zero and negative flags track `val`.
pub open spec fn spec_set_zn(p: u8, val: u8) -> u8 {
    spec_set_flag(spec_set_flag(p, FLAG_Z, val == 0), FLAG_N, val & 0x80 == 0x80)
}

/// The flag byte after a comparison of `a` against `b`.
pub open spec fn spec_compare(p: u8, a: u8, b: u8) -> u8 {
    spec_set_flag(spec_set_zn(p, a.wrapping_sub(b)), FLAG_C, a >= b)
}

impl Cpu6502 {
    /// Power-on state: everything clear, with a reset latched so the first
    /// call vectors through the reset handler.
    pub fn new() -> (r: Cpu6502)
        ensures
            r == (Cpu6502 {
                a: 0,
                x: 0,
                y: 0,
                p: 0,
                sp: 0,
                pc: 0,
                reset_pending: false,
                nmi_pending: false,
                irq_pending: false,
                halted: false,
                cycles: 0,
            }),
    {
        Cpu6502 {
            a: 0,
            x: 0,
            y: 0,
            p: 0,
            sp: 0,
            pc: 0,
            reset_pending: false,
            nmi_pending: false,
            irq_pending: false,
            halted: false,
            cycles: 0,
        }
    }

    /// Read a little-endian word.
    fn read16<M: Memory>(mem: &mut M, address: u16) -> (r: u16)
        requires
            old(mem).inv(),
        ensures
            final(mem).inv(),
            final(mem).clocks() == old(mem).clocks(),
            r == spec_read16_value(*old(mem), address),
            *final(mem) == spec_read16_after(*old(mem), address),
    {
        let lo = mem.read(address);
        let hi = mem.read(address.wrapping_add(1));
        lo as u16 | (hi as u16) << 8
    }

    /// Read a little-endian word with the hardware's page-wrap quirk: the
    /// high byte's address increments without carrying into the high
    /// address byte.
    fn read16bug<M: Memory>(mem: &mut M, address: u16) -> (r: u16)
        requires
            old(mem).inv(),
        ensures
            final(mem).inv(),
            final(mem).clocks() == old(mem).clocks(),
    {
        let lo = mem.read(address);
        let hi = mem.read((address & 0xFF00) | (address.wrapping_add(1) & 0x00FF));
        lo as u16 | (hi as u16) << 8
    }

    /// Push one byte; the stack lives in page one and the pointer wraps.
    fn push<M: Memory>(&mut self, mem: &mut M, value: u8)
        requires
            old(mem).inv(),
        ensures
            final(mem).inv(),
            final(mem).clocks() == old(mem).clocks(),
            *final(self) == (Cpu6502 { sp: old(self).sp.wrapping_sub(1), ..*old(self) }),
    {
        mem.write(0x100u16 | self.sp as u16, value);
        self.sp = self.sp.wrapping_sub(1);
    }

    fn push16<M: Memory>(&mut self, mem: &mut M, value: u16)
        requires
            old(mem).inv(),
        ensures
            final(mem).inv(),
            final(mem).clocks() == old(mem).clocks(),
            *final(self) == (Cpu6502 { sp: old(self).sp.wrapping_sub(2), ..*old(self) }),
    {
        self.push(mem, (value >> 8) as u8);
        self.push(mem, (value & 255) as u8);
    }

    fn pull<M: Memory>(&mut self, mem: &mut M) -> (r: u8)
        requires
            old(mem).inv(),
        ensures
            final(mem).inv(),
            final(mem).clocks() == old(mem).clocks(),
            *final(self) == (Cpu6502 { sp: old(self).sp.wrapping_add(1), ..*old(self) }),
    {
        self.sp = self.sp.wrapping_add(1);
        mem.read(0x100u16 | self.sp as u16)
    }

    fn pull16<M: Memory>(&mut self, mem: &mut M) -> (r: u16)
        requires
            old(mem).inv(),
        ensures
            final(mem).inv(),
            final(mem).clocks() == old(mem).clocks(),
            *final(self) == (Cpu6502 { sp: old(self).sp.wrapping_add(2), ..*old(self) }),
    {
        let lo = self.pull(mem);
        let hi = self.pull(mem);
        lo as u16 | (hi as u16) << 8
    }

    /// The extra cycles a page crossing costs: `vtrue` when `a` and `b`
    /// sit in different 256-byte pages, `vfalse` otherwise.
    pub fn pages_differ(a: u16, b: u16, vtrue: u8, vfalse: u8) -> (r: u64)
        ensures
            r == if a & 0xFF00 != b & 0xFF00 {
                vtrue as u64
            } else {
                vfalse as u64
            },
    {
        if (a & 0xFF00) != (b & 0xFF00) {
            vtrue as u64
        } else {
            vfalse as u64
        }
    }

    /// Take a conditional branch: one extra cycle when taken, one more
    /// when the target sits in another page.
    fn branch(&mut self, target: u16, cond: bool)
        requires
            old(self).cycles + 2 <= u64::MAX,
        ensures
            cond ==> *final(self) == (Cpu6502 {
                pc: target,
                cycles: (old(self).cycles + if old(self).pc & 0xFF00 != target & 0xFF00 {
                    2u64
                } else {
                    1u64
                }) as u64,
                ..*old(self)
            }),
            !cond ==> *final(self) == *old(self),
    {
        if cond {
            self.cycles = self.cycles + Cpu6502::pages_differ(self.pc, target, 2, 1);
            self.pc = target;
        }
    }

    /// Force the zero flag to track `val`.
    fn set_z(&mut self, val: u8)
        ensures
            *final(self) == (Cpu6502 {
                p: spec_set_flag(old(self).p, FLAG_Z, val == 0),
                ..*old(self)
            }),
    {
        if val == 0 {
            self.p = self.p | FLAG_Z;
        } else {
            self.p = self.p & !FLAG_Z;
        }
    }

    /// Force the negative flag to track bit 7 of `val`.
    fn set_n(&mut self, val: u8)
        ensures
            *final(self) == (Cpu6502 {
                p: spec_set_flag(old(self).p, FLAG_N, val & 0x80 == 0x80),
                ..*old(self)
            }),
    {
        if val & 0x80 == 0x80 {
            self.p = self.p | FLAG_N;
        } else {
            self.p = self.p & !FLAG_N;
        }
    }

    /// Force the carry flag.
    fn set_c(&mut self, val: bool)
        ensures
            *final(self) == (Cpu6502 { p: spec_set_flag(old(self).p, FLAG_C, val), ..*old(self) }),
    {
        if val {
            self.p = self.p | FLAG_C;
        } else {
            self.p = self.p & !FLAG_C;
        }
    }

    /// Force the overflow flag.
    fn set_v(&mut self, val: bool)
        ensures
            *final(self) == (Cpu6502 { p: spec_set_flag(old(self).p, FLAG_V, val), ..*old(self) }),
    {
        if val {
            self.p = self.p | FLAG_V;
        } else {
            self.p = self.p & !FLAG_V;
        }
    }

    /// Zero and negative together, as every load and arithmetic result
    /// sets them.
    fn set_zn(&mut self, val: u8)
        ensures
            *final(self) == (Cpu6502 { p: spec_set_zn(old(self).p, val), ..*old(self) }),
    {
        self.set_z(val);
        self.set_n(val);
    }

    /// Compare `a` against `b`: zero and negative from the difference,
    /// carry from the unsigned order.
    fn compare(&mut self, a: u8, b: u8)
        ensures
            *final(self) == (Cpu6502 { p: spec_compare(old(self).p, a, b), ..*old(self) }),
    {
        self.set_zn(a.wrapping_sub(b));
        self.set_c(a >= b);
    }

    pub fn get_pc(&self) -> (r: u16)
        ensures
            r == self.pc,
    {
        self.pc
    }

    pub fn get_cycles(&self) -> (r: u64)
        ensures
            r == self.cycles,
    {
        self.cycles
    }

    /// Latch a maskable interrupt request; it takes effect at the next
    /// `execute` call.
    pub fn signal_irq(&mut self)
        ensures
            *final(self) == (Cpu6502 { irq_pending: true, ..*old(self) }),
    {
        self.irq_pending = true;
    }

    /// Latch a non-maskable interrupt request; it takes effect at the next
    /// `execute` call.
    pub fn signal_nmi(&mut self)
        ensures
            *final(self) == (Cpu6502 { nmi_pending: true, ..*old(self) }),
    {
        self.nmi_pending = true;
    }

    /// Latch a reset request; it also releases a halted core.
    pub fn reset(&mut self)
        ensures
            *final(self) == (Cpu6502 { reset_pending: true, halted: false, ..*old(self) }),
    {
        self.reset_pending = true;
        self.halted = false;
    }

    /// Run one step: service at most one pending reset / non-maskable /
    /// maskable interrupt (in that priority, the maskable one only when
    /// the interrupt-disable flag is clear), each costing a fixed seven
    /// cycles; otherwise decode and execute one instruction.  Returns the
    /// cycles consumed.  A halted core does nothing and returns zero; an
    /// undecodable opcode halts it permanently.  Instruction semantics
    /// are pinned through the memory's `read_value`/`after_read`
    /// functions: the register-only, immediate and branch classes have
    /// their whole effect stated here.
    #[verifier::rlimit(100)]
    #[verifier::spinoff_prover]
    pub fn execute<M: Memory>(&mut self, mem: &mut M) -> (r: u32)
        requires
            old(self).cycles + 32 <= u64::MAX,
            old(mem).inv(),
        ensures
            final(mem).inv(),
            final(mem).clocks() == old(mem).clocks(),
            old(self).halted ==> *final(self) == *old(self) && r == 0,
            old(self).halted ==> *final(mem) == *old(mem),
            !old(self).halted && old(self).reset_pending ==> final(self).pc == spec_read16_value(
                *old(mem),
                0xFFFC,
            ) && *final(mem) == spec_read16_after(*old(mem), 0xFFFC),
            spec_no_interrupt(*old(self)) ==> {
                let op = old(mem).read_value(old(self).pc);
                let info = spec_instruction_info(op);
                let fetched = Cpu6502 {
                    pc: old(self).pc.wrapping_add(info.size as u16),
                    cycles: (old(self).cycles + info.cycles) as u64,
                    ..*old(self)
                };
                let m1 = old(mem).after_read(old(self).pc);
                &&& final(self).halted == !spec_opcode_assigned(op)
                &&& (spec_is_straightline(op) ==> final(self).pc == old(self).pc.wrapping_add(
                    info.size as u16,
                ))
                &&& (spec_is_register_op(op) ==> *final(self) == spec_register_op_step(fetched, op)
                    && *final(mem) == m1 && r == info.cycles)
                &&& (spec_is_immediate_op(op) ==> *final(self) == spec_immediate_op_step(
                    fetched,
                    op,
                    m1.read_value(old(self).pc.wrapping_add(1)),
                ) && *final(mem) == m1.after_read(old(self).pc.wrapping_add(1)) && r
                    == info.cycles)
                &&& (spec_is_branch_op(op) ==> {
                    let taken = spec_branch_taken(old(self).p, op);
                    let pcn = old(self).pc.wrapping_add(2);
                    let tgt = spec_branch_target(pcn, m1.read_value(old(self).pc.wrapping_add(1)));
                    &&& *final(mem) == m1.after_read(old(self).pc.wrapping_add(1))
                    &&& final(self).pc == if taken {
                        tgt
                    } else {
                        pcn
                    }
                    &&& r == 2 + if taken {
                        if pcn & 0xFF00 != tgt & 0xFF00 {
                            2int
                        } else {
                            1int
                        }
                    } else {
                        0int
                    }
                    &&& *final(self) == (Cpu6502 {
                        pc: final(self).pc,
                        cycles: (old(self).cycles + r) as u64,
                        ..*old(self)
                    })
                })
                &&& (spec_is_zeropage_alu_op(op) ==> {
                    let zp = m1.read_value(old(self).pc.wrapping_add(1));
                    let m2 = m1.after_read(old(self).pc.wrapping_add(1));
                    &&& *final(self) == spec_immediate_op_step(
                        fetched,
                        spec_alu_immediate_twin(op),
                        m2.read_value(zp as u16),
                    )
                    &&& *final(mem) == m2.after_read(zp as u16)
                    &&& r == info.cycles
                })
                &&& (spec_is_absolute_alu_op(op) ==> {
                    let addr = spec_read16_value(m1, old(self).pc.wrapping_add(1));
                    let m2 = spec_read16_after(m1, old(self).pc.wrapping_add(1));
                    &&& *final(self) == spec_immediate_op_step(
                        fetched,
                        spec_alu_immediate_twin(op),
                        m2.read_value(addr),
                    )
                    &&& *final(mem) == m2.after_read(addr)
                    &&& r == info.cycles
                })
                &&& (spec_is_zeropage_store_op(op) ==> {
                    let zp = m1.read_value(old(self).pc.wrapping_add(1));
                    let m2 = m1.after_read(old(self).pc.wrapping_add(1));
                    &&& *final(self) == fetched
                    &&& m2.write_effect(zp as u16, spec_store_value(*old(self), op), final(mem))
                    &&& r == info.cycles
                })
                &&& (op == 0x4c ==> {
                    &&& final(self).pc == spec_read16_value(m1, old(self).pc.wrapping_add(1))
                    &&& *final(mem) == spec_read16_after(m1, old(self).pc.wrapping_add(1))
                    &&& *final(self) == (Cpu6502 {
                        pc: final(self).pc,
                        cycles: (old(self).cycles + 3) as u64,
                        ..*old(self)
                    })
                    &&& r == 3
                })
                &&& (spec_is_absolute_store_op(op) ==> {
                    let addr = spec_read16_value(m1, old(self).pc.wrapping_add(1));
                    let m2 = spec_read16_after(m1, old(self).pc.wrapping_add(1));
                    &&& *final(self) == fetched
                    &&& m2.write_effect(addr, spec_store_value(*old(self), op), final(mem))
                    &&& r == info.cycles
                })
            },
            !old(self).halted ==> r == final(self).cycles - old(self).cycles && 1 <= r <= 16,
            !old(self).halted && old(self).reset_pending ==> {
                &&& !final(self).reset_pending
                &&& !final(self).halted
                &&& final(self).a == 0 && final(self).x == 0 && final(self).y == 0
                &&& final(self).sp == 0xFD
                &&& final(self).p == (FLAG_U | FLAG_B | FLAG_I)
                &&& final(self).nmi_pending == old(self).nmi_pending
                &&& final(self).irq_pending == old(self).irq_pending
                &&& r == 7
            },
            !old(self).halted && !old(self).reset_pending && old(self).nmi_pending ==> {
                &&& !final(self).nmi_pending
                &&& final(self).p == (old(self).p | FLAG_I)
                &&& final(self).a == old(self).a && final(self).x == old(self).x && final(self).y
                    == old(self).y
                &&& final(self).sp == old(self).sp.wrapping_sub(3)
                &&& final(self).irq_pending == old(self).irq_pending
                &&& !final(self).halted
                &&& r == 7
                &&& exists|m1: M, m2: M, m3: M|
                    {
                        &&& #[trigger] old(mem).write_effect(
                            0x100u16 | (old(self).sp as u16),
                            (old(self).pc >> 8) as u8,
                            &m1,
                        )
                        &&& #[trigger] m1.write_effect(
                            0x100u16 | (old(self).sp.wrapping_sub(1) as u16),
                            (old(self).pc & 0xFF) as u8,
                            &m2,
                        )
                        &&& #[trigger] m2.write_effect(
                            0x100u16 | (old(self).sp.wrapping_sub(2) as u16),
                            old(self).p | FLAG_B,
                            &m3,
                        )
                        &&& final(self).pc == spec_read16_value(m3, 0xFFFA)
                        &&& *final(mem) == spec_read16_after(m3, 0xFFFA)
                    }
            },
            !old(self).halted && !old(self).reset_pending && !old(self).nmi_pending && old(
                self,
            ).irq_pending && old(self).p & FLAG_I == 0 ==> {
                &&& !final(self).irq_pending
                &&& final(self).p == (old(self).p | FLAG_I)
                &&& final(self).a == old(self).a && final(self).x == old(self).x && final(self).y
                    == old(self).y
                &&& final(self).sp == old(self).sp.wrapping_sub(3)
                &&& !final(self).halted
                &&& r == 7
                &&& exists|m1: M, m2: M, m3: M|
                    {
                        &&& #[trigger] old(mem).write_effect(
                            0x100u16 | (old(self).sp as u16),
                            (old(self).pc >> 8) as u8,
                            &m1,
                        )
                        &&& #[trigger] m1.write_effect(
                            0x100u16 | (old(self).sp.wrapping_sub(1) as u16),
                            (old(self).pc & 0xFF) as u8,
                            &m2,
                        )
                        &&& #[trigger] m2.write_effect(
                            0x100u16 | (old(self).sp.wrapping_sub(2) as u16),
                            old(self).p | FLAG_B,
                            &m3,
                        )
                        &&& final(self).pc == spec_read16_value(m3, 0xFFFE)
                        &&& *final(mem) == spec_read16_after(m3, 0xFFFE)
                    }
            },
    {
        if self.halted {
            return 0;
        }
        let c = self.cycles;

        if self.reset_pending {
            self.reset_pending = false;
            self.p = FLAG_U | FLAG_B | FLAG_I;
            self.sp = 0xFD;
            self.a = 0;
            self.x = 0;
            self.y = 0;
            self.pc = Cpu6502::read16(mem, 0xFFFCu16);
            self.cycles = self.cycles + 7;
            return 7;
        } else if self.nmi_pending {
            self.nmi_pending = false;
            let pc = self.pc;
            let p = self.p;
            mem.write(0x100u16 | self.sp as u16, (pc >> 8) as u8);
            let ghost m1 = *mem;
            self.sp = self.sp.wrapping_sub(1);
            mem.write(0x100u16 | self.sp as u16, (pc & 0xFF) as u8);
            let ghost m2 = *mem;
            self.sp = self.sp.wrapping_sub(1);
            mem.write(0x100u16 | self.sp as u16, p | FLAG_B);
            let ghost m3 = *mem;
            self.sp = self.sp.wrapping_sub(1);
            self.p = self.p | FLAG_I;
            self.pc = Cpu6502::read16(mem, 0xFFFAu16);
            self.cycles = self.cycles + 7;
            proof {
                assert(old(mem).write_effect(
                    0x100u16 | (old(self).sp as u16),
                    (old(self).pc >> 8) as u8,
                    &m1,
                ));
                assert(m1.write_effect(
                    0x100u16 | (old(self).sp.wrapping_sub(1) as u16),
                    (old(self).pc & 0xFF) as u8,
                    &m2,
                ));
                assert(m2.write_effect(
                    0x100u16 | (old(self).sp.wrapping_sub(2) as u16),
                    old(self).p | FLAG_B,
                    &m3,
                ));
                assert(self.pc == spec_read16_value(m3, 0xFFFAu16));
                assert(*mem == spec_read16_after(m3, 0xFFFAu16));
            }
            return 7;
        } else if self.irq_pending && self.p & FLAG_I == 0 {
            self.irq_pending = false;
            let pc = self.pc;
            let p = self.p;
            mem.write(0x100u16 | self.sp as u16, (pc >> 8) as u8);
            let ghost m1 = *mem;
            self.sp = self.sp.wrapping_sub(1);
            mem.write(0x100u16 | self.sp as u16, (pc & 0xFF) as u8);
            let ghost m2 = *mem;
            self.sp = self.sp.wrapping_sub(1);
            mem.write(0x100u16 | self.sp as u16, p | FLAG_B);
            let ghost m3 = *mem;
            self.sp = self.sp.wrapping_sub(1);
            self.p = self.p | FLAG_I;
            self.pc = Cpu6502::read16(mem, 0xFFFEu16);
            self.cycles = self.cycles + 7;
            proof {
                assert(old(mem).write_effect(
                    0x100u16 | (old(self).sp as u16),
                    (old(self).pc >> 8) as u8,
                    &m1,
                ));
                assert(m1.write_effect(
                    0x100u16 | (old(self).sp.wrapping_sub(1) as u16),
                    (old(self).pc & 0xFF) as u8,
                    &m2,
                ));
                assert(m2.write_effect(
                    0x100u16 | (old(self).sp.wrapping_sub(2) as u16),
                    old(self).p | FLAG_B,
                    &m3,
                ));
                assert(self.pc == spec_read16_value(m3, 0xFFFEu16));
                assert(*mem == spec_read16_after(m3, 0xFFFEu16));
            }
            return 7;
        }

        // Read the opcode, then derive the operand address, next program
        // counter and base cycle cost from the decode table.
        let iaddr = self.pc;
        let opcode = mem.read(iaddr);
        let info = instruction_info(opcode);
        let pc1 = self.pc.wrapping_add(1);
        self.pc = self.pc.wrapping_add(info.size as u16);
        self.cycles = self.cycles + info.cycles as u64;
        let opaddr: u16 = match info.mode {
            AddressingMode::Absolute => Cpu6502::read16(mem, pc1),
            AddressingMode::AbsoluteX => {
                let addr = Cpu6502::read16(mem, pc1);
                let newaddr = addr.wrapping_add(self.x as u16);
                self.cycles = self.cycles + Cpu6502::pages_differ(addr, newaddr, info.page, 0);
                newaddr
            },
            AddressingMode::AbsoluteY => {
                let addr = Cpu6502::read16(mem, pc1);
                let newaddr = addr.wrapping_add(self.y as u16);
                self.cycles = self.cycles + Cpu6502::pages_differ(addr, newaddr, info.page, 0);
                newaddr
            },
            AddressingMode::IndexedIndirect => {
                let operand = mem.read(pc1);
                Cpu6502::read16(mem, operand.wrapping_add(self.x) as u16)
            },
            AddressingMode::Indirect => {
                let operand = Cpu6502::read16(mem, pc1);
                Cpu6502::read16bug(mem, operand)
            },
            AddressingMode::IndirectIndexed => {
                let operand = mem.read(pc1);
                let addr = Cpu6502::read16(mem, operand as u16);
                let newaddr = addr.wrapping_add(self.y as u16);
                self.cycles = self.cycles + Cpu6502::pages_differ(addr, newaddr, info.page, 0);
                newaddr
            },
            AddressingMode::ZeroPage => mem.read(pc1) as u16,
            AddressingMode::ZeroPageX => (mem.read(pc1).wrapping_add(self.x)) as u16,
            AddressingMode::ZeroPageY => (mem.read(pc1).wrapping_add(self.y)) as u16,
            AddressingMode::Immediate => pc1,
            AddressingMode::Accumulator => 0,
            AddressingMode::Implied => 0,
            AddressingMode::Relative => {
                let mut disp = mem.read(pc1) as u16;
                if disp & 0x80 == 0x80 {
                    disp = disp | 0xFF00;
                }
                self.pc.wrapping_add(disp)
            },
        };

        match opcode {
            // BRK
            0x00 => {
                let pc = self.pc.wrapping_add(1);
                self.push16(mem, pc);
                let p = self.p;
                self.push(mem, p | FLAG_B);
                self.p = self.p | FLAG_I;
                self.pc = Cpu6502::read16(mem, 0xFFFEu16);
            },
            // ORA
            0x01 | 0x05 | 0x09 | 0x0d | 0x11 | 0x15 | 0x19 | 0x1d => {
                self.a = self.a | mem.read(opaddr);
                let a = self.a;
                self.set_zn(a);
            },
            // ASL memory
            0x06 | 0x0e | 0x16 | 0x1e => {
                let val = mem.read(opaddr);
                self.set_c(val & 0x80 != 0);
                self.set_zn(val << 1);
                mem.write(opaddr, val << 1);
            },
            // ASL A
            0x0a => {
                let a = self.a;
                self.set_c(a & 0x80 != 0);
                self.a = a << 1;
                let a = self.a;
                self.set_zn(a);
            },
            // PHP
            0x08 => {
                let p = self.p;
                self.push(mem, p | FLAG_B);
            },
            // BPL
            0x10 => {
                let cond = self.p & FLAG_N == 0;
                self.branch(opaddr, cond);
            },
            // CLC
            0x18 => {
                self.p = self.p & !FLAG_C;
            },
            // JSR
            0x20 => {
                let pc = self.pc.wrapping_sub(1);
                self.push16(mem, pc);
                self.pc = opaddr;
            },
            // AND
            0x21 | 0x25 | 0x29 | 0x2d | 0x31 | 0x35 | 0x39 | 0x3d => {
                self.a = self.a & mem.read(opaddr);
                let a = self.a;
                self.set_zn(a);
            },
            // BIT
            0x24 | 0x2c => {
                let val = mem.read(opaddr);
                self.set_v(val & 0x40 == 0x40);
                let a = self.a;
                self.set_z(val & a);
                self.set_n(val);
            },
            // ROL memory
            0x26 | 0x2e | 0x36 | 0x3e => {
                let r = mem.read(opaddr) as u16;
                let carry: u16 = if self.p & FLAG_C != 0 {
                    1
                } else {
                    0
                };
                let r = (r << 1) | carry;
                self.set_c(r >= 0x100);
                self.set_zn(#[verifier::truncate] (r as u8));
                mem.write(opaddr, #[verifier::truncate] (r as u8));
            },
            // PLP
            0x28 => {
                let v = self.pull(mem);
                self.p = (v & 0xEF) | 0x20;
            },
            // ROL A
            0x2a => {
                let r = self.a as u16;
                let carry: u16 = if self.p & FLAG_C != 0 {
                    1
                } else {
                    0
                };
                let r = (r << 1) | carry;
                self.set_c(r >= 0x100);
                self.set_zn(#[verifier::truncate] (r as u8));
                self.a = #[verifier::truncate] (r as u8);
            },
            // BMI
            0x30 => {
                let cond = self.p & FLAG_N != 0;
                self.branch(opaddr, cond);
            },
            // SEC
            0x38 => {
                self.p = self.p | FLAG_C;
            },
            // RTI
            0x40 => {
                let v = self.pull(mem);
                self.p = (v & 0xEF) | 0x20;
                self.pc = self.pull16(mem);
            },
            // EOR
            0x41 | 0x45 | 0x49 | 0x4d | 0x51 | 0x55 | 0x59 | 0x5d => {
                self.a = self.a ^ mem.read(opaddr);
                let a = self.a;
                self.set_zn(a);
            },
            // LSR memory
            0x46 | 0x4e | 0x56 | 0x5e => {
                let val = mem.read(opaddr);
                self.set_c(val & 0x01 != 0);
                self.set_zn(val >> 1);
                mem.write(opaddr, val >> 1);
            },
            // PHA
            0x48 => {
                let a = self.a;
                self.push(mem, a);
            },
            // BVC
            0x50 => {
                let cond = self.p & FLAG_V == 0;
                self.branch(opaddr, cond);
            },
            // JMP absolute and indirect
            0x4c | 0x6c => {
                self.pc = opaddr;
            },
            // LSR A
            0x4a => {
                let a = self.a;
                self.set_c(a & 0x01 != 0);
                self.a = a >> 1;
                let a = self.a;
                self.set_zn(a);
            },
            // CLI
            0x58 => {
                self.p = self.p & !FLAG_I;
            },
            // RTS
            0x60 => {
                self.pc = self.pull16(mem).wrapping_add(1);
            },
            // ADC
            0x61 | 0x65 | 0x69 | 0x6d | 0x71 | 0x75 | 0x79 | 0x7d => {
                let a = self.a;
                let b = mem.read(opaddr);
                let carry: u16 = if self.p & FLAG_C != 0 {
                    1
                } else {
                    0
                };
                let r = (a as u16) + (b as u16) + carry;
                self.a = #[verifier::truncate] (r as u8);
                self.set_c(r >= 0x100);
                let na = self.a;
                self.set_v((a ^ b) & 0x80 == 0 && (a ^ na) & 0x80 != 0);
                self.set_zn(na);
            },
            // ROR memory
            0x66 | 0x6e | 0x76 | 0x7e => {
                let val = mem.read(opaddr);
                let carry: u8 = if self.p & FLAG_C != 0 {
                    1
                } else {
                    0
                };
                let a = (val >> 1) | (carry << 7);
                self.set_c(val & 0x01 != 0);
                self.set_zn(a);
                mem.write(opaddr, a);
            },
            // PLA
            0x68 => {
                self.a = self.pull(mem);
                let a = self.a;
                self.set_zn(a);
            },
            // ROR A
            0x6a => {
                let val = self.a;
                let carry: u8 = if self.p & FLAG_C != 0 {
                    1
                } else {
                    0
                };
                self.a = (val >> 1) | (carry << 7);
                self.set_c(val & 0x01 != 0);
                let a = self.a;
                self.set_zn(a);
            },
            // BVS
            0x70 => {
                let cond = self.p & FLAG_V != 0;
                self.branch(opaddr, cond);
            },
            // SEI
            0x78 => {
                self.p = self.p | FLAG_I;
            },
            // STA
            0x81 | 0x85 | 0x8d | 0x91 | 0x95 | 0x99 | 0x9d => {
                mem.write(opaddr, self.a);
            },
            // STY
            0x84 | 0x8c | 0x94 => {
                mem.write(opaddr, self.y);
            },
            // STX
            0x86 | 0x8e | 0x96 => {
                mem.write(opaddr, self.x);
            },
            // DEY
            0x88 => {
                self.y = self.y.wrapping_sub(1);
                let y = self.y;
                self.set_zn(y);
            },
            // TXA
            0x8a => {
                self.a = self.x;
                let a = self.a;
                self.set_zn(a);
            },
            // BCC
            0x90 => {
                let cond = self.p & FLAG_C == 0;
                self.branch(opaddr, cond);
            },
            // TYA
            0x98 => {
                self.a = self.y;
                let a = self.a;
                self.set_zn(a);
            },
            // TXS
            0x9a => {
                self.sp = self.x;
            },
            // LDY
            0xa0 | 0xa4 | 0xac | 0xb4 | 0xbc => {
                self.y = mem.read(opaddr);
                let y = self.y;
                self.set_zn(y);
            },
            // LDX
            0xa2 | 0xa6 | 0xae | 0xb6 | 0xbe => {
                self.x = mem.read(opaddr);
                let x = self.x;
                self.set_zn(x);
            },
            // LDA
            0xa1 | 0xa5 | 0xa9 | 0xad | 0xb1 | 0xb5 | 0xb9 | 0xbd => {
                self.a = mem.read(opaddr);
                let a = self.a;
                self.set_zn(a);
            },
            // TAY
            0xa8 => {
                self.y = self.a;
                let y = self.y;
                self.set_zn(y);
            },
            // TAX
            0xaa => {
                self.x = self.a;
                let x = self.x;
                self.set_zn(x);
            },
            // BCS
            0xb0 => {
                let cond = self.p & FLAG_C != 0;
                self.branch(opaddr, cond);
            },
            // CLV
            0xb8 => {
                self.p = self.p & !FLAG_V;
            },
            // TSX
            0xba => {
                self.x = self.sp;
                let x = self.x;
                self.set_zn(x);
            },
            // CPY
            0xc0 | 0xc4 | 0xcc => {
                let y = self.y;
                let b = mem.read(opaddr);
                self.compare(y, b);
            },
            // CMP
            0xc1 | 0xc5 | 0xc9 | 0xcd | 0xd1 | 0xd5 | 0xd9 | 0xdd => {
                let a = self.a;
                let b = mem.read(opaddr);
                self.compare(a, b);
            },
            // DEC
            0xc6 | 0xce | 0xd6 | 0xde => {
                let val = mem.read(opaddr).wrapping_sub(1);
                mem.write(opaddr, val);
                self.set_zn(val);
            },
            // INY
            0xc8 => {
                self.y = self.y.wrapping_add(1);
                let y = self.y;
                self.set_zn(y);
            },
            // DEX
            0xca => {
                self.x = self.x.wrapping_sub(1);
                let x = self.x;
                self.set_zn(x);
            },
            // BNE
            0xd0 => {
                let cond = self.p & FLAG_Z == 0;
                self.branch(opaddr, cond);
            },
            // CLD
            0xd8 => {
                self.p = self.p & !FLAG_D;
            },
            // CPX
            0xe0 | 0xe4 | 0xec => {
                let x = self.x;
                let b = mem.read(opaddr);
                self.compare(x, b);
            },
            // SBC
            0xe1 | 0xe5 | 0xe9 | 0xed | 0xf1 | 0xf5 | 0xf9 | 0xfd => {
                let a = self.a;
                let b = mem.read(opaddr);
                let ncarry: i16 = if self.p & FLAG_C != 0 {
                    0
                } else {
                    1
                };
                let r = (a as i16) - (b as i16) - ncarry;
                self.a = #[verifier::truncate] (r as u8);
                self.set_c(r >= 0);
                let na = self.a;
                self.set_v((a ^ b) & 0x80 != 0 && (a ^ na) & 0x80 != 0);
                self.set_zn(na);
            },
            // INC
            0xe6 | 0xee | 0xf6 | 0xfe => {
                let val = mem.read(opaddr).wrapping_add(1);
                mem.write(opaddr, val);
                self.set_zn(val);
            },
            // INX
            0xe8 => {
                self.x = self.x.wrapping_add(1);
                let x = self.x;
                self.set_zn(x);
            },
            // NOP
            0xea => {},
            // BEQ
            0xf0 => {
                let cond = self.p & FLAG_Z != 0;
                self.branch(opaddr, cond);
            },
            // SED
            0xf8 => {
                self.p = self.p | FLAG_D;
            },
            _ => {
                // Undecodable opcode: a modeled hardware lock-up.
                self.halted = true;
            },
        }

        (self.cycles - c) as u32
    }
}

} // verus!
