//! Decode data for the instruction set: size, base cycle count,
//! page-crossing penalty and addressing mode of every opcode.

use vstd::prelude::*;

verus! {

/// The thirteen ways an instruction names its operand.
#[derive(Debug, Clone, Copy, PartialEq, Eq, Structural)]
pub enum AddressingMode {
    Absolute,
    AbsoluteX,
    AbsoluteY,
    Accumulator,
    Immediate,
    Implied,
    IndexedIndirect,
    Indirect,
    IndirectIndexed,
    Relative,
    ZeroPage,
    ZeroPageX,
    ZeroPageY,
}

/// Decode data for one opcode: instruction length in bytes, base cycle
/// count, the extra cycle a page crossing costs, and the addressing mode.
#[derive(Debug, Clone, Copy, PartialEq, Eq, Structural)]
pub struct InstructionInfo {
    pub size: u8,
    pub cycles: u8,
    pub page: u8,
    pub mode: AddressingMode,
}

/// The decode table as a spec-level function.
pub open spec fn spec_instruction_info(opcode: u8) -> InstructionInfo {
    if opcode == 0x00 {
        InstructionInfo { size: 1, cycles: 7, page: 0, mode: AddressingMode::Implied }
    } else
    if opcode == 0x01 || opcode == 0x21 || opcode == 0x41 || opcode == 0x61 || opcode == 0x81 || opcode == 0xa1 || opcode == 0xc1 || opcode == 0xe1 {
        InstructionInfo { size: 2, cycles: 6, page: 0, mode: AddressingMode::IndexedIndirect }
    } else
    if opcode == 0x02 || opcode == 0x12 || opcode == 0x22 || opcode == 0x32 || opcode == 0x42 || opcode == 0x52 || opcode == 0x62 || opcode == 0x72 || opcode == 0x92 || opcode == 0xb2 || opcode == 0xd2 || opcode == 0xf2 {
        InstructionInfo { size: 0, cycles: 2, page: 0, mode: AddressingMode::Implied }
    } else
    if opcode == 0x03 || opcode == 0x23 || opcode == 0x43 || opcode == 0x63 || opcode == 0xc3 || opcode == 0xe3 {
        InstructionInfo { size: 0, cycles: 8, page: 0, mode: AddressingMode::IndexedIndirect }
    } else
    if opcode == 0x04 || opcode == 0x05 || opcode == 0x24 || opcode == 0x25 || opcode == 0x44 || opcode == 0x45 || opcode == 0x64 || opcode == 0x65 || opcode == 0x84 || opcode == 0x85 || opcode == 0x86 || opcode == 0xa4 || opcode == 0xa5 || opcode == 0xa6 || opcode == 0xc4 || opcode == 0xc5 || opcode == 0xe4 || opcode == 0xe5 {
        InstructionInfo { size: 2, cycles: 3, page: 0, mode: AddressingMode::ZeroPage }
    } else
    if opcode == 0x06 || opcode == 0x26 || opcode == 0x46 || opcode == 0x66 || opcode == 0xc6 || opcode == 0xe6 {
        InstructionInfo { size: 2, cycles: 5, page: 0, mode: AddressingMode::ZeroPage }
    } else
    if opcode == 0x07 || opcode == 0x27 || opcode == 0x47 || opcode == 0x67 || opcode == 0xc7 || opcode == 0xe7 {
        InstructionInfo { size: 0, cycles: 5, page: 0, mode: AddressingMode::ZeroPage }
    } else
    if opcode == 0x08 || opcode == 0x48 {
        InstructionInfo { size: 1, cycles: 3, page: 0, mode: AddressingMode::Implied }
    } else
    if opcode == 0x09 || opcode == 0x29 || opcode == 0x49 || opcode == 0x69 || opcode == 0x80 || opcode == 0xa0 || opcode == 0xa2 || opcode == 0xa9 || opcode == 0xc0 || opcode == 0xc9 || opcode == 0xe0 || opcode == 0xe9 {
        InstructionInfo { size: 2, cycles: 2, page: 0, mode: AddressingMode::Immediate }
    } else
    if opcode == 0x0a || opcode == 0x2a || opcode == 0x4a || opcode == 0x6a {
        InstructionInfo { size: 1, cycles: 2, page: 0, mode: AddressingMode::Accumulator }
    } else
    if opcode == 0x0b || opcode == 0x2b || opcode == 0x4b || opcode == 0x6b || opcode == 0x82 || opcode == 0x89 || opcode == 0x8b || opcode == 0xab || opcode == 0xc2 || opcode == 0xcb || opcode == 0xe2 || opcode == 0xeb {
        InstructionInfo { size: 0, cycles: 2, page: 0, mode: AddressingMode::Immediate }
    } else
    if opcode == 0x0c || opcode == 0x0d || opcode == 0x2c || opcode == 0x2d || opcode == 0x4d || opcode == 0x6d || opcode == 0x8c || opcode == 0x8d || opcode == 0x8e || opcode == 0xac || opcode == 0xad || opcode == 0xae || opcode == 0xcc || opcode == 0xcd || opcode == 0xec || opcode == 0xed {
        InstructionInfo { size: 3, cycles: 4, page: 0, mode: AddressingMode::Absolute }
    } else
    if opcode == 0x0e || opcode == 0x20 || opcode == 0x2e || opcode == 0x4e || opcode == 0x6e || opcode == 0xce || opcode == 0xee {
        InstructionInfo { size: 3, cycles: 6, page: 0, mode: AddressingMode::Absolute }
    } else
    if opcode == 0x0f || opcode == 0x2f || opcode == 0x4f || opcode == 0x6f || opcode == 0xcf || opcode == 0xef {
        InstructionInfo { size: 0, cycles: 6, page: 0, mode: AddressingMode::Absolute }
    } else
    if opcode == 0x10 || opcode == 0x30 || opcode == 0x50 || opcode == 0x70 || opcode == 0x90 || opcode == 0xb0 || opcode == 0xd0 || opcode == 0xf0 {
        InstructionInfo { size: 2, cycles: 2, page: 1, mode: AddressingMode::Relative }
    } else
    if opcode == 0x11 || opcode == 0x31 || opcode == 0x51 || opcode == 0x71 || opcode == 0xb1 || opcode == 0xd1 || opcode == 0xf1 {
        InstructionInfo { size: 2, cycles: 5, page: 1, mode: AddressingMode::IndirectIndexed }
    } else
    if opcode == 0x13 || opcode == 0x33 || opcode == 0x53 || opcode == 0x73 || opcode == 0xd3 || opcode == 0xf3 {
        InstructionInfo { size: 0, cycles: 8, page: 0, mode: AddressingMode::IndirectIndexed }
    } else
    if opcode == 0x14 || opcode == 0x15 || opcode == 0x34 || opcode == 0x35 || opcode == 0x54 || opcode == 0x55 || opcode == 0x74 || opcode == 0x75 || opcode == 0x94 || opcode == 0x95 || opcode == 0xb4 || opcode == 0xb5 || opcode == 0xd4 || opcode == 0xd5 || opcode == 0xf4 || opcode == 0xf5 {
        InstructionInfo { size: 2, cycles: 4, page: 0, mode: AddressingMode::ZeroPageX }
    } else
    if opcode == 0x16 || opcode == 0x36 || opcode == 0x56 || opcode == 0x76 || opcode == 0xd6 || opcode == 0xf6 {
        InstructionInfo { size: 2, cycles: 6, page: 0, mode: AddressingMode::ZeroPageX }
    } else
    if opcode == 0x17 || opcode == 0x37 || opcode == 0x57 || opcode == 0x77 || opcode == 0xd7 || opcode == 0xf7 {
        InstructionInfo { size: 0, cycles: 6, page: 0, mode: AddressingMode::ZeroPageX }
    } else
    if opcode == 0x19 || opcode == 0x39 || opcode == 0x59 || opcode == 0x79 || opcode == 0xb9 || opcode == 0xbe || opcode == 0xd9 || opcode == 0xf9 {
        InstructionInfo { size: 3, cycles: 4, page: 1, mode: AddressingMode::AbsoluteY }
    } else
    if opcode == 0x1b || opcode == 0x3b || opcode == 0x5b || opcode == 0x7b || opcode == 0xdb || opcode == 0xfb {
        InstructionInfo { size: 0, cycles: 7, page: 0, mode: AddressingMode::AbsoluteY }
    } else
    if opcode == 0x1c || opcode == 0x1d || opcode == 0x3c || opcode == 0x3d || opcode == 0x5c || opcode == 0x5d || opcode == 0x7c || opcode == 0x7d || opcode == 0xbc || opcode == 0xbd || opcode == 0xdc || opcode == 0xdd || opcode == 0xfc || opcode == 0xfd {
        InstructionInfo { size: 3, cycles: 4, page: 1, mode: AddressingMode::AbsoluteX }
    } else
    if opcode == 0x1e || opcode == 0x3e || opcode == 0x5e || opcode == 0x7e || opcode == 0xde || opcode == 0xfe {
        InstructionInfo { size: 3, cycles: 7, page: 0, mode: AddressingMode::AbsoluteX }
    } else
    if opcode == 0x1f || opcode == 0x3f || opcode == 0x5f || opcode == 0x7f || opcode == 0xdf || opcode == 0xff {
        InstructionInfo { size: 0, cycles: 7, page: 0, mode: AddressingMode::AbsoluteX }
    } else
    if opcode == 0x28 || opcode == 0x68 {
        InstructionInfo { size: 1, cycles: 4, page: 0, mode: AddressingMode::Implied }
    } else
    if opcode == 0x40 || opcode == 0x60 {
        InstructionInfo { size: 1, cycles: 6, page: 0, mode: AddressingMode::Implied }
    } else
    if opcode == 0x4c {
        InstructionInfo { size: 3, cycles: 3, page: 0, mode: AddressingMode::Absolute }
    } else
    if opcode == 0x6c {
        InstructionInfo { size: 3, cycles: 5, page: 0, mode: AddressingMode::Indirect }
    } else
    if opcode == 0x83 || opcode == 0xa3 {
        InstructionInfo { size: 0, cycles: 6, page: 0, mode: AddressingMode::IndexedIndirect }
    } else
    if opcode == 0x87 || opcode == 0xa7 {
        InstructionInfo { size: 0, cycles: 3, page: 0, mode: AddressingMode::ZeroPage }
    } else
    if opcode == 0x8f || opcode == 0xaf {
        InstructionInfo { size: 0, cycles: 4, page: 0, mode: AddressingMode::Absolute }
    } else
    if opcode == 0x91 {
        InstructionInfo { size: 2, cycles: 6, page: 0, mode: AddressingMode::IndirectIndexed }
    } else
    if opcode == 0x93 {
        InstructionInfo { size: 0, cycles: 6, page: 0, mode: AddressingMode::IndirectIndexed }
    } else
    if opcode == 0x96 || opcode == 0xb6 {
        InstructionInfo { size: 2, cycles: 4, page: 0, mode: AddressingMode::ZeroPageY }
    } else
    if opcode == 0x97 || opcode == 0xb7 {
        InstructionInfo { size: 0, cycles: 4, page: 0, mode: AddressingMode::ZeroPageY }
    } else
    if opcode == 0x99 {
        InstructionInfo { size: 3, cycles: 5, page: 0, mode: AddressingMode::AbsoluteY }
    } else
    if opcode == 0x9b || opcode == 0x9e || opcode == 0x9f {
        InstructionInfo { size: 0, cycles: 5, page: 0, mode: AddressingMode::AbsoluteY }
    } else
    if opcode == 0x9c {
        InstructionInfo { size: 0, cycles: 5, page: 0, mode: AddressingMode::AbsoluteX }
    } else
    if opcode == 0x9d {
        InstructionInfo { size: 3, cycles: 5, page: 0, mode: AddressingMode::AbsoluteX }
    } else
    if opcode == 0xb3 {
        InstructionInfo { size: 0, cycles: 5, page: 1, mode: AddressingMode::IndirectIndexed }
    } else
    if opcode == 0xbb || opcode == 0xbf {
        InstructionInfo { size: 0, cycles: 4, page: 1, mode: AddressingMode::AbsoluteY }
    } else {
        InstructionInfo { size: 1, cycles: 2, page: 0, mode: AddressingMode::Implied }
    }
}


/// The decode table, one entry per opcode.  Unassigned opcodes carry the
/// timing the hardware exhibits before the core halts on them.
pub fn instruction_info(opcode: u8) -> (r: InstructionInfo)
    ensures
        r == spec_instruction_info(opcode),
        2 <= r.cycles <= 8,
        r.size <= 3,
        r.page <= 1,
{
    match opcode {
        0x00 => InstructionInfo { size: 1, cycles: 7, page: 0, mode: AddressingMode::Implied },
        0x01 | 0x21 | 0x41 | 0x61 | 0x81 | 0xa1 | 0xc1 | 0xe1 => InstructionInfo { size: 2, cycles: 6, page: 0, mode: AddressingMode::IndexedIndirect },
        0x02 | 0x12 | 0x22 | 0x32 | 0x42 | 0x52 | 0x62 | 0x72 | 0x92 | 0xb2 | 0xd2 | 0xf2 => InstructionInfo { size: 0, cycles: 2, page: 0, mode: AddressingMode::Implied },
        0x03 | 0x23 | 0x43 | 0x63 | 0xc3 | 0xe3 => InstructionInfo { size: 0, cycles: 8, page: 0, mode: AddressingMode::IndexedIndirect },
        0x04 | 0x05 | 0x24 | 0x25 | 0x44 | 0x45 | 0x64 | 0x65 | 0x84 | 0x85 | 0x86 | 0xa4 | 0xa5 | 0xa6 | 0xc4 | 0xc5 | 0xe4 | 0xe5 => InstructionInfo { size: 2, cycles: 3, page: 0, mode: AddressingMode::ZeroPage },
        0x06 | 0x26 | 0x46 | 0x66 | 0xc6 | 0xe6 => InstructionInfo { size: 2, cycles: 5, page: 0, mode: AddressingMode::ZeroPage },
        0x07 | 0x27 | 0x47 | 0x67 | 0xc7 | 0xe7 => InstructionInfo { size: 0, cycles: 5, page: 0, mode: AddressingMode::ZeroPage },
        0x08 | 0x48 => InstructionInfo { size: 1, cycles: 3, page: 0, mode: AddressingMode::Implied },
        0x09 | 0x29 | 0x49 | 0x69 | 0x80 | 0xa0 | 0xa2 | 0xa9 | 0xc0 | 0xc9 | 0xe0 | 0xe9 => InstructionInfo { size: 2, cycles: 2, page: 0, mode: AddressingMode::Immediate },
        0x0a | 0x2a | 0x4a | 0x6a => InstructionInfo { size: 1, cycles: 2, page: 0, mode: AddressingMode::Accumulator },
        0x0b | 0x2b | 0x4b | 0x6b | 0x82 | 0x89 | 0x8b | 0xab | 0xc2 | 0xcb | 0xe2 | 0xeb => InstructionInfo { size: 0, cycles: 2, page: 0, mode: AddressingMode::Immediate },
        0x0c | 0x0d | 0x2c | 0x2d | 0x4d | 0x6d | 0x8c | 0x8d | 0x8e | 0xac | 0xad | 0xae | 0xcc | 0xcd | 0xec | 0xed => InstructionInfo { size: 3, cycles: 4, page: 0, mode: AddressingMode::Absolute },
        0x0e | 0x20 | 0x2e | 0x4e | 0x6e | 0xce | 0xee => InstructionInfo { size: 3, cycles: 6, page: 0, mode: AddressingMode::Absolute },
        0x0f | 0x2f | 0x4f | 0x6f | 0xcf | 0xef => InstructionInfo { size: 0, cycles: 6, page: 0, mode: AddressingMode::Absolute },
        0x10 | 0x30 | 0x50 | 0x70 | 0x90 | 0xb0 | 0xd0 | 0xf0 => InstructionInfo { size: 2, cycles: 2, page: 1, mode: AddressingMode::Relative },
        0x11 | 0x31 | 0x51 | 0x71 | 0xb1 | 0xd1 | 0xf1 => InstructionInfo { size: 2, cycles: 5, page: 1, mode: AddressingMode::IndirectIndexed },
        0x13 | 0x33 | 0x53 | 0x73 | 0xd3 | 0xf3 => InstructionInfo { size: 0, cycles: 8, page: 0, mode: AddressingMode::IndirectIndexed },
        0x14 | 0x15 | 0x34 | 0x35 | 0x54 | 0x55 | 0x74 | 0x75 | 0x94 | 0x95 | 0xb4 | 0xb5 | 0xd4 | 0xd5 | 0xf4 | 0xf5 => InstructionInfo { size: 2, cycles: 4, page: 0, mode: AddressingMode::ZeroPageX },
        0x16 | 0x36 | 0x56 | 0x76 | 0xd6 | 0xf6 => InstructionInfo { size: 2, cycles: 6, page: 0, mode: AddressingMode::ZeroPageX },
        0x17 | 0x37 | 0x57 | 0x77 | 0xd7 | 0xf7 => InstructionInfo { size: 0, cycles: 6, page: 0, mode: AddressingMode::ZeroPageX },
        0x19 | 0x39 | 0x59 | 0x79 | 0xb9 | 0xbe | 0xd9 | 0xf9 => InstructionInfo { size: 3, cycles: 4, page: 1, mode: AddressingMode::AbsoluteY },
        0x1b | 0x3b | 0x5b | 0x7b | 0xdb | 0xfb => InstructionInfo { size: 0, cycles: 7, page: 0, mode: AddressingMode::AbsoluteY },
        0x1c | 0x1d | 0x3c | 0x3d | 0x5c | 0x5d | 0x7c | 0x7d | 0xbc | 0xbd | 0xdc | 0xdd | 0xfc | 0xfd => InstructionInfo { size: 3, cycles: 4, page: 1, mode: AddressingMode::AbsoluteX },
        0x1e | 0x3e | 0x5e | 0x7e | 0xde | 0xfe => InstructionInfo { size: 3, cycles: 7, page: 0, mode: AddressingMode::AbsoluteX },
        0x1f | 0x3f | 0x5f | 0x7f | 0xdf | 0xff => InstructionInfo { size: 0, cycles: 7, page: 0, mode: AddressingMode::AbsoluteX },
        0x28 | 0x68 => InstructionInfo { size: 1, cycles: 4, page: 0, mode: AddressingMode::Implied },
        0x40 | 0x60 => InstructionInfo { size: 1, cycles: 6, page: 0, mode: AddressingMode::Implied },
        0x4c => InstructionInfo { size: 3, cycles: 3, page: 0, mode: AddressingMode::Absolute },
        0x6c => InstructionInfo { size: 3, cycles: 5, page: 0, mode: AddressingMode::Indirect },
        0x83 | 0xa3 => InstructionInfo { size: 0, cycles: 6, page: 0, mode: AddressingMode::IndexedIndirect },
        0x87 | 0xa7 => InstructionInfo { size: 0, cycles: 3, page: 0, mode: AddressingMode::ZeroPage },
        0x8f | 0xaf => InstructionInfo { size: 0, cycles: 4, page: 0, mode: AddressingMode::Absolute },
        0x91 => InstructionInfo { size: 2, cycles: 6, page: 0, mode: AddressingMode::IndirectIndexed },
        0x93 => InstructionInfo { size: 0, cycles: 6, page: 0, mode: AddressingMode::IndirectIndexed },
        0x96 | 0xb6 => InstructionInfo { size: 2, cycles: 4, page: 0, mode: AddressingMode::ZeroPageY },
        0x97 | 0xb7 => InstructionInfo { size: 0, cycles: 4, page: 0, mode: AddressingMode::ZeroPageY },
        0x99 => InstructionInfo { size: 3, cycles: 5, page: 0, mode: AddressingMode::AbsoluteY },
        0x9b | 0x9e | 0x9f => InstructionInfo { size: 0, cycles: 5, page: 0, mode: AddressingMode::AbsoluteY },
        0x9c => InstructionInfo { size: 0, cycles: 5, page: 0, mode: AddressingMode::AbsoluteX },
        0x9d => InstructionInfo { size: 3, cycles: 5, page: 0, mode: AddressingMode::AbsoluteX },
        0xb3 => InstructionInfo { size: 0, cycles: 5, page: 1, mode: AddressingMode::IndirectIndexed },
        0xbb | 0xbf => InstructionInfo { size: 0, cycles: 4, page: 1, mode: AddressingMode::AbsoluteY },
        _ => InstructionInfo { size: 1, cycles: 2, page: 0, mode: AddressingMode::Implied },
    }
}

} // verus!
