use vstd::prelude::*;

verus! {

use self::AddressingMode::{
    Absolute, AbsoluteX, AbsoluteY, Accumulator, Immediate, Implicit, Indirect, IndirectX,
    IndirectY, Relative, ZeroPage, ZeroPageX, ZeroPageY,
};
use self::Operation::{
    ADC, AND, ASL, BCC, BCS, BEQ, BIT, BMI, BNE, BPL, BRK, BVC, BVS, CLC, CLD, CLI, CLV, CMP,
    CPX, CPY, DEC, DEX, DEY, EOR, INC, INX, INY, JMP, JSR, LDA, LDX, LDY, LSR, NOP, ORA, PHA,
    PHP, PLA, PLP, ROL, ROR, RTI, RTS, SBC, SEC, SED, SEI, STA, STX, STY, TAX, TAY, TSX, TXA,
    TXS, TYA, KIL, ISC, DCP, AXS, LAS, LAX, AHX, SAX, XAA, SHX, RRA, TAS, SHY, ARR, SRE, ALR,
    RLA, ANC, SLO,
};

/// The operations of the Ricoh 2A03 (a 6502 variant), documented and undocumented.
#[allow(non_camel_case_types)]
#[derive(Copy, Clone, Debug, PartialEq, Eq, Structural)]
pub enum Operation {
    ADC, AND, ASL, BCC,
    BCS, BEQ, BIT, BMI,
    BNE, BPL, BRK, BVC,
    BVS, CLC, CLD, CLI,
    CLV, CMP, CPX, CPY,
    DEC, DEX, DEY, EOR,
    INC, INX, INY, JMP,
    JSR, LDA, LDX, LDY,
    LSR, NOP, ORA, PHA,
    PHP, PLA, PLP, ROL,
    ROR, RTI, RTS, SBC,
    SEC, SED, SEI, STA,
    STX, STY, TAX, TAY,
    TSX, TXA, TXS, TYA,
    // Undocumented opcodes
    KIL, ISC, DCP, AXS,
    LAS, LAX, AHX, SAX,
    XAA, SHX, RRA, TAS,
    SHY, ARR, SRE, ALR,
    RLA, ANC, SLO,
}

/// How an instruction finds its operand.
#[derive(Copy, Clone, Debug, PartialEq, Eq, Structural)]
pub enum AddressingMode {
    Immediate,
    ZeroPage,
    ZeroPageX,
    ZeroPageY,
    Absolute,
    AbsoluteX,
    AbsoluteY,
    Indirect,
    IndirectX,
    IndirectY,
    Relative,
    Accumulator,
    Implicit,
}

/// For each opcode byte: the operation, its addressing mode, its clock cycles, and the extra
/// cycles it takes when a page boundary is crossed.
pub const OPCODE_TABLE: [(Operation, AddressingMode, u8, u8); 256] = [
    // 0x
    (BRK, Implicit, 7, 0), // 00
    (ORA, IndirectX, 6, 0), // 01
    (KIL, Implicit, 0, 0), // 02
    (SLO, IndirectX, 8, 0), // 03
    (NOP, ZeroPage, 3, 0), // 04
    (ORA, ZeroPage, 3, 0), // 05
    (ASL, ZeroPage, 5, 0), // 06
    (SLO, ZeroPage, 5, 0), // 07
    (PHP, Implicit, 3, 0), // 08
    (ORA, Immediate, 2, 0), // 09
    (ASL, Accumulator, 2, 0), // 0A
    (ANC, Immediate, 2, 0), // 0B
    (NOP, Absolute, 4, 0), // 0C
    (ORA, Absolute, 4, 0), // 0D
    (ASL, Absolute, 6, 0), // 0E
    (SLO, Absolute, 6, 0), // 0F
    // 1x
    (BPL, Relative, 2, 1), // 10
    (ORA, IndirectY, 5, 1), // 11
    (KIL, Implicit, 0, 0), // 12
    (SLO, IndirectY, 8, 0), // 13
    (NOP, ZeroPageX, 4, 0), // 14
    (ORA, ZeroPageX, 4, 0), // 15
    (ASL, ZeroPageX, 6, 0), // 16
    (SLO, ZeroPageX, 6, 0), // 17
    (CLC, Implicit, 2, 0), // 18
    (ORA, AbsoluteY, 4, 1), // 19
    (NOP, Implicit, 2, 0), // 1A
    (SLO, AbsoluteY, 7, 0), // 1B
    (NOP, AbsoluteX, 4, 1), // 1C
    (ORA, AbsoluteX, 4, 1), // 1D
    (ASL, AbsoluteX, 7, 0), // 1E
    (SLO, AbsoluteX, 7, 0), // 1F
    // 2x
    (JSR, Absolute, 6, 0), // 20
    (AND, IndirectX, 6, 0), // 21
    (KIL, Implicit, 0, 0), // 22
    (RLA, IndirectX, 8, 0), // 23
    (BIT, ZeroPage, 3, 0), // 24
    (AND, ZeroPage, 3, 0), // 25
    (ROL, ZeroPage, 5, 0), // 26
    (RLA, ZeroPage, 5, 0), // 27
    (PLP, Implicit, 4, 0), // 28
    (AND, Immediate, 2, 0), // 29
    (ROL, Accumulator, 2, 0), // 2A
    (ANC, Immediate, 2, 0), // 2B
    (BIT, Absolute, 4, 0), // 2C
    (AND, Absolute, 4, 0), // 2D
    (ROL, Absolute, 6, 0), // 2E
    (RLA, Absolute, 6, 0), // 2F
    // 3x
    (BMI, Relative, 2, 1), // 30
    (AND, IndirectY, 5, 1), // 31
    (KIL, Implicit, 0, 0), // 32
    (RLA, IndirectY, 8, 0), // 33
    (NOP, ZeroPageX, 4, 0), // 34
    (AND, ZeroPageX, 4, 0), // 35
    (ROL, ZeroPageX, 6, 0), // 36
    (RLA, ZeroPageX, 6, 0), // 37
    (SEC, Implicit, 2, 0), // 38
    (AND, AbsoluteY, 4, 1), // 39
    (NOP, Implicit, 2, 0), // 3A
    (RLA, AbsoluteY, 7, 0), // 3B
    (NOP, AbsoluteX, 4, 1), // 3C
    (AND, AbsoluteX, 4, 1), // 3D
    (ROL, AbsoluteX, 7, 0), // 3E
    (RLA, AbsoluteX, 7, 0), // 3F
    // 4x
    (RTI, Implicit, 6, 0), // 40
    (EOR, IndirectX, 6, 0), // 41
    (KIL, Implicit, 0, 0), // 42
    (SRE, IndirectX, 8, 0), // 43
    (NOP, ZeroPage, 3, 0), // 44
    (EOR, ZeroPage, 3, 0), // 45
    (LSR, ZeroPage, 5, 0), // 46
    (SRE, ZeroPage, 5, 0), // 47
    (PHA, Implicit, 3, 0), // 48
    (EOR, Immediate, 2, 0), // 49
    (LSR, Implicit, 2, 0), // 4A
    (ALR, Immediate, 2, 0), // 4B
    (JMP, Absolute, 3, 0), // 4C
    (EOR, Absolute, 4, 0), // 4D
    (LSR, Absolute, 6, 0), // 4E
    (SRE, Absolute, 6, 0), // 4F
    // 5x
    (BVC, Relative, 2, 1), // 50
    (EOR, IndirectY, 5, 1), // 51
    (KIL, Implicit, 0, 0), // 52
    (SRE, IndirectY, 8, 0), // 53
    (NOP, ZeroPageX, 4, 0), // 54
    (EOR, ZeroPageX, 4, 0), // 55
    (LSR, ZeroPageX, 6, 0), // 56
    (SRE, ZeroPageX, 6, 0), // 57
    (CLI, Implicit, 2, 0), // 58
    (EOR, AbsoluteY, 4, 1), // 59
    (NOP, Implicit, 2, 0), // 5A
    (SRE, AbsoluteY, 7, 0), // 5B
    (NOP, AbsoluteX, 4, 1), // 5C
    (EOR, AbsoluteX, 4, 1), // 5D
    (LSR, AbsoluteX, 7, 0), // 5E
    (SRE, AbsoluteX, 7, 0), // 5F
    // 6x
    (RTS, Implicit, 6, 0), // 60
    (ADC, IndirectX, 6, 0), // 61
    (KIL, Implicit, 0, 0), // 62
    (RRA, IndirectX, 8, 0), // 63
    (NOP, ZeroPage, 3, 0), // 64
    (ADC, ZeroPage, 3, 0), // 65
    (ROR, ZeroPage, 5, 0), // 66
    (RRA, ZeroPage, 5, 0), // 67
    (PLA, Implicit, 4, 0), // 68
    (ADC, Immediate, 2, 0), // 69
    (ROR, Implicit, 2, 0), // 6A
    (ARR, Immediate, 2, 0), // 6B
    (JMP, Indirect, 5, 0), // 6C
    (ADC, Absolute, 4, 0), // 6D
    (ROR, Absolute, 6, 0), // 6E
    (RRA, Absolute, 6, 0), // 6F
    // 7x
    (BVS, Relative, 2, 1), // 70
    (ADC, IndirectY, 5, 1), // 71
    (KIL, Implicit, 0, 0), // 72
    (RRA, IndirectY, 8, 0), // 73
    (NOP, ZeroPageX, 4, 0), // 74
    (ADC, ZeroPageX, 4, 0), // 75
    (ROR, ZeroPageX, 6, 0), // 76
    (RRA, ZeroPageX, 6, 0), // 77
    (SEI, Implicit, 2, 0), // 78
    (ADC, AbsoluteY, 4, 1), // 79
    (NOP, Implicit, 2, 0), // 7A
    (RRA, AbsoluteY, 7, 0), // 7B
    (NOP, AbsoluteX, 4, 1), // 7C
    (ADC, AbsoluteX, 4, 1), // 7D
    (ROR, AbsoluteX, 7, 0), // 7E
    (RRA, AbsoluteX, 7, 0), // 7F
    // 8x
    (NOP, Immediate, 2, 0), // 80
    (STA, IndirectX, 6, 0), // 81
    (NOP, Immediate, 2, 0), // 82
    (SAX, IndirectX, 6, 0), // 83
    (STY, ZeroPage, 3, 0), // 84
    (STA, ZeroPage, 3, 0), // 85
    (STX, ZeroPage, 3, 0), // 86
    (SAX, ZeroPage, 3, 0), // 87
    (DEY, Implicit, 2, 0), // 88
    (NOP, Immediate, 2, 0), // 89
    (TXA, Implicit, 2, 0), // 8A
    (XAA, Immediate, 2, 1), // 8B
    (STY, Absolute, 4, 0), // 8C
    (STA, Absolute, 4, 0), // 8D
    (STX, Absolute, 4, 0), // 8E
    (SAX, Absolute, 4, 0), // 8F
    // 9x
    (BCC, Relative, 2, 1), // 90
    (STA, IndirectY, 6, 0), // 91
    (KIL, Implicit, 0, 0), // 92
    (AHX, IndirectY, 6, 0), // 93
    (STY, ZeroPageX, 4, 0), // 94
    (STA, ZeroPageX, 4, 0), // 95
    (STX, ZeroPageY, 4, 0), // 96
    (SAX, ZeroPageY, 4, 0), // 97
    (TYA, Implicit, 2, 0), // 98
    (STA, AbsoluteY, 5, 0), // 99
    (TXS, Implicit, 2, 0), // 9A
    (TAS, AbsoluteY, 5, 0), // 9B
    (SHY, AbsoluteX, 5, 0), // 9C
    (STA, AbsoluteX, 5, 0), // 9D
    (SHX, AbsoluteY, 5, 0), // 9E
    (AHX, AbsoluteY, 5, 0), // 9F
    // Ax
    (LDY, Immediate, 2, 0), // A0
    (LDA, IndirectX, 6, 0), // A1
    (LDX, Immediate, 2, 0), // A2
    (LAX, IndirectX, 6, 0), // A3
    (LDY, ZeroPage, 3, 0), // A4
    (LDA, ZeroPage, 3, 0), // A5
    (LDX, ZeroPage, 3, 0), // A6
    (LAX, ZeroPage, 3, 0), // A7
    (TAY, Implicit, 2, 0), // A8
    (LDA, Immediate, 2, 0), // A9
    (TAX, Implicit, 2, 0), // AA
    (LAX, Immediate, 2, 0), // AB
    (LDY, Absolute, 4, 0), // AC
    (LDA, Absolute, 4, 0), // AD
    (LDX, Absolute, 4, 0), // AE
    (LAX, Absolute, 4, 0), // AF
    // Bx
    (BCS, Relative, 2, 1), // B0
    (LDA, IndirectY, 5, 1), // B1
    (KIL, Implicit, 0, 0), // B2
    (LAX, IndirectY, 5, 1), // B3
    (LDY, ZeroPageX, 4, 0), // B4
    (LDA, ZeroPageX, 4, 0), // B5
    (LDX, ZeroPageY, 4, 0), // B6
    (LAX, ZeroPageY, 4, 0), // B7
    (CLV, Implicit, 2, 0), // B8
    (LDA, AbsoluteY, 4, 1), // B9
    (TSX, Implicit, 2, 0), // BA
    (LAS, AbsoluteY, 4, 1), // BB
    (LDY, AbsoluteX, 4, 1), // BC
    (LDA, AbsoluteX, 4, 1), // BD
    (LDX, AbsoluteY, 4, 1), // BE
    (LAX, AbsoluteY, 4, 1), // BF
    // Cx
    (CPY, Immediate, 2, 0), // C0
    (CMP, IndirectX, 6, 0), // C1
    (NOP, Immediate, 2, 0), // C2
    (DCP, IndirectX, 8, 0), // C3
    (CPY, ZeroPage, 3, 0), // C4
    (CMP, ZeroPage, 3, 0), // C5
    (DEC, ZeroPage, 5, 0), // C6
    (DCP, ZeroPage, 5, 0), // C7
    (INY, Implicit, 2, 0), // C8
    (CMP, Immediate, 2, 0), // C9
    (DEX, Implicit, 2, 0), // CA
    (AXS, Immediate, 2, 0), // CB
    (CPY, Absolute, 4, 0), // CC
    (CMP, Absolute, 4, 0), // CD
    (DEC, Absolute, 6, 0), // CE
    (DCP, Absolute, 6, 0), // CF
    // Dx
    (BNE, Relative, 2, 1), // D0
    (CMP, IndirectY, 5, 1), // D1
    (KIL, Implicit, 0, 0), // D2
    (DCP, IndirectY, 8, 0), // D3
    (NOP, ZeroPageX, 4, 0), // D4
    (CMP, ZeroPageX, 4, 0), // D5
    (DEC, ZeroPageX, 6, 0), // D6
    (DCP, ZeroPageX, 6, 0), // D7
    (CLD, Implicit, 2, 0), // D8
    (CMP, AbsoluteY, 4, 1), // D9
    (NOP, Implicit, 2, 0), // DA
    (DCP, AbsoluteY, 7, 0), // DB
    (NOP, AbsoluteX, 4, 1), // DC
    (CMP, AbsoluteX, 4, 1), // DD
    (DEC, AbsoluteX, 7, 0), // DE
    (DCP, AbsoluteX, 7, 0), // DF
    // Ex
    (CPX, Immediate, 2, 0), // E0
    (SBC, IndirectX, 6, 0), // E1
    (NOP, Immediate, 2, 0), // E2
    (ISC, IndirectX, 8, 0), // E3
    (CPX, ZeroPage, 3, 0), // E4
    (SBC, ZeroPage, 3, 0), // E5
    (INC, ZeroPage, 5, 0), // E6
    (ISC, ZeroPage, 5, 0), // E7
    (INX, Implicit, 2, 0), // E8
    (SBC, Immediate, 2, 0), // E9
    (NOP, Implicit, 2, 0), // EA
    (SBC, Immediate, 2, 0), // EB
    (CPX, Absolute, 4, 0), // EC
    (SBC, Absolute, 4, 0), // ED
    (INC, Absolute, 6, 0), // EE
    (ISC, Absolute, 6, 0), // EF
    // Fx
    (BEQ, Relative, 2, 1), // F0
    (SBC, IndirectY, 5, 1), // F1
    (KIL, Implicit, 0, 0), // F2
    (ISC, IndirectY, 8, 0), // F3
    (NOP, ZeroPageX, 4, 0), // F4
    (SBC, ZeroPageX, 4, 0), // F5
    (INC, ZeroPageX, 6, 0), // F6
    (ISC, ZeroPageX, 6, 0), // F7
    (SED, Implicit, 2, 0), // F8
    (SBC, AbsoluteY, 4, 1), // F9
    (NOP, Implicit, 2, 0), // FA
    (ISC, AbsoluteY, 7, 0), // FB
    (NOP, AbsoluteX, 4, 1), // FC
    (SBC, AbsoluteX, 4, 1), // FD
    (INC, AbsoluteX, 7, 0), // FE
    (ISC, AbsoluteX, 7, 0), // FF
];

/// Where an instruction reads its operand from and writes its result to:
/// a memory address, or the accumulator when there is none.
pub type WriteTarget = Option<u16>;

/// A decoded instruction: the operation, how its operand was found, the operand's value,
/// and the operand's address.
#[derive(Copy, Clone, Debug)]
pub struct Instruction {
    pub op: Operation,
    pub mode: AddressingMode,
    pub mode_args: u16,
    pub write_target: WriteTarget,
}

impl Instruction {
    /// The low byte of the operand, as the operations take it.
    pub open spec fn spec_operand_byte(self) -> u8 {
        (self.mode_args as int % 256) as u8
    }

    pub fn operand_byte(&self) -> (v: u8)
        ensures
            v == self.spec_operand_byte(),
    {
        (self.mode_args % 256) as u8
    }

    /// Whether the program counter moves past this instruction before it runs
    /// (everything but the jumps and returns).
    pub fn should_advance_pc(&self) -> (b: bool)
        ensures
            b == !(self.op == JMP || self.op == JSR || self.op == RTS),
    {
        match self.op {
            JMP => false,
            JSR => false,
            RTS => false,
            _ => true,
        }
    }
}

impl Operation {
    /// The documented operations, which the CPU executes; `KIL` and the other undocumented
    /// operations it does not.
    pub open spec fn spec_is_implemented(self) -> bool {
        !(self == KIL || self == ISC || self == DCP || self == AXS || self == LAS || self == LAX
            || self == AHX || self == SAX || self == XAA || self == SHX || self == RRA
            || self == TAS || self == SHY || self == ARR || self == SRE || self == ALR
            || self == RLA || self == ANC || self == SLO)
    }

    pub fn is_implemented(&self) -> (b: bool)
        ensures
            b == self.spec_is_implemented(),
    {
        match self {
            KIL | ISC | DCP | AXS | LAS | LAX | AHX | SAX | XAA | SHX | RRA | TAS | SHY | ARR
            | SRE | ALR | RLA | ANC | SLO => false,
            _ => true,
        }
    }
}

/// The table entry for `opcode`.
pub open spec fn opcode_info(opcode: u8) -> (Operation, AddressingMode, u8, u8) {
    OPCODE_TABLE@[opcode as int]
}

/// Looks `opcode` up in the opcode table.
pub fn lookup_opcode(opcode: u8) -> (r: (Operation, AddressingMode, u8, u8))
    ensures
        r == opcode_info(opcode),
{
    OPCODE_TABLE[opcode as usize]
}

} // verus!
