//! What each instruction does, stated over the registers, flags and memory directly.

use vstd::prelude::*;

use crate::instruction::{opcode_info, AddressingMode, Instruction, Operation};
use crate::state::{next_addr, stack_addr, word, ClockFault, CpuState};

verus! {

/// The low byte of an instruction's operand.
pub open spec fn operand(i: Instruction) -> u8 {
    (i.mode_args as int % 256) as u8
}

/// The byte at the operand address, or the accumulator when there is none.
pub open spec fn target_byte(s: CpuState, i: Instruction) -> u8 {
    match i.write_target {
        Some(a) => s.mem[a as int],
        None => s.acc,
    }
}

/// `f` with `w` stored where the instruction's operand lives: memory, or the accumulator.
pub open spec fn stored(f: CpuState, i: Instruction, w: u8) -> CpuState {
    match i.write_target {
        Some(a) => f.write(a, w),
        None => CpuState { acc: w, ..f },
    }
}

// Memory

/// Writing a byte changes what that address reads when the space keeps writes, and nothing
/// else: every register, flag and every other address stays.
pub proof fn law_write(s: CpuState, p: u16, v: u8, q: u16)
    requires
        s.mem.len() == 0x10000,
    ensures
        s.write(p, v).read(q) == (if s.retains_writes && p == q { v } else { s.read(q) }),
        s.write(p, v).mem.len() == 0x10000,
        (CpuState { mem: s.mem, ..s.write(p, v) }) == s,
{
}

// Decoding

/// Each addressing mode takes its own number of bytes: the opcode, then one operand byte for
/// the immediate, relative, zero-page and indirect-indexed modes, two for the absolute modes
/// and the indirect jump, none for the accumulator and implicit modes.
pub proof fn law_decode_length(s: CpuState)
    ensures
        ({
            let mode = opcode_info(s.read(s.pc)).1;
            let n = s.decode().1;
            &&& (mode == AddressingMode::Immediate || mode == AddressingMode::Relative
                || mode == AddressingMode::ZeroPage || mode == AddressingMode::ZeroPageX
                || mode == AddressingMode::ZeroPageY || mode == AddressingMode::IndirectX
                || mode == AddressingMode::IndirectY) ==> n == 2
            &&& (mode == AddressingMode::Absolute || mode == AddressingMode::AbsoluteX
                || mode == AddressingMode::AbsoluteY || mode == AddressingMode::Indirect) ==> n == 3
            &&& (mode == AddressingMode::Accumulator || mode == AddressingMode::Implicit) ==> n
                == 1
        }),
{
}

/// Decoding takes the operation and mode from the opcode table, and finds the operand's address
/// from the bytes after the opcode: the byte itself (immediate, relative), a zero-page address,
/// possibly indexed and wrapping within the zero page, a 16-bit address, possibly indexed and
/// wrapping, or an address read through a pointer. The operand's value is the byte at its
/// address, or the accumulator.
pub proof fn law_decode_operand(s: CpuState)
    ensures
        ({
            let (op, mode, _c, _p) = opcode_info(s.read(s.pc));
            let i = s.decode().0;
            let p1 = ((s.pc as int + 1) % 0x10000) as u16;
            let p2 = ((s.pc as int + 2) % 0x10000) as u16;
            let b1 = s.read(p1) as int;
            let abs = b1 + 256 * s.read(p2) as int;
            &&& i.op == op
            &&& i.mode == mode
            &&& (mode == AddressingMode::Immediate || mode == AddressingMode::Relative)
                ==> i.write_target == Some(p1)
            &&& mode == AddressingMode::ZeroPage ==> i.write_target == Some(b1 as u16)
            &&& mode == AddressingMode::ZeroPageX ==> i.write_target == Some(
                ((b1 + s.x) % 256) as u16,
            )
            &&& mode == AddressingMode::ZeroPageY ==> i.write_target == Some(
                ((b1 + s.y) % 256) as u16,
            )
            &&& mode == AddressingMode::Absolute ==> i.write_target == Some(abs as u16)
            &&& mode == AddressingMode::AbsoluteX ==> i.write_target == Some(
                ((abs + s.x) % 0x10000) as u16,
            )
            &&& mode == AddressingMode::AbsoluteY ==> i.write_target == Some(
                ((abs + s.y) % 0x10000) as u16,
            )
            &&& mode == AddressingMode::Indirect ==> i.write_target == Some(
                (s.read(abs as u16) as int + 256 * s.read(
                    ((abs / 256) * 256 + (abs + 1) % 256) as u16,
                ) as int) as u16,
            )
            &&& mode == AddressingMode::IndirectX ==> ({
                let zp = (b1 + s.x) % 256;
                i.write_target == Some(
                    (s.read(zp as u16) as int + 256 * s.read(((zp + 1) % 256) as u16) as int) as u16,
                )
            })
            &&& mode == AddressingMode::IndirectY ==> i.write_target == Some(
                ((s.read(b1 as u16) as int + 256 * s.read(((b1 + 1) % 256) as u16) as int + s.y)
                    % 0x10000) as u16,
            )
            &&& (mode == AddressingMode::Accumulator || mode == AddressingMode::Implicit)
                ==> i.write_target is None
            &&& mode == AddressingMode::Accumulator ==> i.mode_args == s.acc as u16
            &&& (i.write_target matches Some(a) ==> i.mode_args == s.read(a) as u16)
        }),
{
}

// Status register

/// The status byte holds each flag at its own bit: carry in bit 0, zero in bit 1,
/// interrupt-disable in bit 2, decimal in bit 3, overflow in bit 6, negative in bit 7.
pub proof fn law_status_byte_bits(s: CpuState, is_instruction: bool)
    ensures
        ({
            let b = s.status_byte(is_instruction);
            &&& (b & 0x01 != 0) == s.carry
            &&& (b & 0x02 != 0) == s.zero
            &&& (b & 0x04 != 0) == s.interruptd
            &&& (b & 0x08 != 0) == s.decimal
            &&& (b & 0x40 != 0) == s.overflow
            &&& (b & 0x80 != 0) == s.negative
        }),
{
    let c: u8 = if s.carry { 1 } else { 0 };
    let z: u8 = if s.zero { 2 } else { 0 };
    let i: u8 = if s.interruptd { 4 } else { 0 };
    let d: u8 = if s.decimal { 8 } else { 0 };
    let b: u8 = if is_instruction { 32 } else { 0 };
    let o: u8 = if s.overflow { 64 } else { 0 };
    let n: u8 = if s.negative { 128 } else { 0 };
    let v = s.status_byte(is_instruction);
    assert(v == c + z + i + d + b + o + n);
    assert({
        &&& (v & 0x01 != 0) == (c == 1)
        &&& (v & 0x02 != 0) == (z == 2)
        &&& (v & 0x04 != 0) == (i == 4)
        &&& (v & 0x08 != 0) == (d == 8)
        &&& (v & 0x40 != 0) == (o == 64)
        &&& (v & 0x80 != 0) == (n == 128)
    }) by (bit_vector)
        requires
            c == 0 || c == 1,
            z == 0 || z == 2,
            i == 0 || i == 4,
            d == 0 || d == 8,
            b == 0 || b == 32,
            o == 0 || o == 64,
            n == 0 || n == 128,
            v == c + z + i + d + b + o + n,
    ;
}

/// Loading the status register from a byte takes each flag from its own bit, and changes
/// nothing but the flags.
pub proof fn law_load_status_bits(s: CpuState, v: u8)
    ensures
        s.with_status_byte(v) == (CpuState {
            carry: v & 0x01 != 0,
            zero: v & 0x02 != 0,
            interruptd: v & 0x04 != 0,
            decimal: v & 0x08 != 0,
            overflow: v & 0x40 != 0,
            negative: v & 0x80 != 0,
            ..s
        }),
{
}

// Compare

/// Comparing `a` with `b` sets carry when `a >= b`, zero when they are equal, and negative
/// from bit 7 of `a - b` (mod 256); nothing else changes.
pub proof fn law_compare(s: CpuState, a: u8, b: u8)
    ensures
        s.compare(a, b) == (CpuState {
            carry: a >= b,
            zero: a == b,
            negative: (a as int - b as int + 256) % 256 >= 128,
            ..s
        }),
{
}

/// CMP, CPX and CPY compare the accumulator, X and Y respectively with the operand.
#[verifier::spinoff_prover]
pub proof fn law_compare_registers(s: CpuState, i: Instruction)
    ensures
        ({
            let v = operand(i);
            let r = if i.op == Operation::CMP {
                s.acc
            } else if i.op == Operation::CPX {
                s.x
            } else {
                s.y
            };
            (i.op == Operation::CMP || i.op == Operation::CPX || i.op == Operation::CPY)
                ==> s.execute(i) == (CpuState {
                carry: r >= v,
                zero: r == v,
                negative: (r as int - v as int + 256) % 256 >= 128,
                ..s
            })
        }),
{
}

// Branches

/// Each conditional branch tests its own flag: BCC carry clear, BCS carry set, BEQ zero set,
/// BNE zero clear, BMI negative set, BPL negative clear, BVC overflow clear, BVS overflow set.
/// Taken, it moves the program counter by the operand as a signed byte, wrapping; not taken,
/// it changes nothing.
#[verifier::spinoff_prover]
pub proof fn law_branches(s: CpuState, i: Instruction)
    ensures
        ({
            let v = operand(i) as int;
            let offset = if v < 128 { v } else { v - 256 };
            let taken = (s.pc as int + offset + 0x10000) % 0x10000;
            let cond = if i.op == Operation::BCC {
                !s.carry
            } else if i.op == Operation::BCS {
                s.carry
            } else if i.op == Operation::BEQ {
                s.zero
            } else if i.op == Operation::BNE {
                !s.zero
            } else if i.op == Operation::BMI {
                s.negative
            } else if i.op == Operation::BPL {
                !s.negative
            } else if i.op == Operation::BVC {
                !s.overflow
            } else {
                s.overflow
            };
            (i.op == Operation::BCC || i.op == Operation::BCS || i.op == Operation::BEQ || i.op
                == Operation::BNE || i.op == Operation::BMI || i.op == Operation::BPL || i.op
                == Operation::BVC || i.op == Operation::BVS) ==> s.execute(i) == (CpuState {
                pc: if cond {
                    taken as u16
                } else {
                    s.pc
                },
                ..s
            })
        }),
{
}

// Logic and arithmetic on the accumulator

/// The result byte and the overflow of a subtraction with borrow, two ways.
proof fn sbc_arithmetic(a: u8, v: u8, borrow: int)
    requires
        borrow == 0 || borrow == 1,
    ensures
        ({
            let diff = a as int - v as int - borrow;
            let r = ((diff + 512) % 256) as u8;
            let sa = if a < 128 { a as int } else { a as int - 256 };
            let sv = if v < 128 { v as int } else { v as int - 256 };
            let signed = sa - sv - borrow;
            &&& ((diff % 256) as u8) == r
            &&& (signed < -128 || signed > 127) == ((a >= 128) != (v >= 128) && (r >= 128) != (
            a >= 128))
        }),
{
    let diff = a as int - v as int - borrow;
    if diff >= 0 {
        assert((diff + 512) % 256 == diff % 256);
    } else {
        assert(diff % 256 == diff + 256);
        assert((diff + 512) % 256 == diff + 256);
    }
}

/// AND, ORA and EOR combine the accumulator with the operand bit by bit, set zero and negative
/// from the result, and change nothing else.
#[verifier::spinoff_prover]
pub proof fn law_logic(s: CpuState, i: Instruction)
    ensures
        ({
            let v = operand(i);
            let r = if i.op == Operation::AND {
                s.acc & v
            } else if i.op == Operation::ORA {
                s.acc | v
            } else {
                s.acc ^ v
            };
            (i.op == Operation::AND || i.op == Operation::ORA || i.op == Operation::EOR)
                ==> s.execute(i) == (CpuState { acc: r, zero: r == 0, negative: r >= 128, ..s })
        }),
{
}

/// EOR with the same operand twice gives the accumulator back.
#[verifier::spinoff_prover]
pub proof fn law_eor_twice(s: CpuState, i: Instruction)
    requires
        i.op == Operation::EOR,
    ensures
        s.execute(i).execute(i).acc == s.acc,
{
    let v = operand(i);
    let a = s.acc;
    assert((a ^ v) ^ v == a) by (bit_vector);
}

/// The carry and the overflow of an addition with carry, two ways.
proof fn adc_arithmetic(a: u8, v: u8, c: int)
    requires
        c == 0 || c == 1,
    ensures
        ({
            let sum = a as int + v as int + c;
            let r = (sum % 256) as u8;
            let sa = if a < 128 { a as int } else { a as int - 256 };
            let sv = if v < 128 { v as int } else { v as int - 256 };
            let signed = sa + sv + c;
            (signed < -128 || signed > 127) == ((a >= 128) == (v >= 128) && (r >= 128) != (a
                >= 128))
        }),
{
    let sum = a as int + v as int + c;
    if sum >= 256 {
        assert(sum % 256 == sum - 256);
    } else {
        assert(sum % 256 == sum);
    }
}

/// ADC adds the operand and the carry to the accumulator: carry out of bit 7, overflow when
/// both inputs have the same sign and the result's sign differs, zero and negative from the
/// result.
#[verifier::spinoff_prover]
pub proof fn law_adc(s: CpuState, i: Instruction)
    requires
        i.op == Operation::ADC,
    ensures
        ({
            let v = operand(i);
            let sum = s.acc as int + v as int + (if s.carry { 1int } else { 0int });
            let r = (sum % 256) as u8;
            s.execute(i) == (CpuState {
                acc: r,
                carry: sum >= 256,
                overflow: (s.acc >= 128) == (v >= 128) && (r >= 128) != (s.acc >= 128),
                zero: r == 0,
                negative: r >= 128,
                ..s
            })
        }),
{
    let v = operand(i);
    adc_arithmetic(s.acc, v, if s.carry { 1int } else { 0int });
    assert(s.execute(i) == s.adc(v));
}

/// SBC subtracts the operand and the borrow (carry clear) from the accumulator: carry when no
/// borrow out, overflow when the inputs differ in sign and the result's sign differs from the
/// accumulator's, zero and negative from the result.
#[verifier::spinoff_prover]
pub proof fn law_sbc(s: CpuState, i: Instruction)
    requires
        i.op == Operation::SBC,
    ensures
        ({
            let v = operand(i);
            let diff = s.acc as int - v as int - (if s.carry { 0int } else { 1int });
            let r = ((diff + 512) % 256) as u8;
            s.execute(i) == (CpuState {
                acc: r,
                carry: diff >= 0,
                overflow: (s.acc >= 128) != (v >= 128) && (r >= 128) != (s.acc >= 128),
                zero: r == 0,
                negative: r >= 128,
                ..s
            })
        }),
{
    let v = operand(i);
    sbc_arithmetic(s.acc, v, if s.carry { 0int } else { 1int });
    assert(s.execute(i) == s.sbc(v));
}

// Shifts, rotates, increments and decrements

/// ASL, LSR, ROL, ROR, INC and DEC read their operand (a memory byte, or the accumulator),
/// write the changed byte back to the same place, and set zero and negative from it. ASL and
/// ROL move bit 7 out to carry, LSR and ROR bit 0; ROL and ROR move the old carry in at the
/// other end. INC and DEC add or subtract one, wrapping, and leave carry alone.
#[verifier::spinoff_prover]
pub proof fn law_read_modify_write(s: CpuState, i: Instruction)
    ensures
        ({
            let r = target_byte(s, i) as int;
            let c = if s.carry { 1int } else { 0int };
            let w = (if i.op == Operation::ASL {
                (r * 2) % 256
            } else if i.op == Operation::LSR {
                r / 2
            } else if i.op == Operation::ROL {
                (r * 2) % 256 + c
            } else if i.op == Operation::ROR {
                r / 2 + 128 * c
            } else if i.op == Operation::INC {
                (r + 1) % 256
            } else {
                (r + 255) % 256
            }) as u8;
            let carry = if i.op == Operation::ASL || i.op == Operation::ROL {
                r >= 128
            } else if i.op == Operation::LSR || i.op == Operation::ROR {
                r % 2 == 1
            } else {
                s.carry
            };
            (i.op == Operation::ASL || i.op == Operation::LSR || i.op == Operation::ROL || i.op
                == Operation::ROR || i.op == Operation::INC || i.op == Operation::DEC)
                ==> s.execute(i) == stored(
                CpuState { carry, zero: w == 0, negative: w >= 128, ..s },
                i,
                w,
            )
        }),
{
    let r = target_byte(s, i);
    assert((r & 0x01 != 0) == (r % 2 == 1)) by (bit_vector);
    assert((r & 0x80 != 0) == (r >= 128)) by (bit_vector);
}

/// INX, INY, DEX and DEY add or subtract one to X or Y, wrapping, and set zero and negative.
#[verifier::spinoff_prover]
pub proof fn law_register_steps(s: CpuState, i: Instruction)
    ensures
        i.op == Operation::INX ==> s.execute(i) == ({
            let w = ((s.x as int + 1) % 256) as u8;
            CpuState { x: w, zero: w == 0, negative: w >= 128, ..s }
        }),
        i.op == Operation::INY ==> s.execute(i) == ({
            let w = ((s.y as int + 1) % 256) as u8;
            CpuState { y: w, zero: w == 0, negative: w >= 128, ..s }
        }),
        i.op == Operation::DEX ==> s.execute(i) == ({
            let w = ((s.x as int + 255) % 256) as u8;
            CpuState { x: w, zero: w == 0, negative: w >= 128, ..s }
        }),
        i.op == Operation::DEY ==> s.execute(i) == ({
            let w = ((s.y as int + 255) % 256) as u8;
            CpuState { y: w, zero: w == 0, negative: w >= 128, ..s }
        }),
{
}

// Loads, stores and transfers

/// LDA, LDX and LDY load the operand into A, X or Y and set zero and negative from it.
#[verifier::spinoff_prover]
pub proof fn law_loads(s: CpuState, i: Instruction)
    ensures
        ({
            let v = operand(i);
            &&& i.op == Operation::LDA ==> s.execute(i) == (CpuState {
                acc: v,
                zero: v == 0,
                negative: v >= 128,
                ..s
            })
            &&& i.op == Operation::LDX ==> s.execute(i) == (CpuState {
                x: v,
                zero: v == 0,
                negative: v >= 128,
                ..s
            })
            &&& i.op == Operation::LDY ==> s.execute(i) == (CpuState {
                y: v,
                zero: v == 0,
                negative: v >= 128,
                ..s
            })
        }),
{
}

/// STA, STX and STY store A, X or Y at the operand address and change nothing else.
#[verifier::spinoff_prover]
pub proof fn law_stores(s: CpuState, i: Instruction)
    ensures
        i.op == Operation::STA ==> s.execute(i) == stored(s, i, s.acc),
        i.op == Operation::STX ==> s.execute(i) == stored(s, i, s.x),
        i.op == Operation::STY ==> s.execute(i) == stored(s, i, s.y),
{
}

/// TAX, TAY, TSX, TXA and TYA copy one register into another and set zero and negative from
/// the value; TXS copies X into the stack pointer and sets no flag.
#[verifier::spinoff_prover]
pub proof fn law_transfers(s: CpuState, i: Instruction)
    ensures
        i.op == Operation::TAX ==> s.execute(i) == (CpuState {
            x: s.acc,
            zero: s.acc == 0,
            negative: s.acc >= 128,
            ..s
        }),
        i.op == Operation::TAY ==> s.execute(i) == (CpuState {
            y: s.acc,
            zero: s.acc == 0,
            negative: s.acc >= 128,
            ..s
        }),
        i.op == Operation::TSX ==> s.execute(i) == (CpuState {
            x: s.sp,
            zero: s.sp == 0,
            negative: s.sp >= 128,
            ..s
        }),
        i.op == Operation::TXA ==> s.execute(i) == (CpuState {
            acc: s.x,
            zero: s.x == 0,
            negative: s.x >= 128,
            ..s
        }),
        i.op == Operation::TYA ==> s.execute(i) == (CpuState {
            acc: s.y,
            zero: s.y == 0,
            negative: s.y >= 128,
            ..s
        }),
        i.op == Operation::TXS ==> s.execute(i) == (CpuState { sp: s.x, ..s }),
{
}

// Flags

/// CLC, CLD, CLI and CLV clear one flag each; SEC, SED and SEI set one; NOP changes nothing.
#[verifier::spinoff_prover]
pub proof fn law_flag_operations(s: CpuState, i: Instruction)
    ensures
        i.op == Operation::CLC ==> s.execute(i) == (CpuState { carry: false, ..s }),
        i.op == Operation::CLD ==> s.execute(i) == (CpuState { decimal: false, ..s }),
        i.op == Operation::CLI ==> s.execute(i) == (CpuState { interruptd: false, ..s }),
        i.op == Operation::CLV ==> s.execute(i) == (CpuState { overflow: false, ..s }),
        i.op == Operation::SEC ==> s.execute(i) == (CpuState { carry: true, ..s }),
        i.op == Operation::SED ==> s.execute(i) == (CpuState { decimal: true, ..s }),
        i.op == Operation::SEI ==> s.execute(i) == (CpuState { interruptd: true, ..s }),
        i.op == Operation::NOP ==> s.execute(i) == s,
{
}

/// BIT sets negative and overflow from bits 7 and 6 of the operand, and zero when the
/// operand and the accumulator share no set bit; nothing else changes.
#[verifier::spinoff_prover]
pub proof fn law_bit(s: CpuState, i: Instruction)
    requires
        i.op == Operation::BIT,
    ensures
        ({
            let v = operand(i);
            s.execute(i) == (CpuState {
                negative: v >= 128,
                overflow: (v / 64) % 2 == 1,
                zero: v & s.acc == 0,
                ..s
            })
        }),
{
    let v = operand(i);
    assert((v & 0x80 != 0) == (v >= 128)) by (bit_vector);
    assert((v & 0x40 != 0) == ((v / 64) % 2 == 1)) by (bit_vector);
}

// Jumps and the stack

/// The stack slot of stack pointer value `sp`.
pub open spec fn slot(sp: int) -> u16 {
    (0x100 + (sp + 256) % 256) as u16
}

/// JMP continues at the operand address and changes nothing else.
#[verifier::spinoff_prover]
pub proof fn law_jmp(s: CpuState, i: Instruction)
    requires
        i.op == Operation::JMP,
        i.write_target is Some,
    ensures
        s.execute(i) == (CpuState { pc: i.write_target->0, ..s }),
{
}

/// PHA and PHP write the accumulator or the status byte (bit 5 set) at the stack slot and
/// move the stack pointer down one, wrapping.
#[verifier::spinoff_prover]
pub proof fn law_pushes(s: CpuState, i: Instruction)
    ensures
        i.op == Operation::PHA ==> s.execute(i) == (CpuState {
            sp: ((s.sp as int + 255) % 256) as u8,
            ..s.write(slot(s.sp as int), s.acc)
        }),
        i.op == Operation::PHP ==> s.execute(i) == (CpuState {
            sp: ((s.sp as int + 255) % 256) as u8,
            ..s.write(slot(s.sp as int), s.status_byte(true))
        }),
{
}

/// PLA and PLP move the stack pointer up one, wrapping, and read the slot it then points at:
/// PLA into the accumulator, setting zero and negative; PLP into the flags, bit by bit.
#[verifier::spinoff_prover]
pub proof fn law_pulls(s: CpuState, i: Instruction)
    ensures
        ({
            let sp = ((s.sp as int + 1) % 256) as u8;
            let v = s.read(slot(sp as int));
            &&& i.op == Operation::PLA ==> s.execute(i) == (CpuState {
                sp,
                acc: v,
                zero: v == 0,
                negative: v >= 128,
                ..s
            })
            &&& i.op == Operation::PLP ==> s.execute(i) == (CpuState {
                sp,
                carry: v & 0x01 != 0,
                zero: v & 0x02 != 0,
                interruptd: v & 0x04 != 0,
                decimal: v & 0x08 != 0,
                overflow: v & 0x40 != 0,
                negative: v & 0x80 != 0,
                ..s
            })
        }),
{
}

/// JSR pushes the address of its own last byte (the program counter minus one), high byte
/// first, and continues at the operand address.
#[verifier::spinoff_prover]
pub proof fn law_jsr(s: CpuState, i: Instruction)
    requires
        i.op == Operation::JSR,
        i.write_target is Some,
        s.mem.len() == 0x10000,
    ensures
        ({
            let ret = (s.pc as int + 0xFFFF) % 0x10000;
            let t = s.execute(i);
            &&& t.pc == i.write_target->0
            &&& t.sp == (s.sp as int + 254) % 256
            &&& t.mem == (if s.retains_writes {
                s.mem.update(slot(s.sp as int) as int, (ret / 256) as u8).update(
                    slot(s.sp as int - 1) as int,
                    (ret % 256) as u8,
                )
            } else {
                s.mem
            })
            &&& t == (CpuState { pc: t.pc, sp: t.sp, mem: t.mem, ..s })
        }),
{
}

/// RTS's pulls, step by step.
proof fn rts_pulls(s: CpuState)
    ensures
        ({
            let lo = s.read(slot(s.sp as int + 1)) as int;
            let hi = s.read(slot(s.sp as int + 2)) as int;
            s.rts() == (CpuState {
                pc: ((hi * 256 + lo + 1) % 0x10000) as u16,
                sp: ((s.sp as int + 2) % 256) as u8,
                ..s
            })
        }),
{
    let (s1, lo) = s.pop();
    let (s2, hi) = s1.pop();
    assert(stack_addr(s1.sp) == slot(s.sp as int + 1));
    assert(lo == s.read(slot(s.sp as int + 1)));
    assert(stack_addr(s2.sp) == slot(s.sp as int + 2));
    assert(hi == s.read(slot(s.sp as int + 2)));
    assert(s2.sp == ((s.sp as int + 2) % 256) as u8);
    assert(next_addr(word(lo, hi)) == ((hi as int * 256 + lo as int + 1) % 0x10000) as u16);
}

/// RTS pulls a return address, low byte first, and continues one past it.
#[verifier::spinoff_prover]
pub proof fn law_rts(s: CpuState, i: Instruction)
    requires
        i.op == Operation::RTS,
    ensures
        ({
            let lo = s.read(slot(s.sp as int + 1)) as int;
            let hi = s.read(slot(s.sp as int + 2)) as int;
            s.execute(i) == (CpuState {
                pc: ((hi * 256 + lo + 1) % 0x10000) as u16,
                sp: ((s.sp as int + 2) % 256) as u8,
                ..s
            })
        }),
{
    assert(s.execute(i) == s.rts());
    rts_pulls(s);
}

/// RTI's pulls, step by step.
proof fn rti_pulls(s: CpuState)
    ensures
        ({
            let st = s.read(slot(s.sp as int + 1));
            let lo = s.read(slot(s.sp as int + 2)) as int;
            let hi = s.read(slot(s.sp as int + 3)) as int;
            s.rti() == (CpuState {
                pc: (hi * 256 + lo) as u16,
                sp: ((s.sp as int + 3) % 256) as u8,
                carry: st & 0x01 != 0,
                zero: st & 0x02 != 0,
                interruptd: st & 0x04 != 0,
                decimal: st & 0x08 != 0,
                overflow: st & 0x40 != 0,
                negative: st & 0x80 != 0,
                ..s
            })
        }),
{
    let (s1, st) = s.pop();
    let s1b = s1.with_status_byte(st);
    let (s2, lo) = s1b.pop();
    let (s3, hi) = s2.pop();
    assert(stack_addr(s1.sp) == slot(s.sp as int + 1));
    assert(st == s.read(slot(s.sp as int + 1)));
    assert(stack_addr(s2.sp) == slot(s.sp as int + 2));
    assert(lo == s.read(slot(s.sp as int + 2)));
    assert(stack_addr(s3.sp) == slot(s.sp as int + 3));
    assert(hi == s.read(slot(s.sp as int + 3)));
    assert(s3.sp == ((s.sp as int + 3) % 256) as u8);
}

/// RTI pulls the flags, then the program counter, low byte first, and continues there.
#[verifier::spinoff_prover]
pub proof fn law_rti(s: CpuState, i: Instruction)
    requires
        i.op == Operation::RTI,
    ensures
        ({
            let st = s.read(slot(s.sp as int + 1));
            let lo = s.read(slot(s.sp as int + 2)) as int;
            let hi = s.read(slot(s.sp as int + 3)) as int;
            s.execute(i) == (CpuState {
                pc: (hi * 256 + lo) as u16,
                sp: ((s.sp as int + 3) % 256) as u8,
                carry: st & 0x01 != 0,
                zero: st & 0x02 != 0,
                interruptd: st & 0x04 != 0,
                decimal: st & 0x08 != 0,
                overflow: st & 0x40 != 0,
                negative: st & 0x80 != 0,
                ..s
            })
        }),
{
    assert(s.execute(i) == s.rti());
    rti_pulls(s);
}

/// BRK pushes the address past its padding byte (high byte first) and the status byte,
/// disables interrupts, and continues at the address stored at 0xFFFE.
#[verifier::spinoff_prover]
pub proof fn law_brk(s: CpuState, i: Instruction)
    requires
        i.op == Operation::BRK,
        s.mem.len() == 0x10000,
    ensures
        ({
            let ret = (s.pc as int + 1) % 0x10000;
            let t = s.execute(i);
            let mem = if s.retains_writes {
                s.mem.update(slot(s.sp as int) as int, (ret / 256) as u8).update(
                    slot(s.sp as int - 1) as int,
                    (ret % 256) as u8,
                ).update(slot(s.sp as int - 2) as int, s.status_byte(true))
            } else {
                s.mem
            };
            &&& t.mem == mem
            &&& t.pc == (mem[0xFFFE] as int + 256 * mem[0xFFFF] as int) as u16
            &&& t.sp == (s.sp as int + 253) % 256
            &&& t == (CpuState { pc: t.pc, sp: t.sp, mem: t.mem, interruptd: true, ..s })
        }),
{
    assert(s.execute(i) == s.brk());
    let ret = (s.pc as int + 1) % 0x10000;
    let a = s.push((ret / 256) as u8);
    let b = a.push((ret % 256) as u8);
    assert(s.push16(next_addr(s.pc)) == b);
    assert(stack_addr(s.sp) == slot(s.sp as int));
    assert(stack_addr(a.sp) == slot(s.sp as int - 1));
    assert(stack_addr(b.sp) == slot(s.sp as int - 2));
    assert(b.status_byte(true) == s.status_byte(true));
    let c = b.push(s.status_byte(true));
    assert(c.mem.len() == 0x10000);
    assert(c.sp == (s.sp as int + 253) % 256);
}

// The clock

/// One clock runs the decoded instruction with the counter one up and the program counter
/// moved past the instruction, wrapping.
pub proof fn law_step(s: CpuState)
    ensures
        ({
            let (i, n) = s.decode();
            s.step() == (CpuState {
                counter: (s.counter + 1) as usize,
                pc: ((s.pc as int + n as int) % 0x10000) as u16,
                ..s
            }).execute(i)
        }),
{
}

// The opcode table

/// The documented encoding of the ALU group: for an opcode `aaabbb01`, `aaa` names the
/// operation (ORA, AND, EOR, ADC, STA, LDA, CMP, SBC) and `bbb` the addressing mode
/// ((zp,X), zp, #imm, abs, (zp),Y, zp,X, abs,Y, abs,X). The one hole, STA #imm (0x89), is a
/// NOP.
pub proof fn law_opcode_alu_group(op: u8)
    requires
        op % 4 == 1,
        op != 0x89,
    ensures
        ({
            let (o, m, _c, _p) = opcode_info(op);
            let a = op / 32;
            let b = (op / 4) % 8;
            &&& o == (if a == 0 {
                Operation::ORA
            } else if a == 1 {
                Operation::AND
            } else if a == 2 {
                Operation::EOR
            } else if a == 3 {
                Operation::ADC
            } else if a == 4 {
                Operation::STA
            } else if a == 5 {
                Operation::LDA
            } else if a == 6 {
                Operation::CMP
            } else {
                Operation::SBC
            })
            &&& m == (if b == 0 {
                AddressingMode::IndirectX
            } else if b == 1 {
                AddressingMode::ZeroPage
            } else if b == 2 {
                AddressingMode::Immediate
            } else if b == 3 {
                AddressingMode::Absolute
            } else if b == 4 {
                AddressingMode::IndirectY
            } else if b == 5 {
                AddressingMode::ZeroPageX
            } else if b == 6 {
                AddressingMode::AbsoluteY
            } else {
                AddressingMode::AbsoluteX
            })
        }),
{
    assert(
        op == 1 || op == 5 || op == 9 || op == 13 || op == 17 || op == 21 || op == 25 ||
        op == 29 || op == 33 || op == 37 || op == 41 || op == 45 || op == 49 || op == 53 ||
        op == 57 || op == 61 || op == 65 || op == 69 || op == 73 || op == 77 || op == 81 ||
        op == 85 || op == 89 || op == 93 || op == 97 || op == 101 || op == 105 || op == 109 ||
        op == 113 || op == 117 || op == 121 || op == 125 || op == 129 || op == 133 ||
        op == 141 || op == 145 || op == 149 || op == 153 || op == 157 || op == 161 ||
        op == 165 || op == 169 || op == 173 || op == 177 || op == 181 || op == 185 ||
        op == 189 || op == 193 || op == 197 || op == 201 || op == 205 || op == 209 ||
        op == 213 || op == 217 || op == 221 || op == 225 || op == 229 || op == 233 ||
        op == 237 || op == 241 || op == 245 || op == 249 || op == 253
    );
}

/// The documented encoding of the branches: for an opcode `xxy10000`, `xx` names the flag
/// (negative, overflow, carry, zero) and `y` whether the branch is taken when it is set;
/// every branch is relative.
pub proof fn law_opcode_branches(op: u8)
    requires
        op % 32 == 16,
    ensures
        ({
            let (o, m, _c, _p) = opcode_info(op);
            let flag = op / 64;
            let when_set = (op / 32) % 2 == 1;
            &&& m == AddressingMode::Relative
            &&& o == (if flag == 0 {
                if when_set {
                    Operation::BMI
                } else {
                    Operation::BPL
                }
            } else if flag == 1 {
                if when_set {
                    Operation::BVS
                } else {
                    Operation::BVC
                }
            } else if flag == 2 {
                if when_set {
                    Operation::BCS
                } else {
                    Operation::BCC
                }
            } else {
                if when_set {
                    Operation::BEQ
                } else {
                    Operation::BNE
                }
            })
        }),
{
    assert(
        op == 16 || op == 48 || op == 80 || op == 112 || op == 144 || op == 176 || op == 208 ||
        op == 240
    );
}

/// The documented encoding of the shifts and rotates: for an opcode `aaabbb10` with `aaa` below
/// 4, `aaa` names the operation (ASL, ROL, LSR, ROR) and `bbb` the mode: zp, the accumulator
/// (written as an implicit operand for LSR and ROR, which acts the same), abs, zp,X, abs,X.
pub proof fn law_opcode_shifts(op: u8)
    requires
        op % 4 == 2,
        op / 32 < 4,
        (op / 4) % 8 == 1 || (op / 4) % 8 == 2 || (op / 4) % 8 == 3 || (op / 4) % 8 == 5 || (op
            / 4) % 8 == 7,
    ensures
        ({
            let (o, m, _c, _p) = opcode_info(op);
            let a = op / 32;
            let b = (op / 4) % 8;
            &&& o == (if a == 0 {
                Operation::ASL
            } else if a == 1 {
                Operation::ROL
            } else if a == 2 {
                Operation::LSR
            } else {
                Operation::ROR
            })
            &&& b == 1 ==> m == AddressingMode::ZeroPage
            &&& b == 2 ==> (m == AddressingMode::Accumulator || m == AddressingMode::Implicit)
            &&& b == 3 ==> m == AddressingMode::Absolute
            &&& b == 5 ==> m == AddressingMode::ZeroPageX
            &&& b == 7 ==> m == AddressingMode::AbsoluteX
        }),
{
    assert(
        op == 6 || op == 10 || op == 14 || op == 22 || op == 30 || op == 38 || op == 42 ||
        op == 46 || op == 54 || op == 62 || op == 70 || op == 74 || op == 78 || op == 86 ||
        op == 94 || op == 102 || op == 106 || op == 110 || op == 118 || op == 126
    );
}

/// Only JMP at 0x4C and 0x6C and JSR at 0x20 are jumps, and they take an absolute or
/// indirect address.
proof fn jump_opcodes(b: u8)
    ensures
        opcode_info(b).0 == Operation::JMP ==> (b == 0x4C && opcode_info(b).1
            == AddressingMode::Absolute) || (b == 0x6C && opcode_info(b).1
            == AddressingMode::Indirect),
        opcode_info(b).0 == Operation::JSR ==> b == 0x20 && opcode_info(b).1
            == AddressingMode::Absolute,
{
    assert(
        b == 0 || b == 1 || b == 2 || b == 3 || b == 4 || b == 5 || b == 6 || b == 7 ||
        b == 8 || b == 9 || b == 10 || b == 11 || b == 12 || b == 13 || b == 14 || b == 15 ||
        b == 16 || b == 17 || b == 18 || b == 19 || b == 20 || b == 21 || b == 22 || b == 23 ||
        b == 24 || b == 25 || b == 26 || b == 27 || b == 28 || b == 29 || b == 30 || b == 31 ||
        b == 32 || b == 33 || b == 34 || b == 35 || b == 36 || b == 37 || b == 38 || b == 39 ||
        b == 40 || b == 41 || b == 42 || b == 43 || b == 44 || b == 45 || b == 46 || b == 47 ||
        b == 48 || b == 49 || b == 50 || b == 51 || b == 52 || b == 53 || b == 54 || b == 55 ||
        b == 56 || b == 57 || b == 58 || b == 59 || b == 60 || b == 61 || b == 62 || b == 63 ||
        b == 64 || b == 65 || b == 66 || b == 67 || b == 68 || b == 69 || b == 70 || b == 71 ||
        b == 72 || b == 73 || b == 74 || b == 75 || b == 76 || b == 77 || b == 78 || b == 79 ||
        b == 80 || b == 81 || b == 82 || b == 83 || b == 84 || b == 85 || b == 86 || b == 87 ||
        b == 88 || b == 89 || b == 90 || b == 91 || b == 92 || b == 93 || b == 94 || b == 95 ||
        b == 96 || b == 97 || b == 98 || b == 99 || b == 100 || b == 101 || b == 102 ||
        b == 103 || b == 104 || b == 105 || b == 106 || b == 107 || b == 108 || b == 109 ||
        b == 110 || b == 111 || b == 112 || b == 113 || b == 114 || b == 115 || b == 116 ||
        b == 117 || b == 118 || b == 119 || b == 120 || b == 121 || b == 122 || b == 123 ||
        b == 124 || b == 125 || b == 126 || b == 127 || b == 128 || b == 129 || b == 130 ||
        b == 131 || b == 132 || b == 133 || b == 134 || b == 135 || b == 136 || b == 137 ||
        b == 138 || b == 139 || b == 140 || b == 141 || b == 142 || b == 143 || b == 144 ||
        b == 145 || b == 146 || b == 147 || b == 148 || b == 149 || b == 150 || b == 151 ||
        b == 152 || b == 153 || b == 154 || b == 155 || b == 156 || b == 157 || b == 158 ||
        b == 159 || b == 160 || b == 161 || b == 162 || b == 163 || b == 164 || b == 165 ||
        b == 166 || b == 167 || b == 168 || b == 169 || b == 170 || b == 171 || b == 172 ||
        b == 173 || b == 174 || b == 175 || b == 176 || b == 177 || b == 178 || b == 179 ||
        b == 180 || b == 181 || b == 182 || b == 183 || b == 184 || b == 185 || b == 186 ||
        b == 187 || b == 188 || b == 189 || b == 190 || b == 191 || b == 192 || b == 193 ||
        b == 194 || b == 195 || b == 196 || b == 197 || b == 198 || b == 199 || b == 200 ||
        b == 201 || b == 202 || b == 203 || b == 204 || b == 205 || b == 206 || b == 207 ||
        b == 208 || b == 209 || b == 210 || b == 211 || b == 212 || b == 213 || b == 214 ||
        b == 215 || b == 216 || b == 217 || b == 218 || b == 219 || b == 220 || b == 221 ||
        b == 222 || b == 223 || b == 224 || b == 225 || b == 226 || b == 227 || b == 228 ||
        b == 229 || b == 230 || b == 231 || b == 232 || b == 233 || b == 234 || b == 235 ||
        b == 236 || b == 237 || b == 238 || b == 239 || b == 240 || b == 241 || b == 242 ||
        b == 243 || b == 244 || b == 245 || b == 246 || b == 247 || b == 248 || b == 249 ||
        b == 250 || b == 251 || b == 252 || b == 253 || b == 254 || b == 255
    );
}

/// A clock runs exactly when the counter has room and the opcode at the program counter is a
/// documented operation; KIL halts, and the undocumented operations are refused.
pub proof fn law_clock_runs_documented_operations(s: CpuState)
    ensures
        ({
            let op = opcode_info(s.read(s.pc)).0;
            &&& s.can_step() <==> (s.counter < usize::MAX && op.spec_is_implemented())
            &&& (s.counter < usize::MAX && op == Operation::KIL) ==> s.clock_fault() == Some(
                ClockFault::Halted,
            )
        }),
{
    jump_opcodes(s.read(s.pc));
}

} // verus!
