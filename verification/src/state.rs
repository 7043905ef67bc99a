use vstd::prelude::*;

use crate::instruction::{opcode_info, AddressingMode, Instruction, Operation, WriteTarget};

verus! {

/// Base address of the stack page.
pub const STACK_PAGE: u16 = 0x0100;

/// Where the program counter starts after reset.
pub const ADDRESS_RESET: u16 = 0xC000;

/// Where test programs are loaded and started.
pub const ADDRESS_TEST_PROGRAM: u16 = 0xC000;

/// Address of the interrupt vector that `BRK` jumps through.
pub const ADDRESS_IRQ_VECTOR: u16 = 0xFFFE;

/// Why a clock cannot run.
#[derive(Copy, Clone, Debug, PartialEq, Eq, Structural)]
pub enum ClockFault {
    /// The clock counter is at its maximum.
    CounterOverflow,
    /// The instruction is `KIL`.
    Halted,
    /// The instruction is one of the undocumented operations, which the CPU does not execute.
    Unimplemented(Operation),
    /// A jump has no target address.
    MissingTarget,
}

/// The abstract state of the CPU: its registers and flags, the bytes its address space reads,
/// whether that space keeps writes, and its bookkeeping counters.
pub struct CpuState {
    pub acc: u8,
    pub x: u8,
    pub y: u8,
    pub pc: u16,
    pub sp: u8,
    pub carry: bool,
    pub zero: bool,
    pub interruptd: bool,
    pub decimal: bool,
    pub overflow: bool,
    pub negative: bool,
    pub mem: Seq<u8>,
    pub retains_writes: bool,
    pub counter: usize,
    pub clocks: usize,
    pub is_tracing: bool,
}

/// A byte read as a two's complement signed number.
pub open spec fn sign_extend(v: u8) -> int {
    if v < 128 {
        v as int
    } else {
        v as int - 256
    }
}

/// The 16-bit value with low byte `lo` and high byte `hi`.
pub open spec fn word(lo: u8, hi: u8) -> u16 {
    (hi as int * 256 + lo as int) as u16
}

/// The next address, wrapping from 0xFFFF to 0.
pub open spec fn next_addr(p: u16) -> u16 {
    ((p as int + 1) % 0x10000) as u16
}

/// A branch byte as the CPU adds it to the program counter: sign-extended to 16 bits.
pub open spec fn branch_offset(v: u8) -> u16 {
    if v < 128 {
        v as u16
    } else {
        (v as int + 0xFF00) as u16
    }
}

/// A byte counts as negative when its top bit is set.
pub open spec fn spec_is_negative(v: u8) -> bool {
    v >= 128
}

/// The address of stack slot `sp`.
pub open spec fn stack_addr(sp: u8) -> u16 {
    (STACK_PAGE as int + sp as int) as u16
}

/// `bit` when the flag is set, else 0.
pub open spec fn flag_value(b: bool, bit: int) -> int {
    if b {
        bit
    } else {
        0
    }
}

/// Result of decrementing `v`, wrapping from 0 to 255.
pub open spec fn dec_value(v: u8) -> u8 {
    ((v as int + 255) % 256) as u8
}

/// Result of incrementing `v`, wrapping from 255 to 0.
pub open spec fn inc_value(v: u8) -> u8 {
    ((v as int + 1) % 256) as u8
}

/// Result of a logical shift right by one.
pub open spec fn lsr_value(v: u8) -> u8 {
    v / 2
}

/// Result of a rotate left through carry: `v` shifted left, with `carry` in bit 0.
pub open spec fn rol_value(v: u8, carry: bool) -> u8 {
    ((v as int * 2) % 256 + flag_value(carry, 1)) as u8
}

/// Result of a rotate right through carry: `v` shifted right, with `carry` in bit 7.
pub open spec fn ror_value(v: u8, carry: bool) -> u8 {
    (v as int / 2 + flag_value(carry, 128)) as u8
}

/// Result of a shift left by one.
pub open spec fn asl_value(v: u8) -> u8 {
    ((v as int * 2) % 256) as u8
}

/// Bytes after the opcode that an operand of addressing `mode` takes, as the decoder counts them.
pub open spec fn operand_length(mode: AddressingMode) -> u16 {
    match mode {
        AddressingMode::Absolute
        | AddressingMode::AbsoluteX
        | AddressingMode::AbsoluteY
        | AddressingMode::Indirect => 2,
        AddressingMode::Accumulator | AddressingMode::Implicit => 0,
        _ => 1,
    }
}

impl CpuState {
    /// What address `p` reads.
    pub open spec fn read(self, p: u16) -> u8 {
        self.mem[p as int]
    }

    /// The state after writing `v` to address `p`.
    pub open spec fn write(self, p: u16, v: u8) -> CpuState {
        CpuState {
            mem: if self.retains_writes {
                self.mem.update(p as int, v)
            } else {
                self.mem
            },
            ..self
        }
    }

    /// The little-endian 16-bit value at `p` and the address after it.
    pub open spec fn read16(self, p: u16) -> u16 {
        word(self.read(p), self.read(next_addr(p)))
    }

    /// The little-endian 16-bit value at `p`, its high byte taken from the next address in
    /// the same page (as the 6502 reads the pointer of an indirect jump).
    pub open spec fn read16_in_page(self, p: u16) -> u16 {
        word(self.read(p), self.read(((p as int / 256) * 256 + (p as int + 1) % 256) as u16))
    }

    /// The little-endian 16-bit value at zero-page address `p`, its high byte taken
    /// from the next zero-page address.
    pub open spec fn read_zero16(self, p: u8) -> u16 {
        word(self.read(p as u16), self.read(((p as int + 1) % 256) as u16))
    }

    /// Zero and negative flags set from a result byte.
    pub open spec fn with_result_flags(self, v: u8) -> CpuState {
        CpuState { zero: v == 0, negative: spec_is_negative(v), ..self }
    }

    /// The status register as a byte: carry, zero, interrupt-disable and decimal in bits 0 to 3,
    /// bit 4 (break) clear, bit 5 set for an instruction push, overflow and negative in bits 6, 7.
    pub open spec fn status_byte(self, is_instruction: bool) -> u8 {
        (flag_value(self.carry, 1) + flag_value(self.zero, 2) + flag_value(self.interruptd, 4)
            + flag_value(self.decimal, 8) + flag_value(is_instruction, 32) + flag_value(
            self.overflow,
            64,
        ) + flag_value(self.negative, 128)) as u8
    }

    /// The flags loaded from a status byte (bits 4 and 5 are ignored).
    pub open spec fn with_status_byte(self, v: u8) -> CpuState {
        CpuState {
            carry: v & 0x01 != 0,
            zero: v & 0x02 != 0,
            interruptd: v & 0x04 != 0,
            decimal: v & 0x08 != 0,
            overflow: v & 0x40 != 0,
            negative: v & 0x80 != 0,
            ..self
        }
    }

    /// Push a byte: write it at the stack slot, then move the stack pointer down.
    pub open spec fn push(self, v: u8) -> CpuState {
        let s = self.write(stack_addr(self.sp), v);
        CpuState { sp: ((self.sp as int + 255) % 256) as u8, ..s }
    }

    /// Pop a byte: move the stack pointer up, then read the slot.
    pub open spec fn pop(self) -> (CpuState, u8) {
        let sp = ((self.sp as int + 1) % 256) as u8;
        (CpuState { sp, ..self }, self.read(stack_addr(sp)))
    }

    /// Push a 16-bit value, high byte first.
    pub open spec fn push16(self, v: u16) -> CpuState {
        self.push((v as int / 256) as u8).push((v as int % 256) as u8)
    }

    /// Pop a 16-bit value, low byte first.
    pub open spec fn pop16(self) -> (CpuState, u16) {
        let (s1, lo) = self.pop();
        let (s2, hi) = s1.pop();
        (s2, word(lo, hi))
    }

    // Instructions

    pub open spec fn adc(self, v: u8) -> CpuState {
        let sum = v as int + self.acc as int + flag_value(self.carry, 1);
        let carry = sum > 255;
        let r = (sum % 256) as u8;
        let signed_sum = sign_extend(v) + sign_extend(self.acc) + flag_value(self.carry, 1);
        CpuState {
            acc: r,
            carry,
            overflow: signed_sum < -128 || signed_sum > 127,
            ..self
        }.with_result_flags(r)
    }

    pub open spec fn sbc(self, v: u8) -> CpuState {
        let diff = self.acc as int - v as int - flag_value(!self.carry, 1);
        let carry = diff >= 0;
        let r = (diff % 256) as u8;
        let signed_sub = sign_extend(self.acc) - sign_extend(v) - flag_value(!self.carry, 1);
        CpuState {
            acc: r,
            carry,
            overflow: signed_sub < -128 || signed_sub > 127,
            ..self
        }.with_result_flags(r)
    }

    pub open spec fn and(self, v: u8) -> CpuState {
        CpuState { acc: self.acc & v, ..self }.with_result_flags(self.acc & v)
    }

    pub open spec fn ora(self, v: u8) -> CpuState {
        CpuState { acc: self.acc | v, ..self }.with_result_flags(self.acc | v)
    }

    pub open spec fn eor(self, v: u8) -> CpuState {
        CpuState { acc: self.acc ^ v, ..self }.with_result_flags(self.acc ^ v)
    }

    /// Flags after a shift left of `v`: the old top bit goes to carry.
    pub open spec fn asl_flags(self, v: u8) -> CpuState {
        CpuState { carry: v >= 128, ..self }.with_result_flags(asl_value(v))
    }

    /// Move the program counter by the signed byte `v`, wrapping round the address space.
    pub open spec fn branch(self, v: u8) -> CpuState {
        CpuState { pc: ((self.pc as int + branch_offset(v) as int) % 0x10000) as u16, ..self }
    }

    /// Branch by `v` when `cond` holds.
    pub open spec fn branch_if(self, cond: bool, v: u8) -> CpuState {
        if cond {
            self.branch(v)
        } else {
            self
        }
    }

    pub open spec fn bit(self, v: u8) -> CpuState {
        CpuState {
            negative: v & 0x80 != 0,
            overflow: v & 0x40 != 0,
            zero: v & self.acc == 0,
            ..self
        }
    }

    /// Push the address past BRK's padding byte and the status byte, disable interrupts,
    /// then jump through the interrupt vector.
    pub open spec fn brk(self) -> CpuState {
        let s = self.push16(next_addr(self.pc));
        let s = s.push(s.status_byte(true));
        CpuState { pc: s.read16(ADDRESS_IRQ_VECTOR), interruptd: true, ..s }
    }

    /// Flags from comparing `a` with `b`.
    pub open spec fn compare(self, a: u8, b: u8) -> CpuState {
        CpuState {
            carry: a >= b,
            zero: a == b,
            negative: spec_is_negative(((a as int - b as int + 256) % 256) as u8),
            ..self
        }
    }

    pub open spec fn jsr(self, target: u16) -> CpuState {
        let s = self.push16(((self.pc as int + 0xFFFF) % 0x10000) as u16);
        CpuState { pc: target, ..s }
    }

    pub open spec fn rts(self) -> CpuState {
        let (s, p) = self.pop16();
        CpuState { pc: next_addr(p), ..s }
    }

    pub open spec fn rti(self) -> CpuState {
        let (s, status) = self.pop();
        let (s, p) = s.with_status_byte(status).pop16();
        CpuState { pc: p, ..s }
    }

    pub open spec fn pla(self) -> CpuState {
        let (s, v) = self.pop();
        CpuState { acc: v, ..s }.with_result_flags(v)
    }

    pub open spec fn plp(self) -> CpuState {
        let (s, v) = self.pop();
        s.with_status_byte(v)
    }

    /// Flags after a logical shift right of `v`.
    pub open spec fn lsr_flags(self, v: u8) -> CpuState {
        CpuState { carry: v & 0x01 != 0, ..self }.with_result_flags(lsr_value(v))
    }

    /// Flags after a rotate left of `v` through the carry.
    pub open spec fn rol_flags(self, v: u8) -> CpuState {
        CpuState { carry: v & 0x80 != 0, ..self }.with_result_flags(rol_value(v, self.carry))
    }

    /// Flags after a rotate right of `v` through the carry.
    pub open spec fn ror_flags(self, v: u8) -> CpuState {
        CpuState { carry: v & 0x01 != 0, ..self }.with_result_flags(ror_value(v, self.carry))
    }

    /// The byte an instruction's target holds: the accumulator or a memory byte.
    pub open spec fn read_target(self, target: WriteTarget) -> u8 {
        match target {
            None => self.acc,
            Some(p) => self.read(p),
        }
    }

    /// Store `v` into an instruction's target: the accumulator or a memory byte.
    pub open spec fn store_target(self, v: u8, target: WriteTarget) -> CpuState {
        match target {
            None => CpuState { acc: v, ..self },
            Some(p) => self.write(p, v),
        }
    }

    /// Instruction `i` can run: its operation is one the CPU executes, and a jump has a target.
    pub open spec fn can_execute(self, i: Instruction) -> bool {
        &&& i.op.spec_is_implemented()
        &&& (i.op == Operation::JMP || i.op == Operation::JSR) ==> i.write_target is Some
    }

    /// The state after executing `i`.
    pub open spec fn execute(self, i: Instruction) -> CpuState {
        let v = i.spec_operand_byte();
        let t = i.write_target;
        match i.op {
            Operation::ADC => self.adc(v),
            Operation::AND => self.and(v),
            Operation::ASL => {
                let r = self.read_target(t);
                self.asl_flags(r).store_target(asl_value(r), t)
            },
            Operation::BCC => self.branch_if(!self.carry, v),
            Operation::BCS => self.branch_if(self.carry, v),
            Operation::BEQ => self.branch_if(self.zero, v),
            Operation::BIT => self.bit(v),
            Operation::BMI => self.branch_if(self.negative, v),
            Operation::BNE => self.branch_if(!self.zero, v),
            Operation::BPL => self.branch_if(!self.negative, v),
            Operation::BRK => self.brk(),
            Operation::BVC => self.branch_if(!self.overflow, v),
            Operation::BVS => self.branch_if(self.overflow, v),
            Operation::CLC => CpuState { carry: false, ..self },
            Operation::CLD => CpuState { decimal: false, ..self },
            Operation::CLI => CpuState { interruptd: false, ..self },
            Operation::CLV => CpuState { overflow: false, ..self },
            Operation::CMP => self.compare(self.acc, v),
            Operation::CPX => self.compare(self.x, v),
            Operation::CPY => self.compare(self.y, v),
            Operation::DEC => {
                let w = dec_value(self.read_target(t));
                self.with_result_flags(w).store_target(w, t)
            },
            Operation::DEX => CpuState { x: dec_value(self.x), ..self }.with_result_flags(
                dec_value(self.x),
            ),
            Operation::DEY => CpuState { y: dec_value(self.y), ..self }.with_result_flags(
                dec_value(self.y),
            ),
            Operation::EOR => self.eor(v),
            Operation::INC => {
                let w = inc_value(self.read_target(t));
                self.with_result_flags(w).store_target(w, t)
            },
            Operation::INX => CpuState { x: inc_value(self.x), ..self }.with_result_flags(
                inc_value(self.x),
            ),
            Operation::INY => CpuState { y: inc_value(self.y), ..self }.with_result_flags(
                inc_value(self.y),
            ),
            Operation::JMP => CpuState { pc: t->0, ..self },
            Operation::JSR => self.jsr(t->0),
            Operation::LDA => CpuState { acc: v, ..self }.with_result_flags(v),
            Operation::LDX => CpuState { x: v, ..self }.with_result_flags(v),
            Operation::LDY => CpuState { y: v, ..self }.with_result_flags(v),
            Operation::LSR => {
                let r = self.read_target(t);
                self.lsr_flags(r).store_target(lsr_value(r), t)
            },
            Operation::NOP => self,
            Operation::ORA => self.ora(v),
            Operation::PHA => self.push(self.acc),
            Operation::PHP => self.push(self.status_byte(true)),
            Operation::PLA => self.pla(),
            Operation::PLP => self.plp(),
            Operation::ROL => {
                let r = self.read_target(t);
                self.rol_flags(r).store_target(rol_value(r, self.carry), t)
            },
            Operation::ROR => {
                let r = self.read_target(t);
                self.ror_flags(r).store_target(ror_value(r, self.carry), t)
            },
            Operation::RTI => self.rti(),
            Operation::RTS => self.rts(),
            Operation::SBC => self.sbc(v),
            Operation::SEC => CpuState { carry: true, ..self },
            Operation::SED => CpuState { decimal: true, ..self },
            Operation::SEI => CpuState { interruptd: true, ..self },
            Operation::STA => self.store_target(self.acc, t),
            Operation::STX => self.store_target(self.x, t),
            Operation::STY => self.store_target(self.y, t),
            Operation::TAX => CpuState { x: self.acc, ..self }.with_result_flags(self.acc),
            Operation::TAY => CpuState { y: self.acc, ..self }.with_result_flags(self.acc),
            Operation::TSX => CpuState { x: self.sp, ..self }.with_result_flags(self.sp),
            Operation::TXA => CpuState { acc: self.x, ..self }.with_result_flags(self.x),
            Operation::TXS => CpuState { sp: self.x, ..self },
            Operation::TYA => CpuState { acc: self.y, ..self }.with_result_flags(self.y),
            _ => self,
        }
    }

    /// The address of the operand of addressing `mode` whose bytes start at `ptr`
    /// (for the modes that have one).
    pub open spec fn operand_address(self, mode: AddressingMode, ptr: u16) -> u16 {
        match mode {
            AddressingMode::ZeroPage => self.read(ptr) as u16,
            AddressingMode::ZeroPageX => ((self.read(ptr) as int + self.x as int) % 256) as u16,
            AddressingMode::ZeroPageY => ((self.read(ptr) as int + self.y as int) % 256) as u16,
            AddressingMode::Absolute => self.read16(ptr),
            AddressingMode::AbsoluteX => ((self.read16(ptr) as int + self.x as int) % 0x10000) as u16,
            AddressingMode::AbsoluteY => ((self.read16(ptr) as int + self.y as int) % 0x10000) as u16,
            AddressingMode::Indirect => self.read16_in_page(self.read16(ptr)),
            AddressingMode::IndirectX => self.read_zero16(
                ((self.read(ptr) as int + self.x as int) % 256) as u8,
            ),
            AddressingMode::IndirectY => ((self.read_zero16(self.read(ptr)) as int + self.y as int)
                % 0x10000) as u16,
            _ => ptr,
        }
    }

    /// The operand of addressing `mode` whose bytes start at `ptr`: its value, its address
    /// (none for the accumulator and implicit modes), and how many bytes after the opcode
    /// it takes.
    pub open spec fn decode_mode(self, mode: AddressingMode, ptr: u16) -> (u16, WriteTarget, u16) {
        match mode {
            AddressingMode::Accumulator => (self.acc as u16, None, 0),
            AddressingMode::Implicit => (0xDEAD, None, 0),
            _ => {
                let a = self.operand_address(mode, ptr);
                (self.read(a) as u16, Some(a), operand_length(mode))
            },
        }
    }

    /// The instruction at the program counter, and how many bytes it takes.
    pub open spec fn decode(self) -> (Instruction, u16) {
        let (op, mode, _cycles, _page_cycles) = opcode_info(self.read(self.pc));
        let (mode_args, write_target, n) = self.decode_mode(mode, next_addr(self.pc));
        (Instruction { op, mode, mode_args, write_target }, (1 + n) as u16)
    }

    /// The `n` instruction bytes at the program counter as one number, the first byte most
    /// significant.
    pub open spec fn trace_bytes(self, n: u16) -> u32 {
        let b0 = self.read(self.pc) as int;
        let b1 = self.read(next_addr(self.pc)) as int;
        let b2 = self.read(next_addr(next_addr(self.pc))) as int;
        if n == 1 {
            b0 as u32
        } else if n == 2 {
            (b0 * 0x100 + b1) as u32
        } else {
            (b0 * 0x10000 + b1 * 0x100 + b2) as u32
        }
    }

    /// The state in which the decoded instruction runs: the counter bumped and the
    /// program counter moved past the instruction.
    pub open spec fn fetched(self) -> CpuState {
        let (_i, n) = self.decode();
        CpuState {
            counter: (self.counter + 1) as usize,
            pc: ((self.pc as int + n as int) % 0x10000) as u16,
            ..self
        }
    }

    /// One clock can run: the counter does not overflow and the instruction can execute.
    pub open spec fn can_step(self) -> bool {
        &&& self.counter < usize::MAX
        &&& self.fetched().can_execute(self.decode().0)
    }

    /// Why one clock cannot run, if it cannot; faults are checked in the order the clock
    /// meets them.
    pub open spec fn clock_fault(self) -> Option<ClockFault> {
        if self.counter == usize::MAX {
            Some(ClockFault::CounterOverflow)
        } else {
            let i = self.decode().0;
            if i.op == Operation::KIL {
                Some(ClockFault::Halted)
            } else if !i.op.spec_is_implemented() {
                Some(ClockFault::Unimplemented(i.op))
            } else if (i.op == Operation::JMP || i.op == Operation::JSR) && i.write_target is None {
                Some(ClockFault::MissingTarget)
            } else {
                None
            }
        }
    }

    /// The state after one clock: fetch the instruction at the program counter, then run it.
    pub open spec fn step(self) -> CpuState {
        self.fetched().execute(self.decode().0)
    }

    /// The state after `n` clocks.
    pub open spec fn steps(self, n: nat) -> CpuState
        decreases n,
    {
        if n == 0 {
            self
        } else {
            self.step().steps((n - 1) as nat)
        }
    }

    /// `n` clocks can run one after another.
    pub open spec fn can_run(self, n: nat) -> bool
        decreases n,
    {
        n == 0 || (self.can_step() && self.step().can_run((n - 1) as nat))
    }
}

} // verus!
