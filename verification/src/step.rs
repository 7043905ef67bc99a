use vstd::prelude::*;

use crate::c6502::C6502;
use crate::instruction::{Instruction, Operation};
use crate::mapper::AddressSpace;
use crate::state::ClockFault;

verus! {

impl<M: AddressSpace> C6502<M> {
    /// Run a decoded instruction.
    #[verifier::rlimit(60)]
    pub fn execute_instruction(&mut self, i: Instruction)
        requires
            old(self).wf(),
            old(self)@.can_execute(i),
        ensures
            final(self).wf(),
            final(self)@ == old(self)@.execute(i),
    {
        let v = i.operand_byte();
        match i.op {
            Operation::ADC => self.execute_adc(v),
            Operation::AND => self.execute_and(v),
            Operation::ASL => {
                let r = self.read_write_target(i.write_target);
                let w = self.execute_asl(r);
                self.store_write_target(w, i.write_target);
            },
            Operation::BCC => self.execute_bcc(v),
            Operation::BCS => self.execute_bcs(v),
            Operation::BEQ => self.execute_beq(v),
            Operation::BIT => self.execute_bit(v),
            Operation::BMI => self.execute_bmi(v),
            Operation::BNE => self.execute_bne(v),
            Operation::BPL => self.execute_bpl(v),
            Operation::BRK => self.execute_brk(),
            Operation::BVC => self.execute_bvc(v),
            Operation::BVS => self.execute_bvs(v),
            Operation::CLC => self.execute_clc(),
            Operation::CLD => self.execute_cld(),
            Operation::CLI => self.execute_cli(),
            Operation::CLV => self.execute_clv(),
            Operation::CMP => self.execute_cmp(v),
            Operation::CPX => self.execute_cpx(v),
            Operation::CPY => self.execute_cpy(v),
            Operation::DEC => {
                let r = self.read_write_target(i.write_target);
                let w = self.execute_dec(r);
                self.store_write_target(w, i.write_target);
            },
            Operation::DEX => self.execute_dex(),
            Operation::DEY => self.execute_dey(),
            Operation::EOR => self.execute_eor(v),
            Operation::INC => {
                let r = self.read_write_target(i.write_target);
                let w = self.execute_inc(r);
                self.store_write_target(w, i.write_target);
            },
            Operation::INX => self.execute_inx(),
            Operation::INY => self.execute_iny(),
            Operation::JMP => self.execute_jmp(i.write_target.unwrap()),
            Operation::JSR => self.execute_jsr(i.write_target.unwrap()),
            Operation::LDA => self.execute_lda(v),
            Operation::LDX => self.execute_ldx(v),
            Operation::LDY => self.execute_ldy(v),
            Operation::LSR => {
                let r = self.read_write_target(i.write_target);
                let w = self.execute_lsr(r);
                self.store_write_target(w, i.write_target);
            },
            Operation::NOP => self.execute_nop(),
            Operation::ORA => self.execute_ora(v),
            Operation::PHA => self.execute_pha(),
            Operation::PHP => self.execute_php(),
            Operation::PLA => self.execute_pla(),
            Operation::PLP => self.execute_plp(),
            Operation::ROL => {
                let r = self.read_write_target(i.write_target);
                let w = self.execute_rol(r);
                self.store_write_target(w, i.write_target);
            },
            Operation::ROR => {
                let r = self.read_write_target(i.write_target);
                let w = self.execute_ror(r);
                self.store_write_target(w, i.write_target);
            },
            Operation::RTI => self.execute_rti(),
            Operation::RTS => self.execute_rts(),
            Operation::SBC => self.execute_sbc(v),
            Operation::SEC => self.execute_sec(),
            Operation::SED => self.execute_sed(),
            Operation::SEI => self.execute_sei(),
            Operation::STA => {
                let w = self.acc;
                self.store_write_target(w, i.write_target)
            },
            Operation::STX => {
                let w = self.x;
                self.store_write_target(w, i.write_target)
            },
            Operation::STY => {
                let w = self.y;
                self.store_write_target(w, i.write_target)
            },
            Operation::TAX => self.execute_tax(),
            Operation::TAY => self.execute_tay(),
            Operation::TSX => self.execute_tsx(),
            Operation::TXA => self.execute_txa(),
            Operation::TXS => self.execute_txs(),
            Operation::TYA => self.execute_tya(),
            _ => {},
        }
    }

    /// One clock: fetch the instruction at the program counter, move past it, and run it.
    pub fn clock(&mut self)
        requires
            old(self).wf(),
            old(self)@.can_step(),
        ensures
            final(self).wf(),
            final(self)@ == old(self)@.step(),
    {
        let ghost before = self@;
        let (i, num_bytes) = self.decode_instruction();
        self.counter = self.counter + 1;
        self.pc = self.pc.wrapping_add(num_bytes);
        assert(self@ == before.fetched());
        self.execute_instruction(i);
    }

    /// Why one clock cannot run from this state, or `None` when it can.
    pub fn clock_fault(&self) -> (r: Option<ClockFault>)
        requires
            self.wf(),
        ensures
            r == self@.clock_fault(),
            r is None <==> self@.can_step(),
    {
        if self.counter == usize::MAX {
            return Some(ClockFault::CounterOverflow);
        }
        let (i, _num_bytes) = self.decode_instruction();
        if i.op == Operation::KIL {
            return Some(ClockFault::Halted);
        }
        if !i.op.is_implemented() {
            return Some(ClockFault::Unimplemented(i.op));
        }
        if (i.op == Operation::JMP || i.op == Operation::JSR) && i.write_target.is_none() {
            return Some(ClockFault::MissingTarget);
        }
        None
    }
}

/// Run `n` clocks.
pub fn run_clocks<M: AddressSpace>(c: &mut C6502<M>, n: usize)
    requires
        old(c).wf(),
        old(c)@.can_run(n as nat),
    ensures
        final(c).wf(),
        final(c)@ == old(c)@.steps(n as nat),
{
    let ghost target = c@.steps(n as nat);
    let mut k: usize = 0;
    while k < n
        invariant
            k <= n,
            c.wf(),
            c@.can_run((n - k) as nat),
            c@.steps((n - k) as nat) == target,
        decreases n - k,
    {
        c.clock();
        k = k + 1;
    }
}

} // verus!
