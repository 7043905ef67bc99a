use vstd::prelude::*;

use crate::common::get_bit;
use crate::c6502::{is_negative, C6502};
use crate::mapper::AddressSpace;
use crate::state::{
    asl_value, branch_offset, dec_value, inc_value, lsr_value, rol_value, ror_value, sign_extend, CpuState,
    ADDRESS_IRQ_VECTOR,
};

verus! {

/// `v` sign-extended to 16 bits.
fn sign_extend_byte(v: u8) -> (r: i16)
    ensures
        r == sign_extend(v),
{
    if v < 128 {
        v as i16
    } else {
        v as i16 - 256
    }
}

/// A branch byte as added to the program counter: sign-extended to 16 bits.
fn branch_offset_of(v: u8) -> (r: u16)
    ensures
        r == branch_offset(v),
{
    if v < 128 {
        v as u16
    } else {
        v as u16 + 0xFF00
    }
}

impl<M: AddressSpace> C6502<M> {
    pub fn execute_adc(&mut self, v: u8)
        ensures
            final(self).mapper == old(self).mapper,
            final(self)@ == old(self)@.adc(v),
    {
        let c: u16 = if self.carry { 1 } else { 0 };
        let carry_in: i16 = if self.carry { 1 } else { 0 };
        let sum: u16 = v as u16 + self.acc as u16 + c;
        let signed_sum: i16 = sign_extend_byte(v) + sign_extend_byte(self.acc) + carry_in;
        self.carry = sum > 255;
        self.acc = (sum % 256) as u8;
        self.overflow = (signed_sum < -128) || (signed_sum > 127);
        self.update_accumulator_flags();
    }

    pub fn execute_and(&mut self, v: u8)
        ensures
            final(self).mapper == old(self).mapper,
            final(self)@ == old(self)@.and(v),
    {
        self.acc = self.acc & v;
        self.update_accumulator_flags();
    }

    /// `v` shifted left by one; its top bit goes to carry.
    pub fn execute_asl(&mut self, v: u8) -> (r: u8)
        ensures
            r == asl_value(v),
            final(self).mapper == old(self).mapper,
            final(self)@ == old(self)@.asl_flags(v),
    {
        let ret = v.wrapping_mul(2);
        let top = get_bit(v, 7);
        assert(((v >> 7u8) & 1) > 0 <==> v >= 128) by (bit_vector);
        self.carry = top > 0;
        self.update_result_flags(ret);
        ret
    }

    /// Move the program counter by the signed byte `v`, wrapping round the address space.
    pub fn execute_branch(&mut self, v: u8)
        ensures
            final(self).mapper == old(self).mapper,
            final(self)@ == old(self)@.branch(v),
    {
        self.pc = self.pc.wrapping_add(branch_offset_of(v));
    }

    pub fn execute_bcc(&mut self, v: u8)
        ensures
            final(self).mapper == old(self).mapper,
            final(self)@ == old(self)@.branch_if(!old(self).carry, v),
    {
        if !self.carry {
            self.execute_branch(v);
        }
    }

    pub fn execute_bcs(&mut self, v: u8)
        ensures
            final(self).mapper == old(self).mapper,
            final(self)@ == old(self)@.branch_if(old(self).carry, v),
    {
        if self.carry {
            self.execute_branch(v);
        }
    }

    pub fn execute_beq(&mut self, v: u8)
        ensures
            final(self).mapper == old(self).mapper,
            final(self)@ == old(self)@.branch_if(old(self).zero, v),
    {
        if self.zero {
            self.execute_branch(v);
        }
    }

    pub fn execute_bit(&mut self, v: u8)
        ensures
            final(self).mapper == old(self).mapper,
            final(self)@ == old(self)@.bit(v),
    {
        let x = v & self.acc;
        self.negative = 0b10000000 & v > 0;
        self.overflow = 0b01000000 & v > 0;
        self.zero = x == 0;
        assert((0x80u8 & v > 0) == (v & 0x80u8 != 0)) by (bit_vector);
        assert((0x40u8 & v > 0) == (v & 0x40u8 != 0)) by (bit_vector);
    }

    pub fn execute_bmi(&mut self, v: u8)
        ensures
            final(self).mapper == old(self).mapper,
            final(self)@ == old(self)@.branch_if(old(self).negative, v),
    {
        if self.negative {
            self.execute_branch(v);
        }
    }

    pub fn execute_bne(&mut self, v: u8)
        ensures
            final(self).mapper == old(self).mapper,
            final(self)@ == old(self)@.branch_if(!old(self).zero, v),
    {
        if !self.zero {
            self.execute_branch(v);
        }
    }

    pub fn execute_bpl(&mut self, v: u8)
        ensures
            final(self).mapper == old(self).mapper,
            final(self)@ == old(self)@.branch_if(!old(self).negative, v),
    {
        if !self.negative {
            self.execute_branch(v);
        }
    }

    /// Push the address past the padding byte and the status byte, disable interrupts, then
    /// jump through the interrupt vector.
    pub fn execute_brk(&mut self)
        requires
            old(self).wf(),
        ensures
            final(self).wf(),
            final(self)@ == old(self)@.brk(),
    {
        let pc = self.pc.wrapping_add(1);
        self.push_stack16(pc);
        let sr = self.status_register_byte(true);
        self.push_stack(sr);
        self.interruptd = true;
        self.pc = self.peek16(ADDRESS_IRQ_VECTOR);
    }

    pub fn execute_bvc(&mut self, v: u8)
        ensures
            final(self).mapper == old(self).mapper,
            final(self)@ == old(self)@.branch_if(!old(self).overflow, v),
    {
        if !self.overflow {
            self.execute_branch(v);
        }
    }

    pub fn execute_bvs(&mut self, v: u8)
        ensures
            final(self).mapper == old(self).mapper,
            final(self)@ == old(self)@.branch_if(old(self).overflow, v),
    {
        if self.overflow {
            self.execute_branch(v);
        }
    }

    pub fn execute_clc(&mut self)
        ensures
            final(self).mapper == old(self).mapper,
            final(self)@ == (CpuState { carry: false, ..old(self)@ }),
    {
        self.carry = false;
    }

    pub fn execute_cld(&mut self)
        ensures
            final(self).mapper == old(self).mapper,
            final(self)@ == (CpuState { decimal: false, ..old(self)@ }),
    {
        self.decimal = false;
    }

    pub fn execute_cli(&mut self)
        ensures
            final(self).mapper == old(self).mapper,
            final(self)@ == (CpuState { interruptd: false, ..old(self)@ }),
    {
        self.interruptd = false;
    }

    pub fn execute_clv(&mut self)
        ensures
            final(self).mapper == old(self).mapper,
            final(self)@ == (CpuState { overflow: false, ..old(self)@ }),
    {
        self.overflow = false;
    }

    /// Set carry, zero and negative from comparing `v1` with `v2`.
    pub fn execute_compare(&mut self, v1: u8, v2: u8)
        ensures
            final(self).mapper == old(self).mapper,
            final(self)@ == old(self)@.compare(v1, v2),
    {
        let result = v1.wrapping_sub(v2);
        self.carry = v1 >= v2;
        self.zero = v1 == v2;
        self.negative = is_negative(result);
    }

    pub fn execute_cmp(&mut self, v: u8)
        ensures
            final(self).mapper == old(self).mapper,
            final(self)@ == old(self)@.compare(old(self).acc, v),
    {
        let a = self.acc;
        self.execute_compare(a, v);
    }

    pub fn execute_cpx(&mut self, v: u8)
        ensures
            final(self).mapper == old(self).mapper,
            final(self)@ == old(self)@.compare(old(self).x, v),
    {
        let x = self.x;
        self.execute_compare(x, v);
    }

    pub fn execute_cpy(&mut self, v: u8)
        ensures
            final(self).mapper == old(self).mapper,
            final(self)@ == old(self)@.compare(old(self).y, v),
    {
        let y = self.y;
        self.execute_compare(y, v);
    }

    /// `v` minus one, wrapping; sets zero and negative from the result.
    pub fn execute_dec(&mut self, v: u8) -> (r: u8)
        ensures
            r == dec_value(v),
            final(self).mapper == old(self).mapper,
            final(self)@ == old(self)@.with_result_flags(r),
    {
        let ret = v.wrapping_sub(1);
        self.update_result_flags(ret);
        ret
    }

    pub fn execute_dex(&mut self)
        ensures
            final(self).mapper == old(self).mapper,
            final(self)@ == (CpuState { x: dec_value(old(self).x), ..old(self)@ }).with_result_flags(
                dec_value(old(self).x),
            ),
    {
        let x = self.x;
        self.x = self.execute_dec(x);
    }

    pub fn execute_dey(&mut self)
        ensures
            final(self).mapper == old(self).mapper,
            final(self)@ == (CpuState { y: dec_value(old(self).y), ..old(self)@ }).with_result_flags(
                dec_value(old(self).y),
            ),
    {
        let y = self.y;
        self.y = self.execute_dec(y);
    }

    pub fn execute_eor(&mut self, v: u8)
        ensures
            final(self).mapper == old(self).mapper,
            final(self)@ == old(self)@.eor(v),
    {
        self.acc = self.acc ^ v;
        self.update_accumulator_flags();
    }

    /// `v` plus one, wrapping; sets zero and negative from the result.
    pub fn execute_inc(&mut self, v: u8) -> (r: u8)
        ensures
            r == inc_value(v),
            final(self).mapper == old(self).mapper,
            final(self)@ == old(self)@.with_result_flags(r),
    {
        let ret = v.wrapping_add(1);
        self.update_result_flags(ret);
        ret
    }

    pub fn execute_inx(&mut self)
        ensures
            final(self).mapper == old(self).mapper,
            final(self)@ == (CpuState { x: inc_value(old(self).x), ..old(self)@ }).with_result_flags(
                inc_value(old(self).x),
            ),
    {
        let x = self.x;
        self.x = self.execute_inc(x);
    }

    pub fn execute_iny(&mut self)
        ensures
            final(self).mapper == old(self).mapper,
            final(self)@ == (CpuState { y: inc_value(old(self).y), ..old(self)@ }).with_result_flags(
                inc_value(old(self).y),
            ),
    {
        let y = self.y;
        self.y = self.execute_inc(y);
    }

    pub fn execute_jmp(&mut self, ptr: u16)
        ensures
            final(self).mapper == old(self).mapper,
            final(self)@ == (CpuState { pc: ptr, ..old(self)@ }),
    {
        self.pc = ptr;
    }

    /// Push the address before the next instruction, then jump to `ptr`.
    pub fn execute_jsr(&mut self, ptr: u16)
        requires
            old(self).wf(),
        ensures
            final(self).wf(),
            final(self)@ == old(self)@.jsr(ptr),
    {
        let pc = self.pc;
        self.push_stack16(pc.wrapping_sub(1));
        self.pc = ptr;
    }

    pub fn execute_lda(&mut self, v: u8)
        ensures
            final(self).mapper == old(self).mapper,
            final(self)@ == (CpuState { acc: v, ..old(self)@ }).with_result_flags(v),
    {
        self.acc = v;
        self.update_accumulator_flags();
    }

    pub fn execute_ldx(&mut self, v: u8)
        ensures
            final(self).mapper == old(self).mapper,
            final(self)@ == (CpuState { x: v, ..old(self)@ }).with_result_flags(v),
    {
        self.x = v;
        self.update_result_flags(v);
    }

    pub fn execute_ldy(&mut self, v: u8)
        ensures
            final(self).mapper == old(self).mapper,
            final(self)@ == (CpuState { y: v, ..old(self)@ }).with_result_flags(v),
    {
        self.y = v;
        self.update_result_flags(v);
    }

    /// `v` shifted right by one; bit 0 goes to carry.
    pub fn execute_lsr(&mut self, v: u8) -> (r: u8)
        ensures
            r == lsr_value(v),
            final(self).mapper == old(self).mapper,
            final(self)@ == old(self)@.lsr_flags(v),
    {
        self.carry = v & 0b00000001 > 0;
        assert((v & 1u8 > 0) == (v & 0x01u8 != 0)) by (bit_vector);
        let ret = v.wrapping_shr(1);
        assert(v >> 1u32 == v / 2) by (bit_vector);
        self.update_result_flags(ret);
        ret
    }

    pub fn execute_nop(&mut self)
        ensures
            *final(self) == *old(self),
    {
    }

    pub fn execute_ora(&mut self, v: u8)
        ensures
            final(self).mapper == old(self).mapper,
            final(self)@ == old(self)@.ora(v),
    {
        self.acc = self.acc | v;
        self.update_accumulator_flags();
    }

    pub fn execute_pha(&mut self)
        requires
            old(self).wf(),
        ensures
            final(self).wf(),
            final(self)@ == old(self)@.push(old(self).acc),
    {
        let x = self.acc;
        self.push_stack(x);
    }

    pub fn execute_php(&mut self)
        requires
            old(self).wf(),
        ensures
            final(self).wf(),
            final(self)@ == old(self)@.push(old(self)@.status_byte(true)),
    {
        let x = self.status_register_byte(true);
        self.push_stack(x);
    }

    pub fn execute_pla(&mut self)
        requires
            old(self).wf(),
        ensures
            final(self).wf(),
            final(self)@ == old(self)@.pla(),
    {
        self.acc = self.pop_stack();
        self.update_accumulator_flags();
    }

    pub fn execute_plp(&mut self)
        requires
            old(self).wf(),
        ensures
            final(self).wf(),
            final(self)@ == old(self)@.plp(),
    {
        let x = self.pop_stack();
        self.set_status_register_from_byte(x);
    }

    /// `v` shifted left by one with the old carry in bit 0; its top bit goes to carry.
    pub fn execute_rol(&mut self, v: u8) -> (r: u8)
        ensures
            r == rol_value(v, old(self).carry),
            final(self).mapper == old(self).mapper,
            final(self)@ == old(self)@.rol_flags(v),
    {
        let carry_in: u8 = if self.carry { 1 } else { 0 };
        self.carry = v & 0b10000000 > 0;
        assert((v & 0x80u8 > 0) == (v & 0x80u8 != 0)) by (bit_vector);
        let ret = v.wrapping_mul(2) + carry_in;
        self.update_result_flags(ret);
        ret
    }

    /// `v` shifted right by one with the old carry in bit 7; bit 0 goes to carry.
    pub fn execute_ror(&mut self, v: u8) -> (r: u8)
        ensures
            r == ror_value(v, old(self).carry),
            final(self).mapper == old(self).mapper,
            final(self)@ == old(self)@.ror_flags(v),
    {
        let mut ret = v / 2;
        if self.carry {
            ret = ret + 128;
        }
        self.carry = v & 0b00000001 > 0;
        assert((v & 1u8 > 0) == (v & 0x01u8 != 0)) by (bit_vector);
        self.update_result_flags(ret);
        ret
    }

    /// Pull the status byte, then the program counter.
    pub fn execute_rti(&mut self)
        requires
            old(self).wf(),
        ensures
            final(self).wf(),
            final(self)@ == old(self)@.rti(),
    {
        let x = self.pop_stack();
        self.set_status_register_from_byte(x);
        self.pc = self.pop_stack16();
    }

    /// Pull the return address and continue after it.
    pub fn execute_rts(&mut self)
        requires
            old(self).wf(),
        ensures
            final(self).wf(),
            final(self)@ == old(self)@.rts(),
    {
        self.pc = self.pop_stack16().wrapping_add(1);
    }

    pub fn execute_sbc(&mut self, v: u8)
        ensures
            final(self).mapper == old(self).mapper,
            final(self)@ == old(self)@.sbc(v),
    {
        let borrow: i16 = if self.carry { 0 } else { 1 };
        let diff: i16 = self.acc as i16 - v as i16 - borrow;
        let signed_sub: i16 = sign_extend_byte(self.acc) - sign_extend_byte(v) - borrow;
        self.carry = diff >= 0;
        self.acc = if diff >= 0 { diff as u8 } else { (diff + 256) as u8 };
        self.overflow = (signed_sub < -128) || (signed_sub > 127);
        self.update_accumulator_flags();
    }

    pub fn execute_sec(&mut self)
        ensures
            final(self).mapper == old(self).mapper,
            final(self)@ == (CpuState { carry: true, ..old(self)@ }),
    {
        self.carry = true;
    }

    pub fn execute_sed(&mut self)
        ensures
            final(self).mapper == old(self).mapper,
            final(self)@ == (CpuState { decimal: true, ..old(self)@ }),
    {
        self.decimal = true;
    }

    pub fn execute_sei(&mut self)
        ensures
            final(self).mapper == old(self).mapper,
            final(self)@ == (CpuState { interruptd: true, ..old(self)@ }),
    {
        self.interruptd = true;
    }

    pub fn execute_tax(&mut self)
        ensures
            final(self).mapper == old(self).mapper,
            final(self)@ == (CpuState { x: old(self).acc, ..old(self)@ }).with_result_flags(
                old(self).acc,
            ),
    {
        self.x = self.acc;
        let x = self.x;
        self.update_result_flags(x);
    }

    pub fn execute_tay(&mut self)
        ensures
            final(self).mapper == old(self).mapper,
            final(self)@ == (CpuState { y: old(self).acc, ..old(self)@ }).with_result_flags(
                old(self).acc,
            ),
    {
        self.y = self.acc;
        let y = self.y;
        self.update_result_flags(y);
    }

    pub fn execute_tsx(&mut self)
        ensures
            final(self).mapper == old(self).mapper,
            final(self)@ == (CpuState { x: old(self).sp, ..old(self)@ }).with_result_flags(
                old(self).sp,
            ),
    {
        self.x = self.sp;
        let x = self.x;
        self.update_result_flags(x);
    }

    pub fn execute_txa(&mut self)
        ensures
            final(self).mapper == old(self).mapper,
            final(self)@ == (CpuState { acc: old(self).x, ..old(self)@ }).with_result_flags(
                old(self).x,
            ),
    {
        self.acc = self.x;
        self.update_accumulator_flags();
    }

    pub fn execute_txs(&mut self)
        ensures
            final(self).mapper == old(self).mapper,
            final(self)@ == (CpuState { sp: old(self).x, ..old(self)@ }),
    {
        self.sp = self.x;
    }

    pub fn execute_tya(&mut self)
        ensures
            final(self).mapper == old(self).mapper,
            final(self)@ == (CpuState { acc: old(self).y, ..old(self)@ }).with_result_flags(
                old(self).y,
            ),
    {
        self.acc = self.y;
        self.update_accumulator_flags();
    }
}

} // verus!
