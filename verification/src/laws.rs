use vstd::prelude::*;

use crate::instruction::{Instruction, Operation};
use crate::state::{
    asl_value, dec_value, inc_value, lsr_value, rol_value, ror_value, sign_extend, stack_addr,
    CpuState,
};

verus! {

/// The address space behind `s` covers all 16-bit addresses and keeps what is written.
pub open spec fn is_ram(s: CpuState) -> bool {
    s.retains_writes && s.mem.len() == 0x10000
}

/// Pulling a byte right after pushing one gives that byte back, with the stack pointer where
/// it was; only the stack slot written differs from the state before.
pub proof fn law_pop_after_push(s: CpuState, v: u8)
    requires
        is_ram(s),
    ensures
        s.push(v).pop().1 == v,
        s.push(v).pop().0 == s.write(stack_addr(s.sp), v),
{
}

/// Pulling a 16-bit value right after pushing one gives that value back, with the stack
/// pointer where it was.
pub proof fn law_pop16_after_push16(s: CpuState, v: u16)
    requires
        is_ram(s),
    ensures
        s.push16(v).pop16().1 == v,
        s.push16(v).pop16().0.sp == s.sp,
{
    let hi = (v as int / 256) as u8;
    let lo = (v as int % 256) as u8;
    let s1 = s.push(hi);
    let s2 = s1.push(lo);
    assert(s2.pop().1 == lo);
    assert(s2.pop().0.sp == s1.sp);
    assert(s2.pop().0.read(stack_addr(s.sp)) == hi);
}

/// A subroutine call followed by a return comes back to the address the call started from,
/// with the stack pointer restored.
pub proof fn law_rts_after_jsr(s: CpuState, target: u16)
    requires
        is_ram(s),
    ensures
        s.jsr(target).rts().pc == s.pc,
        s.jsr(target).rts().sp == s.sp,
{
    let ret = ((s.pc as int + 0xFFFF) % 0x10000) as u16;
    law_pop16_after_push16(s, ret);
    let t = CpuState { pc: target, ..s.push16(ret) };
    assert(t.pop16() == (CpuState { pc: target, ..s.push16(ret).pop16().0 }, s.push16(
        ret,
    ).pop16().1));
}

/// Loading the flags from a byte and pushing them back as an instruction does gives the
/// byte back with bit 4 clear and bit 5 set.
pub proof fn law_status_byte_after_load(s: CpuState, v: u8)
    ensures
        s.with_status_byte(v).status_byte(true) == (v & 0xCF) | 0x20,
{
    let t = s.with_status_byte(v);
    let c: u8 = if v & 0x01 != 0 { 1 } else { 0 };
    let z: u8 = if v & 0x02 != 0 { 2 } else { 0 };
    let i: u8 = if v & 0x04 != 0 { 4 } else { 0 };
    let d: u8 = if v & 0x08 != 0 { 8 } else { 0 };
    let o: u8 = if v & 0x40 != 0 { 64 } else { 0 };
    let n: u8 = if v & 0x80 != 0 { 128 } else { 0 };
    assert(t.status_byte(true) == c + z + i + d + 32 + o + n);
    assert(c + z + i + d + 32 + o + n == (v & 0xCF) | 0x20) by (bit_vector)
        requires
            c == (if v & 0x01 != 0 { 1u8 } else { 0u8 }),
            z == (if v & 0x02 != 0 { 2u8 } else { 0u8 }),
            i == (if v & 0x04 != 0 { 4u8 } else { 0u8 }),
            d == (if v & 0x08 != 0 { 8u8 } else { 0u8 }),
            o == (if v & 0x40 != 0 { 64u8 } else { 0u8 }),
            n == (if v & 0x80 != 0 { 128u8 } else { 0u8 }),
    ;
}

/// Saving the flags as a status byte and loading them back leaves the state unchanged.
pub proof fn law_load_after_status_byte(s: CpuState, is_instruction: bool)
    ensures
        s.with_status_byte(s.status_byte(is_instruction)) == s,
{
    let c: u8 = if s.carry { 1 } else { 0 };
    let z: u8 = if s.zero { 2 } else { 0 };
    let i: u8 = if s.interruptd { 4 } else { 0 };
    let d: u8 = if s.decimal { 8 } else { 0 };
    let b: u8 = if is_instruction { 32 } else { 0 };
    let o: u8 = if s.overflow { 64 } else { 0 };
    let n: u8 = if s.negative { 128 } else { 0 };
    let v = s.status_byte(is_instruction);
    assert(v == c + z + i + d + b + o + n);
    assert({
        &&& (v & 0x01 != 0) == (c == 1)
        &&& (v & 0x02 != 0) == (z == 2)
        &&& (v & 0x04 != 0) == (i == 4)
        &&& (v & 0x08 != 0) == (d == 8)
        &&& (v & 0x40 != 0) == (o == 64)
        &&& (v & 0x80 != 0) == (n == 128)
    }) by (bit_vector)
        requires
            c == 0 || c == 1,
            z == 0 || z == 2,
            i == 0 || i == 4,
            d == 0 || d == 8,
            b == 0 || b == 32,
            o == 0 || o == 64,
            n == 0 || n == 128,
            v == c + z + i + d + b + o + n,
    ;
}

/// The status byte always has bit 4 (break) clear, and bit 5 set exactly when it is pushed
/// by an instruction.
pub proof fn law_status_byte_fixed_bits(s: CpuState, is_instruction: bool)
    ensures
        s.status_byte(is_instruction) & 0x10 == 0,
        (s.status_byte(is_instruction) & 0x20 != 0) == is_instruction,
{
    let c: u8 = if s.carry { 1 } else { 0 };
    let z: u8 = if s.zero { 2 } else { 0 };
    let i: u8 = if s.interruptd { 4 } else { 0 };
    let d: u8 = if s.decimal { 8 } else { 0 };
    let b: u8 = if is_instruction { 32 } else { 0 };
    let o: u8 = if s.overflow { 64 } else { 0 };
    let n: u8 = if s.negative { 128 } else { 0 };
    let v = s.status_byte(is_instruction);
    assert(v == c + z + i + d + b + o + n);
    assert(v & 0x10 == 0 && ((v & 0x20 != 0) == (b == 32))) by (bit_vector)
        requires
            c == 0 || c == 1,
            z == 0 || z == 2,
            i == 0 || i == 4,
            d == 0 || d == 8,
            b == 0 || b == 32,
            o == 0 || o == 64,
            n == 0 || n == 128,
            v == c + z + i + d + b + o + n,
    ;
}

/// Pushing the status register and pulling it back restores every flag and the stack
/// pointer; only the stack slot written differs.
pub proof fn law_plp_after_php(s: CpuState)
    requires
        is_ram(s),
    ensures
        s.push(s.status_byte(true)).plp() == s.write(stack_addr(s.sp), s.status_byte(true)),
{
    let v = s.status_byte(true);
    law_pop_after_push(s, v);
    let w = s.write(stack_addr(s.sp), v);
    law_load_after_status_byte(w, true);
    assert(w.status_byte(true) == v);
}

/// Pushing the accumulator and pulling it back restores the accumulator.
pub proof fn law_pla_after_pha(s: CpuState)
    requires
        is_ram(s),
    ensures
        s.push(s.acc).pla().acc == s.acc,
        s.push(s.acc).pla().sp == s.sp,
{
    law_pop_after_push(s, s.acc);
}

/// Subtracting with borrow is adding the complement with carry: `SBC v` acts as `ADC !v`
/// on every register and flag.
pub proof fn law_sbc_is_adc_of_complement(s: CpuState, v: u8)
    ensures
        s.sbc(v) == s.adc(!v),
{
    assert(!v == 255 - v) by (bit_vector);
    assert(sign_extend(!v) == -sign_extend(v) - 1);
    let diff = s.acc as int - v as int - (if s.carry { 0int } else { 1int });
    let sum = (!v) as int + s.acc as int + (if s.carry { 1int } else { 0int });
    assert(sum == diff + 256);
    assert((sum % 256) == (diff % 256));
}

/// Rotating left through the carry and then right through the carry that set gives back
/// both the byte and the carry it started with.
pub proof fn law_ror_undoes_rol(v: u8, carry: bool)
    ensures
        ror_value(rol_value(v, carry), v & 0x80 != 0) == v,
        (rol_value(v, carry) & 0x01 != 0) == carry,
{
    let r = rol_value(v, carry);
    assert((v & 0x80 != 0) == (v >= 128)) by (bit_vector);
    assert(r % 2 == (if carry { 1int } else { 0int }));
    assert((r & 0x01 != 0) == (r % 2 == 1)) by (bit_vector);
}

/// A shift left then right clears the top bit; a shift right then left clears the bottom bit.
pub proof fn law_shifts(v: u8)
    ensures
        lsr_value(asl_value(v)) == v % 128,
        asl_value(lsr_value(v)) == v - v % 2,
{
}

/// Incrementing and decrementing undo each other.
pub proof fn law_inc_dec_inverse(v: u8)
    ensures
        dec_value(inc_value(v)) == v,
        inc_value(dec_value(v)) == v,
{
}

/// Every decoded instruction takes one to three bytes.
pub proof fn law_instruction_length(s: CpuState)
    ensures
        1 <= s.decode().1 <= 3,
{
}

/// Each clock adds one to the counter, so `n` clocks add `n`.
pub proof fn law_counter_counts_clocks(s: CpuState, n: nat)
    requires
        s.can_run(n),
    ensures
        s.steps(n).counter == s.counter + n,
    decreases n,
{
    if n > 0 {
        law_step_counter(s);
        law_counter_counts_clocks(s.step(), (n - 1) as nat);
    }
}

/// One clock adds one to the counter.
pub proof fn law_step_counter(s: CpuState)
    requires
        s.can_step(),
    ensures
        s.step().counter == s.counter + 1,
{
}

/// Over an address space that drops writes, running an instruction does not change what
/// memory reads.
pub proof fn law_execute_keeps_unwritable_memory(s: CpuState, i: Instruction)
    requires
        !s.retains_writes,
    ensures
        s.execute(i).mem == s.mem,
        !s.execute(i).retains_writes,
{
    let t = i.write_target;
    assert(forall|p: u16, v: u8| #[trigger] s.write(p, v) == s);
    match i.op {
        Operation::BRK => {
            let a = s.push16(s.pc);
            assert(a.mem == s.mem);
        },
        Operation::JSR => {
            let a = s.push16(((s.pc as int + 0xFFFF) % 0x10000) as u16);
            assert(a.mem == s.mem);
        },
        _ => {},
    }
}

/// Over an address space that drops writes, no clock changes what memory reads.
pub proof fn law_step_keeps_unwritable_memory(s: CpuState)
    requires
        !s.retains_writes,
    ensures
        s.step().mem == s.mem,
        !s.step().retains_writes,
{
    law_execute_keeps_unwritable_memory(s.fetched(), s.decode().0);
}

} // verus!
