use vstd::prelude::*;

use crate::instruction::{lookup_opcode, AddressingMode, Instruction};
use crate::mapper::{AddressSpace, NullAddressSpace, Ram, ADDRESS_SPACE_SIZE};
use crate::state::{
    spec_is_negative, word, CpuState, ADDRESS_RESET, ADDRESS_TEST_PROGRAM, STACK_PAGE,
};

verus! {

/// The Ricoh 2A03, a variation of the 6502: registers, flags, and the address space it
/// reads and writes through.
pub struct C6502<M> {
    pub acc: u8,
    pub x: u8,
    pub y: u8,
    pub pc: u16,
    pub sp: u8,
    pub carry: bool,
    pub zero: bool,
    pub interruptd: bool,
    pub decimal: bool,
    pub overflow: bool,
    pub negative: bool,
    pub mapper: M,
    pub counter: usize,
    pub clocks: usize,
    pub is_tracing: bool,
}

impl<M: AddressSpace> View for C6502<M> {
    type V = CpuState;

    open spec fn view(&self) -> CpuState {
        CpuState {
            acc: self.acc,
            x: self.x,
            y: self.y,
            pc: self.pc,
            sp: self.sp,
            carry: self.carry,
            zero: self.zero,
            interruptd: self.interruptd,
            decimal: self.decimal,
            overflow: self.overflow,
            negative: self.negative,
            mem: self.mapper.mem(),
            retains_writes: self.mapper.retains_writes(),
            counter: self.counter,
            clocks: self.clocks,
            is_tracing: self.is_tracing,
        }
    }
}

/// The state right after reset, over an address space that reads `mem`.
pub open spec fn reset_state(mem: Seq<u8>, retains_writes: bool) -> CpuState {
    CpuState {
        acc: 0,
        x: 0,
        y: 0,
        pc: ADDRESS_RESET,
        sp: 0xfd,
        carry: false,
        zero: false,
        interruptd: false,
        decimal: false,
        overflow: false,
        negative: false,
        mem,
        retains_writes,
        counter: 0,
        clocks: 0,
        is_tracing: true,
    }
}

/// The bytes a fresh 64 KiB RAM reads with `program` loaded at the test program address.
pub open spec fn loaded_memory(program: Seq<u8>) -> Seq<u8> {
    Seq::new(
        ADDRESS_SPACE_SIZE as nat,
        |a: int|
            if ADDRESS_TEST_PROGRAM <= a < ADDRESS_TEST_PROGRAM + program.len() {
                program[a - ADDRESS_TEST_PROGRAM]
            } else {
                0u8
            },
    )
}

/// The state `create_test_cpu` builds for `program`.
pub open spec fn test_cpu_state(program: Seq<u8>) -> CpuState {
    CpuState {
        pc: ADDRESS_TEST_PROGRAM,
        is_tracing: false,
        ..reset_state(loaded_memory(program), true)
    }
}

/// `base` moved by `offset`, wrapping round the address space.
fn offset_address(base: u16, offset: i16) -> (a: u16)
    ensures
        a == ((base as int + offset as int) % 0x10000) as u16,
{
    let sum: i32 = base as i32 + offset as i32;
    if sum < 0 {
        (sum + 0x10000) as u16
    } else if sum >= 0x10000 {
        (sum - 0x10000) as u16
    } else {
        sum as u16
    }
}

/// The 16-bit value with low byte `lo` and high byte `hi`.
fn make_word(lo: u8, hi: u8) -> (w: u16)
    ensures
        w == word(lo, hi),
{
    hi as u16 * 256 + lo as u16
}

/// Whether `v` counts as negative (its top bit is set).
pub fn is_negative(v: u8) -> (b: bool)
    ensures
        b == spec_is_negative(v),
{
    v >= 128
}

impl C6502<NullAddressSpace> {
    /// A CPU in its reset state with nothing mapped into its address space.
    pub fn new() -> (c: C6502<NullAddressSpace>)
        ensures
            c.wf(),
            c@ == reset_state(Seq::new(ADDRESS_SPACE_SIZE as nat, |i: int| 0u8), false),
    {
        C6502::with_mapper(NullAddressSpace::new())
    }
}

/// A CPU over a fresh 64 KiB RAM, with `program` loaded at the test program address, the
/// program counter there, and tracing off.
pub fn create_test_cpu(program: &Vec<u8>) -> (c: C6502<Ram>)
    requires
        program.len() <= 0x4000,
    ensures
        c.wf(),
        c@ == test_cpu_state(program@),
{
    let mut ret = C6502::with_mapper(Ram::new(ADDRESS_SPACE_SIZE));
    ret.is_tracing = false;
    let mut idx: usize = 0;
    assert(ret@.mem =~= loaded_memory(program@.subrange(0, 0)));
    while idx < program.len()
        invariant
            program.len() <= 0x4000,
            idx <= program.len(),
            ret.wf(),
            ret@ == (CpuState {
                is_tracing: false,
                ..reset_state(loaded_memory(program@.subrange(0, idx as int)), true)
            }),
        decreases program.len() - idx,
    {
        let ghost before = ret@.mem;
        ret.poke(ADDRESS_TEST_PROGRAM + idx as u16, program[idx]);
        idx = idx + 1;
        assert(ret@.mem =~= loaded_memory(program@.subrange(0, idx as int)));
    }
    ret.pc = ADDRESS_TEST_PROGRAM;
    assert(program@.subrange(0, idx as int) =~= program@);
    ret
}

impl<M: AddressSpace> AddressSpace for C6502<M> {
    open spec fn valid(&self) -> bool {
        self.wf()
    }

    open spec fn mem(&self) -> Seq<u8> {
        self.mapper.mem()
    }

    open spec fn retains_writes(&self) -> bool {
        self.mapper.retains_writes()
    }

    proof fn lemma_valid_size(&self) {
    }

    fn is_valid(&self) -> (b: bool) {
        let b = self.mapper.is_valid();
        proof {
            if b {
                self.mapper.lemma_valid_size();
            }
        }
        b
    }

    fn peek(&self, ptr: u16) -> (v: u8) {
        self.mapper.peek(ptr)
    }

    fn poke(&mut self, ptr: u16, v: u8)
        ensures
            final(self)@ == old(self)@.write(ptr, v),
    {
        self.mapper.poke(ptr, v);
    }
}

impl<M: AddressSpace> C6502<M> {
    /// The address space serves every 16-bit address.
    pub open spec fn wf(&self) -> bool {
        &&& self.mapper.valid()
        &&& self.mapper.mem().len() == ADDRESS_SPACE_SIZE
    }

    /// A CPU in its reset state over `mapper`.
    pub fn with_mapper(mapper: M) -> (c: Self)
        ensures
            c.mapper == mapper,
            c@ == reset_state(mapper.mem(), mapper.retains_writes()),
    {
        C6502 {
            acc: 0,
            x: 0,
            y: 0,
            pc: ADDRESS_RESET,
            sp: 0xfd,
            carry: false,
            zero: false,
            interruptd: false,
            decimal: false,
            overflow: false,
            negative: false,
            mapper,
            counter: 0,
            clocks: 0,
            is_tracing: true,
        }
    }

    /// The little-endian 16-bit value at `ptr` and the address after it.
    pub fn peek16(&self, ptr: u16) -> (r: u16)
        requires
            self.wf(),
        ensures
            r == self@.read16(ptr),
    {
        let lsb = self.peek(ptr);
        let msb = self.peek(ptr.wrapping_add(1));
        make_word(lsb, msb)
    }

    /// The byte at `base` moved by `offset`, wrapping round the address space.
    pub fn peek_offset(&self, base: u16, offset: i16) -> (r: u8)
        requires
            self.wf(),
        ensures
            r == self@.read(((base as int + offset as int) % 0x10000) as u16),
    {
        let addr = offset_address(base, offset);
        self.peek(addr)
    }

    /// Write `v` at `base` moved by `offset`, wrapping round the address space.
    pub fn poke_offset(&mut self, base: u16, offset: i16, v: u8)
        requires
            old(self).wf(),
        ensures
            final(self).wf(),
            final(self)@ == old(self)@.write(((base as int + offset as int) % 0x10000) as u16, v),
    {
        let addr = offset_address(base, offset);
        self.poke(addr, v);
    }

    /// The instruction at the program counter, and how many bytes it takes.
    pub fn decode_instruction(&self) -> (r: (Instruction, u16))
        requires
            self.wf(),
        ensures
            r == self@.decode(),
    {
        let ptr = self.pc;
        let opcode = self.peek(ptr);
        let (op, mode, _clocks, _page_clocks) = lookup_opcode(opcode);
        let (mode_args, write_target, num_arg_bytes) = self.decode_addressing_mode(
            mode,
            ptr.wrapping_add(1),
        );
        let instruction = Instruction { op, mode, mode_args, write_target };
        (instruction, 1 + num_arg_bytes)
    }

    /// The byte an instruction's target holds: the accumulator, or the memory byte.
    pub fn read_write_target(&self, write_target: Option<u16>) -> (r: u8)
        requires
            self.wf(),
        ensures
            r == self@.read_target(write_target),
    {
        match write_target {
            None => self.acc,
            Some(ptr) => self.peek(ptr),
        }
    }

    /// Store `v` into an instruction's target: the accumulator, or the memory byte.
    pub fn store_write_target(&mut self, v: u8, write_target: Option<u16>)
        requires
            old(self).wf(),
        ensures
            final(self).wf(),
            final(self)@ == old(self)@.store_target(v, write_target),
    {
        match write_target {
            None => {
                self.acc = v;
            },
            Some(ptr) => {
                self.poke(ptr, v);
            },
        }
    }

    /// The zero-page address `index` bytes past the one stored at `ptr`, wrapping within
    /// the zero page.
    fn indexed_zero_page(&self, ptr: u16, index: u8) -> (a: u8)
        requires
            self.wf(),
        ensures
            a == ((self@.read(ptr) as int + index as int) % 256) as u8,
    {
        self.peek(ptr).wrapping_add(index)
    }

    /// The address stored in the zero page at the byte at `ptr`, moved on by `index`.
    fn indirect_indexed(&self, ptr: u16, index: u8) -> (a: u16)
        requires
            self.wf(),
        ensures
            a == ((self@.read_zero16(self@.read(ptr)) as int + index as int) % 0x10000) as u16,
    {
        let zp_addr = self.peek(ptr);
        self.peek_zero16(zp_addr).wrapping_add(index as u16)
    }

    /// The 16-bit address stored at `ptr`, moved on by `index`, wrapping.
    fn absolute_indexed(&self, ptr: u16, index: u8) -> (a: u16)
        requires
            self.wf(),
        ensures
            a == ((self@.read16(ptr) as int + index as int) % 0x10000) as u16,
    {
        self.peek16(ptr).wrapping_add(index as u16)
    }

    /// The little-endian 16-bit value at `ptr`, its high byte read from the next address in
    /// the same page.
    pub fn peek16_in_page(&self, ptr: u16) -> (r: u16)
        requires
            self.wf(),
        ensures
            r == self@.read16_in_page(ptr),
    {
        let lsb = self.peek(ptr);
        let hi_addr = (ptr / 256) * 256 + (ptr % 256 + 1) % 256;
        let msb = self.peek(hi_addr);
        make_word(lsb, msb)
    }

    /// The `num_bytes` instruction bytes at the program counter as one number, the first
    /// byte most significant.
    pub fn trace_bytes(&self, num_bytes: u16) -> (r: u32)
        requires
            self.wf(),
            1 <= num_bytes <= 3,
        ensures
            r == self@.trace_bytes(num_bytes),
    {
        let ptr = self.pc;
        let b0 = self.peek(ptr) as u32;
        if num_bytes == 1 {
            return b0;
        }
        let b1 = self.peek(ptr.wrapping_add(1)) as u32;
        if num_bytes == 2 {
            return b0 * 0x100 + b1;
        }
        let b2 = self.peek(ptr.wrapping_add(1).wrapping_add(1)) as u32;
        b0 * 0x10000 + b1 * 0x100 + b2
    }

    /// The address of the operand of addressing `mode` whose bytes start at `ptr`.
    #[verifier::spinoff_prover]
    pub fn operand_address(&self, mode: AddressingMode, ptr: u16) -> (a: u16)
        requires
            self.wf(),
        ensures
            a == self@.operand_address(mode, ptr),
    {
        match mode {
            AddressingMode::ZeroPage => self.peek(ptr) as u16,
            AddressingMode::ZeroPageX => self.indexed_zero_page(ptr, self.x) as u16,
            AddressingMode::ZeroPageY => self.indexed_zero_page(ptr, self.y) as u16,
            AddressingMode::Absolute => self.peek16(ptr),
            AddressingMode::AbsoluteX => self.absolute_indexed(ptr, self.x),
            AddressingMode::AbsoluteY => self.absolute_indexed(ptr, self.y),
            AddressingMode::Indirect => {
                let pointer = self.peek16(ptr);
                self.peek16_in_page(pointer)
            },
            AddressingMode::IndirectX => {
                let zp_addr = self.indexed_zero_page(ptr, self.x);
                self.peek_zero16(zp_addr)
            },
            AddressingMode::IndirectY => self.indirect_indexed(ptr, self.y),
            _ => ptr,
        }
    }

    /// The operand of addressing `mode` whose bytes start at `ptr`: its value, its address
    /// (none for the accumulator and implicit modes), and the number of bytes after the
    /// opcode it takes.
    pub fn decode_addressing_mode(&self, mode: AddressingMode, ptr: u16) -> (r: (
        u16,
        Option<u16>,
        u16,
    ))
        requires
            self.wf(),
        ensures
            r == self@.decode_mode(mode, ptr),
    {
        match mode {
            AddressingMode::Accumulator => (self.acc as u16, None, 0),
            AddressingMode::Implicit => (0xDEAD, None, 0),
            AddressingMode::Absolute
            | AddressingMode::AbsoluteX
            | AddressingMode::AbsoluteY
            | AddressingMode::Indirect => {
                let addr = self.operand_address(mode, ptr);
                (self.peek(addr) as u16, Some(addr), 2)
            },
            _ => {
                let addr = self.operand_address(mode, ptr);
                (self.peek(addr) as u16, Some(addr), 1)
            },
        }
    }

    // Stack

    /// Push a byte onto the stack page.
    pub fn push_stack(&mut self, v: u8)
        requires
            old(self).wf(),
        ensures
            final(self).wf(),
            final(self)@ == old(self)@.push(v),
    {
        let sp = self.sp;
        self.poke_offset(STACK_PAGE, sp as i16, v);
        self.sp = self.sp.wrapping_sub(1);
    }

    /// Pop a byte from the stack page.
    pub fn pop_stack(&mut self) -> (r: u8)
        requires
            old(self).wf(),
        ensures
            final(self).wf(),
            (final(self)@, r) == old(self)@.pop(),
    {
        self.sp = self.sp.wrapping_add(1);
        self.peek_offset(STACK_PAGE, self.sp as i16)
    }

    /// Push a 16-bit value, high byte first.
    pub fn push_stack16(&mut self, v: u16)
        requires
            old(self).wf(),
        ensures
            final(self).wf(),
            final(self)@ == old(self)@.push16(v),
    {
        self.push_stack((v / 256) as u8);
        self.push_stack((v % 256) as u8);
    }

    /// Pop a 16-bit value, low byte first.
    pub fn pop_stack16(&mut self) -> (r: u16)
        requires
            old(self).wf(),
        ensures
            final(self).wf(),
            (final(self)@, r) == old(self)@.pop16(),
    {
        let lsb = self.pop_stack();
        let msb = self.pop_stack();
        make_word(lsb, msb)
    }

    /// The little-endian 16-bit value at zero-page address `ptr`.
    pub fn peek_zero16(&self, ptr: u8) -> (r: u16)
        requires
            self.wf(),
        ensures
            r == self@.read_zero16(ptr),
    {
        let lsb = self.peek(ptr as u16);
        let next = ptr.wrapping_add(1);
        let msb = self.peek(next as u16);
        make_word(lsb, msb)
    }

    // Flags

    /// Set the zero and negative flags from a result byte.
    pub fn update_result_flags(&mut self, v: u8)
        ensures
            final(self).mapper == old(self).mapper,
            final(self)@ == old(self)@.with_result_flags(v),
    {
        self.zero = v == 0;
        self.negative = is_negative(v);
    }

    /// Set the zero and negative flags from the accumulator.
    pub fn update_accumulator_flags(&mut self)
        ensures
            final(self).mapper == old(self).mapper,
            final(self)@ == old(self)@.with_result_flags(old(self).acc),
    {
        let x = self.acc;
        self.update_result_flags(x);
    }

    /// The status register as a byte; bit 5 is set when it is pushed by an instruction.
    pub fn status_register_byte(&self, is_instruction: bool) -> (r: u8)
        ensures
            r == self@.status_byte(is_instruction),
    {
        let c: u8 = if self.carry { 1 } else { 0 };
        let z: u8 = if self.zero { 2 } else { 0 };
        let i: u8 = if self.interruptd { 4 } else { 0 };
        let d: u8 = if self.decimal { 8 } else { 0 };
        let b: u8 = if is_instruction { 32 } else { 0 };
        let o: u8 = if self.overflow { 64 } else { 0 };
        let n: u8 = if self.negative { 128 } else { 0 };
        c + z + i + d + b + o + n
    }

    /// Load the flags from a status byte; bits 4 and 5 are not registers and are ignored.
    pub fn set_status_register_from_byte(&mut self, v: u8)
        ensures
            final(self).mapper == old(self).mapper,
            final(self)@ == old(self)@.with_status_byte(v),
    {
        self.carry = v & 0b00000001 > 0;
        self.zero = v & 0b00000010 > 0;
        self.interruptd = v & 0b00000100 > 0;
        self.decimal = v & 0b00001000 > 0;
        self.overflow = v & 0b01000000 > 0;
        self.negative = v & 0b10000000 > 0;
    }
}

} // verus!
