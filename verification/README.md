# lib — a verified Ricoh 2A03 (6502) CPU core

The CPU's instruction set, decoder and clock, written in Verus and proved against a
mathematical model of the processor state.

- `src/state.rs` — the model: `CpuState` (registers, flags, the bytes memory reads) and the
  meaning of every instruction, of operand decoding and of one clock, as spec functions.
- `src/instruction.rs` — operations, addressing modes, the opcode table, decoded instructions.
- `src/mapper.rs` — the `AddressSpace` trait the CPU reads and writes through, with a 64 KiB
  `Ram` and a `NullAddressSpace`.
- `src/c6502.rs` — the `C6502` struct, memory access, the stack and the status register.
- `src/execute.rs` — one function per instruction, each proved to do what the model says.
- `src/step.rs` — dispatch of a decoded instruction, the clock, and the check for clocks that
  cannot run.
- `src/laws.rs` — properties proved of the model (stack round trips, subroutine return,
  status register round trips, SBC as ADC of the complement, and others).
- `app/` — the trace printing and the panics of the emulator's clock, around the library.

The instruction semantics are those of the 6502. Where the code this crate grew from slipped,
the crate follows the chip: ASL on a memory operand shifts that byte; Absolute,X/Y index the
two-byte operand address, wrapping; JMP (indirect) continues at the address stored at the
pointer, whose high byte comes from the same page; ADC and SBC take the overflow flag from the
carry going in; ROL rotates through the carry; branches wrap round the address space; BRK
skips its padding byte and sets the interrupt-disable flag. As there, the status byte pushed
by PHP and BRK has bit 4 clear, and the undocumented opcodes are not executed.
