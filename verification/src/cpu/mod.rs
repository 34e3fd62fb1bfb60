//! The 6502 processor: its registers, its accesses to the bus, its flags
//! and its stack. A value of `Cpu` is plain data; for each operation a
//! specification function says what it makes of the processor and the bus.

pub mod constants;
pub mod table;
pub mod addressing;
pub mod alu;
pub mod compare;
pub mod shifts;
pub mod flow;
pub mod moves;
pub mod run;
pub mod laws;

use vstd::prelude::*;
use crate::cpu::constants::{
    DMA_CYCLES, PS_C_BIT, PS_N_BIT, PS_V_BIT, PS_Z_BIT, RESET_VECTOR,
};
use crate::cpu::table::{cycles_of, lookup_cycles};
use crate::mappers::Mapper;
use crate::state::{same_dots, BusView, NesState};
use crate::utils::{bit_set, clear_bit, make_word, set_bit, set_bit_from, with_bit, word};

verus! {

/// The registers of the processor. They carry the capital letters under
/// which every description of the 6502 knows them.
#[allow(non_snake_case)]
#[derive(Debug, Clone, Copy)]
pub struct Registers {
    /// Accumulator
    pub A: u8,
    /// X index register
    pub X: u8,
    /// Y index register
    pub Y: u8,
    /// Program counter
    pub PC: u16,
    /// Stack pointer: the next free cell of page 1.
    pub SP: u8,
    /// Processor status: N V - B D I Z C from bit 7 down.
    pub P: u8,
}

/// Why the processor stopped.
#[derive(Debug, Clone, Copy, PartialEq, Eq, Structural)]
pub enum CpuError {
    /// The opcode that was fetched is not implemented.
    UnimplementedOpcode,
}

/// NES 6502 CPU.
#[derive(Debug, Clone, Copy)]
pub struct Cpu {
    pub reg: Registers,
    /// Opcode of the instruction that is being executed.
    pub opcode: u8,
    /// Address of the operand of the instruction, or the address that it
    /// writes to, where its addressing mode has one.
    pub operand_address: u16,
    /// Value of the operand: the immediate byte, or the byte read from
    /// `operand_address`.
    pub operand_value: u8,
    /// 1 where the addressing mode crossed a page, else 0. Only the
    /// instructions that pay for a crossing add it to `extra_cycles`.
    pub page_penalty: u64,
    /// Cycles of the instruction beyond its base cycles.
    pub extra_cycles: u64,
    /// Cycle counter.
    pub cycle_count: u64,
    /// Whether a non-maskable interrupt waits for the next instruction.
    pub nmi_pending: bool,
}

/// The status `p` with the flags N and Z as `value` has them.
pub open spec fn nz_flags(p: u8, value: u8) -> u8 {
    with_bit(with_bit(p, PS_N_BIT, bit_set(PS_N_BIT, value)), PS_Z_BIT, value == 0)
}

/// The address of the stack cell that `sp` points at.
pub open spec fn stack_address(sp: u8) -> u16 {
    (0x0100 + sp) as u16
}

/// `value` as a signed byte.
pub open spec fn signed(value: u8) -> int {
    if value < 128 {
        value as int
    } else {
        value - 256
    }
}

/// `addr` moved by the signed byte `offset`, within 16 bits.
pub open spec fn offset_address(addr: u16, offset: u8) -> u16 {
    ((addr + signed(offset)) % 0x10000) as u16
}

/// The address `n` after `addr`, within 16 bits.
pub open spec fn address_after(addr: u16, n: int) -> u16 {
    ((addr + n) % 0x10000) as u16
}

impl Default for Registers {
    fn default() -> (r: Self)
        ensures
            r == (Registers { A: 0, X: 0, Y: 0, PC: 0, SP: 0, P: 0 }),
    {
        Registers { A: 0, X: 0, Y: 0, PC: 0, SP: 0, P: 0 }
    }
}

/// A processor with every register and counter at zero.
impl Default for Cpu {
    fn default() -> (r: Self)
        ensures
            r == Self::zeroed(),
    {
        Self {
            reg: Registers::default(),
            opcode: 0,
            operand_address: 0,
            operand_value: 0,
            page_penalty: 0,
            extra_cycles: 0,
            cycle_count: 0,
            nmi_pending: false,
        }
    }
}

impl Cpu {
    /// The processor at rest: every register and counter at zero.
    pub open spec fn zeroed() -> Cpu {
        Cpu {
            reg: Registers { A: 0, X: 0, Y: 0, PC: 0, SP: 0, P: 0 },
            opcode: 0,
            operand_address: 0,
            operand_value: 0,
            page_penalty: 0,
            extra_cycles: 0,
            cycle_count: 0,
            nmi_pending: false,
        }
    }

    /// The processor after a reset that found `pc` in the reset vector.
    pub open spec fn powered_on(pc: u16) -> Cpu {
        Cpu {
            reg: Registers { A: 0, X: 0, Y: 0, PC: pc, SP: 0xFD, P: 0x24 },
            cycle_count: 7,
            ..Self::zeroed()
        }
    }

    /// Whether the counters can take `n` more cycles beside what the
    /// instruction costs at most without stalls.
    pub open spec fn can_spend(self, n: int) -> bool {
        self.cycle_count + self.extra_cycles + self.page_penalty + 8 + n <= u64::MAX
    }

    /// Whether `after` is `self` but for its registers, its operand and at
    /// most `n` more extra cycles.
    pub open spec fn spent(self, after: Cpu, n: int) -> bool {
        &&& after.cycle_count == self.cycle_count
        &&& after.page_penalty == self.page_penalty
        &&& after.opcode == self.opcode
        &&& after.nmi_pending == self.nmi_pending
        &&& self.extra_cycles <= after.extra_cycles <= self.extra_cycles + n
    }

    /// The cycle that the bus is told with a write: the counter, which
    /// still stands at the start of the instruction, and what the
    /// instruction has cost so far.
    pub open spec fn stamp(self) -> u64 {
        (self.cycle_count + cycles_of(self.opcode) + self.extra_cycles) as u64
    }

    /// The processor and the bus after a write of `value` to `addr`. A
    /// write to 0x4014 stalls the processor for a sprite DMA.
    pub open spec fn after_mem_write<M: Mapper>(self, b: BusView<M::V>, addr: u16, value: u8) -> (
        Cpu,
        BusView<M::V>,
    ) {
        (
            Cpu {
                extra_cycles: if addr == 0x4014 {
                    (self.extra_cycles + DMA_CYCLES) as u64
                } else {
                    self.extra_cycles
                },
                ..self
            },
            NesState::<M>::after_write(b, addr, value, self.stamp()),
        )
    }

    /// The processor with the program counter `n` bytes on.
    pub open spec fn with_pc_advanced(self, n: int) -> Cpu {
        Cpu { reg: Registers { PC: address_after(self.reg.PC, n), ..self.reg }, ..self }
    }

    /// The byte at the program counter, and the processor and the bus
    /// after it was read.
    pub open spec fn after_read_byte<M: Mapper>(self, b: BusView<M::V>) -> (u8, Cpu, BusView<M::V>) {
        (
            NesState::<M>::read_value(b, self.reg.PC),
            self.with_pc_advanced(1),
            NesState::<M>::after_read(b, self.reg.PC),
        )
    }

    /// The word at the program counter, low byte first, and the processor
    /// and the bus after it was read.
    pub open spec fn after_read_word<M: Mapper>(self, b: BusView<M::V>) -> (u16, Cpu, BusView<M::V>) {
        let low = self.after_read_byte::<M>(b);
        let high = low.1.after_read_byte::<M>(low.2);
        (word(low.0, high.0), high.1, high.2)
    }

    /// The processor with `value` as status.
    pub open spec fn with_p(self, value: u8) -> Cpu {
        Cpu { reg: Registers { P: value, ..self.reg }, ..self }
    }

    /// The processor with the flags N and Z as `value` has them.
    pub open spec fn with_nz(self, value: u8) -> Cpu {
        self.with_p(nz_flags(self.reg.P, value))
    }

    /// The processor with flag `bit` up or down.
    pub open spec fn with_flag(self, bit: u8, on: bool) -> Cpu {
        self.with_p(with_bit(self.reg.P, bit, on))
    }

    /// Whether flag `bit` is up.
    pub open spec fn flag(self, bit: u8) -> bool {
        bit_set(bit, self.reg.P)
    }

    /// The processor after it paid for the page crossing of its
    /// addressing mode, if there was one.
    pub open spec fn with_page_penalty(self) -> Cpu {
        Cpu { extra_cycles: (self.extra_cycles + self.page_penalty) as u64, ..self }
    }

    /// The processor and the bus after `value` was pushed: it is written
    /// to the cell that the stack pointer points at, and the pointer goes
    /// down by one, from 0 to 0xFF.
    pub open spec fn after_push<M: Mapper>(self, b: BusView<M::V>, value: u8) -> (Cpu, BusView<M::V>) {
        let written = self.after_mem_write::<M>(b, stack_address(self.reg.SP), value);
        (
            Cpu {
                reg: Registers { SP: ((self.reg.SP + 255) % 256) as u8, ..written.0.reg },
                ..written.0
            },
            written.1,
        )
    }

    /// The byte that a pull gives, and the processor and the bus after
    /// it: the stack pointer goes up by one, from 0xFF to 0, and the cell
    /// that it then points at is read.
    pub open spec fn after_pull<M: Mapper>(self, b: BusView<M::V>) -> (u8, Cpu, BusView<M::V>) {
        let sp = ((self.reg.SP + 1) % 256) as u8;
        (
            NesState::<M>::read_value(b, stack_address(sp)),
            Cpu { reg: Registers { SP: sp, ..self.reg }, ..self },
            NesState::<M>::after_read(b, stack_address(sp)),
        )
    }

    /// The processor and the bus after a word was pushed, high byte
    /// first.
    pub open spec fn after_push_word<M: Mapper>(self, b: BusView<M::V>, value: u16) -> (
        Cpu,
        BusView<M::V>,
    ) {
        let high = self.after_push::<M>(b, (value / 256) as u8);
        high.0.after_push::<M>(high.1, (value % 256) as u8)
    }

    /// The word that two pulls give, low byte first, and the processor
    /// and the bus after them.
    pub open spec fn after_pull_word<M: Mapper>(self, b: BusView<M::V>) -> (u16, Cpu, BusView<M::V>) {
        let low = self.after_pull::<M>(b);
        let high = low.1.after_pull::<M>(low.2);
        (word(low.0, high.0), high.1, high.2)
    }

    /// The status after `pulled` came off the stack: bits 4 and 5 stay
    /// as they are, the others are those of `pulled`.
    pub open spec fn status_from_stack(p: u8, pulled: u8) -> u8 {
        with_bit(
            with_bit(
                with_bit(
                    with_bit(
                        with_bit(with_bit(p, 0, bit_set(0, pulled)), 1, bit_set(1, pulled)),
                        2,
                        bit_set(2, pulled),
                    ),
                    3,
                    bit_set(3, pulled),
                ),
                6,
                bit_set(6, pulled),
            ),
            7,
            bit_set(7, pulled),
        )
    }

    /// The processor and the bus after the status was pulled.
    pub open spec fn after_pull_status<M: Mapper>(self, b: BusView<M::V>) -> (Cpu, BusView<M::V>) {
        let pulled = self.after_pull::<M>(b);
        (pulled.1.with_p(Self::status_from_stack(self.reg.P, pulled.0)), pulled.2)
    }

    /// Starts the processor: A, X and Y at zero, the stack pointer at
    /// 0xFD, the status at 0x24, the program counter from the reset
    /// vector, and seven cycles on the counter for the reset itself.
    pub fn new<M: Mapper>(state: &NesState<M>) -> (r: Self)
        requires
            state.inv(),
        ensures
            r == Self::powered_on(NesState::<M>::read_word_value(state@, RESET_VECTOR)),
            r.reg.PC == NesState::<M>::read_word_value(state@, 0xFFFC),
            r.reg.SP == 0xFD,
            r.reg.P == 0x24,
    {
        Self {
            reg: Registers {
                A: 0,
                X: 0,
                Y: 0,
                PC: state.cpu_mem_read_word(RESET_VECTOR),
                SP: 0xFD,
                P: 0x24,
            },
            opcode: 0,
            operand_address: 0,
            operand_value: 0,
            page_penalty: 0,
            extra_cycles: 0,
            cycle_count: 7,
            nmi_pending: false,
        }
    }

    /// Resets the processor as the reset button does: the program
    /// counter comes from the reset vector, the stack pointer is 0xFD and
    /// the status 0x24.
    pub fn _reset<M: Mapper>(&mut self, state: &NesState<M>)
        requires
            state.inv(),
        ensures
            *final(self) == (Cpu {
                reg: Registers {
                    PC: NesState::<M>::read_word_value(state@, RESET_VECTOR),
                    SP: 0xFD,
                    P: 0x24,
                    ..old(self).reg
                },
                ..*old(self)
            }),
    {
        self.reg.PC = state.cpu_mem_read_word(RESET_VECTOR);
        self.reg.SP = 0xFD;
        self.reg.P = 0x24;
    }

    /// Sets the program counter to the given value.
    pub fn set_program_counter(&mut self, addr: u16)
        ensures
            *final(self) == (Cpu { reg: Registers { PC: addr, ..old(self).reg }, ..*old(self) }),
    {
        self.reg.PC = addr;
    }

    /// Asks for a non-maskable interrupt before the next instruction.
    pub fn request_nmi(&mut self)
        ensures
            *final(self) == (Cpu { nmi_pending: true, ..*old(self) }),
    {
        self.nmi_pending = true;
    }

    /// Reads a byte from the bus.
    pub fn do_mem_read<M: Mapper>(&self, state: &mut NesState<M>, addr: u16) -> (r: u8)
        requires
            old(state).inv(),
        ensures
            final(state).inv(),
            same_dots(old(state)@, final(state)@),
            r == NesState::<M>::read_value(old(state)@, addr),
            final(state)@ == NesState::<M>::after_read(old(state)@, addr),
    {
        state.cpu_mem_read(self.cycle_count, addr)
    }

    /// Reads a word straight from the cartridge.
    pub fn do_mem_read_word<M: Mapper>(&self, state: &NesState<M>, addr: u16) -> (r: u16)
        requires
            state.inv(),
        ensures
            r == NesState::<M>::read_word_value(state@, addr),
    {
        state.cpu_mem_read_word(addr)
    }

    /// Writes a byte to the bus and pays for the sprite DMA that a write
    /// to 0x4014 starts.
    pub fn do_mem_write<M: Mapper>(&mut self, state: &mut NesState<M>, addr: u16, value: u8)
        requires
            old(state).inv(),
            old(self).can_spend(513),
        ensures
            final(state).inv(),
            same_dots(old(state)@, final(state)@),
            (*final(self), final(state)@) == old(self).after_mem_write::<M>(old(state)@, addr, value),
            old(self).spent(*final(self), 513),
            final(self).reg == old(self).reg,
    {
        let cycle: u64 = self.cycle_count + lookup_cycles(self.opcode) + self.extra_cycles;
        state.cpu_mem_write(addr, value, cycle);
        if addr == 0x4014 {
            self.extra_cycles = self.extra_cycles + DMA_CYCLES;
        }
    }

    /// Reads the byte at the program counter and moves the counter on.
    pub fn read_byte<M: Mapper>(&mut self, state: &mut NesState<M>) -> (r: u8)
        requires
            old(state).inv(),
        ensures
            final(state).inv(),
            same_dots(old(state)@, final(state)@),
            (r, *final(self), final(state)@) == old(self).after_read_byte::<M>(old(state)@),
    {
        let next_byte: u8 = self.do_mem_read(state, self.reg.PC);
        self.reg.PC = self.reg.PC.wrapping_add(1);
        next_byte
    }

    /// Reads the word at the program counter and moves the counter on.
    pub fn read_word<M: Mapper>(&mut self, state: &mut NesState<M>) -> (r: u16)
        requires
            old(state).inv(),
        ensures
            final(state).inv(),
            same_dots(old(state)@, final(state)@),
            (r, *final(self), final(state)@) == old(self).after_read_word::<M>(old(state)@),
    {
        let lsb: u8 = self.read_byte(state);
        let msb: u8 = self.read_byte(state);
        make_word(lsb, msb)
    }

    pub fn update_processor_status_n_flag(&mut self, input: u8)
        ensures
            *final(self) == old(self).with_flag(PS_N_BIT, bit_set(PS_N_BIT, input)),
    {
        set_bit_from(PS_N_BIT, input, &mut self.reg.P);
    }

    pub fn update_processor_status_z_flag(&mut self, input: u8)
        ensures
            *final(self) == old(self).with_flag(PS_Z_BIT, input == 0),
    {
        if input == 0 {
            set_bit(PS_Z_BIT, &mut self.reg.P);
        } else {
            clear_bit(PS_Z_BIT, &mut self.reg.P);
        }
    }

    pub fn update_processor_status_nz_flags(&mut self, input: u8)
        ensures
            *final(self) == old(self).with_nz(input),
    {
        self.update_processor_status_n_flag(input);
        self.update_processor_status_z_flag(input);
    }

    pub fn set_processor_status_c_flag(&mut self)
        ensures
            *final(self) == old(self).with_flag(PS_C_BIT, true),
    {
        set_bit(PS_C_BIT, &mut self.reg.P);
    }

    pub fn clear_processor_status_c_flag(&mut self)
        ensures
            *final(self) == old(self).with_flag(PS_C_BIT, false),
    {
        clear_bit(PS_C_BIT, &mut self.reg.P);
    }

    pub fn set_processor_status_v_flag(&mut self)
        ensures
            *final(self) == old(self).with_flag(PS_V_BIT, true),
    {
        set_bit(PS_V_BIT, &mut self.reg.P);
    }

    pub fn clear_processor_status_v_flag(&mut self)
        ensures
            *final(self) == old(self).with_flag(PS_V_BIT, false),
    {
        clear_bit(PS_V_BIT, &mut self.reg.P);
    }

    /// Sets flag `bit` up or down.
    pub fn put_flag(&mut self, bit: u8, on: bool)
        requires
            bit < 8,
        ensures
            *final(self) == old(self).with_flag(bit, on),
    {
        if on {
            set_bit(bit, &mut self.reg.P);
        } else {
            clear_bit(bit, &mut self.reg.P);
        }
    }

    /// Pays for the page crossing of the addressing mode. It is for the
    /// instructions that a crossing costs a cycle, and for no others.
    pub fn apply_page_penalty(&mut self)
        requires
            old(self).extra_cycles + old(self).page_penalty <= u64::MAX,
        ensures
            *final(self) == old(self).with_page_penalty(),
    {
        self.extra_cycles = self.extra_cycles + self.page_penalty;
    }

    /// Push a value onto the stack.
    pub fn stack_push<M: Mapper>(&mut self, state: &mut NesState<M>, value: u8)
        requires
            old(state).inv(),
            old(self).can_spend(513),
        ensures
            final(state).inv(),
            same_dots(old(state)@, final(state)@),
            (*final(self), final(state)@) == old(self).after_push::<M>(old(state)@, value),
            old(self).spent(*final(self), 513),
            final(self).reg.SP == (old(self).reg.SP + 255) % 256,
    {
        // The stack is empty-ascending: SP points at the next free cell.
        let push_addr: u16 = 0x0100 + self.reg.SP as u16;
        self.do_mem_write(state, push_addr, value);
        self.reg.SP = self.reg.SP.wrapping_sub(1);
    }

    /// Pull a value from the stack.
    pub fn stack_pull<M: Mapper>(&mut self, state: &mut NesState<M>) -> (r: u8)
        requires
            old(state).inv(),
        ensures
            final(state).inv(),
            same_dots(old(state)@, final(state)@),
            (r, *final(self), final(state)@) == old(self).after_pull::<M>(old(state)@),
            old(self).spent(*final(self), 0),
            final(self).reg.SP == (old(self).reg.SP + 1) % 256,
    {
        self.reg.SP = self.reg.SP.wrapping_add(1);
        let pull_addr: u16 = 0x0100 + self.reg.SP as u16;
        self.do_mem_read(state, pull_addr)
    }

    /// Push a 16-bit value onto the stack, high byte first.
    pub fn stack_push_word<M: Mapper>(&mut self, state: &mut NesState<M>, value: u16)
        requires
            old(state).inv(),
            old(self).can_spend(1026),
        ensures
            final(state).inv(),
            same_dots(old(state)@, final(state)@),
            (*final(self), final(state)@) == old(self).after_push_word::<M>(old(state)@, value),
            old(self).spent(*final(self), 1026),
    {
        let high: u8 = (value / 256) as u8;
        let low: u8 = (value % 256) as u8;
        self.stack_push(state, high);
        self.stack_push(state, low);
    }

    /// Pull a 16-bit value from the stack, low byte first.
    pub fn stack_pull_word<M: Mapper>(&mut self, state: &mut NesState<M>) -> (r: u16)
        requires
            old(state).inv(),
        ensures
            final(state).inv(),
            same_dots(old(state)@, final(state)@),
            (r, *final(self), final(state)@) == old(self).after_pull_word::<M>(old(state)@),
            old(self).spent(*final(self), 0),
    {
        let lsb: u8 = self.stack_pull(state);
        let msb: u8 = self.stack_pull(state);
        make_word(lsb, msb)
    }

    /// Pulls the status from the stack, but for its bits 4 and 5.
    pub fn set_p_from_stack<M: Mapper>(&mut self, state: &mut NesState<M>)
        requires
            old(state).inv(),
        ensures
            final(state).inv(),
            same_dots(old(state)@, final(state)@),
            (*final(self), final(state)@) == old(self).after_pull_status::<M>(old(state)@),
            old(self).spent(*final(self), 0),
    {
        let stack_value: u8 = self.stack_pull(state);
        set_bit_from(0, stack_value, &mut self.reg.P);
        set_bit_from(1, stack_value, &mut self.reg.P);
        set_bit_from(2, stack_value, &mut self.reg.P);
        set_bit_from(3, stack_value, &mut self.reg.P);
        set_bit_from(6, stack_value, &mut self.reg.P);
        set_bit_from(7, stack_value, &mut self.reg.P);
    }
}

} // verus!
