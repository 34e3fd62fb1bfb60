//! Branches, jumps, subroutines and interrupts.

use vstd::prelude::*;
use crate::cpu::constants::{
    INTERRUPT_CYCLES, IRQ_VECTOR, NMI_VECTOR, PS_C_BIT, PS_I_BIT, PS_N_BIT, PS_V_BIT, PS_Z_BIT,
};
use crate::cpu::moves::pushed_status;
use crate::cpu::{address_after, offset_address, signed, Cpu, Registers};
use crate::mappers::Mapper;
use crate::state::{same_dots, BusView, NesState};
use crate::utils::{bit_is_set, clear_bit, page_of, same_page, set_bit, with_bit};

verus! {

/// The status as an interrupt of the hardware puts it onto the stack: with
/// bit 4 clear and bit 5 set.
pub open spec fn interrupt_status(p: u8) -> u8 {
    with_bit(with_bit(p, 4, false), 5, true)
}

impl Cpu {
    /// The processor with `addr` as program counter.
    pub open spec fn with_pc(self, addr: u16) -> Cpu {
        Cpu { reg: Registers { PC: addr, ..self.reg }, ..self }
    }

    /// Where a branch leads: the program counter, which stands behind the
    /// operand, moved by the operand as a signed byte.
    pub open spec fn branch_destination(self) -> u16 {
        offset_address(self.reg.PC, self.operand_value)
    }

    /// The processor after a branch was taken: it costs one cycle, and
    /// one more where the destination lies on another page.
    pub open spec fn branched(self) -> Cpu {
        let dest = self.branch_destination();
        Cpu {
            extra_cycles: (self.extra_cycles + 1 + if page_of(dest) == page_of(self.reg.PC) {
                0int
            } else {
                1int
            }) as u64,
            ..self.with_pc(dest)
        }
    }

    /// The processor and the bus after a branch that is taken where flag
    /// `bit` is `wanted`.
    pub open spec fn after_branch<M: Mapper>(self, b: BusView<M::V>, bit: u8, wanted: bool) -> (
        Cpu,
        BusView<M::V>,
    ) {
        let f = self.after_fetch_operand::<M>(b);
        (
            if f.0.flag(bit) == wanted {
                f.0.branched()
            } else {
                f.0
            },
            f.1,
        )
    }

    /// JMP
    pub open spec fn after_jmp(self) -> Cpu {
        self.with_pc(self.operand_address)
    }

    /// JSR: the address of the last byte of the instruction goes onto
    /// the stack, high byte first, and the operand address is the new
    /// program counter.
    pub open spec fn after_jsr<M: Mapper>(self, b: BusView<M::V>) -> (Cpu, BusView<M::V>) {
        let pushed = self.after_push_word::<M>(b, address_after(self.reg.PC, 0xFFFF));
        (pushed.0.with_pc(self.operand_address), pushed.1)
    }

    /// RTS: the program counter is the word from the stack, plus one.
    pub open spec fn after_rts<M: Mapper>(self, b: BusView<M::V>) -> (Cpu, BusView<M::V>) {
        let pulled = self.after_pull_word::<M>(b);
        (pulled.1.with_pc(address_after(pulled.0, 1)), pulled.2)
    }

    /// RTI: the status comes off the stack, but for its bits 4 and 5,
    /// then the program counter.
    pub open spec fn after_rti<M: Mapper>(self, b: BusView<M::V>) -> (Cpu, BusView<M::V>) {
        let status = self.after_pull_status::<M>(b);
        let pulled = status.0.after_pull_word::<M>(status.1);
        (pulled.1.with_pc(pulled.0), pulled.2)
    }

    /// BRK: the program counter plus one and the status with bits 4 and
    /// 5 set go onto the stack, I goes up, and the program counter comes
    /// from the vector at 0xFFFE.
    pub open spec fn after_brk<M: Mapper>(self, b: BusView<M::V>) -> (Cpu, BusView<M::V>) {
        let pc = self.after_push_word::<M>(b, address_after(self.reg.PC, 1));
        let status = pc.0.after_push::<M>(pc.1, pushed_status(self.reg.P));
        (
            status.0.with_flag(PS_I_BIT, true).with_pc(
                NesState::<M>::read_word_value(status.1, IRQ_VECTOR),
            ),
            status.1,
        )
    }

    /// The entry into a non-maskable interrupt: the program counter and
    /// the status with bit 4 clear and bit 5 set go onto the stack, I
    /// goes up, the program counter comes from the vector at 0xFFFA, the
    /// request is done with, and seven cycles are spent.
    pub open spec fn after_nmi<M: Mapper>(self, b: BusView<M::V>) -> (Cpu, BusView<M::V>) {
        let pc = self.after_push_word::<M>(b, self.reg.PC);
        let status = pc.0.after_push::<M>(pc.1, interrupt_status(self.reg.P));
        let entered = status.0.with_flag(PS_I_BIT, true).with_pc(
            NesState::<M>::read_word_value(status.1, NMI_VECTOR),
        );
        (
            Cpu {
                nmi_pending: false,
                extra_cycles: (entered.extra_cycles + INTERRUPT_CYCLES) as u64,
                ..entered
            },
            status.1,
        )
    }

    /// Returns the result of adding the signed relative offset to PC.
    pub fn get_branch_destination(&self) -> (r: u16)
        ensures
            r == self.branch_destination(),
            r == (self.reg.PC + signed(self.operand_value)) % 0x10000,
    {
        let offset: u8 = self.operand_value;
        if offset < 128 {
            self.reg.PC.wrapping_add(offset as u16)
        } else {
            self.reg.PC.wrapping_sub(256 - (offset as u16))
        }
    }

    /// Takes the branch: moves the program counter and pays for it.
    pub fn take_branch(&mut self)
        requires
            old(self).can_spend(2),
        ensures
            *final(self) == old(self).branched(),
            final(self).reg.PC == (old(self).reg.PC + signed(old(self).operand_value)) % 0x10000,
            final(self).extra_cycles == old(self).extra_cycles + 1 + if page_of(final(self).reg.PC)
                == page_of(old(self).reg.PC) {
                0int
            } else {
                1int
            },
    {
        self.extra_cycles = self.extra_cycles + 1;
        let dest: u16 = self.get_branch_destination();
        if !same_page(dest, self.reg.PC) {
            self.extra_cycles = self.extra_cycles + 1;
        }
        self.reg.PC = dest;
    }

    /// Branch if the specified flag bit (0..7) of P is set.
    pub fn branch_if_set(&mut self, flag_bit: u8)
        requires
            flag_bit < 8,
            old(self).can_spend(2),
        ensures
            *final(self) == if old(self).flag(flag_bit) {
                old(self).branched()
            } else {
                *old(self)
            },
    {
        if bit_is_set(flag_bit, self.reg.P) {
            self.take_branch();
        }
    }

    /// Branch if the specified flag bit (0..7) of P is clear.
    pub fn branch_if_clear(&mut self, flag_bit: u8)
        requires
            flag_bit < 8,
            old(self).can_spend(2),
        ensures
            *final(self) == if !old(self).flag(flag_bit) {
                old(self).branched()
            } else {
                *old(self)
            },
    {
        if !bit_is_set(flag_bit, self.reg.P) {
            self.take_branch();
        }
    }

    pub fn bcc<M: Mapper>(&mut self, state: &mut NesState<M>)
        requires
            old(state).inv(),
            old(self).can_spend(2),
        ensures
            final(state).inv(),
            same_dots(old(state)@, final(state)@),
            (*final(self), final(state)@) == old(self).after_branch::<M>(
                old(state)@,
                PS_C_BIT,
                false,
            ),
            old(self).spent(*final(self), 2),
    {
        self.fetch_operand(state);
        self.branch_if_clear(PS_C_BIT);
    }

    pub fn bcs<M: Mapper>(&mut self, state: &mut NesState<M>)
        requires
            old(state).inv(),
            old(self).can_spend(2),
        ensures
            final(state).inv(),
            same_dots(old(state)@, final(state)@),
            (*final(self), final(state)@) == old(self).after_branch::<M>(
                old(state)@,
                PS_C_BIT,
                true,
            ),
            old(self).spent(*final(self), 2),
    {
        self.fetch_operand(state);
        self.branch_if_set(PS_C_BIT);
    }

    pub fn beq<M: Mapper>(&mut self, state: &mut NesState<M>)
        requires
            old(state).inv(),
            old(self).can_spend(2),
        ensures
            final(state).inv(),
            same_dots(old(state)@, final(state)@),
            (*final(self), final(state)@) == old(self).after_branch::<M>(
                old(state)@,
                PS_Z_BIT,
                true,
            ),
            old(self).spent(*final(self), 2),
    {
        self.fetch_operand(state);
        self.branch_if_set(PS_Z_BIT);
    }

    pub fn bmi<M: Mapper>(&mut self, state: &mut NesState<M>)
        requires
            old(state).inv(),
            old(self).can_spend(2),
        ensures
            final(state).inv(),
            same_dots(old(state)@, final(state)@),
            (*final(self), final(state)@) == old(self).after_branch::<M>(
                old(state)@,
                PS_N_BIT,
                true,
            ),
            old(self).spent(*final(self), 2),
    {
        self.fetch_operand(state);
        self.branch_if_set(PS_N_BIT);
    }

    pub fn bne<M: Mapper>(&mut self, state: &mut NesState<M>)
        requires
            old(state).inv(),
            old(self).can_spend(2),
        ensures
            final(state).inv(),
            same_dots(old(state)@, final(state)@),
            (*final(self), final(state)@) == old(self).after_branch::<M>(
                old(state)@,
                PS_Z_BIT,
                false,
            ),
            old(self).spent(*final(self), 2),
    {
        self.fetch_operand(state);
        self.branch_if_clear(PS_Z_BIT);
    }

    pub fn bpl<M: Mapper>(&mut self, state: &mut NesState<M>)
        requires
            old(state).inv(),
            old(self).can_spend(2),
        ensures
            final(state).inv(),
            same_dots(old(state)@, final(state)@),
            (*final(self), final(state)@) == old(self).after_branch::<M>(
                old(state)@,
                PS_N_BIT,
                false,
            ),
            old(self).spent(*final(self), 2),
    {
        self.fetch_operand(state);
        self.branch_if_clear(PS_N_BIT);
    }

    pub fn bvc<M: Mapper>(&mut self, state: &mut NesState<M>)
        requires
            old(state).inv(),
            old(self).can_spend(2),
        ensures
            final(state).inv(),
            same_dots(old(state)@, final(state)@),
            (*final(self), final(state)@) == old(self).after_branch::<M>(
                old(state)@,
                PS_V_BIT,
                false,
            ),
            old(self).spent(*final(self), 2),
    {
        self.fetch_operand(state);
        self.branch_if_clear(PS_V_BIT);
    }

    pub fn bvs<M: Mapper>(&mut self, state: &mut NesState<M>)
        requires
            old(state).inv(),
            old(self).can_spend(2),
        ensures
            final(state).inv(),
            same_dots(old(state)@, final(state)@),
            (*final(self), final(state)@) == old(self).after_branch::<M>(
                old(state)@,
                PS_V_BIT,
                true,
            ),
            old(self).spent(*final(self), 2),
    {
        self.fetch_operand(state);
        self.branch_if_set(PS_V_BIT);
    }

    pub fn jmp(&mut self)
        ensures
            *final(self) == old(self).after_jmp(),
    {
        self.reg.PC = self.operand_address;
    }

    #[verifier::rlimit(40)]
    pub fn jsr<M: Mapper>(&mut self, state: &mut NesState<M>)
        requires
            old(state).inv(),
            old(self).can_spend(1026),
        ensures
            final(state).inv(),
            same_dots(old(state)@, final(state)@),
            (*final(self), final(state)@) == old(self).after_jsr::<M>(old(state)@),
            old(self).spent(*final(self), 1026),
    {
        let return_addr: u16 = self.reg.PC.wrapping_sub(1);
        self.stack_push_word(state, return_addr);
        self.reg.PC = self.operand_address;
    }

    pub fn rts<M: Mapper>(&mut self, state: &mut NesState<M>)
        requires
            old(state).inv(),
        ensures
            final(state).inv(),
            same_dots(old(state)@, final(state)@),
            (*final(self), final(state)@) == old(self).after_rts::<M>(old(state)@),
            old(self).spent(*final(self), 0),
    {
        self.reg.PC = self.stack_pull_word(state);
        self.reg.PC = self.reg.PC.wrapping_add(1);
    }

    #[verifier::rlimit(40)]
    pub fn rti<M: Mapper>(&mut self, state: &mut NesState<M>)
        requires
            old(state).inv(),
        ensures
            final(state).inv(),
            same_dots(old(state)@, final(state)@),
            (*final(self), final(state)@) == old(self).after_rti::<M>(old(state)@),
            old(self).spent(*final(self), 0),
    {
        self.set_p_from_stack(state);
        self.reg.PC = self.stack_pull_word(state);
    }

    #[verifier::rlimit(40)]
    pub fn brk<M: Mapper>(&mut self, state: &mut NesState<M>)
        requires
            old(state).inv(),
            old(self).can_spend(1539),
        ensures
            final(state).inv(),
            same_dots(old(state)@, final(state)@),
            (*final(self), final(state)@) == old(self).after_brk::<M>(old(state)@),
            old(self).spent(*final(self), 1539),
    {
        let mut p_val: u8 = self.reg.P;
        set_bit(4, &mut p_val);
        set_bit(5, &mut p_val);
        self.stack_push_word(state, self.reg.PC.wrapping_add(1));
        self.stack_push(state, p_val);
        set_bit(PS_I_BIT, &mut self.reg.P);
        self.reg.PC = self.do_mem_read_word(state, IRQ_VECTOR);
    }

    /// Enters the non-maskable interrupt that was asked for.
    #[verifier::rlimit(40)]
    pub fn service_nmi<M: Mapper>(&mut self, state: &mut NesState<M>)
        requires
            old(state).inv(),
            old(self).can_spend(1546),
        ensures
            final(state).inv(),
            same_dots(old(state)@, final(state)@),
            (*final(self), final(state)@) == old(self).after_nmi::<M>(old(state)@),
            final(self).cycle_count == old(self).cycle_count,
            final(self).page_penalty == old(self).page_penalty,
            final(self).opcode == old(self).opcode,
            old(self).extra_cycles + 7 <= final(self).extra_cycles <= old(self).extra_cycles + 1546,
            !final(self).nmi_pending,
    {
        let mut p_val: u8 = self.reg.P;
        clear_bit(4, &mut p_val);
        set_bit(5, &mut p_val);
        self.stack_push_word(state, self.reg.PC);
        self.stack_push(state, p_val);
        set_bit(PS_I_BIT, &mut self.reg.P);
        self.reg.PC = self.do_mem_read_word(state, NMI_VECTOR);
        self.nmi_pending = false;
        self.extra_cycles = self.extra_cycles + INTERRUPT_CYCLES;
    }
}

} // verus!
