//! Shifts and rotations, on A or on memory, and the combined instructions
//! that follow one of them by a logic or arithmetic instruction.

use vstd::prelude::*;
use crate::cpu::constants::PS_C_BIT;
use crate::cpu::table::{addr_mode_of, lookup_addr_mode, AddrMode};
use crate::cpu::{Cpu, Registers};
use crate::mappers::Mapper;
use crate::state::{same_dots, BusView, NesState};
use crate::utils::{bit_is_set, bit_set};

verus! {

impl Cpu {
    /// The processor and the bus after `result` went where the operand
    /// came from: into A in accumulator mode, else to the operand address.
    pub open spec fn after_put_result<M: Mapper>(self, b: BusView<M::V>, result: u8) -> (
        Cpu,
        BusView<M::V>,
    ) {
        if addr_mode_of(self.opcode) == AddrMode::ACC {
            (Cpu { reg: Registers { A: result, ..self.reg }, ..self }, b)
        } else {
            self.after_mem_write::<M>(b, self.operand_address, result)
        }
    }

    /// The processor and the bus after the operand was replaced by
    /// `result`, with `carry` in C and the flags N and Z after `result`.
    pub open spec fn after_shift_result<M: Mapper>(
        self,
        b: BusView<M::V>,
        result: u8,
        carry: bool,
    ) -> (Cpu, BusView<M::V>) {
        self.with_flag(PS_C_BIT, carry).with_nz(result).after_put_result::<M>(b, result)
    }

    /// ASL: the operand moves one bit to the left; C takes bit 7.
    pub open spec fn after_asl<M: Mapper>(self, b: BusView<M::V>) -> (Cpu, BusView<M::V>) {
        let f = self.after_fetch_operand::<M>(b);
        let v = f.0.operand_value;
        f.0.after_shift_result::<M>(f.1, v << 1, bit_set(7, v))
    }

    /// LSR: the operand moves one bit to the right; C takes bit 0.
    pub open spec fn after_lsr<M: Mapper>(self, b: BusView<M::V>) -> (Cpu, BusView<M::V>) {
        let f = self.after_fetch_operand::<M>(b);
        let v = f.0.operand_value;
        f.0.after_shift_result::<M>(f.1, v >> 1, bit_set(0, v))
    }

    /// ROL: as ASL, with the old C coming in as bit 0.
    pub open spec fn after_rol<M: Mapper>(self, b: BusView<M::V>) -> (Cpu, BusView<M::V>) {
        let f = self.after_fetch_operand::<M>(b);
        let v = f.0.operand_value;
        let bit0 = if f.0.flag(PS_C_BIT) { 1u8 } else { 0u8 };
        f.0.after_shift_result::<M>(f.1, (v << 1) | bit0, bit_set(7, v))
    }

    /// ROR: as LSR, with the old C coming in as bit 7.
    pub open spec fn after_ror<M: Mapper>(self, b: BusView<M::V>) -> (Cpu, BusView<M::V>) {
        let f = self.after_fetch_operand::<M>(b);
        let v = f.0.operand_value;
        let bit7 = if f.0.flag(PS_C_BIT) { 0x80u8 } else { 0u8 };
        f.0.after_shift_result::<M>(f.1, (v >> 1) | bit7, bit_set(0, v))
    }

    /// SLO: ASL, then ORA of what ASL left; no page penalty.
    pub open spec fn after_slo<M: Mapper>(self, b: BusView<M::V>) -> (Cpu, BusView<M::V>) {
        let first = self.after_asl::<M>(b);
        let second = first.0.after_ora::<M>(first.1);
        (second.0.with_penalty_refunded(), second.1)
    }

    /// RLA: ROL, then AND of what ROL left; no page penalty.
    pub open spec fn after_rla<M: Mapper>(self, b: BusView<M::V>) -> (Cpu, BusView<M::V>) {
        let first = self.after_rol::<M>(b);
        let second = first.0.after_and::<M>(first.1);
        (second.0.with_penalty_refunded(), second.1)
    }

    /// SRE: LSR, then EOR of what LSR left; no page penalty.
    pub open spec fn after_sre<M: Mapper>(self, b: BusView<M::V>) -> (Cpu, BusView<M::V>) {
        let first = self.after_lsr::<M>(b);
        let second = first.0.after_eor::<M>(first.1);
        (second.0.with_penalty_refunded(), second.1)
    }

    /// RRA: ROR, then ADC of what ROR left; no page penalty.
    pub open spec fn after_rra<M: Mapper>(self, b: BusView<M::V>) -> (Cpu, BusView<M::V>) {
        let first = self.after_ror::<M>(b);
        let second = first.0.after_adc::<M>(first.1);
        (second.0.with_penalty_refunded(), second.1)
    }

    /// Puts the result of a shift into A or into memory, as the
    /// addressing mode says.
    pub fn put_result<M: Mapper>(&mut self, state: &mut NesState<M>, result: u8)
        requires
            old(state).inv(),
            old(self).can_spend(513),
        ensures
            final(state).inv(),
            same_dots(old(state)@, final(state)@),
            (*final(self), final(state)@) == old(self).after_put_result::<M>(old(state)@, result),
            old(self).spent(*final(self), 513),
    {
        let mode: AddrMode = lookup_addr_mode(self.opcode);
        match mode {
            AddrMode::ACC => {
                self.reg.A = result;
            },
            _ => {
                self.do_mem_write(state, self.operand_address, result);
            },
        }
    }

    pub fn asl<M: Mapper>(&mut self, state: &mut NesState<M>)
        requires
            old(state).inv(),
            old(self).can_spend(513),
        ensures
            final(state).inv(),
            same_dots(old(state)@, final(state)@),
            (*final(self), final(state)@) == old(self).after_asl::<M>(old(state)@),
            old(self).spent(*final(self), 513),
    {
        self.fetch_operand(state);
        // Bit 7 of the operand goes to the carry flag.
        self.put_flag(PS_C_BIT, bit_is_set(7, self.operand_value));
        let result: u8 = self.operand_value << 1;
        self.update_processor_status_nz_flags(result);
        self.put_result(state, result);
    }

    pub fn lsr<M: Mapper>(&mut self, state: &mut NesState<M>)
        requires
            old(state).inv(),
            old(self).can_spend(513),
        ensures
            final(state).inv(),
            same_dots(old(state)@, final(state)@),
            (*final(self), final(state)@) == old(self).after_lsr::<M>(old(state)@),
            old(self).spent(*final(self), 513),
    {
        self.fetch_operand(state);
        // Bit 0 of the operand goes to the carry flag.
        self.put_flag(PS_C_BIT, bit_is_set(0, self.operand_value));
        let result: u8 = self.operand_value >> 1;
        self.update_processor_status_nz_flags(result);
        self.put_result(state, result);
    }

    pub fn rol<M: Mapper>(&mut self, state: &mut NesState<M>)
        requires
            old(state).inv(),
            old(self).can_spend(513),
        ensures
            final(state).inv(),
            same_dots(old(state)@, final(state)@),
            (*final(self), final(state)@) == old(self).after_rol::<M>(old(state)@),
            old(self).spent(*final(self), 513),
    {
        self.fetch_operand(state);
        // Bit 0 of the result is the carry flag as it was.
        let bit0: u8 = if bit_is_set(PS_C_BIT, self.reg.P) {
            1u8
        } else {
            0u8
        };
        self.put_flag(PS_C_BIT, bit_is_set(7, self.operand_value));
        let mut result: u8 = self.operand_value << 1;
        result = result | bit0;
        self.update_processor_status_nz_flags(result);
        self.put_result(state, result);
    }

    pub fn ror<M: Mapper>(&mut self, state: &mut NesState<M>)
        requires
            old(state).inv(),
            old(self).can_spend(513),
        ensures
            final(state).inv(),
            same_dots(old(state)@, final(state)@),
            (*final(self), final(state)@) == old(self).after_ror::<M>(old(state)@),
            old(self).spent(*final(self), 513),
    {
        self.fetch_operand(state);
        // Bit 7 of the result is the carry flag as it was.
        let bit7: u8 = if bit_is_set(PS_C_BIT, self.reg.P) {
            0x80u8
        } else {
            0u8
        };
        self.put_flag(PS_C_BIT, bit_is_set(0, self.operand_value));
        let mut result: u8 = self.operand_value >> 1;
        result = result | bit7;
        self.update_processor_status_nz_flags(result);
        self.put_result(state, result);
    }

    #[verifier::rlimit(40)]
    pub fn slo<M: Mapper>(&mut self, state: &mut NesState<M>)
        requires
            old(state).inv(),
            old(self).can_spend(513),
        ensures
            final(state).inv(),
            same_dots(old(state)@, final(state)@),
            (*final(self), final(state)@) == old(self).after_slo::<M>(old(state)@),
            old(self).spent(*final(self), 513),
    {
        self.asl(state);
        self.ora(state);
        // This instruction pays no page penalty, but ORA has added it.
        self.extra_cycles = self.extra_cycles - self.page_penalty;
    }

    #[verifier::rlimit(40)]
    pub fn rla<M: Mapper>(&mut self, state: &mut NesState<M>)
        requires
            old(state).inv(),
            old(self).can_spend(513),
        ensures
            final(state).inv(),
            same_dots(old(state)@, final(state)@),
            (*final(self), final(state)@) == old(self).after_rla::<M>(old(state)@),
            old(self).spent(*final(self), 513),
    {
        self.rol(state);
        self.and(state);
        // This instruction pays no page penalty, but AND has added it.
        self.extra_cycles = self.extra_cycles - self.page_penalty;
    }

    #[verifier::rlimit(40)]
    pub fn sre<M: Mapper>(&mut self, state: &mut NesState<M>)
        requires
            old(state).inv(),
            old(self).can_spend(513),
        ensures
            final(state).inv(),
            same_dots(old(state)@, final(state)@),
            (*final(self), final(state)@) == old(self).after_sre::<M>(old(state)@),
            old(self).spent(*final(self), 513),
    {
        self.lsr(state);
        self.eor(state);
        // This instruction pays no page penalty, but EOR has added it.
        self.extra_cycles = self.extra_cycles - self.page_penalty;
    }

    #[verifier::rlimit(40)]
    pub fn rra<M: Mapper>(&mut self, state: &mut NesState<M>)
        requires
            old(state).inv(),
            old(self).can_spend(513),
        ensures
            final(state).inv(),
            same_dots(old(state)@, final(state)@),
            (*final(self), final(state)@) == old(self).after_rra::<M>(old(state)@),
            old(self).spent(*final(self), 513),
    {
        self.ror(state);
        self.adc(state);
        // This instruction pays no page penalty, but ADC has added it.
        self.extra_cycles = self.extra_cycles - self.page_penalty;
    }
}

} // verus!
