//! Comparisons: CMP, CPX, CPY and the combined DCP.

use vstd::prelude::*;
use crate::cpu::constants::{PS_C_BIT, PS_N_BIT, PS_Z_BIT};
use crate::cpu::Cpu;
use crate::mappers::Mapper;
use crate::state::{same_dots, BusView, NesState};
use crate::utils::{bit_set, set_bit_from};

verus! {

impl Cpu {
    /// The processor after `register` was held against `value`: C tells
    /// whether the register is at least the value, Z whether they are
    /// equal, and N is bit 7 of their difference modulo 256.
    pub open spec fn compared(self, register: u8, value: u8) -> Cpu {
        self.with_flag(PS_C_BIT, register >= value).with_flag(PS_Z_BIT, register == value).with_flag(
            PS_N_BIT,
            bit_set(PS_N_BIT, register.wrapping_sub(value)),
        )
    }

    /// CMP: A against the operand.
    pub open spec fn after_cmp<M: Mapper>(self, b: BusView<M::V>) -> (Cpu, BusView<M::V>) {
        let f = self.after_fetch_operand::<M>(b);
        (f.0.compared(f.0.reg.A, f.0.operand_value).with_page_penalty(), f.1)
    }

    /// CPX: X against the operand.
    pub open spec fn after_cpx<M: Mapper>(self, b: BusView<M::V>) -> (Cpu, BusView<M::V>) {
        let f = self.after_fetch_operand::<M>(b);
        (f.0.compared(f.0.reg.X, f.0.operand_value), f.1)
    }

    /// CPY: Y against the operand.
    pub open spec fn after_cpy<M: Mapper>(self, b: BusView<M::V>) -> (Cpu, BusView<M::V>) {
        let f = self.after_fetch_operand::<M>(b);
        (f.0.compared(f.0.reg.Y, f.0.operand_value), f.1)
    }

    /// DCP: DEC, then A against the byte that DEC left.
    pub open spec fn after_dcp<M: Mapper>(self, b: BusView<M::V>) -> (Cpu, BusView<M::V>) {
        let d = self.after_dec::<M>(b);
        (
            d.0.compared(
                d.0.reg.A,
                NesState::<M>::read_value(b, self.operand_address).wrapping_sub(1),
            ),
            d.1,
        )
    }

    pub fn do_comparison(&mut self, register: u8, mem_value: u8)
        ensures
            *final(self) == old(self).compared(register, mem_value),
    {
        self.put_flag(PS_C_BIT, register >= mem_value);
        self.put_flag(PS_Z_BIT, register == mem_value);
        let result: u8 = register.wrapping_sub(mem_value);
        set_bit_from(PS_N_BIT, result, &mut self.reg.P);
    }

    pub fn cmp<M: Mapper>(&mut self, state: &mut NesState<M>)
        requires
            old(state).inv(),
            old(self).can_spend(0),
        ensures
            final(state).inv(),
            same_dots(old(state)@, final(state)@),
            (*final(self), final(state)@) == old(self).after_cmp::<M>(old(state)@),
            old(self).spent(*final(self), old(self).page_penalty + 0),
    {
        self.fetch_operand(state);
        self.do_comparison(self.reg.A, self.operand_value);
        self.apply_page_penalty();
    }

    pub fn cpx<M: Mapper>(&mut self, state: &mut NesState<M>)
        requires
            old(state).inv(),
        ensures
            final(state).inv(),
            same_dots(old(state)@, final(state)@),
            (*final(self), final(state)@) == old(self).after_cpx::<M>(old(state)@),
            old(self).spent(*final(self), 0),
    {
        self.fetch_operand(state);
        self.do_comparison(self.reg.X, self.operand_value);
    }

    pub fn cpy<M: Mapper>(&mut self, state: &mut NesState<M>)
        requires
            old(state).inv(),
        ensures
            final(state).inv(),
            same_dots(old(state)@, final(state)@),
            (*final(self), final(state)@) == old(self).after_cpy::<M>(old(state)@),
            old(self).spent(*final(self), 0),
    {
        self.fetch_operand(state);
        self.do_comparison(self.reg.Y, self.operand_value);
    }

    pub fn dcp<M: Mapper>(&mut self, state: &mut NesState<M>)
        requires
            old(state).inv(),
            old(self).can_spend(513),
        ensures
            final(state).inv(),
            same_dots(old(state)@, final(state)@),
            (*final(self), final(state)@) == old(self).after_dcp::<M>(old(state)@),
            old(self).spent(*final(self), 513),
    {
        let mut value: u8 = self.do_mem_read(state, self.operand_address);
        value = value.wrapping_sub(1);
        self.update_processor_status_nz_flags(value);
        self.do_mem_write(state, self.operand_address, value);
        self.do_comparison(self.reg.A, value);
    }
}

} // verus!
