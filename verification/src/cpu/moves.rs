//! Loads, stores, transfers between registers, the stack instructions and
//! the instructions that set or clear one flag.

use vstd::prelude::*;
use crate::cpu::constants::{PS_C_BIT, PS_D_BIT, PS_I_BIT, PS_V_BIT};
use crate::cpu::{Cpu, Registers};
use crate::mappers::Mapper;
use crate::state::{same_dots, BusView, NesState};
use crate::utils::{set_bit, with_bit};

verus! {

/// The status as it goes onto the stack with PHP and BRK: with bits 4 and
/// 5 set.
pub open spec fn pushed_status(p: u8) -> u8 {
    with_bit(with_bit(p, 4, true), 5, true)
}

impl Cpu {
    /// LDA
    pub open spec fn after_lda<M: Mapper>(self, b: BusView<M::V>) -> (Cpu, BusView<M::V>) {
        let f = self.after_fetch_operand::<M>(b);
        (f.0.loaded_a(f.0.operand_value).with_page_penalty(), f.1)
    }

    /// LDX
    pub open spec fn after_ldx<M: Mapper>(self, b: BusView<M::V>) -> (Cpu, BusView<M::V>) {
        let f = self.after_fetch_operand::<M>(b);
        (f.0.loaded_x(f.0.operand_value).with_page_penalty(), f.1)
    }

    /// LDY
    pub open spec fn after_ldy<M: Mapper>(self, b: BusView<M::V>) -> (Cpu, BusView<M::V>) {
        let f = self.after_fetch_operand::<M>(b);
        (f.0.loaded_y(f.0.operand_value).with_page_penalty(), f.1)
    }

    /// LAX: the operand goes to A and to X.
    pub open spec fn after_lax<M: Mapper>(self, b: BusView<M::V>) -> (Cpu, BusView<M::V>) {
        let f = self.after_fetch_operand::<M>(b);
        let v = f.0.operand_value;
        (
            Cpu { reg: Registers { A: v, X: v, ..f.0.reg }, ..f.0 }.with_nz(v).with_page_penalty(),
            f.1,
        )
    }

    /// STA
    pub open spec fn after_sta<M: Mapper>(self, b: BusView<M::V>) -> (Cpu, BusView<M::V>) {
        self.after_mem_write::<M>(b, self.operand_address, self.reg.A)
    }

    /// STX
    pub open spec fn after_stx<M: Mapper>(self, b: BusView<M::V>) -> (Cpu, BusView<M::V>) {
        self.after_mem_write::<M>(b, self.operand_address, self.reg.X)
    }

    /// STY
    pub open spec fn after_sty<M: Mapper>(self, b: BusView<M::V>) -> (Cpu, BusView<M::V>) {
        self.after_mem_write::<M>(b, self.operand_address, self.reg.Y)
    }

    /// SAX: A and X go to memory.
    pub open spec fn after_sax<M: Mapper>(self, b: BusView<M::V>) -> (Cpu, BusView<M::V>) {
        self.after_mem_write::<M>(b, self.operand_address, self.reg.A & self.reg.X)
    }

    /// TAX
    pub open spec fn after_tax(self) -> Cpu {
        self.loaded_x(self.reg.A)
    }

    /// TAY
    pub open spec fn after_tay(self) -> Cpu {
        self.loaded_y(self.reg.A)
    }

    /// TSX
    pub open spec fn after_tsx(self) -> Cpu {
        self.loaded_x(self.reg.SP)
    }

    /// TXA
    pub open spec fn after_txa(self) -> Cpu {
        self.loaded_a(self.reg.X)
    }

    /// TXS: X goes to the stack pointer; no flag moves.
    pub open spec fn after_txs(self) -> Cpu {
        Cpu { reg: Registers { SP: self.reg.X, ..self.reg }, ..self }
    }

    /// TYA
    pub open spec fn after_tya(self) -> Cpu {
        self.loaded_a(self.reg.Y)
    }

    /// PHA
    pub open spec fn after_pha<M: Mapper>(self, b: BusView<M::V>) -> (Cpu, BusView<M::V>) {
        self.after_push::<M>(b, self.reg.A)
    }

    /// PHP: the status goes onto the stack with bits 4 and 5 set.
    pub open spec fn after_php<M: Mapper>(self, b: BusView<M::V>) -> (Cpu, BusView<M::V>) {
        self.after_push::<M>(b, pushed_status(self.reg.P))
    }

    /// PLA
    pub open spec fn after_pla<M: Mapper>(self, b: BusView<M::V>) -> (Cpu, BusView<M::V>) {
        let pulled = self.after_pull::<M>(b);
        (pulled.1.loaded_a(pulled.0), pulled.2)
    }

    /// PLP: the status comes off the stack, but for its bits 4 and 5.
    pub open spec fn after_plp<M: Mapper>(self, b: BusView<M::V>) -> (Cpu, BusView<M::V>) {
        self.after_pull_status::<M>(b)
    }

    /// NOP: nothing but the page penalty of the undocumented variants
    /// that have an operand.
    pub open spec fn after_nop(self) -> Cpu {
        self.with_page_penalty()
    }

    pub fn lda<M: Mapper>(&mut self, state: &mut NesState<M>)
        requires
            old(state).inv(),
            old(self).can_spend(0),
        ensures
            final(state).inv(),
            same_dots(old(state)@, final(state)@),
            (*final(self), final(state)@) == old(self).after_lda::<M>(old(state)@),
            old(self).spent(*final(self), old(self).page_penalty as int),
    {
        self.fetch_operand(state);
        self.load_a(self.operand_value);
        self.apply_page_penalty();
    }

    pub fn ldx<M: Mapper>(&mut self, state: &mut NesState<M>)
        requires
            old(state).inv(),
            old(self).can_spend(0),
        ensures
            final(state).inv(),
            same_dots(old(state)@, final(state)@),
            (*final(self), final(state)@) == old(self).after_ldx::<M>(old(state)@),
            old(self).spent(*final(self), old(self).page_penalty as int),
    {
        self.fetch_operand(state);
        self.load_x(self.operand_value);
        self.apply_page_penalty();
    }

    pub fn ldy<M: Mapper>(&mut self, state: &mut NesState<M>)
        requires
            old(state).inv(),
            old(self).can_spend(0),
        ensures
            final(state).inv(),
            same_dots(old(state)@, final(state)@),
            (*final(self), final(state)@) == old(self).after_ldy::<M>(old(state)@),
            old(self).spent(*final(self), old(self).page_penalty as int),
    {
        self.fetch_operand(state);
        self.load_y(self.operand_value);
        self.apply_page_penalty();
    }

    pub fn lax<M: Mapper>(&mut self, state: &mut NesState<M>)
        requires
            old(state).inv(),
            old(self).can_spend(0),
        ensures
            final(state).inv(),
            same_dots(old(state)@, final(state)@),
            (*final(self), final(state)@) == old(self).after_lax::<M>(old(state)@),
            old(self).spent(*final(self), old(self).page_penalty as int),
    {
        self.fetch_operand(state);
        self.reg.A = self.operand_value;
        self.reg.X = self.operand_value;
        self.update_processor_status_nz_flags(self.reg.A);
        self.apply_page_penalty();
    }

    pub fn sta<M: Mapper>(&mut self, state: &mut NesState<M>)
        requires
            old(state).inv(),
            old(self).can_spend(513),
        ensures
            final(state).inv(),
            same_dots(old(state)@, final(state)@),
            (*final(self), final(state)@) == old(self).after_sta::<M>(old(state)@),
            old(self).spent(*final(self), 513),
    {
        self.do_mem_write(state, self.operand_address, self.reg.A);
    }

    pub fn stx<M: Mapper>(&mut self, state: &mut NesState<M>)
        requires
            old(state).inv(),
            old(self).can_spend(513),
        ensures
            final(state).inv(),
            same_dots(old(state)@, final(state)@),
            (*final(self), final(state)@) == old(self).after_stx::<M>(old(state)@),
            old(self).spent(*final(self), 513),
    {
        self.do_mem_write(state, self.operand_address, self.reg.X);
    }

    pub fn sty<M: Mapper>(&mut self, state: &mut NesState<M>)
        requires
            old(state).inv(),
            old(self).can_spend(513),
        ensures
            final(state).inv(),
            same_dots(old(state)@, final(state)@),
            (*final(self), final(state)@) == old(self).after_sty::<M>(old(state)@),
            old(self).spent(*final(self), 513),
    {
        self.do_mem_write(state, self.operand_address, self.reg.Y);
    }

    pub fn sax<M: Mapper>(&mut self, state: &mut NesState<M>)
        requires
            old(state).inv(),
            old(self).can_spend(513),
        ensures
            final(state).inv(),
            same_dots(old(state)@, final(state)@),
            (*final(self), final(state)@) == old(self).after_sax::<M>(old(state)@),
            old(self).spent(*final(self), 513),
    {
        let result: u8 = self.reg.A & self.reg.X;
        self.do_mem_write(state, self.operand_address, result);
    }

    pub fn tax(&mut self)
        ensures
            *final(self) == old(self).after_tax(),
    {
        self.load_x(self.reg.A);
    }

    pub fn tay(&mut self)
        ensures
            *final(self) == old(self).after_tay(),
    {
        self.load_y(self.reg.A);
    }

    pub fn tsx(&mut self)
        ensures
            *final(self) == old(self).after_tsx(),
    {
        self.load_x(self.reg.SP);
    }

    pub fn txa(&mut self)
        ensures
            *final(self) == old(self).after_txa(),
    {
        self.load_a(self.reg.X);
    }

    pub fn txs(&mut self)
        ensures
            *final(self) == old(self).after_txs(),
    {
        self.reg.SP = self.reg.X;
    }

    pub fn tya(&mut self)
        ensures
            *final(self) == old(self).after_tya(),
    {
        self.load_a(self.reg.Y);
    }

    pub fn pha<M: Mapper>(&mut self, state: &mut NesState<M>)
        requires
            old(state).inv(),
            old(self).can_spend(513),
        ensures
            final(state).inv(),
            same_dots(old(state)@, final(state)@),
            (*final(self), final(state)@) == old(self).after_pha::<M>(old(state)@),
            old(self).spent(*final(self), 513),
    {
        self.stack_push(state, self.reg.A);
    }

    pub fn php<M: Mapper>(&mut self, state: &mut NesState<M>)
        requires
            old(state).inv(),
            old(self).can_spend(513),
        ensures
            final(state).inv(),
            same_dots(old(state)@, final(state)@),
            (*final(self), final(state)@) == old(self).after_php::<M>(old(state)@),
            old(self).spent(*final(self), 513),
    {
        let mut p_val: u8 = self.reg.P;
        set_bit(4, &mut p_val);
        set_bit(5, &mut p_val);
        self.stack_push(state, p_val);
    }

    pub fn pla<M: Mapper>(&mut self, state: &mut NesState<M>)
        requires
            old(state).inv(),
        ensures
            final(state).inv(),
            same_dots(old(state)@, final(state)@),
            (*final(self), final(state)@) == old(self).after_pla::<M>(old(state)@),
            old(self).spent(*final(self), 0),
    {
        let value: u8 = self.stack_pull(state);
        self.load_a(value);
    }

    pub fn plp<M: Mapper>(&mut self, state: &mut NesState<M>)
        requires
            old(state).inv(),
        ensures
            final(state).inv(),
            same_dots(old(state)@, final(state)@),
            (*final(self), final(state)@) == old(self).after_plp::<M>(old(state)@),
            old(self).spent(*final(self), 0),
    {
        self.set_p_from_stack(state);
    }

    pub fn clc(&mut self)
        ensures
            *final(self) == old(self).with_flag(PS_C_BIT, false),
    {
        self.put_flag(PS_C_BIT, false);
    }

    pub fn cld(&mut self)
        ensures
            *final(self) == old(self).with_flag(PS_D_BIT, false),
    {
        self.put_flag(PS_D_BIT, false);
    }

    pub fn cli(&mut self)
        ensures
            *final(self) == old(self).with_flag(PS_I_BIT, false),
    {
        self.put_flag(PS_I_BIT, false);
    }

    pub fn clv(&mut self)
        ensures
            *final(self) == old(self).with_flag(PS_V_BIT, false),
    {
        self.put_flag(PS_V_BIT, false);
    }

    pub fn sec(&mut self)
        ensures
            *final(self) == old(self).with_flag(PS_C_BIT, true),
    {
        self.put_flag(PS_C_BIT, true);
    }

    pub fn sed(&mut self)
        ensures
            *final(self) == old(self).with_flag(PS_D_BIT, true),
    {
        self.put_flag(PS_D_BIT, true);
    }

    pub fn sei(&mut self)
        ensures
            *final(self) == old(self).with_flag(PS_I_BIT, true),
    {
        self.put_flag(PS_I_BIT, true);
    }

    pub fn nop(&mut self)
        requires
            old(self).can_spend(0),
        ensures
            *final(self) == old(self).after_nop(),
    {
        // The undocumented variants with an operand pay for a page
        // crossing.
        self.apply_page_penalty();
    }
}

} // verus!
