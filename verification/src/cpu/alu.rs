//! Arithmetic and logic: AND, EOR, ORA, ADC, SBC, BIT, and the increments
//! and decrements of memory and of the index registers.

use vstd::prelude::*;
use crate::cpu::constants::{PS_C_BIT, PS_V_BIT, PS_Z_BIT};
use crate::cpu::{Cpu, Registers};
use crate::mappers::Mapper;
use crate::state::{same_dots, BusView, NesState};
use crate::utils::{bit_is_set, bit_set, set_bit_from};

verus! {

/// The sum that an addition with carry forms: at most 9 bits.
pub open spec fn adc_sum(a: u8, m: u8, carry: bool) -> int {
    a + m + if carry { 1int } else { 0int }
}

/// Whether an addition of `a` and `m` that gave `result` overflowed as an
/// addition of signed bytes.
pub open spec fn adc_overflow(a: u8, m: u8, result: u8) -> bool {
    ((a ^ result) & (m ^ result) & 0x80) != 0
}

impl Cpu {
    /// The processor with `value` in A and the flags N and Z after it.
    pub open spec fn loaded_a(self, value: u8) -> Cpu {
        Cpu { reg: Registers { A: value, ..self.reg }, ..self }.with_nz(value)
    }

    /// The processor with `value` in X and the flags N and Z after it.
    pub open spec fn loaded_x(self, value: u8) -> Cpu {
        Cpu { reg: Registers { X: value, ..self.reg }, ..self }.with_nz(value)
    }

    /// The processor with `value` in Y and the flags N and Z after it.
    pub open spec fn loaded_y(self, value: u8) -> Cpu {
        Cpu { reg: Registers { Y: value, ..self.reg }, ..self }.with_nz(value)
    }

    /// The processor after `m` and the carry were added to A: A holds the
    /// low 8 bits of the sum and C its ninth bit; V tells whether the sum
    /// of the signed bytes left their range.
    pub open spec fn with_added(self, m: u8) -> Cpu {
        let sum = adc_sum(self.reg.A, m, self.flag(PS_C_BIT));
        let result = (sum % 256) as u8;
        self.with_flag(PS_C_BIT, sum > 255).with_flag(
            PS_V_BIT,
            adc_overflow(self.reg.A, m, result),
        ).loaded_a(result)
    }

    /// AND: A and the operand, bit by bit.
    pub open spec fn after_and<M: Mapper>(self, b: BusView<M::V>) -> (Cpu, BusView<M::V>) {
        let f = self.after_fetch_operand::<M>(b);
        (f.0.loaded_a(f.0.reg.A & f.0.operand_value).with_page_penalty(), f.1)
    }

    /// EOR: A exclusive-or the operand.
    pub open spec fn after_eor<M: Mapper>(self, b: BusView<M::V>) -> (Cpu, BusView<M::V>) {
        let f = self.after_fetch_operand::<M>(b);
        (f.0.loaded_a(f.0.reg.A ^ f.0.operand_value).with_page_penalty(), f.1)
    }

    /// ORA: A or the operand.
    pub open spec fn after_ora<M: Mapper>(self, b: BusView<M::V>) -> (Cpu, BusView<M::V>) {
        let f = self.after_fetch_operand::<M>(b);
        (f.0.loaded_a(f.0.reg.A | f.0.operand_value).with_page_penalty(), f.1)
    }

    /// ADC: A plus the operand plus the carry.
    pub open spec fn after_adc<M: Mapper>(self, b: BusView<M::V>) -> (Cpu, BusView<M::V>) {
        let f = self.after_fetch_operand::<M>(b);
        (f.0.with_added(f.0.operand_value).with_page_penalty(), f.1)
    }

    /// SBC: the addition of ADC with every bit of the operand inverted.
    pub open spec fn after_sbc<M: Mapper>(self, b: BusView<M::V>) -> (Cpu, BusView<M::V>) {
        let f = self.after_fetch_operand::<M>(b);
        (f.0.with_added(!f.0.operand_value).with_page_penalty(), f.1)
    }

    /// BIT: Z tells whether A and the operand share no bit; V and N are
    /// bits 6 and 7 of the operand.
    pub open spec fn after_bit<M: Mapper>(self, b: BusView<M::V>) -> (Cpu, BusView<M::V>) {
        let f = self.after_fetch_operand::<M>(b);
        let m = f.0.operand_value;
        (
            f.0.with_flag(PS_Z_BIT, f.0.reg.A & m == 0).with_flag(6, bit_set(6, m)).with_flag(
                7,
                bit_set(7, m),
            ),
            f.1,
        )
    }

    /// The processor and the bus after the byte at the operand address
    /// went up by `step` modulo 256.
    pub open spec fn after_memory_step<M: Mapper>(self, b: BusView<M::V>, step: int) -> (
        Cpu,
        BusView<M::V>,
    ) {
        let value = NesState::<M>::read_value(b, self.operand_address);
        let b1 = NesState::<M>::after_read(b, self.operand_address);
        let result = ((value + step) % 256) as u8;
        self.with_nz(result).after_mem_write::<M>(b1, self.operand_address, result)
    }

    /// INC: the byte at the operand address goes up by one.
    pub open spec fn after_inc<M: Mapper>(self, b: BusView<M::V>) -> (Cpu, BusView<M::V>) {
        self.after_memory_step::<M>(b, 1)
    }

    /// DEC: the byte at the operand address goes down by one.
    pub open spec fn after_dec<M: Mapper>(self, b: BusView<M::V>) -> (Cpu, BusView<M::V>) {
        self.after_memory_step::<M>(b, 255)
    }

    /// The processor after it took back the page penalty that the second
    /// half of a combined instruction paid.
    pub open spec fn with_penalty_refunded(self) -> Cpu {
        Cpu { extra_cycles: (self.extra_cycles - self.page_penalty) as u64, ..self }
    }

    /// ISB: INC, then SBC of the byte that INC left; no page penalty.
    pub open spec fn after_isb<M: Mapper>(self, b: BusView<M::V>) -> (Cpu, BusView<M::V>) {
        let i = self.after_inc::<M>(b);
        let s = i.0.after_sbc::<M>(i.1);
        (s.0.with_penalty_refunded(), s.1)
    }

    /// INX
    pub open spec fn after_inx(self) -> Cpu {
        self.loaded_x(((self.reg.X + 1) % 256) as u8)
    }

    /// INY
    pub open spec fn after_iny(self) -> Cpu {
        self.loaded_y(((self.reg.Y + 1) % 256) as u8)
    }

    /// DEX
    pub open spec fn after_dex(self) -> Cpu {
        self.loaded_x(((self.reg.X + 255) % 256) as u8)
    }

    /// DEY
    pub open spec fn after_dey(self) -> Cpu {
        self.loaded_y(((self.reg.Y + 255) % 256) as u8)
    }

    /// Puts `value` into A and sets N and Z.
    pub fn load_a(&mut self, value: u8)
        ensures
            *final(self) == old(self).loaded_a(value),
    {
        self.reg.A = value;
        self.update_processor_status_nz_flags(self.reg.A);
    }

    /// Puts `value` into X and sets N and Z.
    pub fn load_x(&mut self, value: u8)
        ensures
            *final(self) == old(self).loaded_x(value),
    {
        self.reg.X = value;
        self.update_processor_status_nz_flags(self.reg.X);
    }

    /// Puts `value` into Y and sets N and Z.
    pub fn load_y(&mut self, value: u8)
        ensures
            *final(self) == old(self).loaded_y(value),
    {
        self.reg.Y = value;
        self.update_processor_status_nz_flags(self.reg.Y);
    }

    /// Adds `m` and the carry to A.
    pub fn add_with_carry(&mut self, m: u8)
        ensures
            *final(self) == old(self).with_added(m),
    {
        let carry: u16 = if bit_is_set(PS_C_BIT, self.reg.P) {
            1
        } else {
            0
        };
        let sum: u16 = self.reg.A as u16 + m as u16 + carry;
        let result: u8 = (sum % 256) as u8;
        if sum > 255 {
            self.set_processor_status_c_flag();
        } else {
            self.clear_processor_status_c_flag();
        }
        if ((self.reg.A ^ result) & (m ^ result) & 0x80) != 0 {
            self.set_processor_status_v_flag();
        } else {
            self.clear_processor_status_v_flag();
        }
        self.load_a(result);
    }

    pub fn and<M: Mapper>(&mut self, state: &mut NesState<M>)
        requires
            old(state).inv(),
            old(self).can_spend(0),
        ensures
            final(state).inv(),
            same_dots(old(state)@, final(state)@),
            (*final(self), final(state)@) == old(self).after_and::<M>(old(state)@),
            old(self).spent(*final(self), old(self).page_penalty as int),
    {
        self.fetch_operand(state);
        self.load_a(self.reg.A & self.operand_value);
        self.apply_page_penalty();
    }

    pub fn eor<M: Mapper>(&mut self, state: &mut NesState<M>)
        requires
            old(state).inv(),
            old(self).can_spend(0),
        ensures
            final(state).inv(),
            same_dots(old(state)@, final(state)@),
            (*final(self), final(state)@) == old(self).after_eor::<M>(old(state)@),
            old(self).spent(*final(self), old(self).page_penalty as int),
    {
        self.fetch_operand(state);
        self.load_a(self.reg.A ^ self.operand_value);
        self.apply_page_penalty();
    }

    pub fn ora<M: Mapper>(&mut self, state: &mut NesState<M>)
        requires
            old(state).inv(),
            old(self).can_spend(0),
        ensures
            final(state).inv(),
            same_dots(old(state)@, final(state)@),
            (*final(self), final(state)@) == old(self).after_ora::<M>(old(state)@),
            old(self).spent(*final(self), old(self).page_penalty as int),
    {
        self.fetch_operand(state);
        self.load_a(self.reg.A | self.operand_value);
        self.apply_page_penalty();
    }

    pub fn adc<M: Mapper>(&mut self, state: &mut NesState<M>)
        requires
            old(state).inv(),
            old(self).can_spend(0),
        ensures
            final(state).inv(),
            same_dots(old(state)@, final(state)@),
            (*final(self), final(state)@) == old(self).after_adc::<M>(old(state)@),
            old(self).spent(*final(self), old(self).page_penalty as int),
    {
        self.fetch_operand(state);
        self.add_with_carry(self.operand_value);
        self.apply_page_penalty();
    }

    pub fn sbc<M: Mapper>(&mut self, state: &mut NesState<M>)
        requires
            old(state).inv(),
            old(self).can_spend(0),
        ensures
            final(state).inv(),
            same_dots(old(state)@, final(state)@),
            (*final(self), final(state)@) == old(self).after_sbc::<M>(old(state)@),
            old(self).spent(*final(self), old(self).page_penalty as int),
            final(self).extra_cycles == old(self).extra_cycles + old(self).page_penalty,
    {
        self.fetch_operand(state);
        self.add_with_carry(!self.operand_value);
        self.apply_page_penalty();
    }

    pub fn bit<M: Mapper>(&mut self, state: &mut NesState<M>)
        requires
            old(state).inv(),
        ensures
            final(state).inv(),
            same_dots(old(state)@, final(state)@),
            (*final(self), final(state)@) == old(self).after_bit::<M>(old(state)@),
            old(self).spent(*final(self), 0),
    {
        self.fetch_operand(state);
        let and_result: u8 = self.reg.A & self.operand_value;
        self.update_processor_status_z_flag(and_result);
        set_bit_from(6, self.operand_value, &mut self.reg.P);
        set_bit_from(7, self.operand_value, &mut self.reg.P);
    }

    pub fn inc<M: Mapper>(&mut self, state: &mut NesState<M>)
        requires
            old(state).inv(),
            old(self).can_spend(513),
        ensures
            final(state).inv(),
            same_dots(old(state)@, final(state)@),
            (*final(self), final(state)@) == old(self).after_inc::<M>(old(state)@),
            old(self).spent(*final(self), 513),
    {
        let mut value: u8 = self.do_mem_read(state, self.operand_address);
        value = value.wrapping_add(1);
        self.update_processor_status_nz_flags(value);
        self.do_mem_write(state, self.operand_address, value);
    }

    pub fn dec<M: Mapper>(&mut self, state: &mut NesState<M>)
        requires
            old(state).inv(),
            old(self).can_spend(513),
        ensures
            final(state).inv(),
            same_dots(old(state)@, final(state)@),
            (*final(self), final(state)@) == old(self).after_dec::<M>(old(state)@),
            old(self).spent(*final(self), 513),
    {
        let mut value: u8 = self.do_mem_read(state, self.operand_address);
        value = value.wrapping_sub(1);
        self.update_processor_status_nz_flags(value);
        self.do_mem_write(state, self.operand_address, value);
    }

    #[verifier::rlimit(40)]
    pub fn isb<M: Mapper>(&mut self, state: &mut NesState<M>)
        requires
            old(state).inv(),
            old(self).can_spend(513),
        ensures
            final(state).inv(),
            same_dots(old(state)@, final(state)@),
            (*final(self), final(state)@) == old(self).after_isb::<M>(old(state)@),
            old(self).spent(*final(self), 513),
    {
        self.inc(state);
        self.sbc(state);
        // This instruction pays no page penalty, but SBC has added it.
        self.extra_cycles = self.extra_cycles - self.page_penalty;
    }

    pub fn inx(&mut self)
        ensures
            *final(self) == old(self).after_inx(),
    {
        self.load_x(self.reg.X.wrapping_add(1));
    }

    pub fn iny(&mut self)
        ensures
            *final(self) == old(self).after_iny(),
    {
        self.load_y(self.reg.Y.wrapping_add(1));
    }

    pub fn dex(&mut self)
        ensures
            *final(self) == old(self).after_dex(),
    {
        self.load_x(self.reg.X.wrapping_sub(1));
    }

    pub fn dey(&mut self)
        ensures
            *final(self) == old(self).after_dey(),
    {
        self.load_y(self.reg.Y.wrapping_sub(1));
    }
}

} // verus!
