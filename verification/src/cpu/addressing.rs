//! The addressing modes: how an instruction finds its operand.

use vstd::prelude::*;
use crate::cpu::table::{addr_mode_of, lookup_addr_mode, AddrMode};
use crate::cpu::{address_after, Cpu};
use crate::mappers::Mapper;
use crate::state::{same_dots, BusView, NesState};
use crate::utils::{make_word, page_of, same_page, word};

verus! {

/// The address that the high byte of an indirect jump comes from: the one
/// after `pointer` within the page of `pointer`, so that 0xFF is followed
/// by 0x00 of the same page.
pub open spec fn pointer_successor(pointer: u16) -> u16 {
    ((pointer / 256) * 256 + (pointer + 1) % 256) as u16
}

/// Whether an instruction of this mode has its operand in memory.
pub open spec fn reads_operand(mode: AddrMode) -> bool {
    match mode {
        AddrMode::ABS => true,
        AddrMode::ZP => true,
        AddrMode::ABX => true,
        AddrMode::ABY => true,
        AddrMode::ZPX => true,
        AddrMode::ZPY => true,
        AddrMode::IZX => true,
        AddrMode::IZY => true,
        _ => false,
    }
}

/// The word in page 0 whose low byte is at `zp`; its high byte is at
/// `zp + 1`, which after 0xFF is 0x00.
pub open spec fn zero_page_word<M: Mapper>(b: BusView<M::V>, zp: u8) -> u16 {
    word(
        M::cpu_read_spec(b.mapper, zp as u16),
        M::cpu_read_spec(b.mapper, ((zp + 1) % 256) as u16),
    )
}

impl Cpu {
    pub open spec fn with_operand_value(self, value: u8) -> Cpu {
        Cpu { operand_value: value, ..self }
    }

    pub open spec fn with_operand_address(self, addr: u16) -> Cpu {
        Cpu { operand_address: addr, ..self }
    }

    /// The processor with `base + index` as operand address, within 16
    /// bits, and with the page penalty that is due where the sum lies on
    /// another page than `base`.
    pub open spec fn with_indexed_address(self, base: u16, index: u8) -> Cpu {
        let addr = address_after(base, index as int);
        Cpu {
            operand_address: addr,
            page_penalty: if page_of(base) == page_of(addr) { 0 } else { 1 },
            ..self
        }
    }

    /// Accumulator: the operand is A.
    pub open spec fn after_addr_mode_acc(self) -> Cpu {
        self.with_operand_value(self.reg.A)
    }

    /// Immediate: the operand is the next byte.
    pub open spec fn after_addr_mode_imm<M: Mapper>(self, b: BusView<M::V>) -> (Cpu, BusView<M::V>) {
        let next = self.after_read_byte::<M>(b);
        (next.1.with_operand_value(next.0), next.2)
    }

    /// Absolute: the operand address is the next word.
    pub open spec fn after_addr_mode_abs<M: Mapper>(self, b: BusView<M::V>) -> (Cpu, BusView<M::V>) {
        let next = self.after_read_word::<M>(b);
        (next.1.with_operand_address(next.0), next.2)
    }

    /// Absolute, X: the operand address is the next word plus X.
    pub open spec fn after_addr_mode_abx<M: Mapper>(self, b: BusView<M::V>) -> (Cpu, BusView<M::V>) {
        let next = self.after_read_word::<M>(b);
        (next.1.with_indexed_address(next.0, self.reg.X), next.2)
    }

    /// Absolute, Y: the operand address is the next word plus Y.
    pub open spec fn after_addr_mode_aby<M: Mapper>(self, b: BusView<M::V>) -> (Cpu, BusView<M::V>) {
        let next = self.after_read_word::<M>(b);
        (next.1.with_indexed_address(next.0, self.reg.Y), next.2)
    }

    /// Indirect: the operand address is the word that the next word
    /// points at; the high byte of that word never comes from the next
    /// page.
    pub open spec fn after_addr_mode_ind<M: Mapper>(self, b: BusView<M::V>) -> (Cpu, BusView<M::V>) {
        let next = self.after_read_word::<M>(b);
        let low = NesState::<M>::read_value(next.2, next.0);
        let b1 = NesState::<M>::after_read(next.2, next.0);
        let high = NesState::<M>::read_value(b1, pointer_successor(next.0));
        let b2 = NesState::<M>::after_read(b1, pointer_successor(next.0));
        (next.1.with_operand_address(word(low, high)), b2)
    }

    /// Indexed indirect: the operand address is the word in page 0 at
    /// the next byte plus X, taken modulo 256.
    pub open spec fn after_addr_mode_izx<M: Mapper>(self, b: BusView<M::V>) -> (Cpu, BusView<M::V>) {
        let next = self.after_read_byte::<M>(b);
        let zp = ((next.0 + self.reg.X) % 256) as u8;
        (next.1.with_operand_address(zero_page_word::<M>(next.2, zp)), next.2)
    }

    /// Indirect indexed: the operand address is the word in page 0 at
    /// the next byte, plus Y.
    pub open spec fn after_addr_mode_izy<M: Mapper>(self, b: BusView<M::V>) -> (Cpu, BusView<M::V>) {
        let next = self.after_read_byte::<M>(b);
        (next.1.with_indexed_address(zero_page_word::<M>(next.2, next.0), self.reg.Y), next.2)
    }

    /// Zero page: the operand address is the next byte.
    pub open spec fn after_addr_mode_zp<M: Mapper>(self, b: BusView<M::V>) -> (Cpu, BusView<M::V>) {
        let next = self.after_read_byte::<M>(b);
        (next.1.with_operand_address(next.0 as u16), next.2)
    }

    /// Zero page, X: the operand address is the next byte plus X, taken
    /// modulo 256.
    pub open spec fn after_addr_mode_zpx<M: Mapper>(self, b: BusView<M::V>) -> (Cpu, BusView<M::V>) {
        let next = self.after_read_byte::<M>(b);
        (next.1.with_operand_address(((next.0 + self.reg.X) % 256) as u16), next.2)
    }

    /// Zero page, Y: the operand address is the next byte plus Y, taken
    /// modulo 256.
    pub open spec fn after_addr_mode_zpy<M: Mapper>(self, b: BusView<M::V>) -> (Cpu, BusView<M::V>) {
        let next = self.after_read_byte::<M>(b);
        (next.1.with_operand_address(((next.0 + self.reg.Y) % 256) as u16), next.2)
    }

    /// Relative: the operand is the next byte, a signed offset.
    pub open spec fn after_addr_mode_rel<M: Mapper>(self, b: BusView<M::V>) -> (Cpu, BusView<M::V>) {
        let next = self.after_read_byte::<M>(b);
        (next.1.with_operand_value(next.0), next.2)
    }

    /// The processor and the bus after the addressing mode was worked
    /// out.
    #[verifier::opaque]
    pub open spec fn after_addressing<M: Mapper>(self, b: BusView<M::V>, mode: AddrMode) -> (
        Cpu,
        BusView<M::V>,
    ) {
        match mode {
            AddrMode::IMM => self.after_addr_mode_imm::<M>(b),
            AddrMode::ABS => self.after_addr_mode_abs::<M>(b),
            AddrMode::ZP => self.after_addr_mode_zp::<M>(b),
            AddrMode::IND => self.after_addr_mode_ind::<M>(b),
            AddrMode::ABX => self.after_addr_mode_abx::<M>(b),
            AddrMode::ABY => self.after_addr_mode_aby::<M>(b),
            AddrMode::ZPX => self.after_addr_mode_zpx::<M>(b),
            AddrMode::ZPY => self.after_addr_mode_zpy::<M>(b),
            AddrMode::IZX => self.after_addr_mode_izx::<M>(b),
            AddrMode::IZY => self.after_addr_mode_izy::<M>(b),
            AddrMode::REL => self.after_addr_mode_rel::<M>(b),
            AddrMode::ACC => (self.after_addr_mode_acc(), b),
            AddrMode::IMP => (self, b),
            AddrMode::UNK => (self, b),
        }
    }

    /// The processor and the bus after the operand was fetched: where
    /// the addressing mode of the opcode has the operand in memory, it is
    /// read from the operand address.
    pub open spec fn after_fetch_operand<M: Mapper>(self, b: BusView<M::V>) -> (Cpu, BusView<M::V>) {
        if reads_operand(addr_mode_of(self.opcode)) {
            (
                self.with_operand_value(NesState::<M>::read_value(b, self.operand_address)),
                NesState::<M>::after_read(b, self.operand_address),
            )
        } else {
            (self, b)
        }
    }

    pub fn addr_mode_acc(&mut self)
        ensures
            *final(self) == old(self).after_addr_mode_acc(),
    {
        self.operand_value = self.reg.A;
    }

    pub fn addr_mode_imm<M: Mapper>(&mut self, state: &mut NesState<M>)
        requires
            old(state).inv(),
        ensures
            final(state).inv(),
            same_dots(old(state)@, final(state)@),
            (*final(self), final(state)@) == old(self).after_addr_mode_imm::<M>(old(state)@),
    {
        self.operand_value = self.read_byte(state);
    }

    pub fn addr_mode_abs<M: Mapper>(&mut self, state: &mut NesState<M>)
        requires
            old(state).inv(),
        ensures
            final(state).inv(),
            same_dots(old(state)@, final(state)@),
            (*final(self), final(state)@) == old(self).after_addr_mode_abs::<M>(old(state)@),
    {
        self.operand_address = self.read_word(state);
    }

    /// Sets the operand address to `base + index` and notes whether a
    /// page was crossed.
    pub fn index_address(&mut self, base: u16, index: u8)
        ensures
            *final(self) == old(self).with_indexed_address(base, index),
            final(self).page_penalty <= 1,
    {
        self.operand_address = base.wrapping_add(index as u16);
        let add_cycles: u64 = if same_page(base, self.operand_address) {
            0
        } else {
            1
        };
        self.page_penalty = add_cycles;
    }

    pub fn addr_mode_abx<M: Mapper>(&mut self, state: &mut NesState<M>)
        requires
            old(state).inv(),
        ensures
            final(state).inv(),
            same_dots(old(state)@, final(state)@),
            (*final(self), final(state)@) == old(self).after_addr_mode_abx::<M>(old(state)@),
            final(self).page_penalty <= 1,
    {
        let x: u8 = self.reg.X;
        let base_address: u16 = self.read_word(state);
        self.index_address(base_address, x);
    }

    pub fn addr_mode_aby<M: Mapper>(&mut self, state: &mut NesState<M>)
        requires
            old(state).inv(),
        ensures
            final(state).inv(),
            same_dots(old(state)@, final(state)@),
            (*final(self), final(state)@) == old(self).after_addr_mode_aby::<M>(old(state)@),
            final(self).page_penalty <= 1,
    {
        let y: u8 = self.reg.Y;
        let base_address: u16 = self.read_word(state);
        self.index_address(base_address, y);
    }

    pub fn addr_mode_ind<M: Mapper>(&mut self, state: &mut NesState<M>)
        requires
            old(state).inv(),
        ensures
            final(state).inv(),
            same_dots(old(state)@, final(state)@),
            (*final(self), final(state)@) == old(self).after_addr_mode_ind::<M>(old(state)@),
    {
        // The 6502 does not carry into the high byte of the pointer: for
        // a pointer at xxFF it takes the low byte of the target from xxFF
        // and the high byte from xx00.
        let lsb_addr: u16 = self.read_word(state);
        let msb_addr: u16 = if lsb_addr % 256 == 255 {
            lsb_addr - 255
        } else {
            lsb_addr + 1
        };
        let target_lsb: u8 = self.do_mem_read(state, lsb_addr);
        let target_msb: u8 = self.do_mem_read(state, msb_addr);
        self.operand_address = make_word(target_lsb, target_msb);
    }

    /// Reads the word in page 0 whose low byte is at `zp`.
    pub fn read_zero_page_word<M: Mapper>(&self, state: &mut NesState<M>, zp: u8) -> (r: u16)
        requires
            old(state).inv(),
        ensures
            final(state).inv(),
            same_dots(old(state)@, final(state)@),
            final(state)@ == old(state)@,
            r == zero_page_word::<M>(old(state)@, zp),
    {
        if zp == 0xFF {
            // The word wraps around the end of page 0: its bytes are at
            // 0x00FF and 0x0000.
            let lsb: u8 = self.do_mem_read(state, 0x00FF);
            let msb: u8 = self.do_mem_read(state, 0x0000);
            make_word(lsb, msb)
        } else {
            self.do_mem_read_word(state, zp as u16)
        }
    }

    pub fn addr_mode_izx<M: Mapper>(&mut self, state: &mut NesState<M>)
        requires
            old(state).inv(),
        ensures
            final(state).inv(),
            same_dots(old(state)@, final(state)@),
            (*final(self), final(state)@) == old(self).after_addr_mode_izx::<M>(old(state)@),
    {
        let x: u8 = self.reg.X;
        let zp_addr: u8 = self.read_byte(state).wrapping_add(x);
        self.operand_address = self.read_zero_page_word(state, zp_addr);
    }

    pub fn addr_mode_izy<M: Mapper>(&mut self, state: &mut NesState<M>)
        requires
            old(state).inv(),
        ensures
            final(state).inv(),
            same_dots(old(state)@, final(state)@),
            (*final(self), final(state)@) == old(self).after_addr_mode_izy::<M>(old(state)@),
            final(self).page_penalty <= 1,
    {
        let y: u8 = self.reg.Y;
        let zp_addr: u8 = self.read_byte(state);
        let base_addr: u16 = self.read_zero_page_word(state, zp_addr);
        self.index_address(base_addr, y);
    }

    pub fn addr_mode_zp<M: Mapper>(&mut self, state: &mut NesState<M>)
        requires
            old(state).inv(),
        ensures
            final(state).inv(),
            same_dots(old(state)@, final(state)@),
            (*final(self), final(state)@) == old(self).after_addr_mode_zp::<M>(old(state)@),
    {
        self.operand_address = self.read_byte(state) as u16;
    }

    pub fn addr_mode_zpx<M: Mapper>(&mut self, state: &mut NesState<M>)
        requires
            old(state).inv(),
        ensures
            final(state).inv(),
            same_dots(old(state)@, final(state)@),
            (*final(self), final(state)@) == old(self).after_addr_mode_zpx::<M>(old(state)@),
    {
        let x: u8 = self.reg.X;
        let zp_addr: u8 = self.read_byte(state).wrapping_add(x);
        self.operand_address = zp_addr as u16;
    }

    pub fn addr_mode_zpy<M: Mapper>(&mut self, state: &mut NesState<M>)
        requires
            old(state).inv(),
        ensures
            final(state).inv(),
            same_dots(old(state)@, final(state)@),
            (*final(self), final(state)@) == old(self).after_addr_mode_zpy::<M>(old(state)@),
    {
        let y: u8 = self.reg.Y;
        let zp_addr: u8 = self.read_byte(state).wrapping_add(y);
        self.operand_address = zp_addr as u16;
    }

    pub fn addr_mode_rel<M: Mapper>(&mut self, state: &mut NesState<M>)
        requires
            old(state).inv(),
        ensures
            final(state).inv(),
            same_dots(old(state)@, final(state)@),
            (*final(self), final(state)@) == old(self).after_addr_mode_rel::<M>(old(state)@),
    {
        self.operand_value = self.read_byte(state);
    }

    /// Works out the addressing mode: reads the bytes that follow the
    /// opcode and sets the operand address or the operand.
    pub fn set_operand_address<M: Mapper>(&mut self, state: &mut NesState<M>, addr_mode: &AddrMode)
        requires
            old(state).inv(),
            old(self).page_penalty <= 1,
        ensures
            final(state).inv(),
            same_dots(old(state)@, final(state)@),
            (*final(self), final(state)@) == old(self).after_addressing::<M>(
                old(state)@,
                *addr_mode,
            ),
            final(self).page_penalty <= 1,
            final(self).extra_cycles == old(self).extra_cycles,
            final(self).cycle_count == old(self).cycle_count,
            final(self).opcode == old(self).opcode,
            final(self).nmi_pending == old(self).nmi_pending,
    {
        reveal(Cpu::after_addressing);
        match addr_mode {
            AddrMode::IMM => self.addr_mode_imm(state),
            AddrMode::ABS => self.addr_mode_abs(state),
            AddrMode::ZP => self.addr_mode_zp(state),
            AddrMode::IND => self.addr_mode_ind(state),
            AddrMode::ABX => self.addr_mode_abx(state),
            AddrMode::ABY => self.addr_mode_aby(state),
            AddrMode::ZPX => self.addr_mode_zpx(state),
            AddrMode::ZPY => self.addr_mode_zpy(state),
            AddrMode::IZX => self.addr_mode_izx(state),
            AddrMode::IZY => self.addr_mode_izy(state),
            AddrMode::REL => self.addr_mode_rel(state),
            AddrMode::ACC => self.addr_mode_acc(),
            AddrMode::IMP => {},
            AddrMode::UNK => {},
        }
    }

    /// Fetches the operand from the operand address, for the addressing
    /// modes that have it in memory.
    pub fn fetch_operand<M: Mapper>(&mut self, state: &mut NesState<M>)
        requires
            old(state).inv(),
        ensures
            final(state).inv(),
            same_dots(old(state)@, final(state)@),
            (*final(self), final(state)@) == old(self).after_fetch_operand::<M>(old(state)@),
            old(self).spent(*final(self), 0),
            final(self).reg == old(self).reg,
            final(self).operand_address == old(self).operand_address,
    {
        let mode: AddrMode = lookup_addr_mode(self.opcode);
        match mode {
            AddrMode::IMM => {},
            AddrMode::ABS => {
                self.operand_value = self.do_mem_read(state, self.operand_address);
            },
            AddrMode::ZP => {
                self.operand_value = self.do_mem_read(state, self.operand_address);
            },
            AddrMode::IMP => {},
            AddrMode::IND => {},
            AddrMode::ABX => {
                self.operand_value = self.do_mem_read(state, self.operand_address);
            },
            AddrMode::ABY => {
                self.operand_value = self.do_mem_read(state, self.operand_address);
            },
            AddrMode::ZPX => {
                self.operand_value = self.do_mem_read(state, self.operand_address);
            },
            AddrMode::ZPY => {
                self.operand_value = self.do_mem_read(state, self.operand_address);
            },
            AddrMode::IZX => {
                self.operand_value = self.do_mem_read(state, self.operand_address);
            },
            AddrMode::IZY => {
                self.operand_value = self.do_mem_read(state, self.operand_address);
            },
            AddrMode::REL => {},
            AddrMode::ACC => {},
            AddrMode::UNK => {},
        }
    }
}

} // verus!
