//! Execution: one instruction at a time, with the interrupt that may
//! precede it, and runs of instructions up to a cycle.

use vstd::prelude::*;
use crate::cpu::constants::{PS_C_BIT, PS_D_BIT, PS_I_BIT, PS_N_BIT, PS_V_BIT, PS_Z_BIT};
use crate::cpu::table::{addr_mode_of, cycles_of, decode, op_of, Instruction, Op};
use crate::cpu::{Cpu, CpuError};
use crate::mappers::Mapper;
use crate::state::{same_dots, BusView, NesState};

verus! {

/// The highest count of cycles from which the processor still runs: it
/// leaves room on the counter for the longest instruction with its stalls.
pub const MAX_CYCLE_COUNT: u64 = 0xFFFF_FFFF_FFFF_DFFF;

/// The most cycles that one step takes: an interrupt, an instruction, and
/// a sprite DMA for each byte that the two write.
pub const MAX_STEP_CYCLES: u64 = 4096;

/// `total` more than a count of cycles, where there is one.
pub open spec fn plus_cycles(total: int, rest: Option<int>) -> Option<int> {
    match rest {
        Some(n) => Some(total + n),
        None => None,
    }
}

impl Cpu {
    /// The processor and the bus after the operation `op` was carried
    /// out on the operand that the addressing mode found.
    #[verifier::opaque]
    pub open spec fn after_op<M: Mapper>(self, b: BusView<M::V>, op: Op) -> (Cpu, BusView<M::V>) {
        match op {
            Op::ADC => self.after_adc::<M>(b),
            Op::AND => self.after_and::<M>(b),
            Op::ASL => self.after_asl::<M>(b),
            Op::BCC => self.after_branch::<M>(b, PS_C_BIT, false),
            Op::BCS => self.after_branch::<M>(b, PS_C_BIT, true),
            Op::BEQ => self.after_branch::<M>(b, PS_Z_BIT, true),
            Op::BIT => self.after_bit::<M>(b),
            Op::BMI => self.after_branch::<M>(b, PS_N_BIT, true),
            Op::BNE => self.after_branch::<M>(b, PS_Z_BIT, false),
            Op::BPL => self.after_branch::<M>(b, PS_N_BIT, false),
            Op::BRK => self.after_brk::<M>(b),
            Op::BVC => self.after_branch::<M>(b, PS_V_BIT, false),
            Op::BVS => self.after_branch::<M>(b, PS_V_BIT, true),
            Op::CLC => (self.with_flag(PS_C_BIT, false), b),
            Op::CLD => (self.with_flag(PS_D_BIT, false), b),
            Op::CLI => (self.with_flag(PS_I_BIT, false), b),
            Op::CLV => (self.with_flag(PS_V_BIT, false), b),
            Op::CMP => self.after_cmp::<M>(b),
            Op::CPX => self.after_cpx::<M>(b),
            Op::CPY => self.after_cpy::<M>(b),
            Op::DCP => self.after_dcp::<M>(b),
            Op::DEC => self.after_dec::<M>(b),
            Op::DEX => (self.after_dex(), b),
            Op::DEY => (self.after_dey(), b),
            Op::EOR => self.after_eor::<M>(b),
            Op::INC => self.after_inc::<M>(b),
            Op::INX => (self.after_inx(), b),
            Op::INY => (self.after_iny(), b),
            Op::ISB => self.after_isb::<M>(b),
            Op::JMP => (self.after_jmp(), b),
            Op::JSR => self.after_jsr::<M>(b),
            Op::LAX => self.after_lax::<M>(b),
            Op::LDA => self.after_lda::<M>(b),
            Op::LDX => self.after_ldx::<M>(b),
            Op::LDY => self.after_ldy::<M>(b),
            Op::LSR => self.after_lsr::<M>(b),
            Op::NOP => (self.after_nop(), b),
            Op::OOPS => (self, b),
            Op::ORA => self.after_ora::<M>(b),
            Op::PHA => self.after_pha::<M>(b),
            Op::PHP => self.after_php::<M>(b),
            Op::PLA => self.after_pla::<M>(b),
            Op::PLP => self.after_plp::<M>(b),
            Op::RLA => self.after_rla::<M>(b),
            Op::ROL => self.after_rol::<M>(b),
            Op::ROR => self.after_ror::<M>(b),
            Op::RRA => self.after_rra::<M>(b),
            Op::RTI => self.after_rti::<M>(b),
            Op::RTS => self.after_rts::<M>(b),
            Op::SAX => self.after_sax::<M>(b),
            Op::SBC => self.after_sbc::<M>(b),
            Op::SEC => (self.with_flag(PS_C_BIT, true), b),
            Op::SED => (self.with_flag(PS_D_BIT, true), b),
            Op::SEI => (self.with_flag(PS_I_BIT, true), b),
            Op::SLO => self.after_slo::<M>(b),
            Op::SRE => self.after_sre::<M>(b),
            Op::STA => self.after_sta::<M>(b),
            Op::STX => self.after_stx::<M>(b),
            Op::STY => self.after_sty::<M>(b),
            Op::TAX => (self.after_tax(), b),
            Op::TAY => (self.after_tay(), b),
            Op::TSX => (self.after_tsx(), b),
            Op::TXA => (self.after_txa(), b),
            Op::TXS => (self.after_txs(), b),
            Op::TYA => (self.after_tya(), b),
        }
    }

    /// The processor with the counters of a new instruction.
    pub open spec fn with_fresh_counters(self) -> Cpu {
        Cpu { page_penalty: 0, extra_cycles: 0, ..self }
    }

    /// The processor with `opcode` as the opcode of its instruction.
    pub open spec fn with_opcode(self, opcode: u8) -> Cpu {
        Cpu { opcode, ..self }
    }

    /// The processor and the bus after one instruction, and the cycles
    /// that it took, or nothing where its opcode is not implemented. An
    /// interrupt that was asked for is entered first and counts with the
    /// instruction. The opcode is the byte at the program counter, the
    /// addressing mode of the opcode finds the operand, and the cycles
    /// are the base cycles of the opcode and the extra cycles that were
    /// spent. An opcode that is not implemented stops the processor
    /// behind its operand.
    #[verifier::opaque]
    pub open spec fn after_execute<M: Mapper>(self, b: BusView<M::V>) -> (
        Option<int>,
        Cpu,
        BusView<M::V>,
    ) {
        let fresh = self.with_fresh_counters();
        let entered = if self.nmi_pending {
            fresh.after_nmi::<M>(b)
        } else {
            (fresh, b)
        };
        let fetched = entered.0.after_read_byte::<M>(entered.1);
        let opcode = fetched.0;
        let addressed = fetched.1.with_opcode(opcode).after_addressing::<M>(
            fetched.2,
            addr_mode_of(opcode),
        );
        if op_of(opcode) == Op::OOPS {
            (None, addressed.0, addressed.1)
        } else {
            let done = addressed.0.after_op::<M>(addressed.1, op_of(opcode));
            (Some(cycles_of(opcode) + done.0.extra_cycles), done.0, done.1)
        }
    }

    /// The processor with `n` more cycles on its counter.
    pub open spec fn with_cycles_counted(self, n: int) -> Cpu {
        Cpu { cycle_count: (self.cycle_count + n) as u64, ..self }
    }

    /// The processor and the bus after one instruction whose cycles were
    /// counted, and those cycles.
    pub open spec fn after_step<M: Mapper>(self, b: BusView<M::V>) -> (
        Option<int>,
        Cpu,
        BusView<M::V>,
    ) {
        let done = self.after_execute::<M>(b);
        match done.0 {
            Some(n) => (done.0, done.1.with_cycles_counted(n), done.2),
            None => done,
        }
    }

    /// The processor and the bus after steps were made until the cycle
    /// counter reached `cycle`, and the cycles that they took together,
    /// or nothing where an opcode that is not implemented stopped the
    /// run. A step moves the counter on; a step that did not would end
    /// the run.
    pub open spec fn ran_to<M: Mapper>(self, b: BusView<M::V>, cycle: u64) -> (
        Option<int>,
        Cpu,
        BusView<M::V>,
    )
        decreases
            (if cycle > self.cycle_count {
                cycle - self.cycle_count
            } else {
                0
            }),
    {
        if self.cycle_count >= cycle {
            (Some(0int), self, b)
        } else {
            let stepped = self.after_step::<M>(b);
            if stepped.0 is None || stepped.1.cycle_count <= self.cycle_count {
                stepped
            } else {
                let rest = stepped.1.ran_to::<M>(stepped.2, cycle);
                (plus_cycles(stepped.0->Some_0, rest.0), rest.1, rest.2)
            }
        }
    }

    /// Carries out the operation `op` on the operand that the addressing
    /// mode found.
    #[verifier::rlimit(40)]
    pub fn run_op<M: Mapper>(&mut self, state: &mut NesState<M>, op: Op)
        requires
            old(state).inv(),
            old(self).can_spend(1539),
            old(self).page_penalty <= 1,
            op != Op::OOPS,
        ensures
            final(state).inv(),
            same_dots(old(state)@, final(state)@),
            (*final(self), final(state)@) == old(self).after_op::<M>(old(state)@, op),
            old(self).spent(*final(self), 1539),
    {
        reveal(Cpu::after_op);
        match op {
            Op::ADC => self.adc(state),
            Op::AND => self.and(state),
            Op::ASL => self.asl(state),
            Op::BCC => self.bcc(state),
            Op::BCS => self.bcs(state),
            Op::BEQ => self.beq(state),
            Op::BIT => self.bit(state),
            Op::BMI => self.bmi(state),
            Op::BNE => self.bne(state),
            Op::BPL => self.bpl(state),
            Op::BRK => self.brk(state),
            Op::BVC => self.bvc(state),
            Op::BVS => self.bvs(state),
            Op::CLC => self.clc(),
            Op::CLD => self.cld(),
            Op::CLI => self.cli(),
            Op::CLV => self.clv(),
            Op::CMP => self.cmp(state),
            Op::CPX => self.cpx(state),
            Op::CPY => self.cpy(state),
            Op::DCP => self.dcp(state),
            Op::DEC => self.dec(state),
            Op::DEX => self.dex(),
            Op::DEY => self.dey(),
            Op::EOR => self.eor(state),
            Op::INC => self.inc(state),
            Op::INX => self.inx(),
            Op::INY => self.iny(),
            Op::ISB => self.isb(state),
            Op::JMP => self.jmp(),
            Op::JSR => self.jsr(state),
            Op::LAX => self.lax(state),
            Op::LDA => self.lda(state),
            Op::LDX => self.ldx(state),
            Op::LDY => self.ldy(state),
            Op::LSR => self.lsr(state),
            Op::NOP => self.nop(),
            Op::OOPS => {},
            Op::ORA => self.ora(state),
            Op::PHA => self.pha(state),
            Op::PHP => self.php(state),
            Op::PLA => self.pla(state),
            Op::PLP => self.plp(state),
            Op::RLA => self.rla(state),
            Op::ROL => self.rol(state),
            Op::ROR => self.ror(state),
            Op::RRA => self.rra(state),
            Op::RTI => self.rti(state),
            Op::RTS => self.rts(state),
            Op::SAX => self.sax(state),
            Op::SBC => self.sbc(state),
            Op::SEC => self.sec(),
            Op::SED => self.sed(),
            Op::SEI => self.sei(),
            Op::SLO => self.slo(state),
            Op::SRE => self.sre(state),
            Op::STA => self.sta(state),
            Op::STX => self.stx(state),
            Op::STY => self.sty(state),
            Op::TAX => self.tax(),
            Op::TAY => self.tay(),
            Op::TSX => self.tsx(),
            Op::TXA => self.txa(),
            Op::TXS => self.txs(),
            Op::TYA => self.tya(),
        }
    }

    /// Executes one instruction, after the interrupt that was asked for,
    /// if any, and returns the cycles that they took. The cycle counter
    /// stays; `step` counts.
    #[verifier::rlimit(40)]
    pub fn execute<M: Mapper>(&mut self, state: &mut NesState<M>) -> (r: Result<u64, CpuError>)
        requires
            old(state).inv(),
            old(self).cycle_count <= MAX_CYCLE_COUNT,
        ensures
            final(state).inv(),
            same_dots(old(state)@, final(state)@),
            *final(self) == old(self).after_execute::<M>(old(state)@).1,
            final(state)@ == old(self).after_execute::<M>(old(state)@).2,
            match r {
                Ok(n) => old(self).after_execute::<M>(old(state)@).0 == Some(n as int),
                Err(e) => old(self).after_execute::<M>(old(state)@).0 is None
                    && e == CpuError::UnimplementedOpcode,
            },
            r is Ok ==> 2 <= r->Ok_0 <= MAX_STEP_CYCLES,
            final(self).cycle_count == old(self).cycle_count,
    {
        reveal(Cpu::after_execute);
        self.page_penalty = 0;
        self.extra_cycles = 0;
        if self.nmi_pending {
            self.service_nmi(state);
        }
        // Read the next opcode.
        self.opcode = self.read_byte(state);
        let instruction: Instruction = decode(self.opcode);
        self.set_operand_address(state, &instruction.addr_mode);
        match instruction.op {
            Op::OOPS => Err(CpuError::UnimplementedOpcode),
            _ => {
                self.run_op(state, instruction.op);
                let total_cycles: u64 = instruction.cycles + self.extra_cycles;
                Ok(total_cycles)
            },
        }
    }

    /// Executes one instruction and counts its cycles.
    #[verifier::rlimit(40)]
    pub fn step<M: Mapper>(&mut self, state: &mut NesState<M>) -> (r: Result<u64, CpuError>)
        requires
            old(state).inv(),
            old(self).cycle_count <= MAX_CYCLE_COUNT,
        ensures
            final(state).inv(),
            same_dots(old(state)@, final(state)@),
            *final(self) == old(self).after_step::<M>(old(state)@).1,
            final(state)@ == old(self).after_step::<M>(old(state)@).2,
            match r {
                Ok(n) => old(self).after_step::<M>(old(state)@).0 == Some(n as int)
                    && final(self).cycle_count == old(self).cycle_count + n,
                Err(e) => old(self).after_step::<M>(old(state)@).0 is None
                    && e == CpuError::UnimplementedOpcode && final(self).cycle_count == old(
                    self,
                ).cycle_count,
            },
            r is Ok ==> 2 <= r->Ok_0 <= MAX_STEP_CYCLES,
    {
        match self.execute(state) {
            Ok(cycles_used) => {
                self.cycle_count = self.cycle_count + cycles_used;
                Ok(cycles_used)
            },
            Err(e) => Err(e),
        }
    }

    /// Executes up to, or slightly beyond, the given cycle, and returns
    /// the cycles that were used: the processor may overshoot by what
    /// the last instruction took.
    #[verifier::rlimit(40)]
    pub fn cycle_to<M: Mapper>(&mut self, state: &mut NesState<M>, cycle: u64) -> (r: Result<
        u64,
        CpuError,
    >)
        requires
            old(state).inv(),
            cycle <= MAX_CYCLE_COUNT,
        ensures
            final(state).inv(),
            same_dots(old(state)@, final(state)@),
            *final(self) == old(self).ran_to::<M>(old(state)@, cycle).1,
            final(state)@ == old(self).ran_to::<M>(old(state)@, cycle).2,
            match r {
                Ok(n) => old(self).ran_to::<M>(old(state)@, cycle).0 == Some(n as int)
                    && final(self).cycle_count == old(self).cycle_count + n
                    && final(self).cycle_count >= cycle,
                Err(e) => old(self).ran_to::<M>(old(state)@, cycle).0 is None
                    && e == CpuError::UnimplementedOpcode,
            },
    {
        let mut total: u64 = 0;
        while self.cycle_count < cycle
            invariant
                state.inv(),
                same_dots(old(state)@, state@),
                cycle <= MAX_CYCLE_COUNT,
                self.cycle_count == old(self).cycle_count + total,
                old(self).ran_to::<M>(old(state)@, cycle).0 == plus_cycles(
                    total as int,
                    self.ran_to::<M>(state@, cycle).0,
                ),
                old(self).ran_to::<M>(old(state)@, cycle).1 == self.ran_to::<M>(state@, cycle).1,
                old(self).ran_to::<M>(old(state)@, cycle).2 == self.ran_to::<M>(state@, cycle).2,
            decreases
                (if cycle > self.cycle_count {
                    cycle - self.cycle_count
                } else {
                    0
                }),
        {
            match self.step(state) {
                Ok(cycles_used) => {
                    total = total + cycles_used;
                },
                Err(e) => {
                    return Err(e);
                },
            }
        }
        Ok(total)
    }
}

} // verus!
