//! What follows from the specification of the processor: laws of its flags,
//! its arithmetic, its branches, its stack and its addressing modes.

use vstd::prelude::*;
use crate::cpu::addressing::{pointer_successor, zero_page_word};
use crate::cpu::alu::{adc_overflow, adc_sum};
use crate::cpu::constants::{PS_C_BIT, PS_N_BIT, PS_V_BIT, PS_Z_BIT};
use crate::cpu::moves::pushed_status;
use crate::cpu::table::{addr_mode_of, op_of, AddrMode, Op};
use crate::cpu::{address_after, nz_flags, signed, stack_address, Cpu};
use crate::mappers::Mapper;
use crate::state::{lemma_ram_write_read, BusView, NesState};
use crate::utils::{bit_set, page_of, with_bit, word};

verus! {

/// Setting or clearing one bit of a byte leaves every other bit.
pub proof fn lemma_bit_algebra(p: u8, i: u8, j: u8)
    by (bit_vector)
    requires
        i < 8,
        j < 8,
    ensures
        ((p | (1u8 << j)) & (1u8 << i) != 0) == (i == j || (p & (1u8 << i)) != 0),
        ((p & !(1u8 << j)) & (1u8 << i) != 0) == (i != j && (p & (1u8 << i)) != 0),
{
}

/// Bit `i` of a byte whose bit `j` was set or cleared is the new value
/// where `i` is `j`, and the bit as it was elsewhere.
pub proof fn lemma_with_bit(p: u8, i: u8, j: u8, on: bool)
    requires
        i < 8,
        j < 8,
    ensures
        bit_set(i, with_bit(p, j, on)) == if i == j {
            on
        } else {
            bit_set(i, p)
        },
{
    lemma_bit_algebra(p, i, j);
}

/// What the flags N and Z say after a value was loaded, and that the
/// other flags stay.
pub proof fn lemma_nz_flags(p: u8, value: u8, i: u8)
    requires
        i < 8,
    ensures
        bit_set(PS_Z_BIT, nz_flags(p, value)) == (value == 0),
        bit_set(PS_N_BIT, nz_flags(p, value)) == (value >= 128),
        i != PS_Z_BIT && i != PS_N_BIT ==> bit_set(i, nz_flags(p, value)) == bit_set(i, p),
{
    let n = with_bit(p, PS_N_BIT, bit_set(PS_N_BIT, value));
    lemma_with_bit(n, PS_Z_BIT, PS_Z_BIT, value == 0);
    lemma_with_bit(n, PS_N_BIT, PS_Z_BIT, value == 0);
    lemma_with_bit(n, i, PS_Z_BIT, value == 0);
    lemma_with_bit(p, PS_N_BIT, PS_N_BIT, bit_set(PS_N_BIT, value));
    lemma_with_bit(p, i, PS_N_BIT, bit_set(PS_N_BIT, value));
    assert((value & (1u8 << 7u8) != 0) == (value >= 128)) by (bit_vector);
}

/// The bit test that tells an overflow of ADC is the overflow of the
/// addition of signed bytes: the operands have one sign and the result has
/// the other.
pub proof fn lemma_overflow_bits(a: u8, m: u8, r: u8)
    by (bit_vector)
    ensures
        (((a ^ r) & (m ^ r) & 0x80) != 0) == ((a < 128 && m < 128 && r >= 128) || (a >= 128 && m
            >= 128 && r < 128)),
{
}

/// ADC: A and C together hold the 9-bit sum of A, the operand and the
/// carry; V is `((A ^ result) & (operand ^ result) & 0x80) != 0`, which
/// tells whether the sum of the signed bytes left the range of a signed
/// byte; N and Z follow the result.
#[verifier::rlimit(40)]
pub proof fn lemma_adc(c: Cpu, m: u8)
    ensures
        ({
            let carry_in = if c.flag(PS_C_BIT) { 1int } else { 0int };
            let after = c.with_added(m);
            let carry_out = if after.flag(PS_C_BIT) { 1int } else { 0int };
            let signed_sum = signed(c.reg.A) + signed(m) + carry_in;
            &&& after.reg.A + 256 * carry_out == c.reg.A + m + carry_in
            &&& after.flag(PS_V_BIT) == adc_overflow(c.reg.A, m, after.reg.A)
            &&& after.flag(PS_V_BIT) == (signed_sum < -128 || signed_sum > 127)
            &&& after.flag(PS_Z_BIT) == (after.reg.A == 0)
            &&& after.flag(PS_N_BIT) == (after.reg.A >= 128)
        }),
{
    let sum = adc_sum(c.reg.A, m, c.flag(PS_C_BIT));
    let result = (sum % 256) as u8;
    let carried = with_bit(c.reg.P, PS_C_BIT, sum > 255);
    let flagged = with_bit(carried, PS_V_BIT, adc_overflow(c.reg.A, m, result));
    lemma_with_bit(c.reg.P, PS_C_BIT, PS_C_BIT, sum > 255);
    lemma_with_bit(carried, PS_C_BIT, PS_V_BIT, adc_overflow(c.reg.A, m, result));
    lemma_with_bit(carried, PS_V_BIT, PS_V_BIT, adc_overflow(c.reg.A, m, result));
    lemma_nz_flags(flagged, result, PS_C_BIT);
    lemma_nz_flags(flagged, result, PS_V_BIT);
    lemma_overflow_bits(c.reg.A, m, result);
}

/// The complement of a byte is what it lacks to 255.
pub proof fn lemma_complement(m: u8)
    by (bit_vector)
    ensures
        !m == 255 - m,
{
}

/// SBC is ADC with the operand inverted bit by bit. So A and C together
/// hold `A - operand - (1 - C)`, with C set where nothing was borrowed.
#[verifier::rlimit(40)]
pub proof fn lemma_sbc<M: Mapper>(c: Cpu, b: BusView<M::V>)
    ensures
        ({
            let f = c.after_fetch_operand::<M>(b);
            let m = f.0.operand_value;
            let borrow_in = if f.0.flag(PS_C_BIT) { 0int } else { 1int };
            let adc = Cpu { operand_value: !m, ..f.0 }.with_added(!m).with_page_penalty();
            let sbc = c.after_sbc::<M>(b);
            let difference = f.0.reg.A - m - borrow_in;
            &&& sbc.1 == f.1
            &&& sbc.0 == (Cpu { operand_value: m, ..adc })
            &&& sbc.0.flag(PS_C_BIT) == (difference >= 0)
            &&& sbc.0.reg.A == difference % 256
        }),
{
    let f = c.after_fetch_operand::<M>(b);
    let m = f.0.operand_value;
    lemma_complement(m);
    lemma_adc(f.0, !m);
}

/// A branch that is taken leads to the program counter behind the operand
/// plus the operand as a signed byte, and costs one cycle, and one more
/// where the destination lies on another page. A branch that is not taken
/// costs nothing and leaves the program counter behind the operand.
pub proof fn lemma_branch<M: Mapper>(c: Cpu, b: BusView<M::V>, bit: u8, wanted: bool)
    ensures
        ({
            let f = c.after_fetch_operand::<M>(b);
            let after = c.after_branch::<M>(b, bit, wanted).0;
            let taken = f.0.flag(bit) == wanted;
            let crossed = page_of(after.reg.PC) != page_of(f.0.reg.PC);
            &&& taken ==> after.reg.PC == (f.0.reg.PC + signed(f.0.operand_value)) % 0x10000
            &&& taken ==> after.extra_cycles == (f.0.extra_cycles + 1 + if crossed {
                1int
            } else {
                0int
            }) as u64
            &&& !taken ==> after == f.0
        }),
{
}

/// PHA and then PLA: A and the stack pointer are what they were, whatever
/// the stack pointer was.
#[verifier::rlimit(40)]
pub proof fn lemma_pha_pla<M: Mapper>(c: Cpu, b: BusView<M::V>)
    requires
        NesState::<M>::wf(b),
    ensures
        ({
            let pushed = c.after_pha::<M>(b);
            let pulled = pushed.0.after_pla::<M>(pushed.1);
            &&& pulled.0.reg.A == c.reg.A
            &&& pulled.0.reg.SP == c.reg.SP
            &&& pushed.0.reg.SP == (c.reg.SP + 255) % 256
        }),
{
    lemma_ram_write_read::<M>(
        b,
        stack_address(c.reg.SP),
        c.reg.A,
        c.stamp(),
        stack_address(c.reg.SP),
    );
}

/// The status after `pulled` came off the stack has its bits 4 and 5 as
/// they were and takes the others from `pulled`.
pub proof fn lemma_status_from_stack(p: u8, pulled: u8, i: u8)
    requires
        i < 8,
    ensures
        bit_set(i, Cpu::status_from_stack(p, pulled)) == if i == 4 || i == 5 {
            bit_set(i, p)
        } else {
            bit_set(i, pulled)
        },
{
    let step0 = with_bit(p, 0, bit_set(0, pulled));
    let step1 = with_bit(step0, 1, bit_set(1, pulled));
    let step2 = with_bit(step1, 2, bit_set(2, pulled));
    let step3 = with_bit(step2, 3, bit_set(3, pulled));
    let step6 = with_bit(step3, 6, bit_set(6, pulled));
    lemma_with_bit(p, i, 0, bit_set(0, pulled));
    lemma_with_bit(step0, i, 1, bit_set(1, pulled));
    lemma_with_bit(step1, i, 2, bit_set(2, pulled));
    lemma_with_bit(step2, i, 3, bit_set(3, pulled));
    lemma_with_bit(step3, i, 6, bit_set(6, pulled));
    lemma_with_bit(step6, i, 7, bit_set(7, pulled));
}

/// Two bytes with the same eight bits are one byte.
pub proof fn lemma_bits_decide(p: u8, q: u8)
    requires
        forall|i: u8| i < 8 ==> bit_set(i, p) == bit_set(i, q),
    ensures
        p == q,
{
    assert(bit_set(0, p) == bit_set(0, q));
    assert(bit_set(1, p) == bit_set(1, q));
    assert(bit_set(2, p) == bit_set(2, q));
    assert(bit_set(3, p) == bit_set(3, q));
    assert(bit_set(4, p) == bit_set(4, q));
    assert(bit_set(5, p) == bit_set(5, q));
    assert(bit_set(6, p) == bit_set(6, q));
    assert(bit_set(7, p) == bit_set(7, q));
    assert(p == q) by (bit_vector)
        requires
            (p & (1u8 << 0u8) != 0) == (q & (1u8 << 0u8) != 0),
            (p & (1u8 << 1u8) != 0) == (q & (1u8 << 1u8) != 0),
            (p & (1u8 << 2u8) != 0) == (q & (1u8 << 2u8) != 0),
            (p & (1u8 << 3u8) != 0) == (q & (1u8 << 3u8) != 0),
            (p & (1u8 << 4u8) != 0) == (q & (1u8 << 4u8) != 0),
            (p & (1u8 << 5u8) != 0) == (q & (1u8 << 5u8) != 0),
            (p & (1u8 << 6u8) != 0) == (q & (1u8 << 6u8) != 0),
            (p & (1u8 << 7u8) != 0) == (q & (1u8 << 7u8) != 0),
    ;
}

/// PHP and then PLP: the status and the stack pointer are what they were.
/// What PHP puts onto the stack has bits 4 and 5 set, and PLP does not
/// look at them.
#[verifier::rlimit(40)]
pub proof fn lemma_php_plp<M: Mapper>(c: Cpu, b: BusView<M::V>)
    requires
        NesState::<M>::wf(b),
    ensures
        ({
            let pushed = c.after_php::<M>(b);
            let pulled = pushed.0.after_plp::<M>(pushed.1);
            &&& pulled.0.reg.P == c.reg.P
            &&& pulled.0.reg.SP == c.reg.SP
            &&& bit_set(4, pushed_status(c.reg.P)) && bit_set(5, pushed_status(c.reg.P))
        }),
{
    let q = pushed_status(c.reg.P);
    lemma_ram_write_read::<M>(b, stack_address(c.reg.SP), q, c.stamp(), stack_address(c.reg.SP));
    let after = Cpu::status_from_stack(c.reg.P, q);
    assert forall|i: u8| i < 8 implies bit_set(i, after) == bit_set(i, c.reg.P) by {
        lemma_status_from_stack(c.reg.P, q, i);
        lemma_with_bit(c.reg.P, i, 4, true);
        lemma_with_bit(with_bit(c.reg.P, 4, true), i, 5, true);
    }
    lemma_bits_decide(after, c.reg.P);
    lemma_with_bit(c.reg.P, 4, 4, true);
    lemma_with_bit(with_bit(c.reg.P, 4, true), 4, 5, true);
    lemma_with_bit(with_bit(c.reg.P, 4, true), 5, 5, true);
}

/// The operations that pay a cycle where their addressing mode crosses a
/// page: the loads, the logic and arithmetic on A, CMP, and the
/// undocumented NOPs that have an operand.
pub open spec fn pays_page_penalty(op: Op) -> bool {
    match op {
        Op::ADC => true,
        Op::SBC => true,
        Op::AND => true,
        Op::ORA => true,
        Op::EOR => true,
        Op::CMP => true,
        Op::LDA => true,
        Op::LDX => true,
        Op::LDY => true,
        Op::LAX => true,
        Op::NOP => true,
        _ => false,
    }
}

/// The stores.
pub open spec fn is_store(op: Op) -> bool {
    op == Op::STA || op == Op::STX || op == Op::STY || op == Op::SAX
}

/// The operations that read a byte, change it and write it back, alone or
/// followed by a second operation on the byte.
pub open spec fn is_read_modify_write(op: Op) -> bool {
    match op {
        Op::ASL => true,
        Op::LSR => true,
        Op::ROL => true,
        Op::ROR => true,
        Op::INC => true,
        Op::DEC => true,
        Op::SLO => true,
        Op::RLA => true,
        Op::SRE => true,
        Op::RRA => true,
        Op::DCP => true,
        Op::ISB => true,
        _ => false,
    }
}

/// The cycles that the write of a store or of a read-modify-write
/// operation stalls the processor for: those of a sprite DMA where the
/// write goes to 0x4014.
pub open spec fn write_stall(c: Cpu) -> int {
    if c.operand_address == 0x4014 && addr_mode_of(c.opcode) != AddrMode::ACC {
        513
    } else {
        0
    }
}

/// The operations that pay for a page crossing spend the page penalty of
/// the addressing mode as extra cycles, and nothing else. `op` is the
/// operation of the opcode that the processor executes.
#[verifier::rlimit(40)]
pub proof fn lemma_page_penalty_paid<M: Mapper>(c: Cpu, b: BusView<M::V>, op: Op)
    requires
        pays_page_penalty(op),
        op == op_of(c.opcode),
        c.can_spend(0),
    ensures
        c.after_op::<M>(b, op).0.extra_cycles == c.extra_cycles + c.page_penalty,
{
    reveal(Cpu::after_op);
}

/// Stores never pay for a page crossing: their extra cycles are those of
/// the stall of their write, whatever the page penalty of the addressing
/// mode.
#[verifier::rlimit(40)]
pub proof fn lemma_stores_pay_no_penalty<M: Mapper>(c: Cpu, b: BusView<M::V>, op: Op)
    requires
        is_store(op),
        op == op_of(c.opcode),
        c.can_spend(513),
    ensures
        c.after_op::<M>(b, op).0.extra_cycles == c.extra_cycles + write_stall(c),
{
    reveal(Cpu::after_op);
}

/// Read-modify-write operations never pay for a page crossing, neither
/// alone nor combined with an operation that alone would pay: their extra
/// cycles are those of the stall of their write.
#[verifier::rlimit(80)]
pub proof fn lemma_read_modify_write_pays_no_penalty<M: Mapper>(c: Cpu, b: BusView<M::V>, op: Op)
    requires
        is_read_modify_write(op),
        op == op_of(c.opcode),
        c.can_spend(513),
    ensures
        c.after_op::<M>(b, op).0.extra_cycles == c.extra_cycles + write_stall(c),
{
    reveal(Cpu::after_op);
}

/// JSR and then RTS: the processor is back behind the JSR instruction, and
/// the stack pointer is what it was. JSR pushes the address of its own last
/// byte, high byte first, and RTS goes to the address after the one that
/// it pulls.
#[verifier::rlimit(40)]
pub proof fn lemma_jsr_rts<M: Mapper>(c: Cpu, b: BusView<M::V>)
    requires
        NesState::<M>::wf(b),
    ensures
        ({
            let called = c.after_jsr::<M>(b);
            let returned = called.0.after_rts::<M>(called.1);
            &&& called.0.reg.PC == c.operand_address
            &&& called.0.reg.SP == (c.reg.SP + 254) % 256
            &&& returned.0.reg.PC == c.reg.PC
            &&& returned.0.reg.SP == c.reg.SP
        }),
{
    let target = address_after(c.reg.PC, 0xFFFF);
    let high = (target / 256) as u8;
    let low = (target % 256) as u8;
    let sp0 = c.reg.SP;
    let sp1 = ((sp0 + 255) % 256) as u8;
    let first = c.after_push::<M>(b, high);
    let second = first.0.after_push::<M>(first.1, low);
    lemma_ram_write_read::<M>(b, stack_address(sp0), high, c.stamp(), stack_address(sp0));
    lemma_ram_write_read::<M>(
        first.1,
        stack_address(sp1),
        low,
        first.0.stamp(),
        stack_address(sp1),
    );
    lemma_ram_write_read::<M>(
        first.1,
        stack_address(sp1),
        low,
        first.0.stamp(),
        stack_address(sp0),
    );
}

/// The high byte of the target of an indirect jump whose pointer lies at
/// the end of a page comes from the start of that page: for a pointer at
/// 0x02FF, from 0x0200.
pub proof fn lemma_indirect_jump_wraps(pointer: u16)
    ensures
        pointer % 256 == 255 ==> pointer_successor(pointer) == pointer - 255,
        pointer % 256 != 255 ==> pointer_successor(pointer) == pointer + 1,
        pointer_successor(0x02FF) == 0x0200,
{
}

/// The target of an indirect jump: its low byte is read at the pointer,
/// its high byte at the pointer's successor within the page.
pub proof fn lemma_indirect_jump<M: Mapper>(c: Cpu, b: BusView<M::V>)
    ensures
        ({
            let next = c.after_read_word::<M>(b);
            let after = c.after_addr_mode_ind::<M>(b);
            let low = NesState::<M>::read_value(next.2, next.0);
            let high = NesState::<M>::read_value(
                NesState::<M>::after_read(next.2, next.0),
                pointer_successor(next.0),
            );
            after.0.after_jmp().reg.PC == word(low, high)
        }),
{
}

/// Indexed indirect addressing stays in page 0: where the operand and X
/// add up to 0xFF, the high byte of the address comes from 0x0000.
pub proof fn lemma_izx_wraps<M: Mapper>(c: Cpu, b: BusView<M::V>)
    ensures
        zero_page_word::<M>(b, 0xFF) == word(
            M::cpu_read_spec(b.mapper, 0x00FF),
            M::cpu_read_spec(b.mapper, 0x0000),
        ),
        ({
            let next = c.after_read_byte::<M>(b);
            (next.0 + c.reg.X) % 256 == 0xFF ==> c.after_addr_mode_izx::<M>(b).0.operand_address
                == word(
                M::cpu_read_spec(next.2.mapper, 0x00FF),
                M::cpu_read_spec(next.2.mapper, 0x0000),
            )
        }),
{
}

/// The stack pointer wraps: a push at 0x00 leaves it at 0xFF, a pull at
/// 0xFF leaves it at 0x00; the stack stays in page 1.
pub proof fn lemma_stack_wraps<M: Mapper>(c: Cpu, b: BusView<M::V>, value: u8)
    ensures
        c.reg.SP == 0x00 ==> c.after_push::<M>(b, value).0.reg.SP == 0xFF,
        c.reg.SP == 0xFF ==> c.after_pull::<M>(b).1.reg.SP == 0x00,
        c.after_push::<M>(b, value).0.reg.SP == (c.reg.SP + 255) % 256,
        c.after_pull::<M>(b).1.reg.SP == (c.reg.SP + 1) % 256,
        0x0100 <= stack_address(c.reg.SP) <= 0x01FF,
{
}

} // verus!
