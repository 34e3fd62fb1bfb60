//! The bus of the machine: it owns the cartridge and the picture unit,
//! folds the mirrors of the processor's address space, and routes every
//! access of the processor to memory, to a port of the picture unit or to a
//! controller.

use vstd::prelude::*;
use crate::mappers::Mapper;
use crate::ppu::{Ppu, PpuCycleResult};
use crate::utils::{bit_is_set, bit_set, make_word, word};

verus! {

/// The processor cycle from which on the picture unit takes writes to its
/// control, mask, scroll and address registers.
pub const PPU_WARM_UP_CYCLES: u64 = 29658;

/// The upper bits that a read of a controller port carries.
pub const OPEN_BUS: u8 = 0x40;

/// The two controllers. Bit 0 of a state is A, then B, Select, Start, Up,
/// Down, Left and Right.
#[derive(Debug, Clone, Copy)]
pub struct Controllers {
    /// The strobe: while it is high the latches follow the buttons.
    pub reload_controller_state: bool,
    /// Last state of controller 1 that the host reported.
    pub controller1_state: u8,
    /// Latch of controller 1.
    pub controller1_register: u8,
    /// Reads of controller 1 since the strobe went low, up to 8.
    pub controller1_read_count: u16,
    /// Last state of controller 2 that the host reported.
    pub controller2_state: u8,
    /// Latch of controller 2.
    pub controller2_register: u8,
    /// Reads of controller 2 since the strobe went low, up to 8.
    pub controller2_read_count: u16,
}

impl Controllers {
    /// What a read of a port returns, given the strobe, the host's state,
    /// the latch and the count of reads: the state of button A while the
    /// strobe is high, the lowest bit of the latch for the first eight
    /// reads after it went low, and 1 from then on.
    pub open spec fn port_value(strobe: bool, state: u8, register: u8, count: u16) -> u8 {
        if strobe {
            OPEN_BUS | (state & 0x1)
        } else if count >= 8 {
            0x41
        } else {
            OPEN_BUS | (register & 0x1)
        }
    }

    pub open spec fn read1_value(self) -> u8 {
        Self::port_value(
            self.reload_controller_state,
            self.controller1_state,
            self.controller1_register,
            self.controller1_read_count,
        )
    }

    pub open spec fn read2_value(self) -> u8 {
        Self::port_value(
            self.reload_controller_state,
            self.controller2_state,
            self.controller2_register,
            self.controller2_read_count,
        )
    }

    /// The controllers after a read of port 1: with the strobe low and
    /// fewer than eight reads made, the latch moved on by one bit.
    pub open spec fn after_read1(self) -> Controllers {
        if self.reload_controller_state || self.controller1_read_count >= 8 {
            self
        } else {
            Controllers {
                controller1_register: self.controller1_register >> 1,
                controller1_read_count: (self.controller1_read_count + 1) as u16,
                ..self
            }
        }
    }

    /// The controllers after a read of port 2.
    pub open spec fn after_read2(self) -> Controllers {
        if self.reload_controller_state || self.controller2_read_count >= 8 {
            self
        } else {
            Controllers {
                controller2_register: self.controller2_register >> 1,
                controller2_read_count: (self.controller2_read_count + 1) as u16,
                ..self
            }
        }
    }

    /// The controllers after `value` was written to the strobe port: bit
    /// 0 is the strobe, and a write that takes it down loads both latches
    /// and starts the counting anew.
    pub open spec fn after_strobe(self, value: u8) -> Controllers {
        if bit_set(0, value) {
            Controllers { reload_controller_state: true, ..self }
        } else {
            Controllers {
                reload_controller_state: false,
                controller1_register: self.controller1_state,
                controller1_read_count: 0,
                controller2_register: self.controller2_state,
                controller2_read_count: 0,
                ..self
            }
        }
    }

    /// The controllers at power-on: the strobe is high, no button is
    /// down.
    pub open spec fn at_rest() -> Controllers {
        Controllers {
            reload_controller_state: true,
            controller1_state: 0,
            controller1_register: 0,
            controller1_read_count: 0,
            controller2_state: 0,
            controller2_register: 0,
            controller2_read_count: 0,
        }
    }

    pub fn new() -> (r: Self)
        ensures
            r == Self::at_rest(),
    {
        Controllers {
            reload_controller_state: true,
            controller1_state: 0,
            controller1_register: 0,
            controller1_read_count: 0,
            controller2_state: 0,
            controller2_register: 0,
            controller2_read_count: 0,
        }
    }
}

/// The controllers after `n` reads of port 1.
pub open spec fn after_reads1(c: Controllers, n: nat) -> Controllers
    decreases n,
{
    if n == 0 {
        c
    } else {
        after_reads1(c, (n - 1) as nat).after_read1()
    }
}

/// Moving a byte to the right bit by bit is moving it at once.
pub proof fn lemma_shift_right_again(value: u8, n: u8)
    by (bit_vector)
    requires
        n < 8,
    ensures
        (value >> n) >> 1u8 == value >> ((n + 1) as u8),
        value >> 0u8 == value,
{
}

/// After the strobe went down, the reads of port 1 give the buttons of
/// controller 1 one by one, A first, in bit 0 under the open bus bits, and
/// after the eighth they give 1.
pub proof fn lemma_controller_reads(c: Controllers, value: u8, n: nat)
    requires
        !bit_set(0, value),
    ensures
        n < 8 ==> after_reads1(c.after_strobe(value), n).read1_value() == OPEN_BUS | ((
        c.controller1_state >> (n as u8)) & 1),
        n >= 8 ==> after_reads1(c.after_strobe(value), n).read1_value() == 0x41,
        after_reads1(c.after_strobe(value), n).controller1_read_count == if n < 8 {
            n
        } else {
            8
        },
        n <= 8 ==> after_reads1(c.after_strobe(value), n).controller1_register
            == c.controller1_state >> (n as u8),
        !after_reads1(c.after_strobe(value), n).reload_controller_state,
    decreases n,
{
    if n > 0 {
        lemma_controller_reads(c, value, (n - 1) as nat);
        if n <= 8 {
            lemma_shift_right_again(c.controller1_state, (n - 1) as u8);
        }
    } else {
        lemma_shift_right_again(c.controller1_state, 0);
    }
}

/// Where an address of the processor lands: the 2 KiB of RAM repeat up to
/// 0x1FFF, the eight ports of the picture unit up to 0x3FFF.
pub open spec fn cpu_effective_address(addr: u16) -> u16 {
    if addr < 0x2000 {
        (addr % 0x0800) as u16
    } else if addr < 0x4000 {
        ((addr & 7) + 0x2000) as u16
    } else {
        addr
    }
}

/// The masks that fold the mirrors do what `cpu_effective_address` says.
pub proof fn lemma_mirror_masks(addr: u16)
    by (bit_vector)
    ensures
        addr < 0x2000 ==> addr & 0x07FF == addr % 0x0800,
        0x2000 <= addr < 0x4000 ==> addr & 0x2007 == (addr & 7) + 0x2000,
        addr & 7 == addr % 8,
        (addr & 7) + 0x2000 <= 0x2007,
        addr % 256 == 0 ==> addr & 7 == 0,
        addr % 256 == 0 ==> (addr % 0x0800) % 256 == 0,
{
}

/// What a `NesState` holds: the view of its mapper, its picture unit and
/// its controllers.
pub struct BusView<V> {
    pub mapper: V,
    pub ppu: Ppu,
    pub pads: Controllers,
}

/// Whether the picture unit stands on the same dot of the same frame on
/// both buses: no access of the processor moves it.
pub open spec fn same_dots<V>(before: BusView<V>, after: BusView<V>) -> bool {
    &&& after.ppu.total_cycle_count == before.ppu.total_cycle_count
    &&& after.ppu.frame == before.ppu.frame
    &&& after.ppu.scanline == before.ppu.scanline
    &&& after.ppu.scanline_cycle == before.ppu.scanline_cycle
}

/// Manages reads and writes of the processor, handing them to the picture
/// unit, to the controllers or to the cartridge as the address says.
pub struct NesState<M: Mapper> {
    pub mapper: M,
    pub ppu: Ppu,
    pub pads: Controllers,
}

impl<M: Mapper> View for NesState<M> {
    type V = BusView<M::V>;

    open spec fn view(&self) -> BusView<M::V> {
        BusView { mapper: self.mapper@, ppu: self.ppu, pads: self.pads }
    }
}

impl<M: Mapper> NesState<M> {
    /// What holds of a bus between any two operations.
    pub open spec fn wf(b: BusView<M::V>) -> bool {
        M::wf(b.mapper) && b.ppu.inv()
    }

    pub open spec fn inv(&self) -> bool {
        Self::wf(self@)
    }

    /// The byte that the processor reads at `addr`.
    pub open spec fn read_value(b: BusView<M::V>, addr: u16) -> u8 {
        let a = cpu_effective_address(addr);
        if a == 0x2002 {
            b.ppu.reg.ppu_status
        } else if a == 0x2004 {
            b.ppu.oam_data()
        } else if a == 0x2007 {
            b.ppu.ppu_data::<M>(b.mapper)
        } else if a == 0x4016 {
            b.pads.read1_value()
        } else if a == 0x4017 {
            b.pads.read2_value()
        } else {
            M::cpu_read_spec(b.mapper, a)
        }
    }

    /// The bus after the processor read at `addr`: a read of the status
    /// port, of the data port or of a controller leaves its mark.
    pub open spec fn after_read(b: BusView<M::V>, addr: u16) -> BusView<M::V> {
        let a = cpu_effective_address(addr);
        if a == 0x2002 {
            BusView { ppu: b.ppu.after_read_2002(), ..b }
        } else if a == 0x2007 {
            BusView { ppu: b.ppu.after_read_2007::<M>(b.mapper), ..b }
        } else if a == 0x4016 {
            BusView { pads: b.pads.after_read1(), ..b }
        } else if a == 0x4017 {
            BusView { pads: b.pads.after_read2(), ..b }
        } else {
            b
        }
    }

    /// The word that the cartridge holds at `addr`, low byte first; the
    /// high byte comes from the address after, 0 after 0xFFFF.
    pub open spec fn read_word_value(b: BusView<M::V>, addr: u16) -> u16 {
        let a = cpu_effective_address(addr);
        word(
            M::cpu_read_spec(b.mapper, a),
            M::cpu_read_spec(b.mapper, ((a + 1) % 0x10000) as u16),
        )
    }

    /// The first address of the page that a sprite DMA of page `value`
    /// copies.
    pub open spec fn dma_start(value: u8) -> u16 {
        cpu_effective_address((value as int * 256) as u16)
    }

    /// The bus after the processor wrote `value` to `addr` while its
    /// cycle counter stood at `cycle_count`. The ports 0x2000, 0x2001,
    /// 0x2005 and 0x2006 take no write until the picture unit has warmed
    /// up; a write to 0x4014 copies a page into OAM.
    #[verifier::opaque]
    pub open spec fn after_write(b: BusView<M::V>, addr: u16, value: u8, cycle_count: u64) -> BusView<
        M::V,
    > {
        let a = cpu_effective_address(addr);
        let ppu_ready = cycle_count > PPU_WARM_UP_CYCLES;
        if a == 0x2000 {
            if ppu_ready {
                BusView { ppu: b.ppu.after_write_2000(value), ..b }
            } else {
                b
            }
        } else if a == 0x2001 {
            if ppu_ready {
                BusView { ppu: b.ppu.after_write_2001(value), ..b }
            } else {
                b
            }
        } else if a == 0x2003 {
            BusView { ppu: b.ppu.after_write_2003(value), ..b }
        } else if a == 0x2004 {
            BusView { ppu: b.ppu.after_write_2004(value), ..b }
        } else if a == 0x2005 {
            if ppu_ready {
                BusView { ppu: b.ppu.after_write_2005(value), ..b }
            } else {
                b
            }
        } else if a == 0x2006 {
            if ppu_ready {
                BusView { ppu: b.ppu.after_write_2006(value), ..b }
            } else {
                b
            }
        } else if a == 0x2007 {
            BusView {
                mapper: M::ppu_write_spec(b.mapper, b.ppu.reg.v, value),
                ppu: b.ppu.with_v_advanced(),
                ..b
            }
        } else if a == 0x4014 {
            BusView {
                ppu: b.ppu.after_oam_dma(M::dma_page_spec(b.mapper, Self::dma_start(value))),
                ..b
            }
        } else if a == 0x4016 {
            BusView { pads: b.pads.after_strobe(value), ..b }
        } else {
            BusView { mapper: M::cpu_write_spec(b.mapper, a, value), ..b }
        }
    }

    /// The bus after the picture unit ran for one dot.
    pub open spec fn after_ppu_cycle(b: BusView<M::V>) -> BusView<M::V> {
        BusView { ppu: b.ppu.after_cycle::<M>(b.mapper).0, ..b }
    }

    /// Joins a cartridge and a picture unit; the strobe is high and no
    /// button is down.
    pub fn new(mapper: M, ppu: Ppu) -> (r: Self)
        requires
            M::wf(mapper@),
            ppu.inv(),
        ensures
            r.inv(),
            r@ == (BusView { mapper: mapper@, ppu, pads: Controllers::at_rest() }),
    {
        Self { mapper, ppu, pads: Controllers::new() }
    }

    /// Folds the mirrors of RAM and of the ports of the picture unit.
    pub fn get_cpu_effective_address(&self, addr: u16) -> (r: u16)
        ensures
            r == cpu_effective_address(addr),
            0x2000 <= addr <= 0x3FFF ==> r == (addr & 7) + 0x2000,
            0x2000 <= addr <= 0x3FFF ==> r == 0x2000 + addr % 8,
            addr < 0x2000 ==> r == addr % 0x0800,
            addr > 0x3FFF ==> r == addr,
    {
        proof {
            lemma_mirror_masks(addr);
        }
        if addr <= 0x1FFF {
            addr & 0x07FF
        } else if addr <= 0x3FFF {
            addr & 0x2007
        } else {
            addr
        }
    }

    /// Reads a byte for the processor.
    #[verifier::rlimit(40)]
    pub fn cpu_mem_read(&mut self, _cycle: u64, addr: u16) -> (r: u8)
        requires
            old(self).inv(),
        ensures
            final(self).inv(),
            r == Self::read_value(old(self)@, addr),
            final(self)@ == Self::after_read(old(self)@, addr),
            same_dots(old(self)@, final(self)@),
    {
        let addr: u16 = self.get_cpu_effective_address(addr);
        if addr == 0x2002 {
            self.ppu.read_2002_ppustatus()
        } else if addr == 0x2004 {
            self.ppu.read_2004_oamdata()
        } else if addr == 0x2007 {
            self.ppu.read_2007_ppudata(&self.mapper)
        } else if addr == 0x4016 {
            self.read_controller1()
        } else if addr == 0x4017 {
            self.read_controller2()
        } else {
            self.mapper.cpu_read(addr)
        }
    }

    /// Reads a 16-bit value straight from the cartridge.
    pub fn cpu_mem_read_word(&self, addr: u16) -> (r: u16)
        requires
            self.inv(),
        ensures
            r == Self::read_word_value(self@, addr),
    {
        let addr: u16 = self.get_cpu_effective_address(addr);
        let lsb: u8 = self.mapper.cpu_read(addr);
        let msb: u8 = self.mapper.cpu_read(addr.wrapping_add(1));
        make_word(lsb, msb)
    }

    /// Writes a byte for the processor, to a port of the picture unit, to
    /// the strobe of the controllers or to the cartridge.
    #[verifier::rlimit(40)]
    pub fn cpu_mem_write(&mut self, addr: u16, value: u8, cycle_count: u64)
        requires
            old(self).inv(),
        ensures
            final(self).inv(),
            final(self)@ == Self::after_write(old(self)@, addr, value, cycle_count),
            same_dots(old(self)@, final(self)@),
    {
        reveal(NesState::after_write);
        let addr: u16 = self.get_cpu_effective_address(addr);
        // The picture unit ignores some writes while it warms up.
        let ppu_ready: bool = cycle_count > PPU_WARM_UP_CYCLES;
        if addr == 0x2000 {
            if ppu_ready {
                self.ppu.write_2000_ppuctrl(value);
            }
        } else if addr == 0x2001 {
            if ppu_ready {
                self.ppu.write_2001_ppumask(value);
            }
        } else if addr == 0x2003 {
            self.ppu.write_2003_oamaddr(value);
        } else if addr == 0x2004 {
            self.ppu.write_2004_oamdata(value);
        } else if addr == 0x2005 {
            if ppu_ready {
                self.ppu.write_2005_ppuscroll(value);
            }
        } else if addr == 0x2006 {
            if ppu_ready {
                self.ppu.write_2006_ppuaddr(value);
            }
        } else if addr == 0x2007 {
            self.ppu.write_2007_ppudata(value, &mut self.mapper);
        } else if addr == 0x4014 {
            // Sprite DMA
            let page_start: u16 = (value as u16) * 256;
            proof {
                lemma_mirror_masks(page_start);
            }
            let dma_start: u16 = self.get_cpu_effective_address(page_start);
            let dma_slice: &[u8] = self.mapper.get_cpu_dma_slice(dma_start);
            self.ppu.oam_dma(dma_slice);
        } else if addr == 0x4016 {
            self.handle_controller_strobe(value);
        } else {
            self.mapper.cpu_write(addr, value);
        }
    }

    /// Reads a byte for the picture unit.
    pub fn ppu_mem_read(&self, addr: u16) -> (r: u8)
        requires
            self.inv(),
        ensures
            r == M::ppu_read_spec(self@.mapper, addr),
    {
        self.mapper.ppu_read(addr)
    }

    /// Runs the picture unit for one dot.
    pub fn ppu_cycle(&mut self) -> (r: PpuCycleResult)
        requires
            old(self).inv(),
            old(self).ppu.has_room(),
        ensures
            final(self).inv(),
            final(self)@ == Self::after_ppu_cycle(old(self)@),
            r == old(self).ppu.after_cycle::<M>(old(self)@.mapper).1,
            final(self).ppu.total_cycle_count == old(self).ppu.total_cycle_count + 1,
            old(self).ppu.frame <= final(self).ppu.frame <= old(self).ppu.frame + 1,
            final(self).pads == old(self).pads,
    {
        self.ppu.cycle(&self.mapper)
    }

    pub fn handle_controller_strobe(&mut self, value_written: u8)
        ensures
            final(self).pads == old(self).pads.after_strobe(value_written),
            final(self).mapper == old(self).mapper,
            final(self).ppu == old(self).ppu,
    {
        if bit_is_set(0, value_written) {
            self.pads.reload_controller_state = true;
        } else {
            self.pads.reload_controller_state = false;
            self.pads.controller1_register = self.pads.controller1_state;
            self.pads.controller1_read_count = 0;
            self.pads.controller2_register = self.pads.controller2_state;
            self.pads.controller2_read_count = 0;
        }
    }

    /// Takes the state of controller 1 from the host.
    pub fn set_controller1_state(&mut self, controller_state: u8)
        ensures
            final(self).pads == (Controllers {
                controller1_state: controller_state,
                ..old(self).pads
            }),
            final(self).mapper == old(self).mapper,
            final(self).ppu == old(self).ppu,
    {
        self.pads.controller1_state = controller_state;
    }

    /// Takes the state of controller 2 from the host.
    pub fn set_controller2_state(&mut self, controller_state: u8)
        ensures
            final(self).pads == (Controllers {
                controller2_state: controller_state,
                ..old(self).pads
            }),
            final(self).mapper == old(self).mapper,
            final(self).ppu == old(self).ppu,
    {
        self.pads.controller2_state = controller_state;
    }

    pub fn read_controller1(&mut self) -> (r: u8)
        ensures
            r == old(self).pads.read1_value(),
            final(self).pads == old(self).pads.after_read1(),
            final(self).mapper == old(self).mapper,
            final(self).ppu == old(self).ppu,
    {
        if self.pads.reload_controller_state {
            0x40 | (self.pads.controller1_state & 0x1)
        } else if self.pads.controller1_read_count >= 8 {
            // All eight buttons are out: the port reads 1.
            0x41
        } else {
            self.pads.controller1_read_count = self.pads.controller1_read_count + 1;
            let button_value: u8 = self.pads.controller1_register & 0x1;
            self.pads.controller1_register = self.pads.controller1_register >> 1;
            0x40 | button_value
        }
    }

    pub fn read_controller2(&mut self) -> (r: u8)
        ensures
            r == old(self).pads.read2_value(),
            final(self).pads == old(self).pads.after_read2(),
            final(self).mapper == old(self).mapper,
            final(self).ppu == old(self).ppu,
    {
        if self.pads.reload_controller_state {
            0x40 | (self.pads.controller2_state & 0x1)
        } else if self.pads.controller2_read_count >= 8 {
            0x41
        } else {
            self.pads.controller2_read_count = self.pads.controller2_read_count + 1;
            let button_value: u8 = self.pads.controller2_register & 0x1;
            self.pads.controller2_register = self.pads.controller2_register >> 1;
            0x40 | button_value
        }
    }

    /// Ends the run: hands out what the cartridge wants kept.
    pub fn shutdown(&mut self) -> (r: Option<Vec<u8>>)
        requires
            old(self).inv(),
        ensures
            final(self).inv(),
            final(self)@ == old(self)@,
            match r {
                Some(bytes) => M::saved_ram(old(self)@.mapper) == Some(bytes@),
                None => M::saved_ram(old(self)@.mapper) is None,
            },
    {
        self.mapper.shutdown()
    }
}

/// A write to any mirror of a port of the picture unit, from 0x2008 to
/// 0x3FFF, is a write to the port `(addr & 7) + 0x2000`, and a read there
/// is a read of that port.
#[verifier::rlimit(40)]
pub proof fn lemma_port_mirrors<M: Mapper>(b: BusView<M::V>, addr: u16, value: u8, cycle_count: u64)
    requires
        0x2008 <= addr <= 0x3FFF,
    ensures
        0x2000 <= (addr & 7) + 0x2000 <= 0x2007,
        NesState::<M>::after_write(b, addr, value, cycle_count) == NesState::<M>::after_write(
            b,
            ((addr & 7) + 0x2000) as u16,
            value,
            cycle_count,
        ),
        NesState::<M>::read_value(b, addr) == NesState::<M>::read_value(
            b,
            ((addr & 7) + 0x2000) as u16,
        ),
        NesState::<M>::after_read(b, addr) == NesState::<M>::after_read(
            b,
            ((addr & 7) + 0x2000) as u16,
        ),
{
    reveal(NesState::after_write);
    lemma_mirror_masks(addr);
    let base = ((addr & 7) + 0x2000) as u16;
    lemma_mirror_masks(base);
    assert((base & 7) == (addr & 7)) by (bit_vector)
        requires
            base == (addr & 7) + 0x2000,
    ;
}

/// A byte that the processor writes to RAM is what it reads there next,
/// at the address itself and at each of its mirrors; every other cell of
/// RAM reads as before. Neither the write nor a read of RAM touches the
/// picture unit or the controllers.
pub proof fn lemma_ram_write_read<M: Mapper>(
    b: BusView<M::V>,
    addr: u16,
    value: u8,
    cycle_count: u64,
    other: u16,
)
    requires
        NesState::<M>::wf(b),
        addr < 0x2000,
        other < 0x2000,
    ensures
        NesState::<M>::read_value(
            NesState::<M>::after_write(b, addr, value, cycle_count),
            other,
        ) == if other % 0x0800 == addr % 0x0800 {
            value
        } else {
            NesState::<M>::read_value(b, other)
        },
        NesState::<M>::after_write(b, addr, value, cycle_count).ppu == b.ppu,
        NesState::<M>::after_write(b, addr, value, cycle_count).pads == b.pads,
        NesState::<M>::wf(NesState::<M>::after_write(b, addr, value, cycle_count)),
        NesState::<M>::after_read(b, other) == b,
{
    reveal(NesState::after_write);
    M::lemma_ram(b.mapper, (addr % 0x0800) as u16, value, (other % 0x0800) as u16);
}

} // verus!
