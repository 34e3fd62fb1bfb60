//! The machine as a whole: the processor and the bus in step. One step is
//! one instruction of the processor and three dots of the picture unit for
//! each of its cycles; the host shows the picture and reads the buttons
//! between steps.

use vstd::prelude::*;
use crate::cpu::run::MAX_STEP_CYCLES;
use crate::cpu::{Cpu, CpuError};
use crate::mappers::Mapper;
use crate::ppu::{Ppu, PpuCycleResult};
use crate::state::{BusView, Controllers, NesState};
use crate::video::{with_pixel, FrameBuffer};

verus! {

/// Cycles that the reset of the processor takes.
pub const RESET_CYCLES: u64 = 7;

/// Dots of the picture unit to a cycle of the processor.
pub const DOTS_PER_CYCLE: u64 = 3;

/// The dot of the scanline before the picture on which a frame is handed
/// to the host.
pub const FRAME_READY_DOT: u16 = 2;

/// The highest count of cycles from which the machine still steps: three
/// times as many dots fit the counter of the picture unit.
pub const MAX_CONSOLE_CYCLES: u64 = 0x4000_0000_0000_0000;

/// What a step amounted to.
#[derive(Debug, Clone, Copy, PartialEq, Eq, Structural)]
pub struct StepReport {
    /// Cycles of the processor that the step took.
    pub cycles: u64,
    /// Whether the picture of a frame was completed during the step.
    pub frame_ready: bool,
}

/// The machine between two dots of a step.
pub struct Dots<V> {
    pub cpu: Cpu,
    pub bus: BusView<V>,
    /// The bytes of the picture.
    pub screen: Seq<u8>,
    /// Whether a frame was completed.
    pub frame_ready: bool,
}

/// The machine after one dot of the picture unit: a pixel goes into the
/// picture, the start of vertical blanking asks the processor for an
/// interrupt where the picture unit wants one, and dot 2 of the scanline
/// before the picture completes a frame.
pub open spec fn after_dot<M: Mapper>(d: Dots<M::V>) -> Dots<M::V> {
    let bus = NesState::<M>::after_ppu_cycle(d.bus);
    match d.bus.ppu.after_cycle::<M>(d.bus.mapper).1 {
        PpuCycleResult::Pixel { scanline, x, color } => Dots {
            bus,
            screen: with_pixel(d.screen, x, scanline, color),
            ..d
        },
        PpuCycleResult::VBlankLine { trigger_nmi, scanline } => Dots {
            bus,
            cpu: if trigger_nmi {
                Cpu { nmi_pending: true, ..d.cpu }
            } else {
                d.cpu
            },
            ..d
        },
        PpuCycleResult::PreRenderLine { scanline_cycle } => Dots {
            bus,
            frame_ready: d.frame_ready || scanline_cycle == FRAME_READY_DOT,
            ..d
        },
        _ => Dots { bus, ..d },
    }
}

/// The machine after `n` dots of the picture unit.
pub open spec fn after_dots<M: Mapper>(d: Dots<M::V>, n: nat) -> Dots<M::V>
    decreases n,
{
    if n == 0 {
        d
    } else {
        after_dot::<M>(after_dots::<M>(d, (n - 1) as nat))
    }
}

/// The processor and the bus, kept in step.
pub struct Console<M: Mapper> {
    pub cpu: Cpu,
    pub state: NesState<M>,
}

impl<M: Mapper> Console<M> {
    /// The dots that the picture unit has run.
    pub open spec fn ppu_dots(&self) -> int {
        self.state.ppu.total_cycle_count as int
    }

    /// The cycles that the processor has spent on instructions.
    pub open spec fn cpu_cycles(&self) -> int {
        self.cpu.cycle_count - RESET_CYCLES
    }

    /// The picture unit has run three dots for every cycle that the
    /// processor spent on instructions, and 21 for the seven cycles of
    /// its reset.
    pub open spec fn in_step(&self) -> bool {
        self.ppu_dots() == 3 * self.cpu_cycles() + 21
    }

    /// What holds of the machine between any two steps.
    pub open spec fn inv(&self) -> bool {
        &&& self.state.inv()
        &&& self.cpu.cycle_count >= RESET_CYCLES
        &&& self.in_step()
        &&& self.state.ppu.frame <= self.state.ppu.total_cycle_count
    }

    /// The machine as `Dots`, with a picture and no frame completed.
    pub open spec fn dots(&self, screen: Seq<u8>) -> Dots<M::V> {
        Dots { cpu: self.cpu, bus: self.state@, screen, frame_ready: false }
    }

    /// Runs the picture unit for `n` dots and does what their results
    /// ask for. It returns whether a frame was completed.
    #[verifier::rlimit(40)]
    pub fn run_dots(&mut self, screen: &mut FrameBuffer, n: u64) -> (frame_ready: bool)
        requires
            old(self).state.inv(),
            old(screen).inv(),
            old(self).state.ppu.total_cycle_count + n < u64::MAX,
            old(self).state.ppu.frame <= old(self).state.ppu.total_cycle_count,
        ensures
            final(self).state.inv(),
            final(screen).inv(),
            after_dots::<M>(old(self).dots(old(screen)@), n as nat) == (Dots {
                cpu: final(self).cpu,
                bus: final(self).state@,
                screen: final(screen)@,
                frame_ready,
            }),
            final(self).state.ppu.total_cycle_count == old(self).state.ppu.total_cycle_count + n,
            final(self).state.ppu.frame <= final(self).state.ppu.total_cycle_count,
            final(self).cpu == (Cpu { nmi_pending: final(self).cpu.nmi_pending, ..old(self).cpu }),
    {
        let mut frame_ready: bool = false;
        let mut i: u64 = 0;
        while i < n
            invariant
                i <= n,
                self.state.inv(),
                screen.inv(),
                old(self).state.ppu.total_cycle_count + n < u64::MAX,
                self.state.ppu.total_cycle_count == old(self).state.ppu.total_cycle_count + i,
                self.state.ppu.frame <= self.state.ppu.total_cycle_count,
                self.cpu == (Cpu { nmi_pending: self.cpu.nmi_pending, ..old(self).cpu }),
                after_dots::<M>(old(self).dots(old(screen)@), i as nat) == (Dots {
                    cpu: self.cpu,
                    bus: self.state@,
                    screen: screen@,
                    frame_ready,
                }),
            decreases n - i,
        {
            let ppu_result: PpuCycleResult = self.state.ppu_cycle();
            match ppu_result {
                PpuCycleResult::Idle => (),
                PpuCycleResult::Pixel { scanline, x, color } => {
                    screen.set_pixel(x, scanline, color);
                },
                PpuCycleResult::HBlank { scanline, cycle } => (),
                PpuCycleResult::PostRenderLine => (),
                PpuCycleResult::VBlankLine { trigger_nmi, scanline } => {
                    if trigger_nmi {
                        self.cpu.request_nmi();
                    }
                },
                PpuCycleResult::PreRenderLine { scanline_cycle } => {
                    // Dot 2 of this scanline is where the host shows the
                    // frame and paces itself.
                    if scanline_cycle == FRAME_READY_DOT {
                        frame_ready = true;
                    }
                },
            }
            i = i + 1;
        }
        frame_ready
    }

    /// Switches the machine on: the picture unit starts on the scanline
    /// before the picture, the processor takes its program counter from
    /// the reset vector, and the picture unit runs the 21 dots of the
    /// processor's reset. What those dots would draw or ask for is lost.
    #[verifier::rlimit(40)]
    pub fn new(mapper: M) -> (r: Self)
        requires
            M::wf(mapper@),
        ensures
            r.inv(),
            r.ppu_dots() == 21,
            r.cpu_cycles() == 0,
            r.cpu == Cpu::powered_on(
                NesState::<M>::read_word_value(
                    BusView { mapper: mapper@, ppu: r.state.ppu, pads: Controllers::at_rest() },
                    0xFFFC,
                ),
            ),
            r.state@.mapper == mapper@,
            r.state@.pads == Controllers::at_rest(),
            forall|p: Ppu| #[trigger] p.fresh() ==> r.state.ppu == p.ran_dots::<M>(mapper@, 21),
    {
        let ppu = Ppu::new();
        let ghost start = ppu;
        let state = NesState::new(mapper, ppu);
        let cpu = Cpu::new(&state);
        let mut console = Self { cpu, state };
        let mut i: u64 = 0;
        while i < 21
            invariant
                i <= 21,
                console.state.inv(),
                console.state.ppu.total_cycle_count == i,
                console.state.ppu.frame <= console.state.ppu.total_cycle_count,
                console.state@.mapper == mapper@,
                console.state@.pads == Controllers::at_rest(),
                console.state.ppu == start.ran_dots::<M>(mapper@, i as nat),
                console.cpu == Cpu::powered_on(
                    NesState::<M>::read_word_value(
                        BusView {
                            mapper: mapper@,
                            ppu: console.state.ppu,
                            pads: Controllers::at_rest(),
                        },
                        0xFFFC,
                    ),
                ),
            decreases 21 - i,
        {
            let _ = console.state.ppu_cycle();
            i = i + 1;
        }
        proof {
            assert forall|p: Ppu| #[trigger] p.fresh() implies console.state.ppu == p.ran_dots::<M>(
                mapper@,
                21,
            ) by {
                start.lemma_fresh_is_unique(p);
            }
        }
        console
    }

    /// Makes one step: one instruction of the processor, then three dots
    /// of the picture unit for each cycle that it took. Pixels go into
    /// `screen`. An opcode that is not implemented stops the machine
    /// before any dot.
    #[verifier::rlimit(40)]
    pub fn step(&mut self, screen: &mut FrameBuffer) -> (r: Result<StepReport, CpuError>)
        requires
            old(self).inv(),
            old(screen).inv(),
            old(self).cpu.cycle_count <= MAX_CONSOLE_CYCLES,
        ensures
            final(self).inv(),
            final(screen).inv(),
            match r {
                Ok(report) => {
                    let stepped = old(self).cpu.after_step::<M>(old(self).state@);
                    &&& stepped.0 == Some(report.cycles as int)
                    &&& after_dots::<M>(
                        Dots {
                            cpu: stepped.1,
                            bus: stepped.2,
                            screen: old(screen)@,
                            frame_ready: false,
                        },
                        (3 * report.cycles) as nat,
                    ) == (Dots {
                        cpu: final(self).cpu,
                        bus: final(self).state@,
                        screen: final(screen)@,
                        frame_ready: report.frame_ready,
                    })
                    &&& 2 <= report.cycles <= MAX_STEP_CYCLES
                    &&& final(self).cpu_cycles() == old(self).cpu_cycles() + report.cycles
                    &&& final(self).ppu_dots() == old(self).ppu_dots() + 3 * report.cycles
                },
                Err(e) => {
                    let stepped = old(self).cpu.after_step::<M>(old(self).state@);
                    &&& stepped.0 is None
                    &&& e == CpuError::UnimplementedOpcode
                    &&& final(self).cpu == stepped.1
                    &&& final(self).state@ == stepped.2
                    &&& final(screen)@ == old(screen)@
                },
            },
    {
        match self.cpu.step(&mut self.state) {
            Ok(cycles) => {
                let frame_ready: bool = self.run_dots(screen, DOTS_PER_CYCLE * cycles);
                Ok(StepReport { cycles, frame_ready })
            },
            Err(e) => Err(e),
        }
    }

    /// Ends the run: hands out what the cartridge wants kept.
    pub fn shutdown(&mut self) -> (r: Option<Vec<u8>>)
        requires
            old(self).inv(),
        ensures
            final(self).inv(),
            final(self).cpu == old(self).cpu,
            final(self).state@ == old(self).state@,
            match r {
                Some(bytes) => M::saved_ram(old(self).state@.mapper) == Some(bytes@),
                None => M::saved_ram(old(self).state@.mapper) is None,
            },
    {
        self.state.shutdown()
    }
}

} // verus!
