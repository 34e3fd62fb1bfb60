use retrobrite::console::{Console, StepReport};
use retrobrite::cpu::CpuError;
use retrobrite::ines::InesRom;
use retrobrite::input::{button_mask, Button, HostEvent, InputState};
use retrobrite::mappers::m000_nrom::NromMapper;
use retrobrite::mappers::Mapper;
use retrobrite::mem::{Memory, PpuMemory};
use retrobrite::ppu::Ppu;
use retrobrite::state::{Controllers, NesState};
use retrobrite::video::{palette_rgb, FrameBuffer};

/// A mapper 0 cartridge whose ROM holds `pieces` at the given addresses of
/// 0xC000-0xFFFF, with CHR RAM.
fn cartridge(pieces: &[(u16, &[u8])]) -> NromMapper {
    let mut image = vec![0x4E, 0x45, 0x53, 0x1A, 1, 0, 0, 0, 0, 0, 0, 0, 0, 0, 0, 0];
    let mut bank = vec![0u8; 16384];
    for (addr, bytes) in pieces {
        let start = (*addr - 0xC000) as usize;
        bank[start..start + bytes.len()].copy_from_slice(bytes);
    }
    image.extend_from_slice(&bank);
    let rom = InesRom::from_buffer(&image).unwrap();
    let mut mapper = retrobrite::mappers::m000_nrom::new(Memory::new_cpu(), PpuMemory::new());
    mapper.load_rom(&rom).unwrap();
    mapper
}

fn bus() -> NesState<NromMapper> {
    NesState::new(cartridge(&[]), Ppu::new())
}

/// A cycle count beyond the warm-up of the picture unit.
const WARM: u64 = 30000;

#[test]
fn ram_is_mirrored_every_2_kib() {
    let mut mc = bus();
    mc.cpu_mem_write(0x0005, 0x99, 0);
    assert_eq!(mc.cpu_mem_read(0, 0x0805), 0x99);
    assert_eq!(mc.cpu_mem_read(0, 0x1005), 0x99);
    assert_eq!(mc.cpu_mem_read(0, 0x1805), 0x99);
    mc.cpu_mem_write(0x1FFF, 0x77, 0);
    assert_eq!(mc.cpu_mem_read(0, 0x07FF), 0x77);
    assert_eq!(mc.get_cpu_effective_address(0x1234), 0x0234);
    assert_eq!(mc.get_cpu_effective_address(0x4020), 0x4020);
    assert_eq!(mc.get_cpu_effective_address(0xFFFF), 0xFFFF);
}

#[test]
fn ppu_ports_are_mirrored_every_8_bytes() {
    let mut mc = bus();
    for addr in [0x2008u16, 0x2FF9, 0x3456, 0x3FFF] {
        assert_eq!(mc.get_cpu_effective_address(addr), (addr & 7) + 0x2000);
    }
    // 0x3FFE is the address port, 0x3FFF the data port.
    mc.cpu_mem_write(0x3FFE, 0x21, WARM);
    mc.cpu_mem_write(0x200E, 0x08, WARM);
    assert_eq!(mc.ppu.reg.v, 0x2108);
    mc.cpu_mem_write(0x3FFF, 0xAB, WARM);
    assert_eq!(mc.ppu_mem_read(0x2108), 0xAB);
    assert_eq!(mc.ppu.reg.v, 0x2109);
    // 0x3FFB is the OAM address port, 0x2FFC the OAM data port.
    mc.cpu_mem_write(0x3FFB, 0x10, 0);
    mc.cpu_mem_write(0x2FFC, 0x5A, 0);
    assert_eq!(mc.ppu.oam[0x10], 0x5A);
    assert_eq!(mc.cpu_mem_read(0, 0x200C), 0x00);
    mc.cpu_mem_write(0x2003, 0x10, 0);
    assert_eq!(mc.cpu_mem_read(0, 0x3FFC), 0x5A);
}

#[test]
fn some_ports_wait_for_the_warm_up() {
    let mut mc = bus();
    mc.cpu_mem_write(0x2000, 0x80, 29658);
    mc.cpu_mem_write(0x2001, 0x08, 100);
    mc.cpu_mem_write(0x2005, 0xFF, 100);
    mc.cpu_mem_write(0x2006, 0x21, 100);
    assert!(!mc.ppu.reg.ppu_ctrl.generate_nmi);
    assert!(!mc.ppu.reg.ppu_mask.render_bg);
    assert_eq!(mc.ppu.reg.t, 0);
    assert_eq!(mc.ppu.reg.x, 0);
    mc.cpu_mem_write(0x2000, 0x80, 29659);
    assert!(mc.ppu.reg.ppu_ctrl.generate_nmi);
    mc.cpu_mem_write(0x2001, 0x08, WARM);
    assert!(mc.ppu.reg.ppu_mask.render_bg);
}

#[test]
fn status_read_through_the_bus_has_its_side_effects() {
    let mut mc = bus();
    mc.ppu.reg.ppu_status = 0x80;
    mc.cpu_mem_write(0x2006, 0x21, WARM);
    assert_eq!(mc.cpu_mem_read(0, 0x2002), 0x80);
    assert_eq!(mc.cpu_mem_read(0, 0x2002), 0x00);
    // The toggle is back at the first write.
    mc.cpu_mem_write(0x2006, 0x3F, WARM);
    mc.cpu_mem_write(0x2006, 0x00, WARM);
    assert_eq!(mc.ppu.reg.v, 0x3F00);
}

#[test]
fn data_port_read_through_the_bus_is_buffered() {
    let mut mc = bus();
    mc.cpu_mem_write(0x2006, 0x20, WARM);
    mc.cpu_mem_write(0x2006, 0x00, WARM);
    mc.cpu_mem_write(0x2007, 0x42, 0);
    mc.cpu_mem_write(0x2006, 0x20, WARM);
    mc.cpu_mem_write(0x2006, 0x00, WARM);
    assert_eq!(mc.cpu_mem_read(0, 0x2007), 0x00);
    assert_eq!(mc.cpu_mem_read(0, 0x2007), 0x42);
}

#[test]
fn oam_dma_copies_a_page_of_ram() {
    let mut mc = bus();
    for i in 0..256u16 {
        mc.cpu_mem_write(0x0300 + i, i as u8, 0);
    }
    mc.cpu_mem_write(0x2003, 0x02, 0);
    mc.cpu_mem_write(0x4014, 0x03, 0);
    assert_eq!(mc.ppu.oam[2], 0);
    assert_eq!(mc.ppu.oam[255], 253);
    assert_eq!(mc.ppu.oam[0], 254);
    assert_eq!(mc.ppu.oam[1], 255);
    assert_eq!(mc.ppu.reg.oam_addr, 2);
    // A mirror of RAM names the same page.
    mc.cpu_mem_write(0x2003, 0x00, 0);
    mc.cpu_mem_write(0x4014, 0x0B, 0);
    assert_eq!(mc.ppu.oam[7], 7);
}

#[test]
fn word_reads_come_straight_from_the_cartridge() {
    let mut mc = NesState::new(cartridge(&[(0xFFFF, &[0x12])]), Ppu::new());
    mc.cpu_mem_write(0x0000, 0x34, 0);
    mc.cpu_mem_write(0x0010, 0xCD, 0);
    mc.cpu_mem_write(0x0011, 0xAB, 0);
    assert_eq!(mc.cpu_mem_read_word(0x0010), 0xABCD);
    assert_eq!(mc.cpu_mem_read_word(0x0810), 0xABCD);
    // The word at the very end takes its high byte from address 0.
    assert_eq!(mc.cpu_mem_read_word(0xFFFF), 0x3412);
}

#[test]
fn controller_shifts_out_its_buttons_then_ones() {
    let mut mc = bus();
    mc.set_controller1_state(0b1010_0101);
    mc.set_controller2_state(0b0000_0010);
    mc.cpu_mem_write(0x4016, 1, 0);
    mc.cpu_mem_write(0x4016, 0, 0);
    let mut bits = Vec::new();
    for _ in 0..8 {
        bits.push(mc.cpu_mem_read(0, 0x4016));
    }
    assert_eq!(bits, vec![0x41, 0x40, 0x41, 0x40, 0x40, 0x41, 0x40, 0x41]);
    assert_eq!(mc.cpu_mem_read(0, 0x4016), 0x41);
    assert_eq!(mc.cpu_mem_read(0, 0x4016), 0x41);

    assert_eq!(mc.cpu_mem_read(0, 0x4017), 0x40);
    assert_eq!(mc.cpu_mem_read(0, 0x4017), 0x41);
    for _ in 0..6 {
        assert_eq!(mc.cpu_mem_read(0, 0x4017), 0x40);
    }
    assert_eq!(mc.cpu_mem_read(0, 0x4017), 0x41);
    assert_eq!(mc.pads.controller1_read_count, 8);
}

#[test]
fn controller_follows_the_buttons_while_the_strobe_is_high() {
    let mut mc = bus();
    assert_eq!(mc.pads.reload_controller_state, Controllers::new().reload_controller_state);
    mc.cpu_mem_write(0x4016, 1, 0);
    mc.set_controller1_state(0x01);
    assert_eq!(mc.cpu_mem_read(0, 0x4016), 0x41);
    assert_eq!(mc.cpu_mem_read(0, 0x4016), 0x41);
    mc.set_controller1_state(0x02);
    assert_eq!(mc.cpu_mem_read(0, 0x4016), 0x40);
    // The latch is loaded when the strobe goes low; later changes wait.
    mc.handle_controller_strobe(0);
    mc.set_controller1_state(0xFF);
    assert_eq!(mc.read_controller1(), 0x40);
    assert_eq!(mc.read_controller1(), 0x41);
    assert_eq!(mc.read_controller2(), 0x40);
}

#[test]
fn host_events_move_the_buttons() {
    let mut input = InputState::new();
    assert!(input.apply_event(HostEvent::ButtonDown(Button::A)));
    assert!(input.apply_event(HostEvent::ButtonDown(Button::Right)));
    assert_eq!(input.controller1_state, 0x81);
    assert!(input.apply_event(HostEvent::ButtonUp(Button::A)));
    assert_eq!(input.controller1_state, 0x80);
    assert!(input.apply_event(HostEvent::Other));
    assert!(!input.apply_event(HostEvent::Quit));
    assert_eq!(input.controller1_state, 0x80);

    let masks: Vec<u8> = [
        Button::A,
        Button::B,
        Button::Select,
        Button::Start,
        Button::Up,
        Button::Down,
        Button::Left,
        Button::Right,
    ]
    .into_iter()
    .map(button_mask)
    .collect();
    assert_eq!(masks, vec![1, 2, 4, 8, 16, 32, 64, 128]);
}

#[test]
fn events_of_a_frame_reach_the_bus() {
    let mut mc = bus();
    let mut input = InputState::new();
    let events = [
        HostEvent::ButtonDown(Button::Start),
        HostEvent::ButtonDown(Button::Up),
        HostEvent::Other,
        HostEvent::ButtonUp(Button::Start),
    ];
    assert!(input.process_events(&events, &mut mc));
    assert_eq!(mc.pads.controller1_state, 0x10);
    assert_eq!(mc.pads.controller2_state, 0x00);
    assert!(input.process_events(&[], &mut mc));
    assert_eq!(mc.pads.controller1_state, 0x10);
    assert!(!input.process_events(&[HostEvent::ButtonDown(Button::B), HostEvent::Quit], &mut mc));
    assert_eq!(mc.pads.controller1_state, 0x12);
}

#[test]
fn frame_buffer_takes_pixels_of_the_visible_scanlines() {
    let mut screen = FrameBuffer::new();
    assert_eq!(screen.pixels().len(), 256 * 224 * 3);
    screen.set_pixel(0, 7, 0x01);
    screen.set_pixel(0, 232, 0x01);
    screen.set_pixel(256, 100, 0x01);
    assert!(screen.pixels().iter().all(|b| *b == 0));

    screen.set_pixel(0, 8, 0x01);
    assert_eq!(&screen.pixels()[0..3], &[0x00, 0x1f, 0xb2]);
    screen.set_pixel(255, 231, 0x20);
    let last = (223 * 256 + 255) * 3;
    assert_eq!(&screen.pixels()[last..last + 3], &[0xff, 0xff, 0xff]);
    screen.set_pixel(3, 10, 0x16);
    let at = (2 * 256 + 3) * 3;
    assert_eq!(&screen.pixels()[at..at + 3], &[0xc7, 0x2e, 0x00]);
    // The colours repeat after 64.
    screen.set_pixel(4, 10, 0x56);
    assert_eq!(&screen.pixels()[at + 3..at + 6], &[0xc7, 0x2e, 0x00]);
}

#[test]
fn palette_has_the_colours_of_the_machine() {
    assert_eq!(palette_rgb(0x00), (0x62, 0x62, 0x62));
    assert_eq!(palette_rgb(0x0D), (0x00, 0x00, 0x00));
    assert_eq!(palette_rgb(0x2A), (0x43, 0xf6, 0x11));
    assert_eq!(palette_rgb(0x3D), (0xb8, 0xb8, 0xb8));
    assert_eq!(palette_rgb(0x3F), (0x00, 0x00, 0x00));
}

#[test]
fn picture_unit_runs_three_dots_a_cycle() {
    // An endless loop: JMP $C000
    let mapper = cartridge(&[(0xC000, &[0x4C, 0x00, 0xC0]), (0xFFFC, &[0x00, 0xC0])]);
    let mut console = Console::new(mapper);
    let mut screen = FrameBuffer::new();
    assert_eq!(console.cpu.cycle_count, 7);
    assert_eq!(console.cpu.reg.PC, 0xC000);
    assert_eq!(console.state.ppu.total_cycle_count, 21);
    assert_eq!((console.state.ppu.scanline, console.state.ppu.scanline_cycle), (261, 21));
    for _ in 0..1000 {
        let report = console.step(&mut screen).unwrap();
        assert_eq!(report.cycles, 3);
        let c = console.cpu.cycle_count - 7;
        assert_eq!(console.state.ppu.total_cycle_count, 3 * c + 21);
    }
    assert_eq!(console.cpu.cycle_count, 3007);
}

#[test]
fn frame_is_ready_once_a_frame() {
    let mapper = cartridge(&[(0xC000, &[0x4C, 0x00, 0xC0]), (0xFFFC, &[0x00, 0xC0])]);
    let mut console = Console::new(mapper);
    let mut screen = FrameBuffer::new();
    let mut ready_at = Vec::new();
    let mut steps = 0u32;
    while ready_at.len() < 2 {
        steps += 1;
        let report = console.step(&mut screen).unwrap();
        if report.frame_ready {
            ready_at.push(console.state.ppu.total_cycle_count);
        }
        assert!(steps < 100_000);
    }
    // Dot 2 of the scanline before the picture comes once in 89342 dots;
    // a step is nine dots long.
    let first = 341 + 261 * 341 + 3;
    assert!(ready_at[0] >= first && ready_at[0] < first + 9);
    assert!(ready_at[1] >= first + 89342 && ready_at[1] < first + 89342 + 9);
}

#[test]
fn vertical_blank_interrupts_the_processor() {
    // Reset: wait out the warm-up with a loop of 256 * 256 rounds, switch
    // the interrupt on, then loop. The handler counts in 0x0010.
    let reset: Vec<u8> = vec![
        0xA2, 0x00, // LDX #0
        0xA0, 0x00, // LDY #0
        0xCA, // DEX
        0xD0, 0xFD, // BNE -3
        0x88, // DEY
        0xD0, 0xFA, // BNE -6
        0xA9, 0x80, // LDA #$80
        0x8D, 0x00, 0x20, // STA $2000
        0x4C, 0x0F, 0xC0, // JMP $C00F
    ];
    let handler: Vec<u8> = vec![
        0xE6, 0x10, // INC $10
        0x40, // RTI
    ];
    let mapper = cartridge(&[
        (0xC000, &reset),
        (0xD000, &handler),
        (0xFFFA, &[0x00, 0xD0]),
        (0xFFFC, &[0x00, 0xC0]),
    ]);
    let mut console = Console::new(mapper);
    let mut screen = FrameBuffer::new();
    while console.state.ppu.frame < 20 {
        console.step(&mut screen).unwrap();
    }
    assert!(console.state.ppu.reg.ppu_ctrl.generate_nmi);
    let count = console.state.cpu_mem_read(0, 0x0010);
    assert!(count >= 5 && count <= 20);
    assert_eq!(console.state.ppu.total_cycle_count, 3 * (console.cpu.cycle_count - 7) + 21);
}

#[test]
fn pixels_of_a_frame_reach_the_screen() {
    let mut mapper = cartridge(&[(0xC000, &[0x4C, 0x00, 0xC0]), (0xFFFC, &[0x00, 0xC0])]);
    mapper.ppu_write(0x3F00, 0x16);
    let mut console = Console::new(mapper);
    let mut screen = FrameBuffer::new();
    while console.state.ppu.frame < 2 {
        console.step(&mut screen).unwrap();
    }
    assert_eq!(&screen.pixels()[0..3], &[0xc7, 0x2e, 0x00]);
    let last = 256 * 224 * 3 - 3;
    assert_eq!(&screen.pixels()[last..], &[0xc7, 0x2e, 0x00]);
}

#[test]
fn unimplemented_opcode_stops_the_machine() {
    let mapper = cartridge(&[(0xC000, &[0xEA, 0x02]), (0xFFFC, &[0x00, 0xC0])]);
    let mut console = Console::new(mapper);
    let mut screen = FrameBuffer::new();
    assert_eq!(
        console.step(&mut screen),
        Ok(StepReport { cycles: 2, frame_ready: false })
    );
    let dots = console.state.ppu.total_cycle_count;
    assert_eq!(console.step(&mut screen), Err(CpuError::UnimplementedOpcode));
    assert_eq!(console.state.ppu.total_cycle_count, dots);
    assert!(console.shutdown().is_none());
}
