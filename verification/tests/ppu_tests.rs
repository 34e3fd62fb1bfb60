use retrobrite::ines::InesRom;
use retrobrite::mappers::m000_nrom::NromMapper;
use retrobrite::mappers::Mapper;
use retrobrite::mem::{Memory, PpuMemory};
use retrobrite::ppu::constants::Mirroring;
use retrobrite::ppu::sprite::{PpuSpriteEvalState, SpriteBgPriority, SpriteBuffer, SpriteSize};
use retrobrite::ppu::{Ppu, PpuBgFetchState, PpuCtrl, PpuCycleResult, PpuMask, Toggle};

/// A mapper 0 cartridge with one empty PRG bank and CHR RAM.
fn cartridge(mirroring_vertical: bool) -> NromMapper {
    let mut image = vec![0x4E, 0x45, 0x53, 0x1A, 1, 0, 0, 0, 0, 0, 0, 0, 0, 0, 0, 0];
    if mirroring_vertical {
        image[6] = 1;
    }
    image.extend_from_slice(&vec![0u8; 16384]);
    let rom = InesRom::from_buffer(&image).unwrap();
    let mut mapper = retrobrite::mappers::m000_nrom::new(Memory::new_cpu(), PpuMemory::new());
    mapper.load_rom(&rom).unwrap();
    mapper
}

fn tick(ppu: &mut Ppu, mapper: &NromMapper, n: u32) {
    for _ in 0..n {
        ppu.cycle(mapper);
    }
}

#[test]
fn power_on_state() {
    let ppu = Ppu::new();
    assert_eq!(ppu.reg.v, 0);
    assert_eq!(ppu.reg.t, 0);
    assert_eq!(ppu.reg.w, Toggle::FirstWrite);
    assert_eq!(ppu.reg.ppu_status, 0);
    assert_eq!(ppu.scanline, 261);
    assert_eq!(ppu.scanline_cycle, 0);
    assert_eq!(ppu.frame, 0);
    assert_eq!(ppu.total_cycle_count, 0);
    assert!(ppu.sprite_render_state.secondary_oam.iter().all(|b| *b == 0xFF));
    assert_eq!(ppu.reg.ppu_ctrl.vram_increment, 1);
    assert_eq!(ppu.reg.ppu_ctrl.base_nt_addr, 0x2000);
}

#[test]
fn status_read_clears_vblank_and_resets_toggle() {
    let mut ppu = Ppu::new();
    ppu.reg.ppu_status = 0xE0;
    ppu.reg.w = Toggle::SecondWrite;
    assert_eq!(ppu.read_2002_ppustatus(), 0xE0);
    assert_eq!(ppu.reg.ppu_status, 0x60);
    assert_eq!(ppu.reg.w, Toggle::FirstWrite);
}

#[test]
fn two_address_writes_set_v() {
    let mut ppu = Ppu::new();
    ppu.write_2006_ppuaddr(0x21);
    assert_eq!(ppu.reg.w, Toggle::SecondWrite);
    assert_eq!(ppu.reg.v, 0);
    ppu.write_2006_ppuaddr(0x08);
    assert_eq!(ppu.reg.v, 0x2108);
    assert_eq!(ppu.reg.t, 0x2108);
    assert_eq!(ppu.reg.w, Toggle::FirstWrite);

    // The two top bits of the first byte do not count.
    ppu.write_2006_ppuaddr(0xFF);
    ppu.write_2006_ppuaddr(0x00);
    assert_eq!(ppu.reg.v, 0x3F00);
}

#[test]
fn scroll_writes_fill_t_and_fine_x() {
    let mut ppu = Ppu::new();
    ppu.write_2005_ppuscroll(0x7D);
    assert_eq!(ppu.reg.x, 5);
    assert_eq!(ppu.reg.t, 0x000F);
    ppu.write_2005_ppuscroll(0x5E);
    assert_eq!(ppu.reg.t, 0x616F);
    assert_eq!(ppu.reg.w, Toggle::FirstWrite);
    assert_eq!(ppu.reg.v, 0);
}

#[test]
fn control_write_parses_fields_and_selects_nametable_in_t() {
    let mut ppu = Ppu::new();
    ppu.write_2000_ppuctrl(0b1011_1111);
    assert_eq!(ppu.reg.t, 0x0C00);
    assert_eq!(ppu.reg.v, 0);
    let ctrl: PpuCtrl = ppu.reg.ppu_ctrl;
    assert_eq!(ctrl.value, 0b1011_1111);
    assert_eq!(ctrl.base_nt_addr, 0x2C00);
    assert_eq!(ctrl.vram_increment, 32);
    assert_eq!(ctrl.sprite_pt_addr_8x8, 0x1000);
    assert_eq!(ctrl.bg_pt_addr, 0x1000);
    assert_eq!(ctrl.sprite_size, SpriteSize::Sprite8x16);
    assert!(ctrl.generate_nmi);

    ppu.write_2000_ppuctrl(0x01);
    assert_eq!(ppu.reg.t, 0x0400);
    assert_eq!(ppu.reg.ppu_ctrl.base_nt_addr, 0x2400);
    assert_eq!(ppu.reg.ppu_ctrl.vram_increment, 1);
    assert_eq!(ppu.reg.ppu_ctrl.sprite_size, SpriteSize::Sprite8x8);
    assert!(!ppu.reg.ppu_ctrl.generate_nmi);
}

#[test]
fn mask_write_parses_fields() {
    let mut ppu = Ppu::new();
    ppu.write_2001_ppumask(0b1010_1010);
    let mask: PpuMask = ppu.reg.ppu_mask;
    assert!(!mask.greyscale);
    assert!(mask.show_bg_leftmost_8px);
    assert!(!mask.show_sprites_leftmost_8px);
    assert!(mask.render_bg);
    assert!(!mask.render_sprites);
    assert!(mask.emphasize_red);
    assert!(!mask.emphasize_green);
    assert!(mask.emphasize_blue);
    assert!(ppu.rendering_enabled());
}

#[test]
fn oam_data_port_writes_and_wraps() {
    let mut ppu = Ppu::new();
    ppu.write_2003_oamaddr(0xFE);
    ppu.write_2004_oamdata(1);
    ppu.write_2004_oamdata(2);
    ppu.write_2004_oamdata(3);
    assert_eq!(ppu.oam[0xFE], 1);
    assert_eq!(ppu.oam[0xFF], 2);
    assert_eq!(ppu.oam[0x00], 3);
    assert_eq!(ppu.reg.oam_addr, 1);
    ppu.write_2003_oamaddr(0xFF);
    assert_eq!(ppu.read_2004_oamdata(), 2);
}

#[test]
fn oam_data_reads_ff_while_secondary_oam_is_cleared() {
    let mut ppu = Ppu::new();
    ppu.write_2003_oamaddr(0);
    ppu.write_2004_oamdata(0x12);
    ppu.write_2003_oamaddr(0);
    ppu.scanline = 0;
    ppu.scanline_cycle = 10;
    assert_eq!(ppu.read_2004_oamdata(), 0xFF);
    ppu.scanline_cycle = 65;
    assert_eq!(ppu.read_2004_oamdata(), 0x12);
    ppu.scanline = 240;
    ppu.scanline_cycle = 10;
    assert_eq!(ppu.read_2004_oamdata(), 0x12);
}

#[test]
fn oam_dma_wraps_and_keeps_the_address() {
    let mut ppu = Ppu::new();
    ppu.write_2003_oamaddr(0x80);
    let mut page = vec![0u8; 256];
    for (k, b) in page.iter_mut().enumerate() {
        *b = k as u8;
    }
    ppu.oam_dma(&page);
    assert_eq!(ppu.oam[0x80], 0x00);
    assert_eq!(ppu.oam[0xFF], 0x7F);
    assert_eq!(ppu.oam[0x00], 0x80);
    assert_eq!(ppu.oam[0x7F], 0xFF);
    assert_eq!(ppu.reg.oam_addr, 0x80);
}

#[test]
fn data_port_reads_are_buffered_but_palette_reads_are_not() {
    let mut mapper = cartridge(false);
    let mut ppu = Ppu::new();
    ppu.write_2006_ppuaddr(0x20);
    ppu.write_2006_ppuaddr(0x00);
    ppu.write_2007_ppudata(0xAB, &mut mapper);
    assert_eq!(ppu.reg.v, 0x2001);
    ppu.write_2007_ppudata(0xCD, &mut mapper);

    ppu.write_2006_ppuaddr(0x20);
    ppu.write_2006_ppuaddr(0x00);
    assert_eq!(ppu.read_2007_ppudata(&mapper), 0x00);
    assert_eq!(ppu.read_2007_ppudata(&mapper), 0xAB);
    assert_eq!(ppu.read_2007_ppudata(&mapper), 0xCD);

    ppu.write_2006_ppuaddr(0x3F);
    ppu.write_2006_ppuaddr(0x00);
    ppu.write_2007_ppudata(0x15, &mut mapper);
    ppu.write_2006_ppuaddr(0x3F);
    ppu.write_2006_ppuaddr(0x00);
    assert_eq!(ppu.read_2007_ppudata(&mapper), 0x15);
}

#[test]
fn data_port_steps_by_32_when_asked() {
    let mut mapper = cartridge(false);
    let mut ppu = Ppu::new();
    ppu.write_2000_ppuctrl(0x04);
    ppu.write_2006_ppuaddr(0x20);
    ppu.write_2006_ppuaddr(0x00);
    ppu.write_2007_ppudata(1, &mut mapper);
    assert_eq!(ppu.reg.v, 0x2020);
    // v stays within 15 bits.
    ppu.reg.v = 0x7FF0;
    ppu.write_2007_ppudata(1, &mut mapper);
    assert_eq!(ppu.reg.v, 0x0010);
}

#[test]
fn odd_frame_skips_a_dot_when_rendering() {
    let mapper = cartridge(false);
    let mut ppu = Ppu::new();
    ppu.write_2001_ppumask(0x08);
    tick(&mut ppu, &mapper, 341);
    assert_eq!((ppu.frame, ppu.scanline, ppu.scanline_cycle), (1, 0, 1));

    let mut ppu = Ppu::new();
    tick(&mut ppu, &mapper, 341);
    assert_eq!((ppu.frame, ppu.scanline, ppu.scanline_cycle), (1, 0, 0));
    tick(&mut ppu, &mapper, 1);
    assert_eq!((ppu.frame, ppu.scanline, ppu.scanline_cycle), (1, 0, 1));
}

#[test]
fn frames_are_89342_dots_or_one_less() {
    let mapper = cartridge(false);
    // Rendering off: every frame has 262 * 341 dots.
    let mut ppu = Ppu::new();
    tick(&mut ppu, &mapper, 341);
    assert_eq!(ppu.frame, 1);
    tick(&mut ppu, &mapper, 89342);
    assert_eq!((ppu.frame, ppu.scanline, ppu.scanline_cycle), (2, 0, 0));

    // Rendering on: the odd frame 1 lacks its first dot.
    let mut ppu = Ppu::new();
    ppu.write_2001_ppumask(0x18);
    tick(&mut ppu, &mapper, 341);
    assert_eq!((ppu.frame, ppu.scanline, ppu.scanline_cycle), (1, 0, 1));
    tick(&mut ppu, &mapper, 89341);
    assert_eq!((ppu.frame, ppu.scanline, ppu.scanline_cycle), (2, 0, 0));
    tick(&mut ppu, &mapper, 89342);
    assert_eq!((ppu.frame, ppu.scanline, ppu.scanline_cycle), (3, 0, 1));
    assert_eq!(ppu.total_cycle_count, 341 + 89341 + 89342);
}

#[test]
fn vblank_starts_on_dot_1_of_scanline_241() {
    let mapper = cartridge(false);
    let mut ppu = Ppu::new();
    ppu.write_2000_ppuctrl(0x80);
    let mut count = 0u32;
    loop {
        count += 1;
        match ppu.cycle(&mapper) {
            PpuCycleResult::VBlankLine { trigger_nmi: true, scanline } => {
                assert_eq!(scanline, 241);
                break;
            }
            _ => (),
        }
        assert!(count < 200_000);
    }
    assert_eq!(count, 341 + 241 * 341 + 2);
    assert_eq!(ppu.reg.ppu_status & 0x80, 0x80);
    assert_eq!((ppu.scanline, ppu.scanline_cycle), (241, 2));

    // Without NMI enabled the flag is set all the same, but no interrupt
    // is asked for.
    let mut ppu = Ppu::new();
    for _ in 0..(341 + 241 * 341 + 2) {
        match ppu.cycle(&mapper) {
            PpuCycleResult::VBlankLine { trigger_nmi, .. } => assert!(!trigger_nmi),
            _ => (),
        }
    }
    assert_eq!(ppu.reg.ppu_status & 0x80, 0x80);
}

#[test]
fn pre_render_line_clears_the_status_flags() {
    let mapper = cartridge(false);
    let mut ppu = Ppu::new();
    ppu.reg.ppu_status = 0xE0;
    ppu.scanline = 261;
    ppu.scanline_cycle = 0;
    assert_eq!(ppu.cycle(&mapper), PpuCycleResult::PreRenderLine { scanline_cycle: 0 });
    assert_eq!(ppu.reg.ppu_status, 0xE0);
    assert_eq!(ppu.cycle(&mapper), PpuCycleResult::PreRenderLine { scanline_cycle: 1 });
    assert_eq!(ppu.reg.ppu_status, 0x00);
    assert_eq!(ppu.cycle(&mapper), PpuCycleResult::PreRenderLine { scanline_cycle: 2 });
}

#[test]
fn dot_results_follow_the_timeline() {
    let mapper = cartridge(false);
    let mut ppu = Ppu::new();
    tick(&mut ppu, &mapper, 341);
    assert_eq!(ppu.cycle(&mapper), PpuCycleResult::Idle);
    assert_eq!(ppu.cycle(&mapper), PpuCycleResult::Pixel { scanline: 0, x: 0, color: 0 });
    tick(&mut ppu, &mapper, 254);
    assert_eq!(ppu.cycle(&mapper), PpuCycleResult::Pixel { scanline: 0, x: 255, color: 0 });
    assert_eq!(ppu.cycle(&mapper), PpuCycleResult::HBlank { scanline: 0, cycle: 257 });
    tick(&mut ppu, &mapper, 83);
    assert_eq!((ppu.scanline, ppu.scanline_cycle), (1, 0));
    tick(&mut ppu, &mapper, 239 * 341);
    assert_eq!(ppu.cycle(&mapper), PpuCycleResult::PostRenderLine);
    tick(&mut ppu, &mapper, 340);
    assert_eq!(
        ppu.cycle(&mapper),
        PpuCycleResult::VBlankLine { trigger_nmi: false, scanline: 241 }
    );
}

#[test]
fn backdrop_shows_when_rendering_is_off() {
    let mut mapper = cartridge(false);
    mapper.ppu_write(0x3F00, 0x21);
    let mut ppu = Ppu::new();
    tick(&mut ppu, &mapper, 342);
    assert_eq!(ppu.cycle(&mapper), PpuCycleResult::Pixel { scanline: 0, x: 0, color: 0x21 });
}

#[test]
fn background_tile_is_drawn_through_the_shift_registers() {
    let mut mapper = cartridge(false);
    // Tile 2 at the top left of nametable 0, tile 3 next to it.
    mapper.ppu_write(0x2000, 2);
    mapper.ppu_write(0x2001, 3);
    // Tile 2: pattern value 1 in every pixel of row 0.
    mapper.ppu_write(0x0020, 0xFF);
    // Tile 3: pattern value 2 in the left half of row 0.
    mapper.ppu_write(0x0038, 0xF0);
    // The attribute byte gives the top left quarter palette 1.
    mapper.ppu_write(0x23C0, 0x01);
    mapper.ppu_write(0x3F00, 0x0F);
    mapper.ppu_write(0x3F05, 0x16);
    mapper.ppu_write(0x3F06, 0x27);

    let mut ppu = Ppu::new();
    ppu.write_2001_ppumask(0x0A);
    let mut row = Vec::new();
    for _ in 0..(341 + 341) {
        if let PpuCycleResult::Pixel { scanline: 0, x, color } = ppu.cycle(&mapper) {
            row.push((x, color));
        }
    }
    assert_eq!(row.len(), 256);
    for x in 0..8 {
        assert_eq!(row[x], (x as u16, 0x16));
    }
    for x in 8..12 {
        assert_eq!(row[x], (x as u16, 0x27));
    }
    for x in 12..32 {
        assert_eq!(row[x], (x as u16, 0x0F));
    }
}

#[test]
fn fine_x_scroll_starts_within_the_tile() {
    let mut mapper = cartridge(false);
    mapper.ppu_write(0x2000, 2);
    // Tile 2, row 0: only the rightmost three pixels are set.
    mapper.ppu_write(0x0020, 0x07);
    mapper.ppu_write(0x3F00, 0x0F);
    mapper.ppu_write(0x3F01, 0x16);

    let mut ppu = Ppu::new();
    ppu.write_2001_ppumask(0x0A);
    ppu.write_2005_ppuscroll(0x05);
    ppu.write_2005_ppuscroll(0x00);
    let mut row = Vec::new();
    for _ in 0..(341 + 341) {
        if let PpuCycleResult::Pixel { scanline: 0, color, .. } = ppu.cycle(&mapper) {
            row.push(color);
        }
    }
    assert_eq!(&row[0..5], &[0x16, 0x16, 0x16, 0x0F, 0x0F]);
}

#[test]
fn sprite_is_evaluated_fetched_and_drawn_on_the_next_scanline() {
    let mut mapper = cartridge(false);
    // Tile 1, row 0: leftmost pixel has pattern value 3; row 1: value 1 in
    // the rightmost pixel.
    mapper.ppu_write(0x0010, 0x80);
    mapper.ppu_write(0x0018, 0x80);
    mapper.ppu_write(0x0011, 0x01);
    mapper.ppu_write(0x3F00, 0x0F);
    mapper.ppu_write(0x3F17, 0x30);
    mapper.ppu_write(0x3F15, 0x2A);

    let mut ppu = Ppu::new();
    // Sprite 0: y = 10, tile 1, palette 1, x = 20.
    ppu.write_2003_oamaddr(0);
    for b in [10u8, 1, 0x01, 20] {
        ppu.write_2004_oamdata(b);
    }
    // Every other entry lies below the picture.
    for _ in 1..64 {
        for b in [0xF0u8, 0, 0, 0] {
            ppu.write_2004_oamdata(b);
        }
    }
    ppu.write_2001_ppumask(0x14);

    let mut shown = Vec::new();
    for _ in 0..(341 + 13 * 341) {
        if let PpuCycleResult::Pixel { scanline, x, color } = ppu.cycle(&mapper) {
            if color != 0x0F {
                shown.push((scanline, x, color));
            }
        }
    }
    assert_eq!(shown, vec![(11, 20, 0x30), (12, 27, 0x2A)]);
    assert!(ppu.sprite_render_state.sprite_buffers[0].is_sprite_0());
}

#[test]
fn flipped_sprite_is_mirrored() {
    let mut mapper = cartridge(false);
    mapper.ppu_write(0x0010, 0x80);
    mapper.ppu_write(0x0017, 0x01);
    mapper.ppu_write(0x3F00, 0x0F);
    mapper.ppu_write(0x3F11, 0x30);

    let mut ppu = Ppu::new();
    ppu.write_2003_oamaddr(0);
    // Flipped both ways.
    for b in [10u8, 1, 0xC0, 20] {
        ppu.write_2004_oamdata(b);
    }
    for _ in 1..64 {
        for b in [0xF0u8, 0, 0, 0] {
            ppu.write_2004_oamdata(b);
        }
    }
    ppu.write_2001_ppumask(0x14);
    let mut shown = Vec::new();
    for _ in 0..(341 + 20 * 341) {
        if let PpuCycleResult::Pixel { scanline, x, color } = ppu.cycle(&mapper) {
            if color != 0x0F {
                shown.push((scanline, x, color));
            }
        }
    }
    // Row 7 of the tile is drawn first, with its rightmost pixel at the
    // left; row 0 is drawn last, with its leftmost pixel at the right.
    assert_eq!(shown, vec![(11, 20, 0x30), (18, 27, 0x30)]);
}

#[test]
fn tall_sprite_takes_two_tiles_of_the_table_that_its_number_names() {
    let mut mapper = cartridge(false);
    // Tile number 3 is odd: tiles 2 and 3 of the table at 0x1000.
    mapper.ppu_write(0x1020, 0x80);
    mapper.ppu_write(0x1030, 0x40);
    mapper.ppu_write(0x3F00, 0x0F);
    mapper.ppu_write(0x3F11, 0x30);

    let mut ppu = Ppu::new();
    ppu.write_2000_ppuctrl(0x20);
    ppu.write_2003_oamaddr(0);
    for b in [10u8, 3, 0x00, 20] {
        ppu.write_2004_oamdata(b);
    }
    for _ in 1..64 {
        for b in [0xF0u8, 0, 0, 0] {
            ppu.write_2004_oamdata(b);
        }
    }
    ppu.write_2001_ppumask(0x14);
    let mut shown = Vec::new();
    for _ in 0..(341 + 28 * 341) {
        if let PpuCycleResult::Pixel { scanline, x, color } = ppu.cycle(&mapper) {
            if color != 0x0F {
                shown.push((scanline, x, color));
            }
        }
    }
    assert_eq!(shown, vec![(11, 20, 0x30), (19, 21, 0x30)]);
}

#[test]
fn ninth_sprite_on_a_scanline_sets_the_overflow_flag() {
    let mapper = cartridge(false);
    let mut ppu = Ppu::new();
    ppu.write_2003_oamaddr(0);
    for i in 0..64u8 {
        let y = if i < 9 { 10 } else { 0xF0 };
        for b in [y, 0, 0, i * 8] {
            ppu.write_2004_oamdata(b);
        }
    }
    ppu.write_2001_ppumask(0x10);
    tick(&mut ppu, &mapper, 341 + 10 * 341 + 257);
    assert_eq!(ppu.sprite_render_state.secondary_oam_index, 8);
    assert!(ppu.sprite_render_state.sprite_overflow);
    assert_eq!(ppu.reg.ppu_status & 0x20, 0x20);
    assert!(ppu.sprite_render_state.maybe_sprite_0_hit);
}

#[test]
fn sprite_zero_hit_needs_background_and_sprite() {
    let mut mapper = cartridge(false);
    // Background tile 0 is solid with pattern value 1.
    for row in 0..8u16 {
        mapper.ppu_write(row, 0xFF);
    }
    // Sprite tile 1, row 0: solid.
    mapper.ppu_write(0x1010, 0xFF);
    let mut ppu = Ppu::new();
    ppu.write_2000_ppuctrl(0x08);
    ppu.write_2003_oamaddr(0);
    for b in [10u8, 1, 0x00, 20] {
        ppu.write_2004_oamdata(b);
    }
    for _ in 1..64 {
        for b in [0xF0u8, 0, 0, 0] {
            ppu.write_2004_oamdata(b);
        }
    }
    ppu.write_2001_ppumask(0x1E);
    tick(&mut ppu, &mapper, 341 + 11 * 341 - 1 + 21);
    assert_eq!(ppu.reg.ppu_status & 0x40, 0x00);
    tick(&mut ppu, &mapper, 1);
    assert_eq!(ppu.reg.ppu_status & 0x40, 0x40);

    // With the background off there is no hit.
    let mut ppu = Ppu::new();
    ppu.write_2000_ppuctrl(0x08);
    ppu.write_2003_oamaddr(0);
    for b in [10u8, 1, 0x00, 20] {
        ppu.write_2004_oamdata(b);
    }
    for _ in 1..64 {
        for b in [0xF0u8, 0, 0, 0] {
            ppu.write_2004_oamdata(b);
        }
    }
    ppu.write_2001_ppumask(0x14);
    tick(&mut ppu, &mapper, 341 + 12 * 341);
    assert_eq!(ppu.reg.ppu_status & 0x40, 0x00);
}

#[test]
fn sprite_behind_the_background_shows_only_through_transparent_pixels() {
    let mut mapper = cartridge(false);
    // Background tile 0, row 3 (scanline 11): left half solid.
    mapper.ppu_write(0x0003, 0xF0);
    mapper.ppu_write(0x1010, 0xFF);
    mapper.ppu_write(0x3F00, 0x0F);
    mapper.ppu_write(0x3F01, 0x16);
    mapper.ppu_write(0x3F11, 0x30);
    let mut ppu = Ppu::new();
    ppu.write_2000_ppuctrl(0x08);
    ppu.write_2003_oamaddr(0);
    // Behind the background, at x = 16.
    for b in [10u8, 1, 0x20, 16] {
        ppu.write_2004_oamdata(b);
    }
    for _ in 1..64 {
        for b in [0xF0u8, 0, 0, 0] {
            ppu.write_2004_oamdata(b);
        }
    }
    ppu.write_2001_ppumask(0x1E);
    let mut row = Vec::new();
    for _ in 0..(341 + 12 * 341) {
        if let PpuCycleResult::Pixel { scanline: 11, color, .. } = ppu.cycle(&mapper) {
            row.push(color);
        }
    }
    assert_eq!(&row[16..24], &[0x16, 0x16, 0x16, 0x16, 0x30, 0x30, 0x30, 0x30]);
    assert_eq!(&row[24..28], &[0x16, 0x16, 0x16, 0x16]);
}

#[test]
fn fetch_state_cycles_through_eight_steps() {
    let mut state = PpuBgFetchState::NametableAddr;
    let mut seen = Vec::new();
    for _ in 0..8 {
        seen.push(state);
        state.next();
    }
    assert_eq!(state, PpuBgFetchState::NametableAddr);
    assert_eq!(seen[7], PpuBgFetchState::BackgroundMSBRead);
    let mut idle = PpuBgFetchState::Idle;
    idle.next();
    assert_eq!(idle, PpuBgFetchState::Idle);
}

#[test]
fn coarse_x_and_fine_y_wrap_into_the_next_nametable() {
    let mut ppu = Ppu::new();
    ppu.write_2001_ppumask(0x08);
    ppu.reg.v = 0x001F;
    ppu.update_coarse_x();
    assert_eq!(ppu.reg.v, 0x0400);
    ppu.reg.v = 0x0005;
    ppu.update_coarse_x();
    assert_eq!(ppu.reg.v, 0x0006);

    ppu.reg.v = 0x1000;
    ppu.update_fine_y();
    assert_eq!(ppu.reg.v, 0x2000);
    // Fine Y 7, coarse Y 29: on to the next nametable.
    ppu.reg.v = 0x7000 | (29 << 5);
    ppu.update_fine_y();
    assert_eq!(ppu.reg.v, 0x0800);
    // Fine Y 7, coarse Y 31: back to 0 in the same nametable.
    ppu.reg.v = 0x7000 | (31 << 5);
    ppu.update_fine_y();
    assert_eq!(ppu.reg.v, 0x0000);
    // Fine Y 7, coarse Y 5
    ppu.reg.v = 0x7000 | (5 << 5) | 3;
    ppu.update_fine_y();
    assert_eq!(ppu.reg.v, (6 << 5) | 3);

    // With the background off v stays.
    ppu.write_2001_ppumask(0x00);
    ppu.reg.v = 0x001F;
    ppu.update_coarse_x();
    ppu.update_fine_y();
    assert_eq!(ppu.reg.v, 0x001F);
}

#[test]
fn v_takes_its_position_from_t() {
    let mut ppu = Ppu::new();
    ppu.write_2001_ppumask(0x08);
    ppu.reg.t = 0x7FFF;
    ppu.reg.v = 0;
    ppu.reset_horizontal_position_in_v();
    assert_eq!(ppu.reg.v, 0x041F);
    ppu.reset_vertical_position_in_v();
    assert_eq!(ppu.reg.v, 0x7FFF);
}

#[test]
fn sprite_buffer_getters_and_pixels() {
    let mut mapper = cartridge(false);
    mapper.ppu_write(0x0010, 0b1000_0001);
    mapper.ppu_write(0x0018, 0b0000_0001);
    let mut buffer = SpriteBuffer::default();
    buffer.load(10, 1, 0x23, 40, true, 0x0000, SpriteSize::Sprite8x8, 10, &mapper);
    assert_eq!(buffer.x_position(), 40);
    assert_eq!(buffer.palette(), 3);
    assert_eq!(buffer.priority(), SpriteBgPriority::BehindBackground);
    assert!(buffer.is_sprite_0());
    assert_eq!(buffer.get_palette_value(40), 1);
    assert_eq!(buffer.get_palette_value(41), 0);
    assert_eq!(buffer.get_palette_value(47), 3);

    // A sprite that does not cover the scanline is fetched as empty.
    buffer.load(0xFF, 1, 0x00, 40, false, 0x0000, SpriteSize::Sprite8x8, 10, &mapper);
    assert_eq!(buffer.pattern_tile_lsb, 0);
    assert_eq!(buffer.pattern_tile_msb, 0);
    assert_eq!(buffer.priority(), SpriteBgPriority::InFrontOfBackground);
}

#[test]
fn sprite_evaluation_state_resets_counters() {
    let mut state = PpuSpriteEvalState::default();
    state.oam_addr = 40;
    state.secondary_oam_index = 3;
    state.maybe_sprite_0_hit = true;
    state.sprite_overflow = true;
    state.secondary_oam[0] = 1;
    state.reset();
    assert_eq!(state.oam_addr, 0);
    assert_eq!(state.secondary_oam_index, 0);
    assert!(!state.maybe_sprite_0_hit);
    assert!(!state.sprite_overflow);
    assert_eq!(state.secondary_oam[0], 1);
}

#[test]
fn nametable_writes_follow_the_mirroring() {
    let mut mapper = cartridge(true);
    assert_eq!(mapper.ppu_mem.mirroring, Mirroring::Vertical);
    mapper.ppu_write(0x2000, 0x11);
    assert_eq!(mapper.ppu_read(0x2800), 0x11);
    assert_eq!(mapper.ppu_read(0x2400), 0x00);

    let mut mapper = cartridge(false);
    assert_eq!(mapper.ppu_mem.mirroring, Mirroring::Horizontal);
    mapper.ppu_write(0x2000, 0x22);
    assert_eq!(mapper.ppu_read(0x2400), 0x22);
    assert_eq!(mapper.ppu_read(0x2800), 0x00);
}
