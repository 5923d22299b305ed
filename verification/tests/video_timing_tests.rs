use cashew_gb::host::BufferedHost;
use cashew_gb::state::{Config, Gb};

fn config(color: bool) -> Config {
    Config {
        color,
        high_lcd_accuracy: false,
        tagged_palette: false,
        frame_skip: false,
        interlace: false,
    }
}

fn boot(program: &[u8], color: bool) -> Gb<BufferedHost> {
    let mut rom = vec![0u8; 0x8000];
    for (i, b) in program.iter().enumerate() {
        rom[0x0100 + i] = *b;
    }
    if color {
        rom[0x0143] = 0x80;
    }
    let mut x: u8 = 0;
    for i in 0x0134..=0x014C {
        x = x.wrapping_sub(rom[i]).wrapping_sub(1);
    }
    rom[0x014D] = x;
    let mut gb = match Gb::new(BufferedHost::new(rom, Vec::new()), config(color)) {
        Ok(gb) => gb,
        Err(_) => panic!("a valid header was refused"),
    };
    gb.gb_init_lcd();
    gb
}

fn run_to_line(gb: &mut Gb<BufferedHost>, line: u8) {
    let mut guard = 0;
    while gb.hram_io[0x44] != line {
        assert_eq!(gb.step_cpu(), Ok(()));
        guard += 1;
        assert!(guard < 200000);
    }
}

#[test]
fn modes_follow_the_line_counter() {
    let mut gb = boot(&[0x18, 0xFE], false);
    run_to_line(&mut gb, 2);
    // a new line starts in the first part of the line
    assert_eq!(gb.hram_io[0x41] & 0x03, 0);
    assert!(gb.counter.lcd_count < 204);
    let mut seen = vec![0u8];
    while gb.hram_io[0x44] == 2 {
        assert_eq!(gb.step_cpu(), Ok(()));
        let mode = gb.hram_io[0x41] & 0x03;
        if gb.hram_io[0x44] == 2 && *seen.last().unwrap() != mode {
            seen.push(mode);
            match mode {
                2 => assert!(gb.counter.lcd_count >= 204),
                3 => assert!(gb.counter.lcd_count >= 284),
                _ => panic!("mode {} within a visible line", mode),
            }
        }
        assert!(gb.counter.lcd_count < 456);
    }
    assert_eq!(seen, vec![0, 2, 3]);
    run_to_line(&mut gb, 144);
    assert_eq!(gb.hram_io[0x41] & 0x03, 1);
    run_to_line(&mut gb, 153);
    assert_eq!(gb.hram_io[0x41] & 0x03, 1);
    run_to_line(&mut gb, 0);
    assert_eq!(gb.hram_io[0x41] & 0x03, 0);
}

#[test]
fn line_compare_requests_the_status_interrupt() {
    let mut gb = boot(&[0x18, 0xFE], false);
    gb.write(0xFF45, 5);
    gb.write(0xFF41, 0x40);
    gb.write(0xFF0F, 0x00);
    run_to_line(&mut gb, 4);
    assert_eq!(gb.hram_io[0x0F] & 0x02, 0);
    assert_eq!(gb.hram_io[0x41] & 0x04, 0);
    run_to_line(&mut gb, 5);
    assert_ne!(gb.hram_io[0x0F] & 0x02, 0);
    assert_ne!(gb.hram_io[0x41] & 0x04, 0);
    run_to_line(&mut gb, 6);
    assert_eq!(gb.hram_io[0x41] & 0x04, 0);
}

#[test]
fn status_interrupt_sources() {
    // the start of a visible line
    let mut gb = boot(&[0x18, 0xFE], false);
    run_to_line(&mut gb, 10);
    gb.write(0xFF41, 0x08);
    gb.write(0xFF0F, 0x00);
    run_to_line(&mut gb, 11);
    assert_ne!(gb.hram_io[0x0F] & 0x02, 0);
    // the OAM search
    let mut gb = boot(&[0x18, 0xFE], false);
    run_to_line(&mut gb, 10);
    gb.write(0xFF41, 0x20);
    gb.write(0xFF0F, 0x00);
    while gb.hram_io[0x41] & 0x03 != 2 {
        assert_eq!(gb.hram_io[0x0F] & 0x02, 0);
        assert_eq!(gb.step_cpu(), Ok(()));
    }
    assert_ne!(gb.hram_io[0x0F] & 0x02, 0);
    // vertical blank
    let mut gb = boot(&[0x18, 0xFE], false);
    run_to_line(&mut gb, 143);
    gb.write(0xFF41, 0x10);
    gb.write(0xFF0F, 0x00);
    run_to_line(&mut gb, 144);
    assert_eq!(gb.hram_io[0x0F] & 0x03, 0x03);
    // with no source enabled only vertical blank is requested
    let mut gb = boot(&[0x18, 0xFE], false);
    run_to_line(&mut gb, 143);
    gb.write(0xFF41, 0x00);
    gb.write(0xFF0F, 0x00);
    run_to_line(&mut gb, 144);
    assert_eq!(gb.hram_io[0x0F] & 0x03, 0x01);
}

#[test]
fn window_line_counter_counts_window_lines_only() {
    let mut gb = boot(&[0x18, 0xFE], false);
    gb.write(0xFF4A, 100);
    gb.write(0xFF4B, 7);
    gb.write(0xFF40, 0x91 | 0x20);
    run_to_line(&mut gb, 144);
    run_to_line(&mut gb, 0);
    assert_eq!(gb.display.wy, 100);
    assert_eq!(gb.display.window_clear, 0);
    run_to_line(&mut gb, 100);
    assert_eq!(gb.display.window_clear, 0);
    run_to_line(&mut gb, 144);
    assert_eq!(gb.display.window_clear, 44);
    // a change of the top line only counts from the next frame on
    gb.write(0xFF4A, 0);
    assert_eq!(gb.display.wy, 100);
    run_to_line(&mut gb, 0);
    assert_eq!(gb.display.wy, 0);
}

#[test]
fn first_frame_after_switching_on_is_blanked() {
    let mut gb = boot(&[0x18, 0xFE], false);
    gb.write(0xFF47, 0x55);
    gb.write(0xFF40, 0x11);
    gb.write(0xFF40, 0x91);
    assert!(gb.lcd_blank);
    run_to_line(&mut gb, 144);
    assert!(!gb.lcd_blank);
    assert!(gb.get_context().frame().iter().all(|p| *p == 0));
    run_to_line(&mut gb, 143);
    run_to_line(&mut gb, 144);
    assert!(gb.get_context().frame().iter().all(|p| *p == 1));
}

#[test]
fn speed_switch_on_stop() {
    // STOP
    let mut gb = boot(&[0x10, 0x18, 0xFE], true);
    assert_eq!(gb.read(0xFF4D), 0x00);
    gb.write(0xFF4D, 0x01);
    assert_eq!(gb.read(0xFF4D), 0x01);
    assert_eq!(gb.step_cpu(), Ok(()));
    assert_eq!(gb.cgb.double_speed, 1);
    assert_eq!(gb.read(0xFF4D), 0x80);
    // at double speed the line counter gains half the cycles
    let before = gb.counter.lcd_count;
    assert_eq!(gb.step_cpu(), Ok(()));
    assert_eq!(gb.counter.lcd_count, before + 6);
    // on a monochrome console the request is ignored
    let mut gb = boot(&[0x10], false);
    gb.write(0xFF4D, 0x01);
    assert_eq!(gb.step_cpu(), Ok(()));
    assert_eq!(gb.cgb.double_speed, 0);
}

#[test]
fn per_line_transfer_moves_a_block_each_line() {
    let mut gb = boot(&[0x18, 0xFE], true);
    for i in 0..0x40u16 {
        gb.write(0xC200 + i, 0x80 + i as u8);
    }
    run_to_line(&mut gb, 10);
    gb.write(0xFF51, 0xC2);
    gb.write(0xFF52, 0x00);
    gb.write(0xFF53, 0x02);
    gb.write(0xFF54, 0x00);
    // three blocks, one at the start of each visible line
    gb.write(0xFF55, 0x82);
    assert_eq!(gb.cgb.dma_active, 0);
    assert_eq!(gb.cgb.dma_size, 3);
    assert_eq!(gb.vram[0x0200], 0x00);
    run_to_line(&mut gb, 11);
    for i in 0..16usize {
        assert_eq!(gb.vram[0x0200 + i], 0x80 + i as u8);
    }
    assert_eq!(gb.vram[0x0210], 0x00);
    assert_eq!(gb.cgb.dma_size, 2);
    assert_eq!(gb.read(0xFF55), 0x01);
    run_to_line(&mut gb, 13);
    for i in 0..48usize {
        assert_eq!(gb.vram[0x0200 + i], 0x80 + i as u8);
    }
    assert_eq!(gb.vram[0x0230], 0x00);
    assert_eq!(gb.cgb.dma_active, 1);
    assert_eq!(gb.cgb.dma_size, 0);
    assert_eq!(gb.cgb.dma_source, 0xC230);
    run_to_line(&mut gb, 14);
    assert_eq!(gb.vram[0x0230], 0x00);
}

#[test]
fn console_stays_valid_while_it_runs() {
    let mut gb = boot(&[0x3C, 0xE0, 0x46, 0xE0, 0x47, 0x18, 0xFA], true);
    assert!(gb.valid());
    for _ in 0..5000 {
        assert_eq!(gb.step_cpu(), Ok(()));
        assert!(gb.valid());
    }
    gb.hram_io[0x44] = 200;
    assert!(!gb.valid());
}
