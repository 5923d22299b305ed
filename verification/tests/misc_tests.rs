use cashew_gb::audio::Driver;
use cashew_gb::host::{BufferedHost, GbError, Host, FRAME_SIZE};
use cashew_gb::joypad::{
    controller_to_joypad, shift_in, JOYPAD_A, JOYPAD_B, JOYPAD_DOWN, JOYPAD_LEFT, JOYPAD_RIGHT,
    JOYPAD_SELECT, JOYPAD_START, JOYPAD_UP,
};
use cashew_gb::panel::{frame_colors, mono_color, rgb565_from_u16};
use cashew_gb::state::{Config, Gb};
use embedded_graphics::pixelcolor::{IntoStorage, Rgb565, RgbColor};

fn mono() -> Config {
    Config {
        color: false,
        high_lcd_accuracy: false,
        tagged_palette: false,
        frame_skip: false,
        interlace: false,
    }
}

fn seal(rom: &mut Vec<u8>) {
    let mut x: u8 = 0;
    for i in 0x0134..=0x014C {
        x = x.wrapping_sub(rom[i]).wrapping_sub(1);
    }
    rom[0x014D] = x;
}

fn titled(title: &[u8]) -> Vec<u8> {
    let mut rom = vec![0u8; 0x8000];
    for (i, b) in title.iter().enumerate() {
        rom[0x0134 + i] = *b;
    }
    seal(&mut rom);
    rom
}

fn boot(rom: Vec<u8>) -> Gb<BufferedHost> {
    match Gb::new(BufferedHost::new(rom, Vec::new()), mono()) {
        Ok(gb) => gb,
        Err(_) => panic!("a valid header was refused"),
    }
}

#[test]
fn header_checksum_formula() {
    // twenty-five zero bytes: 256 - 25
    let gb = boot(titled(&[]));
    assert_eq!(gb.get_context().rom()[0x014D], 231);
    assert_eq!(cashew_gb::init::header_checksum(gb.get_context()), 231);
    let gb = boot(titled(b"TETRIS"));
    let sum: u32 = b"TETRIS".iter().map(|b| *b as u32).sum();
    assert_eq!(
        cashew_gb::init::header_checksum(gb.get_context()) as u32,
        (256 - (sum + 25) % 256) % 256
    );
}

#[test]
fn rom_name_stops_at_the_first_unprintable_byte() {
    let gb = boot(titled(b"POKEMON RED"));
    assert_eq!(gb.gb_get_rom_name(), "POKEMON RED");
    let gb = boot(titled(b"AB\x01CD"));
    assert_eq!(gb.gb_get_rom_name(), "AB");
    let gb = boot(titled(b"lower"));
    assert_eq!(gb.gb_get_rom_name(), "");
    let gb = boot(titled(b"SIXTEEN_LETTERS_"));
    assert_eq!(gb.gb_get_rom_name(), "SIXTEEN_LETTERS_");
    let gb = boot(titled(b"MIX` "));
    assert_eq!(gb.gb_get_rom_name(), "MIX");
}

#[test]
fn colour_hash_sums_the_title() {
    let gb = boot(titled(b"ZELDA"));
    let sum: u32 = b"ZELDA".iter().map(|b| *b as u32).sum();
    assert_eq!(gb.gb_colour_hash() as u32, sum % 256);
    let gb = boot(titled(&[0xFF; 16]));
    assert_eq!(gb.gb_colour_hash(), ((0xFFu32 * 16) % 256) as u8);
}

#[test]
fn save_sizes() {
    for (code, size) in [(0u8, 0usize), (1, 0x800), (2, 0x2000), (3, 0x8000), (4, 0x20000), (5, 0x10000)] {
        let mut rom = vec![0u8; 0x8000];
        rom[0x0147] = 0x03;
        rom[0x0149] = code;
        seal(&mut rom);
        assert_eq!(boot(rom).get_save_size(), size);
    }
}

#[test]
fn controller_mapping() {
    assert_eq!(controller_to_joypad(0x0000), 0xFF);
    assert_eq!(controller_to_joypad(0x8000), !JOYPAD_B);
    assert_eq!(controller_to_joypad(0x4000), !JOYPAD_B);
    assert_eq!(controller_to_joypad(0x2000), !JOYPAD_SELECT);
    assert_eq!(controller_to_joypad(0x1000), !JOYPAD_START);
    assert_eq!(controller_to_joypad(0x0800), !JOYPAD_UP);
    assert_eq!(controller_to_joypad(0x0400), !JOYPAD_DOWN);
    assert_eq!(controller_to_joypad(0x0200), !JOYPAD_LEFT);
    assert_eq!(controller_to_joypad(0x0100), !JOYPAD_RIGHT);
    assert_eq!(controller_to_joypad(0x0080), !JOYPAD_A);
    assert_eq!(controller_to_joypad(0x0040), !JOYPAD_A);
    assert_eq!(controller_to_joypad(0x003F), 0xFF);
    assert_eq!(controller_to_joypad(0xFFFF), 0x00);
    assert_eq!(controller_to_joypad(0x1080), !(JOYPAD_START | JOYPAD_A));
}

#[test]
fn controller_lines_are_shifted_in_from_the_top() {
    let mut state = 0u16;
    state = shift_in(state, 0, true);
    assert_eq!(state, 0x8000);
    state = shift_in(state, 1, false);
    assert_eq!(state, 0x8000);
    state = shift_in(state, 15, true);
    assert_eq!(state, 0x8001);
    state = shift_in(state, 3, true);
    assert_eq!(state, 0x9001);
}

#[test]
fn panel_colors() {
    // red is taken from bits 10..14, green from 5..9, blue from 0..4
    let c = rgb565_from_u16(0x7C00);
    assert_eq!(c.into_storage(), 0xF800);
    assert_eq!((c.r(), c.g(), c.b()), (31, 0, 0));
    let c = rgb565_from_u16(0x03E0);
    assert_eq!(c.into_storage(), 31 << 5);
    let c = rgb565_from_u16(0x001F);
    assert_eq!(c.into_storage(), 0x001F);
    let c = rgb565_from_u16(0x7FFF);
    assert_eq!(c, Rgb565::new(31, 31, 31));
    let c = rgb565_from_u16(0x8000);
    assert_eq!(c.into_storage(), 0);
    let c = rgb565_from_u16(0x1234);
    assert_eq!(c, Rgb565::new(4, 17, 20));
    assert_ne!(c.into_storage(), 0x1234);
}

#[test]
fn frame_to_panel_colors() {
    let mut frame = [0u8; FRAME_SIZE];
    frame[0] = 1;
    frame[1] = 63;
    frame[FRAME_SIZE - 1] = 2;
    let mut palette = vec![0u16; 64];
    palette[1] = 0x7C00;
    palette[2] = 0x001F;
    palette[63] = 0x03E0;
    let colors = match frame_colors(&frame, &palette) {
        Some(c) => c,
        None => panic!("every index selects a color"),
    };
    assert_eq!(colors.len(), FRAME_SIZE);
    assert_eq!(colors[0].into_storage(), 0xF800);
    assert_eq!(colors[1].into_storage(), 31 << 5);
    assert_eq!(colors[2].into_storage(), 0);
    assert_eq!(colors[FRAME_SIZE - 1].into_storage(), 0x001F);
    frame[100] = 64;
    assert!(frame_colors(&frame, &palette).is_none());
    let short = vec![0u16; 1];
    frame[100] = 0;
    assert!(frame_colors(&frame, &short).is_none());
}

#[test]
fn monochrome_shades() {
    assert_eq!(mono_color(0, 0), 0x7FFF);
    assert_eq!(mono_color(0, 1), 0x03E0);
    assert_eq!(mono_color(0, 2), 0x1A00);
    assert_eq!(mono_color(0, 3), 0x0120);
    assert_eq!(mono_color(1, 1), 0x329F);
    assert_eq!(mono_color(1, 2), 0x001F);
    assert_eq!(mono_color(1, 3), 0x001F);
    assert_eq!(mono_color(2, 1), 0x7E10);
    assert_eq!(mono_color(2, 2), 0x48E7);
    assert_eq!(mono_color(2, 3), 0x0000);
}

#[test]
fn silent_audio_driver() {
    let mut driver = Driver::new(44100);
    driver.clear();
    driver.add_delta(10, -5);
    driver.end_frame(100);
    assert_eq!(driver.samples_avail(), 0);
    let mut buf = [7i16; 8];
    assert_eq!(driver.read_samples(&mut buf, true), 0);
    assert_eq!(buf, [7i16; 8]);
}

#[test]
fn buffered_host_memories() {
    let mut host = BufferedHost::new(vec![1, 2, 3], vec![0; 4]);
    assert_eq!(host.rom_read(0), 1);
    assert_eq!(host.rom_read(2), 3);
    assert_eq!(host.rom_read(3), 0xFF);
    assert_eq!(host.bootrom_read(0), 0xFF);
    host.cart_ram_write(1, 0x55);
    assert_eq!(host.cart_ram_read(1), 0x55);
    host.cart_ram_write(4, 0x66);
    assert_eq!(host.cart_ram_read(4), 0xFF);
    assert_eq!(host.cart_ram(), &vec![0, 0x55, 0, 0]);
    assert_eq!(host.serial_rx(), None);
    host.serial_tx(9);
    host.serial_tx(8);
    assert_eq!(host.sent(), &vec![9, 8]);
    assert_eq!(host.last_fault(), None);
    host.error(GbError::GbInvalidRead, 0x1234);
    assert_eq!(host.last_fault(), Some((GbError::GbInvalidRead, 0x1234)));
    let row = [5u8; 160];
    host.lcd_draw_line(&row, 143);
    host.lcd_draw_line(&row, 144);
    let frame = host.frame();
    assert!(frame[..160 * 143].iter().all(|p| *p == 0));
    assert!(frame[160 * 143..].iter().all(|p| *p == 5));
}
