use cashew_gb::cart::{Cart, CartRtc, Mbc};
use cashew_gb::host::BufferedHost;
use cashew_gb::state::{Config, Gb};

fn config(color: bool) -> Config {
    Config {
        color,
        high_lcd_accuracy: false,
        tagged_palette: false,
        frame_skip: false,
        interlace: false,
    }
}

fn seal(rom: &mut Vec<u8>) {
    let mut x: u8 = 0;
    for i in 0x0134..=0x014C {
        x = x.wrapping_sub(rom[i]).wrapping_sub(1);
    }
    rom[0x014D] = x;
}

/// A cartridge of `banks` banks whose every bank holds its own number in its
/// first byte.
fn banked_rom(kind: u8, size_code: u8, ram_code: u8, banks: usize, cgb: bool) -> Vec<u8> {
    let mut rom = vec![0u8; banks * 0x4000];
    for b in 0..banks {
        rom[b * 0x4000] = b as u8;
        rom[b * 0x4000 + 1] = (b >> 8) as u8;
    }
    rom[0x0147] = kind;
    rom[0x0148] = size_code;
    rom[0x0149] = ram_code;
    if cgb {
        rom[0x0143] = 0x80;
    }
    seal(&mut rom);
    rom
}

fn boot(rom: Vec<u8>, ram: Vec<u8>, color: bool) -> Gb<BufferedHost> {
    match Gb::new(BufferedHost::new(rom, ram), config(color)) {
        Ok(gb) => gb,
        Err(_) => panic!("a valid header was refused"),
    }
}

#[test]
fn rom_only_reads_both_banks() {
    let gb = boot(banked_rom(0x00, 0, 0, 2, false), Vec::new(), false);
    assert_eq!(gb.read(0x0000), 0);
    assert_eq!(gb.read(0x4000), 1);
    assert_eq!(gb.get_save_size(), 0);
}

#[test]
fn reads_beyond_the_rom_give_ff() {
    // the header promises 4 banks, the image holds 2
    let gb = boot(banked_rom(0x01, 1, 0, 2, false), Vec::new(), false);
    let mut gb = gb;
    gb.write(0x2000, 0x03);
    assert_eq!(gb.cart.selected_rom_bank, 3);
    assert_eq!(gb.read(0x4000), 0xFF);
}

#[test]
fn mbc1_bank_zero_is_coerced_to_one() {
    let mut gb = boot(banked_rom(0x01, 4, 0, 32, false), Vec::new(), false);
    assert_eq!(gb.cart.mbc, Mbc::Mbc1);
    gb.write(0x2000, 0x05);
    assert_eq!(gb.cart.selected_rom_bank, 5);
    assert_eq!(gb.read(0x4000), 5);
    gb.write(0x2000, 0x00);
    assert_eq!(gb.cart.selected_rom_bank, 1);
    assert_eq!(gb.read(0x4000), 1);
    gb.write(0x3FFF, 0x20);
    assert_eq!(gb.cart.selected_rom_bank, 1);
    gb.write(0x2000, 0xE7);
    assert_eq!(gb.cart.selected_rom_bank, 7);
}

#[test]
fn mbc1_never_selects_bank_zero_for_any_write() {
    let mut gb = boot(banked_rom(0x01, 3, 0, 16, false), Vec::new(), false);
    for hi in 0..4u8 {
        gb.write(0x4000, hi);
        for val in 0..=255u8 {
            gb.write(0x2100, val);
            assert!(gb.cart.selected_rom_bank >= 1);
            assert!(gb.cart.selected_rom_bank <= 15);
            assert_ne!(gb.cart.selected_rom_bank & 0x1F, 0);
            assert_ne!(gb.read(0x4000), 0);
        }
    }
}

#[test]
fn mbc1_upper_bits_select_high_banks() {
    let mut gb = boot(banked_rom(0x01, 6, 0, 128, false), Vec::new(), false);
    gb.write(0x2000, 0x01);
    gb.write(0x4000, 0x02);
    assert_eq!(gb.cart.selected_rom_bank, 0x41);
    assert_eq!(gb.read(0x4000), 0x41);
    // in the second addressing mode the upper bits no longer reach the ROM
    gb.write(0x6000, 0x01);
    assert_eq!(gb.read(0x4000), 0x01);
}

#[test]
fn mbc1_ram_banks_follow_the_mode() {
    let mut gb = boot(banked_rom(0x03, 1, 3, 4, false), vec![0u8; 0x8000], false);
    assert_eq!(gb.get_save_size(), 0x8000);
    assert_eq!(gb.read(0xA000), 0xFF);
    gb.write(0x0000, 0x0A);
    assert!(gb.cart.enable_cart_ram);
    gb.write(0xA010, 0x11);
    assert_eq!(gb.read(0xA010), 0x11);
    assert_eq!(gb.get_context().cart_ram()[0x10], 0x11);
    gb.write(0x6000, 0x01);
    gb.write(0x4000, 0x02);
    gb.write(0xA010, 0x22);
    assert_eq!(gb.read(0xA010), 0x22);
    assert_eq!(gb.get_context().cart_ram()[0x4010], 0x22);
    gb.write(0x6000, 0x00);
    assert_eq!(gb.read(0xA010), 0x11);
    gb.write(0x0000, 0x00);
    assert_eq!(gb.read(0xA010), 0xFF);
    gb.write(0xA010, 0x33);
    assert_eq!(gb.get_context().cart_ram()[0x10], 0x11);
}

#[test]
fn mbc2_keeps_nibbles_and_selects_by_address_bit() {
    let mut gb = boot(banked_rom(0x06, 2, 0, 8, false), vec![0u8; 0x200], false);
    assert_eq!(gb.cart.mbc, Mbc::Mbc2);
    assert_eq!(gb.get_save_size(), 0x200);
    gb.write(0x0000, 0x0A);
    assert!(gb.cart.enable_cart_ram);
    gb.write(0x0100, 0x00);
    assert_eq!(gb.cart.selected_rom_bank, 1);
    gb.write(0x2100, 0x06);
    assert_eq!(gb.cart.selected_rom_bank, 6);
    gb.write(0xA005, 0xFB);
    assert_eq!(gb.read(0xA005), 0x0B);
    assert_eq!(gb.read(0xA205), 0x0B);
}

#[test]
fn mbc3_selects_seven_bits_and_latches_the_clock() {
    let mut gb = boot(banked_rom(0x10, 6, 3, 128, false), vec![0u8; 0x8000], false);
    assert_eq!(gb.cart.mbc, Mbc::Mbc3);
    gb.write(0x2000, 0x00);
    assert_eq!(gb.cart.selected_rom_bank, 1);
    gb.write(0x2000, 0x7F);
    assert_eq!(gb.read(0x4000), 0x7F);
    gb.write(0x0000, 0x0A);
    gb.write(0x4000, 0x01);
    gb.write(0xA000, 0x5A);
    assert_eq!(gb.get_context().cart_ram()[0x2000], 0x5A);
    // clock registers: writes are masked, reads see the latched copy
    gb.write(0x4000, 0x08);
    gb.write(0xA000, 0xFF);
    assert_eq!(gb.cart.rtc_real.get_sec(), 0x3F);
    assert_eq!(gb.read(0xA000), 0x00);
    gb.write(0x4000, 0x0A);
    gb.write(0xA000, 0xFF);
    assert_eq!(gb.cart.rtc_real.get_hour(), 0x1F);
    gb.write(0x4000, 0x0C);
    gb.write(0xA000, 0xFF);
    assert_eq!(gb.cart.rtc_real.get_high(), 0xC1);
    gb.write(0x6000, 0x01);
    gb.write(0x4000, 0x08);
    assert_eq!(gb.read(0xA000), 0x3F);
    // only the change from 0 to 1 latches
    gb.write(0xA000, 0x07);
    gb.write(0x6000, 0x01);
    assert_eq!(gb.read(0xA000), 0x3F);
    gb.write(0x6000, 0x00);
    assert_eq!(gb.read(0xA000), 0x3F);
    gb.write(0x6000, 0x01);
    assert_eq!(gb.read(0xA000), 0x07);
    // a bank number beyond the clock registers reaches nothing
    gb.write(0x4000, 0x0D);
    assert_eq!(gb.read(0xA000), 0xFF);
}

#[test]
fn mbc5_selects_nine_bits() {
    let mut gb = boot(banked_rom(0x19, 8, 0, 512, false), Vec::new(), false);
    assert_eq!(gb.cart.mbc, Mbc::Mbc5);
    gb.write(0x2000, 0x34);
    assert_eq!(gb.cart.selected_rom_bank, 0x34);
    gb.write(0x3000, 0x01);
    assert_eq!(gb.cart.selected_rom_bank, 0x134);
    assert_eq!(gb.read(0x4000), 0x34);
    assert_eq!(gb.read(0x4001), 0x01);
    gb.write(0x3000, 0x00);
    gb.write(0x2000, 0x00);
    assert_eq!(gb.cart.selected_rom_bank, 1);
}

#[test]
fn memory_regions() {
    let mut gb = boot(banked_rom(0x00, 0, 0, 2, false), Vec::new(), false);
    gb.write(0x8000, 0x12);
    assert_eq!(gb.vram[0], 0x12);
    assert_eq!(gb.read(0x8000), 0x12);
    gb.write(0xC123, 0x34);
    assert_eq!(gb.read(0xC123), 0x34);
    assert_eq!(gb.read(0xE123), 0x34);
    gb.write(0xD123, 0x56);
    assert_eq!(gb.wram[0x1123], 0x56);
    assert_eq!(gb.read(0xF123), 0x56);
    gb.write(0xF124, 0x57);
    assert_eq!(gb.read(0xD124), 0x57);
    gb.write(0xFE10, 0x78);
    assert_eq!(gb.oam[0x10], 0x78);
    assert_eq!(gb.read(0xFE10), 0x78);
    gb.write(0xFEA5, 0x99);
    assert_eq!(gb.read(0xFEA5), 0xFF);
    gb.write(0xFF85, 0x9A);
    assert_eq!(gb.read(0xFF85), 0x9A);
    gb.write(0xFFFF, 0x1F);
    assert_eq!(gb.hram_io[0xFF], 0x1F);
    assert_eq!(gb.read(0xFFFF), 0x1F);
}

#[test]
fn io_registers_have_their_side_effects() {
    let mut gb = boot(banked_rom(0x00, 0, 0, 2, false), Vec::new(), false);
    gb.write(0xFF04, 0x55);
    assert_eq!(gb.read(0xFF04), 0x00);
    gb.write(0xFF0F, 0x01);
    assert_eq!(gb.read(0xFF0F), 0xE1);
    gb.write(0xFF41, 0xFF);
    assert_eq!(gb.read(0xFF41), 0xF8 | 0x01);
    gb.write(0xFF44, 0x50);
    assert_eq!(gb.read(0xFF44), 0x00);
    gb.write(0xFF47, 0xE4);
    assert_eq!(gb.bg_palette, vec![0, 1, 2, 3]);
    gb.write(0xFF48, 0x1B);
    gb.write(0xFF49, 0xD2);
    assert_eq!(gb.sp_palette, vec![3, 2, 1, 0, 2, 0, 1, 3]);
    gb.write(0xFF50, 0x00);
    assert_eq!(gb.read(0xFF50), 0x01);
    // sound registers read back with their unused bits set
    gb.write(0xFF10, 0x00);
    assert_eq!(gb.read(0xFF10), 0x80);
    gb.write(0xFF11, 0x40);
    assert_eq!(gb.read(0xFF11), 0x7F);
    gb.write(0xFF30, 0x12);
    assert_eq!(gb.read(0xFF30), 0x12);
    gb.write(0xFF26, 0x00);
    assert_eq!(gb.read(0xFF26), 0x70);
    // a color register does nothing on a monochrome console
    gb.write(0xFF4F, 0x01);
    assert_eq!(gb.cgb.vram_bank, 0);
}

#[test]
fn joypad_register_takes_in_the_selected_lines() {
    let mut gb = boot(banked_rom(0x00, 0, 0, 2, false), Vec::new(), false);
    // A and Start held, and Left
    gb.set_joypad(0x01 | 0x08 | 0x20);
    assert_eq!(gb.direct.joypad, 0xD6);
    gb.write(0xFF00, 0x10);
    assert_eq!(gb.read(0xFF00), 0x10 | 0x06);
    gb.write(0xFF00, 0x20);
    assert_eq!(gb.read(0xFF00), 0x20 | 0x0D);
}

#[test]
fn switching_the_lcd_off_rewinds_the_renderer() {
    let mut gb = boot(banked_rom(0x00, 0, 0, 2, false), Vec::new(), false);
    gb.hram_io[0x44] = 77;
    gb.counter.lcd_count = 123;
    gb.write(0xFF40, 0x11);
    assert_eq!(gb.hram_io[0x44], 0);
    assert_eq!(gb.counter.lcd_count, 0);
    assert_eq!(gb.hram_io[0x41] & 0x03, 0);
    assert!(!gb.lcd_blank);
    gb.write(0xFF40, 0x91);
    assert!(gb.lcd_blank);
}

#[test]
fn oam_transfer_copies_a_page() {
    let mut gb = boot(banked_rom(0x00, 0, 0, 2, false), Vec::new(), false);
    for i in 0..160u16 {
        gb.write(0xC200 + i, (i as u8) ^ 0xA5);
    }
    gb.write(0xFF46, 0xC2);
    assert_eq!(gb.read(0xFF46), 0xC2);
    for i in 0..160usize {
        assert_eq!(gb.oam[i], (i as u8) ^ 0xA5);
    }
}

#[test]
fn boot_rom_overlays_the_first_page() {
    let mut host = BufferedHost::new(banked_rom(0x00, 0, 0, 2, false), Vec::new());
    let mut boot_image = vec![0u8; 0x100];
    boot_image[0] = 0x31;
    boot_image[0xFF] = 0x77;
    host.set_bootrom(boot_image);
    let mut gb = match Gb::new(host, config(false)) {
        Ok(gb) => gb,
        Err(_) => panic!("a valid header was refused"),
    };
    // without the switch the cartridge is read
    assert_eq!(gb.read(0x0000), 0x00);
    gb.gb_set_bootrom();
    gb.gb_reset();
    assert_eq!(gb.cpu_reg.pc.bytes, 0x0000);
    assert_eq!(gb.hram_io[0x50], 0x00);
    assert_eq!(gb.hram_io[0x40], 0x00);
    assert_eq!(gb.hram_io[0x41], 0x84);
    assert_eq!(gb.read(0x0000), 0x31);
    assert_eq!(gb.read(0x00FF), 0x77);
    assert_eq!(gb.read(0x0100), 0x00);
    gb.write(0xFF50, 0x01);
    assert_eq!(gb.read(0x0000), 0x00);
}

#[test]
fn color_mode_banks_working_and_video_ram() {
    let mut gb = boot(banked_rom(0x00, 0, 0, 2, true), Vec::new(), true);
    assert!(gb.cgb.mode);
    assert_eq!(gb.cpu_reg.a, 0x11);
    assert_eq!(gb.cpu_reg.bc.bytes, 0x0000);
    assert_eq!(gb.cpu_reg.de.bytes, 0x0008);
    assert_eq!(gb.cpu_reg.hl.bytes, 0x007C);
    assert_eq!(gb.hram_io[0x04], 0xFF);
    assert_eq!(gb.hram_io[0x02], 0x7F);
    assert_eq!(gb.wram.len(), 0x8000);
    assert_eq!(gb.vram.len(), 0x4000);
    gb.write(0xD000, 0x01);
    gb.write(0xFF70, 0x03);
    assert_eq!(gb.read(0xFF70), 0x03);
    gb.write(0xD000, 0x03);
    assert_eq!(gb.wram[0x3000], 0x03);
    gb.write(0xFF70, 0x00);
    assert_eq!(gb.read(0xD000), 0x01);
    gb.write(0xC000, 0x0C);
    gb.write(0xFF70, 0x05);
    assert_eq!(gb.read(0xC000), 0x0C);
    gb.write(0x8000, 0xAA);
    gb.write(0xFF4F, 0x01);
    assert_eq!(gb.read(0xFF4F), 0xFF);
    gb.write(0x8000, 0xBB);
    assert_eq!(gb.vram[0x2000], 0xBB);
    gb.write(0xFF4F, 0x00);
    assert_eq!(gb.read(0x8000), 0xAA);
}

#[test]
fn monochrome_cartridge_on_a_color_console_stays_monochrome() {
    let gb = boot(banked_rom(0x00, 0, 0, 2, false), Vec::new(), true);
    assert!(!gb.cgb.mode);
    assert_eq!(gb.cpu_reg.a, 0x01);
    assert_eq!(gb.wram.len(), 0x8000);
}

#[test]
fn color_cartridge_on_a_monochrome_console_stays_monochrome() {
    let gb = boot(banked_rom(0x00, 0, 0, 2, true), Vec::new(), false);
    assert!(!gb.cgb.mode);
    assert_eq!(gb.wram.len(), 0x2000);
    assert_eq!(gb.vram.len(), 0x2000);
}

#[test]
fn color_palette_data_builds_the_color_table() {
    let mut gb = boot(banked_rom(0x00, 0, 0, 2, true), Vec::new(), true);
    // index 2 with auto increment
    gb.write(0xFF68, 0x82);
    assert_eq!(gb.read(0xFF68), 0x82);
    gb.write(0xFF69, 0x1F);
    gb.write(0xFF69, 0x7C);
    assert_eq!(gb.cgb.bg_palette_id, 4);
    assert_eq!(gb.cgb_bg_palette[2], 0x1F);
    assert_eq!(gb.cgb_bg_palette[3], 0x7C);
    // 0x7C1F: blue 31, green 0, red 31 -> the same with red and blue exchanged
    assert_eq!(gb.get_palette()[1], 0x7C1F);
    gb.write(0xFF68, 0x00);
    gb.write(0xFF69, 0x1F);
    gb.write(0xFF68, 0x01);
    gb.write(0xFF69, 0x00);
    assert_eq!(gb.get_palette()[0], 0x7C00);
    assert_eq!(gb.cgb.bg_palette_id, 1);
    gb.write(0xFF6A, 0xBF);
    gb.write(0xFF6B, 0x03);
    assert_eq!(gb.cgb.oam_palette_id, 0);
    assert_eq!(gb.cgb_oam_palette[0x3F], 0x03);
    // low byte 0x7F from the reset, high byte 0x03: 0x037F with red and blue
    // exchanged
    assert_eq!(gb.get_palette()[0x3F], 0x7F60);
}

#[test]
fn general_purpose_transfer_copies_to_video_ram() {
    let mut gb = boot(banked_rom(0x00, 0, 0, 2, true), Vec::new(), true);
    for i in 0..0x20u16 {
        gb.write(0xC100 + i, 0x40 + i as u8);
    }
    gb.write(0xFF51, 0xC1);
    gb.write(0xFF52, 0x05);
    gb.write(0xFF53, 0x01);
    gb.write(0xFF54, 0x23);
    gb.write(0xFF55, 0x01);
    for i in 0..0x20usize {
        assert_eq!(gb.vram[0x0120 + i], 0x40 + i as u8);
    }
    assert_eq!(gb.cgb.dma_source, 0xC105 + 0x20);
    assert_eq!(gb.cgb.dma_dest, 0x0123 + 0x20);
    assert_eq!(gb.cgb.dma_active, 1);
    assert_eq!(gb.read(0xFF55), 0xFF);
}

#[test]
fn clock_ticks_and_wraps() {
    let mut rtc = CartRtc::new();
    rtc.set_sec(58);
    rtc.set_min(59);
    rtc.set_hour(23);
    rtc.set_yday(0xFF);
    rtc.set_high(0x01);
    rtc.tick();
    assert_eq!((rtc.get_sec(), rtc.get_min(), rtc.get_hour()), (59, 59, 23));
    rtc.tick();
    assert_eq!((rtc.get_sec(), rtc.get_min(), rtc.get_hour()), (0, 0, 0));
    assert_eq!(rtc.get_yday(), 0);
    // the ninth day bit was set: the counter wrapped at 512, the carry is set
    assert_eq!(rtc.get_high(), 0x80);
    let mut rtc = CartRtc::new();
    rtc.set_yday(0xFF);
    rtc.set_sec(59);
    rtc.set_min(59);
    rtc.set_hour(23);
    rtc.tick();
    assert_eq!(rtc.get_yday(), 0);
    assert_eq!(rtc.get_high(), 0x01);
    let mut rtc = CartRtc::new();
    rtc.set_sec(63);
    rtc.set_min(7);
    rtc.tick();
    assert_eq!((rtc.get_sec(), rtc.get_min()), (0, 7));
    rtc.put(4, 0xFF);
    assert_eq!(rtc.get(4), 0xC1);
    rtc.put(1, 0xFF);
    assert_eq!(rtc.get(1), 0x3F);
}

#[test]
fn bank_controller_alone() {
    let mut cart = Cart::new(Mbc::Mbc1, true, 7, 4);
    cart.control(0x2000, 0x08);
    assert_eq!(cart.selected_rom_bank, 1);
    cart.control(0x2000, 0x0B);
    assert_eq!(cart.selected_rom_bank, 3);
    assert_eq!(cart.rom_offset(0x4123), 0x4123 + 2 * 0x4000);
    cart.reset();
    assert_eq!(cart.selected_rom_bank, 1);
    assert_eq!(cart.rom_offset(0x7FFF), 0x7FFF);
}

#[test]
fn set_clock_from_the_host() {
    let mut gb = boot(banked_rom(0x10, 6, 3, 128, false), vec![0u8; 0x8000], false);
    gb.gb_set_rtc(12, 34, 5, 0x1A7);
    assert_eq!(gb.cart.rtc_real.get_sec(), 12);
    assert_eq!(gb.cart.rtc_real.get_min(), 34);
    assert_eq!(gb.cart.rtc_real.get_hour(), 5);
    assert_eq!(gb.cart.rtc_real.get_yday(), 0xA7);
    assert_eq!(gb.cart.rtc_real.get_high(), 0x01);
}
