use cashew_gb::gb::FrameEnd;
use cashew_gb::host::BufferedHost;
use cashew_gb::sprite::{compare_sprites, is_before, SpriteData};
use cashew_gb::state::{Config, Gb};
use std::cmp::Ordering;

fn config(color: bool, accurate: bool, tagged: bool) -> Config {
    Config {
        color,
        high_lcd_accuracy: accurate,
        tagged_palette: tagged,
        frame_skip: false,
        interlace: false,
    }
}

fn seal(rom: &mut Vec<u8>) {
    let mut x: u8 = 0;
    for i in 0x0134..=0x014C {
        x = x.wrapping_sub(rom[i]).wrapping_sub(1);
    }
    rom[0x014D] = x;
}

fn boot(cfg: Config, cgb: bool) -> Gb<BufferedHost> {
    let mut rom = vec![0u8; 0x8000];
    rom[0x0100] = 0x18;
    rom[0x0101] = 0xFE;
    if cgb {
        rom[0x0143] = 0x80;
    }
    seal(&mut rom);
    let mut gb = match Gb::new(BufferedHost::new(rom, Vec::new()), cfg) {
        Ok(gb) => gb,
        Err(_) => panic!("a valid header was refused"),
    };
    gb.gb_init_lcd();
    gb
}

/// Tile 1: every row is the pattern 0 1 2 3 0 1 2 3.
fn load_tiles(gb: &mut Gb<BufferedHost>) {
    for row in 0..8u16 {
        gb.write(0x8010 + 2 * row, 0b0101_0101);
        gb.write(0x8010 + 2 * row + 1, 0b0011_0011);
    }
    // tile 2: solid color 3
    for row in 0..8u16 {
        gb.write(0x8020 + 2 * row, 0xFF);
        gb.write(0x8020 + 2 * row + 1, 0xFF);
    }
}

#[test]
fn background_row_with_scroll() {
    let mut gb = boot(config(false, false, false), false);
    load_tiles(&mut gb);
    gb.write(0xFF47, 0xE4);
    // map row 0: tile 1 everywhere
    for i in 0..32u16 {
        gb.write(0x9800 + i, 0x01);
    }
    gb.write(0xFF40, 0x91);
    gb.write(0xFF43, 0x00);
    let row = gb.render_line();
    for x in 0..160 {
        assert_eq!(row[x], (x % 4) as u8);
    }
    gb.write(0xFF43, 0x01);
    let row = gb.render_line();
    for x in 0..160 {
        assert_eq!(row[x], ((x + 1) % 4) as u8);
    }
    // a palette that inverts the shades
    gb.write(0xFF47, 0x1B);
    let row = gb.render_line();
    assert_eq!(&row[0..4], &[2, 1, 0, 3]);
    // vertical scroll onto map row 1, which holds tile 0
    gb.write(0xFF42, 0x08);
    let row = gb.render_line();
    assert!(row.iter().all(|p| *p == 3));
}

#[test]
fn background_wraps_around_the_map() {
    let mut gb = boot(config(false, false, false), false);
    load_tiles(&mut gb);
    gb.write(0xFF47, 0xE4);
    gb.write(0x9800 + 31, 0x02);
    gb.write(0xFF43, 0xF8);
    let row = gb.render_line();
    for x in 0..8 {
        assert_eq!(row[x], 3);
    }
    for x in 8..160 {
        assert_eq!(row[x], 0);
    }
}

#[test]
fn signed_tile_block() {
    let mut gb = boot(config(false, false, false), false);
    gb.write(0xFF47, 0xE4);
    // tile 0x80 of the second block sits at 0x8800, tile 0 at 0x9000
    for row in 0..8u16 {
        gb.write(0x9000 + 2 * row, 0xFF);
    }
    gb.write(0xFF40, 0x81);
    let row = gb.render_line();
    assert!(row.iter().all(|p| *p == 1));
    gb.write(0x9800, 0x80);
    for row in 0..8u16 {
        gb.write(0x8800 + 2 * row + 1, 0xFF);
    }
    let row = gb.render_line();
    assert_eq!(&row[0..8], &[2; 8]);
    assert_eq!(row[8], 1);
}

#[test]
fn background_off_leaves_index_zero() {
    let mut gb = boot(config(false, false, false), false);
    load_tiles(&mut gb);
    gb.write(0xFF47, 0x1B);
    for i in 0..32u16 {
        gb.write(0x9800 + i, 0x02);
    }
    gb.write(0xFF40, 0x90);
    let row = gb.render_line();
    assert!(row.iter().all(|p| *p == 0));
    // a sprite still shows, and only where it lies
    gb.write(0xFF48, 0xE4);
    gb.write(0xFE00, 16);
    gb.write(0xFE01, 8 + 20);
    gb.write(0xFE02, 0x02);
    gb.write(0xFE03, 0x00);
    gb.write(0xFF40, 0x92);
    let row = gb.render_line();
    for x in 0..160 {
        assert_eq!(row[x], if (20..28).contains(&x) { 3 } else { 0 });
    }
}

#[test]
fn window_covers_from_its_left_edge() {
    let mut gb = boot(config(false, false, false), false);
    load_tiles(&mut gb);
    gb.write(0xFF47, 0xE4);
    for i in 0..32u16 {
        gb.write(0x9C00 + i, 0x02);
    }
    gb.write(0xFF4A, 0x00);
    gb.write(0xFF4B, 87);
    gb.write(0xFF40, 0x91 | 0x20 | 0x40);
    gb.display.wy = 0;
    let row = gb.render_line();
    for x in 0..160 {
        assert_eq!(row[x], if x >= 80 { 3 } else { 0 });
    }
    let before = gb.display.window_clear;
    gb.draw_line();
    assert_eq!(gb.display.window_clear, before + 1);
    // a window that starts below this line is not drawn
    gb.display.wy = 10;
    let row = gb.render_line();
    assert!(row.iter().all(|p| *p == 0));
    gb.draw_line();
    assert_eq!(gb.display.window_clear, before + 1);
    // beyond the right edge
    gb.display.wy = 0;
    gb.write(0xFF4B, 167);
    let row = gb.render_line();
    assert!(row.iter().all(|p| *p == 0));
}

#[test]
fn sprite_flips_and_priority() {
    let mut gb = boot(config(false, false, false), false);
    load_tiles(&mut gb);
    gb.write(0xFF47, 0xE4);
    gb.write(0xFF48, 0xE4);
    gb.write(0xFF49, 0x1B);
    gb.write(0xFF40, 0x93);
    gb.write(0xFE00, 16);
    gb.write(0xFE01, 8);
    gb.write(0xFE02, 0x01);
    gb.write(0xFE03, 0x00);
    let row = gb.render_line();
    // color 0 of the sprite is transparent
    assert_eq!(&row[0..8], &[0, 1, 2, 3, 0, 1, 2, 3]);
    gb.write(0xFE03, 0x20);
    let row = gb.render_line();
    assert_eq!(&row[0..8], &[3, 2, 1, 0, 3, 2, 1, 0]);
    gb.write(0xFE03, 0x10);
    let row = gb.render_line();
    assert_eq!(&row[0..8], &[0, 2, 1, 0, 0, 2, 1, 0]);
    // behind the background: shows only over the background's first shade
    for i in 0..32u16 {
        gb.write(0x9800 + i, 0x02);
    }
    gb.write(0xFE03, 0x80);
    let row = gb.render_line();
    assert_eq!(&row[0..8], &[3; 8]);
    gb.write(0xFE03, 0x00);
    let row = gb.render_line();
    assert_eq!(&row[0..8], &[3, 1, 2, 3, 3, 1, 2, 3]);
    // partly off the left edge
    gb.write(0xFE01, 3);
    let row = gb.render_line();
    assert_eq!(&row[0..4], &[1, 2, 3, 3]);
    // off screen
    gb.write(0xFE01, 0);
    let row = gb.render_line();
    assert_eq!(&row[0..8], &[3; 8]);
    gb.write(0xFE01, 168);
    let row = gb.render_line();
    assert!(row.iter().all(|p| *p == 3));
}

#[test]
fn tall_sprites_and_vertical_flip() {
    let mut gb = boot(config(false, false, false), false);
    gb.write(0xFF48, 0xE4);
    // tile 2: rows of color 1; tile 3: rows of color 2
    for row in 0..8u16 {
        gb.write(0x8020 + 2 * row, 0xFF);
        gb.write(0x8030 + 2 * row + 1, 0xFF);
    }
    gb.write(0xFF40, 0x97);
    gb.write(0xFE00, 16);
    gb.write(0xFE01, 8);
    gb.write(0xFE02, 0x03);
    gb.write(0xFE03, 0x00);
    let row = gb.render_line();
    assert_eq!(row[0], 1);
    gb.write(0xFE03, 0x40);
    let row = gb.render_line();
    assert_eq!(row[0], 2);
    // line 8 of the sprite
    gb.hram_io[0x44] = 8;
    let row = gb.render_line();
    assert_eq!(row[0], 1);
    // an 8-line sprite does not reach line 8
    gb.write(0xFF40, 0x93);
    let row = gb.render_line();
    assert_eq!(row[0], 0);
}

#[test]
fn overlapping_sprites_in_table_order() {
    let mut gb = boot(config(false, false, false), false);
    load_tiles(&mut gb);
    gb.write(0xFF48, 0xE4);
    gb.write(0xFF49, 0x1B);
    gb.write(0xFF40, 0x93);
    // sprite 0 at x = 12 with the first palette, sprite 1 at x = 8 with the
    // second: tile 2 is solid color 3
    gb.write(0xFE00, 16);
    gb.write(0xFE01, 8 + 4);
    gb.write(0xFE02, 0x02);
    gb.write(0xFE03, 0x00);
    gb.write(0xFE04, 16);
    gb.write(0xFE05, 8);
    gb.write(0xFE06, 0x02);
    gb.write(0xFE07, 0x10);
    let row = gb.render_line();
    // in table order the first sprite wins the overlap
    assert_eq!(&row[0..12], &[0, 0, 0, 0, 3, 3, 3, 3, 3, 3, 3, 3]);
}

#[test]
fn overlapping_sprites_by_x_coordinate() {
    let mut gb = boot(config(false, true, false), false);
    load_tiles(&mut gb);
    gb.write(0xFF48, 0xE4);
    gb.write(0xFF49, 0x1B);
    gb.write(0xFF40, 0x93);
    gb.write(0xFE00, 16);
    gb.write(0xFE01, 8 + 4);
    gb.write(0xFE02, 0x02);
    gb.write(0xFE03, 0x00);
    gb.write(0xFE04, 16);
    gb.write(0xFE05, 8);
    gb.write(0xFE06, 0x02);
    gb.write(0xFE07, 0x10);
    let row = gb.render_line();
    // the sprite further left wins the overlap
    assert_eq!(&row[0..12], &[0, 0, 0, 0, 0, 0, 0, 0, 3, 3, 3, 3]);
}

#[test]
fn at_most_ten_sprites_on_a_line_when_ordered() {
    let mut gb = boot(config(false, true, false), false);
    load_tiles(&mut gb);
    gb.write(0xFF48, 0xE4);
    gb.write(0xFF40, 0x93);
    for s in 0..12u16 {
        gb.write(0xFE00 + 4 * s, 16);
        gb.write(0xFE01 + 4 * s, (8 + 8 * (11 - s)) as u8);
        gb.write(0xFE02 + 4 * s, 0x02);
        gb.write(0xFE03 + 4 * s, 0x00);
    }
    let row = gb.render_line();
    // the ten leftmost are drawn: the sprites at x = 80 and x = 88 are not
    for x in 0..80 {
        assert_eq!(row[x], 3);
    }
    for x in 80..160 {
        assert_eq!(row[x], 0);
    }
    // in table order all twelve are drawn
    let mut gb = boot(config(false, false, false), false);
    load_tiles(&mut gb);
    gb.write(0xFF48, 0xE4);
    gb.write(0xFF40, 0x93);
    for s in 0..12u16 {
        gb.write(0xFE00 + 4 * s, 16);
        gb.write(0xFE01 + 4 * s, (8 + 8 * (11 - s)) as u8);
        gb.write(0xFE02 + 4 * s, 0x02);
    }
    let row = gb.render_line();
    for x in 0..96 {
        assert_eq!(row[x], 3);
    }
}

#[test]
fn tagged_palette_marks_the_layers() {
    let mut gb = boot(config(false, false, true), false);
    load_tiles(&mut gb);
    gb.write(0xFF47, 0xE4);
    gb.write(0xFF48, 0xE4);
    gb.write(0xFF49, 0xE4);
    gb.write(0xFF40, 0x93);
    gb.write(0xFE00, 16);
    gb.write(0xFE01, 8);
    gb.write(0xFE02, 0x02);
    gb.write(0xFE03, 0x10);
    gb.write(0xFE04, 16);
    gb.write(0xFE05, 16);
    gb.write(0xFE06, 0x02);
    gb.write(0xFE07, 0x00);
    let row = gb.render_line();
    assert_eq!(row[0], 0x13);
    assert_eq!(row[8], 0x03);
    assert_eq!(row[16], 0x20);
}

#[test]
fn color_mode_tile_attributes() {
    let mut gb = boot(config(true, false, false), true);
    assert!(gb.cgb.mode);
    load_tiles(&mut gb);
    for i in 0..32u16 {
        gb.write(0x9800 + i, 0x01);
    }
    // attributes in the second bank: palette 5, horizontal flip
    gb.write(0xFF4F, 0x01);
    gb.write(0x9800, 0x25);
    gb.write(0x9801, 0x83);
    gb.write(0xFF4F, 0x00);
    gb.write(0xFF40, 0x91);
    let row = gb.render_line();
    assert_eq!(&row[0..4], &[5 * 4 + 3, 5 * 4 + 2, 5 * 4 + 1, 5 * 4]);
    assert_eq!(&row[8..12], &[3 * 4, 3 * 4 + 1, 3 * 4 + 2, 3 * 4 + 3]);
    assert_eq!(&row[16..20], &[0, 1, 2, 3]);
    // a sprite with palette 2 over it: hidden by the tile's priority except
    // over background color 0
    gb.write(0xFF40, 0x93);
    gb.write(0xFE00, 16);
    gb.write(0xFE01, 16);
    gb.write(0xFE02, 0x02);
    gb.write(0xFE03, 0x02);
    let row = gb.render_line();
    assert_eq!(&row[8..12], &[0x20 + 2 * 4 + 3, 3 * 4 + 1, 3 * 4 + 2, 3 * 4 + 3]);
    // with the background's master priority off the sprite always shows
    gb.write(0xFF40, 0x92);
    let row = gb.render_line();
    assert_eq!(&row[8..12], &[0x20 + 2 * 4 + 3; 4]);
}

#[test]
fn a_frame_fills_the_frame_buffer() {
    let mut gb = boot(config(false, false, false), false);
    load_tiles(&mut gb);
    gb.write(0xFF47, 0xE4);
    for i in 0..0x400u16 {
        gb.write(0x9800 + i, 0x01);
    }
    assert_eq!(gb.run_frame(), Ok(FrameEnd::Complete));
    // the first frame after the reset starts in vertical blank mode on line
    // 0, which is not drawn; every other line is
    let frame = gb.get_context().frame();
    for y in 1..144 {
        for x in 0..160 {
            assert_eq!(frame[160 * y + x], (x % 4) as u8);
        }
    }
    assert_eq!(gb.run_frame(), Ok(FrameEnd::Complete));
    let frame = gb.get_context().frame();
    for x in 0..160 {
        assert_eq!(frame[x], (x % 4) as u8);
    }
}

#[test]
fn no_lines_without_a_receiver() {
    let mut rom = vec![0u8; 0x8000];
    rom[0x0100] = 0x18;
    rom[0x0101] = 0xFE;
    seal(&mut rom);
    let mut gb = match Gb::new(BufferedHost::new(rom, Vec::new()), config(false, false, false)) {
        Ok(gb) => gb,
        Err(_) => panic!("a valid header was refused"),
    };
    gb.write(0xFF47, 0xFF);
    assert_eq!(gb.run_frame(), Ok(FrameEnd::Complete));
    assert_eq!(gb.run_frame(), Ok(FrameEnd::Complete));
    assert!(gb.get_context().frame().iter().all(|p| *p == 0));
}

#[test]
fn frame_skip_draws_every_other_frame() {
    let mut rom = vec![0u8; 0x8000];
    rom[0x0100] = 0x18;
    rom[0x0101] = 0xFE;
    seal(&mut rom);
    let cfg = Config {
        color: false,
        high_lcd_accuracy: false,
        tagged_palette: false,
        frame_skip: true,
        interlace: false,
    };
    let mut gb = match Gb::new(BufferedHost::new(rom, Vec::new()), cfg) {
        Ok(gb) => gb,
        Err(_) => panic!("a valid header was refused"),
    };
    gb.gb_init_lcd();
    assert!(gb.direct.frame_skip);
    gb.write(0xFF47, 0x55);
    assert_eq!(gb.run_frame(), Ok(FrameEnd::Complete));
    assert!(gb.display.frame_skip_count);
    assert!(gb.get_context().frame().iter().all(|p| *p == 0));
    assert_eq!(gb.run_frame(), Ok(FrameEnd::Complete));
    assert!(!gb.display.frame_skip_count);
    assert!(gb.get_context().frame().iter().all(|p| *p == 1));
    gb.write(0xFF47, 0xAA);
    assert_eq!(gb.run_frame(), Ok(FrameEnd::Complete));
    assert!(gb.get_context().frame().iter().all(|p| *p == 1));
    assert_eq!(gb.run_frame(), Ok(FrameEnd::Complete));
    assert!(gb.get_context().frame().iter().all(|p| *p == 2));
}

#[test]
fn interlace_draws_alternate_lines() {
    let mut rom = vec![0u8; 0x8000];
    rom[0x0100] = 0x18;
    rom[0x0101] = 0xFE;
    seal(&mut rom);
    let cfg = Config {
        color: false,
        high_lcd_accuracy: false,
        tagged_palette: false,
        frame_skip: false,
        interlace: true,
    };
    let mut gb = match Gb::new(BufferedHost::new(rom, Vec::new()), cfg) {
        Ok(gb) => gb,
        Err(_) => panic!("a valid header was refused"),
    };
    gb.gb_init_lcd();
    gb.write(0xFF47, 0x55);
    assert_eq!(gb.run_frame(), Ok(FrameEnd::Complete));
    assert_eq!(gb.run_frame(), Ok(FrameEnd::Complete));
    // the first frame drew the odd lines, the second the even ones
    let frame = gb.get_context().frame();
    for y in 1..144usize {
        assert_eq!(frame[160 * y], 1);
    }
    gb.write(0xFF47, 0xAA);
    assert_eq!(gb.run_frame(), Ok(FrameEnd::Complete));
    // the third frame draws the odd lines again
    let frame = gb.get_context().frame();
    for y in 1..144usize {
        assert_eq!(frame[160 * y], if y % 2 == 1 { 2 } else { 1 });
    }
}

#[test]
fn sprite_order() {
    let a = SpriteData { sprite_number: 3, x: 10 };
    let b = SpriteData { sprite_number: 1, x: 20 };
    let c = SpriteData { sprite_number: 5, x: 10 };
    assert_eq!(compare_sprites(&Some(a), &Some(b)), Ordering::Less);
    assert_eq!(compare_sprites(&Some(b), &Some(a)), Ordering::Greater);
    assert_eq!(compare_sprites(&Some(a), &Some(c)), Ordering::Less);
    assert_eq!(compare_sprites(&Some(c), &Some(a)), Ordering::Greater);
    assert_eq!(compare_sprites(&Some(a), &Some(a)), Ordering::Less);
    assert_eq!(compare_sprites(&Some(a), &None), Ordering::Less);
    assert_eq!(compare_sprites(&None, &Some(a)), Ordering::Greater);
    assert_eq!(compare_sprites(&None, &None), Ordering::Equal);
    assert!(is_before(a, b));
    assert!(!is_before(b, a));
    assert!(is_before(a, c));
}
