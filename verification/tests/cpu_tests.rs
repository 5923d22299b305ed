use cashew_gb::gb::FrameEnd;
use cashew_gb::host::{BufferedHost, GbError, GbInitError};
use cashew_gb::state::{Config, Gb};

fn mono() -> Config {
    Config {
        color: false,
        high_lcd_accuracy: false,
        tagged_palette: false,
        frame_skip: false,
        interlace: false,
    }
}

fn seal(rom: &mut Vec<u8>) {
    let mut x: u8 = 0;
    for i in 0x0134..=0x014C {
        x = x.wrapping_sub(rom[i]).wrapping_sub(1);
    }
    rom[0x014D] = x;
}

fn rom_with(program: &[u8]) -> Vec<u8> {
    let mut rom = vec![0u8; 0x8000];
    for (i, b) in program.iter().enumerate() {
        rom[0x0150 + i] = *b;
    }
    // entry point: JP 0x0150
    rom[0x0100] = 0xC3;
    rom[0x0101] = 0x50;
    rom[0x0102] = 0x01;
    seal(&mut rom);
    rom
}

fn boot(program: &[u8]) -> Gb<BufferedHost> {
    let host = BufferedHost::new(rom_with(program), Vec::new());
    match Gb::new(host, mono()) {
        Ok(gb) => gb,
        Err(_) => panic!("a valid header was refused"),
    }
}

fn steps(gb: &mut Gb<BufferedHost>, n: usize) {
    for _ in 0..n {
        assert_eq!(gb.step_cpu(), Ok(()));
    }
}

#[test]
fn reset_registers_monochrome() {
    let gb = boot(&[]);
    assert_eq!(gb.cpu_reg.pc.bytes, 0x0100);
    assert_eq!(gb.cpu_reg.sp.bytes, 0xFFFE);
    assert_eq!(gb.cpu_reg.a, 0x01);
    assert_eq!(gb.cpu_reg.bc.bytes, 0x0013);
    assert_eq!(gb.cpu_reg.de.bytes, 0x00D8);
    assert_eq!(gb.cpu_reg.hl.bytes, 0x014D);
    assert_eq!(gb.cpu_reg.f.get_z(), 1);
    assert_eq!(gb.cpu_reg.f.get_n(), 0);
    assert!(!gb.gb_halt);
    assert!(gb.gb_ime);
    assert_eq!(gb.cart.selected_rom_bank, 1);
    assert_eq!(gb.hram_io[0x40], 0x91);
    assert_eq!(gb.hram_io[0x41], 0x85);
    assert_eq!(gb.hram_io[0x04], 0xAB);
    assert_eq!(gb.hram_io[0x0F], 0xE1);
    assert_eq!(gb.hram_io[0x00], 0xCF);
    assert_eq!(gb.hram_io[0x02], 0x7E);
    assert_eq!(gb.hram_io[0x07], 0xF8);
    assert_eq!(gb.hram_io[0x47], 0xFC);
    assert_eq!(gb.bg_palette, vec![0, 3, 3, 3]);
    assert_eq!(gb.sp_palette, vec![3, 3, 3, 3, 3, 3, 3, 3]);
    assert_eq!(gb.direct.joypad, 0xFF);
}

#[test]
fn reset_flags_follow_header_checksum() {
    let gb = boot(&[]);
    // the sealed header of this cartridge has a non-zero checksum
    assert_ne!(gb.get_context().rom()[0x014D], 0);
    assert_eq!(gb.cpu_reg.f.get_h(), 1);
    assert_eq!(gb.cpu_reg.f.get_c(), 1);
}

#[test]
fn bad_checksum_is_refused() {
    let mut rom = rom_with(&[]);
    rom[0x014D] = rom[0x014D].wrapping_add(1);
    let host = BufferedHost::new(rom, Vec::new());
    assert!(matches!(Gb::new(host, mono()), Err(GbInitError::GbInitInvalidChecksum)));
}

#[test]
fn unsupported_mapper_is_refused() {
    let mut rom = vec![0u8; 0x8000];
    rom[0x0147] = 0x04;
    seal(&mut rom);
    let host = BufferedHost::new(rom, Vec::new());
    assert!(matches!(Gb::new(host, mono()), Err(GbInitError::GbInitCartridgeUnsupported)));
}

#[test]
fn unsupported_size_codes_are_refused() {
    let mut rom = vec![0u8; 0x8000];
    rom[0x0148] = 0x09;
    seal(&mut rom);
    let host = BufferedHost::new(rom, Vec::new());
    assert!(matches!(Gb::new(host, mono()), Err(GbInitError::GbInitCartridgeUnsupported)));
    let mut rom = vec![0u8; 0x8000];
    rom[0x0149] = 0x06;
    seal(&mut rom);
    let host = BufferedHost::new(rom, Vec::new());
    assert!(matches!(Gb::new(host, mono()), Err(GbInitError::GbInitCartridgeUnsupported)));
}

#[test]
fn checksum_is_tested_before_the_mapper() {
    let mut rom = vec![0u8; 0x8000];
    rom[0x0147] = 0x04;
    seal(&mut rom);
    rom[0x014D] = rom[0x014D].wrapping_add(7);
    let host = BufferedHost::new(rom, Vec::new());
    assert!(matches!(Gb::new(host, mono()), Err(GbInitError::GbInitInvalidChecksum)));
}

#[test]
fn jump_and_loads() {
    // LD A,0x3C ; LD B,0xC6 ; ADD A,B ; LD (0xC000),A
    let mut gb = boot(&[0x3E, 0x3C, 0x06, 0xC6, 0x80, 0xEA, 0x00, 0xC0]);
    steps(&mut gb, 1);
    assert_eq!(gb.cpu_reg.pc.bytes, 0x0150);
    steps(&mut gb, 3);
    assert_eq!(gb.cpu_reg.a, 0x02);
    assert_eq!(gb.cpu_reg.f.get_c(), 1);
    assert_eq!(gb.cpu_reg.f.get_h(), 1);
    assert_eq!(gb.cpu_reg.f.get_z(), 0);
    assert_eq!(gb.cpu_reg.f.get_n(), 0);
    steps(&mut gb, 1);
    assert_eq!(gb.read(0xC000), 0x02);
    assert_eq!(gb.wram[0], 0x02);
    assert_eq!(gb.cpu_reg.pc.bytes, 0x0158);
}

#[test]
fn subtract_and_compare() {
    // LD A,0x10 ; SUB 0x01 ; CP 0x0F ; SBC A,0x10
    let mut gb = boot(&[0x3E, 0x10, 0xD6, 0x01, 0xFE, 0x0F, 0xDE, 0x10]);
    steps(&mut gb, 3);
    assert_eq!(gb.cpu_reg.a, 0x0F);
    assert_eq!(gb.cpu_reg.f.get_h(), 1);
    assert_eq!(gb.cpu_reg.f.get_n(), 1);
    assert_eq!(gb.cpu_reg.f.get_c(), 0);
    steps(&mut gb, 1);
    assert_eq!(gb.cpu_reg.a, 0x0F);
    assert_eq!(gb.cpu_reg.f.get_z(), 1);
    steps(&mut gb, 1);
    assert_eq!(gb.cpu_reg.a, 0xFF);
    assert_eq!(gb.cpu_reg.f.get_c(), 1);
}

#[test]
fn subtract_register_from_itself_sets_zero() {
    // LD A,0x42 ; SUB A
    let mut gb = boot(&[0x3E, 0x42, 0x97]);
    steps(&mut gb, 3);
    assert_eq!(gb.cpu_reg.a, 0);
    assert_eq!(gb.cpu_reg.f.get_z(), 1);
    assert_eq!(gb.cpu_reg.f.get_n(), 1);
    assert_eq!(gb.cpu_reg.f.get_c(), 0);
}

#[test]
fn increment_h_changes_h() {
    // LD HL,0x12FF ; INC H ; DEC H ; INC L
    let mut gb = boot(&[0x21, 0xFF, 0x12, 0x24, 0x25, 0x2C]);
    let de = gb.cpu_reg.de.bytes;
    steps(&mut gb, 3);
    assert_eq!(gb.cpu_reg.hl.bytes, 0x13FF);
    assert_eq!(gb.cpu_reg.de.bytes, de);
    steps(&mut gb, 1);
    assert_eq!(gb.cpu_reg.hl.bytes, 0x12FF);
    steps(&mut gb, 1);
    assert_eq!(gb.cpu_reg.hl.bytes, 0x1200);
    assert_eq!(gb.cpu_reg.f.get_z(), 1);
    assert_eq!(gb.cpu_reg.f.get_h(), 1);
}

#[test]
fn sixteen_bit_increment_wraps() {
    // LD BC,0xFFFF ; INC BC ; DEC BC
    let mut gb = boot(&[0x01, 0xFF, 0xFF, 0x03, 0x0B]);
    steps(&mut gb, 3);
    assert_eq!(gb.cpu_reg.bc.bytes, 0x0000);
    steps(&mut gb, 1);
    assert_eq!(gb.cpu_reg.bc.bytes, 0xFFFF);
}

#[test]
fn stack_call_and_return() {
    // 0150: LD SP,0xDFFF ; CALL 0x0160 ; LD B,A ; (halt loop)
    // 0160: LD A,0x77 ; RET
    let mut program = vec![0u8; 0x20];
    program[0..3].copy_from_slice(&[0x31, 0xFF, 0xDF]);
    program[3..6].copy_from_slice(&[0xCD, 0x60, 0x01]);
    program[6] = 0x47;
    program[0x10..0x13].copy_from_slice(&[0x3E, 0x77, 0xC9]);
    let mut gb = boot(&program);
    steps(&mut gb, 3);
    assert_eq!(gb.cpu_reg.pc.bytes, 0x0160);
    assert_eq!(gb.cpu_reg.sp.bytes, 0xDFFD);
    assert_eq!(gb.read(0xDFFE), 0x01);
    assert_eq!(gb.read(0xDFFD), 0x56);
    steps(&mut gb, 2);
    assert_eq!(gb.cpu_reg.pc.bytes, 0x0156);
    assert_eq!(gb.cpu_reg.sp.bytes, 0xDFFF);
    steps(&mut gb, 1);
    assert_eq!(gb.cpu_reg.bc.get_hi(), 0x77);
}

#[test]
fn push_and_pop_flags() {
    // LD SP,0xDFFF ; LD BC,0x12F0 ; PUSH BC ; POP AF ; PUSH AF ; POP DE
    let mut gb = boot(&[0x31, 0xFF, 0xDF, 0x01, 0xF0, 0x12, 0xC5, 0xF1, 0xF5, 0xD1]);
    steps(&mut gb, 5);
    assert_eq!(gb.cpu_reg.a, 0x12);
    assert_eq!(gb.cpu_reg.f.get_z(), 1);
    assert_eq!(gb.cpu_reg.f.get_n(), 1);
    assert_eq!(gb.cpu_reg.f.get_h(), 1);
    assert_eq!(gb.cpu_reg.f.get_c(), 1);
    steps(&mut gb, 2);
    assert_eq!(gb.cpu_reg.de.bytes, 0x12F0);
}

#[test]
fn relative_jump_backwards() {
    // 0150: NOP ; NOP ; JR -4
    let mut gb = boot(&[0x00, 0x00, 0x18, 0xFC]);
    steps(&mut gb, 4);
    assert_eq!(gb.cpu_reg.pc.bytes, 0x0150);
}

#[test]
fn conditional_jump_not_taken_skips_operand() {
    // XOR A (Z set) ; JR NZ,+5 ; JR NC as signed: SCF ; CCF ; JR NC,-2
    let mut gb = boot(&[0xAF, 0x20, 0x05, 0x37, 0x3F, 0x30, 0xFE]);
    steps(&mut gb, 3);
    assert_eq!(gb.cpu_reg.pc.bytes, 0x0153);
    steps(&mut gb, 3);
    // carry is clear: JR NC,-2 jumps back onto itself
    assert_eq!(gb.cpu_reg.pc.bytes, 0x0155);
}

#[test]
fn rotate_right_through_extended_opcode_sets_carry() {
    // LD B,0x01 ; RRC B ; LD C,0x80 ; RLC C ; SWAP B ; BIT 7,B ; SET 0,B ; RES 7,B
    let mut gb = boot(&[
        0x06, 0x01, 0xCB, 0x08, 0x0E, 0x80, 0xCB, 0x01, 0xCB, 0x30, 0xCB, 0x78, 0xCB, 0xC0, 0xCB,
        0xB8,
    ]);
    steps(&mut gb, 3);
    assert_eq!(gb.cpu_reg.bc.get_hi(), 0x80);
    assert_eq!(gb.cpu_reg.f.get_c(), 1);
    steps(&mut gb, 2);
    assert_eq!(gb.cpu_reg.bc.get_lo(), 0x01);
    assert_eq!(gb.cpu_reg.f.get_c(), 1);
    steps(&mut gb, 1);
    assert_eq!(gb.cpu_reg.bc.get_hi(), 0x08);
    assert_eq!(gb.cpu_reg.f.get_c(), 0);
    steps(&mut gb, 1);
    assert_eq!(gb.cpu_reg.f.get_z(), 1);
    assert_eq!(gb.cpu_reg.f.get_h(), 1);
    steps(&mut gb, 2);
    assert_eq!(gb.cpu_reg.bc.get_hi(), 0x09);
}

#[test]
fn decimal_adjust_after_addition() {
    // LD A,0x45 ; ADD A,0x38 ; DAA
    let mut gb = boot(&[0x3E, 0x45, 0xC6, 0x38, 0x27]);
    steps(&mut gb, 4);
    assert_eq!(gb.cpu_reg.a, 0x83);
    assert_eq!(gb.cpu_reg.f.get_c(), 0);
}

#[test]
fn add_to_stack_pointer_is_signed() {
    // LD SP,0xD000 ; ADD SP,-2 ; LD HL,SP+1
    let mut gb = boot(&[0x31, 0x00, 0xD0, 0xE8, 0xFE, 0xF8, 0x01]);
    steps(&mut gb, 3);
    assert_eq!(gb.cpu_reg.sp.bytes, 0xCFFE);
    steps(&mut gb, 1);
    assert_eq!(gb.cpu_reg.hl.bytes, 0xCFFF);
}

#[test]
fn invalid_opcode_is_reported() {
    let mut gb = boot(&[0xD3]);
    steps(&mut gb, 1);
    assert_eq!(gb.step_cpu(), Err(GbError::GbInvalidOpcode));
    assert_eq!(gb.get_context().last_fault(), Some((GbError::GbInvalidOpcode, 0x0150)));
}

#[test]
fn halt_with_nothing_enabled_is_reported() {
    let mut gb = boot(&[0x76]);
    steps(&mut gb, 1);
    assert_eq!(gb.step_cpu(), Err(GbError::GbHaltForever));
    assert_eq!(gb.get_context().last_fault(), Some((GbError::GbHaltForever, 0x0150)));
    assert!(gb.gb_halt);
    // the CPU sleeps on: frames still pass, and the program counter stays
    assert_eq!(gb.run_frame(), Ok(FrameEnd::Complete));
    assert_eq!(gb.cpu_reg.pc.bytes, 0x0151);
}

#[test]
fn run_frame_ends_at_vertical_blank() {
    // JR -2: a busy loop
    let mut gb = boot(&[0x18, 0xFE]);
    assert_eq!(gb.run_frame(), Ok(FrameEnd::Complete));
    assert!(gb.gb_frame);
    assert_eq!(gb.hram_io[0x44], 144);
    assert_eq!(gb.hram_io[0x41] & 0x03, 1);
    assert_ne!(gb.hram_io[0x0F] & 0x01, 0);
    assert_eq!(gb.run_frame(), Ok(FrameEnd::Complete));
    assert_eq!(gb.hram_io[0x44], 144);
}

#[test]
fn line_register_only_moves_to_the_next_line() {
    let mut gb = boot(&[0x18, 0xFE]);
    let mut ly = gb.hram_io[0x44];
    let mut wraps = 0;
    for _ in 0..40000 {
        let before_frame = gb.gb_frame;
        assert_eq!(gb.step_cpu(), Ok(()));
        let now = gb.hram_io[0x44];
        assert!(now == ly || now == (ly + 1) % 154);
        if now != ly && now == 0 {
            wraps += 1;
        }
        if !before_frame && gb.gb_frame {
            assert_eq!(ly, 143);
            assert_eq!(now, 144);
        }
        if ly == 143 && now == 144 {
            assert!(gb.gb_frame);
            gb.gb_frame = false;
        }
        ly = now;
    }
    assert!(wraps >= 1);
}

#[test]
fn run_frame_stalls_while_the_lcd_is_off() {
    // XOR A ; LDH (0x40),A ; JR -2
    let mut gb = boot(&[0xAF, 0xE0, 0x40, 0x18, 0xFE]);
    assert_eq!(gb.run_frame(), Ok(FrameEnd::Stalled));
    assert!(!gb.gb_frame);
    assert_eq!(gb.hram_io[0x44], 0);
}

#[test]
fn halt_sleeps_until_the_next_interrupt() {
    // LD A,0x01 ; LDH (0xFF),A ; EI ; HALT ; NOP
    let mut program = vec![0u8; 0x10];
    program[0..6].copy_from_slice(&[0x3E, 0x01, 0xE0, 0xFF, 0xFB, 0x76]);
    let mut rom = rom_with(&program);
    rom[0x0040] = 0xD9; // RETI at the vertical blank vector
    seal(&mut rom);
    let host = BufferedHost::new(rom, Vec::new());
    let mut gb = match Gb::new(host, mono()) {
        Ok(gb) => gb,
        Err(_) => panic!("a valid header was refused"),
    };
    gb.hram_io[0x0F] = 0xE0;
    steps(&mut gb, 5);
    assert!(gb.gb_halt);
    assert_eq!(gb.run_frame(), Ok(FrameEnd::Complete));
    assert!(gb.gb_halt);
    // the next step services the vertical blank interrupt and executes the
    // return at its vector
    steps(&mut gb, 1);
    assert!(!gb.gb_halt);
    assert!(gb.gb_ime);
    assert_eq!(gb.hram_io[0x0F] & 0x01, 0);
    assert_eq!(gb.cpu_reg.pc.bytes, 0x0156);
}
