use cashew_gb::exec::Trap;
use cashew_gb::host::BufferedHost;
use cashew_gb::state::{Config, Gb};

const OP_CYCLES: [u8; 0x100] = [
    4, 12, 8, 8, 4, 4, 8, 4, 20, 8, 8, 8, 4, 4, 8, 4, 4, 12, 8, 8, 4, 4, 8, 4, 12, 8, 8, 8, 4, 4, 8,
    4, 8, 12, 8, 8, 4, 4, 8, 4, 8, 8, 8, 8, 4, 4, 8, 4, 8, 12, 8, 8, 12, 12, 12, 4, 8, 8, 8, 8, 4,
    4, 8, 4, 4, 4, 4, 4, 4, 4, 8, 4, 4, 4, 4, 4, 4, 4, 8, 4, 4, 4, 4, 4, 4, 4, 8, 4, 4, 4, 4, 4, 4,
    4, 8, 4, 4, 4, 4, 4, 4, 4, 8, 4, 4, 4, 4, 4, 4, 4, 8, 4, 8, 8, 8, 8, 8, 8, 4, 8, 4, 4, 4, 4, 4,
    4, 8, 4, 4, 4, 4, 4, 4, 4, 8, 4, 4, 4, 4, 4, 4, 4, 8, 4, 4, 4, 4, 4, 4, 4, 8, 4, 4, 4, 4, 4, 4,
    4, 8, 4, 4, 4, 4, 4, 4, 4, 8, 4, 4, 4, 4, 4, 4, 4, 8, 4, 4, 4, 4, 4, 4, 4, 8, 4, 4, 4, 4, 4, 4,
    4, 8, 4, 8, 12, 12, 16, 12, 16, 8, 16, 8, 16, 12, 8, 12, 24, 8, 16, 8, 12, 12, 0, 12, 16, 8,
    16, 8, 16, 12, 0, 12, 0, 8, 16, 12, 12, 8, 0, 0, 16, 8, 16, 16, 4, 16, 0, 0, 0, 8, 16, 12, 12,
    8, 4, 0, 16, 8, 16, 12, 8, 16, 4, 0, 0, 8, 16,
];

fn mono() -> Config {
    Config {
        color: false,
        high_lcd_accuracy: false,
        tagged_palette: false,
        frame_skip: false,
        interlace: false,
    }
}

fn boot(program: &[u8]) -> Gb<BufferedHost> {
    let mut rom = vec![0u8; 0x8000];
    for (i, b) in program.iter().enumerate() {
        rom[0x0150 + i] = *b;
    }
    let mut x: u8 = 0;
    for i in 0x0134..=0x014C {
        x = x.wrapping_sub(rom[i]).wrapping_sub(1);
    }
    rom[0x014D] = x;
    let mut gb = match Gb::new(BufferedHost::new(rom, Vec::new()), mono()) {
        Ok(gb) => gb,
        Err(_) => panic!("a valid header was refused"),
    };
    gb.cpu_reg.pc.bytes = 0x0150;
    gb.cpu_reg.sp.bytes = 0xDFF0;
    gb.cpu_reg.hl.bytes = 0xC800;
    gb.gb_ime = false;
    gb
}

fn is_unmapped(op: u8) -> bool {
    matches!(op, 0xD3 | 0xDB | 0xDD | 0xE3 | 0xE4 | 0xEB | 0xEC | 0xED | 0xF4 | 0xFC | 0xFD)
}

/// The condition of a conditional opcode, as the index of its flag test.
fn condition(op: u8) -> Option<(u8, u8)> {
    let y = (op >> 3) & 7;
    match op {
        0x20 | 0x28 | 0x30 | 0x38 => Some((y - 4, 4)),
        0xC0 | 0xC8 | 0xD0 | 0xD8 => Some((y, 12)),
        0xC2 | 0xCA | 0xD2 | 0xDA => Some((y, 4)),
        0xC4 | 0xCC | 0xD4 | 0xDC => Some((y, 12)),
        _ => None,
    }
}

fn set_condition(gb: &mut Gb<BufferedHost>, cond: u8, holds: bool) {
    match cond {
        0 => gb.cpu_reg.f.set_z(!holds),
        1 => gb.cpu_reg.f.set_z(holds),
        2 => gb.cpu_reg.f.set_c(!holds),
        _ => gb.cpu_reg.f.set_c(holds),
    }
}

#[test]
fn base_cycles_of_every_opcode() {
    for op in 0..=255u8 {
        if op == 0x76 || op == 0xCB {
            continue;
        }
        let mut gb = boot(&[op, 0x00, 0xC1]);
        if let Some((cond, _)) = condition(op) {
            set_condition(&mut gb, cond, false);
        }
        let (t, _) = gb.step_ticks();
        if is_unmapped(op) {
            assert_eq!(t.trap, Trap::InvalidOpcode, "opcode {:#04x}", op);
            assert_eq!(OP_CYCLES[op as usize], 0);
        } else {
            assert_eq!(t.trap, Trap::Clear, "opcode {:#04x}", op);
            assert_eq!(t.cycles, OP_CYCLES[op as usize], "opcode {:#04x}", op);
        }
    }
}

#[test]
fn taken_branches_cost_more() {
    for op in 0..=255u8 {
        if let Some((cond, extra)) = condition(op) {
            let mut gb = boot(&[op, 0x00, 0xC1]);
            set_condition(&mut gb, cond, true);
            let (t, _) = gb.step_ticks();
            assert_eq!(t.cycles, OP_CYCLES[op as usize] + extra, "opcode {:#04x}", op);
        }
    }
}

#[test]
fn extended_opcodes_cost_by_operand() {
    for cb in 0..=255u8 {
        let mut gb = boot(&[0xCB, cb]);
        let (t, _) = gb.step_ticks();
        let expect = if cb & 7 != 6 {
            8
        } else if cb >> 6 == 1 {
            12
        } else {
            16
        };
        assert_eq!(t.cycles, expect, "extended opcode {:#04x}", cb);
        assert_eq!(gb.cpu_reg.pc.bytes, 0x0152);
    }
}

#[test]
fn instruction_lengths() {
    // one byte for the register operations, two with an 8-bit operand, three
    // with a 16-bit operand
    for (op, len) in [
        (0x00u8, 1u16),
        (0x06, 2),
        (0x01, 3),
        (0x08, 3),
        (0x36, 2),
        (0x3E, 2),
        (0x80, 1),
        (0xC6, 2),
        (0xE0, 2),
        (0xE8, 2),
        (0xEA, 3),
        (0xF0, 2),
        (0xF8, 2),
        (0xFA, 3),
        (0xFE, 2),
        (0x10, 1),
        (0x27, 1),
    ] {
        let mut gb = boot(&[op, 0x10, 0xC1]);
        gb.step_ticks();
        assert_eq!(gb.cpu_reg.pc.bytes, 0x0150 + len, "opcode {:#04x}", op);
    }
}

#[test]
fn loads_between_all_registers() {
    for dst in 0..8u8 {
        for src in 0..8u8 {
            let op = 0x40 | (dst << 3) | src;
            if op == 0x76 {
                continue;
            }
            let mut gb = boot(&[op]);
            gb.cpu_reg.bc.bytes = 0x1122;
            gb.cpu_reg.de.bytes = 0x3344;
            gb.cpu_reg.hl.bytes = 0xC866;
            gb.cpu_reg.a = 0x77;
            gb.write(0xC866, 0x55);
            let value = [0x11u8, 0x22, 0x33, 0x44, 0xC8, 0x66, 0x55, 0x77][src as usize];
            gb.step_ticks();
            let got = match dst {
                0 => gb.cpu_reg.bc.get_hi(),
                1 => gb.cpu_reg.bc.get_lo(),
                2 => gb.cpu_reg.de.get_hi(),
                3 => gb.cpu_reg.de.get_lo(),
                4 => gb.cpu_reg.hl.get_hi(),
                5 => gb.cpu_reg.hl.get_lo(),
                6 => gb.read(0xC866),
                _ => gb.cpu_reg.a,
            };
            assert_eq!(got, value, "opcode {:#04x}", op);
        }
    }
}

#[test]
fn restarts_and_stack_pairs() {
    for y in 0..8u8 {
        let mut gb = boot(&[0xC7 | (y << 3)]);
        gb.step_ticks();
        assert_eq!(gb.cpu_reg.pc.bytes, 8 * y as u16);
        assert_eq!(gb.cpu_reg.sp.bytes, 0xDFEE);
        assert_eq!(gb.read(0xDFEE), 0x51);
        assert_eq!(gb.read(0xDFEF), 0x01);
    }
    // PUSH DE ; POP HL
    let mut gb = boot(&[0xD5, 0xE1]);
    gb.cpu_reg.de.bytes = 0xABCD;
    gb.step_ticks();
    gb.step_ticks();
    assert_eq!(gb.cpu_reg.hl.bytes, 0xABCD);
    assert_eq!(gb.cpu_reg.sp.bytes, 0xDFF0);
}

#[test]
fn indirect_loads_move_hl() {
    // LD (HL+),A ; LD (HL-),A ; LD A,(HL+) ; LD A,(HL-)
    let mut gb = boot(&[0x22, 0x32, 0x2A, 0x3A, 0x02, 0x1A]);
    gb.cpu_reg.a = 0x5A;
    gb.step_ticks();
    assert_eq!(gb.cpu_reg.hl.bytes, 0xC801);
    assert_eq!(gb.read(0xC800), 0x5A);
    gb.cpu_reg.a = 0x6B;
    gb.step_ticks();
    assert_eq!(gb.cpu_reg.hl.bytes, 0xC800);
    assert_eq!(gb.read(0xC801), 0x6B);
    gb.step_ticks();
    assert_eq!((gb.cpu_reg.a, gb.cpu_reg.hl.bytes), (0x5A, 0xC801));
    gb.step_ticks();
    assert_eq!((gb.cpu_reg.a, gb.cpu_reg.hl.bytes), (0x6B, 0xC800));
    gb.cpu_reg.bc.bytes = 0xC900;
    gb.cpu_reg.de.bytes = 0xC800;
    gb.step_ticks();
    assert_eq!(gb.read(0xC900), 0x6B);
    gb.step_ticks();
    assert_eq!(gb.cpu_reg.a, 0x5A);
}

#[test]
fn sixteen_bit_addition_flags() {
    // ADD HL,BC ; ADD HL,HL ; ADD HL,SP
    let mut gb = boot(&[0x09, 0x29, 0x39]);
    gb.cpu_reg.hl.bytes = 0x0FFF;
    gb.cpu_reg.bc.bytes = 0x0001;
    gb.cpu_reg.f.set_z(true);
    gb.step_ticks();
    assert_eq!(gb.cpu_reg.hl.bytes, 0x1000);
    assert_eq!((gb.cpu_reg.f.get_z(), gb.cpu_reg.f.get_n(), gb.cpu_reg.f.get_h(), gb.cpu_reg.f.get_c()), (1, 0, 1, 0));
    gb.cpu_reg.hl.bytes = 0x8800;
    gb.step_ticks();
    assert_eq!(gb.cpu_reg.hl.bytes, 0x1000);
    assert_eq!((gb.cpu_reg.f.get_h(), gb.cpu_reg.f.get_c()), (1, 1));
    gb.cpu_reg.sp.bytes = 0xF000;
    gb.step_ticks();
    assert_eq!(gb.cpu_reg.hl.bytes, 0x0000);
    assert_eq!((gb.cpu_reg.f.get_h(), gb.cpu_reg.f.get_c()), (0, 1));
}

#[test]
fn accumulator_flag_operations() {
    // CPL ; SCF ; CCF ; CCF ; RLCA ; RRA
    let mut gb = boot(&[0x2F, 0x37, 0x3F, 0x3F, 0x07, 0x1F]);
    gb.cpu_reg.a = 0x81;
    gb.cpu_reg.f.byte = 0;
    gb.step_ticks();
    assert_eq!(gb.cpu_reg.a, 0x7E);
    assert_eq!((gb.cpu_reg.f.get_n(), gb.cpu_reg.f.get_h()), (1, 1));
    gb.step_ticks();
    assert_eq!((gb.cpu_reg.f.get_n(), gb.cpu_reg.f.get_h(), gb.cpu_reg.f.get_c()), (0, 0, 1));
    gb.step_ticks();
    assert_eq!(gb.cpu_reg.f.get_c(), 0);
    gb.step_ticks();
    assert_eq!(gb.cpu_reg.f.get_c(), 1);
    gb.cpu_reg.a = 0x80;
    gb.step_ticks();
    assert_eq!(gb.cpu_reg.a, 0x01);
    assert_eq!((gb.cpu_reg.f.get_z(), gb.cpu_reg.f.get_c()), (0, 1));
    gb.step_ticks();
    assert_eq!(gb.cpu_reg.a, 0x80);
    assert_eq!(gb.cpu_reg.f.get_c(), 1);
}

#[test]
fn interrupt_enable_and_return() {
    // DI ; EI ; RETI
    let mut gb = boot(&[0xF3, 0xFB, 0xD9]);
    gb.gb_ime = true;
    gb.write(0xFF0F, 0x00);
    gb.step_ticks();
    assert!(!gb.gb_ime);
    gb.step_ticks();
    assert!(gb.gb_ime);
    gb.gb_ime = false;
    gb.write(0xDFF0, 0x34);
    gb.write(0xDFF1, 0x12);
    gb.step_ticks();
    assert!(gb.gb_ime);
    assert_eq!(gb.cpu_reg.pc.bytes, 0x1234);
}
