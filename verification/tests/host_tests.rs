use cashew_gb::exec::Trap;
use cashew_gb::host::{GbError, Host, HostModel};
use cashew_gb::state::{Config, Gb};

/// A host with a serial peer that answers every transfer, and a record of
/// everything the console hands over.
struct Peer {
    rom: Vec<u8>,
    ram: Vec<u8>,
    answers: Vec<u8>,
    sent: Vec<u8>,
    lines: Vec<u8>,
    faults: Vec<(GbError, u16)>,
}

impl Host for Peer {
    fn model(&self) -> HostModel {
        unreachable!()
    }

    fn rom_read(&self, addr: usize) -> u8 {
        if addr < self.rom.len() {
            self.rom[addr]
        } else {
            0xFF
        }
    }

    fn cart_ram_read(&self, addr: usize) -> u8 {
        if addr < self.ram.len() {
            self.ram[addr]
        } else {
            0xFF
        }
    }

    fn cart_ram_write(&mut self, addr: usize, val: u8) {
        if addr < self.ram.len() {
            self.ram[addr] = val;
        }
    }

    fn bootrom_read(&self, _addr: usize) -> u8 {
        0xFF
    }

    fn error(&mut self, kind: GbError, addr: u16) {
        self.faults.push((kind, addr));
    }

    fn lcd_draw_line(&mut self, _pixels: &[u8; 160], line: u8) {
        self.lines.push(line);
    }

    fn serial_tx(&mut self, byte: u8) {
        self.sent.push(byte);
    }

    fn serial_rx(&mut self) -> Option<u8> {
        self.answers.pop()
    }
}

fn mono() -> Config {
    Config {
        color: false,
        high_lcd_accuracy: false,
        tagged_palette: false,
        frame_skip: false,
        interlace: false,
    }
}

fn peer(program: &[u8], answers: Vec<u8>) -> Gb<Peer> {
    let mut rom = vec![0u8; 0x8000];
    for (i, b) in program.iter().enumerate() {
        rom[0x0100 + i] = *b;
    }
    let mut x: u8 = 0;
    for i in 0x0134..=0x014C {
        x = x.wrapping_sub(rom[i]).wrapping_sub(1);
    }
    rom[0x014D] = x;
    let host = Peer { rom, ram: Vec::new(), answers, sent: Vec::new(), lines: Vec::new(), faults: Vec::new() };
    match Gb::new(host, mono()) {
        Ok(gb) => gb,
        Err(_) => panic!("a valid header was refused"),
    }
}

#[test]
fn serial_peer_answers_replace_the_data_register() {
    let mut gb = peer(&[0x18, 0xFE], vec![0x22, 0x11]);
    gb.gb_init_serial();
    gb.write(0xFF0F, 0x00);
    gb.write(0xFF01, 0xA1);
    gb.write(0xFF02, 0x80);
    let mut answers = Vec::new();
    for _ in 0..400 {
        let (t, answer) = gb.step_ticks();
        assert_eq!(t.trap, Trap::Clear);
        assert_eq!(t.cycles, 12);
        if let Some(b) = answer {
            answers.push(b);
        }
    }
    assert_eq!(answers, vec![0x11]);
    assert_eq!(gb.hram_io[0x01], 0x11);
    assert_eq!(gb.hram_io[0x02], 0x00);
    assert_ne!(gb.hram_io[0x0F] & 0x08, 0);
    assert_eq!(gb.get_context().sent, vec![0xA1]);
    // the next transfer takes the next answer
    gb.write(0xFF01, 0xA2);
    gb.write(0xFF02, 0x80);
    for _ in 0..400 {
        gb.step_ticks();
    }
    assert_eq!(gb.hram_io[0x01], 0x22);
    assert_eq!(gb.get_context().sent, vec![0xA1, 0xA2]);
}

#[test]
fn lines_are_delivered_in_order() {
    let mut gb = peer(&[0x18, 0xFE], Vec::new());
    gb.gb_init_lcd();
    assert!(gb.run_frame().is_ok());
    assert!(gb.run_frame().is_ok());
    let lines = &gb.get_context().lines;
    assert_eq!(lines.len(), 143 + 144);
    let second: Vec<u8> = (0..144).collect();
    assert_eq!(&lines[143..], &second[..]);
    assert!(gb.get_context().faults.is_empty());
}

#[test]
fn faults_reach_the_host() {
    let mut gb = peer(&[0xFD], Vec::new());
    assert_eq!(gb.step_cpu(), Err(GbError::GbInvalidOpcode));
    assert_eq!(gb.get_context().faults, vec![(GbError::GbInvalidOpcode, 0x0100)]);
}
