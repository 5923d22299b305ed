//! What the console asks of its surroundings: cartridge memory to read and
//! write, and somewhere to deliver scanlines, serial bytes and fault reports.

use vstd::prelude::*;

verus! {

pub const LCD_WIDTH: u8 = 160;

pub const LCD_HEIGHT: u8 = 144;

/// The conditions under which the interpreter cannot go on.
#[derive(Clone, Copy, Debug, PartialEq, Eq, Structural)]
pub enum GbError {
    GbUnknownError,
    GbInvalidOpcode,
    GbInvalidRead,
    GbInvalidWrite,
    GbHaltForever,
    GbInvalidMax,
}

/// Why a console could not be built from a cartridge.
#[derive(Clone, Copy, Debug, PartialEq, Eq, Structural)]
pub enum GbInitError {
    GbInitCartridgeUnsupported,
    GbInitInvalidChecksum,
}

/// A row of 160 color indices and the line it belongs to.
pub struct Scanline {
    pub pixels: Seq<u8>,
    pub line: u8,
}

/// A fault as it is reported: its kind and the address it came from.
pub struct Fault {
    pub kind: GbError,
    pub addr: u16,
}

/// The model of a host: the memories it holds, and the history of what the
/// console handed to it and got from it.
pub struct HostModel {
    pub rom: Seq<u8>,
    pub cart_ram: Seq<u8>,
    pub bootrom: Seq<u8>,
    pub lines: Seq<Scanline>,
    pub sent: Seq<u8>,
    pub received: Seq<Option<u8>>,
    pub faults: Seq<Fault>,
}

/// The byte at `addr` of a memory; 0xFF beyond its end.
pub open spec fn byte_at(mem: Seq<u8>, addr: int) -> u8 {
    if 0 <= addr < mem.len() {
        mem[addr]
    } else {
        0xFF
    }
}

/// A memory after a store at `addr`; a store beyond its end is dropped.
pub open spec fn stored(mem: Seq<u8>, addr: int, val: u8) -> Seq<u8> {
    if 0 <= addr < mem.len() {
        mem.update(addr, val)
    } else {
        mem
    }
}

impl HostModel {
    pub open spec fn ram_written(self, addr: int, val: u8) -> HostModel {
        HostModel { cart_ram: stored(self.cart_ram, addr, val), ..self }
    }

    pub open spec fn drawn(self, pixels: Seq<u8>, line: u8) -> HostModel {
        HostModel { lines: self.lines.push(Scanline { pixels, line }), ..self }
    }

    pub open spec fn transmitted(self, byte: u8) -> HostModel {
        HostModel { sent: self.sent.push(byte), ..self }
    }

    pub open spec fn polled(self, answer: Option<u8>) -> HostModel {
        HostModel { received: self.received.push(answer), ..self }
    }

    pub open spec fn faulted(self, kind: GbError, addr: u16) -> HostModel {
        HostModel { faults: self.faults.push(Fault { kind, addr }), ..self }
    }
}

/// The capabilities a console needs from its host, one method for each.
///
/// Every method is synchronous.  The memories are total: a read beyond the
/// end of a memory gives 0xFF and a write beyond it is dropped.  A method
/// changes nothing of the model but what its contract names.
pub trait Host {
    spec fn model(&self) -> HostModel;

    /// Reads a byte of the cartridge ROM.
    fn rom_read(&self, addr: usize) -> (b: u8)
        ensures
            b == byte_at(self.model().rom, addr as int),
    ;

    /// Reads a byte of the cartridge RAM.
    fn cart_ram_read(&self, addr: usize) -> (b: u8)
        ensures
            b == byte_at(self.model().cart_ram, addr as int),
    ;

    /// Writes a byte of the cartridge RAM.
    fn cart_ram_write(&mut self, addr: usize, val: u8)
        ensures
            final(self).model() == old(self).model().ram_written(addr as int, val),
    ;

    /// Reads a byte of the boot ROM.
    fn bootrom_read(&self, addr: usize) -> (b: u8)
        ensures
            b == byte_at(self.model().bootrom, addr as int),
    ;

    /// Takes a fault report.
    fn error(&mut self, kind: GbError, addr: u16)
        ensures
            final(self).model() == old(self).model().faulted(kind, addr),
    ;

    /// Takes a finished scanline.
    fn lcd_draw_line(&mut self, pixels: &[u8; 160], line: u8)
        ensures
            final(self).model() == old(self).model().drawn(pixels@, line),
    ;

    /// Takes the byte that the serial link sends.
    fn serial_tx(&mut self, byte: u8)
        ensures
            final(self).model() == old(self).model().transmitted(byte),
    ;

    /// Asks for the byte that the serial link received; `None` where no
    /// peer is connected.
    fn serial_rx(&mut self) -> (answer: Option<u8>)
        ensures
            final(self).model() == old(self).model().polled(answer),
    ;
}

/// A host that keeps everything in memory: the cartridge's ROM and RAM, an
/// optional boot ROM, a frame buffer of 160 by 144 color indices that the
/// scanlines are copied into, the bytes sent over the serial link and the
/// last fault.  No serial peer is connected.
pub struct BufferedHost {
    rom: Vec<u8>,
    cart_ram: Vec<u8>,
    bootrom: Vec<u8>,
    frame: [u8; FRAME_SIZE],
    sent: Vec<u8>,
    last_fault: Option<(GbError, u16)>,
    lines: Ghost<Seq<Scanline>>,
    received: Ghost<Seq<Option<u8>>>,
    faults: Ghost<Seq<Fault>>,
}

pub const FRAME_SIZE: usize = 160 * 144;

impl BufferedHost {
    pub closed spec fn frame_view(&self) -> Seq<u8> {
        self.frame@
    }

    pub closed spec fn last_fault_view(&self) -> Option<(GbError, u16)> {
        self.last_fault
    }

    /// A host for the given cartridge, with a black frame and no history.
    pub fn new(rom: Vec<u8>, cart_ram: Vec<u8>) -> (h: BufferedHost)
        ensures
            h.model().rom == rom@,
            h.model().cart_ram == cart_ram@,
            h.model().bootrom.len() == 0,
            h.model().lines.len() == 0,
            h.model().sent.len() == 0,
            h.model().received.len() == 0,
            h.model().faults.len() == 0,
            h.frame_view() == Seq::new(FRAME_SIZE as nat, |i: int| 0u8),
            h.last_fault_view() is None,
    {
        let frame: [u8; FRAME_SIZE] = [0u8; FRAME_SIZE];
        assert(frame@ =~= Seq::new(FRAME_SIZE as nat, |i: int| 0u8));
        BufferedHost {
            rom,
            cart_ram,
            bootrom: Vec::new(),
            frame,
            sent: Vec::new(),
            last_fault: None,
            lines: Ghost(Seq::empty()),
            received: Ghost(Seq::empty()),
            faults: Ghost(Seq::empty()),
        }
    }

    /// Installs a boot ROM.
    pub fn set_bootrom(&mut self, bootrom: Vec<u8>)
        ensures
            final(self).model() == (HostModel { bootrom: bootrom@, ..old(self).model() }),
            final(self).frame_view() == old(self).frame_view(),
            final(self).last_fault_view() == old(self).last_fault_view(),
    {
        self.bootrom = bootrom;
    }

    /// The frame buffer: row `y` starts at index `160 * y`.
    pub fn frame(&self) -> (f: &[u8; FRAME_SIZE])
        ensures
            f@ == self.frame_view(),
    {
        &self.frame
    }

    /// The cartridge RAM, as it is to be saved.
    pub fn cart_ram(&self) -> (r: &Vec<u8>)
        ensures
            r@ == self.model().cart_ram,
    {
        &self.cart_ram
    }

    /// The cartridge ROM.
    pub fn rom(&self) -> (r: &Vec<u8>)
        ensures
            r@ == self.model().rom,
    {
        &self.rom
    }

    /// The bytes sent over the serial link so far.
    pub fn sent(&self) -> (r: &Vec<u8>)
        ensures
            r@ == self.model().sent,
    {
        &self.sent
    }

    /// The last fault reported, if any.
    pub fn last_fault(&self) -> (r: Option<(GbError, u16)>)
        ensures
            r == self.last_fault_view(),
    {
        self.last_fault
    }
}

impl Host for BufferedHost {
    closed spec fn model(&self) -> HostModel {
        HostModel {
            rom: self.rom@,
            cart_ram: self.cart_ram@,
            bootrom: self.bootrom@,
            lines: self.lines@,
            sent: self.sent@,
            received: self.received@,
            faults: self.faults@,
        }
    }

    fn rom_read(&self, addr: usize) -> (b: u8) {
        if addr < self.rom.len() {
            self.rom[addr]
        } else {
            0xFF
        }
    }

    fn cart_ram_read(&self, addr: usize) -> (b: u8) {
        if addr < self.cart_ram.len() {
            self.cart_ram[addr]
        } else {
            0xFF
        }
    }

    fn cart_ram_write(&mut self, addr: usize, val: u8) {
        if addr < self.cart_ram.len() {
            self.cart_ram[addr] = val;
        }
    }

    fn bootrom_read(&self, addr: usize) -> (b: u8) {
        if addr < self.bootrom.len() {
            self.bootrom[addr]
        } else {
            0xFF
        }
    }

    fn error(&mut self, kind: GbError, addr: u16)
        ensures
            final(self).last_fault_view() == Some((kind, addr)),
            final(self).frame_view() == old(self).frame_view(),
    {
        self.last_fault = Some((kind, addr));
        proof {
            self.faults@ = self.faults@.push(Fault { kind, addr });
        }
    }

    /// Copies the row into the frame buffer; a line below the screen is
    /// dropped.
    fn lcd_draw_line(&mut self, pixels: &[u8; 160], line: u8)
        ensures
            line < LCD_HEIGHT ==> final(self).frame_view() == Seq::new(
                FRAME_SIZE as nat,
                |i: int|
                    if 160 * line <= i < 160 * line + 160 {
                        pixels@[i - 160 * line]
                    } else {
                        old(self).frame_view()[i]
                    },
            ),
            line >= LCD_HEIGHT ==> final(self).frame_view() == old(self).frame_view(),
            final(self).last_fault_view() == old(self).last_fault_view(),
    {
        proof {
            self.lines@ = self.lines@.push(Scanline { pixels: pixels@, line });
        }
        if line < LCD_HEIGHT {
            let base: usize = 160 * (line as usize);
            let mut x: usize = 0;
            while x < 160
                invariant
                    x <= 160,
                    base == 160 * line,
                    line < LCD_HEIGHT,
                    self.rom == old(self).rom,
                    self.cart_ram == old(self).cart_ram,
                    self.bootrom == old(self).bootrom,
                    self.sent == old(self).sent,
                    self.last_fault == old(self).last_fault,
                    self.received == old(self).received,
                    self.faults == old(self).faults,
                    self.lines@ == old(self).lines@.push(Scanline { pixels: pixels@, line }),
                    forall|i: int|
                        0 <= i < FRAME_SIZE ==> self.frame[i] == (if base <= i < base + x {
                            pixels@[i - base]
                        } else {
                            old(self).frame[i]
                        }),
                decreases 160 - x,
            {
                self.frame[base + x] = pixels[x];
                x = x + 1;
            }
            assert(self.frame@ =~= Seq::new(
                FRAME_SIZE as nat,
                |i: int|
                    if 160 * line <= i < 160 * line + 160 {
                        pixels@[i - 160 * line]
                    } else {
                        old(self).frame_view()[i]
                    },
            ));
        }
    }

    fn serial_tx(&mut self, byte: u8)
        ensures
            final(self).frame_view() == old(self).frame_view(),
            final(self).last_fault_view() == old(self).last_fault_view(),
    {
        self.sent.push(byte);
    }

    fn serial_rx(&mut self) -> (answer: Option<u8>)
        ensures
            answer is None,
            final(self).frame_view() == old(self).frame_view(),
            final(self).last_fault_view() == old(self).last_fault_view(),
    {
        proof {
            self.received@ = self.received@.push(None);
        }
        None
    }
}

} // verus!
