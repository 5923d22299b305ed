//! A cycle-stepped emulator core for the Game Boy and Game Boy Color.
//!
//! The console is a deterministic state machine.  Its state has a model,
//! [`state::GbView`], and every operation states as its postcondition which
//! function of the model it computes: a read or a write of the bus, an
//! instruction, the passing of cycles, the drawing of a line, a step, a
//! frame.  Laws about the model are proved beside it: the order of
//! interrupts, the bank that a bank controller can select, what the divider
//! and the timer count, how the line register moves, what a line shows.
//!
//! The host supplies the cartridge's memory and receives scanlines, serial
//! bytes and fault reports through [`host::Host`]; [`host::BufferedHost`]
//! is a host that keeps all of it in memory.
//!
//! The modules, leaves first:
//! - [`regs`], [`alu`]: the register file and flag arithmetic;
//! - [`cart`]: header fields, the bank controllers and the cartridge clock;
//! - [`timer`], [`interrupt`], [`lcd`]: the counters, the interrupt
//!   priorities and the renderer's line state machine, as pure functions;
//! - [`host`], [`state`]: the host's capabilities, and the console's state;
//! - [`bus`]: the memory map and the I/O registers;
//! - [`cpu`], [`exec`], [`cycles`]: the instructions, their decoding and
//!   the table of their cycles;
//! - [`sprite`], [`ppu`]: the composition of a scanline;
//! - [`tick`], [`gb`], [`init`]: the passing of cycles, steps and frames,
//!   construction and reset;
//! - [`audio`], [`joypad`], [`panel`]: the silent audio driver, the
//!   controller mapping and the colors of the display panel.

pub mod alu;
pub mod audio;
pub mod bus;
pub mod cart;
pub mod cpu;
pub mod cycles;
pub mod exec;
pub mod gb;
pub mod host;
pub mod init;
pub mod interrupt;
pub mod joypad;
pub mod lcd;
pub mod panel;
pub mod ppu;
pub mod regs;
pub mod sprite;
pub mod state;
pub mod tick;
pub mod timer;

pub use crate::audio::Driver;
pub use crate::gb::FrameEnd;
pub use crate::host::{BufferedHost, GbError, GbInitError, Host};
pub use crate::sprite::compare_sprites;
pub use crate::state::{Config, Direct, Gb};
