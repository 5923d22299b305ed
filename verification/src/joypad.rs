//! The buttons of the console, and the mapping of a 16-button controller
//! onto them.

use vstd::prelude::*;

verus! {

pub const JOYPAD_A: u8 = 0x01;

pub const JOYPAD_B: u8 = 0x02;

pub const JOYPAD_SELECT: u8 = 0x04;

pub const JOYPAD_START: u8 = 0x08;

pub const JOYPAD_RIGHT: u8 = 0x10;

pub const JOYPAD_LEFT: u8 = 0x20;

pub const JOYPAD_UP: u8 = 0x40;

pub const JOYPAD_DOWN: u8 = 0x80;

/// The button `button` where any of the controller lines in `lines` is
/// active in `input`; nothing else.
pub open spec fn spec_pressed(input: u16, lines: u16, button: u8) -> u8 {
    if input & lines != 0 {
        button
    } else {
        0
    }
}

fn pressed(input: u16, lines: u16, button: u8) -> (r: u8)
    ensures
        r == spec_pressed(input, lines, button),
{
    if input & lines != 0 {
        button
    } else {
        0
    }
}

/// The buttons of the console that a word of controller lines holds down.
/// The controller's two upper face buttons are B, its two lower ones A.
pub open spec fn spec_controller_buttons(input: u16) -> u8 {
    spec_pressed(input, 0xC000, JOYPAD_B) | spec_pressed(input, 0x2000, JOYPAD_SELECT)
        | spec_pressed(input, 0x1000, JOYPAD_START) | spec_pressed(input, 0x0800, JOYPAD_UP)
        | spec_pressed(input, 0x0400, JOYPAD_DOWN) | spec_pressed(input, 0x0200, JOYPAD_LEFT)
        | spec_pressed(input, 0x0100, JOYPAD_RIGHT) | spec_pressed(input, 0x00C0, JOYPAD_A)
}

/// Maps a word of controller lines to the console's buttons, one bit each,
/// a clear bit for a button held down.
pub fn controller_to_joypad(input: u16) -> (r: u8)
    ensures
        r == !spec_controller_buttons(input),
{
    let state: u8 = pressed(input, 0xC000, JOYPAD_B) | pressed(input, 0x2000, JOYPAD_SELECT)
        | pressed(input, 0x1000, JOYPAD_START) | pressed(input, 0x0800, JOYPAD_UP) | pressed(
        input,
        0x0400,
        JOYPAD_DOWN,
    ) | pressed(input, 0x0200, JOYPAD_LEFT) | pressed(input, 0x0100, JOYPAD_RIGHT) | pressed(
        input,
        0x00C0,
        JOYPAD_A,
    );
    !state
}

/// The word of controller lines after line `n` (0 to 15, the first line
/// read going to the highest bit) was read as active or not.
pub open spec fn spec_shift_in(state: u16, n: u32, active: bool) -> u16 {
    if active {
        state | (1u16 << (15 - n) as u32)
    } else {
        state
    }
}

/// Takes one more line of the controller into the word being read.
pub fn shift_in(state: u16, n: u32, active: bool) -> (r: u16)
    requires
        n < 16,
    ensures
        r == spec_shift_in(state, n, active),
{
    if active {
        state | (1u16 << (15 - n))
    } else {
        state
    }
}

} // verus!
