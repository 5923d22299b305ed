//! Colors for the display panel: the console's 15-bit colors as 16-bit
//! panel colors, one for each pixel of a frame.

use crate::host::FRAME_SIZE;
use embedded_graphics::pixelcolor::Rgb565;
use vstd::prelude::*;

verus! {

/// The panel's color type.  Nothing inside it is visible here.
#[verifier::external_type_specification]
#[verifier::external_body]
pub struct ExRgb565(Rgb565);

/// The 16 bits that a panel color holds: red in the five highest bits,
/// green in the six below, blue in the five lowest.
pub uninterp spec fn rgb565_bits(c: Rgb565) -> u16;

/// The bits of a panel color made of the given channels: each channel
/// keeps its 5, 6 and 5 low bits.
pub open spec fn spec_pack565(r: u8, g: u8, b: u8) -> u16 {
    (((r & 0x1F) as u16) << 11) | (((g & 0x3F) as u16) << 5) | ((b & 0x1F) as u16)
}

/// Makes a panel color with `Rgb565::new`.  Believed of it, from its
/// source: the color holds the three channels at bit 11, bit 5 and bit 0,
/// each cut to the bits the panel has for it.
#[verifier::external_body]
fn rgb565_new(r: u8, g: u8, b: u8) -> (c: Rgb565)
    ensures
        rgb565_bits(c) == spec_pack565(r, g, b),
{
    Rgb565::new(r, g, b)
}

/// The channel that a 15-bit color of the console holds in its bits 10 to
/// 14.
pub open spec fn spec_high5(color: u16) -> u8 {
    ((color / 1024) % 32) as u8
}

/// The channel in bits 5 to 9.
pub open spec fn spec_mid5(color: u16) -> u8 {
    ((color / 32) % 32) as u8
}

/// The channel in bits 0 to 4.
pub open spec fn spec_low5(color: u16) -> u8 {
    (color % 32) as u8
}

/// The panel color of a 15-bit color of the console: the panel's red is
/// taken from bits 10 to 14, its green from bits 5 to 9 and its blue from
/// bits 0 to 4.
pub fn rgb565_from_u16(color: u16) -> (c: Rgb565)
    ensures
        rgb565_bits(c) == spec_pack565(spec_high5(color), spec_mid5(color), spec_low5(color)),
{
    let r: u8 = ((color / 1024) % 32) as u8;
    let g: u8 = ((color / 32) % 32) as u8;
    let b: u8 = (color % 32) as u8;
    rgb565_new(r, g, b)
}

/// Whether every color index of the frame selects a color of the palette.
pub open spec fn frame_in_palette(frame: Seq<u8>, palette: Seq<u16>) -> bool {
    forall|i: int| 0 <= i < frame.len() ==> frame[i] < palette.len()
}

/// The panel colors of a frame of color indices: for each pixel the panel
/// color of the palette entry it selects.  Nothing where an index selects
/// no entry.
pub fn frame_colors(frame: &[u8; FRAME_SIZE], palette: &Vec<u16>) -> (r: Option<Vec<Rgb565>>)
    ensures
        r is Some <==> frame_in_palette(frame@, palette@),
        r is Some ==> r.unwrap().len() == FRAME_SIZE && forall|i: int|
            0 <= i < FRAME_SIZE ==> rgb565_bits(#[trigger] r.unwrap()[i]) == spec_pack565(
                spec_high5(palette[frame[i] as int]),
                spec_mid5(palette[frame[i] as int]),
                spec_low5(palette[frame[i] as int]),
            ),
{
    let mut out: Vec<Rgb565> = Vec::new();
    let mut i: usize = 0;
    while i < FRAME_SIZE
        invariant
            i <= FRAME_SIZE,
            out.len() == i,
            forall|k: int| 0 <= k < i ==> frame[k] < palette.len(),
            forall|k: int|
                0 <= k < i ==> rgb565_bits(#[trigger] out[k]) == spec_pack565(
                    spec_high5(palette[frame[k] as int]),
                    spec_mid5(palette[frame[k] as int]),
                    spec_low5(palette[frame[k] as int]),
                ),
        decreases FRAME_SIZE - i,
    {
        let p = frame[i] as usize;
        if p >= palette.len() {
            return None;
        }
        out.push(rgb565_from_u16(palette[p]));
        i = i + 1;
    }
    Some(out)
}

/// The shades of a monochrome console as 15-bit colors, by the palette a
/// pixel came from: the first and the second sprite palette, and the
/// background.
pub open spec fn spec_mono_color(palette: u8, shade: u8) -> u16 {
    if palette == 0 {
        if shade == 0 {
            0x7FFF
        } else if shade == 1 {
            0x03E0
        } else if shade == 2 {
            0x1A00
        } else {
            0x0120
        }
    } else if palette == 1 {
        if shade == 0 {
            0x7FFF
        } else if shade == 1 {
            0x329F
        } else {
            0x001F
        }
    } else {
        if shade == 0 {
            0x7FFF
        } else if shade == 1 {
            0x7E10
        } else if shade == 2 {
            0x48E7
        } else {
            0x0000
        }
    }
}

/// The 15-bit color of a shade (0 to 3) of one of the three monochrome
/// palettes.
pub fn mono_color(palette: u8, shade: u8) -> (c: u16)
    ensures
        c == spec_mono_color(palette, shade),
{
    if palette == 0 {
        if shade == 0 {
            0x7FFF
        } else if shade == 1 {
            0x03E0
        } else if shade == 2 {
            0x1A00
        } else {
            0x0120
        }
    } else if palette == 1 {
        if shade == 0 {
            0x7FFF
        } else if shade == 1 {
            0x329F
        } else {
            0x001F
        }
    } else {
        if shade == 0 {
            0x7FFF
        } else if shade == 1 {
            0x7E10
        } else if shade == 2 {
            0x48E7
        } else {
            0x0000
        }
    }
}

} // verus!
