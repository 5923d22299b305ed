//! The interrupt controller: sources, priorities and vectors.

use vstd::prelude::*;

verus! {

pub const VBLANK_INTR: u8 = 0x01;

pub const LCDC_INTR: u8 = 0x02;

pub const TIMER_INTR: u8 = 0x04;

pub const SERIAL_INTR: u8 = 0x08;

pub const CONTROL_INTR: u8 = 0x10;

pub const ANY_INTR: u8 = 0x1F;

pub const VBLANK_INTR_ADDR: u16 = 0x0040;

pub const LCDC_INTR_ADDR: u16 = 0x0048;

pub const TIMER_INTR_ADDR: u16 = 0x0050;

pub const SERIAL_INTR_ADDR: u16 = 0x0058;

pub const CONTROL_INTR_ADDR: u16 = 0x0060;

/// The five interrupt sources, highest priority first.
#[derive(Clone, Copy, Debug, PartialEq, Eq, Structural)]
pub enum Interrupt {
    VBlank,
    LcdStat,
    Timer,
    Serial,
    Control,
}

impl Interrupt {
    /// The bit of the source in the request and enable registers.
    pub open spec fn spec_mask(self) -> u8 {
        match self {
            Interrupt::VBlank => VBLANK_INTR,
            Interrupt::LcdStat => LCDC_INTR,
            Interrupt::Timer => TIMER_INTR,
            Interrupt::Serial => SERIAL_INTR,
            Interrupt::Control => CONTROL_INTR,
        }
    }

    /// The address the CPU jumps to when it services the source.
    pub open spec fn spec_vector(self) -> u16 {
        match self {
            Interrupt::VBlank => VBLANK_INTR_ADDR,
            Interrupt::LcdStat => LCDC_INTR_ADDR,
            Interrupt::Timer => TIMER_INTR_ADDR,
            Interrupt::Serial => SERIAL_INTR_ADDR,
            Interrupt::Control => CONTROL_INTR_ADDR,
        }
    }

    pub fn mask(self) -> (r: u8)
        ensures
            r == self.spec_mask(),
    {
        match self {
            Interrupt::VBlank => VBLANK_INTR,
            Interrupt::LcdStat => LCDC_INTR,
            Interrupt::Timer => TIMER_INTR,
            Interrupt::Serial => SERIAL_INTR,
            Interrupt::Control => CONTROL_INTR,
        }
    }

    pub fn vector(self) -> (r: u16)
        ensures
            r == self.spec_vector(),
    {
        match self {
            Interrupt::VBlank => VBLANK_INTR_ADDR,
            Interrupt::LcdStat => LCDC_INTR_ADDR,
            Interrupt::Timer => TIMER_INTR_ADDR,
            Interrupt::Serial => SERIAL_INTR_ADDR,
            Interrupt::Control => CONTROL_INTR_ADDR,
        }
    }
}

/// The source that is serviced when the request register holds `iflag` and
/// the enable register `ie`: the highest in priority among those that are
/// both requested and enabled.
#[verifier::opaque]
pub open spec fn spec_highest(iflag: u8, ie: u8) -> Option<Interrupt> {
    if iflag & ie & VBLANK_INTR != 0 {
        Some(Interrupt::VBlank)
    } else if iflag & ie & LCDC_INTR != 0 {
        Some(Interrupt::LcdStat)
    } else if iflag & ie & TIMER_INTR != 0 {
        Some(Interrupt::Timer)
    } else if iflag & ie & SERIAL_INTR != 0 {
        Some(Interrupt::Serial)
    } else if iflag & ie & CONTROL_INTR != 0 {
        Some(Interrupt::Control)
    } else {
        None
    }
}

/// Whether any of the five sources is both requested and enabled.
pub open spec fn spec_any_pending(iflag: u8, ie: u8) -> bool {
    iflag & ie & ANY_INTR != 0
}

/// The request register after the source was serviced: its bit is cleared,
/// every other bit is kept.
pub open spec fn spec_acknowledge(iflag: u8, source: Interrupt) -> u8 {
    iflag & !source.spec_mask()
}

pub fn highest(iflag: u8, ie: u8) -> (r: Option<Interrupt>)
    ensures
        r == spec_highest(iflag, ie),
{
    proof {
        reveal(spec_highest);
    }
    if iflag & ie & VBLANK_INTR != 0 {
        Some(Interrupt::VBlank)
    } else if iflag & ie & LCDC_INTR != 0 {
        Some(Interrupt::LcdStat)
    } else if iflag & ie & TIMER_INTR != 0 {
        Some(Interrupt::Timer)
    } else if iflag & ie & SERIAL_INTR != 0 {
        Some(Interrupt::Serial)
    } else if iflag & ie & CONTROL_INTR != 0 {
        Some(Interrupt::Control)
    } else {
        None
    }
}

pub fn any_pending(iflag: u8, ie: u8) -> (r: bool)
    ensures
        r == spec_any_pending(iflag, ie),
{
    iflag & ie & ANY_INTR != 0
}

pub fn acknowledge(iflag: u8, source: Interrupt) -> (r: u8)
    ensures
        r == spec_acknowledge(iflag, source),
{
    iflag & !source.mask()
}

/// A source is serviced exactly when one of the five is pending.
pub proof fn lemma_highest_iff_pending(iflag: u8, ie: u8)
    ensures
        spec_highest(iflag, ie) is Some <==> spec_any_pending(iflag, ie),
{
    reveal(spec_highest);
    assert((iflag & ie & 0x1F != 0) <==> (iflag & ie & 0x01 != 0 || iflag & ie & 0x02 != 0 || iflag
        & ie & 0x04 != 0 || iflag & ie & 0x08 != 0 || iflag & ie & 0x10 != 0)) by (bit_vector);
}

/// When VBlank and Timer are both requested and enabled, one dispatch
/// services VBlank alone: the Timer request stays pending, and so it is the
/// Timer that the next dispatch services.
pub proof fn lemma_vblank_before_timer(iflag: u8, ie: u8)
    requires
        iflag & ie & VBLANK_INTR != 0,
        iflag & ie & TIMER_INTR != 0,
    ensures
        spec_highest(iflag, ie) == Some(Interrupt::VBlank),
        spec_acknowledge(iflag, Interrupt::VBlank) & ie & TIMER_INTR != 0,
        spec_acknowledge(iflag, Interrupt::VBlank) & ie & VBLANK_INTR == 0,
        spec_highest(spec_acknowledge(iflag, Interrupt::VBlank), ie) == Some(Interrupt::LcdStat)
            <==> iflag & ie & LCDC_INTR != 0,
        iflag & ie & LCDC_INTR == 0 ==> spec_highest(
            spec_acknowledge(iflag, Interrupt::VBlank),
            ie,
        ) == Some(Interrupt::Timer),
{
    reveal(spec_highest);
    let after = iflag & !0x01u8;
    assert(after & ie & 0x04 == iflag & ie & 0x04 && after & ie & 0x01 == 0 && after & ie & 0x02
        == iflag & ie & 0x02) by (bit_vector)
        requires
            after == iflag & !0x01u8,
    ;
}

/// Servicing a source clears its request bit and no other.
pub proof fn lemma_acknowledge_clears_one(iflag: u8, source: Interrupt, other: Interrupt)
    ensures
        spec_acknowledge(iflag, source) & source.spec_mask() == 0,
        other != source ==> spec_acknowledge(iflag, source) & other.spec_mask() == iflag
            & other.spec_mask(),
{
    let m = source.spec_mask();
    let o = other.spec_mask();
    assert((iflag & !m) & m == 0) by (bit_vector);
    if other != source {
        assert((iflag & !m) & o == iflag & o) by (bit_vector)
            requires
                m == 0x01 || m == 0x02 || m == 0x04 || m == 0x08 || m == 0x10,
                o == 0x01 || o == 0x02 || o == 0x04 || o == 0x08 || o == 0x10,
                m != o,
        ;
    }
}

/// What a dispatch does: whether a source is serviced, the vector the CPU
/// jumps to, and the request register after it.
#[derive(Clone, Copy, Debug, PartialEq, Eq, Structural)]
pub struct Dispatch {
    pub pending: bool,
    pub vector: u16,
    pub iflag: u8,
}

/// One dispatch: the highest-priority source that is requested and enabled
/// is serviced, and its request bit alone is cleared.  With no such source
/// nothing is serviced and the request register is kept.
#[verifier::opaque]
pub open spec fn spec_dispatch(iflag: u8, ie: u8) -> Dispatch {
    match spec_highest(iflag, ie) {
        Some(source) => Dispatch {
            pending: true,
            vector: source.spec_vector(),
            iflag: spec_acknowledge(iflag, source),
        },
        None => Dispatch { pending: false, vector: 0, iflag },
    }
}

pub fn dispatch(iflag: u8, ie: u8) -> (d: Dispatch)
    ensures
        d == spec_dispatch(iflag, ie),
{
    proof {
        reveal(spec_dispatch);
    }
    match highest(iflag, ie) {
        Some(source) => Dispatch {
            pending: true,
            vector: source.vector(),
            iflag: acknowledge(iflag, source),
        },
        None => Dispatch { pending: false, vector: 0, iflag },
    }
}

/// When VBlank and Timer are both requested and enabled, one dispatch jumps
/// to the VBlank vector and leaves the Timer request standing; the next
/// dispatch, with no LCD status request in between, jumps to the Timer
/// vector.
pub proof fn lemma_dispatch_vblank_then_timer(iflag: u8, ie: u8)
    requires
        iflag & ie & VBLANK_INTR != 0,
        iflag & ie & TIMER_INTR != 0,
    ensures
        spec_dispatch(iflag, ie).pending,
        spec_dispatch(iflag, ie).vector == VBLANK_INTR_ADDR,
        spec_dispatch(iflag, ie).iflag & ie & TIMER_INTR != 0,
        spec_dispatch(iflag, ie).iflag & ie & VBLANK_INTR == 0,
        iflag & ie & LCDC_INTR == 0 ==> spec_dispatch(spec_dispatch(iflag, ie).iflag, ie).vector
            == TIMER_INTR_ADDR,
{
    reveal(spec_dispatch);
    lemma_vblank_before_timer(iflag, ie);
}

} // verus!
