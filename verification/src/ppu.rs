//! The scanline renderer: background, window and sprites composed into one
//! row of 160 color indices.

use crate::host::{Host, LCD_WIDTH};
use crate::sprite::{is_before, not_after, sprite_before, SpriteData};
use crate::state::{Gb, GbView, IO_LCDC, IO_LY, IO_SCX, IO_SCY, IO_WX};
use vstd::prelude::*;

verus! {

pub const LCDC_WINDOW_MAP: u8 = 0x40;

pub const LCDC_WINDOW_ENABLE: u8 = 0x20;

pub const LCDC_TILE_SELECT: u8 = 0x10;

pub const LCDC_BG_MAP: u8 = 0x08;

pub const LCDC_OBJ_SIZE: u8 = 0x04;

pub const LCDC_OBJ_ENABLE: u8 = 0x02;

pub const LCDC_BG_ENABLE: u8 = 0x01;

pub const VRAM_TILES_1: usize = 0x0000;

pub const VRAM_TILES_2: usize = 0x0800;

pub const VRAM_BMAP_1: usize = 0x1800;

pub const VRAM_BMAP_2: usize = 0x1C00;

pub const NUM_SPRITES: u8 = 0x28;

pub const MAX_SPRITES_LINE: u8 = 0x0A;

pub const OBJ_PRIORITY: u8 = 0x80;

pub const OBJ_FLIP_Y: u8 = 0x40;

pub const OBJ_FLIP_X: u8 = 0x20;

pub const OBJ_PALETTE: u8 = 0x10;

/// The tags that a monochrome pixel carries where tagging is on: the
/// palette a sprite pixel came from, and the mark of a background pixel.
pub const LCD_PALETTE_OBJ: u8 = 0x10;

pub const LCD_PALETTE_BG: u8 = 0x20;

pub const LCD_PALETTE_ALL: u8 = 0x30;

/// The tile attribute bits of color mode.
pub const ATTR_BANK: u8 = 0x08;

pub const ATTR_FLIP_X: u8 = 0x20;

pub const ATTR_FLIP_Y: u8 = 0x40;

/// Bit `bit` of a byte, as 0 or 1.
pub open spec fn spec_bit_at(t: u8, bit: u8) -> u8 {
    (t >> bit) & 1
}

pub fn bit_at(t: u8, bit: u8) -> (r: u8)
    requires
        bit < 8,
    ensures
        r == spec_bit_at(t, bit),
        r <= 1,
{
    proof {
        assert((t >> bit) & 1 <= 1) by (bit_vector);
    }
    (t >> bit) & 1
}

/// The color number (0 to 3) of a pixel of a tile row: bit `bit` of the
/// row's two bytes, the second byte giving the high bit.
pub open spec fn spec_color_of(t1: u8, t2: u8, bit: u8) -> u8 {
    (spec_bit_at(t1, bit) + 2 * spec_bit_at(t2, bit)) as u8
}

pub fn color_of(t1: u8, t2: u8, bit: u8) -> (c: u8)
    requires
        bit < 8,
    ensures
        c == spec_color_of(t1, t2, bit),
        c <= 3,
{
    bit_at(t1, bit) + 2 * bit_at(t2, bit)
}

/// A pixel of the background or the window: its color index, and in color
/// mode whether its tile takes priority over sprites.
#[derive(Clone, Copy, Debug, PartialEq, Eq, Structural)]
pub struct Px {
    pub value: u8,
    pub prio: u8,
}

/// The list with `sd` put in at the place its order gives it, seen from the
/// end: behind the last entry that comes before it.
pub open spec fn insert_place(list: Seq<SpriteData>, sd: SpriteData, k: nat) -> nat
    decreases k,
{
    if k == 0 {
        0
    } else if not_after(list[k - 1], sd) {
        k
    } else {
        insert_place(list, sd, (k - 1) as nat)
    }
}

/// The list of sprites of a line after one more sprite was taken in: the
/// sprite goes to its place, and only the first ten are kept.
pub open spec fn capped_insert(list: Seq<SpriteData>, sd: SpriteData) -> Seq<SpriteData> {
    let ins = list.insert(insert_place(list, sd, list.len()) as int, sd);
    if ins.len() > MAX_SPRITES_LINE {
        ins.subrange(0, MAX_SPRITES_LINE as int)
    } else {
        ins
    }
}

/// Whether a list of sprites is in order: each entry comes before every
/// entry behind it.
pub open spec fn in_order(list: Seq<SpriteData>) -> bool {
    forall|i: int, j: int|
        0 <= i < j < list.len() ==> sprite_before(#[trigger] list[i], #[trigger] list[j])
}

/// In an ordered list that does not hold `sd`, the place found for `sd`
/// parts the entries before it from those behind it.
pub proof fn lemma_insert_place_parts(list: Seq<SpriteData>, sd: SpriteData, k: nat)
    requires
        k <= list.len(),
        in_order(list),
        forall|i: int| 0 <= i < list.len() ==> list[i] != sd,
    ensures
        insert_place(list, sd, k) <= k,
        forall|i: int| 0 <= i < insert_place(list, sd, k) ==> sprite_before(#[trigger] list[i], sd),
        forall|j: int| insert_place(list, sd, k) <= j < k ==> sprite_before(sd, #[trigger] list[j]),
    decreases k,
{
    if k > 0 {
        let last = list[k - 1];
        if not_after(last, sd) {
            assert forall|i: int| 0 <= i < k implies sprite_before(#[trigger] list[i], sd) by {
                if i < k - 1 {
                    assert(sprite_before(list[i], list[k - 1]));
                }
            }
        } else {
            lemma_insert_place_parts(list, sd, (k - 1) as nat);
        }
    }
}

/// Taking a sprite into an ordered list that does not hold it gives an
/// ordered list of at most ten sprites: the list with the sprite at its
/// place, cut behind the tenth.
pub proof fn lemma_capped_insert(list: Seq<SpriteData>, sd: SpriteData)
    requires
        in_order(list),
        list.len() <= MAX_SPRITES_LINE,
        forall|i: int| 0 <= i < list.len() ==> list[i] != sd,
    ensures
        ({
            let p = insert_place(list, sd, list.len()) as int;
            let out = capped_insert(list, sd);
            &&& in_order(out)
            &&& out.len() <= MAX_SPRITES_LINE
            &&& out.len() == (if list.len() < MAX_SPRITES_LINE {
                list.len() + 1
            } else {
                MAX_SPRITES_LINE as nat
            })
            &&& 0 <= p <= list.len()
            &&& forall|i: int| 0 <= i < p && i < out.len() ==> out[i] == list[i]
            &&& p < out.len() ==> out[p] == sd
            &&& forall|i: int| p < i < out.len() ==> out[i] == list[i - 1]
            &&& forall|i: int| 0 <= i < p ==> sprite_before(#[trigger] list[i], sd)
            &&& forall|j: int| p <= j < list.len() ==> sprite_before(sd, #[trigger] list[j])
        }),
{
    lemma_insert_place_parts(list, sd, list.len());
    let p = insert_place(list, sd, list.len()) as int;
    let ins = list.insert(p, sd);
    assert(ins.len() == list.len() + 1);
    assert forall|i: int| 0 <= i < ins.len() implies #[trigger] ins[i] == (if i < p {
        list[i]
    } else if i == p {
        sd
    } else {
        list[i - 1]
    }) by {}
    assert(in_order(ins)) by {
        assert forall|i: int, j: int| 0 <= i < j < ins.len() implies sprite_before(
            #[trigger] ins[i],
            #[trigger] ins[j],
        ) by {
            if j < p {
                assert(sprite_before(list[i], list[j]));
            } else if j == p {
                assert(sprite_before(list[i], sd));
            } else if i < p {
                assert(sprite_before(list[i], list[j - 1]));
            } else if i == p {
                assert(sprite_before(sd, list[j - 1]));
            } else {
                assert(sprite_before(list[i - 1], list[j - 1]));
            }
        }
    }
    let out = capped_insert(list, sd);
    assert forall|i: int| 0 <= i < out.len() implies #[trigger] out[i] == ins[i] by {}
    assert(in_order(out)) by {
        assert forall|i: int, j: int| 0 <= i < j < out.len() implies sprite_before(
            #[trigger] out[i],
            #[trigger] out[j],
        ) by {
            assert(sprite_before(ins[i], ins[j]));
        }
    }
}

impl GbView {
    pub open spec fn lcdc(self) -> u8 {
        self.hram_io[IO_LCDC as int]
    }

    pub open spec fn ly(self) -> u8 {
        self.hram_io[IO_LY as int]
    }

    /// The pixel at map coordinates (`mx`, `my`) of the tile map at
    /// `map_base`.  The tile is looked up in the map, its data in the block
    /// that the control register selects; color mode adds the tile's
    /// attributes: palette, bank, flips and priority.
    #[verifier::opaque]
    pub open spec fn tile_px(self, map_base: int, mx: u8, my: u8) -> Px {
        let cell = map_base + (my / 8) * 32 + mx / 8;
        let idx = self.vram[cell];
        let att: u8 = if self.cgb.mode {
            self.vram[cell + 0x2000]
        } else {
            0
        };
        let row: int = if self.cgb.mode && att & ATTR_FLIP_Y != 0 {
            7 - my % 8
        } else {
            (my % 8) as int
        };
        let block: int = if self.lcdc() & LCDC_TILE_SELECT != 0 {
            VRAM_TILES_1 + idx * 16
        } else {
            VRAM_TILES_2 + ((idx + 0x80) % 0x100) * 16
        };
        let data = block + (if self.cgb.mode && att & ATTR_BANK != 0 {
            0x2000int
        } else {
            0
        }) + 2 * row;
        let bit: u8 = if self.cgb.mode && att & ATTR_FLIP_X != 0 {
            mx % 8
        } else {
            (7 - mx % 8) as u8
        };
        let c = spec_color_of(self.vram[data], self.vram[data + 1], bit);
        if self.cgb.mode {
            Px { value: ((att % 8) * 4 + c) as u8, prio: att / 128 }
        } else {
            Px {
                value: self.bg_palette[c as int] | (if self.config.tagged_palette {
                    LCD_PALETTE_BG
                } else {
                    0
                }),
                prio: 0,
            }
        }
    }

    /// Whether the background is drawn: always in color mode, else where
    /// the control register enables it.
    pub open spec fn bg_enabled(self) -> bool {
        self.cgb.mode || self.lcdc() & LCDC_BG_ENABLE != 0
    }

    /// The pixel of the background layer at column `x`: the scrolled tile
    /// map, wrapping at 256 both ways; index 0 where the background is off.
    #[verifier::opaque]
    pub open spec fn bg_px(self, x: u8) -> Px {
        if self.bg_enabled() {
            self.tile_px(
                if self.lcdc() & LCDC_BG_MAP != 0 {
                    VRAM_BMAP_2 as int
                } else {
                    VRAM_BMAP_1 as int
                },
                x.wrapping_add(self.hram_io[IO_SCX as int]),
                self.ly().wrapping_add(self.hram_io[IO_SCY as int]),
            )
        } else {
            Px { value: 0, prio: 0 }
        }
    }

    /// Whether the window is drawn on this line.
    pub open spec fn window_visible(self) -> bool {
        self.lcdc() & LCDC_WINDOW_ENABLE != 0 && self.ly() >= self.display.wy
            && self.hram_io[IO_WX as int] <= 166
    }

    /// Whether the window covers column `x` of this line.
    pub open spec fn window_covers(self, x: u8) -> bool {
        self.window_visible() && x + 7 >= self.hram_io[IO_WX as int]
    }

    /// The pixel of the window at column `x`, where the window covers it:
    /// its rows are counted by the window's own line counter.
    #[verifier::opaque]
    pub open spec fn win_px(self, x: u8) -> Px {
        self.tile_px(
            if self.lcdc() & LCDC_WINDOW_MAP != 0 {
                VRAM_BMAP_2 as int
            } else {
                VRAM_BMAP_1 as int
            },
            (x + 7 - self.hram_io[IO_WX as int]) as u8,
            self.display.window_clear,
        )
    }

    /// The pixel at column `x` before sprites: the window where it covers
    /// the column, else the background.
    #[verifier::opaque]
    pub open spec fn base_px(self, x: u8) -> Px {
        if self.window_covers(x) {
            self.win_px(x)
        } else {
            self.bg_px(x)
        }
    }

    pub open spec fn sprite_tall(self) -> bool {
        self.lcdc() & LCDC_OBJ_SIZE != 0
    }

    pub open spec fn sprite_height(self) -> int {
        if self.sprite_tall() {
            16
        } else {
            8
        }
    }

    /// Whether sprite `s` has a row on this line.
    pub open spec fn sprite_on_line(self, s: u8) -> bool {
        let oy = self.oam[4 * s];
        self.ly() + 16 - self.sprite_height() < oy <= self.ly() + 16
    }

    /// Whether sprite `s` has a pixel at column `x` of this line.
    pub open spec fn sprite_covers(self, s: u8, x: u8) -> bool {
        let ox = self.oam[4 * s + 1];
        self.sprite_on_line(s) && ox != 0 && ox < 168 && x < ox <= x + 8
    }

    /// The color number of sprite `s` at column `x`, where it covers it.
    #[verifier::opaque]
    pub open spec fn sprite_color(self, s: u8, x: u8) -> u8 {
        let oy = self.oam[4 * s];
        let ox = self.oam[4 * s + 1];
        let ot = self.oam[4 * s + 2] & (if self.sprite_tall() {
            0xFEu8
        } else {
            0xFFu8
        });
        let of = self.oam[4 * s + 3];
        let py0 = self.ly() + 16 - oy;
        let py = if of & OBJ_FLIP_Y != 0 {
            self.sprite_height() - 1 - py0
        } else {
            py0
        };
        let data = VRAM_TILES_1 + ot * 16 + 2 * py;
        let col = x + 8 - ox;
        let bit = if of & OBJ_FLIP_X != 0 {
            col as u8
        } else {
            (7 - col) as u8
        };
        spec_color_of(self.vram[data], self.vram[data + 1], bit)
    }

    /// Whether a sprite pixel of color `c` with attributes `of` is drawn
    /// over the color index `cur`.  Color 0 is transparent.  In monochrome
    /// mode a sprite behind the background shows only over the background's
    /// first shade.  In color mode it shows where the background is off,
    /// or where neither the tile's priority nor its own keeps it behind a
    /// background color other than 0.
    pub open spec fn sprite_shows(self, c: u8, of: u8, cur: u8, prio: u8) -> bool {
        if self.cgb.mode {
            c != 0 && (self.lcdc() & LCDC_BG_ENABLE == 0 || (!(prio != 0 && cur & 0x3 != 0) && !(of
                & OBJ_PRIORITY != 0 && cur & 0x3 != 0)))
        } else {
            c != 0 && !(of & OBJ_PRIORITY != 0 && cur & 0x3 != self.bg_palette[0])
        }
    }

    /// The color index that a sprite pixel of color `c` with attributes
    /// `of` has.
    pub open spec fn sprite_index(self, c: u8, of: u8) -> u8 {
        if self.cgb.mode {
            ((of % 8) * 4 + c + 0x20) as u8
        } else {
            self.sp_palette[c + (if of & OBJ_PALETTE != 0 {
                4int
            } else {
                0
            })] | (if self.config.tagged_palette {
                of & LCD_PALETTE_OBJ
            } else {
                0
            })
        }
    }

    /// The color index at column `x` after sprite `s` was drawn over the
    /// index `cur`.
    #[verifier::opaque]
    pub open spec fn sprite_value(self, s: u8, x: u8, cur: u8) -> u8 {
        let c = self.sprite_color(s, x);
        let of = self.oam[4 * s + 3];
        if self.sprite_covers(s, x) && self.sprite_shows(c, of, cur, self.base_px(x).prio) {
            self.sprite_index(c, of)
        } else {
            cur
        }
    }

    /// A row after sprite `s` was drawn over it.
    pub open spec fn over(self, row: Seq<u8>, s: u8) -> Seq<u8> {
        Seq::new(LCD_WIDTH as nat, |x: int| self.sprite_value(s, x as u8, row[x]))
    }

    /// A row after the first `k` sprites of `order` were drawn over it, one
    /// after the other.
    pub open spec fn composed(self, row: Seq<u8>, order: Seq<u8>, k: nat) -> Seq<u8>
        decreases k,
    {
        if k == 0 {
            row
        } else {
            self.over(self.composed(row, order, (k - 1) as nat), order[k - 1])
        }
    }

    /// Of the first `n` sprites of the table, those on this line, ordered
    /// by X coordinate and then by place in the table, the first ten.
    pub open spec fn selected(self, n: nat) -> Seq<SpriteData>
        decreases n,
    {
        if n == 0 {
            Seq::empty()
        } else {
            let prev = self.selected((n - 1) as nat);
            let s = (n - 1) as u8;
            if self.sprite_on_line(s) {
                capped_insert(prev, SpriteData { sprite_number: s, x: self.oam[4 * s + 1] })
            } else {
                prev
            }
        }
    }

    /// Whether the sprites of a line are picked and ordered by their X
    /// coordinate: in monochrome mode where the console is configured for
    /// it.
    pub open spec fn sprites_sorted(self) -> bool {
        self.config.high_lcd_accuracy && !self.cgb.mode
    }

    /// The sprites in the order they are drawn, the last one ending up on
    /// top.  By default that is the table backwards.  Where the sprites
    /// are ordered it is the ordered list of the line backwards.
    #[verifier::opaque]
    pub open spec fn draw_order(self) -> Seq<u8> {
        if self.sprites_sorted() {
            let sel = self.selected(NUM_SPRITES as nat);
            Seq::new(sel.len(), |i: int| sel[sel.len() - 1 - i].sprite_number)
        } else {
            Seq::new(NUM_SPRITES as nat, |i: int| (NUM_SPRITES - 1 - i) as u8)
        }
    }

    /// The row before sprites.
    pub open spec fn base_row(self) -> Seq<u8> {
        Seq::new(LCD_WIDTH as nat, |x: int| self.base_px(x as u8).value)
    }

    /// The row of 160 color indices of this line.
    #[verifier::opaque]
    pub open spec fn line_pixels(self) -> Seq<u8> {
        if self.lcdc() & LCDC_OBJ_ENABLE != 0 {
            self.composed(self.base_row(), self.draw_order(), self.draw_order().len())
        } else {
            self.base_row()
        }
    }
}

impl GbView {
    /// A column that no sprite covers keeps the color index it had before
    /// the sprites were drawn.
    pub proof fn lemma_uncovered_column_kept(self, row: Seq<u8>, order: Seq<u8>, k: nat, x: u8)
        requires
            x < LCD_WIDTH,
            row.len() == LCD_WIDTH,
            forall|s: u8| !self.sprite_covers(s, x),
        ensures
            self.composed(row, order, k).len() == LCD_WIDTH,
            self.composed(row, order, k)[x as int] == row[x as int],
        decreases k,
    {
        reveal(GbView::sprite_value);
        if k > 0 {
            self.lemma_uncovered_column_kept(row, order, (k - 1) as nat, x);
        }
    }

    /// In monochrome mode with the background switched off, the row holds
    /// color index 0 in every column that neither the window nor a sprite
    /// covers.
    pub proof fn lemma_background_off_is_blank(self, x: u8)
        requires
            x < LCD_WIDTH,
            !self.cgb.mode,
            self.lcdc() & LCDC_BG_ENABLE == 0,
            !self.window_covers(x),
            forall|s: u8| !self.sprite_covers(s, x),
        ensures
            self.bg_px(x) == (Px { value: 0, prio: 0 }),
            self.line_pixels().len() == LCD_WIDTH,
            self.line_pixels()[x as int] == 0,
    {
        reveal(GbView::line_pixels);
        reveal(GbView::base_px);
        reveal(GbView::bg_px);
        self.lemma_uncovered_column_kept(
            self.base_row(),
            self.draw_order(),
            self.draw_order().len(),
            x,
        );
    }

    /// With the background off and neither window nor sprites switched on,
    /// the whole row of a monochrome line is color index 0.
    pub proof fn lemma_all_layers_off_is_blank(self)
        requires
            !self.cgb.mode,
            self.lcdc() & LCDC_BG_ENABLE == 0,
            self.lcdc() & LCDC_WINDOW_ENABLE == 0,
            self.lcdc() & LCDC_OBJ_ENABLE == 0,
        ensures
            self.line_pixels() =~= Seq::new(LCD_WIDTH as nat, |x: int| 0u8),
    {
        reveal(GbView::line_pixels);
        reveal(GbView::base_px);
        reveal(GbView::bg_px);
    }
}

impl GbView {
    /// The entry of the sprite table for sprite `s`, as the list of a line
    /// holds it.
    pub open spec fn sprite_entry(self, s: u8) -> SpriteData {
        SpriteData { sprite_number: s, x: self.oam[4 * s + 1] }
    }

    /// The sprites picked for a line are those that come first: the list is
    /// ordered by X coordinate and then by place in the table, it holds at
    /// most ten sprites, each of them on the line, and a sprite on the line
    /// that is left out comes behind all ten.
    pub proof fn lemma_selected_come_first(self, n: nat)
        requires
            n <= NUM_SPRITES,
        ensures
            in_order(self.selected(n)),
            self.selected(n).len() <= MAX_SPRITES_LINE,
            forall|i: int|
                0 <= i < self.selected(n).len() ==> {
                    let e = #[trigger] self.selected(n)[i];
                    e.sprite_number < n && self.sprite_on_line(e.sprite_number) && e
                        == self.sprite_entry(e.sprite_number)
                },
            forall|s: u8|
                s < n && #[trigger] self.sprite_on_line(s) ==> self.selected(n).contains(
                    self.sprite_entry(s),
                ) || (self.selected(n).len() == MAX_SPRITES_LINE && sprite_before(
                    self.selected(n)[MAX_SPRITES_LINE - 1],
                    self.sprite_entry(s),
                )),
        decreases n,
    {
        if n > 0 {
            let prev = self.selected((n - 1) as nat);
            self.lemma_selected_come_first((n - 1) as nat);
            let s0 = (n - 1) as u8;
            if self.sprite_on_line(s0) {
                let sd = self.sprite_entry(s0);
                assert forall|i: int| 0 <= i < prev.len() implies prev[i] != sd by {
                    assert(prev[i].sprite_number < n - 1);
                }
                lemma_capped_insert(prev, sd);
                let p = insert_place(prev, sd, prev.len()) as int;
                let out = self.selected(n);
                assert(out == capped_insert(prev, sd));
                assert forall|i: int| 0 <= i < out.len() implies {
                    let e = #[trigger] out[i];
                    e.sprite_number < n && self.sprite_on_line(e.sprite_number) && e
                        == self.sprite_entry(e.sprite_number)
                } by {
                    if i < p {
                        assert(out[i] == prev[i]);
                    } else if i == p {
                        assert(out[i] == sd);
                    } else {
                        assert(out[i] == prev[i - 1]);
                    }
                }
                assert forall|s: u8| s < n && #[trigger] self.sprite_on_line(s) implies out.contains(
                    self.sprite_entry(s),
                ) || (out.len() == MAX_SPRITES_LINE && sprite_before(
                    out[MAX_SPRITES_LINE - 1],
                    self.sprite_entry(s),
                )) by {
                    let e = self.sprite_entry(s);
                    if s == s0 {
                        if p < out.len() {
                            assert(out[p] == e);
                        } else {
                            assert(sprite_before(prev[MAX_SPRITES_LINE - 1], sd));
                            assert(out[MAX_SPRITES_LINE - 1] == prev[MAX_SPRITES_LINE - 1]);
                        }
                    } else if prev.contains(e) {
                        let i = choose|i: int| 0 <= i < prev.len() && prev[i] == e;
                        if i < p {
                            assert(out[i] == e);
                        } else if i + 1 < out.len() {
                            assert(out[i + 1] == e);
                        } else {
                            // the entry was the tenth and is pushed out
                            assert(i == MAX_SPRITES_LINE - 1);
                            if p == MAX_SPRITES_LINE - 1 {
                                assert(out[MAX_SPRITES_LINE - 1] == sd);
                                assert(sprite_before(sd, prev[i]));
                            } else {
                                assert(out[MAX_SPRITES_LINE - 1] == prev[MAX_SPRITES_LINE - 2]);
                                assert(sprite_before(prev[MAX_SPRITES_LINE - 2], prev[i]));
                            }
                        }
                    } else {
                        let last = prev[MAX_SPRITES_LINE - 1];
                        assert(sprite_before(last, e));
                        if p >= MAX_SPRITES_LINE {
                            assert(out[MAX_SPRITES_LINE - 1] == last);
                        } else if p == MAX_SPRITES_LINE - 1 {
                            assert(out[MAX_SPRITES_LINE - 1] == sd);
                            assert(sprite_before(sd, last));
                        } else {
                            assert(out[MAX_SPRITES_LINE - 1] == prev[MAX_SPRITES_LINE - 2]);
                            assert(sprite_before(prev[MAX_SPRITES_LINE - 2], last));
                        }
                    }
                }
            } else {
                assert(self.selected(n) == prev);
            }
        }
    }
}

impl<H: Host> Gb<H> {
    fn tile_px(&self, map_base: usize, mx: u8, my: u8) -> (p: Px)
        requires
            self.wf(),
            map_base == VRAM_BMAP_1 || map_base == VRAM_BMAP_2,
        ensures
            p == self@.tile_px(map_base as int, mx, my),
    {
        proof {
            reveal(GbView::tile_px);
        }
        let cell: usize = map_base + (my / 8) as usize * 32 + (mx / 8) as usize;
        let idx = self.vram[cell];
        let att: u8 = if self.cgb.mode {
            self.vram[cell + 0x2000]
        } else {
            0
        };
        let row: usize = if self.cgb.mode && att & ATTR_FLIP_Y != 0 {
            (7 - my % 8) as usize
        } else {
            (my % 8) as usize
        };
        let block: usize = if self.hram_io[IO_LCDC] & LCDC_TILE_SELECT != 0 {
            VRAM_TILES_1 + idx as usize * 16
        } else {
            VRAM_TILES_2 + ((idx as usize + 0x80) % 0x100) * 16
        };
        let bank: usize = if self.cgb.mode && att & ATTR_BANK != 0 {
            0x2000
        } else {
            0
        };
        let data: usize = block + bank + 2 * row;
        let bit: u8 = if self.cgb.mode && att & ATTR_FLIP_X != 0 {
            mx % 8
        } else {
            7 - mx % 8
        };
        let c = color_of(self.vram[data], self.vram[data + 1], bit);
        if self.cgb.mode {
            Px { value: (att % 8) * 4 + c, prio: att / 128 }
        } else {
            let tag: u8 = if self.config.tagged_palette {
                LCD_PALETTE_BG
            } else {
                0
            };
            Px { value: self.bg_palette[c as usize] | tag, prio: 0 }
        }
    }

    fn base_px(&self, x: u8) -> (p: Px)
        requires
            self.wf(),
            x < LCD_WIDTH,
        ensures
            p == self@.base_px(x),
    {
        proof {
            reveal(GbView::base_px);
            reveal(GbView::bg_px);
            reveal(GbView::win_px);
        }
        let lcdc = self.hram_io[IO_LCDC];
        let ly = self.hram_io[IO_LY];
        let wx = self.hram_io[IO_WX];
        if lcdc & LCDC_WINDOW_ENABLE != 0 && ly >= self.display.wy && wx <= 166 && x + 7 >= wx {
            let map: usize = if lcdc & LCDC_WINDOW_MAP != 0 {
                VRAM_BMAP_2
            } else {
                VRAM_BMAP_1
            };
            self.tile_px(map, x + 7 - wx, self.display.window_clear)
        } else if self.cgb.mode || lcdc & LCDC_BG_ENABLE != 0 {
            let map: usize = if lcdc & LCDC_BG_MAP != 0 {
                VRAM_BMAP_2
            } else {
                VRAM_BMAP_1
            };
            self.tile_px(
                map,
                x.wrapping_add(self.hram_io[IO_SCX]),
                ly.wrapping_add(self.hram_io[IO_SCY]),
            )
        } else {
            Px { value: 0, prio: 0 }
        }
    }

    fn sprite_on_line(&self, s: u8) -> (r: bool)
        requires
            self.wf(),
            s < NUM_SPRITES,
        ensures
            r == self@.sprite_on_line(s),
    {
        let oy = self.oam[4 * s as usize];
        let ly = self.hram_io[IO_LY];
        let h: u16 = if self.hram_io[IO_LCDC] & LCDC_OBJ_SIZE != 0 {
            16
        } else {
            8
        };
        ly as u16 + 16 - h < oy as u16 && oy as u16 <= ly as u16 + 16
    }

    /// The color index at column `x` after sprite `s` was drawn over `cur`,
    /// where the sprite covers the column.
    fn sprite_value(&self, s: u8, x: u8, cur: u8, prio: u8) -> (v: u8)
        requires
            self.wf(),
            s < NUM_SPRITES,
            x < LCD_WIDTH,
            self@.sprite_covers(s, x),
            prio == self@.base_px(x).prio,
        ensures
            v == self@.sprite_value(s, x, cur),
    {
        proof {
            reveal(GbView::sprite_value);
            reveal(GbView::sprite_color);
        }
        let lcdc = self.hram_io[IO_LCDC];
        let tall = lcdc & LCDC_OBJ_SIZE != 0;
        let base: usize = 4 * s as usize;
        let oy = self.oam[base];
        let ox = self.oam[base + 1];
        let ot = self.oam[base + 2] & (if tall { 0xFEu8 } else { 0xFFu8 });
        let of = self.oam[base + 3];
        let h: u8 = if tall {
            16
        } else {
            8
        };
        let py0: u8 = self.hram_io[IO_LY] + 16 - oy;
        let py: u8 = if of & OBJ_FLIP_Y != 0 {
            h - 1 - py0
        } else {
            py0
        };
        let data: usize = VRAM_TILES_1 + ot as usize * 16 + 2 * py as usize;
        let col: u8 = x + 8 - ox;
        let bit: u8 = if of & OBJ_FLIP_X != 0 {
            col
        } else {
            7 - col
        };
        let c = color_of(self.vram[data], self.vram[data + 1], bit);
        let shows: bool = if self.cgb.mode {
            c != 0 && (lcdc & LCDC_BG_ENABLE == 0 || (!(prio != 0 && cur & 0x3 != 0) && !(of
                & OBJ_PRIORITY != 0 && cur & 0x3 != 0)))
        } else {
            c != 0 && !(of & OBJ_PRIORITY != 0 && cur & 0x3 != self.bg_palette[0])
        };
        if shows {
            if self.cgb.mode {
                (of % 8) * 4 + c + 0x20
            } else {
                let pal: usize = if of & OBJ_PALETTE != 0 {
                    4
                } else {
                    0
                };
                let tag: u8 = if self.config.tagged_palette {
                    of & LCD_PALETTE_OBJ
                } else {
                    0
                };
                self.sp_palette[c as usize + pal] | tag
            }
        } else {
            cur
        }
    }

    /// Draws sprite `s` over the row.
    fn render_sprite(&self, value: &mut [u8; 160], prio: &[u8; 160], s: u8)
        requires
            self.wf(),
            s < NUM_SPRITES,
            forall|x: int| 0 <= x < 160 ==> prio@[x] == self@.base_px(x as u8).prio,
        ensures
            final(value)@ == self@.over(old(value)@, s),
    {
        let ghost before = value@;
        let ox = self.oam[4 * s as usize + 1];
        if !self.sprite_on_line(s) || ox == 0 || ox >= 168 {
            proof {
                reveal(GbView::sprite_value);
                assert(value@ =~= self@.over(before, s));
            }
            return ;
        }
        let start: u8 = if ox < 8 {
            0
        } else {
            ox - 8
        };
        let end: u8 = if ox < LCD_WIDTH {
            ox
        } else {
            LCD_WIDTH
        };
        let mut x: u8 = start;
        while x < end
            invariant
                self.wf(),
                s < NUM_SPRITES,
                start <= x,
                end <= LCD_WIDTH,
                start <= end || x == start,
                ox == self@.oam[4 * s + 1],
                ox != 0,
                ox < 168,
                self@.sprite_on_line(s),
                start == (if ox < 8 {
                    0
                } else {
                    ox - 8
                }),
                end == (if ox < LCD_WIDTH {
                    ox
                } else {
                    LCD_WIDTH
                }),
                forall|k: int| 0 <= k < 160 ==> prio@[k] == self@.base_px(k as u8).prio,
                forall|k: int|
                    0 <= k < 160 ==> value@[k] == (if start <= k < x {
                        self@.sprite_value(s, k as u8, before[k])
                    } else {
                        before[k]
                    }),
            decreases end - x,
        {
            let v = self.sprite_value(s, x, value[x as usize], prio[x as usize]);
            value[x as usize] = v;
            x = x + 1;
        }
        proof {
            reveal(GbView::sprite_value);
            assert(value@ =~= self@.over(before, s));
        }
    }

    /// The place of a new sprite in the ordered list of a line.
    fn insert_place(list: &Vec<SpriteData>, sd: SpriteData) -> (k: usize)
        ensures
            k == insert_place(list@, sd, list@.len()),
            k <= list.len(),
    {
        let mut k: usize = list.len();
        let mut found = false;
        while k > 0 && !found
            invariant
                k <= list.len(),
                insert_place(list@, sd, list@.len()) == insert_place(list@, sd, k as nat),
                found ==> k > 0 && not_after(list@[k - 1], sd),
            decreases k + (if found { 0int } else { 1 }),
        {
            if is_before(list[k - 1], sd) {
                found = true;
            } else {
                k = k - 1;
            }
        }
        k
    }

    /// Picks the sprites of this line, ordered, the first ten.
    fn select_sprites(&self) -> (list: Vec<SpriteData>)
        requires
            self.wf(),
        ensures
            list@ == self@.selected(NUM_SPRITES as nat),
            list.len() <= MAX_SPRITES_LINE,
            forall|i: int| 0 <= i < list.len() ==> list[i].sprite_number < NUM_SPRITES,
    {
        let mut list: Vec<SpriteData> = Vec::new();
        let mut s: u8 = 0;
        while s < NUM_SPRITES
            invariant
                self.wf(),
                s <= NUM_SPRITES,
                list@ == self@.selected(s as nat),
                list.len() <= MAX_SPRITES_LINE,
                forall|i: int| 0 <= i < list.len() ==> list[i].sprite_number < NUM_SPRITES,
            decreases NUM_SPRITES - s,
        {
            if self.sprite_on_line(s) {
                let sd = SpriteData { sprite_number: s, x: self.oam[4 * s as usize + 1] };
                let k = Self::insert_place(&list, sd);
                list.insert(k, sd);
                if list.len() > MAX_SPRITES_LINE as usize {
                    list.truncate(MAX_SPRITES_LINE as usize);
                }
            }
            s = s + 1;
        }
        list
    }

    /// The sprites in the order they are drawn.
    fn draw_order(&self) -> (order: Vec<u8>)
        requires
            self.wf(),
        ensures
            order@ == self@.draw_order(),
            forall|i: int| 0 <= i < order.len() ==> order[i] < NUM_SPRITES,
    {
        proof {
            reveal(GbView::draw_order);
        }
        let mut order: Vec<u8> = Vec::new();
        if self.config.high_lcd_accuracy && !self.cgb.mode {
            let sel = self.select_sprites();
            let n = sel.len();
            let mut i: usize = 0;
            while i < n
                invariant
                    i <= n,
                    n == sel.len(),
                    order.len() == i,
                    forall|j: int| 0 <= j < sel.len() ==> sel[j].sprite_number < NUM_SPRITES,
                    forall|j: int| 0 <= j < i ==> order[j] == sel[n - 1 - j].sprite_number,
                decreases n - i,
            {
                order.push(sel[n - 1 - i].sprite_number);
                i = i + 1;
            }
            assert(order@ =~= self@.draw_order());
        } else {
            let mut i: u8 = 0;
            while i < NUM_SPRITES
                invariant
                    i <= NUM_SPRITES,
                    order.len() == i,
                    forall|j: int| 0 <= j < i ==> order[j] == NUM_SPRITES - 1 - j,
                decreases NUM_SPRITES - i,
            {
                order.push(NUM_SPRITES - 1 - i);
                i = i + 1;
            }
            assert(order@ =~= self@.draw_order());
        }
        order
    }

    /// Composes the row of 160 color indices of the current line.
    pub fn render_line(&self) -> (pixels: [u8; 160])
        requires
            self.wf(),
        ensures
            pixels@ == self@.line_pixels(),
    {
        proof {
            reveal(GbView::line_pixels);
        }
        let mut value: [u8; 160] = [0u8; 160];
        let mut prio: [u8; 160] = [0u8; 160];
        let mut x: u8 = 0;
        while x < LCD_WIDTH
            invariant
                self.wf(),
                x <= LCD_WIDTH,
                forall|k: int| 0 <= k < x ==> value@[k] == self@.base_px(k as u8).value,
                forall|k: int| 0 <= k < x ==> prio@[k] == self@.base_px(k as u8).prio,
            decreases LCD_WIDTH - x,
        {
            let p = self.base_px(x);
            value[x as usize] = p.value;
            prio[x as usize] = p.prio;
            x = x + 1;
        }
        assert(value@ =~= self@.base_row());
        if self.hram_io[IO_LCDC] & LCDC_OBJ_ENABLE != 0 {
            let order = self.draw_order();
            let mut i: usize = 0;
            while i < order.len()
                invariant
                    self.wf(),
                    i <= order.len(),
                    order@ == self@.draw_order(),
                    forall|j: int| 0 <= j < order.len() ==> order[j] < NUM_SPRITES,
                    forall|k: int| 0 <= k < 160 ==> prio@[k] == self@.base_px(k as u8).prio,
                    value@ == self@.composed(self@.base_row(), order@, i as nat),
                decreases order.len() - i,
            {
                self.render_sprite(&mut value, &prio, order[i]);
                i = i + 1;
            }
        }
        value
    }
}

} // verus!
