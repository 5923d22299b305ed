//! The order in which sprites are drawn where two of them overlap.

use std::cmp::Ordering;
use vstd::prelude::*;

verus! {

/// A sprite that lies on the line being drawn: its place in the sprite
/// table and its X coordinate.
#[derive(Clone, Copy, Debug, PartialEq, Eq, Structural)]
pub struct SpriteData {
    pub sprite_number: u8,
    pub x: u8,
}

/// Whether `a` comes before `b`: by X coordinate, then by place in the
/// sprite table.
pub open spec fn sprite_before(a: SpriteData, b: SpriteData) -> bool {
    a.x < b.x || (a.x == b.x && a.sprite_number < b.sprite_number)
}

/// The order of two slots of the list of sprites to draw.  Two sprites are
/// ordered by X coordinate, then by place in the sprite table (a sprite
/// never equals another: a sprite compared with itself counts as less); a
/// sprite comes before an empty slot; two empty slots are equal.
pub open spec fn sprite_order(sd1: Option<SpriteData>, sd2: Option<SpriteData>) -> Ordering {
    if sd1 is Some && sd2 is Some {
        if sd1.unwrap().x > sd2.unwrap().x {
            Ordering::Greater
        } else if sd1.unwrap().x < sd2.unwrap().x {
            Ordering::Less
        } else if sd1.unwrap().sprite_number > sd2.unwrap().sprite_number {
            Ordering::Greater
        } else {
            Ordering::Less
        }
    } else if sd1 is Some {
        Ordering::Less
    } else if sd2 is Some {
        Ordering::Greater
    } else {
        Ordering::Equal
    }
}

pub fn compare_sprites(sd1: &Option<SpriteData>, sd2: &Option<SpriteData>) -> (r: Ordering)
    ensures
        r == sprite_order(*sd1, *sd2),
        sd1 is Some && sd2 is Some && sd1.unwrap() != sd2.unwrap() ==> (r == Ordering::Less
            <==> sprite_before(sd1.unwrap(), sd2.unwrap())),
{
    match (sd1, sd2) {
        (Some(a), Some(b)) => {
            if a.x > b.x {
                Ordering::Greater
            } else if a.x < b.x {
                Ordering::Less
            } else if a.sprite_number > b.sprite_number {
                Ordering::Greater
            } else {
                Ordering::Less
            }
        },
        (Some(_), None) => Ordering::Less,
        (None, Some(_)) => Ordering::Greater,
        (None, None) => Ordering::Equal,
    }
}

/// Whether slot `a` is ordered before slot `b` when both hold a sprite:
/// `a` comes before `b`, or they are the same sprite.
pub open spec fn not_after(a: SpriteData, b: SpriteData) -> bool {
    sprite_before(a, b) || a == b
}

/// Tells whether sprite `a` is ordered before sprite `b`.
pub fn is_before(a: SpriteData, b: SpriteData) -> (r: bool)
    ensures
        r == not_after(a, b),
{
    match compare_sprites(&Some(a), &Some(b)) {
        Ordering::Less => true,
        _ => false,
    }
}

/// Between two different sprites the order is strict and total: exactly one
/// of them comes before the other.
pub proof fn lemma_sprite_order_total(a: SpriteData, b: SpriteData)
    requires
        a != b,
    ensures
        sprite_before(a, b) != sprite_before(b, a),
        (sprite_order(Some(a), Some(b)) == Ordering::Less) == sprite_before(a, b),
        (sprite_order(Some(a), Some(b)) == Ordering::Greater) == sprite_before(b, a),
{
}

/// The order of sprites is transitive.
pub proof fn lemma_sprite_order_transitive(a: SpriteData, b: SpriteData, c: SpriteData)
    requires
        sprite_before(a, b),
        sprite_before(b, c),
    ensures
        sprite_before(a, c),
{
}

} // verus!
