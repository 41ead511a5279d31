//! Attack descriptors and their per-frame active-hitbox tables. Each
//! variant maps, keyed by the current animation frame, to at most one
//! hitbox rectangle in actor-local, unflipped space; mirroring for the
//! facing direction is applied uniformly after lookup, never baked into
//! the table.

use vstd::prelude::*;
use crate::geom::Rect;

verus! {

/// Width of one actor sprite frame in subunits (64 pixels); mirrored
/// hitboxes are reflected inside this span.
pub const SPRITE_WIDTH: i32 = 1_024;

/// An in-progress attack. The dash variants count `timer` down one per
/// tick and carry the facing `dir` (-1 or 1) they were started with.
#[derive(Copy, Clone, Debug, PartialEq, Eq, Structural)]
pub enum AttackType {
    Heavy,
    Double,
    RepeatHeavy,
    AttackDash { timer: i32, dir: i32 },
    AttackAirDash { timer: i32, dir: i32 },
}

/// Damage one registered strike of the attack deals: the heavy swings
/// deal 2, the double slash 1, and the dashes 0 contact damage (the
/// value is carried even though the current balance is zero).
pub open spec fn hit_point_spec(attack: AttackType) -> int {
    match attack {
        AttackType::Double => 1,
        AttackType::AttackDash { .. } => 0,
        AttackType::AttackAirDash { .. } => 0,
        AttackType::Heavy => 2,
        AttackType::RepeatHeavy => 2,
    }
}

pub fn get_hit_point(attack: &AttackType) -> (r: i32)
    ensures
        r == hit_point_spec(*attack),
{
    match attack {
        AttackType::Double => 1,
        AttackType::AttackDash { .. } => 0,
        AttackType::AttackAirDash { .. } => 0,
        AttackType::Heavy => 2,
        AttackType::RepeatHeavy => 2,
    }
}

/// The unflipped hitbox table: closed, non-overlapping frame ranges per
/// variant; frames outside every range expose no box.
pub open spec fn hit_box_table_spec(attack: AttackType, frame: int) -> Option<Rect> {
    match attack {
        AttackType::Double => {
            if 6 <= frame <= 9 {
                Some(Rect { x: 656, y: 496, w: 256, h: 256 })
            } else if 13 <= frame <= 15 {
                Some(Rect { x: 144, y: 496, w: 256, h: 256 })
            } else {
                None
            }
        },
        AttackType::Heavy => {
            if 12 <= frame <= 14 {
                Some(Rect { x: 544, y: 64, w: 432, h: 704 })
            } else {
                None
            }
        },
        AttackType::RepeatHeavy => {
            if 12 <= frame <= 14 {
                Some(Rect { x: 544, y: 64, w: 432, h: 704 })
            } else {
                None
            }
        },
        AttackType::AttackDash { .. } => Some(Rect { x: 576, y: 512, w: 176, h: 224 }),
        AttackType::AttackAirDash { .. } => Some(Rect { x: 576, y: 512, w: 176, h: 224 }),
    }
}

/// Reflection of a local-space box across the vertical centre line of
/// the sprite.
pub open spec fn mirror_spec(b: Rect) -> Rect {
    Rect { x: (SPRITE_WIDTH - b.x - b.w) as i32, y: b.y, w: b.w, h: b.h }
}

/// The active hitbox for a descriptor on a frame, mirrored when the
/// sprite is flipped.
pub open spec fn hit_box_spec(attack: AttackType, frame: int, flip_x: bool) -> Option<Rect> {
    match hit_box_table_spec(attack, frame) {
        Some(b) => if flip_x {
            Some(mirror_spec(b))
        } else {
            Some(b)
        },
        None => None,
    }
}

/// Looks up the active hitbox of `attack` on animation frame `frame`,
/// in actor-local space, mirrored when `flip_x` is set.
pub fn get_hit_box(attack: &AttackType, frame: i32, flip_x: bool) -> (r: Option<Rect>)
    ensures
        r == hit_box_spec(*attack, frame as int, flip_x),
{
    let h_box: Option<Rect> = match attack {
        AttackType::Double => {
            if 6 <= frame && frame <= 9 {
                Some(Rect { x: 656, y: 496, w: 256, h: 256 })
            } else if 13 <= frame && frame <= 15 {
                Some(Rect { x: 144, y: 496, w: 256, h: 256 })
            } else {
                None
            }
        },
        AttackType::Heavy => {
            if 12 <= frame && frame <= 14 {
                Some(Rect { x: 544, y: 64, w: 432, h: 704 })
            } else {
                None
            }
        },
        AttackType::RepeatHeavy => {
            if 12 <= frame && frame <= 14 {
                Some(Rect { x: 544, y: 64, w: 432, h: 704 })
            } else {
                None
            }
        },
        AttackType::AttackDash { .. } => Some(Rect { x: 576, y: 512, w: 176, h: 224 }),
        AttackType::AttackAirDash { .. } => Some(Rect { x: 576, y: 512, w: 176, h: 224 }),
    };
    match h_box {
        Some(b) => {
            if flip_x {
                Some(Rect { x: SPRITE_WIDTH - b.x - b.w, y: b.y, w: b.w, h: b.h })
            } else {
                Some(b)
            }
        },
        None => None,
    }
}

/// Mirroring law: for every descriptor and frame that yield a box, the
/// flipped lookup yields the same box reflected across the sprite's
/// vertical centre line (`x` maps to `spriteWidth - x - width`), with
/// `y`, `w` and `h` unchanged; and a frame yields a box when flipped
/// exactly when it does unflipped.
pub proof fn lemma_hit_box_mirrored(attack: AttackType, frame: int)
    ensures
        (hit_box_spec(attack, frame, true) is Some) == (hit_box_spec(attack, frame, false)
            is Some),
        hit_box_spec(attack, frame, false) is Some ==> {
            let b = hit_box_spec(attack, frame, false)->Some_0;
            let m = hit_box_spec(attack, frame, true)->Some_0;
            m.x == SPRITE_WIDTH - b.x - b.w && m.y == b.y && m.w == b.w && m.h == b.h
        },
{
}

/// Mirroring twice restores the table's box: the reflection is an
/// involution on every box the table yields.
pub proof fn lemma_mirror_involution(attack: AttackType, frame: int)
    ensures
        hit_box_table_spec(attack, frame) matches Some(b) ==> mirror_spec(mirror_spec(b)) == b,
{
}

} // verus!
