//! The animation controller: a frame counter advanced at a configurable
//! speed over a clip of the sprite sheet, with a level-triggered "did the
//! clip reach its last frame" query.

use vstd::prelude::*;
use crate::geom::Rect;
use crate::geom::Vec2;

verus! {

/// An immutable animation clip: source region in the sprite sheet (in
/// sheet pixels), frame count, ticks per frame advance, and a pivot
/// offset (in subunits) applied when positioning.
#[derive(Copy, Clone, Debug, PartialEq, Eq, Structural)]
pub struct AnimationData {
    pub x: i32,
    pub y: i32,
    pub w: i32,
    pub h: i32,
    pub frames: i32,
    pub speed: i32,
    pub pivot_x: i32,
    pub pivot_y: i32,
}

impl AnimationData {
    /// Clip data a controller can run: at least one frame, a positive
    /// speed, and small positive dimensions.
    pub open spec fn wf(self) -> bool {
        &&& 1 <= self.frames <= 64
        &&& 1 <= self.speed <= 64
        &&& 0 <= self.x <= 10_000
        &&& 0 <= self.y <= 10_000
        &&& 1 <= self.w <= 1_024
        &&& 1 <= self.h <= 1_024
        &&& 0 <= self.pivot_x <= 64
        &&& 0 <= self.pivot_y <= 64
    }
}

/// A running animation: the active clip plus playback state and the
/// world-space position the sprite is drawn at (in subunits).
#[derive(Copy, Clone, Debug, PartialEq, Eq, Structural)]
pub struct AnimatedSprite {
    pub position: Vec2,
    pub source_rect: Rect,
    pub speed: i32,
    pub frames: i32,
    pub elapsed: i32,
    pub current_frame: i32,
    pub flip_x: bool,
    pub play: bool,
    pub pivot_x: i32,
    pub pivot_y: i32,
}

impl AnimatedSprite {
    /// Playback state that every operation here preserves (except
    /// `set_animation`, which relies on a following `play` to restart
    /// the frame counter under the new clip).
    pub open spec fn wf(self) -> bool {
        &&& 1 <= self.frames <= 64
        &&& 1 <= self.speed <= 64
        &&& 0 <= self.current_frame < self.frames
        &&& 0 <= self.elapsed < self.speed
        &&& crate::geom::abs_spec(self.position.x as int) <= crate::POS_LIMIT + 64
        &&& crate::geom::abs_spec(self.position.y as int) <= crate::POS_LIMIT + 64
        &&& 0 <= self.pivot_x <= 64
        &&& 0 <= self.pivot_y <= 64
    }

    pub open spec fn new_spec(data: AnimationData) -> AnimatedSprite {
        AnimatedSprite {
            position: Vec2 { x: 0, y: 0 },
            source_rect: Rect { x: data.x, y: data.y, w: data.w, h: data.h },
            frames: data.frames,
            speed: data.speed,
            elapsed: 0,
            current_frame: 0,
            flip_x: false,
            play: true,
            pivot_x: data.pivot_x,
            pivot_y: data.pivot_y,
        }
    }

    /// A fresh controller on `data`, at frame zero and playing.
    pub fn new(data: &AnimationData) -> (r: Self)
        requires
            data.wf(),
        ensures
            r == Self::new_spec(*data),
            r.wf(),
    {
        AnimatedSprite {
            position: Vec2 { x: 0, y: 0 },
            source_rect: Rect { x: data.x, y: data.y, w: data.w, h: data.h },
            frames: data.frames,
            speed: data.speed,
            elapsed: 0,
            current_frame: 0,
            flip_x: false,
            play: true,
            pivot_x: data.pivot_x,
            pivot_y: data.pivot_y,
        }
    }

    /// One playback tick: the elapsed counter advances modulo `speed`,
    /// and each time it wraps the frame advances modulo `frames`.
    pub open spec fn animate_spec(s: AnimatedSprite) -> AnimatedSprite {
        let e = if s.elapsed + 1 >= s.speed {
            0
        } else {
            s.elapsed + 1
        };
        if e == 0 {
            let f = if s.current_frame + 1 >= s.frames {
                0
            } else {
                s.current_frame + 1
            };
            AnimatedSprite { elapsed: 0, current_frame: f as i32, ..s }
        } else {
            AnimatedSprite { elapsed: e as i32, ..s }
        }
    }

    /// Advances playback by one tick.
    pub fn animate(&mut self)
        requires
            old(self).wf(),
        ensures
            *final(self) == Self::animate_spec(*old(self)),
            final(self).wf(),
    {
        if self.elapsed + 1 >= self.speed {
            self.elapsed = 0;
            if self.current_frame + 1 >= self.frames {
                self.current_frame = 0;
            } else {
                self.current_frame = self.current_frame + 1;
            }
        } else {
            self.elapsed = self.elapsed + 1;
        }
    }

    /// Replaces the clip and resets the elapsed counter, leaving
    /// `current_frame` alone: installing a new clip after a state change
    /// must be followed by `play` to restart from frame zero.
    pub open spec fn set_animation_spec(s: AnimatedSprite, data: AnimationData) -> AnimatedSprite {
        AnimatedSprite {
            source_rect: Rect { x: data.x, y: data.y, w: data.w, h: data.h },
            frames: data.frames,
            speed: data.speed,
            elapsed: 0,
            ..s
        }
    }

    pub fn set_animation(&mut self, data: &AnimationData)
        requires
            data.wf(),
        ensures
            *final(self) == Self::set_animation_spec(*old(self), *data),
    {
        self.source_rect = Rect { x: data.x, y: data.y, w: data.w, h: data.h };
        self.frames = data.frames;
        self.speed = data.speed;
        self.elapsed = 0;
    }

    pub open spec fn play_spec(s: AnimatedSprite) -> AnimatedSprite {
        AnimatedSprite { play: true, current_frame: 0, ..s }
    }

    /// Restarts playback from frame zero.
    pub fn play(&mut self)
        ensures
            *final(self) == Self::play_spec(*old(self)),
    {
        self.play = true;
        self.current_frame = 0;
    }

    /// Where the sprite is drawn when the owning actor stands at
    /// `position`: the position shifted back by the pivot offset.
    pub open spec fn set_position_spec(s: AnimatedSprite, position: Vec2) -> AnimatedSprite {
        AnimatedSprite {
            position: Vec2 {
                x: (position.x - s.pivot_x) as i32,
                y: (position.y - s.pivot_y) as i32,
            },
            ..s
        }
    }

    pub fn set_position_to(&mut self, position: Vec2)
        requires
            crate::geom::abs_spec(position.x as int) <= crate::POS_LIMIT,
            crate::geom::abs_spec(position.y as int) <= crate::POS_LIMIT,
            0 <= old(self).pivot_x <= 64,
            0 <= old(self).pivot_y <= 64,
        ensures
            *final(self) == Self::set_position_spec(*old(self), position),
    {
        self.position = Vec2 { x: position.x - self.pivot_x, y: position.y - self.pivot_y };
    }

    /// Direct frame seek; used only for decorative desynchronisation.
    pub fn set_frame(&mut self, value: i32)
        requires
            0 <= value < old(self).frames,
        ensures
            *final(self) == (AnimatedSprite { current_frame: value, ..*old(self) }),
    {
        self.current_frame = value;
    }

    /// Level-triggered end-of-clip query: true exactly while the frame
    /// counter sits on the last frame, every tick it does.
    pub fn is_animation_ended(&self) -> (r: bool)
        ensures
            r == (self.current_frame == self.frames - 1),
    {
        (self.current_frame as i64) == (self.frames as i64) - 1
    }
}

} // verus!
