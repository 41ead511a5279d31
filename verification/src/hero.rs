//! The player actor: state machine, attack handling, per-tick physics
//! and the combat resolver that tests its active hitbox against the
//! hostile actors.

use vstd::prelude::*;
use crate::attack::AttackType;
use crate::attack::hit_box_spec;
use crate::attack::hit_point_spec;
use crate::attack::get_hit_box;
use crate::attack::get_hit_point;
use crate::controls::InputSnapshot;
use crate::geom::Rect;
use crate::geom::Vec2;
use crate::geom::abs_spec;
use crate::geom::clamp_i32;
use crate::geom::clamp_spec;
use crate::geom::knockback;
use crate::geom::knockback_spec;
use crate::geom::rects_overlap;
use crate::geom::scale_frac;
use crate::geom::scale_frac_spec;
use crate::geom::world_box_spec;
use crate::monster::Monster;
use crate::sound_system::SoundList;
use crate::sprite::AnimatedSprite;
use crate::sprite::AnimationData;
use crate::POS_LIMIT;
use crate::VEL_LIMIT;

verus! {

/// Gravity added to vertical velocity every tick (half a pixel).
pub const GRAVITY: i32 = 8;

/// Horizontal walk speed (2 pixels per tick).
pub const WALK_SPEED: i32 = 32;

/// Horizontal speed during a ground dash (6 pixels per tick).
pub const DASH_SPEED: i32 = 96;

/// Horizontal speed during an air dash (8 pixels per tick).
pub const AIR_DASH_SPEED: i32 = 128;

/// Upward velocity a jump gives (8 pixels per tick).
pub const JUMP_SPEED: i32 = 128;

/// Ticks a fresh dash descriptor lives.
pub const DASH_TICKS: i32 = 10;

/// The heavy attack chains into the repeat attack only after this
/// animation frame.
pub const HEAVY_CHAIN_FRAME: i32 = 13;

#[derive(Copy, Clone, Debug, PartialEq, Eq, Hash, Structural)]
pub enum State {
    Idle,
    Walk,
    Jump,
    AttackOne,
    AttackDouble,
    RepeatAttack,
    Dash,
    AirDash,
    Dying,
    Dead,
    Hit,
}

/// The player actor.
#[derive(Copy, Clone, Debug, PartialEq, Eq, Structural)]
pub struct Hero {
    pub position: Vec2,
    pub direction: i32,
    pub velocity: Vec2,
    pub state: State,
    pub sprite: AnimatedSprite,
    pub health: i32,
    pub collision_box: Rect,
    pub on_the_floor: bool,
    pub hited: bool,
    pub hitable: bool,
    pub attack: Option<AttackType>,
}

/// The animation clip bound to each player state; every state has one.
pub open spec fn hero_animation_spec(state: State) -> AnimationData {
    match state {
        State::AirDash => AnimationData {
            x: 0,
            y: 0,
            h: 64,
            w: 64,
            frames: 7,
            speed: 4,
            pivot_x: 0,
            pivot_y: 0,
        },
        State::Dash => AnimationData {
            x: 0,
            y: 64,
            h: 64,
            w: 64,
            frames: 7,
            speed: 4,
            pivot_x: 0,
            pivot_y: 0,
        },
        State::Walk => AnimationData {
            x: 0,
            y: 128,
            h: 64,
            w: 64,
            frames: 8,
            speed: 4,
            pivot_x: 0,
            pivot_y: 0,
        },
        State::Idle => AnimationData {
            x: 0,
            y: 192,
            h: 64,
            w: 64,
            frames: 8,
            speed: 4,
            pivot_x: 0,
            pivot_y: 0,
        },
        State::Jump => AnimationData {
            x: 0,
            y: 256,
            h: 64,
            w: 64,
            frames: 12,
            speed: 4,
            pivot_x: 0,
            pivot_y: 0,
        },
        State::AttackDouble => AnimationData {
            x: 0,
            y: 384,
            h: 64,
            w: 64,
            frames: 19,
            speed: 2,
            pivot_x: 0,
            pivot_y: 0,
        },
        State::AttackOne => AnimationData {
            x: 0,
            y: 448,
            h: 64,
            w: 64,
            frames: 17,
            speed: 4,
            pivot_x: 0,
            pivot_y: 0,
        },
        State::RepeatAttack => AnimationData {
            x: 640,
            y: 448,
            h: 64,
            w: 64,
            frames: 7,
            speed: 4,
            pivot_x: 0,
            pivot_y: 0,
        },
        State::Hit => AnimationData {
            x: 128,
            y: 512,
            h: 64,
            w: 64,
            frames: 5,
            speed: 2,
            pivot_x: 0,
            pivot_y: 0,
        },
        State::Dying => AnimationData {
            x: 384,
            y: 320,
            h: 64,
            w: 64,
            frames: 13,
            speed: 10,
            pivot_x: 0,
            pivot_y: 0,
        },
        State::Dead => AnimationData {
            x: 1152,
            y: 320,
            h: 64,
            w: 64,
            frames: 1,
            speed: 2,
            pivot_x: 0,
            pivot_y: 0,
        },
    }
}

pub fn hero_animation(state: State) -> (r: AnimationData)
    ensures
        r == hero_animation_spec(state),
        r.wf(),
{
    match state {
        State::AirDash => AnimationData {
            x: 0,
            y: 0,
            h: 64,
            w: 64,
            frames: 7,
            speed: 4,
            pivot_x: 0,
            pivot_y: 0,
        },
        State::Dash => AnimationData {
            x: 0,
            y: 64,
            h: 64,
            w: 64,
            frames: 7,
            speed: 4,
            pivot_x: 0,
            pivot_y: 0,
        },
        State::Walk => AnimationData {
            x: 0,
            y: 128,
            h: 64,
            w: 64,
            frames: 8,
            speed: 4,
            pivot_x: 0,
            pivot_y: 0,
        },
        State::Idle => AnimationData {
            x: 0,
            y: 192,
            h: 64,
            w: 64,
            frames: 8,
            speed: 4,
            pivot_x: 0,
            pivot_y: 0,
        },
        State::Jump => AnimationData {
            x: 0,
            y: 256,
            h: 64,
            w: 64,
            frames: 12,
            speed: 4,
            pivot_x: 0,
            pivot_y: 0,
        },
        State::AttackDouble => AnimationData {
            x: 0,
            y: 384,
            h: 64,
            w: 64,
            frames: 19,
            speed: 2,
            pivot_x: 0,
            pivot_y: 0,
        },
        State::AttackOne => AnimationData {
            x: 0,
            y: 448,
            h: 64,
            w: 64,
            frames: 17,
            speed: 4,
            pivot_x: 0,
            pivot_y: 0,
        },
        State::RepeatAttack => AnimationData {
            x: 640,
            y: 448,
            h: 64,
            w: 64,
            frames: 7,
            speed: 4,
            pivot_x: 0,
            pivot_y: 0,
        },
        State::Hit => AnimationData {
            x: 128,
            y: 512,
            h: 64,
            w: 64,
            frames: 5,
            speed: 2,
            pivot_x: 0,
            pivot_y: 0,
        },
        State::Dying => AnimationData {
            x: 384,
            y: 320,
            h: 64,
            w: 64,
            frames: 13,
            speed: 10,
            pivot_x: 0,
            pivot_y: 0,
        },
        State::Dead => AnimationData {
            x: 1152,
            y: 320,
            h: 64,
            w: 64,
            frames: 1,
            speed: 2,
            pivot_x: 0,
            pivot_y: 0,
        },
    }
}

/// A dash descriptor's timer is a small non-negative count and its
/// direction a unit sign.
pub open spec fn attack_wf(a: Option<AttackType>) -> bool {
    match a {
        Some(AttackType::AttackDash { timer, dir }) => 0 <= timer <= 1_000 && (dir == 1 || dir
            == -1),
        Some(AttackType::AttackAirDash { timer, dir }) => 0 <= timer <= 1_000 && (dir == 1 || dir
            == -1),
        _ => true,
    }
}

impl Hero {
    /// State every player operation preserves: bounded position,
    /// velocity and health, a small local collision box, a running
    /// sprite, a unit (or neutral) facing and a well-formed attack
    /// descriptor.
    pub open spec fn wf(self) -> bool {
        &&& abs_spec(self.position.x as int) <= POS_LIMIT
        &&& abs_spec(self.position.y as int) <= POS_LIMIT
        &&& abs_spec(self.velocity.x as int) <= VEL_LIMIT
        &&& abs_spec(self.velocity.y as int) <= VEL_LIMIT
        &&& 0 <= self.collision_box.x <= 1_024
        &&& 0 <= self.collision_box.y <= 1_024
        &&& 1 <= self.collision_box.w <= 1_024
        &&& 1 <= self.collision_box.h <= 1_024
        &&& self.sprite.wf()
        &&& -1 <= self.direction <= 1
        &&& 0 <= self.health <= 1_000_000
        &&& attack_wf(self.attack)
    }

    pub open spec fn new_spec(x: i32, y: i32, life_time: i32) -> Hero {
        let position = Vec2 { x, y };
        let sprite = AnimatedSprite::set_position_spec(
            AnimatedSprite::new_spec(hero_animation_spec(State::Idle)),
            position,
        );
        Hero {
            position,
            direction: 0,
            velocity: Vec2 { x: 0, y: 0 },
            state: State::Idle,
            sprite,
            collision_box: Rect { x: 432, y: 448, w: 160, h: 320 },
            health: (60 * life_time) as i32,
            on_the_floor: false,
            hited: false,
            hitable: true,
            attack: None,
        }
    }

    /// A fresh player at `(x, y)` with `60 * life_time` health: idle,
    /// hit-eligible, airborne until the first floor contact, and with
    /// no attack in progress.
    pub fn new(x: i32, y: i32, life_time: i32) -> (r: Self)
        requires
            abs_spec(x as int) <= POS_LIMIT,
            abs_spec(y as int) <= POS_LIMIT,
            0 <= life_time <= 10_000,
        ensures
            r == Self::new_spec(x, y, life_time),
            r.wf(),
    {
        let position = Vec2 { x, y };
        let mut sprite = AnimatedSprite::new(&hero_animation(State::Idle));
        sprite.set_position_to(position);
        Hero {
            position,
            direction: 0,
            velocity: Vec2 { x: 0, y: 0 },
            state: State::Idle,
            sprite,
            collision_box: Rect { x: 432, y: 448, w: 160, h: 320 },
            health: 60 * life_time,
            on_the_floor: false,
            hited: false,
            hitable: true,
            attack: None,
        }
    }

    pub fn get_health(&self) -> (r: i32)
        ensures
            r == self.health,
    {
        self.health
    }

    /// True exactly in the terminal dead state.
    pub fn is_dead(&self) -> (r: bool)
        ensures
            r == (self.state == State::Dead),
    {
        match self.state {
            State::Dead => true,
            _ => false,
        }
    }

    /// The player's collision box placed in the world, displaced by
    /// `(dx, dy)` subunits.
    pub fn get_collision_box(&self, dx: i32, dy: i32) -> (r: Rect)
        requires
            self.wf(),
            abs_spec(dx as int) <= VEL_LIMIT,
            abs_spec(dy as int) <= VEL_LIMIT,
        ensures
            r == world_box_spec(self.position, self.collision_box, dx as int, dy as int),
    {
        Rect {
            x: self.position.x + self.collision_box.x + dx,
            y: self.position.y + self.collision_box.y + dy,
            w: self.collision_box.w,
            h: self.collision_box.h,
        }
    }

    /// The world-space active hitbox of `attack` on the current
    /// animation frame, if that frame exposes one.
    pub open spec fn world_hit_box_spec(h: Hero, attack: AttackType) -> Option<Rect> {
        match hit_box_spec(attack, h.sprite.current_frame as int, h.sprite.flip_x) {
            Some(b) => Some(
                Rect {
                    x: (b.x + h.position.x) as i32,
                    y: (b.y + h.position.y) as i32,
                    w: b.w,
                    h: b.h,
                },
            ),
            None => None,
        }
    }

    pub fn get_hit_box(&self, attack: &AttackType) -> (r: Option<Rect>)
        requires
            self.wf(),
        ensures
            r == Self::world_hit_box_spec(*self, *attack),
    {
        match get_hit_box(attack, self.sprite.current_frame, self.sprite.flip_x) {
            Some(hbox) => Some(
                Rect {
                    x: hbox.x + self.position.x,
                    y: hbox.y + self.position.y,
                    w: hbox.w,
                    h: hbox.h,
                },
            ),
            None => None,
        }
    }

    /// The forced transitions that pre-empt the ordinary table: a
    /// strike this tick forces the hit state, clearing eligibility,
    /// the strike flag and any attack descriptor (a pre-empted attack
    /// is destroyed, never resumed); after that, exhausted health on
    /// the ground forces dying. The dead state pre-empts both: it is
    /// terminal.
    pub open spec fn overrides_spec(h: Hero) -> Hero {
        let s1 = if h.hited && h.state != State::Dead {
            Hero { state: State::Hit, hitable: false, hited: false, attack: None, ..h }
        } else {
            h
        };
        if s1.health <= 0 && s1.on_the_floor && s1.state != State::Dying && s1.state
            != State::Dead {
            Hero { state: State::Dying, ..s1 }
        } else {
            s1
        }
    }

    /// The ordinary transition table, evaluated on the state after the
    /// forced overrides.
    pub open spec fn transition_spec(s2: Hero) -> Hero {
        let ended = s2.sprite.current_frame == s2.sprite.frames - 1;
        match s2.state {
            State::Idle => {
                let st = if s2.attack matches Some(AttackType::Double) {
                    State::AttackDouble
                } else if s2.attack matches Some(AttackType::Heavy) {
                    State::AttackOne
                } else if !s2.on_the_floor {
                    State::Jump
                } else if s2.direction != 0 {
                    State::Walk
                } else {
                    State::Idle
                };
                Hero { state: st, ..s2 }
            },
            State::Walk => {
                let st = if s2.attack matches Some(AttackType::Double) {
                    State::AttackDouble
                } else if s2.attack matches Some(AttackType::Heavy) {
                    State::AttackOne
                } else if s2.attack matches Some(AttackType::AttackDash { .. }) {
                    State::Dash
                } else if !s2.on_the_floor {
                    State::Jump
                } else if s2.direction == 0 {
                    State::Idle
                } else {
                    State::Walk
                };
                Hero { state: st, ..s2 }
            },
            State::Jump => {
                let st = if s2.attack matches Some(AttackType::Double) {
                    State::AttackDouble
                } else if s2.attack matches Some(AttackType::AttackAirDash { .. }) {
                    State::AirDash
                } else if s2.on_the_floor {
                    State::Idle
                } else {
                    State::Jump
                };
                Hero { state: st, ..s2 }
            },
            State::AttackDouble => {
                let sa = Hero { velocity: Vec2 { x: 0, y: s2.velocity.y }, ..s2 };
                if ended {
                    Hero { state: State::Idle, attack: None, ..sa }
                } else {
                    sa
                }
            },
            State::AttackOne | State::RepeatAttack => {
                let st = if s2.attack matches Some(AttackType::RepeatHeavy) {
                    State::RepeatAttack
                } else {
                    s2.state
                };
                let sa = Hero { state: st, velocity: Vec2 { x: 0, y: s2.velocity.y }, ..s2 };
                if ended {
                    Hero { state: State::Idle, attack: None, ..sa }
                } else {
                    sa
                }
            },
            State::Dash => {
                match s2.attack {
                    Some(AttackType::AttackDash { timer, dir }) => {
                        if timer - 1 > 0 {
                            Hero {
                                attack: Some(
                                    AttackType::AttackDash { timer: (timer - 1) as i32, dir },
                                ),
                                ..s2
                            }
                        } else {
                            Hero { attack: None, state: State::Idle, ..s2 }
                        }
                    },
                    _ => s2,
                }
            },
            State::AirDash => {
                let sa = if s2.on_the_floor {
                    Hero { state: State::Idle, attack: None, ..s2 }
                } else {
                    s2
                };
                match sa.attack {
                    Some(AttackType::AttackAirDash { timer, dir }) => {
                        if timer - 1 > 0 {
                            Hero {
                                attack: Some(
                                    AttackType::AttackAirDash { timer: (timer - 1) as i32, dir },
                                ),
                                ..sa
                            }
                        } else {
                            Hero { attack: None, state: State::Walk, ..sa }
                        }
                    },
                    _ => sa,
                }
            },
            State::Hit => {
                if ended {
                    Hero { state: State::Idle, hited: false, hitable: true, ..s2 }
                } else {
                    s2
                }
            },
            State::Dying => {
                let sa = if ended {
                    Hero { state: State::Dead, ..s2 }
                } else {
                    s2
                };
                Hero { hitable: false, ..sa }
            },
            State::Dead => Hero { hitable: false, ..s2 },
        }
    }

    /// Facing follows the horizontal direction: the sprite flips when
    /// walking left, unflips walking right, and keeps its side on a
    /// neutral axis.
    pub open spec fn facing_spec(s3: Hero) -> Hero {
        if s3.direction == 1 {
            Hero { sprite: AnimatedSprite { flip_x: false, ..s3.sprite }, ..s3 }
        } else if s3.direction == -1 {
            Hero { sprite: AnimatedSprite { flip_x: true, ..s3.sprite }, ..s3 }
        } else {
            s3
        }
    }

    /// When the resolved state differs from the state at tick start,
    /// the new state's clip is installed and playback restarts from
    /// frame zero.
    pub open spec fn reclip_spec(prev: State, s4: Hero) -> Hero {
        if prev != s4.state {
            Hero {
                sprite: AnimatedSprite::play_spec(
                    AnimatedSprite::set_animation_spec(s4.sprite, hero_animation_spec(s4.state)),
                ),
                ..s4
            }
        } else {
            s4
        }
    }

    /// The per-tick state machine, minus the sounds it emits: forced
    /// overrides, then the ordinary transition table, then facing, and
    /// a clip restart whenever the state changed.
    pub open spec fn state_step_spec(h: Hero) -> Hero {
        Self::reclip_spec(h.state, Self::facing_spec(Self::transition_spec(Self::overrides_spec(h))))
    }

    /// The sounds one state-machine step emits, `pick` being the fresh
    /// draw in `[0, 3)` that selects among the hit-grunt variants.
    pub open spec fn state_sounds_spec(h: Hero, pick: int) -> Seq<SoundList> {
        let s2 = Self::overrides_spec(h);
        let frame = s2.sprite.current_frame;
        match s2.state {
            State::AttackDouble => {
                if frame == 3 {
                    seq![SoundList::Sword1]
                } else if frame == 11 {
                    seq![SoundList::Sword2]
                } else {
                    Seq::empty()
                }
            },
            State::AttackOne | State::RepeatAttack => {
                if frame == 0 {
                    seq![SoundList::Heavy]
                } else {
                    Seq::empty()
                }
            },
            State::Hit => {
                if frame == 0 {
                    let grunt = if pick == 0 {
                        seq![SoundList::Huh1]
                    } else if pick == 1 {
                        seq![SoundList::Huh2]
                    } else if pick == 2 {
                        seq![SoundList::Huh3]
                    } else {
                        Seq::empty()
                    };
                    grunt + seq![SoundList::Huh1]
                } else {
                    Seq::empty()
                }
            },
            State::Dying => {
                if frame == 0 {
                    seq![SoundList::Death]
                } else {
                    Seq::empty()
                }
            },
            _ => Seq::empty(),
        }
    }

    /// One state-machine step on a given hit-grunt pick: every effect
    /// on the actor is exact, and the emitted sounds are exact for the
    /// pick.
    #[verifier::rlimit(100)]
    pub fn state_step(&mut self, pick: i32) -> (sounds: Vec<SoundList>)
        requires
            old(self).wf(),
        ensures
            *final(self) == Self::state_step_spec(*old(self)),
            sounds@ == Self::state_sounds_spec(*old(self), pick as int),
            final(self).wf(),
    {
        let mut sounds: Vec<SoundList> = Vec::new();
        let previous_state = self.state;
        if self.hited && self.state != State::Dead {
            self.state = State::Hit;
            self.hitable = false;
            self.hited = false;
            self.attack = None;
        }
        if self.health <= 0 && self.on_the_floor && self.state != State::Dying && self.state
            != State::Dead {
            self.state = State::Dying;
        }
        proof {
            assert(*self == Self::overrides_spec(*old(self)));
        }
        let ghost s2 = *self;
        match self.state {
            State::Idle => {
                if self.direction != 0 {
                    self.state = State::Walk;
                }
                if !self.on_the_floor {
                    self.state = State::Jump;
                }
                match &self.attack {
                    Some(a) => match a {
                        AttackType::Double => {
                            self.state = State::AttackDouble;
                        },
                        AttackType::Heavy => {
                            self.state = State::AttackOne;
                        },
                        _ => {},
                    },
                    None => {},
                }
            },
            State::Walk => {
                if self.direction == 0 {
                    self.state = State::Idle;
                }
                if !self.on_the_floor {
                    self.state = State::Jump;
                }
                match &self.attack {
                    Some(a) => match a {
                        AttackType::Double => {
                            self.state = State::AttackDouble;
                        },
                        AttackType::Heavy => {
                            self.state = State::AttackOne;
                        },
                        AttackType::AttackDash { .. } => {
                            self.state = State::Dash;
                        },
                        _ => {},
                    },
                    None => {},
                }
            },
            State::Jump => {
                if self.on_the_floor {
                    self.state = State::Idle;
                }
                match &self.attack {
                    Some(a) => match a {
                        AttackType::Double => {
                            self.state = State::AttackDouble;
                        },
                        AttackType::AttackAirDash { .. } => {
                            self.state = State::AirDash;
                        },
                        _ => {},
                    },
                    None => {},
                }
            },
            State::AttackDouble => {
                if self.sprite.current_frame == 3 {
                    sounds.push(SoundList::Sword1);
                }
                if self.sprite.current_frame == 11 {
                    sounds.push(SoundList::Sword2);
                }
                self.velocity = Vec2 { x: 0, y: self.velocity.y };
                if self.sprite.is_animation_ended() {
                    self.state = State::Idle;
                    self.attack = None;
                }
            },
            State::AttackOne | State::RepeatAttack => {
                if self.sprite.current_frame == 0 {
                    sounds.push(SoundList::Heavy);
                }
                match &self.attack {
                    Some(AttackType::RepeatHeavy) => {
                        self.state = State::RepeatAttack;
                    },
                    _ => {},
                }
                self.velocity = Vec2 { x: 0, y: self.velocity.y };
                if self.sprite.is_animation_ended() {
                    self.state = State::Idle;
                    self.attack = None;
                }
            },
            State::Dash => {
                if let Some(AttackType::AttackDash { timer, dir }) = self.attack {
                    let t = timer - 1;
                    if t > 0 {
                        self.attack = Some(AttackType::AttackDash { timer: t, dir });
                    } else {
                        self.attack = None;
                        self.state = State::Idle;
                    }
                }
            },
            State::AirDash => {
                if self.on_the_floor {
                    self.state = State::Idle;
                    self.attack = None;
                }
                if let Some(AttackType::AttackAirDash { timer, dir }) = self.attack {
                    let t = timer - 1;
                    if t > 0 {
                        self.attack = Some(AttackType::AttackAirDash { timer: t, dir });
                    } else {
                        self.attack = None;
                        self.state = State::Walk;
                    }
                }
            },
            State::Hit => {
                if self.sprite.current_frame == 0 {
                    match pick {
                        0 => sounds.push(SoundList::Huh1),
                        1 => sounds.push(SoundList::Huh2),
                        2 => sounds.push(SoundList::Huh3),
                        _ => {},
                    }
                    sounds.push(SoundList::Huh1);
                }
                if self.sprite.is_animation_ended() {
                    self.state = State::Idle;
                    self.hited = false;
                    self.hitable = true;
                }
            },
            State::Dying => {
                if self.sprite.current_frame == 0 {
                    sounds.push(SoundList::Death);
                }
                if self.sprite.is_animation_ended() {
                    self.state = State::Dead;
                }
                self.hitable = false;
            },
            State::Dead => {
                self.hitable = false;
            },
        }
        proof {
            assert(*self == Self::transition_spec(s2));
            assert(sounds@ =~= Self::state_sounds_spec(*old(self), pick as int));
        }
        let ghost s3 = *self;
        if self.direction == 1 {
            self.sprite.flip_x = false;
        } else if self.direction == -1 {
            self.sprite.flip_x = true;
        }
        proof {
            assert(*self == Self::facing_spec(s3));
        }
        let ghost s4 = *self;
        if previous_state != self.state {
            self.sprite.set_animation(&hero_animation(self.state));
            self.sprite.play();
        }
        proof {
            assert(*self == Self::reclip_spec(old(self).state, s4));
            assert(*self == Self::state_step_spec(*old(self)));
        }
        sounds
    }

    /// The per-tick state machine: draws the hit-grunt pick fresh and
    /// steps the machine; every effect on the actor is exact whatever
    /// was drawn.
    pub fn state_manager(&mut self) -> (sounds: Vec<SoundList>)
        requires
            old(self).wf(),
        ensures
            *final(self) == Self::state_step_spec(*old(self)),
            exists|pick: int|
                0 <= pick < 3 && sounds@ == Self::state_sounds_spec(*old(self), pick),
            final(self).wf(),
    {
        let pick = crate::rng::gen_range_i32(0, 3);
        let sounds = self.state_step(pick);
        proof {
            assert(0 <= (pick as int) && (pick as int) < 3);
            assert(sounds@ == Self::state_sounds_spec(*old(self), pick as int));
        }
        sounds
    }

    /// The combat test against one hostile actor. With an attack
    /// descriptor active, only the attack channel can fire: if the
    /// current frame exposes a hitbox and it overlaps a hit-eligible
    /// monster's body, that monster takes the attack's damage; the
    /// player is never struck on this channel. With no descriptor, only
    /// the body channel can fire: overlap of the two collision boxes
    /// (outside the hit state) marks the player struck and knocks it
    /// away from the monster.
    pub open spec fn resolve_one_spec(h: Hero, m: Monster) -> (Hero, Monster) {
        match h.attack {
            Some(a) => {
                match Self::world_hit_box_spec(h, a) {
                    Some(hbox) => {
                        if m.hitable && rects_overlap(
                            world_box_spec(m.position, m.collision_box, 0, 0),
                            hbox,
                        ) {
                            (h, Monster::hit_spec(m, hit_point_spec(a)))
                        } else {
                            (h, m)
                        }
                    },
                    None => (h, m),
                }
            },
            None => {
                if m.hitable && h.state != State::Hit && rects_overlap(
                    world_box_spec(h.position, h.collision_box, 0, 0),
                    world_box_spec(m.position, m.collision_box, 0, 0),
                ) {
                    (
                        Hero {
                            hited: true,
                            velocity: knockback_spec(
                                m.position.x - h.position.x,
                                m.position.y - h.position.y,
                                h.velocity,
                            ),
                            ..h
                        },
                        m,
                    )
                } else {
                    (h, m)
                }
            },
        }
    }

    /// The combat resolver folded over the first `n` monsters in order.
    pub open spec fn resolve_combat_spec(h: Hero, ms: Seq<Monster>, n: int) -> (Hero, Seq<
        Monster,
    >)
        decreases n,
    {
        if n <= 0 {
            (h, ms)
        } else {
            let prev = Self::resolve_combat_spec(h, ms, n - 1);
            let step = Self::resolve_one_spec(prev.0, prev.1[n - 1]);
            (step.0, prev.1.update(n - 1, step.1))
        }
    }

    /// Runs the combat resolver against every monster, in order: the
    /// attack channel damages each hit-eligible monster the active
    /// hitbox overlaps, or (with no attack descriptor) the body channel
    /// marks the player struck and knocked away from each overlapping
    /// hit-eligible monster.
    pub fn resolve_combat(&mut self, monsters: &mut Vec<Monster>)
        requires
            old(self).wf(),
            forall|j: int| 0 <= j < old(monsters)@.len() ==> (#[trigger] old(monsters)@[j]).wf(),
        ensures
            ({
                let r = Self::resolve_combat_spec(
                    *old(self),
                    old(monsters)@,
                    old(monsters)@.len() as int,
                );
                *final(self) == r.0 && final(monsters)@ == r.1
            }),
            final(self).wf(),
            final(monsters)@.len() == old(monsters)@.len(),
            forall|j: int|
                0 <= j < final(monsters)@.len() ==> (#[trigger] final(monsters)@[j]).wf(),
    {
        let ghost h0 = *old(self);
        let ghost ms0 = old(monsters)@;
        let mut i: usize = 0;
        while i < monsters.len()
            invariant
                i <= monsters@.len(),
                monsters@.len() == ms0.len(),
                forall|j: int| 0 <= j < ms0.len() ==> (#[trigger] ms0[j]).wf(),
                ({
                    let r = Self::resolve_combat_spec(h0, ms0, i as int);
                    *self == r.0 && monsters@ == r.1
                }),
                self.wf(),
                forall|j: int| 0 <= j < monsters@.len() ==> (#[trigger] monsters@[j]).wf(),
            decreases monsters@.len() - i,
        {
            let ghost h_pre = *self;
            let ghost ms_pre = monsters@;
            let att = self.attack;
            match att {
                Some(attack) => {
                    match self.get_hit_box(&attack) {
                        Some(hbox) => {
                            let eligible = monsters[i].is_hitable();
                            let mbox = monsters[i].get_collision_box(0, 0);
                            if eligible && mbox.overlaps(&hbox) {
                                let damage = get_hit_point(&attack);
                                let mut m = monsters[i];
                                m.hit(damage);
                                monsters[i] = m;
                            }
                        },
                        None => {},
                    }
                },
                None => {
                    let eligible = monsters[i].is_hitable();
                    let not_in_hit = !matches!(self.state, State::Hit);
                    if eligible && not_in_hit {
                        let hbox = self.get_collision_box(0, 0);
                        let mbox = monsters[i].get_collision_box(0, 0);
                        if hbox.overlaps(&mbox) {
                            self.hited = true;
                            let dx = monsters[i].position.x - self.position.x;
                            let dy = monsters[i].position.y - self.position.y;
                            self.velocity = knockback(dx, dy, self.velocity);
                        }
                    }
                },
            }
            proof {
                let step = Self::resolve_one_spec(h_pre, ms_pre[i as int]);
                assert(*self == step.0);
                assert(monsters@ =~= ms_pre.update(i as int, step.1));
            }
            i = i + 1;
        }
    }

    /// Hit pre-emption, attack side: while an attack descriptor is
    /// active the body channel never fires, whatever overlaps occur —
    /// the resolver leaves the player itself (its struck flag, velocity
    /// and all) completely unchanged.
    pub proof fn lemma_attack_preempts_body(h: Hero, ms: Seq<Monster>, n: int)
        requires
            h.attack is Some,
        ensures
            Self::resolve_combat_spec(h, ms, n).0 == h,
        decreases n,
    {
        if n > 0 {
            Self::lemma_attack_preempts_body(h, ms, n - 1);
        }
    }

    /// Hit pre-emption, body side: with no attack descriptor active the
    /// attack channel never fires — the resolver leaves every monster
    /// (its health, struck flag and eligibility) unchanged, though the
    /// player itself may be struck and knocked back.
    pub proof fn lemma_body_leaves_monsters(h: Hero, ms: Seq<Monster>, n: int)
        requires
            h.attack is None,
            0 <= n <= ms.len(),
        ensures
            Self::resolve_combat_spec(h, ms, n).1 == ms,
            Self::resolve_combat_spec(h, ms, n).0.attack is None,
        decreases n,
    {
        if n > 0 {
            Self::lemma_body_leaves_monsters(h, ms, n - 1);
            assert(Self::resolve_combat_spec(h, ms, n).1 =~= ms);
        }
    }

    /// The resolver never touches monsters it has not reached: the fold
    /// over the first `n` keeps the length and every later entry.
    pub proof fn lemma_resolve_untouched(h: Hero, ms: Seq<Monster>, n: int)
        requires
            0 <= n <= ms.len(),
        ensures
            Self::resolve_combat_spec(h, ms, n).1.len() == ms.len(),
            forall|j: int|
                n <= j < ms.len() ==> Self::resolve_combat_spec(h, ms, n).1[j] == ms[j],
        decreases n,
    {
        if n > 0 {
            Self::lemma_resolve_untouched(h, ms, n - 1);
        }
    }

    /// The attack channel acts on each monster independently: monster
    /// `i` ends up struck for the attack's damage exactly when it was
    /// hit-eligible and the active hitbox overlapped its body, and is
    /// untouched otherwise.
    pub proof fn lemma_attack_hits_overlapped(h: Hero, ms: Seq<Monster>, n: int, i: int)
        requires
            h.attack is Some,
            0 <= i < n <= ms.len(),
        ensures
            ({
                let a = h.attack->0;
                let r = Self::resolve_combat_spec(h, ms, n);
                match Self::world_hit_box_spec(h, a) {
                    Some(hbox) => r.1[i] == (if ms[i].hitable && rects_overlap(
                        world_box_spec(ms[i].position, ms[i].collision_box, 0, 0),
                        hbox,
                    ) {
                        Monster::hit_spec(ms[i], hit_point_spec(a))
                    } else {
                        ms[i]
                    }),
                    None => r.1[i] == ms[i],
                }
            }),
        decreases n,
    {
        Self::lemma_attack_preempts_body(h, ms, n - 1);
        Self::lemma_resolve_untouched(h, ms, n - 1);
        if i < n - 1 {
            Self::lemma_attack_hits_overlapped(h, ms, n - 1, i);
        }
    }

    /// The resolver can strike and knock back the player, nothing
    /// else: every field but the struck flag and the velocity comes
    /// out unchanged.
    pub proof fn lemma_resolve_hero_frame(h: Hero, ms: Seq<Monster>, n: int)
        ensures
            ({
                let r0 = Self::resolve_combat_spec(h, ms, n).0;
                r0.health == h.health && r0.state == h.state && r0.attack == h.attack
                    && r0.position == h.position && r0.sprite == h.sprite && r0.collision_box
                    == h.collision_box && r0.on_the_floor == h.on_the_floor && r0.hitable
                    == h.hitable && r0.direction == h.direction
            }),
        decreases n,
    {
        if n > 0 {
            Self::lemma_resolve_hero_frame(h, ms, n - 1);
        }
    }

    /// Gravity, the state-driven velocity rules, jump, attack
    /// initiation and the shared health pool's decay — everything of
    /// the tick between the state machine and collision resolution.
    pub open spec fn control_spec(h: Hero, input: InputSnapshot) -> Hero {
        let p1 = Hero {
            velocity: Vec2 {
                x: h.velocity.x,
                y: (if h.velocity.y + GRAVITY > VEL_LIMIT {
                    VEL_LIMIT as int
                } else {
                    h.velocity.y + GRAVITY
                }) as i32,
            },
            ..h
        };
        let p4 = if p1.state != State::Hit {
            let p2 = match p1.attack {
                Some(AttackType::AttackDash { timer, dir }) => Hero {
                    direction: dir,
                    velocity: Vec2 { x: (dir * DASH_SPEED) as i32, y: p1.velocity.y },
                    ..p1
                },
                Some(AttackType::AttackAirDash { timer, dir }) => Hero {
                    direction: dir,
                    velocity: Vec2 { x: (dir * AIR_DASH_SPEED) as i32, y: p1.velocity.y },
                    ..p1
                },
                Some(AttackType::Heavy) => Hero {
                    direction: 0,
                    velocity: Vec2 { x: 0, y: p1.velocity.y },
                    ..p1
                },
                _ => {
                    if input.x_axis != 0 {
                        Hero {
                            direction: input.x_axis,
                            velocity: Vec2 {
                                x: (input.x_axis * WALK_SPEED) as i32,
                                y: p1.velocity.y,
                            },
                            ..p1
                        }
                    } else {
                        Hero {
                            direction: input.x_axis,
                            velocity: Vec2 {
                                x: scale_frac_spec(p1.velocity.x as int, 4, 5) as i32,
                                y: p1.velocity.y,
                            },
                            ..p1
                        }
                    }
                },
            };
            let p3 = if p2.on_the_floor && input.jump {
                Hero {
                    velocity: Vec2 { x: p2.velocity.x, y: (-(JUMP_SPEED as int)) as i32 },
                    on_the_floor: false,
                    ..p2
                }
            } else {
                p2
            };
            match p3.attack {
                None => {
                    let a1 = if input.attack {
                        if p3.direction != 0 && p3.on_the_floor {
                            Some(AttackType::AttackDash { timer: DASH_TICKS, dir: p3.direction })
                        } else if p3.direction != 0 && !p3.on_the_floor {
                            Some(
                                AttackType::AttackAirDash {
                                    timer: DASH_TICKS,
                                    dir: p3.direction,
                                },
                            )
                        } else {
                            Some(AttackType::Double)
                        }
                    } else {
                        None
                    };
                    let a2 = if input.heavy {
                        Some(AttackType::Heavy)
                    } else {
                        a1
                    };
                    Hero { attack: a2, ..p3 }
                },
                Some(AttackType::Heavy) => {
                    if p3.sprite.current_frame > HEAVY_CHAIN_FRAME && input.heavy {
                        Hero { attack: Some(AttackType::RepeatHeavy), ..p3 }
                    } else {
                        p3
                    }
                },
                _ => p3,
            }
        } else {
            Hero {
                velocity: Vec2 {
                    x: scale_frac_spec(p1.velocity.x as int, 7, 10) as i32,
                    y: scale_frac_spec(p1.velocity.y as int, 7, 10) as i32,
                },
                ..p1
            }
        };
        let decay: int = if p4.attack is Some {
            2
        } else {
            1
        };
        Hero {
            health: (if p4.health - decay < 0 {
                0
            } else {
                p4.health - decay
            }) as i32,
            ..p4
        }
    }

    /// One collider's contribution to collision resolution, axis by
    /// axis: vertical velocity is zeroed (and the actor grounded) when
    /// the vertically displaced box overlaps the collider, and
    /// horizontal velocity is zeroed when the horizontally displaced
    /// box does — each test on its own axis only.
    pub open spec fn scene_step_spec(
        pos: Vec2,
        cbox: Rect,
        vx: i32,
        vy: i32,
        floor: bool,
        c: Rect,
    ) -> (i32, i32, bool) {
        let vhit = rects_overlap(world_box_spec(pos, cbox, 0, vy as int), c);
        let vy2 = if vhit {
            0i32
        } else {
            vy
        };
        let fl2 = if vhit {
            true
        } else {
            floor
        };
        let hhit = rects_overlap(world_box_spec(pos, cbox, vx as int, 0), c);
        let vx2 = if hhit {
            0i32
        } else {
            vx
        };
        (vx2, vy2, fl2)
    }

    /// Collision resolution folded over the first `n` level colliders
    /// in order.
    pub open spec fn scene_fold_spec(
        pos: Vec2,
        cbox: Rect,
        vx: i32,
        vy: i32,
        floor: bool,
        cs: Seq<Rect>,
        n: int,
    ) -> (i32, i32, bool)
        decreases n,
    {
        if n <= 0 {
            (vx, vy, floor)
        } else {
            let prev = Self::scene_fold_spec(pos, cbox, vx, vy, floor, cs, n - 1);
            Self::scene_step_spec(pos, cbox, prev.0, prev.1, prev.2, cs[n - 1])
        }
    }

    /// Axis separation, part one: the horizontal outcome of collision
    /// resolution never depends on the vertical state it started from
    /// — whatever vertical velocity or grounding another collider
    /// produced that tick, the horizontal velocity comes out the same.
    pub proof fn lemma_scene_vx_independent(
        pos: Vec2,
        cbox: Rect,
        vx: i32,
        vy1: i32,
        f1: bool,
        vy2: i32,
        f2: bool,
        cs: Seq<Rect>,
        n: int,
    )
        ensures
            Self::scene_fold_spec(pos, cbox, vx, vy1, f1, cs, n).0 == Self::scene_fold_spec(
                pos,
                cbox,
                vx,
                vy2,
                f2,
                cs,
                n,
            ).0,
        decreases n,
    {
        if n > 0 {
            Self::lemma_scene_vx_independent(pos, cbox, vx, vy1, f1, vy2, f2, cs, n - 1);
        }
    }

    /// The horizontal velocity only ever keeps its value or drops to
    /// zero under collision resolution.
    pub proof fn lemma_scene_vx_values(
        pos: Vec2,
        cbox: Rect,
        vx: i32,
        vy: i32,
        floor: bool,
        cs: Seq<Rect>,
        n: int,
    )
        ensures
            ({
                let f = Self::scene_fold_spec(pos, cbox, vx, vy, floor, cs, n);
                f.0 == vx || f.0 == 0
            }),
        decreases n,
    {
        if n > 0 {
            Self::lemma_scene_vx_values(pos, cbox, vx, vy, floor, cs, n - 1);
        }
    }

    /// Axis separation, part two: if the horizontally displaced box
    /// overlaps any collider of the scan, the horizontal velocity is
    /// zeroed, independently of every vertical outcome that tick.
    pub proof fn lemma_scene_horizontal_zeroed(
        pos: Vec2,
        cbox: Rect,
        vx: i32,
        vy: i32,
        floor: bool,
        cs: Seq<Rect>,
        n: int,
        i: int,
    )
        requires
            0 <= i < n <= cs.len(),
            rects_overlap(world_box_spec(pos, cbox, vx as int, 0), cs[i]),
        ensures
            Self::scene_fold_spec(pos, cbox, vx, vy, floor, cs, n).0 == 0,
        decreases n,
    {
        if i < n - 1 {
            Self::lemma_scene_horizontal_zeroed(pos, cbox, vx, vy, floor, cs, n - 1, i);
        } else {
            Self::lemma_scene_vx_values(pos, cbox, vx, vy, floor, cs, n - 1);
        }
    }

    /// The vertical outcome only ever keeps its values or locks to
    /// "fall zeroed, grounded" — and the grounding never comes
    /// undone.
    pub proof fn lemma_scene_vy_values(
        pos: Vec2,
        cbox: Rect,
        vx: i32,
        vy: i32,
        floor: bool,
        cs: Seq<Rect>,
        n: int,
    )
        ensures
            ({
                let f = Self::scene_fold_spec(pos, cbox, vx, vy, floor, cs, n);
                (f.1 == vy && f.2 == floor) || (f.1 == 0 && f.2)
            }),
        decreases n,
    {
        if n > 0 {
            Self::lemma_scene_vy_values(pos, cbox, vx, vy, floor, cs, n - 1);
        }
    }

    /// Axis separation for the vertical axis: the fall and grounding
    /// outcome of collision resolution never depends on the horizontal
    /// velocity it started from.
    pub proof fn lemma_scene_vy_independent(
        pos: Vec2,
        cbox: Rect,
        vx1: i32,
        vx2: i32,
        vy: i32,
        floor: bool,
        cs: Seq<Rect>,
        n: int,
    )
        ensures
            Self::scene_fold_spec(pos, cbox, vx1, vy, floor, cs, n).1 == Self::scene_fold_spec(
                pos,
                cbox,
                vx2,
                vy,
                floor,
                cs,
                n,
            ).1,
            Self::scene_fold_spec(pos, cbox, vx1, vy, floor, cs, n).2 == Self::scene_fold_spec(
                pos,
                cbox,
                vx2,
                vy,
                floor,
                cs,
                n,
            ).2,
        decreases n,
    {
        if n > 0 {
            Self::lemma_scene_vy_independent(pos, cbox, vx1, vx2, vy, floor, cs, n - 1);
        }
    }

    /// If the vertically displaced box overlaps any collider of the
    /// scan, the fall is zeroed and the actor grounded, independently
    /// of every horizontal outcome that tick.
    pub proof fn lemma_scene_vertical_zeroed(
        pos: Vec2,
        cbox: Rect,
        vx: i32,
        vy: i32,
        floor: bool,
        cs: Seq<Rect>,
        n: int,
        i: int,
    )
        requires
            0 <= i < n <= cs.len(),
            rects_overlap(world_box_spec(pos, cbox, 0, vy as int), cs[i]),
        ensures
            Self::scene_fold_spec(pos, cbox, vx, vy, floor, cs, n).1 == 0,
            Self::scene_fold_spec(pos, cbox, vx, vy, floor, cs, n).2,
        decreases n,
    {
        if i < n - 1 {
            Self::lemma_scene_vertical_zeroed(pos, cbox, vx, vy, floor, cs, n - 1, i);
        } else {
            Self::lemma_scene_vy_values(pos, cbox, vx, vy, floor, cs, n - 1);
        }
    }

    /// Control, then collision resolution against the level, then the
    /// position integration and the sprite following it.
    pub open spec fn physics_spec(h: Hero, input: InputSnapshot, cs: Seq<Rect>) -> Hero {
        let p = Self::control_spec(h, input);
        let f = Self::scene_fold_spec(
            p.position,
            p.collision_box,
            p.velocity.x,
            p.velocity.y,
            p.on_the_floor,
            cs,
            cs.len() as int,
        );
        let p6 = Hero { velocity: Vec2 { x: f.0, y: f.1 }, on_the_floor: f.2, ..p };
        let pos = Vec2 {
            x: clamp_spec(p6.position.x + f.0, -POS_LIMIT as int, POS_LIMIT as int) as i32,
            y: clamp_spec(p6.position.y + f.1, -POS_LIMIT as int, POS_LIMIT as int) as i32,
        };
        let p7 = Hero { position: pos, ..p6 };
        Hero { sprite: AnimatedSprite::set_position_spec(p7.sprite, pos), ..p7 }
    }

    /// The whole player tick: the struck flag cleared, the combat
    /// resolver run against every monster on last tick's state, the
    /// state machine stepped, and physics applied.
    pub open spec fn update_spec(h: Hero, ms: Seq<Monster>, cs: Seq<Rect>, input: InputSnapshot)
        -> (Hero, Seq<Monster>) {
        let rc = Self::resolve_combat_spec(
            Hero { hited: false, ..h },
            ms,
            ms.len() as int,
        );
        let h1 = Self::state_step_spec(rc.0);
        (Self::physics_spec(h1, input, cs), rc.1)
    }

    /// The sounds one whole player tick emits on a given hit-grunt
    /// pick: those of the state-machine step taken after the resolver.
    pub open spec fn update_sounds_spec(h: Hero, ms: Seq<Monster>, pick: int) -> Seq<SoundList> {
        Self::state_sounds_spec(
            Self::resolve_combat_spec(Hero { hited: false, ..h }, ms, ms.len() as int).0,
            pick,
        )
    }

    /// Advances the player by one simulation tick against the monsters
    /// and the level colliders, on this tick's input snapshot, and
    /// returns the sound triggers the tick emitted. Every effect on the
    /// player and the monsters is exact; the emitted sounds are exact
    /// up to the freshly drawn hit-grunt pick. Health never rises and
    /// never drops below zero.
    pub fn update(&mut self, monsters: &mut Vec<Monster>, colliders: &Vec<Rect>, input:
        &InputSnapshot) -> (sounds: Vec<SoundList>)
        requires
            old(self).wf(),
            input.wf(),
            forall|j: int| 0 <= j < old(monsters)@.len() ==> (#[trigger] old(monsters)@[j]).wf(),
        ensures
            ({
                let r = Self::update_spec(*old(self), old(monsters)@, colliders@, *input);
                *final(self) == r.0 && final(monsters)@ == r.1
            }),
            exists|pick: int|
                0 <= pick < 3 && sounds@ == #[trigger] Self::update_sounds_spec(
                    *old(self),
                    old(monsters)@,
                    pick,
                ),
            final(self).wf(),
            final(self).health <= old(self).health,
            final(self).health >= 0,
            final(monsters)@.len() == old(monsters)@.len(),
            forall|j: int|
                0 <= j < final(monsters)@.len() ==> (#[trigger] final(monsters)@[j]).wf(),
    {
        self.hited = false;
        proof {
            Self::lemma_resolve_hero_frame(
                Hero { hited: false, ..*old(self) },
                old(monsters)@,
                old(monsters)@.len() as int,
            );
        }
        self.resolve_combat(monsters);
        let ghost h_rc = *self;
        let sounds = self.state_manager();
        proof {
            let pick = choose|p: int|
                0 <= p < 3 && sounds@ == Self::state_sounds_spec(h_rc, p);
            assert(sounds@ == Self::update_sounds_spec(*old(self), old(monsters)@, pick));
            assert(self.health == old(self).health);
        }
        self.apply_physics(colliders, input);
        sounds
    }

    /// Gravity, the state-driven velocity and input rules, and the
    /// health decay of one tick. Health never rises here and never
    /// drops below zero.
    #[verifier::rlimit(100)]
    fn apply_control(&mut self, input: &InputSnapshot)
        requires
            old(self).wf(),
            input.wf(),
        ensures
            *final(self) == Self::control_spec(*old(self), *input),
            final(self).wf(),
            final(self).health <= old(self).health,
            final(self).health >= 0,
    {
        let ghost h1 = *self;

        if self.velocity.y + GRAVITY > VEL_LIMIT {
            self.velocity = Vec2 { x: self.velocity.x, y: VEL_LIMIT };
        } else {
            self.velocity = Vec2 { x: self.velocity.x, y: self.velocity.y + GRAVITY };
        }
        let ghost p1 = *self;
        if self.state != State::Hit {
            match self.attack {
                Some(AttackType::AttackDash { timer, dir }) => {
                    self.direction = dir;
                    self.velocity = Vec2 { x: dir * DASH_SPEED, y: self.velocity.y };
                },
                Some(AttackType::AttackAirDash { timer, dir }) => {
                    self.direction = dir;
                    self.velocity = Vec2 { x: dir * AIR_DASH_SPEED, y: self.velocity.y };
                },
                Some(AttackType::Heavy) => {
                    self.direction = 0;
                    self.velocity = Vec2 { x: 0, y: self.velocity.y };
                },
                _ => {
                    self.direction = input.x_axis;
                    if self.direction != 0 {
                        self.velocity = Vec2 {
                            x: self.direction * WALK_SPEED,
                            y: self.velocity.y,
                        };
                    } else {
                        self.velocity = Vec2 {
                            x: scale_frac(self.velocity.x, 4, 5),
                            y: self.velocity.y,
                        };
                    }
                },
            }
            if self.on_the_floor && input.jump {
                self.velocity = Vec2 { x: self.velocity.x, y: -JUMP_SPEED };
                self.on_the_floor = false;
            }
            match self.attack {
                None => {
                    if input.attack {
                        if self.direction != 0 && self.on_the_floor {
                            self.attack = Some(
                                AttackType::AttackDash { timer: DASH_TICKS, dir: self.direction },
                            );
                        } else if self.direction != 0 && !self.on_the_floor {
                            self.attack = Some(
                                AttackType::AttackAirDash {
                                    timer: DASH_TICKS,
                                    dir: self.direction,
                                },
                            );
                        } else {
                            self.attack = Some(AttackType::Double);
                        }
                    }
                    if input.heavy {
                        self.attack = Some(AttackType::Heavy);
                    }
                },
                Some(AttackType::Heavy) => {
                    if self.sprite.current_frame > HEAVY_CHAIN_FRAME && input.heavy {
                        self.attack = Some(AttackType::RepeatHeavy);
                    }
                },
                _ => {},
            }
        } else {
            self.velocity = Vec2 {
                x: scale_frac(self.velocity.x, 7, 10),
                y: scale_frac(self.velocity.y, 7, 10),
            };
        }
        self.health = self.health - 1;
        match &self.attack {
            Some(_attack) => {
                self.health = self.health - 1;
            },
            None => {},
        }
        if self.health < 0 {
            self.health = 0;
        }
        proof {
            assert(*self == Self::control_spec(h1, *input));
        }
    }

    /// The physics of one tick: control, collision resolution against
    /// the level, and the position integration.
    fn apply_physics(&mut self, colliders: &Vec<Rect>, input: &InputSnapshot)
        requires
            old(self).wf(),
            input.wf(),
        ensures
            *final(self) == Self::physics_spec(*old(self), *input, colliders@),
            final(self).wf(),
            final(self).health <= old(self).health,
            final(self).health >= 0,
    {
        let ghost h1 = *self;
        self.apply_control(input);
        let ghost p = *self;

        let mut ci: usize = 0;
        while ci < colliders.len()
            invariant
                ci <= colliders@.len(),
                p.wf(),
                ({
                    let f = Self::scene_fold_spec(
                        p.position,
                        p.collision_box,
                        p.velocity.x,
                        p.velocity.y,
                        p.on_the_floor,
                        colliders@,
                        ci as int,
                    );
                    *self == Hero {
                        velocity: Vec2 { x: f.0, y: f.1 },
                        on_the_floor: f.2,
                        ..p
                    }
                }),
                self.wf(),
            decreases colliders@.len() - ci,
        {
            let c = colliders[ci];
            if self.get_collision_box(0, self.velocity.y).overlaps(&c) {
                self.velocity = Vec2 { x: self.velocity.x, y: 0 };
                self.on_the_floor = true;
            }
            if self.get_collision_box(self.velocity.x, 0).overlaps(&c) {
                self.velocity = Vec2 { x: 0, y: self.velocity.y };
            }
            ci = ci + 1;
        }
        self.position = Vec2 {
            x: clamp_i32(self.position.x + self.velocity.x, -POS_LIMIT, POS_LIMIT),
            y: clamp_i32(self.position.y + self.velocity.y, -POS_LIMIT, POS_LIMIT),
        };
        self.sprite.set_position_to(self.position);
        proof {
            assert(*self == Self::physics_spec(h1, *input, colliders@));
        }
    }

    /// The player iterated over `n` ticks with no monsters, no level
    /// colliders, and the same input every tick.
    pub open spec fn hero_ticks_spec(h: Hero, input: InputSnapshot, n: int) -> Hero
        decreases n,
    {
        if n <= 0 {
            h
        } else {
            Self::update_spec(
                Self::hero_ticks_spec(h, input, n - 1),
                Seq::empty(),
                Seq::empty(),
                input,
            ).0
        }
    }

    /// One mid-dash tick: with the timer above one, no strike, enough
    /// health and no re-trigger, the dash state stays and the timer
    /// counts down exactly one.
    proof fn lemma_dash_tick(h: Hero, input: InputSnapshot, dir: i32, t: int)
        requires
            h.state == State::Dash,
            h.attack == Some(AttackType::AttackDash { timer: t as i32, dir }),
            2 <= t <= 1_000,
            dir == 1 || dir == -1,
            h.health > 2,
            !input.jump && !input.attack && !input.heavy,
        ensures
            ({
                let h2 = Self::update_spec(h, Seq::empty(), Seq::empty(), input).0;
                h2.state == State::Dash && h2.attack == Some(
                    AttackType::AttackDash { timer: (t - 1) as i32, dir },
                ) && h2.health == h.health - 2 && !h2.hited
            }),
    {
    }

    /// The final dash tick: with the timer at one, the dash ends into
    /// idle with the descriptor cleared.
    proof fn lemma_dash_last_tick(h: Hero, input: InputSnapshot, dir: i32)
        requires
            h.state == State::Dash,
            h.attack == Some(AttackType::AttackDash { timer: 1, dir }),
            dir == 1 || dir == -1,
            h.health > 1,
            !input.jump && !input.attack && !input.heavy,
        ensures
            ({
                let h2 = Self::update_spec(h, Seq::empty(), Seq::empty(), input).0;
                h2.state == State::Idle && h2.attack is None
            }),
    {
    }

    /// Dash timer law: a ground dash started with `n` ticks remaining
    /// and advanced `k` ticks with no re-trigger is still mid-dash
    /// with exactly `n - k` ticks left for every `k < n`, and on tick
    /// `n` exactly — neither earlier nor later — it has ended in idle
    /// with no descriptor. Health above `2n` keeps the dying override
    /// out of the way; the strike flag clear and the absence of
    /// monsters keep the hit override out.
    pub proof fn lemma_dash_countdown(h: Hero, input: InputSnapshot, dir: i32, n: int, k: int)
        requires
            h.state == State::Dash,
            h.attack == Some(AttackType::AttackDash { timer: n as i32, dir }),
            1 <= n <= 1_000,
            0 <= k <= n,
            dir == 1 || dir == -1,
            h.health > 2 * n,
            !input.jump && !input.attack && !input.heavy,
        ensures
            k < n ==> ({
                let hk = Self::hero_ticks_spec(h, input, k);
                hk.state == State::Dash && hk.attack == Some(
                    AttackType::AttackDash { timer: (n - k) as i32, dir },
                ) && hk.health == h.health - 2 * k
            }),
            k == n ==> ({
                let hk = Self::hero_ticks_spec(h, input, k);
                hk.state == State::Idle && hk.attack is None
            }),
        decreases k,
    {
        if k > 0 {
            Self::lemma_dash_countdown(h, input, dir, n, k - 1);
            let hp = Self::hero_ticks_spec(h, input, k - 1);
            if k < n {
                Self::lemma_dash_tick(hp, input, dir, n - (k - 1));
            } else {
                if n - (k - 1) >= 2 {
                    Self::lemma_dash_tick(hp, input, dir, n - (k - 1));
                } else {
                    Self::lemma_dash_last_tick(hp, input, dir);
                }
            }
        }
    }

    /// One whole presentation tick of a lone player: the simulation
    /// update (no monsters, no level colliders) followed by the frame
    /// advance the renderer applies when drawing.
    pub open spec fn presentation_tick_spec(h: Hero, input: InputSnapshot) -> Hero {
        let h1 = Self::update_spec(h, Seq::empty(), Seq::empty(), input).0;
        Hero {
            sprite: if h1.sprite.play {
                AnimatedSprite::animate_spec(h1.sprite)
            } else {
                h1.sprite
            },
            ..h1
        }
    }

    /// `n` presentation ticks, each on its own input snapshot.
    pub open spec fn presentation_ticks_spec(h: Hero, inputs: Seq<InputSnapshot>, n: int) -> Hero
        decreases n,
    {
        if n <= 0 {
            h
        } else {
            Self::presentation_tick_spec(
                Self::presentation_ticks_spec(h, inputs, n - 1),
                inputs[n - 1],
            )
        }
    }

    /// A standing player mid double slash, `a` frame advances into the
    /// 19-frame, speed-2 clip (one advance lands with the entering
    /// tick itself).
    pub open spec fn mid_double_slash(g: Hero, a: int, health: int) -> bool {
        &&& g.state == State::AttackDouble
        &&& g.attack == Some(AttackType::Double)
        &&& g.velocity.x == 0
        &&& g.direction == 0
        &&& g.on_the_floor
        &&& !g.hited
        &&& g.health == health
        &&& g.sprite.frames == 19
        &&& g.sprite.speed == 2
        &&& g.sprite.play
        &&& 2 * g.sprite.current_frame + g.sprite.elapsed == a
        &&& 0 <= g.sprite.elapsed <= 1
        &&& g.sprite.current_frame <= 18
    }

    /// An input with a neutral axis and neither jump nor the heavy
    /// attack pressed; the first attack button is left free, so the
    /// law quantifies over renewed presses.
    pub open spec fn standing_input(input: InputSnapshot) -> bool {
        input.x_axis == 0 && !input.jump && !input.heavy
    }

    /// Arming tick: a standing, idle player with no attack in progress
    /// presses attack-1; the tick ends still idle but with the double
    /// slash armed, and the horizontal velocity pinned at zero.
    proof fn lemma_light_attack_arms(h: Hero, press: InputSnapshot)
        requires
            h.state == State::Idle,
            h.attack is None,
            h.velocity.x == 0,
            h.direction == 0,
            h.on_the_floor,
            !h.hited,
            h.health > 2,
            press.x_axis == 0 && !press.jump && !press.heavy && press.attack,
        ensures
            ({
                let h1 = Self::presentation_tick_spec(h, press);
                h1.state == State::Idle && h1.attack == Some(AttackType::Double) && h1.velocity.x
                    == 0 && h1.direction == 0 && h1.on_the_floor && !h1.hited && h1.health
                    == h.health - 2
            }),
    {
    }

    /// Entering tick: the armed player enters the attack state, the
    /// clip restarts from frame zero (one frame advance follows with
    /// the same tick's draw), and the horizontal velocity stays zero.
    proof fn lemma_light_attack_enters(h: Hero, input: InputSnapshot)
        requires
            h.state == State::Idle,
            h.attack == Some(AttackType::Double),
            h.velocity.x == 0,
            h.direction == 0,
            h.on_the_floor,
            !h.hited,
            h.health > 2,
            Self::standing_input(input),
        ensures
            Self::mid_double_slash(Self::presentation_tick_spec(h, input), 1, h.health - 2),
    {
    }

    /// Holding tick: mid-slash, whatever attack presses recur, the
    /// state, the descriptor and the zero horizontal velocity all
    /// hold, and the clip advances exactly one step.
    proof fn lemma_light_attack_holds(g: Hero, input: InputSnapshot, a: int, health: int)
        requires
            Self::mid_double_slash(g, a, health),
            1 <= a <= 36,
            g.sprite.current_frame < 18,
            health > 2,
            Self::standing_input(input),
        ensures
            Self::mid_double_slash(Self::presentation_tick_spec(g, input), a + 1, health - 2),
    {
    }

    /// Exit tick: the tick on which the clip reports finished leaves
    /// the attack state for idle and destroys the descriptor.
    proof fn lemma_light_attack_exits(g: Hero, input: InputSnapshot, health: int)
        requires
            Self::mid_double_slash(g, 36, health),
            health > 2,
            Self::standing_input(input),
            !input.attack,
        ensures
            ({
                let h1 = Self::presentation_tick_spec(g, input);
                h1.state == State::Idle && h1.attack is None
            }),
    {
        assert(g.sprite.current_frame == 18 && g.sprite.elapsed == 0);
    }

    /// The attack-1 scenario: a standing, grounded, idle player
    /// presses attack-1 once; the next tick enters the double slash,
    /// the following 35 ticks stay in it with the horizontal velocity
    /// pinned at zero — renewed attack-1 presses on any of them change
    /// neither the state nor the descriptor — and the tick after the
    /// clip's last frame (not pressed anew) exits to idle with the
    /// descriptor destroyed: `Idle` to `AttackDouble` to `Idle`,
    /// entered and left exactly once.
    pub proof fn lemma_light_attack_scenario(h: Hero, inputs: Seq<InputSnapshot>, m: int)
        requires
            h.state == State::Idle,
            h.attack is None,
            h.velocity.x == 0,
            h.direction == 0,
            h.on_the_floor,
            !h.hited,
            h.health > 100,
            inputs.len() >= 38,
            inputs[0].attack,
            !inputs[37].attack,
            forall|i: int| 0 <= i < 38 ==> Self::standing_input(#[trigger] inputs[i]),
            1 <= m <= 38,
        ensures
            m == 1 ==> ({
                let g = Self::presentation_ticks_spec(h, inputs, 1);
                g.state == State::Idle && g.attack == Some(AttackType::Double)
            }),
            2 <= m <= 37 ==> Self::mid_double_slash(
                Self::presentation_ticks_spec(h, inputs, m),
                m - 1,
                h.health - 2 * m,
            ),
            m == 38 ==> ({
                let g = Self::presentation_ticks_spec(h, inputs, 38);
                g.state == State::Idle && g.attack is None
            }),
        decreases m,
    {
        if m == 1 {
            Self::lemma_light_attack_arms(h, inputs[0]);
        } else {
            Self::lemma_light_attack_scenario(h, inputs, m - 1);
            let g = Self::presentation_ticks_spec(h, inputs, m - 1);
            if m == 2 {
                Self::lemma_light_attack_arms(h, inputs[0]);
                assert(Self::presentation_ticks_spec(h, inputs, 0) == h);
                assert(g == Self::presentation_tick_spec(h, inputs[0]));
                Self::lemma_light_attack_enters(g, inputs[1]);
            } else if m <= 37 {
                assert(2 * g.sprite.current_frame + g.sprite.elapsed == m - 2);
                assert(g.sprite.current_frame < 18);
                Self::lemma_light_attack_holds(g, inputs[m - 1], m - 2, h.health - 2 * (m - 1));
            } else {
                Self::lemma_light_attack_exits(g, inputs[37], h.health - 2 * 37);
            }
        }
    }

    /// The player as it enters collision resolution within one tick:
    /// the resolver, the state machine and the control rules applied,
    /// with the velocity the collider scan will test.
    pub open spec fn pre_collision_spec(h: Hero, ms: Seq<Monster>, input: InputSnapshot) -> Hero {
        Self::control_spec(
            Self::state_step_spec(
                Self::resolve_combat_spec(Hero { hited: false, ..h }, ms, ms.len() as int).0,
            ),
            input,
        )
    }

    /// Axis-separated collision over the whole tick, vertical side:
    /// when the tick's vertically displaced collision box overlaps
    /// some collider, the update comes out with the fall zeroed and
    /// the player grounded — whatever any collider does to the
    /// horizontal axis that same tick.
    pub proof fn lemma_update_vertical_zeroed(
        h: Hero,
        ms: Seq<Monster>,
        cs: Seq<Rect>,
        input: InputSnapshot,
        i: int,
    )
        requires
            0 <= i < cs.len(),
            ({
                let p = Self::pre_collision_spec(h, ms, input);
                rects_overlap(
                    world_box_spec(p.position, p.collision_box, 0, p.velocity.y as int),
                    cs[i],
                )
            }),
        ensures
            Self::update_spec(h, ms, cs, input).0.velocity.y == 0,
            Self::update_spec(h, ms, cs, input).0.on_the_floor,
    {
        let p = Self::pre_collision_spec(h, ms, input);
        Self::lemma_scene_vertical_zeroed(
            p.position,
            p.collision_box,
            p.velocity.x,
            p.velocity.y,
            p.on_the_floor,
            cs,
            cs.len() as int,
            i,
        );
    }

    /// Axis-separated collision over the whole tick, horizontal side:
    /// when the tick's horizontally displaced collision box overlaps
    /// some collider, the update comes out with the advance zeroed —
    /// whatever any collider does to the vertical axis that same tick.
    pub proof fn lemma_update_horizontal_zeroed(
        h: Hero,
        ms: Seq<Monster>,
        cs: Seq<Rect>,
        input: InputSnapshot,
        j: int,
    )
        requires
            0 <= j < cs.len(),
            ({
                let p = Self::pre_collision_spec(h, ms, input);
                rects_overlap(
                    world_box_spec(p.position, p.collision_box, p.velocity.x as int, 0),
                    cs[j],
                )
            }),
        ensures
            Self::update_spec(h, ms, cs, input).0.velocity.x == 0,
    {
        let p = Self::pre_collision_spec(h, ms, input);
        Self::lemma_scene_horizontal_zeroed(
            p.position,
            p.collision_box,
            p.velocity.x,
            p.velocity.y,
            p.on_the_floor,
            cs,
            cs.len() as int,
            j,
        );
    }

    /// Collision resolution is axis-separated: an actor driven
    /// diagonally into level geometry has each axis tested and zeroed
    /// on its own — a vertical overlap with one collider and a
    /// horizontal overlap with another (or the same) both take effect
    /// in the same tick, neither requiring nor preventing the other.
    pub proof fn lemma_update_axis_separated(
        h: Hero,
        ms: Seq<Monster>,
        cs: Seq<Rect>,
        input: InputSnapshot,
        i: int,
        j: int,
    )
        requires
            0 <= i < cs.len(),
            0 <= j < cs.len(),
            ({
                let p = Self::pre_collision_spec(h, ms, input);
                rects_overlap(
                    world_box_spec(p.position, p.collision_box, 0, p.velocity.y as int),
                    cs[i],
                ) && rects_overlap(
                    world_box_spec(p.position, p.collision_box, p.velocity.x as int, 0),
                    cs[j],
                )
            }),
        ensures
            Self::update_spec(h, ms, cs, input).0.velocity == (Vec2 { x: 0, y: 0 }),
            Self::update_spec(h, ms, cs, input).0.on_the_floor,
    {
        Self::lemma_update_vertical_zeroed(h, ms, cs, input, i);
        Self::lemma_update_horizontal_zeroed(h, ms, cs, input, j);
    }
}

} // verus!
