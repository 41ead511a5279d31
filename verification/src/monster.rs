//! The hostile actor: a ghost with a birth/idle/hit/dead life cycle, an
//! idle-wander bob behaviour, and a one-way active flag that marks it
//! for removal once its death animation has finished.

use vstd::prelude::*;
use crate::geom::Rect;
use crate::geom::Vec2;
use crate::geom::abs_spec;
use crate::geom::clamp_i32;
use crate::geom::clamp_spec;
use crate::geom::world_box_spec;
use crate::sprite::AnimatedSprite;
use crate::sprite::AnimationData;
use crate::POS_LIMIT;
use crate::VEL_LIMIT;

verus! {

#[derive(Copy, Clone, Debug, PartialEq, Eq, Hash, Structural)]
pub enum MonsterState {
    Idle,
    Birth,
    Dead,
    Hit,
}

/// Idle-wander behaviour: either standing by, or bobbing vertically
/// around the anchor `yo` with phase `dt` advanced by `speed` each tick
/// (both in centiradians; see `crate::wave`).
#[derive(Copy, Clone, Debug, PartialEq, Eq, Structural)]
pub enum Behaviour {
    UpDown { yo: i32, speed: i32, dt: i32 },
    StandBy,
}

/// A hostile actor.
#[derive(Copy, Clone, Debug, PartialEq, Eq, Structural)]
pub struct Monster {
    pub position: Vec2,
    pub velocity: Vec2,
    pub sprite: AnimatedSprite,
    pub direction: i32,
    pub collision_box: Rect,
    pub state: MonsterState,
    pub behaviour: Behaviour,
    pub health: i32,
    pub hitable: bool,
    pub active: bool,
    pub hited: bool,
}

/// The animation clip bound to each ghost state; every state has one.
pub open spec fn monster_animation_spec(state: MonsterState) -> AnimationData {
    match state {
        MonsterState::Idle => AnimationData {
            x: 0,
            y: 0,
            h: 64,
            w: 64,
            frames: 5,
            speed: 8,
            pivot_x: 0,
            pivot_y: 0,
        },
        MonsterState::Hit => AnimationData {
            x: 0,
            y: 64,
            h: 64,
            w: 64,
            frames: 10,
            speed: 4,
            pivot_x: 0,
            pivot_y: 0,
        },
        MonsterState::Dead => AnimationData {
            x: 0,
            y: 128,
            h: 64,
            w: 64,
            frames: 10,
            speed: 8,
            pivot_x: 0,
            pivot_y: 0,
        },
        MonsterState::Birth => AnimationData {
            x: 0,
            y: 192,
            h: 64,
            w: 64,
            frames: 13,
            speed: 8,
            pivot_x: 0,
            pivot_y: 0,
        },
    }
}

pub fn monster_animation(state: MonsterState) -> (r: AnimationData)
    ensures
        r == monster_animation_spec(state),
        r.wf(),
{
    match state {
        MonsterState::Idle => AnimationData {
            x: 0,
            y: 0,
            h: 64,
            w: 64,
            frames: 5,
            speed: 8,
            pivot_x: 0,
            pivot_y: 0,
        },
        MonsterState::Hit => AnimationData {
            x: 0,
            y: 64,
            h: 64,
            w: 64,
            frames: 10,
            speed: 4,
            pivot_x: 0,
            pivot_y: 0,
        },
        MonsterState::Dead => AnimationData {
            x: 0,
            y: 128,
            h: 64,
            w: 64,
            frames: 10,
            speed: 8,
            pivot_x: 0,
            pivot_y: 0,
        },
        MonsterState::Birth => AnimationData {
            x: 0,
            y: 192,
            h: 64,
            w: 64,
            frames: 13,
            speed: 8,
            pivot_x: 0,
            pivot_y: 0,
        },
    }
}

impl Monster {
    /// State every ghost operation preserves: bounded position and
    /// velocity, a small local collision box, a running sprite, a unit
    /// (or neutral) facing, and a well-formed behaviour value.
    pub open spec fn wf(self) -> bool {
        &&& abs_spec(self.position.x as int) <= POS_LIMIT
        &&& abs_spec(self.position.y as int) <= POS_LIMIT
        &&& abs_spec(self.velocity.x as int) <= VEL_LIMIT
        &&& abs_spec(self.velocity.y as int) <= VEL_LIMIT
        &&& 0 <= self.collision_box.x <= 1_024
        &&& 0 <= self.collision_box.y <= 1_024
        &&& 1 <= self.collision_box.w <= 1_024
        &&& 1 <= self.collision_box.h <= 1_024
        &&& self.sprite.wf()
        &&& -1 <= self.direction <= 1
        &&& (self.behaviour matches Behaviour::UpDown { yo, speed, dt } ==> abs_spec(yo as int)
            <= POS_LIMIT && speed == 1 && 0 <= dt < crate::wave::WAVE_PERIOD)
    }

    pub open spec fn new_spec(x: i32, y: i32) -> Monster {
        let position = Vec2 { x, y };
        let sprite = AnimatedSprite::set_position_spec(
            AnimatedSprite::new_spec(monster_animation_spec(MonsterState::Birth)),
            position,
        );
        Monster {
            position,
            velocity: Vec2 { x: 0, y: 0 },
            state: MonsterState::Birth,
            sprite,
            collision_box: Rect { x: 400, y: 304, w: 240, h: 352 },
            direction: 0,
            behaviour: Behaviour::StandBy,
            health: 3,
            hitable: false,
            hited: false,
            active: true,
        }
    }

    /// A ghost freshly spawned at `(x, y)`: being born, not yet
    /// hit-eligible, with 3 health, and active.
    pub fn new(x: i32, y: i32) -> (r: Self)
        requires
            abs_spec(x as int) <= POS_LIMIT,
            abs_spec(y as int) <= POS_LIMIT,
        ensures
            r == Self::new_spec(x, y),
            r.wf(),
    {
        let position = Vec2 { x, y };
        let mut sprite = AnimatedSprite::new(&monster_animation(MonsterState::Birth));
        sprite.set_position_to(position);
        Monster {
            position,
            velocity: Vec2 { x: 0, y: 0 },
            state: MonsterState::Birth,
            sprite,
            collision_box: Rect { x: 400, y: 304, w: 240, h: 352 },
            direction: 0,
            behaviour: Behaviour::StandBy,
            health: 3,
            hitable: false,
            hited: false,
            active: true,
        }
    }

    /// The wander behaviour, evaluated only while idle: with a roll
    /// below 2 (out of 100) a standing ghost anchors a vertical bob at
    /// its current height; a bobbing ghost follows the wave around its
    /// anchor, advancing the phase each tick. Bobbing never ends.
    pub open spec fn brain_spec(g: Monster, roll: int) -> Monster {
        if g.state == MonsterState::Idle {
            match g.behaviour {
                Behaviour::StandBy => {
                    if roll < 2 {
                        Monster {
                            behaviour: Behaviour::UpDown { yo: g.position.y, speed: 1, dt: 0 },
                            ..g
                        }
                    } else {
                        g
                    }
                },
                Behaviour::UpDown { yo, speed, dt } => {
                    let y = clamp_spec(
                        yo + crate::wave::wave_spec(dt as int),
                        -POS_LIMIT as int,
                        POS_LIMIT as int,
                    );
                    Monster {
                        position: Vec2 { x: g.position.x, y: y as i32 },
                        behaviour: Behaviour::UpDown {
                            yo,
                            speed: 1,
                            dt: if dt + speed >= crate::wave::WAVE_PERIOD {
                                0
                            } else {
                                (dt + speed) as i32
                            },
                        },
                        ..g
                    }
                },
            }
        } else {
            g
        }
    }

    fn brain(&mut self, roll: i32)
        requires
            old(self).wf(),
            0 <= roll < 100,
        ensures
            *final(self) == Self::brain_spec(*old(self), roll as int),
            final(self).wf(),
    {
        if matches!(self.state, MonsterState::Idle) {
            match self.behaviour {
                Behaviour::StandBy => {
                    if roll < 2 {
                        self.behaviour = Behaviour::UpDown {
                            yo: self.position.y,
                            speed: 1,
                            dt: 0,
                        };
                    }
                },
                Behaviour::UpDown { yo, speed, dt } => {
                    let offset = crate::wave::wave(dt);
                    self.position.y = clamp_i32(yo + offset, -POS_LIMIT, POS_LIMIT);
                    let ndt = if dt + speed >= crate::wave::WAVE_PERIOD {
                        0
                    } else {
                        dt + speed
                    };
                    self.behaviour = Behaviour::UpDown { yo, speed: 1, dt: ndt };
                },
            }
        }
    }

    /// The per-tick state machine: birth ends into idle (gaining hit
    /// eligibility); a finished hit reaction returns to idle, or to
    /// dead when health is exhausted; a finished death animation clears
    /// the active flag for good. A strike this tick forces the hit
    /// state. Whenever the state changed, the new state's clip is
    /// installed and restarted from frame zero.
    pub open spec fn state_manager_spec(g: Monster) -> Monster {
        let g1 = match g.state {
            MonsterState::Birth => {
                if g.sprite.current_frame == g.sprite.frames - 1 {
                    Monster { state: MonsterState::Idle, hitable: true, ..g }
                } else {
                    g
                }
            },
            MonsterState::Idle => g,
            MonsterState::Hit => {
                let ga = Monster { hitable: false, hited: false, ..g };
                if g.sprite.current_frame == g.sprite.frames - 1 {
                    if g.health <= 0 {
                        Monster { state: MonsterState::Dead, hitable: false, ..ga }
                    } else {
                        Monster { state: MonsterState::Idle, hitable: true, ..ga }
                    }
                } else {
                    ga
                }
            },
            MonsterState::Dead => {
                let ga = Monster { hitable: false, ..g };
                if g.sprite.current_frame == g.sprite.frames - 1 {
                    Monster { active: false, ..ga }
                } else {
                    ga
                }
            },
        };
        let g2 = if g1.direction == 1 {
            Monster { sprite: AnimatedSprite { flip_x: false, ..g1.sprite }, ..g1 }
        } else if g1.direction == -1 {
            Monster { sprite: AnimatedSprite { flip_x: true, ..g1.sprite }, ..g1 }
        } else {
            g1
        };
        let g3 = if g2.hited {
            Monster { state: MonsterState::Hit, ..g2 }
        } else {
            g2
        };
        if g.state != g3.state {
            Monster {
                sprite: AnimatedSprite::play_spec(
                    AnimatedSprite::set_animation_spec(
                        g3.sprite,
                        monster_animation_spec(g3.state),
                    ),
                ),
                ..g3
            }
        } else {
            g3
        }
    }

    pub fn state_manager(&mut self)
        requires
            old(self).wf(),
        ensures
            *final(self) == Self::state_manager_spec(*old(self)),
            final(self).wf(),
            final(self).active ==> old(self).active,
    {
        let previous_state = self.state;
        match self.state {
            MonsterState::Birth => {
                if self.sprite.is_animation_ended() {
                    self.state = MonsterState::Idle;
                    self.hitable = true;
                }
            },
            MonsterState::Idle => {},
            MonsterState::Hit => {
                self.hitable = false;
                self.hited = false;
                if self.sprite.is_animation_ended() {
                    self.state = MonsterState::Idle;
                    self.hitable = true;
                    if self.health <= 0 {
                        self.state = MonsterState::Dead;
                        self.hitable = false;
                    }
                }
            },
            MonsterState::Dead => {
                self.hitable = false;
                if self.sprite.is_animation_ended() {
                    self.active = false;
                }
            },
        }
        if self.direction == 1 {
            self.sprite.flip_x = false;
        } else if self.direction == -1 {
            self.sprite.flip_x = true;
        }
        if self.hited {
            self.state = MonsterState::Hit;
        }
        if previous_state != self.state {
            self.sprite.set_animation(&monster_animation(self.state));
            self.sprite.play();
        }
    }

    /// One simulation tick: run the wander behaviour on the given roll,
    /// face the player, step the state machine, and integrate position.
    pub open spec fn update_spec(g: Monster, hero_pos: Vec2, roll: int) -> Monster {
        let g1 = Self::brain_spec(g, roll);
        let g2 = if g1.position.x > hero_pos.x {
            Monster { direction: -1i32, ..g1 }
        } else if g1.position.x < hero_pos.x {
            Monster { direction: 1, ..g1 }
        } else {
            g1
        };
        let g3 = Self::state_manager_spec(g2);
        let g4 = Monster {
            position: Vec2 {
                x: clamp_spec(
                    g3.position.x + g3.velocity.x,
                    -POS_LIMIT as int,
                    POS_LIMIT as int,
                ) as i32,
                y: clamp_spec(
                    g3.position.y + g3.velocity.y,
                    -POS_LIMIT as int,
                    POS_LIMIT as int,
                ) as i32,
            },
            ..g3
        };
        Monster { sprite: AnimatedSprite::set_position_spec(g4.sprite, g4.position), ..g4 }
    }

    /// Advances the ghost by one tick, facing and wandering relative to
    /// the player at `hero_pos`. The wander roll is drawn fresh; every
    /// other effect is exact. Once inactive, a ghost never becomes
    /// active again, and its health is untouched here.
    #[verifier::rlimit(60)]
    pub fn update(&mut self, hero_pos: Vec2)
        requires
            old(self).wf(),
        ensures
            exists|roll: int|
                0 <= roll < 100 && *final(self) == Self::update_spec(*old(self), hero_pos, roll),
            final(self).wf(),
            final(self).active ==> old(self).active,
            final(self).health == old(self).health,
    {
        let roll = crate::rng::gen_range_i32(0, 100);
        self.brain(roll);
        let ghost g1 = *self;
        if self.position.x > hero_pos.x {
            self.direction = -1;
        } else if self.position.x < hero_pos.x {
            self.direction = 1;
        }
        let ghost g2 = *self;
        self.state_manager();
        let ghost g3 = *self;
        self.position = Vec2 {
            x: clamp_i32(self.position.x + self.velocity.x, -POS_LIMIT, POS_LIMIT),
            y: clamp_i32(self.position.y + self.velocity.y, -POS_LIMIT, POS_LIMIT),
        };
        let ghost g4 = *self;
        self.sprite.set_position_to(self.position);
        proof {
            let g = *old(self);
            let ri = roll as int;
            assert(g1 == Self::brain_spec(g, ri));
            assert(g2 == (if g1.position.x > hero_pos.x {
                Monster { direction: -1i32, ..g1 }
            } else if g1.position.x < hero_pos.x {
                Monster { direction: 1, ..g1 }
            } else {
                g1
            }));
            assert(g3 == Self::state_manager_spec(g2));
            assert(g4 == (Monster {
                position: Vec2 {
                    x: clamp_spec(
                        g3.position.x + g3.velocity.x,
                        -POS_LIMIT as int,
                        POS_LIMIT as int,
                    ) as i32,
                    y: clamp_spec(
                        g3.position.y + g3.velocity.y,
                        -POS_LIMIT as int,
                        POS_LIMIT as int,
                    ) as i32,
                },
                ..g3
            }));
            assert(*self == (Monster {
                sprite: AnimatedSprite::set_position_spec(g4.sprite, g4.position),
                ..g4
            }));
            assert(*self == Self::update_spec(g, hero_pos, ri));
        }
    }

    /// The ghost's collision box placed in the world, displaced by
    /// `(dx, dy)` subunits.
    pub fn get_collision_box(&self, dx: i32, dy: i32) -> (r: Rect)
        requires
            self.wf(),
            abs_spec(dx as int) <= VEL_LIMIT,
            abs_spec(dy as int) <= VEL_LIMIT,
        ensures
            r == world_box_spec(self.position, self.collision_box, dx as int, dy as int),
    {
        Rect {
            x: self.position.x + self.collision_box.x + dx,
            y: self.position.y + self.collision_box.y + dy,
            w: self.collision_box.w,
            h: self.collision_box.h,
        }
    }

    /// A registered strike: `value` damage, the struck mark set, and
    /// hit eligibility cleared for the reaction's duration.
    pub open spec fn hit_spec(g: Monster, value: int) -> Monster {
        Monster {
            hited: true,
            hitable: false,
            health: (if g.health - value >= i32::MIN {
                g.health - value
            } else {
                i32::MIN as int
            }) as i32,
            ..g
        }
    }

    pub fn hit(&mut self, value: i32)
        requires
            0 <= value <= 1_000,
        ensures
            *final(self) == Self::hit_spec(*old(self), value as int),
            final(self).health <= old(self).health,
            old(self).wf() ==> final(self).wf(),
    {
        self.hited = true;
        self.hitable = false;
        if self.health >= i32::MIN + value {
            self.health = self.health - value;
        } else {
            self.health = i32::MIN;
        }
    }

    /// One whole presentation tick of the monster: the simulation
    /// update on a wander roll, followed by the frame advance the
    /// renderer applies when drawing.
    pub open spec fn monster_tick_spec(g: Monster, hero_pos: Vec2, roll: int) -> Monster {
        let g1 = Self::update_spec(g, hero_pos, roll);
        Monster {
            sprite: if g1.sprite.play {
                AnimatedSprite::animate_spec(g1.sprite)
            } else {
                g1.sprite
            },
            ..g1
        }
    }

    /// `n` presentation ticks, each on its own wander roll.
    pub open spec fn monster_ticks_spec(g: Monster, hero_pos: Vec2, rolls: Seq<int>, n: int)
        -> Monster
        decreases n,
    {
        if n <= 0 {
            g
        } else {
            Self::monster_tick_spec(
                Self::monster_ticks_spec(g, hero_pos, rolls, n - 1),
                hero_pos,
                rolls[n - 1],
            )
        }
    }

    /// Mid hit reaction: `a` frame advances into the 10-frame,
    /// speed-4 hit clip (one advance lands with the reacting tick
    /// itself, which is also the only tick still carrying the struck
    /// flag), not hit-eligible, still active.
    pub open spec fn mid_hit_reaction(g: Monster, a: int, health: int) -> bool {
        &&& g.state == MonsterState::Hit
        &&& !g.hitable
        &&& g.hited == (a == 1)
        &&& g.active
        &&& g.health == health
        &&& g.sprite.frames == 10
        &&& g.sprite.speed == 4
        &&& g.sprite.play
        &&& 4 * g.sprite.current_frame + g.sprite.elapsed == a
        &&& 0 <= g.sprite.elapsed <= 3
        &&& g.sprite.current_frame <= 9
    }

    /// Mid death clip: `a` frame advances into the 10-frame, speed-8
    /// dead clip, permanently ineligible, still in the live
    /// collection.
    pub open spec fn mid_death(g: Monster, a: int, health: int) -> bool {
        &&& g.state == MonsterState::Dead
        &&& !g.hitable
        &&& !g.hited
        &&& g.active
        &&& g.health == health
        &&& g.sprite.frames == 10
        &&& g.sprite.speed == 8
        &&& g.sprite.play
        &&& 8 * g.sprite.current_frame + g.sprite.elapsed == a
        &&& 0 <= g.sprite.elapsed <= 7
        &&& g.sprite.current_frame <= 9
    }

    /// The tick after a strike: an idle monster carrying the struck
    /// flag force-enters the hit reaction, its clip restarted.
    proof fn lemma_struck_monster_reacts(g: Monster, hero_pos: Vec2, roll: int)
        requires
            g.state == MonsterState::Idle,
            g.hited,
            !g.hitable,
            g.active,
        ensures
            Self::mid_hit_reaction(Self::monster_tick_spec(g, hero_pos, roll), 1, g.health as int),
    {
    }

    /// A mid-reaction tick: the clip advances one step and nothing
    /// else gives.
    proof fn lemma_hit_reaction_holds(g: Monster, hero_pos: Vec2, roll: int, a: int, health: int)
        requires
            Self::mid_hit_reaction(g, a, health),
            1 <= a <= 35,
        ensures
            Self::mid_hit_reaction(Self::monster_tick_spec(g, hero_pos, roll), a + 1, health),
    {
    }

    /// The tick on which the hit clip reports finished: back to idle
    /// and hit-eligible with health left, dead for good without.
    proof fn lemma_hit_reaction_resolves(g: Monster, hero_pos: Vec2, roll: int, health: int)
        requires
            Self::mid_hit_reaction(g, 36, health),
        ensures
            health > 0 ==> ({
                let g1 = Self::monster_tick_spec(g, hero_pos, roll);
                g1.state == MonsterState::Idle && g1.hitable && !g1.hited && g1.active
                    && g1.health == health
            }),
            health <= 0 ==> Self::mid_death(Self::monster_tick_spec(g, hero_pos, roll), 1, health),
    {
    }

    /// A mid-death tick: the clip advances one step, the monster stays
    /// dead, ineligible and still active.
    proof fn lemma_death_holds(g: Monster, hero_pos: Vec2, roll: int, a: int, health: int)
        requires
            Self::mid_death(g, a, health),
            1 <= a <= 71,
        ensures
            Self::mid_death(Self::monster_tick_spec(g, hero_pos, roll), a + 1, health),
    {
    }

    /// The tick on which the dead clip reports finished clears the
    /// active flag for good.
    proof fn lemma_death_finishes(g: Monster, hero_pos: Vec2, roll: int, health: int)
        requires
            Self::mid_death(g, 72, health),
        ensures
            ({
                let g1 = Self::monster_tick_spec(g, hero_pos, roll);
                g1.state == MonsterState::Dead && !g1.active && !g1.hitable
            }),
    {
        assert(g.sprite.current_frame == 9 && g.sprite.elapsed == 0);
    }

    /// One whole strike window played out: a strike on an idle,
    /// eligible monster, then the 37 ticks that run its hit clip to
    /// the end; with health left it stands idle and eligible again,
    /// without it lies mid death clip.
    proof fn lemma_strike_window(g: Monster, hero_pos: Vec2, rolls: Seq<int>, k: int)
        requires
            g.state == MonsterState::Idle,
            g.hited,
            !g.hitable,
            g.active,
            1 <= k <= 36,
        ensures
            Self::mid_hit_reaction(
                Self::monster_ticks_spec(g, hero_pos, rolls, k),
                k,
                g.health as int,
            ),
        decreases k,
    {
        if k == 1 {
            Self::lemma_struck_monster_reacts(g, hero_pos, rolls[0]);
        } else {
            Self::lemma_strike_window(g, hero_pos, rolls, k - 1);
            Self::lemma_hit_reaction_holds(
                Self::monster_ticks_spec(g, hero_pos, rolls, k - 1),
                hero_pos,
                rolls[k - 1],
                k - 1,
                g.health as int,
            );
        }
    }

    /// The death clip run out to the tick before it finishes.
    proof fn lemma_death_run(g: Monster, hero_pos: Vec2, rolls: Seq<int>, health: int, k: int)
        requires
            Self::mid_death(g, 1, health),
            0 <= k <= 71,
        ensures
            Self::mid_death(Self::monster_ticks_spec(g, hero_pos, rolls, k), 1 + k, health),
        decreases k,
    {
        if k > 0 {
            Self::lemma_death_run(g, hero_pos, rolls, health, k - 1);
            Self::lemma_death_holds(
                Self::monster_ticks_spec(g, hero_pos, rolls, k - 1),
                hero_pos,
                rolls[k - 1],
                k,
                health,
            );
        }
    }

    /// The kill chain: an idle, eligible monster with 3 health takes a
    /// 2-damage strike and rides its hit clip out, standing idle and
    /// eligible again on 1 health; a second 2-damage strike drives
    /// health to -1, at or below zero, so the reaction ends in the
    /// dead state instead; a third strike window finds it ineligible
    /// (the resolver leaves ineligible monsters untouched — see
    /// `Hero::lemma_attack_hits_overlapped`); and once the dead clip
    /// has run its 72 ticks, the active flag clears, marking the
    /// monster for removal. Each window's wander rolls are arbitrary.
    pub proof fn lemma_heavy_kill_chain(
        g: Monster,
        hero_pos: Vec2,
        rolls1: Seq<int>,
        rolls2: Seq<int>,
        rolls3: Seq<int>,
    )
        requires
            g.state == MonsterState::Idle,
            g.hitable,
            !g.hited,
            g.active,
            g.health == 3,
        ensures
            ({
                let w1 = Self::monster_ticks_spec(Self::hit_spec(g, 2), hero_pos, rolls1, 37);
                &&& w1.state == MonsterState::Idle
                &&& w1.hitable
                &&& w1.active
                &&& w1.health == 1
                &&& {
                    let w2 = Self::monster_ticks_spec(
                        Self::hit_spec(w1, 2),
                        hero_pos,
                        rolls2,
                        37,
                    );
                    &&& w2.state == MonsterState::Dead
                    &&& !w2.hitable
                    &&& w2.active
                    &&& w2.health == -1
                    &&& {
                        let w3 = Self::monster_ticks_spec(w2, hero_pos, rolls3, 72);
                        w3.state == MonsterState::Dead && !w3.active && !w3.hitable
                    }
                }
            }),
    {
        let s1 = Self::hit_spec(g, 2);
        Self::lemma_strike_window(s1, hero_pos, rolls1, 36);
        let m1 = Self::monster_ticks_spec(s1, hero_pos, rolls1, 36);
        Self::lemma_hit_reaction_resolves(m1, hero_pos, rolls1[36], 1);
        let w1 = Self::monster_ticks_spec(s1, hero_pos, rolls1, 37);

        let s2 = Self::hit_spec(w1, 2);
        Self::lemma_strike_window(s2, hero_pos, rolls2, 36);
        let m2 = Self::monster_ticks_spec(s2, hero_pos, rolls2, 36);
        Self::lemma_hit_reaction_resolves(m2, hero_pos, rolls2[36], -1);
        let w2 = Self::monster_ticks_spec(s2, hero_pos, rolls2, 37);

        Self::lemma_death_run(w2, hero_pos, rolls3, -1, 71);
        let m3 = Self::monster_ticks_spec(w2, hero_pos, rolls3, 71);
        Self::lemma_death_finishes(m3, hero_pos, rolls3[71], -1);
    }

    pub fn is_hitable(&self) -> (r: bool)
        ensures
            r == self.hitable,
    {
        self.hitable
    }

    pub fn is_active(&self) -> (r: bool)
        ensures
            r == self.active,
    {
        self.active
    }
}

} // verus!
