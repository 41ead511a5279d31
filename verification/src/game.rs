//! The round: an encounter director that spawns monsters on a random
//! timer from a fixed budget, the win/lose outcome, the restart edge,
//! and the fade transition gating the intro.

use vstd::prelude::*;
use crate::controls::InputSnapshot;
use crate::geom::Rect;
use crate::geom::Vec2;
use crate::hero::Hero;
use crate::hero::State;
use crate::monster::Monster;
use crate::sound_system::AudioEvent;
use crate::sound_system::SoundList;
use crate::POS_LIMIT;

verus! {

/// Budget of monsters one round may spawn.
pub const MAX_MONSTERS: i32 = 5;

/// Ticks before the first spawn of a round.
pub const FIRST_SPAWN_DELAY: i32 = 5;

/// A spawned monster's fixed vertical position (52 pixels down).
pub const SPAWN_Y: i32 = 832;

/// Lowest (inclusive) and highest (exclusive) horizontal spawn
/// positions, in subunits (50 and 380 pixels).
pub const SPAWN_X_MIN: i32 = 800;

pub const SPAWN_X_MAX: i32 = 6080;

/// The level's presentation state.
#[derive(Copy, Clone, Debug, PartialEq, Eq, Structural)]
pub enum GameState {
    Intro,
    Game,
    Win,
    End,
}

/// The fade covering state changes: toward visible (FadeIn) or toward
/// black (FadeOut).
#[derive(Copy, Clone, Debug, PartialEq, Eq, Structural)]
pub enum TransitionName {
    FadeIn,
    FadeOut,
}

/// One round of the game: the player, the live monster collection, the
/// spawn director's budget and timer, the presentation state and the
/// fade transition (alpha in hundredths, 0 to 100).
pub struct Game {
    pub state: GameState,
    pub max_monsters: i32,
    pub monster_timer: i32,
    pub monsters: Vec<Monster>,
    pub colliders: Vec<Rect>,
    pub hero: Hero,
    pub transition_alpha: i32,
    pub transition: TransitionName,
    pub transition_finished: bool,
    pub ambiance_on: bool,
}

impl Game {
    /// State every round operation preserves.
    pub open spec fn wf(self) -> bool {
        &&& self.hero.wf()
        &&& forall|i: int| 0 <= i < self.monsters@.len() ==> (#[trigger] self.monsters@[i]).wf()
        &&& 0 <= self.transition_alpha <= 100
        &&& 0 <= self.max_monsters <= 1_000_000
    }

    /// The level geometry: the ground and the two side walls.
    pub open spec fn colliders_spec() -> Seq<Rect> {
        seq![
            Rect { x: 0, y: 1616, w: 6816, h: 256 },
            Rect { x: -256i32, y: 0, w: 256, h: 1792 },
            Rect { x: 6816, y: 0, w: 256, h: 1792 },
        ]
    }

    /// A fresh round: intro screen, full spawn budget, a short delay
    /// before the first spawn, no monsters, and the player at the
    /// origin with 20 life-seconds of health, behind a fade-in.
    pub fn new() -> (r: Self)
        ensures
            r.wf(),
            r.state == GameState::Intro,
            r.max_monsters == MAX_MONSTERS,
            r.monster_timer == FIRST_SPAWN_DELAY,
            r.monsters@.len() == 0,
            r.colliders@ == Self::colliders_spec(),
            r.hero == Hero::new_spec(0, 0, 20),
            r.transition_alpha == 100,
            r.transition == TransitionName::FadeIn,
            !r.transition_finished,
            !r.ambiance_on,
    {
        let mut colliders: Vec<Rect> = Vec::new();
        colliders.push(Rect { x: 0, y: 1616, w: 6816, h: 256 });
        colliders.push(Rect { x: -256, y: 0, w: 256, h: 1792 });
        colliders.push(Rect { x: 6816, y: 0, w: 256, h: 1792 });
        proof {
            assert(colliders@ =~= Self::colliders_spec());
        }
        Game {
            state: GameState::Intro,
            max_monsters: MAX_MONSTERS,
            monster_timer: FIRST_SPAWN_DELAY,
            monsters: Vec::new(),
            colliders,
            hero: Hero::new(0, 0, 20),
            transition_alpha: 100,
            transition: TransitionName::FadeIn,
            transition_finished: false,
            ambiance_on: false,
        }
    }

    /// One tick of the spawn director on the timer-reset roll `rr`:
    /// the countdown decrements (saturating far below zero once the
    /// budget is spent); when it strikes zero with budget left, one
    /// spawn fires, the budget decrements and the timer restarts at
    /// `20 + rr` ticks.
    pub open spec fn director_spec(budget: int, timer: int, rr: int) -> (int, int, bool) {
        let t1 = if timer > i32::MIN {
            timer - 1
        } else {
            timer
        };
        if budget > 0 && t1 == 0 {
            (budget - 1, 20 + rr, true)
        } else {
            (budget, t1, false)
        }
    }

    /// Steps the spawn director: decrements the countdown and, when it
    /// fires with budget left, spawns one monster at a random
    /// horizontal position and restarts the countdown at a random
    /// delay. A spawn only ever happens with budget left, and the
    /// budget never rises and never drops below zero.
    pub fn director_tick(&mut self) -> (spawned: bool)
        requires
            old(self).wf(),
        ensures
            exists|rr: int|
                30 <= rr < 60 && {
                    let d = #[trigger] Self::director_spec(
                        old(self).max_monsters as int,
                        old(self).monster_timer as int,
                        rr,
                    );
                    final(self).max_monsters == d.0 && final(self).monster_timer == d.1
                        && spawned == d.2
                },
            spawned ==> exists|xr: i32|
                SPAWN_X_MIN <= xr < SPAWN_X_MAX && final(self).monsters@ == old(
                    self,
                ).monsters@.push(#[trigger] Monster::new_spec(xr, SPAWN_Y)),
            !spawned ==> final(self).monsters@ == old(self).monsters@,
            final(self).wf(),
            final(self).max_monsters <= old(self).max_monsters,
            final(self).max_monsters >= 0,
            spawned ==> old(self).max_monsters > 0,
            spawned ==> final(self).max_monsters == old(self).max_monsters - 1,
            !spawned ==> final(self).max_monsters == old(self).max_monsters,
            final(self).monsters@.len() == old(self).monsters@.len() + (if spawned {
                1int
            } else {
                0int
            }),
            final(self).hero == old(self).hero,
            final(self).state == old(self).state,
            final(self).colliders@ == old(self).colliders@,
            final(self).ambiance_on == old(self).ambiance_on,
            final(self).transition == old(self).transition,
            final(self).transition_alpha == old(self).transition_alpha,
            final(self).transition_finished == old(self).transition_finished,
    {
        let rr = crate::rng::gen_range_i32(30, 60);
        if self.monster_timer > i32::MIN {
            self.monster_timer = self.monster_timer - 1;
        }
        if self.max_monsters > 0 && self.monster_timer == 0 {
            self.monster_incubator();
            self.max_monsters = self.max_monsters - 1;
            self.monster_timer = 20 + rr;
            proof {
                let d = Self::director_spec(
                    old(self).max_monsters as int,
                    old(self).monster_timer as int,
                    rr as int,
                );
                assert(self.max_monsters == d.0 && self.monster_timer == d.1 && true == d.2);
            }
            true
        } else {
            proof {
                let d = Self::director_spec(
                    old(self).max_monsters as int,
                    old(self).monster_timer as int,
                    rr as int,
                );
                assert(self.max_monsters == d.0 && self.monster_timer == d.1 && false == d.2);
            }
            false
        }
    }

    /// The fade transition's per-tick step on (alpha, finished):
    /// fading in walks alpha down to 0, fading out up to 100, and
    /// `finished` holds exactly when the walk has hit its end.
    pub open spec fn fade_vals(t: TransitionName, alpha: int) -> (int, bool) {
        match t {
            TransitionName::FadeIn => {
                if alpha - 1 < 0 {
                    (0int, true)
                } else {
                    (alpha - 1, false)
                }
            },
            TransitionName::FadeOut => {
                if alpha + 1 > 100 {
                    (100int, true)
                } else {
                    (alpha + 1, false)
                }
            },
        }
    }

    pub open spec fn fade_spec(g: Game) -> Game {
        let v = Self::fade_vals(g.transition, g.transition_alpha as int);
        Game { transition_alpha: v.0 as i32, transition_finished: v.1, ..g }
    }

    /// The intro screen's tick: the ambiance starts once; a finished
    /// fade-out hands the round over to play (resetting the fade and
    /// the ambiance for the next screen); pressing jump starts the
    /// fade-out.
    pub open spec fn intro_spec(g: Game, input: InputSnapshot) -> (Game, Seq<AudioEvent>) {
        let ev0: Seq<AudioEvent> = if !g.ambiance_on {
            seq![AudioEvent::Play(SoundList::IntroSound)]
        } else {
            Seq::empty()
        };
        let g1 = Game { ambiance_on: true, ..g };
        let p = if g1.transition_finished && g1.transition == TransitionName::FadeOut {
            (
                Game {
                    state: GameState::Game,
                    transition: TransitionName::FadeIn,
                    ambiance_on: false,
                    ..g1
                },
                seq![AudioEvent::Stop(SoundList::IntroSound)],
            )
        } else {
            (g1, Seq::<AudioEvent>::empty())
        };
        let g3 = if input.jump {
            Game { transition: TransitionName::FadeOut, ..p.0 }
        } else {
            p.0
        };
        (g3, ev0 + p.1)
    }

    /// The sound triggers of one player tick turned into play events,
    /// in order.
    pub open spec fn play_events(ss: Seq<SoundList>, n: int) -> Seq<AudioEvent>
        decreases n,
    {
        if n <= 0 {
            Seq::empty()
        } else {
            Self::play_events(ss, n - 1).push(AudioEvent::Play(ss[n - 1]))
        }
    }

    /// What one tick of active play does, before the fade step, given
    /// the tick's random draws: the ambiance starts once; the director
    /// runs on timer-reset roll `rr` and spawn position `xr`; inactive
    /// monsters are removed; the player ticks (resolving combat, with
    /// hit-grunt pick `pick`); every live monster ticks on its own
    /// wander roll; and the round ends in a loss the tick the player
    /// is dead, or a win once the budget is spent and no monster is
    /// left. `r` is the round after the tick and `events` what it
    /// emitted.
    pub open spec fn play_tick_rel(
        g: Game,
        input: InputSnapshot,
        rr: int,
        xr: i32,
        pick: int,
        rolls: Seq<int>,
        r: Game,
        events: Seq<AudioEvent>,
    ) -> bool {
        let ev0: Seq<AudioEvent> = if !g.ambiance_on {
            seq![AudioEvent::Play(SoundList::IntroSound), AudioEvent::Play(SoundList::Beat)]
        } else {
            Seq::empty()
        };
        let d = Self::director_spec(g.max_monsters as int, g.monster_timer as int, rr);
        let ms1 = if d.2 {
            g.monsters@.push(Monster::new_spec(xr, SPAWN_Y))
        } else {
            g.monsters@
        };
        let ms2 = actives_spec(ms1);
        let hu = Hero::update_spec(g.hero, ms2, g.colliders@, input);
        let h2 = hu.0;
        let ms3 = hu.1;
        let hs = Hero::update_sounds_spec(g.hero, ms2, pick);
        let ev1 = Self::play_events(hs, hs.len() as int);
        let st = if h2.state == State::Dead {
            GameState::End
        } else if d.0 == 0 && ms3.len() == 0 {
            GameState::Win
        } else {
            GameState::Game
        };
        let ev2: Seq<AudioEvent> = if h2.state == State::Dead {
            seq![AudioEvent::Stop(SoundList::Beat)]
        } else {
            Seq::empty()
        };
        &&& 30 <= rr < 60
        &&& SPAWN_X_MIN <= xr < SPAWN_X_MAX
        &&& 0 <= pick < 3
        &&& r.monsters@.len() == ms3.len()
        &&& rolls.len() == ms3.len()
        &&& forall|i: int|
            #![trigger rolls[i]]
            0 <= i < ms3.len() ==> 0 <= rolls[i] < 100 && r.monsters@[i]
                == Monster::update_spec(ms3[i], h2.position, rolls[i])
        &&& r.state == st
        &&& r.max_monsters == d.0
        &&& r.monster_timer == d.1
        &&& r.hero == h2
        &&& r.colliders@ == g.colliders@
        &&& r.ambiance_on
        &&& r.transition == g.transition
        &&& events == ev0 + ev1 + ev2
    }

    /// Spawns one monster at a random horizontal position within the
    /// level bounds and the fixed spawn height.
    fn monster_incubator(&mut self)
        ensures
            exists|xr: i32|
                SPAWN_X_MIN <= xr < SPAWN_X_MAX && final(self).monsters@ == old(
                    self,
                ).monsters@.push(#[trigger] Monster::new_spec(xr, SPAWN_Y)),
            final(self).monsters@.len() == old(self).monsters@.len() + 1,
            final(self).max_monsters == old(self).max_monsters,
            final(self).monster_timer == old(self).monster_timer,
            final(self).hero == old(self).hero,
            final(self).state == old(self).state,
            final(self).colliders@ == old(self).colliders@,
            final(self).ambiance_on == old(self).ambiance_on,
            final(self).transition == old(self).transition,
            final(self).transition_alpha == old(self).transition_alpha,
            final(self).transition_finished == old(self).transition_finished,
            old(self).wf() ==> final(self).wf(),
    {
        let x = crate::rng::gen_range_i32(SPAWN_X_MIN, SPAWN_X_MAX);
        let m = Monster::new(x, SPAWN_Y);
        self.monsters.push(m);
    }

    /// Puts the round back to its starting point: full budget, the
    /// short first-spawn delay, no monsters, a fresh player, and the
    /// intro state (the caller decides where to go from there).
    fn reset_game(&mut self)
        ensures
            final(self).max_monsters == MAX_MONSTERS,
            final(self).monster_timer == FIRST_SPAWN_DELAY,
            final(self).monsters@.len() == 0,
            final(self).hero == Hero::new_spec(0, 0, 20),
            final(self).state == GameState::Intro,
            final(self).colliders@ == old(self).colliders@,
            final(self).transition == old(self).transition,
            final(self).transition_alpha == old(self).transition_alpha,
            final(self).transition_finished == old(self).transition_finished,
            final(self).ambiance_on == old(self).ambiance_on,
            old(self).wf() ==> final(self).wf(),
    {
        self.max_monsters = MAX_MONSTERS;
        self.monsters = Vec::new();
        self.monster_timer = FIRST_SPAWN_DELAY;
        self.hero = Hero::new(0, 0, 20);
        self.state = GameState::Intro;
    }

    /// The intro screen's tick (before the fade step).
    fn intro_tick(&mut self, input: &InputSnapshot) -> (events: Vec<AudioEvent>)
        requires
            old(self).state == GameState::Intro,
        ensures
            ({
                let p = Self::intro_spec(*old(self), *input);
                *final(self) == p.0 && events@ == p.1
            }),
    {
        let mut events: Vec<AudioEvent> = Vec::new();
        if !self.ambiance_on {
            self.ambiance_on = true;
            events.push(AudioEvent::Play(SoundList::IntroSound));
        }
        if self.transition_finished && self.transition == TransitionName::FadeOut {
            self.state = GameState::Game;
            self.transition = TransitionName::FadeIn;
            self.ambiance_on = false;
            events.push(AudioEvent::Stop(SoundList::IntroSound));
        }
        if input.jump {
            self.transition = TransitionName::FadeOut;
        }
        proof {
            let p = Self::intro_spec(*old(self), *input);
            assert(*self == p.0);
            assert(events@ =~= p.1);
        }
        events
    }

    /// Appends one play event per sound trigger, in order.
    fn push_play_events(events: &mut Vec<AudioEvent>, sounds: &Vec<SoundList>)
        ensures
            final(events)@ == old(events)@ + Self::play_events(sounds@, sounds@.len() as int),
    {
        let ghost ev0 = events@;
        proof {
            assert(events@ =~= ev0 + Self::play_events(sounds@, 0));
        }
        let mut k: usize = 0;
        while k < sounds.len()
            invariant
                k <= sounds@.len(),
                events@ == ev0 + Self::play_events(sounds@, k as int),
            decreases sounds@.len() - k,
        {
            events.push(AudioEvent::Play(sounds[k]));
            proof {
                assert(events@ =~= ev0 + Self::play_events(sounds@, k as int + 1));
            }
            k = k + 1;
        }
    }

    /// Ticks every live monster against the player's position; each
    /// draws its own wander roll, and the rolls are reported back.
    fn update_monsters(monsters: &mut Vec<Monster>, hero_pos: Vec2) -> (rolls: Ghost<Seq<int>>)
        requires
            forall|j: int| 0 <= j < old(monsters)@.len() ==> (#[trigger] old(monsters)@[j]).wf(),
        ensures
            final(monsters)@.len() == old(monsters)@.len(),
            rolls@.len() == old(monsters)@.len(),
            forall|j: int|
                #![trigger rolls@[j]]
                0 <= j < old(monsters)@.len() ==> 0 <= rolls@[j] < 100 && final(monsters)@[j]
                    == Monster::update_spec(old(monsters)@[j], hero_pos, rolls@[j]),
            forall|j: int|
                0 <= j < final(monsters)@.len() ==> (#[trigger] final(monsters)@[j]).wf(),
    {
        let ghost ms0 = monsters@;
        let ghost mut rolls: Seq<int> = Seq::empty();
        let mut i: usize = 0;
        while i < monsters.len()
            invariant
                i <= ms0.len(),
                monsters@.len() == ms0.len(),
                rolls.len() == i,
                forall|j: int| i <= j < ms0.len() ==> monsters@[j] == ms0[j],
                forall|j: int| 0 <= j < ms0.len() ==> (#[trigger] ms0[j]).wf(),
                forall|j: int|
                    #![trigger rolls[j]]
                    0 <= j < i ==> 0 <= rolls[j] < 100 && monsters@[j] == Monster::update_spec(
                        ms0[j],
                        hero_pos,
                        rolls[j],
                    ),
                forall|j: int| 0 <= j < monsters@.len() ==> (#[trigger] monsters@[j]).wf(),
            decreases ms0.len() - i,
        {
            let mut m = monsters[i];
            let ghost m_before = m;
            m.update(hero_pos);
            monsters[i] = m;
            proof {
                assert(m_before == ms0[i as int]);
                let roll = choose|r_: int|
                    0 <= r_ < 100 && m == Monster::update_spec(m_before, hero_pos, r_);
                assert(0 <= roll < 100 && monsters@[i as int] == Monster::update_spec(
                    ms0[i as int],
                    hero_pos,
                    roll,
                ));
                rolls = rolls.push(roll);
            }
            i = i + 1;
        }
        Ghost(rolls)
    }

    /// Assembles the play-tick relation from the facts its pipeline
    /// pieces establish; pure definition unfolding.
    proof fn lemma_assemble_play_rel(
        g0: Game,
        input: InputSnapshot,
        rr: int,
        xr: i32,
        pick: int,
        rolls: Seq<int>,
        r: Game,
        events: Seq<AudioEvent>,
        ev0: Seq<AudioEvent>,
        ms1: Seq<Monster>,
        ms2: Seq<Monster>,
        h2: Hero,
        ms3: Seq<Monster>,
        hs: Seq<SoundList>,
        spawned: bool,
        d_max: int,
        d_timer: int,
    )
        requires
            30 <= rr < 60,
            SPAWN_X_MIN <= xr < SPAWN_X_MAX,
            0 <= pick < 3,
            ({
                let d = Game::director_spec(g0.max_monsters as int, g0.monster_timer as int, rr);
                d.0 == d_max && d.1 == d_timer && d.2 == spawned
            }),
            ms1 == (if spawned {
                g0.monsters@.push(Monster::new_spec(xr, SPAWN_Y))
            } else {
                g0.monsters@
            }),
            ms2 == actives_spec(ms1),
            ({
                let hu = Hero::update_spec(g0.hero, ms2, g0.colliders@, input);
                h2 == hu.0 && ms3 == hu.1
            }),
            hs == Hero::update_sounds_spec(g0.hero, ms2, pick),
            ev0 == (if !g0.ambiance_on {
                seq![AudioEvent::Play(SoundList::IntroSound), AudioEvent::Play(SoundList::Beat)]
            } else {
                Seq::<AudioEvent>::empty()
            }),
            rolls.len() == ms3.len(),
            forall|i: int|
                #![trigger rolls[i]]
                0 <= i < ms3.len() ==> 0 <= rolls[i] < 100 && r.monsters@[i]
                    == Monster::update_spec(ms3[i], h2.position, rolls[i]),
            r.state == (if h2.state == State::Dead {
                GameState::End
            } else if d_max == 0 && ms3.len() == 0 {
                GameState::Win
            } else {
                GameState::Game
            }),
            r.max_monsters == d_max,
            r.monster_timer == d_timer,
            r.hero == h2,
            r.monsters@.len() == ms3.len(),
            r.colliders@ == g0.colliders@,
            r.ambiance_on,
            r.transition == g0.transition,
            events == ev0 + Game::play_events(hs, hs.len() as int) + (if h2.state == State::Dead {
                seq![AudioEvent::Stop(SoundList::Beat)]
            } else {
                Seq::<AudioEvent>::empty()
            }),
        ensures
            Game::play_tick_rel(g0, input, rr, xr, pick, rolls, r, events),
    {
    }

    /// One tick of active play (before the fade step): ambiance,
    /// director, removal of inactive monsters, the player's tick with
    /// combat resolution, every monster's tick, and the win/lose
    /// outcome.
    #[verifier::rlimit(100)]
    fn play_tick(&mut self, input: &InputSnapshot) -> (events: Vec<AudioEvent>)
        requires
            old(self).wf(),
            input.wf(),
            old(self).state == GameState::Game,
        ensures
            exists|rr: int, xr: i32, pick: int, rolls: Seq<int>|
                #[trigger] Self::play_tick_rel(
                    *old(self),
                    *input,
                    rr,
                    xr,
                    pick,
                    rolls,
                    *final(self),
                    events@,
                ),
            final(self).wf(),
            final(self).transition == old(self).transition,
            final(self).transition_alpha == old(self).transition_alpha,
            final(self).transition_finished == old(self).transition_finished,
            final(self).colliders@ == old(self).colliders@,
    {
        let mut events: Vec<AudioEvent> = Vec::new();
        if !self.ambiance_on {
            self.ambiance_on = true;
            events.push(AudioEvent::Play(SoundList::IntroSound));
            events.push(AudioEvent::Play(SoundList::Beat));
        }
        let ghost ev0 = events@;
        proof {
            assert(ev0 =~= (if !old(self).ambiance_on {
                seq![AudioEvent::Play(SoundList::IntroSound), AudioEvent::Play(SoundList::Beat)]
            } else {
                Seq::<AudioEvent>::empty()
            }));
        }
        let ghost g_amb = *self;
        let spawned = self.director_tick();
        let ghost g_dir = *self;
        let ghost ms1 = self.monsters@;
        let _removed = retain_active(&mut self.monsters);
        proof {
            lemma_actives_upto_wf(ms1, ms1.len() as int);
        }
        let ghost ms2 = self.monsters@;
        let ghost g_hero = self.hero;
        let hero_sounds = self.hero.update(&mut self.monsters, &self.colliders, input);
        let ghost h2 = self.hero;
        let ghost ms3 = self.monsters@;
        Self::push_play_events(&mut events, &hero_sounds);
        let rolls_ghost = Self::update_monsters(&mut self.monsters, self.hero.position);
        let ghost rolls = rolls_ghost@;
        if self.hero.is_dead() {
            self.state = GameState::End;
            events.push(AudioEvent::Stop(SoundList::Beat));
        } else if self.max_monsters == 0 && self.monsters.len() == 0 {
            self.state = GameState::Win;
        }
        proof {
            let g0 = *old(self);
            let rr = choose|rr: int|
                30 <= rr < 60 && {
                    let d = #[trigger] Self::director_spec(
                        g_amb.max_monsters as int,
                        g_amb.monster_timer as int,
                        rr,
                    );
                    g_dir.max_monsters == d.0 && g_dir.monster_timer == d.1 && spawned == d.2
                };
            let d = Self::director_spec(g0.max_monsters as int, g0.monster_timer as int, rr);
            let xr: i32 = if spawned {
                choose|xr: i32|
                    SPAWN_X_MIN <= xr < SPAWN_X_MAX && g_dir.monsters@ == g_amb.monsters@.push(
                        #[trigger] Monster::new_spec(xr, SPAWN_Y),
                    )
            } else {
                SPAWN_X_MIN
            };
            assert(ms1 == (if d.2 {
                g0.monsters@.push(Monster::new_spec(xr, SPAWN_Y))
            } else {
                g0.monsters@
            }));
            let pick = choose|p: int|
                0 <= p < 3 && hero_sounds@ == #[trigger] Hero::update_sounds_spec(
                    g_hero,
                    ms2,
                    p,
                );
            let hs = Hero::update_sounds_spec(g0.hero, ms2, pick);
            let hu = Hero::update_spec(g0.hero, ms2, g0.colliders@, *input);
            assert(g_hero == g0.hero);
            assert(ms2 == actives_spec(ms1));
            assert(h2 == hu.0);
            assert(ms3 == hu.1);
            assert(rolls.len() == hu.1.len());
            assert(events@ =~= ev0 + Self::play_events(hs, hs.len() as int) + (if h2.state
                == State::Dead {
                seq![AudioEvent::Stop(SoundList::Beat)]
            } else {
                Seq::<AudioEvent>::empty()
            }));
            Self::lemma_assemble_play_rel(
                g0,
                *input,
                rr,
                xr,
                pick,
                rolls,
                *self,
                events@,
                ev0,
                ms1,
                ms2,
                h2,
                ms3,
                hs,
                spawned,
                d.0,
                d.1,
            );
        }
        events
    }

    /// The end (loss) screen's tick: the start input restarts the
    /// round.
    fn end_tick(&mut self, input: &InputSnapshot) -> (events: Vec<AudioEvent>)
        requires
            old(self).wf(),
            old(self).state == GameState::End,
        ensures
            final(self).wf(),
            final(self).colliders@ == old(self).colliders@,
            final(self).transition == old(self).transition,
            final(self).transition_alpha == old(self).transition_alpha,
            final(self).transition_finished == old(self).transition_finished,
            input.jump ==> ({
                &&& final(self).state == GameState::Game
                &&& final(self).max_monsters == MAX_MONSTERS
                &&& final(self).monster_timer == FIRST_SPAWN_DELAY
                &&& final(self).monsters@.len() == 0
                &&& final(self).hero == Hero::new_spec(0, 0, 20)
                &&& !final(self).ambiance_on
                &&& events@ == seq![AudioEvent::Stop(SoundList::IntroSound)]
            }),
            !input.jump ==> *final(self) == *old(self) && events@ == Seq::<AudioEvent>::empty(),
    {
        let mut events: Vec<AudioEvent> = Vec::new();
        if input.jump {
            self.reset_game();
            self.state = GameState::Game;
            events.push(AudioEvent::Stop(SoundList::IntroSound));
            self.ambiance_on = false;
            proof {
                assert(events@ =~= seq![AudioEvent::Stop(SoundList::IntroSound)]);
            }
        }
        events
    }

    /// The win screen's tick: the start input restarts the round.
    fn win_tick(&mut self, input: &InputSnapshot) -> (events: Vec<AudioEvent>)
        requires
            old(self).wf(),
            old(self).state == GameState::Win,
        ensures
            final(self).wf(),
            final(self).colliders@ == old(self).colliders@,
            final(self).transition == old(self).transition,
            final(self).transition_alpha == old(self).transition_alpha,
            final(self).transition_finished == old(self).transition_finished,
            input.jump ==> ({
                &&& final(self).state == GameState::Game
                &&& final(self).max_monsters == MAX_MONSTERS
                &&& final(self).monster_timer == FIRST_SPAWN_DELAY
                &&& final(self).monsters@.len() == 0
                &&& final(self).hero == Hero::new_spec(0, 0, 20)
                &&& !final(self).ambiance_on
                &&& events@ == seq![
                    AudioEvent::Stop(SoundList::IntroSound),
                    AudioEvent::Stop(SoundList::Beat),
                ]
            }),
            !input.jump ==> *final(self) == *old(self) && events@ == Seq::<AudioEvent>::empty(),
    {
        let mut events: Vec<AudioEvent> = Vec::new();
        if input.jump {
            self.reset_game();
            self.state = GameState::Game;
            events.push(AudioEvent::Stop(SoundList::IntroSound));
            events.push(AudioEvent::Stop(SoundList::Beat));
            self.ambiance_on = false;
            proof {
                assert(events@ =~= seq![
                    AudioEvent::Stop(SoundList::IntroSound),
                    AudioEvent::Stop(SoundList::Beat),
                ]);
            }
        }
        events
    }

    /// Advances the fade transition by one tick.
    fn fade_tick(&mut self)
        requires
            0 <= old(self).transition_alpha <= 100,
        ensures
            *final(self) == Self::fade_spec(*old(self)),
    {
        match self.transition {
            TransitionName::FadeIn => {
                self.transition_finished = false;
                self.transition_alpha = self.transition_alpha - 1;
                if self.transition_alpha < 0 {
                    self.transition_alpha = 0;
                    self.transition_finished = true;
                }
            },
            TransitionName::FadeOut => {
                self.transition_finished = false;
                self.transition_alpha = self.transition_alpha + 1;
                if self.transition_alpha > 100 {
                    self.transition_finished = true;
                    self.transition_alpha = 100;
                }
            },
        }
    }

    /// One tick of the round. On the intro screen only the ambiance,
    /// the fade gate and the start input act. During play the whole
    /// pipeline runs: director, removal of inactive monsters, the
    /// player's tick (combat resolution inside), every monster's tick,
    /// and the win/lose outcome. On the end and win screens the start
    /// input restarts the round with everything reset. The fade
    /// transition advances every tick, last.
    #[verifier::rlimit(100)]
    pub fn update(&mut self, input: &InputSnapshot) -> (events: Vec<AudioEvent>)
        requires
            old(self).wf(),
            input.wf(),
        ensures
            final(self).wf(),
            final(self).colliders@ == old(self).colliders@,
            old(self).state == GameState::Intro ==> ({
                let p = Self::intro_spec(*old(self), *input);
                *final(self) == Self::fade_spec(p.0) && events@ == p.1
            }),
            old(self).state == GameState::Game ==> exists|rr: int, xr: i32, pick: int, rolls: Seq<int>|
                #[trigger] Self::play_tick_rel(
                    *old(self),
                    *input,
                    rr,
                    xr,
                    pick,
                    rolls,
                    *final(self),
                    events@,
                ),
            old(self).state != GameState::Intro ==> ({
                &&& final(self).transition == old(self).transition
                &&& final(self).transition_alpha == Self::fade_vals(
                    old(self).transition,
                    old(self).transition_alpha as int,
                ).0
                &&& final(self).transition_finished == Self::fade_vals(
                    old(self).transition,
                    old(self).transition_alpha as int,
                ).1
            }),
            (old(self).state == GameState::End || old(self).state == GameState::Win)
                && input.jump ==> ({
                &&& final(self).state == GameState::Game
                &&& final(self).max_monsters == MAX_MONSTERS
                &&& final(self).monster_timer == FIRST_SPAWN_DELAY
                &&& final(self).monsters@.len() == 0
                &&& final(self).hero == Hero::new_spec(0, 0, 20)
                &&& !final(self).ambiance_on
                &&& events@ == (if old(self).state == GameState::End {
                    seq![AudioEvent::Stop(SoundList::IntroSound)]
                } else {
                    seq![
                        AudioEvent::Stop(SoundList::IntroSound),
                        AudioEvent::Stop(SoundList::Beat),
                    ]
                })
            }),
            (old(self).state == GameState::End || old(self).state == GameState::Win)
                && !input.jump ==> ({
                &&& final(self).state == old(self).state
                &&& final(self).max_monsters == old(self).max_monsters
                &&& final(self).monster_timer == old(self).monster_timer
                &&& final(self).monsters@ == old(self).monsters@
                &&& final(self).hero == old(self).hero
                &&& final(self).ambiance_on == old(self).ambiance_on
                &&& events@ == Seq::<AudioEvent>::empty()
            }),
    {
        let events = match self.state {
            GameState::Intro => self.intro_tick(input),
            GameState::Game => self.play_tick(input),
            GameState::End => self.end_tick(input),
            GameState::Win => self.win_tick(input),
        };
        let ghost mid = *self;
        self.fade_tick();
        proof {
            if old(self).state == GameState::Game {
                let (rr, xr, pick, rolls) = choose|rr: int, xr: i32, pick: int, rolls: Seq<int>|
                    #[trigger] Self::play_tick_rel(
                        *old(self),
                        *input,
                        rr,
                        xr,
                        pick,
                        rolls,
                        mid,
                        events@,
                    );
                assert(Self::play_tick_rel(
                    *old(self),
                    *input,
                    rr,
                    xr,
                    pick,
                    rolls,
                    *self,
                    events@,
                ));
            }
        }
        events
    }

    /// Advances every sprite playback the renderer runs one frame:
    /// during play all actors animate; on the end and win screens only
    /// the player does (it stays on screen there); the intro animates
    /// none of them.
    pub fn tick_animations(&mut self)
        requires
            old(self).wf(),
        ensures
            final(self).wf(),
            old(self).state == GameState::Intro ==> *final(self) == *old(self),
            (old(self).state == GameState::End || old(self).state == GameState::Win) ==> ({
                &&& *final(self) == (Game { hero: final(self).hero, ..*old(self) })
                &&& final(self).hero == (Hero {
                    sprite: Self::animate_if_playing(old(self).hero.sprite),
                    ..old(self).hero
                })
            }),
            old(self).state == GameState::Game ==> ({
                &&& *final(self) == (Game {
                    hero: final(self).hero,
                    monsters: final(self).monsters,
                    ..*old(self)
                })
                &&& final(self).hero == (Hero {
                    sprite: Self::animate_if_playing(old(self).hero.sprite),
                    ..old(self).hero
                })
                &&& final(self).monsters@.len() == old(self).monsters@.len()
                &&& forall|i: int|
                    0 <= i < old(self).monsters@.len() ==> #[trigger] final(self).monsters@[i]
                        == (Monster {
                        sprite: Self::animate_if_playing(old(self).monsters@[i].sprite),
                        ..old(self).monsters@[i]
                    })
            }),
    {
        match self.state {
            GameState::Intro => {},
            GameState::Game => {
                let mut i: usize = 0;
                while i < self.monsters.len()
                    invariant
                        i <= self.monsters@.len(),
                        self.monsters@.len() == old(self).monsters@.len(),
                        *self == (Game { monsters: self.monsters, ..*old(self) }),
                        old(self).wf(),
                        forall|j: int| #![trigger old(self).monsters@[j]]
                            i <= j < self.monsters@.len() ==> self.monsters@[j] == old(
                                self,
                            ).monsters@[j],
                        forall|j: int| #![trigger old(self).monsters@[j]]
                            0 <= j < i ==> self.monsters@[j] == (Monster {
                                sprite: Self::animate_if_playing(old(self).monsters@[j].sprite),
                                ..old(self).monsters@[j]
                            }),
                        forall|j: int|
                            0 <= j < self.monsters@.len() ==> (#[trigger] self.monsters@[j]).wf(),
                    decreases self.monsters@.len() - i,
                {
                    let mut m = self.monsters[i];
                    if m.sprite.play {
                        m.sprite.animate();
                    }
                    self.monsters[i] = m;
                    i = i + 1;
                }
                if self.hero.sprite.play {
                    self.hero.sprite.animate();
                }
            },
            GameState::End => {
                if self.hero.sprite.play {
                    self.hero.sprite.animate();
                }
            },
            GameState::Win => {
                if self.hero.sprite.play {
                    self.hero.sprite.animate();
                }
            },
        }
    }

    /// One playback tick of a sprite, gated on its play flag, as the
    /// renderer applies it when drawing.
    pub open spec fn animate_if_playing(s: crate::sprite::AnimatedSprite) -> crate::sprite::AnimatedSprite {
        if s.play {
            crate::sprite::AnimatedSprite::animate_spec(s)
        } else {
            s
        }
    }
}

/// The subsequence of the first `n` monsters that are still active,
/// in order.
pub open spec fn actives_upto(ms: Seq<Monster>, n: int) -> Seq<Monster>
    decreases n,
{
    if n <= 0 {
        Seq::empty()
    } else {
        let prev = actives_upto(ms, n - 1);
        if ms[n - 1].active {
            prev.push(ms[n - 1])
        } else {
            prev
        }
    }
}

/// The subsequence of still-active monsters, in order.
pub open spec fn actives_spec(ms: Seq<Monster>) -> Seq<Monster> {
    actives_upto(ms, ms.len() as int)
}

/// The spawn director iterated over a run of ticks, with the timer
/// reset rolls given in order: final budget, final timer, and how many
/// spawns ever fired.
pub open spec fn director_iter_spec(budget: int, timer: int, rrs: Seq<int>) -> (int, int, int)
    decreases rrs.len(),
{
    if rrs.len() == 0 {
        (budget, timer, 0)
    } else {
        let d = Game::director_spec(budget, timer, rrs[0]);
        let rest = director_iter_spec(d.0, d.1, rrs.drop_first());
        (rest.0, rest.1, rest.2 + (if d.2 {
            1int
        } else {
            0int
        }))
    }
}

/// Budget law: over any run of ticks, however the timer rolls fall,
/// the director spawns exactly the budget it spent — the remaining
/// budget never goes below zero, and the spawn count never exceeds
/// the starting budget.
pub proof fn lemma_spawn_budget(budget: int, timer: int, rrs: Seq<int>)
    requires
        budget >= 0,
    ensures
        ({
            let r = director_iter_spec(budget, timer, rrs);
            0 <= r.0 <= budget && r.2 == budget - r.0 && r.2 <= budget
        }),
    decreases rrs.len(),
{
    if rrs.len() > 0 {
        let d = Game::director_spec(budget, timer, rrs[0]);
        lemma_spawn_budget(d.0, d.1, rrs.drop_first());
    }
}

/// Removal keeps only whole monsters: every entry of the retained
/// subsequence is one of the originals, so well-formedness carries
/// over.
pub proof fn lemma_actives_upto_wf(ms: Seq<Monster>, n: int)
    requires
        0 <= n <= ms.len(),
        forall|i: int| 0 <= i < ms.len() ==> (#[trigger] ms[i]).wf(),
    ensures
        forall|i: int|
            0 <= i < actives_upto(ms, n).len() ==> (#[trigger] actives_upto(ms, n)[i]).wf(),
        actives_upto(ms, n).len() <= n,
    decreases n,
{
    if n > 0 {
        lemma_actives_upto_wf(ms, n - 1);
    }
}

/// Removes every monster whose active flag has been cleared, keeping
/// the rest in order; returns how many were removed.
pub fn retain_active(monsters: &mut Vec<Monster>) -> (removed: usize)
    ensures
        final(monsters)@ == actives_spec(old(monsters)@),
        old(monsters)@.len() == final(monsters)@.len() + removed,
{
    let ghost ms0 = monsters@;
    let mut kept: Vec<Monster> = Vec::new();
    let mut i: usize = 0;
    while i < monsters.len()
        invariant
            i <= ms0.len(),
            monsters@ == ms0,
            kept@ == actives_upto(ms0, i as int),
            kept@.len() <= i,
        decreases ms0.len() - i,
    {
        let m = monsters[i];
        if m.is_active() {
            kept.push(m);
        }
        i = i + 1;
    }
    let removed = monsters.len() - kept.len();
    *monsters = kept;
    removed
}

} // verus!
