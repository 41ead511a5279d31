use kokyu::attack::AttackType;
use kokyu::controls::InputSnapshot;
use kokyu::game::{Game, GameState, TransitionName, MAX_MONSTERS};
use kokyu::geom::{Rect, Vec2};
use kokyu::hero::{hero_animation, Hero, State};
use kokyu::monster::{Monster, MonsterState};

fn neutral() -> InputSnapshot {
    InputSnapshot::neutral()
}

fn attack1() -> InputSnapshot {
    InputSnapshot { x_axis: 0, jump: false, attack: true, heavy: false }
}

/// A grounded hero whose heavy swing is mid-window, its hitbox over a
/// monster placed at the origin.
fn hero_swinging_heavy() -> Hero {
    let mut h = Hero::new(0, 0, 20);
    h.on_the_floor = true;
    h.attack = Some(AttackType::Heavy);
    h.state = State::AttackOne;
    h.sprite.set_animation(&hero_animation(State::AttackOne));
    h.sprite.play();
    h.sprite.set_frame(12);
    h
}

fn idle_monster_at(x: i32, y: i32) -> Monster {
    let mut m = Monster::new(x, y);
    m.state = MonsterState::Idle;
    m.hitable = true;
    m
}

/// Runs the monster's own ticks (with the frame advance the renderer
/// would add) until its current animation reports finished, plus the
/// tick that reacts to it.
fn run_monster_through_clip(m: &mut Monster, hero_pos: Vec2) {
    for _ in 0..200 {
        m.update(hero_pos);
        m.sprite.animate();
        if m.sprite.current_frame == m.sprite.frames - 1 {
            m.update(hero_pos);
            return;
        }
    }
    panic!("clip never finished");
}

#[test]
fn heavy_hits_drive_monster_to_death_and_removal() {
    let hero_pos = Vec2 { x: 0, y: 0 };
    let mut h = hero_swinging_heavy();
    let mut monsters = vec![idle_monster_at(0, 0)];

    // First strike window: one registered 2-damage hit.
    h.resolve_combat(&mut monsters);
    assert_eq!(monsters[0].health, 1);
    assert!(!monsters[0].is_hitable());

    // A second overlap in the same window does nothing: not eligible.
    h.resolve_combat(&mut monsters);
    assert_eq!(monsters[0].health, 1);

    // The hit reaction plays out and the monster is eligible again.
    let mut m = monsters[0];
    m.update(hero_pos);
    assert_eq!(m.state, MonsterState::Hit);
    run_monster_through_clip(&mut m, hero_pos);
    assert_eq!(m.state, MonsterState::Idle);
    assert!(m.is_hitable());
    monsters[0] = m;

    // Second strike window: health drops to -1, at or below zero.
    h.resolve_combat(&mut monsters);
    assert_eq!(monsters[0].health, -1);
    let mut m = monsters[0];
    m.update(hero_pos);
    assert_eq!(m.state, MonsterState::Hit);

    // When this hit reaction finishes, the monster is dead.
    run_monster_through_clip(&mut m, hero_pos);
    assert_eq!(m.state, MonsterState::Dead);
    assert!(!m.is_hitable());
    assert!(m.is_active());

    // A further strike window finds nothing to hit.
    monsters[0] = m;
    h.resolve_combat(&mut monsters);
    assert_eq!(monsters[0].health, -1);

    // Once the death clip finishes, the active flag clears for good.
    let mut m = monsters[0];
    run_monster_through_clip(&mut m, hero_pos);
    assert!(!m.is_active());
    for _ in 0..50 {
        m.update(hero_pos);
        m.sprite.animate();
        assert!(!m.is_active());
    }
}

#[test]
fn light_attack_holds_ground_and_exits_once() {
    let colliders: Vec<Rect> = Vec::new();
    let mut monsters: Vec<Monster> = Vec::new();
    let mut h = Hero::new(0, 0, 20);
    h.on_the_floor = true;

    // Pressing attack-1 while idle and still arms the double slash.
    h.update(&mut monsters, &colliders, &attack1());
    assert_eq!(h.attack, Some(AttackType::Double));
    // Next tick the state machine enters the attack state.
    h.update(&mut monsters, &colliders, &neutral());
    assert_eq!(h.state, State::AttackDouble);

    let mut ticks_in_attack = 0;
    for tick in 0..200 {
        // Re-pressing attack-1 mid-animation must not re-enter or
        // re-arm anything.
        let input = if tick % 7 == 0 { attack1() } else { neutral() };
        h.update(&mut monsters, &colliders, &input);
        if h.state != State::AttackDouble {
            break;
        }
        assert_eq!(h.attack, Some(AttackType::Double));
        assert_eq!(h.velocity.x, 0);
        ticks_in_attack += 1;
        h.sprite.animate();
    }
    assert_eq!(h.state, State::Idle);
    assert_eq!(h.attack, None);
    // 19 frames at speed 2 minus the frames already consumed entering.
    assert!(ticks_in_attack > 30, "attack ended after {ticks_in_attack} ticks");
}

#[test]
fn ground_dash_counts_down_to_idle() {
    let colliders: Vec<Rect> = Vec::new();
    let mut monsters: Vec<Monster> = Vec::new();
    let mut h = Hero::new(0, 0, 20);
    h.on_the_floor = true;
    h.state = State::Dash;
    h.attack = Some(AttackType::AttackDash { timer: 10, dir: 1 });

    for k in 1..10 {
        h.update(&mut monsters, &colliders, &neutral());
        assert_eq!(h.state, State::Dash, "tick {k}");
        assert_eq!(h.attack, Some(AttackType::AttackDash { timer: 10 - k, dir: 1 }));
        assert_eq!(h.velocity.x, 96);
    }
    // Tick 10, neither earlier nor later: the dash is over.
    h.update(&mut monsters, &colliders, &neutral());
    assert_eq!(h.state, State::Idle);
    assert_eq!(h.attack, None);
}

#[test]
fn attack_channel_preempts_body_channel() {
    let mut h = hero_swinging_heavy();
    let v_before = h.velocity;
    // The monster overlaps both the heavy hitbox and the hero's body.
    let mut monsters = vec![idle_monster_at(0, 0)];

    h.resolve_combat(&mut monsters);
    // The enemy took damage on the attack channel...
    assert_eq!(monsters[0].health, 1);
    // ...and the body channel never fired against the player.
    assert!(!h.hited);
    assert_eq!(h.velocity, v_before);

    // With no descriptor the body channel fires instead.
    let mut h2 = Hero::new(0, 0, 20);
    h2.on_the_floor = true;
    let mut monsters2 = vec![idle_monster_at(64, 0)];
    h2.resolve_combat(&mut monsters2);
    assert!(h2.hited);
    assert_ne!(h2.velocity, Vec2 { x: 0, y: 0 });
    // And the monster is untouched on that channel.
    assert_eq!(monsters2[0].health, 3);
    assert!(monsters2[0].is_hitable());
}

#[test]
fn collision_resolution_is_axis_separated() {
    // A floor slab under the hero and a wall to its right; the hero
    // moves diagonally down-right into the corner.
    let colliders = vec![
        Rect { x: -2000, y: 800, w: 8000, h: 256 },
        Rect { x: 700, y: -2000, w: 256, h: 4000 },
    ];
    let mut monsters: Vec<Monster> = Vec::new();
    let mut h = Hero::new(0, 0, 20);
    h.velocity = Vec2 { x: 200, y: 100 };
    // Keep control from overriding the horizontal velocity this tick.
    h.state = State::Hit;

    h.update(&mut monsters, &colliders, &neutral());
    // Vertical overlap zeroed the fall and grounded the hero; the
    // horizontal overlap with the other collider zeroed the advance
    // independently.
    assert_eq!(h.velocity, Vec2 { x: 0, y: 0 });
    assert!(h.on_the_floor);
}

#[test]
fn player_health_never_rises_and_bottoms_at_zero() {
    let colliders: Vec<Rect> = Vec::new();
    let mut monsters: Vec<Monster> = Vec::new();
    let mut h = Hero::new(0, 0, 1);
    h.on_the_floor = true;
    let mut last = h.get_health();
    assert_eq!(last, 60);
    for _ in 0..200 {
        h.update(&mut monsters, &colliders, &neutral());
        h.sprite.animate();
        let now = h.get_health();
        assert!(now <= last);
        assert!(now >= 0);
        last = now;
    }
    assert_eq!(h.get_health(), 0);
    // Exhausted health on the ground ran the dying clip into the
    // terminal dead state.
    assert!(h.is_dead());
    for _ in 0..50 {
        h.update(&mut monsters, &colliders, &neutral());
        h.sprite.animate();
        assert!(h.is_dead());
    }
}

#[test]
fn director_spawns_exactly_its_budget() {
    let mut g = Game::new();
    g.state = GameState::Game;
    for _ in 0..2000 {
        g.update(&neutral());
        g.tick_animations();
    }
    assert_eq!(g.max_monsters, 0);
    assert_eq!(g.monsters.len(), MAX_MONSTERS as usize);
    // The timer keeps striking; the budget never spawns a sixth.
    for _ in 0..500 {
        g.update(&neutral());
        g.tick_animations();
        assert_eq!(g.monsters.len(), MAX_MONSTERS as usize);
    }
    // Every spawn landed in the level's horizontal band, at the fixed
    // height give or take the wander bob.
    for m in g.monsters.iter() {
        assert!((800..6080).contains(&m.position.x));
        assert!((m.position.y - 832).abs() <= 240);
    }
}

#[test]
fn intro_fade_gates_the_round() {
    let mut g = Game::new();
    assert_eq!(g.state, GameState::Intro);
    // The fade-in runs down to zero and stays on the intro.
    for _ in 0..150 {
        g.update(&neutral());
    }
    assert_eq!(g.state, GameState::Intro);
    assert_eq!(g.transition_alpha, 0);
    // The start key begins the fade-out...
    let start = InputSnapshot { x_axis: 0, jump: true, attack: false, heavy: false };
    g.update(&start);
    assert_eq!(g.transition, TransitionName::FadeOut);
    // ...and once it completes, the round goes live.
    for _ in 0..150 {
        g.update(&neutral());
    }
    assert_eq!(g.state, GameState::Game);
    assert_eq!(g.transition, TransitionName::FadeIn);
}

#[test]
fn hit_override_destroys_attack_descriptor() {
    // A pre-empted attack is destroyed, never resumed: forcing the
    // struck flag while a descriptor is live leaves the hit state
    // with no descriptor, and the recovery returns to idle unarmed.
    let mut h = hero_swinging_heavy();
    h.hited = true;
    h.state_manager();
    assert_eq!(h.state, State::Hit);
    assert_eq!(h.attack, None);
}

#[test]
fn axis_is_right_minus_left() {
    assert_eq!(kokyu::controls::x_axis_from_keys(false, false), 0);
    assert_eq!(kokyu::controls::x_axis_from_keys(true, false), -1);
    assert_eq!(kokyu::controls::x_axis_from_keys(false, true), 1);
    assert_eq!(kokyu::controls::x_axis_from_keys(true, true), 0);
}

#[test]
fn monster_inactive_flag_is_one_way() {
    let hero_pos = Vec2 { x: 500, y: 0 };
    let mut m = Monster::new(1000, 832);
    m.state = MonsterState::Dead;
    m.sprite.set_frame(m.sprite.frames - 1);
    m.update(hero_pos);
    assert!(!m.is_active());
    for _ in 0..300 {
        m.update(hero_pos);
        m.sprite.animate();
        assert!(!m.is_active());
    }
}
