use kokyu::attack::{get_hit_box, get_hit_point, AttackType, SPRITE_WIDTH};
use kokyu::geom::{knockback, Rect, Vec2};
use kokyu::sprite::{AnimatedSprite, AnimationData};
use kokyu::wave::wave;

fn clip() -> AnimationData {
    AnimationData { x: 0, y: 0, w: 64, h: 64, frames: 3, speed: 4, pivot_x: 0, pivot_y: 0 }
}

#[test]
fn hit_points_per_variant() {
    assert_eq!(get_hit_point(&AttackType::Double), 1);
    assert_eq!(get_hit_point(&AttackType::Heavy), 2);
    assert_eq!(get_hit_point(&AttackType::RepeatHeavy), 2);
    assert_eq!(get_hit_point(&AttackType::AttackDash { timer: 10, dir: 1 }), 0);
    assert_eq!(get_hit_point(&AttackType::AttackAirDash { timer: 10, dir: -1 }), 0);
}

#[test]
fn double_attack_hit_windows() {
    for frame in 0..20 {
        let b = get_hit_box(&AttackType::Double, frame, false);
        if (6..=9).contains(&frame) {
            assert_eq!(b, Some(Rect { x: 656, y: 496, w: 256, h: 256 }));
        } else if (13..=15).contains(&frame) {
            assert_eq!(b, Some(Rect { x: 144, y: 496, w: 256, h: 256 }));
        } else {
            assert_eq!(b, None);
        }
    }
}

#[test]
fn heavy_attack_hit_window() {
    assert_eq!(get_hit_box(&AttackType::Heavy, 11, false), None);
    assert_eq!(
        get_hit_box(&AttackType::Heavy, 12, false),
        Some(Rect { x: 544, y: 64, w: 432, h: 704 })
    );
    assert_eq!(
        get_hit_box(&AttackType::RepeatHeavy, 14, false),
        Some(Rect { x: 544, y: 64, w: 432, h: 704 })
    );
    assert_eq!(get_hit_box(&AttackType::Heavy, 15, false), None);
}

#[test]
fn dash_hit_box_every_frame() {
    for frame in 0..20 {
        assert_eq!(
            get_hit_box(&AttackType::AttackDash { timer: 3, dir: 1 }, frame, false),
            Some(Rect { x: 576, y: 512, w: 176, h: 224 })
        );
    }
}

#[test]
fn mirroring_law_examples() {
    // x' = spriteWidth - x - w, with y, w, h unchanged.
    let b = get_hit_box(&AttackType::Heavy, 13, false).unwrap();
    let m = get_hit_box(&AttackType::Heavy, 13, true).unwrap();
    assert_eq!(m.x, SPRITE_WIDTH - b.x - b.w);
    assert_eq!((m.y, m.w, m.h), (b.y, b.w, b.h));

    let b = get_hit_box(&AttackType::Double, 7, false).unwrap();
    let m = get_hit_box(&AttackType::Double, 7, true).unwrap();
    assert_eq!(m.x, SPRITE_WIDTH - b.x - b.w);

    // Frames without a box have none mirrored either.
    assert_eq!(get_hit_box(&AttackType::Double, 5, true), None);
}

#[test]
fn overlap_is_inclusive_of_touching() {
    let a = Rect { x: 0, y: 0, w: 160, h: 160 };
    let touching = Rect { x: 160, y: 0, w: 80, h: 80 };
    let apart = Rect { x: 161, y: 0, w: 80, h: 80 };
    assert!(a.overlaps(&touching));
    assert!(!a.overlaps(&apart));
    assert!(a.overlaps(&a));
}

#[test]
fn animation_advances_once_per_speed_ticks() {
    let mut s = AnimatedSprite::new(&clip());
    assert_eq!(s.current_frame, 0);
    for _ in 0..3 {
        s.animate();
        assert_eq!(s.current_frame, 0);
    }
    s.animate();
    assert_eq!(s.current_frame, 1);
}

#[test]
fn animation_end_is_level_triggered() {
    let mut s = AnimatedSprite::new(&clip());
    // Reach the last frame (frame 2 of 3), then stay on it a while.
    for _ in 0..8 {
        s.animate();
    }
    assert_eq!(s.current_frame, 2);
    assert!(s.is_animation_ended());
    s.animate();
    // Still within the last frame's span: the query keeps reporting true.
    assert!(s.is_animation_ended());
}

#[test]
fn set_animation_keeps_frame_until_play() {
    let mut s = AnimatedSprite::new(&clip());
    for _ in 0..4 {
        s.animate();
    }
    assert_eq!(s.current_frame, 1);
    let other = AnimationData { x: 64, y: 0, w: 64, h: 64, frames: 5, speed: 2, pivot_x: 0, pivot_y: 0 };
    s.set_animation(&other);
    assert_eq!(s.current_frame, 1);
    assert_eq!(s.frames, 5);
    s.play();
    assert_eq!(s.current_frame, 0);
}

#[test]
fn wave_hits_its_landmarks() {
    assert_eq!(wave(0), 0);
    assert_eq!(wave(157), 240);
    assert_eq!(wave(314 + 157), -240);
    for dt in 0..628 {
        assert!(wave(dt).abs() <= 240);
    }
}

#[test]
fn knockback_points_away_with_fixed_magnitude() {
    let v = Vec2 { x: 7, y: 9 };
    // Enemy straight to the right: pushed straight left.
    assert_eq!(knockback(100, 0, v), Vec2 { x: -128, y: 0 });
    // Enemy below-right at a 3-4-5 angle: components scale by 3/5 and 4/5.
    assert_eq!(knockback(300, 400, v), Vec2 { x: -76, y: -102 });
    // Coincident positions leave the velocity alone.
    assert_eq!(knockback(0, 0, v), v);
}
