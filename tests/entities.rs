use colorbubble::bubble::{Bubble, POP_PARTICLES};
use colorbubble::color::{hue_color, Color};
use colorbubble::fixed::{IVec2, UVec2, Vec2, UNIT};
use colorbubble::level::Level;
use colorbubble::player::{
    Intent, KeyCode, KeyEvent, Player, BUBBLE_SPAWN_SPEED, DEATH_PARTICLES, JUMP_Y, PLAYER_GRAVITY, SPEED_X,
};
use colorbubble::portal::{Portal, PORTAL_COUNTDOWN};
use colorbubble::splash::{cosine, sine, Splash, MAX_AGE};
use std::io::Cursor;
use std::sync::Arc;

const SOLID: [u8; 4] = [255, 255, 255, 255];
const ENTRY: [u8; 4] = [0, 99, 0, 255];

/// A `w` by `h` level; `solid` lists level pixels (y from the bottom).
fn level_with(w: u32, h: u32, solid: &[(u32, u32)], entry: Option<(u32, u32)>) -> Arc<Level> {
    let mut img = image::RgbaImage::new(w, h);
    for &(x, y) in solid {
        img.put_pixel(x, h - 1 - y, image::Rgba(SOLID));
    }
    if let Some((x, y)) = entry {
        img.put_pixel(x, h - 1 - y, image::Rgba(ENTRY));
    }
    let mut buf = Cursor::new(Vec::new());
    img.write_to(&mut buf, image::ImageFormat::Png).unwrap();
    Level::load_from_binary(&buf.into_inner()).unwrap()
}

fn red() -> Color {
    Color { r: 255, g: 0, b: 0, a: 255 }
}

#[test]
fn fixed_point_rounds_toward_zero() {
    assert_eq!(Vec2 { x: -500, y: 1500 }.to_pixel(), IVec2 { x: 0, y: 1 });
    assert_eq!(Vec2 { x: -1500, y: -1 }.to_pixel(), IVec2 { x: -1, y: 0 });
    assert_eq!(Vec2 { x: -7, y: 7 }.scale(4, 5), Vec2 { x: -5, y: 5 });
    assert_eq!(Vec2 { x: i64::MAX, y: i64::MIN }.add(Vec2 { x: 1, y: -1 }), Vec2 { x: i64::MAX, y: i64::MIN });
    assert_eq!(Vec2::from_pixel(UVec2 { x: 3, y: 4 }), Vec2 { x: 3000, y: 4000 });
}

#[test]
fn hue_colors_of_the_wheel() {
    assert_eq!(hue_color(0), Color { r: 255, g: 0, b: 0, a: 255 });
    assert_eq!(hue_color(50), Color { r: 0, g: 255, b: 255, a: 255 });
    assert_eq!(hue_color(10), Color { r: 255, g: 153, b: 0, a: 255 });
    assert_eq!(hue_color(99), Color { r: 255, g: 0, b: 16, a: 255 });
}

#[test]
fn sine_and_cosine_values() {
    assert_eq!(sine(0), 0);
    assert_eq!(sine(30_000), 500);
    assert_eq!(sine(90_000), 1000);
    assert_eq!(sine(180_000), 0);
    assert_eq!(sine(270_000), -1000);
    assert_eq!(cosine(0), 1000);
    assert_eq!(cosine(180_000), -1000);
    assert_eq!(cosine(60_000), 500);
}

#[test]
fn spawn_many_spreads_velocities_evenly() {
    let mut parts = vec![Splash { pos: Vec2 { x: 1, y: 1 }, vel: Vec2 { x: 0, y: 0 }, color: red(), age: 7 }];
    let pos = Vec2 { x: 5000, y: 6000 };
    Splash::spawn_many(&mut parts, pos, 2000, red(), 4);
    assert_eq!(parts.len(), 5);
    assert_eq!(parts[0].age, 7);
    let vels: Vec<Vec2> = parts[1..].iter().map(|p| p.vel).collect();
    assert_eq!(
        vels,
        vec![Vec2 { x: 2000, y: 0 }, Vec2 { x: 0, y: 2000 }, Vec2 { x: -2000, y: 0 }, Vec2 { x: 0, y: -2000 }]
    );
    for p in &parts[1..] {
        assert_eq!(p.pos, pos);
        assert_eq!(p.age, 0);
        assert_eq!(p.color, red());
    }
}

#[test]
fn splash_falls_and_ages() {
    let level = level_with(10, 10, &[], None);
    let mut s = Splash { pos: Vec2 { x: 5000, y: 5000 }, vel: Vec2 { x: 100, y: 0 }, color: red(), age: 0 };
    assert!(!s.update(&level));
    assert_eq!(s.vel, Vec2 { x: 100, y: -250 });
    assert_eq!(s.pos, Vec2 { x: 5100, y: 4750 });
    assert_eq!(s.age, 1);
}

#[test]
fn splash_dies_on_solid_pixel() {
    let level = level_with(10, 10, &[(5, 3)], None);
    let mut s = Splash { pos: Vec2 { x: 5000, y: 5000 }, vel: Vec2 { x: 0, y: -900 }, color: red(), age: 0 };
    assert!(s.update(&level));
}

#[test]
fn splash_dies_when_age_passes_maximum() {
    let level = level_with(10, 10, &[], None);
    let mut s = Splash { pos: Vec2 { x: 5000, y: 9000 }, vel: Vec2 { x: 0, y: 0 }, color: red(), age: MAX_AGE - 1 };
    assert!(!s.update(&level));
    assert_eq!(s.age, MAX_AGE);
    assert!(s.update(&level));
    assert_eq!(s.age, MAX_AGE + 1);
}

#[test]
fn bubble_pop_twice_adds_no_more_particles() {
    let mut b = Bubble { pos: Vec2 { x: 1000, y: 2000 }, vel: Vec2 { x: 0, y: 0 }, color: red(), dead: false };
    let mut parts = Vec::new();
    b.pop(&mut parts);
    assert!(b.dead);
    assert_eq!(parts.len(), POP_PARTICLES as usize);
    b.pop(&mut parts);
    assert!(b.dead);
    assert_eq!(parts.len(), POP_PARTICLES as usize);
}

#[test]
fn bubble_falls_with_damping() {
    let level = level_with(10, 10, &[], None);
    let mut b = Bubble { pos: Vec2 { x: 5000, y: 5000 }, vel: Vec2 { x: 1000, y: 0 }, color: red(), dead: false };
    let mut parts = Vec::new();
    b.update(&level, &mut parts);
    assert_eq!(b.vel, Vec2 { x: 950, y: -100 });
    assert_eq!(b.pos, Vec2 { x: 5950, y: 4900 });
    assert!(!b.dead);
    assert!(parts.is_empty());
}

#[test]
fn bubble_over_solid_ground_pops_in_place() {
    // Solid ground fills every row y <= 99, directly below the bubble at
    // (100, 100); one tick of gravity takes it into pixel (100, 99).
    let ground: Vec<(u32, u32)> = (0..200).flat_map(|x| (0..100).map(move |y| (x, y))).collect();
    let level = level_with(200, 200, &ground, None);
    let start = Vec2 { x: 100 * UNIT, y: 100 * UNIT };
    let mut b = Bubble { pos: start, vel: Vec2 { x: 0, y: 0 }, color: red(), dead: false };
    let mut parts = Vec::new();
    b.update(&level, &mut parts);
    assert!(b.dead);
    assert_eq!(b.pos, start);
    assert_eq!(parts.len(), POP_PARTICLES as usize);
    for p in &parts {
        assert_eq!(p.pos, start);
        assert_eq!(p.age, 0);
        assert_eq!(p.color, red());
    }
    // Ten directions a tenth of a turn apart, one pixel per tick.
    assert_eq!(parts[0].vel, Vec2 { x: 1000, y: 0 });
    assert_eq!(parts[5].vel, Vec2 { x: -1000, y: 0 });
    for i in 0..10 {
        let (a, b) = (parts[i].vel, parts[(i + 5) % 10].vel);
        assert_eq!((a.x, a.y), (-b.x, -b.y));
    }
}

#[test]
fn key_events_set_intents() {
    let mut p = Player::new(Vec2 { x: 0, y: 0 });
    p.handle_key_event(&KeyEvent { key: KeyCode::KeyD, pressed: true });
    assert!(p.right_pressed && p.pointed_right);
    p.handle_key_event(&KeyEvent { key: KeyCode::KeyD, pressed: false });
    assert!(!p.right_pressed && p.pointed_right);
    p.handle_key_event(&KeyEvent { key: KeyCode::KeyA, pressed: true });
    assert!(p.left_pressed && !p.pointed_right);
    p.handle_key_event(&KeyEvent { key: KeyCode::Space, pressed: true });
    assert!(p.jump.pressed);
    p.handle_key_event(&KeyEvent { key: KeyCode::KeyQ, pressed: true });
    assert!(p.bubble_spawn.pressed);
    p.handle_key_event(&KeyEvent { key: KeyCode::ShiftLeft, pressed: false });
    assert!(!p.bubble_spawn.pressed);
    let before = p;
    p.handle_key_event(&KeyEvent { key: KeyCode::Other, pressed: true });
    p.handle_key_event(&KeyEvent { key: KeyCode::Escape, pressed: true });
    assert_eq!(p, before);
}

/// A 20 by 30 level with a solid floor at y = 0; the player rests on it.
fn grounded_player() -> (Arc<Level>, Player) {
    let floor: Vec<(u32, u32)> = (0..20).map(|x| (x, 0)).collect();
    let level = level_with(20, 30, &floor, Some((5, 1)));
    let mut p = Player::new(Vec2 { x: 5000, y: 1500 });
    let mut parts = Vec::new();
    p.update(&level, &mut parts);
    assert!(p.on_ground);
    assert_eq!(p.pos, Vec2 { x: 5000, y: 1500 });
    assert_eq!(p.vel, Vec2 { x: 0, y: 0 });
    assert!(parts.is_empty());
    (level, p)
}

#[test]
fn jump_on_ground_gives_impulse() {
    let (level, mut p) = grounded_player();
    let mut parts = Vec::new();
    p.handle_key_event(&KeyEvent { key: KeyCode::Space, pressed: true });
    p.update(&level, &mut parts);
    assert_eq!(p.vel.y, JUMP_Y + PLAYER_GRAVITY);
    assert_eq!(p.pos.y, 1500 + JUMP_Y + PLAYER_GRAVITY);
    assert!(!p.on_ground);
    assert_eq!(p.jump, Intent { pressed: true, old_pressed: true });
}

#[test]
fn jump_in_air_is_ignored() {
    let level = level_with(20, 30, &[], Some((5, 1)));
    let mut p = Player::new(Vec2 { x: 5000, y: 20000 });
    let mut parts = Vec::new();
    p.update(&level, &mut parts);
    assert!(!p.on_ground);
    let vy = p.vel.y;
    p.handle_key_event(&KeyEvent { key: KeyCode::Space, pressed: true });
    p.update(&level, &mut parts);
    assert_eq!(p.vel.y, vy + PLAYER_GRAVITY);
}

#[test]
fn held_jump_does_not_repeat() {
    let (level, mut p) = grounded_player();
    let mut parts = Vec::new();
    p.jump = Intent { pressed: true, old_pressed: true };
    p.update(&level, &mut parts);
    assert!(p.on_ground);
    assert_eq!(p.vel.y, 0);
}

#[test]
fn horizontal_input_snaps_then_damps() {
    let (level, mut p) = grounded_player();
    let mut parts = Vec::new();
    p.handle_key_event(&KeyEvent { key: KeyCode::KeyD, pressed: true });
    p.update(&level, &mut parts);
    // On the floor the velocity is zeroed, but the new x is kept.
    assert_eq!(p.pos.x, 5000 + SPEED_X);
    p.vel = Vec2 { x: 5000, y: 0 };
    p.handle_key_event(&KeyEvent { key: KeyCode::KeyD, pressed: false });
    p.update(&level, &mut parts);
    assert_eq!(p.pos.x, 5000 + SPEED_X + 4000);
}

#[test]
fn bubble_spawns_on_rising_edge_only() {
    let (level, mut p) = grounded_player();
    let mut parts = Vec::new();
    p.handle_key_event(&KeyEvent { key: KeyCode::KeyE, pressed: true });
    let pos = p.pos;
    let hue = p.hsv_hue;
    let b = p.update(&level, &mut parts).unwrap();
    assert_eq!(b.pos, pos);
    assert_eq!(b.vel, Vec2 { x: -BUBBLE_SPAWN_SPEED, y: 0 });
    assert_eq!(b.color, hue_color(hue + 1));
    assert!(!b.dead);
    assert!(p.update(&level, &mut parts).is_none());
    p.handle_key_event(&KeyEvent { key: KeyCode::KeyE, pressed: false });
    assert!(p.update(&level, &mut parts).is_none());
    p.handle_key_event(&KeyEvent { key: KeyCode::KeyD, pressed: true });
    p.handle_key_event(&KeyEvent { key: KeyCode::KeyE, pressed: true });
    let b = p.update(&level, &mut parts).unwrap();
    assert_eq!(b.vel, Vec2 { x: BUBBLE_SPAWN_SPEED, y: 0 });
}

#[test]
fn hue_advances_and_wraps() {
    let (level, mut p) = grounded_player();
    let mut parts = Vec::new();
    p.hsv_hue = 98;
    p.update(&level, &mut parts);
    assert_eq!(p.hsv_hue, 99);
    p.update(&level, &mut parts);
    assert_eq!(p.hsv_hue, 0);
    assert_eq!(p.color(), Color { r: 255, g: 0, b: 0, a: 255 });
}

#[test]
fn falling_out_of_the_level_respawns_with_burst() {
    let level = level_with(20, 30, &[], Some((7, 3)));
    let mut p = Player::new(Vec2 { x: 5000, y: 500 });
    let mut parts = Vec::new();
    p.update(&level, &mut parts);
    assert_eq!(p.pos, Vec2 { x: 7000, y: 3000 });
    assert_eq!(p.vel, Vec2 { x: 0, y: 0 });
    assert_eq!(parts.len(), DEATH_PARTICLES as usize);
    // The burst starts where the player fell to.
    assert_eq!(parts[0].pos, Vec2 { x: 5000, y: 500 - 2100 });
    assert_eq!(parts[0].vel, Vec2 { x: 2000, y: 0 });
}

#[test]
fn portal_triggers_and_counts_down_once() {
    let mut portal = Portal::new(Vec2 { x: 10_000, y: 10_000 });
    let mut player = Player::new(Vec2 { x: 30_000, y: 10_000 });
    portal.update(&mut player);
    assert_eq!(portal.tick, None);
    assert!(!player.hidden);
    assert_eq!(portal.glow(), 0);
    player.pos = Vec2 { x: 10_000 + 14_999, y: 10_000 };
    portal.update(&mut player);
    assert!(player.hidden);
    assert_eq!(portal.tick, Some(PORTAL_COUNTDOWN));
    assert_eq!(portal.glow(), 6000);
    for _ in 0..PORTAL_COUNTDOWN - 1 {
        portal.update(&mut player);
        assert!(!portal.jump_to_next_level());
    }
    portal.update(&mut player);
    assert!(portal.jump_to_next_level());
    for _ in 0..5 {
        portal.update(&mut player);
        assert!(portal.jump_to_next_level());
        assert_eq!(portal.tick, Some(0));
    }
}

#[test]
fn portal_ignores_player_at_radius() {
    let mut portal = Portal::new(Vec2 { x: 0, y: 0 });
    let mut player = Player::new(Vec2 { x: 9_000, y: 12_000 });
    portal.update(&mut player);
    assert_eq!(portal.tick, None);
    player.pos = Vec2 { x: 9_000, y: 11_999 };
    portal.update(&mut player);
    assert_eq!(portal.tick, Some(PORTAL_COUNTDOWN));
}
