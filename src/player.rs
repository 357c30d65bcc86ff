//! The player: keyboard intents, movement against the collision oracle, bubble
//! spawning, and respawn after touching a hazard.
use crate::bubble::Bubble;
use crate::color::{hue_color, hue_color_spec, Color, HUE_STEPS};
use crate::fixed::{add_spec, from_pixel_spec, scale_spec, to_pixel_spec, Vec2, UNIT};
use crate::level::Level;
use crate::splash::{burst, Splash};
use vstd::prelude::*;

verus! {

/// Downward pull on the player per tick, in sub-pixel steps.
pub const PLAYER_GRAVITY: i64 = -1100;

/// Horizontal speed while a direction is held.
pub const SPEED_X: i64 = 5500;

/// Vertical speed given by a jump.
pub const JUMP_Y: i64 = 18000;

/// Horizontal velocity kept per tick with no direction held:
/// `DAMP_X_NUM / DAMP_X_DEN`.
pub const DAMP_X_NUM: i64 = 4;

pub const DAMP_X_DEN: i64 = 5;

/// Vertical velocity kept per tick: `DAMP_Y_NUM / DAMP_Y_DEN`.
pub const DAMP_Y_NUM: i64 = 1;

pub const DAMP_Y_DEN: i64 = 1;

/// Horizontal speed of a new bubble.
pub const BUBBLE_SPAWN_SPEED: i64 = 10 * UNIT;

/// Particles in the burst when the player dies.
pub const DEATH_PARTICLES: u32 = 25;

/// Speed of the particles when the player dies: two pixels per tick.
pub const DEATH_SPEED: i64 = 2 * UNIT;

/// The keys the game reacts to; every other key is `Other`.
#[derive(Clone, Copy, Debug, PartialEq, Eq, Structural)]
pub enum KeyCode {
    KeyA,
    KeyD,
    Space,
    ShiftLeft,
    ShiftRight,
    KeyE,
    KeyQ,
    Escape,
    Other,
}

/// A key going down (`pressed`) or up.
#[derive(Clone, Copy, Debug, PartialEq, Eq, Structural)]
pub struct KeyEvent {
    pub key: KeyCode,
    pub pressed: bool,
}

/// A held input and its value at the previous tick.
#[derive(Clone, Copy, Debug, PartialEq, Eq, Structural)]
pub struct Intent {
    pub pressed: bool,
    pub old_pressed: bool,
}

impl Intent {
    /// Held now and not at the previous tick.
    pub open spec fn rising_spec(self) -> bool {
        self.pressed && !self.old_pressed
    }

    pub fn rising_edge(&self) -> (r: bool)
        ensures
            r == self.rising_spec(),
    {
        self.pressed && !self.old_pressed
    }

    /// The intent at the next tick: the current value becomes the previous one.
    pub open spec fn shifted(self) -> Intent {
        Intent { pressed: self.pressed, old_pressed: self.pressed }
    }
}

#[derive(Clone, Copy, Debug, PartialEq, Eq, Structural)]
pub struct Player {
    pub pos: Vec2,
    pub vel: Vec2,
    /// Hue in steps of `1 / HUE_STEPS` of a turn.
    pub hsv_hue: u32,
    pub hidden: bool,
    pub on_ground: bool,
    pub left_pressed: bool,
    pub right_pressed: bool,
    pub jump: Intent,
    pub bubble_spawn: Intent,
    /// The last horizontal direction pressed; `false` is left.
    pub pointed_right: bool,
}

pub open spec fn next_hue(h: u32) -> u32 {
    ((h + 1) % (HUE_STEPS as int)) as u32
}

pub open spec fn player_color_spec(p: Player) -> Color {
    hue_color_spec((p.hsv_hue % HUE_STEPS) as u32)
}

/// The player after a key event.
pub open spec fn key_spec(p: Player, e: KeyEvent) -> Player {
    match e.key {
        KeyCode::KeyA => Player {
            left_pressed: e.pressed,
            pointed_right: if e.pressed { false } else { p.pointed_right },
            ..p
        },
        KeyCode::KeyD => Player {
            right_pressed: e.pressed,
            pointed_right: if e.pressed { true } else { p.pointed_right },
            ..p
        },
        KeyCode::Space => Player { jump: Intent { pressed: e.pressed, ..p.jump }, ..p },
        KeyCode::ShiftLeft | KeyCode::ShiftRight | KeyCode::KeyE | KeyCode::KeyQ => Player {
            bubble_spawn: Intent { pressed: e.pressed, ..p.bubble_spawn },
            ..p
        },
        _ => p,
    }
}

/// Velocity after the input, before gravity.
pub open spec fn input_velocity(p: Player) -> Vec2 {
    Vec2 {
        x: if p.left_pressed {
            (-SPEED_X) as i64
        } else if p.right_pressed {
            SPEED_X
        } else {
            scale_spec(p.vel, DAMP_X_NUM, DAMP_X_DEN).x
        },
        y: if p.jump.rising_spec() && p.on_ground {
            JUMP_Y
        } else {
            scale_spec(p.vel, DAMP_Y_NUM, DAMP_Y_DEN).y
        },
    }
}

/// The bubble that a tick spawns: on a rising edge of the spawn intent, at the
/// player's position, moving the way the player points.
pub open spec fn spawned_bubble(p: Player, color: Color) -> Option<Bubble> {
    if p.bubble_spawn.rising_spec() {
        Some(
            Bubble {
                pos: p.pos,
                vel: Vec2 { x: if p.pointed_right { BUBBLE_SPAWN_SPEED } else { (-BUBBLE_SPAWN_SPEED) as i64 }, y: 0 },
                color,
                dead: false,
            },
        )
    } else {
        None
    }
}

/// One tick of the player: the new player, the particles, and the bubble it
/// spawned. On a solid pixel the player stops and keeps the new `x` but not
/// the new `y`; on a hazard it bursts and respawns at the entry point.
pub open spec fn player_step(p: Player, level: Level, parts: Seq<Splash>) -> (Player, Seq<Splash>, Option<Bubble>) {
    let hue = next_hue(p.hsv_hue);
    let color = hue_color_spec(hue);
    let bubble = spawned_bubble(p, color);
    let vel = add_spec(input_velocity(p), Vec2 { x: 0, y: PLAYER_GRAVITY });
    let new_pos = add_spec(p.pos, vel);
    let pixel = to_pixel_spec(new_pos);
    let hit = level.hit_spec(pixel);
    let pos1 = if hit { Vec2 { x: new_pos.x, y: p.pos.y } } else { new_pos };
    let vel1 = if hit { Vec2 { x: 0, y: 0 } } else { vel };
    let dies = level.death_spec(pixel);
    let next = Player {
        pos: if dies { from_pixel_spec(level.entry_point) } else { pos1 },
        vel: if dies { Vec2 { x: 0, y: 0 } } else { vel1 },
        hsv_hue: hue,
        on_ground: hit,
        jump: p.jump.shifted(),
        bubble_spawn: p.bubble_spawn.shifted(),
        ..p
    };
    let parts1 = if dies { parts + burst(pos1, DEATH_SPEED, color, DEATH_PARTICLES as nat) } else { parts };
    (next, parts1, bubble)
}

/// A player at `pos`, falling at one pixel per tick, with no key held.
pub open spec fn fresh_player(pos: Vec2) -> Player {
    Player {
        pos,
        vel: Vec2 { x: 0, y: (-UNIT) as i64 },
        hsv_hue: 0,
        hidden: false,
        on_ground: false,
        left_pressed: false,
        right_pressed: false,
        jump: Intent { pressed: false, old_pressed: false },
        bubble_spawn: Intent { pressed: false, old_pressed: false },
        pointed_right: false,
    }
}

impl Player {
    /// A player at `pos`, falling at one pixel per tick.
    pub fn new(pos: Vec2) -> (r: Player)
        ensures
            r == fresh_player(pos),
    {
        Player {
            pos,
            vel: Vec2 { x: 0, y: -UNIT },
            hsv_hue: 0,
            hidden: false,
            on_ground: false,
            left_pressed: false,
            right_pressed: false,
            jump: Intent { pressed: false, old_pressed: false },
            bubble_spawn: Intent { pressed: false, old_pressed: false },
            pointed_right: false,
        }
    }

    /// The player's colour: its hue at full saturation and value.
    pub fn color(&self) -> (c: Color)
        ensures
            c == player_color_spec(*self),
    {
        hue_color(self.hsv_hue % HUE_STEPS)
    }

    /// Records a key going down or up: A and D hold left and right (and set
    /// the facing), Space holds jump, Shift, E and Q hold bubble spawn. Other
    /// keys are ignored.
    pub fn handle_key_event(&mut self, event: &KeyEvent)
        ensures
            *final(self) == key_spec(*old(self), *event),
    {
        let pressed = event.pressed;
        match event.key {
            KeyCode::KeyA => {
                self.left_pressed = pressed;
                if pressed {
                    self.pointed_right = false;
                }
            },
            KeyCode::KeyD => {
                self.right_pressed = pressed;
                if pressed {
                    self.pointed_right = true;
                }
            },
            KeyCode::Space => {
                self.jump.pressed = pressed;
            },
            KeyCode::ShiftLeft | KeyCode::ShiftRight | KeyCode::KeyE | KeyCode::KeyQ => {
                self.bubble_spawn.pressed = pressed;
            },
            _ => {},
        }
    }

    fn input_velocity(&self) -> (v: Vec2)
        ensures
            v == input_velocity(*self),
    {
        let x = if self.left_pressed {
            -SPEED_X
        } else if self.right_pressed {
            SPEED_X
        } else {
            self.vel.scale(DAMP_X_NUM, DAMP_X_DEN).x
        };
        let y = if self.jump.rising_edge() && self.on_ground {
            JUMP_Y
        } else {
            self.vel.scale(DAMP_Y_NUM, DAMP_Y_DEN).y
        };
        Vec2 { x, y }
    }

    fn spawned_bubble(&self, color: Color) -> (b: Option<Bubble>)
        ensures
            b == spawned_bubble(*self, color),
    {
        if self.bubble_spawn.rising_edge() {
            let vx = if self.pointed_right { BUBBLE_SPAWN_SPEED } else { -BUBBLE_SPAWN_SPEED };
            Some(Bubble { pos: self.pos, vel: Vec2 { x: vx, y: 0 }, color, dead: false })
        } else {
            None
        }
    }

    /// One tick: input, bubble spawn, gravity, collision, hazards. Returns the
    /// bubble spawned this tick, if any.
    pub fn update(&mut self, level: &Level, particles: &mut Vec<Splash>) -> (r: Option<Bubble>)
        ensures
            (*final(self), final(particles)@, r) == player_step(*old(self), *level, old(particles)@),
    {
        let hue = (self.hsv_hue % HUE_STEPS + 1) % HUE_STEPS;
        assert(hue == next_hue(self.hsv_hue));
        let color = hue_color(hue);
        let bubble = self.spawned_bubble(color);
        let vel = self.input_velocity().add(Vec2 { x: 0, y: PLAYER_GRAVITY });
        let new_pos = self.pos.add(vel);
        let pixel = new_pos.to_pixel();
        let hit = level.is_hit(pixel);
        let pos1 = if hit { Vec2 { x: new_pos.x, y: self.pos.y } } else { new_pos };
        let vel1 = if hit { Vec2::zero() } else { vel };
        let dies = level.is_death(pixel);
        if dies {
            Splash::spawn_many(particles, pos1, DEATH_SPEED, color, DEATH_PARTICLES);
        }
        let jump = Intent { pressed: self.jump.pressed, old_pressed: self.jump.pressed };
        let bubble_spawn = Intent {
            pressed: self.bubble_spawn.pressed,
            old_pressed: self.bubble_spawn.pressed,
        };
        self.pos = if dies { Vec2::from_pixel(level.entry_point) } else { pos1 };
        self.vel = if dies { Vec2::zero() } else { vel1 };
        self.hsv_hue = hue;
        self.on_ground = hit;
        self.jump = jump;
        self.bubble_spawn = bubble_spawn;
        bubble
    }
}

} // verus!
