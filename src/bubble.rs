//! Bubbles: the player's projectile. A bubble flies and falls until it meets solid
//! ground, then pops into a burst of splashes.
use crate::color::Color;
use crate::fixed::{add_spec, scale_spec, to_pixel_spec, Vec2, UNIT};
use crate::level::Level;
use crate::splash::{burst, Splash};
use vstd::prelude::*;

verus! {

/// Downward pull on a bubble per tick, in sub-pixel steps.
pub const BUBBLE_GRAVITY: i64 = -100;

/// A bubble keeps `BUBBLE_DAMP_NUM / BUBBLE_DAMP_DEN` of its velocity each tick.
pub const BUBBLE_DAMP_NUM: i64 = 95;

pub const BUBBLE_DAMP_DEN: i64 = 100;

/// Particles in the burst of a popped bubble.
pub const POP_PARTICLES: u32 = 10;

/// Speed of the particles of a popped bubble: one pixel per tick.
pub const POP_SPEED: i64 = UNIT;

#[derive(Clone, Copy, Debug, PartialEq, Eq, Structural)]
pub struct Bubble {
    pub pos: Vec2,
    pub vel: Vec2,
    pub color: Color,
    pub dead: bool,
}

/// Popping: a live bubble dies and leaves a burst at its position; a dead one
/// changes nothing.
pub open spec fn pop_spec(b: Bubble, parts: Seq<Splash>) -> (Bubble, Seq<Splash>) {
    if b.dead {
        (b, parts)
    } else {
        (Bubble { dead: true, ..b }, parts + burst(b.pos, POP_SPEED, b.color, POP_PARTICLES as nat))
    }
}

/// A bubble one tick later: damped, pulled down, and popped where it would
/// enter a solid pixel.
pub open spec fn bubble_step(level: Level, b: Bubble, parts: Seq<Splash>) -> (Bubble, Seq<Splash>) {
    let vel = add_spec(
        scale_spec(b.vel, BUBBLE_DAMP_NUM, BUBBLE_DAMP_DEN),
        Vec2 { x: 0, y: BUBBLE_GRAVITY },
    );
    let new_pos = add_spec(b.pos, vel);
    if level.hit_spec(to_pixel_spec(new_pos)) {
        pop_spec(Bubble { vel, ..b }, parts)
    } else {
        (Bubble { pos: new_pos, vel, ..b }, parts)
    }
}

/// Popping twice is popping once: the second pop adds no particle.
pub proof fn lemma_pop_idempotent(b: Bubble, parts: Seq<Splash>)
    ensures
        pop_spec(pop_spec(b, parts).0, pop_spec(b, parts).1) == pop_spec(b, parts),
        pop_spec(b, parts).0.dead,
{
}

impl Bubble {
    /// Moves the bubble one tick; it pops instead of entering a solid pixel.
    pub fn update(&mut self, level: &Level, particles: &mut Vec<Splash>)
        ensures
            (*final(self), final(particles)@) == bubble_step(*level, *old(self), old(particles)@),
    {
        self.vel = self.vel.scale(BUBBLE_DAMP_NUM, BUBBLE_DAMP_DEN).add(Vec2 { x: 0, y: BUBBLE_GRAVITY });
        let new_pos = self.pos.add(self.vel);
        if level.is_hit(new_pos.to_pixel()) {
            self.pop(particles);
        } else {
            self.pos = new_pos;
        }
    }

    /// Pops the bubble: it dies, and a burst of splashes appears at its
    /// position. Popping a dead bubble does nothing.
    pub fn pop(&mut self, particles: &mut Vec<Splash>)
        ensures
            (*final(self), final(particles)@) == pop_spec(*old(self), old(particles)@),
            old(self).dead ==> *final(self) == *old(self) && final(particles)@ == old(particles)@,
            final(self).dead,
    {
        if self.dead {
            return;
        }
        Splash::spawn_many(particles, self.pos, POP_SPEED, self.color, POP_PARTICLES);
        self.dead = true;
    }
}

} // verus!
