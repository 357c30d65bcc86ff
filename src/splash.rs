//! Splash particles: spawned in radial bursts, they fall, age, and die on
//! solid ground or of old age.
use crate::color::Color;
use crate::fixed::{add_spec, sat, scale_spec, to_pixel_spec, trunc_div, Vec2, sat_i128, trunc_div_i128};
use crate::level::Level;
use vstd::prelude::*;

verus! {

/// Downward pull on a splash per tick, in sub-pixel steps.
pub const SPLASH_GRAVITY: i64 = -250;

/// A splash dies once its age passes this many ticks.
pub const MAX_AGE: u32 = 100;

/// A full turn in thousandths of a degree.
pub const FULL_TURN: i64 = 360_000;

/// Half a turn in thousandths of a degree.
pub const HALF_TURN: i64 = 180_000;

/// The scale of `sine` and `cosine`: a unit vector has length `TRIG_ONE`.
pub const TRIG_ONE: i64 = 1000;

#[derive(Clone, Copy, Debug, PartialEq, Eq, Structural)]
pub struct Splash {
    pub pos: Vec2,
    pub vel: Vec2,
    pub color: Color,
    pub age: u32,
}

/// Sine on `[0, HALF_TURN]`, in thousandths, after Bhaskara's rational
/// approximation `4x(180 - x) / (40500 - x(180 - x))` with `x` in degrees.
pub open spec fn half_sine(x: int) -> int {
    let p = x * (HALF_TURN - x);
    (4 * TRIG_ONE * p) / (40_500_000_000 - p)
}

/// Sine of an angle in `[0, FULL_TURN)`, in thousandths.
pub open spec fn sine_spec(a: int) -> int {
    if a <= HALF_TURN {
        half_sine(a)
    } else {
        -half_sine(a - HALF_TURN)
    }
}

/// Cosine of an angle in `[0, FULL_TURN)`, in thousandths.
pub open spec fn cosine_spec(a: int) -> int {
    sine_spec((a + FULL_TURN / 4) % (FULL_TURN as int))
}

/// The direction of particle `i` of a burst of `n`: `i / n` of a full turn.
pub open spec fn burst_angle(i: int, n: int) -> int {
    i * FULL_TURN / n
}

/// The velocity of particle `i` of a burst of `n` at the given speed.
pub open spec fn burst_velocity(speed: i64, i: int, n: int) -> Vec2 {
    let a = burst_angle(i, n);
    Vec2 {
        x: sat(trunc_div(speed * cosine_spec(a), TRIG_ONE as int)) as i64,
        y: sat(trunc_div(speed * sine_spec(a), TRIG_ONE as int)) as i64,
    }
}

/// `n` particles at `pos`, of age 0, whose velocities turn through evenly
/// spaced angles.
pub open spec fn burst(pos: Vec2, speed: i64, color: Color, n: nat) -> Seq<Splash> {
    Seq::new(n, |i: int| Splash { pos, vel: burst_velocity(speed, i, n as int), color, age: 0 })
}

/// A splash one tick later.
pub open spec fn splash_step(s: Splash) -> Splash {
    let vel = add_spec(scale_spec(s.vel, 1, 1), Vec2 { x: 0, y: SPLASH_GRAVITY });
    Splash {
        pos: add_spec(s.pos, vel),
        vel,
        color: s.color,
        age: if s.age < u32::MAX { (s.age + 1) as u32 } else { s.age },
    }
}

/// A splash in this state is removed: it sits on a solid pixel or is too old.
pub open spec fn splash_dies(level: Level, s: Splash) -> bool {
    level.hit_spec(to_pixel_spec(s.pos)) || s.age > MAX_AGE
}

proof fn lemma_half_sine_bound(x: int)
    requires
        0 <= x <= HALF_TURN,
    ensures
        0 <= half_sine(x) <= TRIG_ONE,
{
    let p = x * (HALF_TURN - x);
    assert(0 <= p <= 8_100_000_000) by (nonlinear_arith)
        requires p == x * (180_000 - x), 0 <= x <= 180_000;
    let d = 40_500_000_000 - p;
    assert((4000 * p) / d <= 1000) by (nonlinear_arith)
        requires 0 <= p <= 8_100_000_000, d == 40_500_000_000 - p;
    assert((4000 * p) / d >= 0) by (nonlinear_arith)
        requires 0 <= p <= 8_100_000_000, d == 40_500_000_000 - p;
}

proof fn lemma_sine_bound(a: int)
    requires
        0 <= a < FULL_TURN,
    ensures
        -TRIG_ONE <= sine_spec(a) <= TRIG_ONE,
        -TRIG_ONE <= cosine_spec(a) <= TRIG_ONE,
{
    if a <= HALF_TURN {
        lemma_half_sine_bound(a);
    } else {
        lemma_half_sine_bound(a - HALF_TURN);
    }
    let c = (a + FULL_TURN / 4) % (FULL_TURN as int);
    if c <= HALF_TURN {
        lemma_half_sine_bound(c);
    } else {
        lemma_half_sine_bound(c - HALF_TURN);
    }
}

fn half_sine_exec(x: i64) -> (r: i64)
    requires
        0 <= x <= HALF_TURN,
    ensures
        r == half_sine(x as int),
{
    proof {
        lemma_half_sine_bound(x as int);
        assert(0 <= x * (HALF_TURN - x) <= 8_100_000_000) by (nonlinear_arith)
            requires 0 <= x <= 180_000;
    }
    let p = x * (HALF_TURN - x);
    (4 * TRIG_ONE * p) / (40_500_000_000 - p)
}

/// Sine of `a` thousandths of a degree, in thousandths.
pub fn sine(a: i64) -> (r: i64)
    requires
        0 <= a < FULL_TURN,
    ensures
        r == sine_spec(a as int),
        -TRIG_ONE <= r <= TRIG_ONE,
{
    proof {
        lemma_sine_bound(a as int);
    }
    if a <= HALF_TURN {
        half_sine_exec(a)
    } else {
        -half_sine_exec(a - HALF_TURN)
    }
}

/// Cosine of `a` thousandths of a degree, in thousandths.
pub fn cosine(a: i64) -> (r: i64)
    requires
        0 <= a < FULL_TURN,
    ensures
        r == cosine_spec(a as int),
        -TRIG_ONE <= r <= TRIG_ONE,
{
    proof {
        lemma_sine_bound(a as int);
    }
    sine((a + FULL_TURN / 4) % FULL_TURN)
}

fn burst_velocity_exec(speed: i64, i: u32, n: u32) -> (v: Vec2)
    requires
        i < n,
    ensures
        v == burst_velocity(speed, i as int, n as int),
{
    assert((i as int) * 360_000 / (n as int) < 360_000 && (i as int) * 360_000 / (n as int) >= 0)
        by (nonlinear_arith)
        requires i < n;
    let a = (i as u64 * FULL_TURN as u64 / n as u64) as i64;
    let c = cosine(a);
    let s = sine(a);
    proof {
        assert(-0x8000_0000_0000_0000 * 1000 <= speed * c <= 0x8000_0000_0000_0000 * 1000)
            by (nonlinear_arith)
            requires -1000 <= c <= 1000, -0x8000_0000_0000_0000 <= speed < 0x8000_0000_0000_0000;
        assert(-0x8000_0000_0000_0000 * 1000 <= speed * s <= 0x8000_0000_0000_0000 * 1000)
            by (nonlinear_arith)
            requires -1000 <= s <= 1000, -0x8000_0000_0000_0000 <= speed < 0x8000_0000_0000_0000;
    }
    let vx = trunc_div_i128(speed as i128 * c as i128, TRIG_ONE as i128);
    let vy = trunc_div_i128(speed as i128 * s as i128, TRIG_ONE as i128);
    Vec2 { x: sat_i128(vx), y: sat_i128(vy) }
}

impl Splash {
    /// Appends a burst of `n` particles at `pos`: particle `i` moves at
    /// `speed` in the direction `i / n` of a full turn.
    pub fn spawn_many(particles: &mut Vec<Splash>, pos: Vec2, speed: i64, color: Color, n: u32)
        ensures
            final(particles)@ == old(particles)@ + burst(pos, speed, color, n as nat),
    {
        let ghost start = particles@;
        let mut i: u32 = 0;
        while i < n
            invariant
                i <= n,
                forall|k: int| 0 <= k < i ==> #[trigger] particles@[start.len() + k] == burst(pos, speed, color, n as nat)[k],
                particles@.len() == start.len() + i,
                forall|k: int| 0 <= k < start.len() ==> #[trigger] particles@[k] == start[k],
            decreases n - i,
        {
            let vel = burst_velocity_exec(speed, i, n);
            particles.push(Splash { age: 0, pos, color, vel });
            i += 1;
        }
        assert forall|j: int| 0 <= j < particles@.len() implies #[trigger] particles@[j] == (start
            + burst(pos, speed, color, n as nat))[j] by {
            if j >= start.len() {
                let k = j - start.len();
                assert(particles@[start.len() + k] == burst(pos, speed, color, n as nat)[k]);
            }
        }
        assert(particles@ =~= start + burst(pos, speed, color, n as nat));
    }

    /// Moves the particle one tick; returns whether it is to be removed: it
    /// sits on a solid pixel or its age passed `MAX_AGE`.
    pub fn update(&mut self, level: &Level) -> (r: bool)
        ensures
            *final(self) == splash_step(*old(self)),
            r == splash_dies(*level, splash_step(*old(self))),
    {
        self.vel = self.vel.scale(1, 1).add(Vec2 { x: 0, y: SPLASH_GRAVITY });
        self.age = if self.age < u32::MAX { self.age + 1 } else { self.age };
        self.pos = self.pos.add(self.vel);
        level.is_hit(self.pos.to_pixel()) || self.age > MAX_AGE
    }
}

} // verus!
