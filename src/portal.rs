//! The portal: once the player comes near, it hides the player and counts
//! down to the switch to the next level.
use crate::fixed::{Vec2, UNIT};
use crate::player::Player;
use vstd::prelude::*;

verus! {

/// The player is near the portal closer than this, in sub-pixel steps.
pub const PORTAL_RADIUS: i64 = 15 * UNIT;

/// Ticks from the trigger to the level switch.
pub const PORTAL_COUNTDOWN: u32 = 30;

#[derive(Clone, Copy, Debug, PartialEq, Eq, Structural)]
pub struct Portal {
    pub pos: Vec2,
    /// `None` while armed; then the ticks left before the level switch.
    pub tick: Option<u32>,
}

/// The Euclidean distance from `a` to `b` is below `PORTAL_RADIUS`.
pub open spec fn near(a: Vec2, b: Vec2) -> bool {
    (a.x - b.x) * (a.x - b.x) + (a.y - b.y) * (a.y - b.y) < PORTAL_RADIUS * PORTAL_RADIUS
}

/// The portal and the player one tick later: a running countdown goes down
/// by one and stays at zero; an armed portal triggers when the player is
/// near, hiding the player.
pub open spec fn portal_step(portal: Portal, player: Player) -> (Portal, Player) {
    match portal.tick {
        Some(t) => (Portal { tick: Some(if t > 0 { (t - 1) as u32 } else { 0 }), ..portal }, player),
        None => if near(player.pos, portal.pos) {
            (Portal { tick: Some(PORTAL_COUNTDOWN), ..portal }, Player { hidden: true, ..player })
        } else {
            (portal, player)
        },
    }
}

/// The portal after `k` ticks against the same player.
pub open spec fn portal_after(portal: Portal, player: Player, k: nat) -> Portal
    decreases k,
{
    if k == 0 {
        portal
    } else {
        portal_step(portal_after(portal, player, (k - 1) as nat), player).0
    }
}

/// A running countdown of `c` ticks reaches zero after exactly `c` ticks and
/// then stays there: the portal is ready after `k` ticks exactly when
/// `k >= c`, so it turns ready once and never turns back.
pub proof fn lemma_countdown(portal: Portal, player: Player, c: u32, k: nat)
    requires
        portal.tick == Some(c),
    ensures
        portal_after(portal, player, k).tick == Some(if k >= c { 0 } else { (c - k) as u32 }),
        (portal_after(portal, player, k).tick == Some(0u32)) == (k >= c),
        portal_after(portal, player, k).pos == portal.pos,
    decreases k,
{
    if k > 0 {
        lemma_countdown(portal, player, c, (k - 1) as nat);
    }
}

/// An armed portal with the player near starts the countdown at
/// `PORTAL_COUNTDOWN` and hides the player; it is not ready yet.
pub proof fn lemma_trigger(portal: Portal, player: Player)
    requires
        portal.tick is None,
        near(player.pos, portal.pos),
    ensures
        portal_step(portal, player).0.tick == Some(PORTAL_COUNTDOWN),
        portal_step(portal, player).1.hidden,
        portal_step(portal, player).0.tick != Some(0u32),
{
}

fn is_near(a: Vec2, b: Vec2) -> (r: bool)
    ensures
        r == near(a, b),
{
    let dx = a.x as i128 - b.x as i128;
    let dy = a.y as i128 - b.y as i128;
    if dx <= -(PORTAL_RADIUS as i128) || dx >= PORTAL_RADIUS as i128 || dy <= -(PORTAL_RADIUS as i128)
        || dy >= PORTAL_RADIUS as i128 {
        assert(dx * dx >= 15000 * 15000 || dy * dy >= 15000 * 15000) by (nonlinear_arith)
            requires dx <= -15000 || dx >= 15000 || dy <= -15000 || dy >= 15000;
        assert(dx * dx >= 0 && dy * dy >= 0) by (nonlinear_arith);
        false
    } else {
        assert(dx * dx < 15000 * 15000 && dy * dy < 15000 * 15000 && dx * dx >= 0 && dy * dy >= 0)
            by (nonlinear_arith)
            requires -15000 < dx < 15000, -15000 < dy < 15000;
        dx * dx + dy * dy < PORTAL_RADIUS as i128 * PORTAL_RADIUS as i128
    }
}

impl Portal {
    pub fn new(pos: Vec2) -> (r: Portal)
        ensures
            r == (Portal { pos, tick: None }),
    {
        Portal { pos, tick: None }
    }

    /// Advances the countdown, or starts it (hiding the player) when the
    /// player is near.
    pub fn update(&mut self, player: &mut Player)
        ensures
            (*final(self), *final(player)) == portal_step(*old(self), *old(player)),
    {
        match self.tick {
            Some(t) => {
                self.tick = Some(if t > 0 { t - 1 } else { 0 });
            },
            None => {
                if is_near(player.pos, self.pos) {
                    player.hidden = true;
                    self.tick = Some(PORTAL_COUNTDOWN);
                }
            },
        }
    }

    /// How far the portal's frame closes in, in sub-pixel steps: a fifth of a
    /// pixel for each tick left on the countdown, nothing while armed.
    pub fn glow(&self) -> (r: i64)
        ensures
            r == match self.tick {
                Some(t) => t * UNIT / 5,
                None => 0,
            },
    {
        match self.tick {
            Some(t) => t as i64 * UNIT / 5,
            None => 0,
        }
    }

    /// Whether the countdown has run out and the next level is due.
    pub fn jump_to_next_level(&self) -> (r: bool)
        ensures
            r == (self.tick == Some(0u32)),
    {
        match self.tick {
            Some(t) => t == 0,
            None => false,
        }
    }
}

} // verus!
