//! The game: every entity of a level, advanced in whole fixed ticks by an
//! accumulator of elapsed time.
use crate::bubble::{bubble_step, pop_spec, Bubble};
use crate::fixed::{from_pixel_spec, Vec2};
use crate::level::Level;
use crate::player::{fresh_player, key_spec, player_step, KeyEvent, Player};
use crate::portal::{portal_step, Portal};
use crate::splash::{splash_dies, splash_step, Splash, MAX_AGE};
use std::sync::Arc;
use vstd::arithmetic::div_mod::lemma_fundamental_div_mod_converse;
use vstd::prelude::*;

verus! {

/// Length of one simulation tick in nanoseconds (a sixtieth of a second).
pub const TIMESTEP_NANOS: u64 = 16_666_667;

/// What a tick acts on: every entity of the game.
pub struct World {
    pub player: Player,
    pub portal: Portal,
    pub bubble: Option<Bubble>,
    pub splashes: Seq<Splash>,
}

/// The same sequence backwards.
pub open spec fn reversed<T>(s: Seq<T>) -> Seq<T> {
    Seq::new(s.len(), |i: int| s[s.len() - 1 - i])
}

/// One tick of every splash: the survivors in their order, and those removed,
/// last index first.
pub open spec fn sweep(level: Level, s: Seq<Splash>) -> (Seq<Splash>, Seq<Splash>)
    decreases s.len(),
{
    if s.len() == 0 {
        (Seq::empty(), Seq::empty())
    } else {
        let (kept, removed) = sweep(level, s.drop_last());
        let p = splash_step(s.last());
        if splash_dies(level, p) {
            (kept, seq![p] + removed)
        } else {
            (kept.push(p), removed)
        }
    }
}

/// A spawned bubble replaces the current one, which pops.
pub open spec fn replace_bubble(current: Option<Bubble>, spawned: Option<Bubble>, parts: Seq<Splash>) -> (Option<Bubble>, Seq<Splash>) {
    match spawned {
        Some(b) => match current {
            Some(previous) => (Some(b), pop_spec(previous, parts).1),
            None => (Some(b), parts),
        },
        None => (current, parts),
    }
}

/// The bubble's tick; a bubble that died is gone.
pub open spec fn advance_bubble(level: Level, bubble: Option<Bubble>, parts: Seq<Splash>) -> (Option<Bubble>, Seq<Splash>) {
    match bubble {
        Some(b) => {
            let (b1, parts1) = bubble_step(level, b, parts);
            (if b1.dead { None } else { Some(b1) }, parts1)
        },
        None => (None, parts),
    }
}

/// One tick: the player, the bubble it spawned or already had, the portal,
/// then every splash. Returns the new world and the splashes removed.
pub open spec fn tick_spec(level: Level, w: World) -> (World, Seq<Splash>) {
    let (player1, parts1, spawned) = player_step(w.player, level, w.splashes);
    let (bubble1, parts2) = replace_bubble(w.bubble, spawned, parts1);
    let (bubble2, parts3) = advance_bubble(level, bubble1, parts2);
    let (portal1, player2) = portal_step(w.portal, player1);
    let (kept, removed) = sweep(level, parts3);
    (World { player: player2, portal: portal1, bubble: bubble2, splashes: kept }, removed)
}

/// `n` ticks: the world after them, and the splashes removed by each tick in
/// turn, concatenated.
pub open spec fn run_ticks(level: Level, w: World, n: nat) -> (World, Seq<Splash>)
    decreases n,
{
    if n == 0 {
        (w, Seq::empty())
    } else {
        let (w1, removed1) = run_ticks(level, w, (n - 1) as nat);
        let (w2, removed2) = tick_spec(level, w1);
        (w2, removed1 + removed2)
    }
}

/// Every splash that a sweep keeps is at most `MAX_AGE` ticks old, and every
/// splash that passes `MAX_AGE` in the sweep is among those removed, whether
/// or not it touched a solid pixel.
pub proof fn lemma_sweep_removes_expired(level: Level, s: Seq<Splash>)
    ensures
        forall|k: int|
            0 <= k < sweep(level, s).0.len() ==> #[trigger] sweep(level, s).0[k].age <= MAX_AGE,
        forall|i: int|
            0 <= i < s.len() && #[trigger] splash_step(s[i]).age > MAX_AGE ==> sweep(level, s).1.contains(
                splash_step(s[i]),
            ),
        sweep(level, s).0.len() + sweep(level, s).1.len() == s.len(),
    decreases s.len(),
{
    if s.len() > 0 {
        let t = s.drop_last();
        lemma_sweep_removes_expired(level, t);
        let (kept, removed) = sweep(level, t);
        let p = splash_step(s.last());
        assert forall|i: int|
            0 <= i < s.len() && #[trigger] splash_step(s[i]).age > MAX_AGE implies sweep(
            level,
            s,
        ).1.contains(splash_step(s[i])) by {
            if i < s.len() - 1 {
                assert(s[i] == t[i]);
                assert(splash_step(t[i]).age > MAX_AGE);
                let j = choose|j: int| 0 <= j < removed.len() && removed[j] == splash_step(t[i]);
                if splash_dies(level, p) {
                    assert((seq![p] + removed)[j + 1] == removed[j]);
                }
            } else {
                assert(splash_dies(level, p));
                assert((seq![p] + removed)[0] == p);
            }
        }
    }
}

/// `n` whole ticks of time hold exactly `n` ticks and leave nothing over.
pub proof fn lemma_whole_ticks(n: nat)
    ensures
        (n * TIMESTEP_NANOS) / (TIMESTEP_NANOS as int) == n,
        (n * TIMESTEP_NANOS) % (TIMESTEP_NANOS as int) == 0,
{
    lemma_fundamental_div_mod_converse(n * TIMESTEP_NANOS, TIMESTEP_NANOS as int, n as int, 0);
}

/// What a frame does to the game: its key events reach the player in order,
/// then its elapsed time is simulated.
pub struct Frame {
    pub keys: Seq<KeyEvent>,
    pub elapsed_nanos: u64,
}

/// The player after a sequence of key events.
pub open spec fn apply_keys(p: Player, keys: Seq<KeyEvent>) -> Player
    decreases keys.len(),
{
    if keys.len() == 0 {
        p
    } else {
        key_spec(apply_keys(p, keys.drop_last()), keys.last())
    }
}

/// The world, the time not yet simulated and the splashes removed after a
/// sequence of frames (`handle_key_event` for each key, then `update`).
pub open spec fn run_frames(level: Level, w: World, time_sum: u64, frames: Seq<Frame>) -> (World, u64, Seq<Splash>)
    decreases frames.len(),
{
    if frames.len() == 0 {
        (w, time_sum, Seq::empty())
    } else {
        let (w1, t1, removed1) = run_frames(level, w, time_sum, frames.drop_last());
        let f = frames.last();
        let w2 = World { player: apply_keys(w1.player, f.keys), ..w1 };
        let total = t1 + f.elapsed_nanos;
        let (w3, removed2) = run_ticks(level, w2, (total / (TIMESTEP_NANOS as int)) as nat);
        (w3, (total % (TIMESTEP_NANOS as int)) as u64, removed1 + removed2)
    }
}

/// The simulation is deterministic: two games in the same state, on the same
/// level, given the same frames (key events and elapsed times), end in the
/// same state with the same splashes removed.
pub proof fn lemma_deterministic(a: &Game, b: &Game, frames: Seq<Frame>)
    requires
        *a.level == *b.level,
        a.world() == b.world(),
        a.time_sum == b.time_sum,
    ensures
        run_frames(*a.level, a.world(), a.time_sum, frames) == run_frames(
            *b.level,
            b.world(),
            b.time_sum,
            frames,
        ),
{
}

#[derive(Debug, Clone)]
pub struct Game {
    pub level: Arc<Level>,
    pub player: Player,
    pub portal: Portal,
    pub player_bubble: Option<Bubble>,
    pub splashes: Vec<Splash>,
    /// Elapsed nanoseconds not yet simulated.
    pub time_sum: u64,
}

impl Game {
    pub open spec fn world(self) -> World {
        World {
            player: self.player,
            portal: self.portal,
            bubble: self.player_bubble,
            splashes: self.splashes@,
        }
    }

    /// A game at the start of `level`: the player at the entry point, the
    /// portal at its place, no bubble, no splash, no time accumulated.
    pub fn new(level: Arc<Level>) -> (g: Game)
        ensures
            g.level == level,
            g.player == fresh_player(from_pixel_spec(level.entry_point)),
            g.portal == (Portal { pos: from_pixel_spec(level.portal), tick: None }),
            g.player_bubble is None,
            g.splashes@.len() == 0,
            g.time_sum == 0,
    {
        let player = Player::new(Vec2::from_pixel(level.entry_point));
        let portal = Portal::new(Vec2::from_pixel(level.portal));
        Game { player, portal, splashes: Vec::new(), player_bubble: None, level, time_sum: 0 }
    }

    fn sweep_splashes(&mut self, despawned: &mut Vec<Splash>)
        ensures
            final(self).level == old(self).level,
            final(self).player == old(self).player,
            final(self).portal == old(self).portal,
            final(self).player_bubble == old(self).player_bubble,
            final(self).time_sum == old(self).time_sum,
            final(self).splashes@ == sweep(*old(self).level, old(self).splashes@).0,
            final(despawned)@ == old(despawned)@ + sweep(*old(self).level, old(self).splashes@).1,
    {
        let ghost start = self.splashes@;
        let mut kept: Vec<Splash> = Vec::new();
        let mut removed: Vec<Splash> = Vec::new();
        let n = self.splashes.len();
        let mut i: usize = 0;
        while i < n
            invariant
                n == start.len(),
                self.splashes@ == start,
                i <= n,
                (kept@, reversed(removed@)) == sweep(*self.level, start.take(i as int)),
            decreases n - i,
        {
            let mut p = self.splashes[i];
            let dies = p.update(&self.level);
            proof {
                assert(start.take(i as int + 1).drop_last() =~= start.take(i as int));
                assert(start.take(i as int + 1).last() == start[i as int]);
            }
            if dies {
                let ghost before = removed@;
                removed.push(p);
                assert(reversed(removed@) =~= seq![p] + reversed(before));
            } else {
                kept.push(p);
            }
            i += 1;
        }
        assert(start.take(n as int) =~= start);
        let ghost before = despawned@;
        let mut j = removed.len();
        while j > 0
            invariant
                j <= removed@.len(),
                despawned@ == before + reversed(removed@).take(removed@.len() - j),
            decreases j,
        {
            j -= 1;
            despawned.push(removed[j]);
            assert(reversed(removed@).take(removed@.len() - j) =~= reversed(removed@).take(
                removed@.len() - j - 1,
            ).push(removed@[j as int]));
        }
        assert(reversed(removed@).take(removed@.len() as int) =~= reversed(removed@));
        self.splashes = kept;
    }

    fn tick(&mut self, despawned: &mut Vec<Splash>)
        ensures
            final(self).level == old(self).level,
            final(self).time_sum == old(self).time_sum,
            (final(self).world(), final(despawned)@) == ({
                let (w, removed) = tick_spec(*old(self).level, old(self).world());
                (w, old(despawned)@ + removed)
            }),
    {
        let spawned = self.player.update(&self.level, &mut self.splashes);
        if let Some(bubble) = spawned {
            if let Some(mut previous) = self.player_bubble {
                previous.pop(&mut self.splashes);
            }
            self.player_bubble = Some(bubble);
        }
        if let Some(mut bubble) = self.player_bubble {
            bubble.update(&self.level, &mut self.splashes);
            self.player_bubble = if bubble.dead { None } else { Some(bubble) };
        }
        self.portal.update(&mut self.player);
        self.sweep_splashes(despawned);
    }

    /// Adds `elapsed_nanos` to the time not yet simulated and runs one tick
    /// for each whole `TIMESTEP_NANOS` in it. Returns the splashes removed,
    /// tick after tick.
    pub fn update(&mut self, elapsed_nanos: u64) -> (r: Vec<Splash>)
        ensures
            final(self).level == old(self).level,
            final(self).time_sum < TIMESTEP_NANOS,
            final(self).time_sum == (old(self).time_sum + elapsed_nanos) % (TIMESTEP_NANOS as int),
            (final(self).world(), r@) == run_ticks(
                *old(self).level,
                old(self).world(),
                ((old(self).time_sum + elapsed_nanos) / (TIMESTEP_NANOS as int)) as nat,
            ),
    {
        let ghost w0 = self.world();
        let ghost total = self.time_sum + elapsed_nanos;
        let mut time: u128 = self.time_sum as u128 + elapsed_nanos as u128;
        let mut despawned: Vec<Splash> = Vec::new();
        let ghost mut ticks: nat = 0;
        while time >= TIMESTEP_NANOS as u128
            invariant
                self.level == old(self).level,
                time + ticks * TIMESTEP_NANOS == total,
                (self.world(), despawned@) == run_ticks(*self.level, w0, ticks),
            decreases time,
        {
            time = time - TIMESTEP_NANOS as u128;
            self.tick(&mut despawned);
            proof {
                ticks = ticks + 1;
            }
        }
        proof {
            lemma_fundamental_div_mod_converse(total, TIMESTEP_NANOS as int, ticks as int, time as int);
        }
        self.time_sum = time as u64;
        despawned
    }
}

} // verus!
