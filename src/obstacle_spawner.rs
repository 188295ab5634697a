//! The spawner: on each firing of its cadence timer it picks an item kind by weight,
//! places the item, and swaps in a queued level.
use vstd::prelude::*;
use crate::chance::{draw_in_range, draw_weighted_index, total_weight};
use crate::geometry::{Sign, WorldBounds};
use crate::items::{build_tunnel, gravity_region_spec, new_gravity_region, tunnel_spec, SpawnedItem};
use crate::spawner_settings::{ConfigError, SpawnerSettings};
use crate::timer::CadenceTimer;

verus! {

/// Score at which the faster level is queued.
pub const LEVEL_UP_SCORE: i32 = 2;

/// The kinds of item a spawner can produce.
#[derive(Clone, Copy, Debug, PartialEq, Eq, Structural)]
pub enum SpawnOption {
    Tunnel,
    Gravity,
}

/// Counts kept since the last reset, used to space gravity regions.
#[derive(Clone, Copy, Debug, PartialEq, Eq, Structural)]
pub struct SpawnStats {
    /// Items spawned since the reset.
    pub num_items: u64,
    /// Items spawned since the last gravity region.
    pub since_last_gravity: u64,
}

impl SpawnStats {
    pub open spec fn wf(self) -> bool {
        self.since_last_gravity <= self.num_items
    }

    /// Counts of a fresh spawner.
    pub fn new() -> (r: SpawnStats)
        ensures
            r.num_items == 0 && r.since_last_gravity == 0,
    {
        SpawnStats { num_items: 0, since_last_gravity: 0 }
    }

    /// Sets both counts back to zero.
    pub fn reset(&mut self)
        ensures
            final(self).num_items == 0 && final(self).since_last_gravity == 0,
    {
        self.num_items = 0;
        self.since_last_gravity = 0;
    }
}

/// What one firing of the spawner produced.
#[derive(Clone, Copy, Debug, PartialEq, Eq, Structural)]
pub struct FireOutcome {
    /// The kind that was drawn.
    pub option: SpawnOption,
    /// The item to materialise.
    pub item: SpawnedItem,
    /// A queued level took effect after the item was built; in-flight items should
    /// be brought to the new level's velocity.
    pub level_changed: bool,
}

/// Spawns the level's items on a cadence.
#[derive(Clone, Copy, Debug, PartialEq, Eq)]
pub struct ObstacleSpawner {
    pub timer: CadenceTimer,
    /// The level in effect.
    pub level: SpawnerSettings,
    /// A level that takes effect after the next item.
    pub next_level: Option<SpawnerSettings>,
    pub stats: SpawnStats,
    /// The level restored on reset.
    pub base_level: SpawnerSettings,
    pub bounds: WorldBounds,
}

impl ObstacleSpawner {
    pub open spec fn wf(self) -> bool {
        &&& self.bounds.wf()
        &&& self.base_level.valid_for(self.bounds)
        &&& self.level.valid_for(self.bounds)
        &&& (self.next_level matches Some(n) ==> n.valid_for(self.bounds))
        &&& self.stats.wf()
        &&& self.timer.wf()
        &&& self.timer.duration == self.level.millis_per_item
    }

    /// A gravity region may be offered: enough items have passed since the last one.
    pub open spec fn gravity_eligible(self) -> bool {
        self.stats.since_last_gravity >= self.level.min_items_between_gravity
    }

    /// The candidates of the next draw with their weights: always the tunnel, and
    /// the gravity region when it is eligible.
    pub open spec fn choices(self) -> Seq<(SpawnOption, u64)> {
        let tunnel = seq![(SpawnOption::Tunnel, self.level.tunnel_weight as u64)];
        if self.gravity_eligible() {
            tunnel.push((SpawnOption::Gravity, self.level.gravity_weight as u64))
        } else {
            tunnel
        }
    }

    /// The weights of the candidates, in order.
    pub open spec fn weights(self) -> Seq<u64> {
        self.choices().map_values(|c: (SpawnOption, u64)| c.1)
    }

    /// A draw that a weighted pick can give: an index of a candidate of positive weight,
    /// and for a tunnel a gap inside the configured ranges.
    pub open spec fn draw_allowed(self, pick: int, gap_center: int, gap_height: int) -> bool {
        let t = self.level.tunnel_settings;
        &&& 0 <= pick < self.choices().len()
        &&& self.choices()[pick].1 > 0
        &&& (self.choices()[pick].0 == SpawnOption::Tunnel ==> {
            &&& t.center_y_range[0] <= gap_center <= t.center_y_range[1]
            &&& t.gap_height_range[0] <= gap_height <= t.gap_height_range[1]
        })
    }

    /// The item of the given kind placed under the level in effect.
    pub open spec fn item_for(self, option: SpawnOption, gap_center: int, gap_height: int, gravity_mult: Sign) -> SpawnedItem {
        let l = self.level;
        let x = l.start_offset_x_spec(self.bounds);
        match option {
            SpawnOption::Tunnel => SpawnedItem::Tunnel(
                tunnel_spec(l.tunnel_settings, l.item_vel, x, self.bounds, gap_center, gap_height, (self.stats.num_items + 1) as u64),
            ),
            SpawnOption::Gravity => SpawnedItem::Gravity(
                gravity_region_spec(gravity_mult.flip(), x, l.gravity_settings, l.item_vel, self.bounds),
            ),
        }
    }

    /// The counts after spawning an item of the given kind.
    pub open spec fn stats_after(self, option: SpawnOption) -> SpawnStats {
        SpawnStats {
            num_items: (self.stats.num_items + 1) as u64,
            since_last_gravity: match option {
                SpawnOption::Tunnel => (self.stats.since_last_gravity + 1) as u64,
                SpawnOption::Gravity => 0,
            },
        }
    }

    /// The spawner with a queued level, if any, taken into effect.
    pub open spec fn advanced(self) -> ObstacleSpawner {
        match self.next_level {
            Some(n) => ObstacleSpawner {
                timer: CadenceTimer::armed(n.millis_per_item),
                level: n,
                next_level: None,
                ..self
            },
            None => self,
        }
    }

    /// The state and outcome of one firing with the given draw, while gravity is `gravity_mult`.
    pub open spec fn fired(self, pick: int, gap_center: int, gap_height: int, gravity_mult: Sign) -> (ObstacleSpawner, FireOutcome) {
        let option = self.choices()[pick].0;
        let counted = ObstacleSpawner { stats: self.stats_after(option), ..self };
        (
            counted.advanced(),
            FireOutcome {
                option,
                item: self.item_for(option, gap_center, gap_height, gravity_mult),
                level_changed: self.next_level is Some,
            },
        )
    }

    /// Some firing with a draw that a weighted pick can give takes this spawner to `next`
    /// and produces `out`.
    pub open spec fn fires_to(self, out: FireOutcome, next: ObstacleSpawner, gravity_mult: Sign) -> bool {
        exists|pick: int, gap_center: int, gap_height: int|
            self.draw_allowed(pick, gap_center, gap_height)
            && (next, out) == #[trigger] self.fired(pick, gap_center, gap_height, gravity_mult)
    }

    /// The spawner after a reset: base level, nothing queued, counts at zero, timer re-armed.
    pub open spec fn reset_spec(self) -> ObstacleSpawner {
        ObstacleSpawner {
            timer: CadenceTimer::armed(self.base_level.millis_per_item),
            level: self.base_level,
            next_level: None,
            stats: SpawnStats { num_items: 0, since_last_gravity: 0 },
            ..self
        }
    }

    /// A fresh spawner running `base` inside `bounds`.
    pub open spec fn started(base: SpawnerSettings, bounds: WorldBounds) -> ObstacleSpawner {
        ObstacleSpawner {
            timer: CadenceTimer::armed(base.millis_per_item),
            level: base,
            next_level: None,
            stats: SpawnStats { num_items: 0, since_last_gravity: 0 },
            base_level: base,
            bounds,
        }
    }

    /// A spawner running `base` inside `bounds`; refused when `base` does not fit.
    pub fn new(base: SpawnerSettings, bounds: WorldBounds) -> (r: Result<ObstacleSpawner, ConfigError>)
        requires
            bounds.wf(),
        ensures
            r is Ok <==> base.valid_for(bounds),
            r matches Err(e) ==> base.config_error(bounds) == Some(e),
            r matches Ok(s) ==> s.wf() && s == ObstacleSpawner::started(base, bounds),
    {
        match base.validate(&bounds) {
            Err(e) => Err(e),
            Ok(()) => Ok(ObstacleSpawner {
                timer: CadenceTimer::from_millis(base.millis_per_item),
                level: base,
                next_level: None,
                stats: SpawnStats::new(),
                base_level: base,
                bounds,
            }),
        }
    }

    /// Puts `level` into effect and re-arms the timer at its cadence.
    pub fn set_level(&mut self, level: SpawnerSettings)
        requires
            old(self).wf(),
            level.valid_for(old(self).bounds),
        ensures
            final(self).wf(),
            *final(self) == (ObstacleSpawner {
                timer: CadenceTimer::armed(level.millis_per_item),
                level,
                ..*old(self)
            }),
    {
        self.level = level;
        self.timer = CadenceTimer::from_millis(level.millis_per_item);
    }

    /// Puts a queued level into effect, if there is one; returns whether the level changed.
    pub fn advance_queued_level(&mut self) -> (changed: bool)
        requires
            old(self).wf(),
        ensures
            final(self).wf(),
            *final(self) == old(self).advanced(),
            changed == old(self).next_level is Some,
    {
        match self.next_level.take() {
            Some(next) => {
                self.set_level(next);
                true
            },
            None => false,
        }
    }

    /// Queues `level` to take effect after the next item; a later call replaces it.
    pub fn queue_config_change(&mut self, level: SpawnerSettings)
        requires
            old(self).wf(),
            level.valid_for(old(self).bounds),
        ensures
            final(self).wf(),
            *final(self) == old(self).queued(level),
    {
        self.next_level = Some(level);
    }

    /// The spawner with `level` queued.
    pub open spec fn queued(self, level: SpawnerSettings) -> ObstacleSpawner {
        ObstacleSpawner { next_level: Some(level), ..self }
    }

    /// Queues `fast` when the score has just changed to [`LEVEL_UP_SCORE`]; otherwise does nothing.
    pub fn update_spawner_by_score(&mut self, score: i32, score_changed: bool, fast: &SpawnerSettings)
        requires
            old(self).wf(),
            fast.valid_for(old(self).bounds),
        ensures
            final(self).wf(),
            *final(self) == if score == LEVEL_UP_SCORE && score_changed {
                old(self).queued(*fast)
            } else {
                *old(self)
            },
    {
        if score == LEVEL_UP_SCORE && score_changed {
            self.queue_config_change(*fast);
        }
    }

    /// Restores the base level, drops any queued level, zeroes the counts and re-arms the timer.
    pub fn reset(&mut self)
        requires
            old(self).wf(),
        ensures
            final(self).wf(),
            *final(self) == old(self).reset_spec(),
    {
        let base = self.base_level;
        self.set_level(base);
        self.next_level = None;
        self.stats.reset();
    }

    /// Runs the cadence timer for `dt` milliseconds; returns how many times it fired.
    pub fn tick(&mut self, dt: u32) -> (fired: u64)
        requires
            old(self).wf(),
        ensures
            final(self).wf(),
            final(self).timer.duration == old(self).timer.duration,
            fired == (old(self).timer.elapsed + dt) / (old(self).timer.duration as int),
            final(self).timer.elapsed == (old(self).timer.elapsed + dt) % (old(self).timer.duration as int),
            *final(self) == (ObstacleSpawner { timer: final(self).timer, ..*old(self) }),
    {
        self.timer.tick(dt)
    }

    /// The candidates of the next draw with their weights.
    pub fn spawn_choices(&self) -> (r: Vec<(SpawnOption, u64)>)
        requires
            self.wf(),
        ensures
            r@ == self.choices(),
    {
        let mut r: Vec<(SpawnOption, u64)> = Vec::new();
        r.push((SpawnOption::Tunnel, self.level.tunnel_weight as u64));
        if self.stats.since_last_gravity >= self.level.min_items_between_gravity as u64 {
            r.push((SpawnOption::Gravity, self.level.gravity_weight as u64));
        }
        assert(r@ =~= self.choices());
        r
    }

    /// Spawns one item from a given draw: `pick` indexes the candidates of
    /// [`Self::spawn_choices`], and a tunnel's gap has the given centre and height.
    /// A gravity region applies the opposite of `gravity_mult`.
    pub fn fire(&mut self, pick: usize, gap_center: i32, gap_height: i32, gravity_mult: Sign) -> (r: FireOutcome)
        requires
            old(self).wf(),
            old(self).draw_allowed(pick as int, gap_center as int, gap_height as int),
            old(self).stats.num_items < u64::MAX,
        ensures
            final(self).wf(),
            (*final(self), r) == old(self).fired(pick as int, gap_center as int, gap_height as int, gravity_mult),
    {
        let ghost start = *self;
        let choices = self.spawn_choices();
        let option = choices[pick].0;
        let x = self.level.start_offset_x(&self.bounds);
        self.stats.num_items = self.stats.num_items + 1;
        let item = match option {
            SpawnOption::Tunnel => {
                self.stats.since_last_gravity = self.stats.since_last_gravity + 1;
                SpawnedItem::Tunnel(build_tunnel(
                    &self.level.tunnel_settings,
                    self.level.item_vel,
                    x,
                    &self.bounds,
                    gap_center,
                    gap_height,
                    self.stats.num_items,
                ))
            },
            SpawnOption::Gravity => {
                self.stats.since_last_gravity = 0;
                SpawnedItem::Gravity(new_gravity_region(
                    gravity_mult.flipped(),
                    x,
                    &self.level.gravity_settings,
                    self.level.item_vel,
                    &self.bounds,
                ))
            },
        };
        let level_changed = self.advance_queued_level();
        FireOutcome { option, item, level_changed }
    }

    /// Spawns one item with a random draw: the kind by weight among the candidates, and
    /// for a tunnel a gap centre and height uniform in their ranges. The result is that of
    /// [`Self::fire`] for some draw that a weighted pick can give.
    pub fn spawn_items(&mut self, gravity_mult: Sign) -> (r: FireOutcome)
        requires
            old(self).wf(),
            old(self).stats.num_items < u64::MAX,
        ensures
            final(self).wf(),
            old(self).fires_to(r, *final(self), gravity_mult),
    {
        let ghost start = *self;
        let choices = self.spawn_choices();
        let weights = weights_of(&choices);
        proof {
            lemma_some_weight_positive(*self);
            assert(weights@ =~= self.weights());
        }
        let pick = draw_weighted_index(&weights);
        let t = &self.level.tunnel_settings;
        let (gap_center, gap_height) = match choices[pick].0 {
            SpawnOption::Tunnel => (
                draw_in_range(t.center_y_range[0], t.center_y_range[1]),
                draw_in_range(t.gap_height_range[0], t.gap_height_range[1]),
            ),
            SpawnOption::Gravity => (t.center_y_range[0], t.gap_height_range[0]),
        };
        assert(start.draw_allowed(pick as int, gap_center as int, gap_height as int));
        self.fire(pick, gap_center, gap_height, gravity_mult)
    }
}

/// The weights of the candidates, in order.
fn weights_of(choices: &Vec<(SpawnOption, u64)>) -> (r: Vec<u64>)
    ensures
        r@ == choices@.map_values(|c: (SpawnOption, u64)| c.1),
{
    let mut r: Vec<u64> = Vec::new();
    let mut i: usize = 0;
    while i < choices.len()
        invariant
            i <= choices@.len(),
            r@ == choices@.take(i as int).map_values(|c: (SpawnOption, u64)| c.1),
        decreases choices@.len() - i,
    {
        r.push(choices[i].1);
        i = i + 1;
        assert(choices@.take(i as int).drop_last() =~= choices@.take(i - 1));
        assert(r@ =~= choices@.take(i as int).map_values(|c: (SpawnOption, u64)| c.1));
    }
    assert(choices@.take(i as int) =~= choices@);
    r
}

/// A well-formed spawner always has a candidate of positive weight, and its weights sum within `u64`.
proof fn lemma_some_weight_positive(s: ObstacleSpawner)
    requires
        s.wf(),
    ensures
        exists|i: int| 0 <= i < s.weights().len() && s.weights()[i] > 0,
        total_weight(s.weights()) <= u64::MAX,
{
    let w = s.weights();
    if s.gravity_eligible() {
        assert(w.drop_last().drop_last() =~= Seq::<u64>::empty());
        assert(total_weight(w.drop_last()) == total_weight(w.drop_last().drop_last()) + w[0]);
        assert(total_weight(w) == s.level.tunnel_weight + s.level.gravity_weight);
    } else {
        assert(w.drop_last() =~= Seq::<u64>::empty());
        assert(total_weight(w) == total_weight(w.drop_last()) + w[0]);
        assert(total_weight(w) == s.level.tunnel_weight);
    }
    if s.level.tunnel_weight > 0 {
        assert(w[0] > 0);
    } else {
        assert(s.gravity_eligible());
        assert(w[1] > 0);
    }
}


/// A gravity region is drawn only once enough items have passed since the last one, and
/// drawing it sets that count back to zero; a tunnel adds one to it. Each firing keeps
/// the spawner well formed, so this holds along any sequence of firings.
pub proof fn lemma_gravity_spacing(s: ObstacleSpawner, pick: int, gap_center: int, gap_height: int, gravity_mult: Sign)
    requires
        s.wf(),
        s.draw_allowed(pick, gap_center, gap_height),
        s.stats.num_items < u64::MAX,
    ensures
        ({
            let (next, out) = s.fired(pick, gap_center, gap_height, gravity_mult);
            &&& out.option == SpawnOption::Gravity ==> {
                &&& s.stats.since_last_gravity >= s.level.min_items_between_gravity
                &&& next.stats.since_last_gravity == 0
            }
            &&& out.option == SpawnOption::Tunnel ==> next.stats.since_last_gravity == s.stats.since_last_gravity + 1
            &&& next.wf()
        }),
{
}

/// Resetting twice leaves the spawner as resetting once does: base level in effect,
/// nothing queued, counts at zero.
pub proof fn lemma_reset_idempotent(s: ObstacleSpawner)
    requires
        s.wf(),
    ensures
        s.reset_spec().reset_spec() == s.reset_spec(),
        s.reset_spec().level == s.base_level,
        s.reset_spec().next_level is None,
        s.reset_spec().stats == (SpawnStats { num_items: 0, since_last_gravity: 0 }),
        s.reset_spec().wf(),
{
}

/// A queued level changes neither the level in effect nor the timer; the firing that
/// takes it into effect still builds its item under the old level, and only then
/// re-arms the timer at the new cadence.
pub proof fn lemma_queued_level_waits_for_fire(
    s: ObstacleSpawner,
    level: SpawnerSettings,
    pick: int,
    gap_center: int,
    gap_height: int,
    gravity_mult: Sign,
)
    requires
        s.wf(),
        level.valid_for(s.bounds),
        s.draw_allowed(pick, gap_center, gap_height),
        s.stats.num_items < u64::MAX,
    ensures
        s.queued(level).wf(),
        s.queued(level).level == s.level,
        s.queued(level).timer == s.timer,
        s.queued(level).draw_allowed(pick, gap_center, gap_height),
        ({
            let (next, out) = s.queued(level).fired(pick, gap_center, gap_height, gravity_mult);
            &&& out.item == s.item_for(out.option, gap_center, gap_height, gravity_mult)
            &&& out.item == s.fired(pick, gap_center, gap_height, gravity_mult).1.item
            &&& out.level_changed
            &&& next.level == level
            &&& next.timer == CadenceTimer::armed(level.millis_per_item)
            &&& next.next_level is None
        }),
{
    assert(s.queued(level).choices() =~= s.choices());
}

} // verus!
