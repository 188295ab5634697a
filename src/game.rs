//! Game phases and the controller that routes events to the level, the spawner and the score.
use vstd::prelude::*;
use crate::geometry::{Sign, Vector2, WorldBounds};
use crate::level::LevelSettings;
use crate::obstacle_spawner::{FireOutcome, ObstacleSpawner, LEVEL_UP_SCORE};
use crate::score::Score;
use crate::spawner_settings::{ConfigError, SpawnerSettings};
use crate::timer::CadenceTimer;

verus! {

/// Phases of a session.
#[derive(Clone, Copy, Debug, PartialEq, Eq, Hash, Structural)]
pub enum GameState {
    AssetLoading,
    Ready,
    Playing,
    Dying,
}

/// What moves the game from one phase to another.
#[derive(Clone, Copy, Debug, PartialEq, Eq, Structural)]
pub enum GameEvent {
    /// The level files and other assets are in.
    AssetsLoaded,
    /// The player asked to start.
    StartPressed,
    /// The player hit a barrier or left the play area.
    PlayerHit,
    /// The death animation ended, or a restart was asked for.
    Reset,
}

/// The phase after an event: loading ends in `Ready`, a start turns `Ready` into `Playing`,
/// a hit while playing starts `Dying`, and a reset after loading returns to `Ready`.
/// Any other event leaves the phase as it is.
pub open spec fn next_state_spec(s: GameState, e: GameEvent) -> GameState {
    match (s, e) {
        (GameState::AssetLoading, GameEvent::AssetsLoaded) => GameState::Ready,
        (GameState::Ready, GameEvent::StartPressed) => GameState::Playing,
        (GameState::Playing, GameEvent::PlayerHit) => GameState::Dying,
        (GameState::AssetLoading, GameEvent::Reset) => GameState::AssetLoading,
        (_, GameEvent::Reset) => GameState::Ready,
        _ => s,
    }
}

/// The phase after `e` happens in phase `s`.
pub fn next_state(s: GameState, e: GameEvent) -> (r: GameState)
    ensures
        r == next_state_spec(s, e),
{
    match (s, e) {
        (GameState::AssetLoading, GameEvent::AssetsLoaded) => GameState::Ready,
        (GameState::Ready, GameEvent::StartPressed) => GameState::Playing,
        (GameState::Playing, GameEvent::PlayerHit) => GameState::Dying,
        (GameState::AssetLoading, GameEvent::Reset) => GameState::AssetLoading,
        (_, GameEvent::Reset) => GameState::Ready,
        _ => s,
    }
}

/// The firings `outs`, in order, lead the spawner through `states`, each with a draw that
/// a weighted pick can give, while gravity is `gravity_mult`.
pub open spec fn fire_chain(states: Seq<ObstacleSpawner>, outs: Seq<FireOutcome>, gravity_mult: Sign) -> bool {
    &&& states.len() == outs.len() + 1
    &&& forall|i: int| #![trigger outs[i]] 0 <= i < outs.len() ==> states[i].fires_to(outs[i], states[i + 1], gravity_mult)
}

/// The whole state of a session: phase, level settings, spawner and score.
#[derive(Clone, Copy, Debug, PartialEq, Eq)]
pub struct Game {
    pub state: GameState,
    pub level: LevelSettings,
    pub spawner: ObstacleSpawner,
    pub score: Score,
    /// The level queued once the score reaches [`LEVEL_UP_SCORE`].
    pub fast_level: SpawnerSettings,
}

impl Game {
    pub open spec fn wf(self) -> bool {
        &&& self.level.wf()
        &&& self.spawner.wf()
        &&& self.fast_level.valid_for(self.spawner.bounds)
    }

    /// A session whose assets are loaded, ready to start on `base`; refused when either
    /// level does not fit the play area, the base level's error first.
    pub fn new(bounds: WorldBounds, base: SpawnerSettings, fast: SpawnerSettings) -> (r: Result<Game, ConfigError>)
        requires
            bounds.wf(),
        ensures
            r is Ok <==> base.valid_for(bounds) && fast.valid_for(bounds),
            r matches Err(e) ==> e == if base.valid_for(bounds) {
                fast.config_error(bounds)->Some_0
            } else {
                base.config_error(bounds)->Some_0
            },
            r matches Ok(g) ==> {
                &&& g.wf()
                &&& g.state == GameState::Ready
                &&& g.level == LevelSettings::new_spec()
                &&& g.spawner == ObstacleSpawner::started(base, bounds)
                &&& g.score.score == 0
                &&& g.fast_level == fast
            },
    {
        let spawner = match ObstacleSpawner::new(base, bounds) {
            Ok(s) => s,
            Err(e) => {
                return Err(e);
            },
        };
        match fast.validate(&bounds) {
            Ok(()) => Ok(Game {
                state: GameState::Ready,
                level: LevelSettings::new(),
                spawner,
                score: Score::new(),
                fast_level: fast,
            }),
            Err(e) => Err(e),
        }
    }

    /// Handles a phase event. A reset also restores the spawner, the gravity and the score.
    pub fn handle_event(&mut self, e: GameEvent)
        requires
            old(self).wf(),
        ensures
            final(self).wf(),
            final(self).state == next_state_spec(old(self).state, e),
            final(self).fast_level == old(self).fast_level,
            e == GameEvent::Reset ==> {
                &&& final(self).spawner == old(self).spawner.reset_spec()
                &&& final(self).level == (LevelSettings { gravity_mult: Sign::Positive, ..old(self).level })
                &&& final(self).score.score == 0
            },
            e != GameEvent::Reset ==> {
                &&& final(self).spawner == old(self).spawner
                &&& final(self).level == old(self).level
                &&& final(self).score == old(self).score
            },
    {
        if matches!(e, GameEvent::Reset) {
            self.spawner.reset();
            self.level.reset();
            self.score.reset();
        }
        self.state = next_state(self.state, e);
    }

    /// The player passed through a scoring region worth `delta`: the score changes, and
    /// reaching [`LEVEL_UP_SCORE`] queues the fast level.
    pub fn on_scoring_region(&mut self, delta: i32)
        requires
            old(self).wf(),
            i32::MIN <= old(self).score.score + delta <= i32::MAX,
        ensures
            final(self).wf(),
            final(self).score.score == old(self).score.score + delta,
            final(self).spawner == if final(self).score.score == LEVEL_UP_SCORE {
                old(self).spawner.queued(old(self).fast_level)
            } else {
                old(self).spawner
            },
            final(self).state == old(self).state,
            final(self).level == old(self).level,
            final(self).fast_level == old(self).fast_level,
    {
        self.score.add(delta);
        let fast = self.fast_level;
        self.spawner.update_spawner_by_score(self.score.score, true, &fast);
    }

    /// The player entered a gravity region applying `sign`; returns the new gravity for the physics engine.
    pub fn on_gravity_region(&mut self, sign: Sign) -> (r: Vector2)
        requires
            old(self).wf(),
        ensures
            final(self).wf(),
            *final(self) == (Game { level: LevelSettings { gravity_mult: sign, ..old(self).level }, ..*old(self) }),
            r == final(self).level.gravity_vector_spec(),
    {
        self.level.on_gravity_event(sign)
    }

    /// Runs a frame of `dt` milliseconds. The cadence timer always runs; while playing,
    /// each firing spawns one item, until the spawner's item count would overflow.
    /// Returns the items in the order they were spawned.
    pub fn update(&mut self, dt: u32) -> (r: Vec<FireOutcome>)
        requires
            old(self).wf(),
        ensures
            final(self).wf(),
            final(self).state == old(self).state,
            final(self).level == old(self).level,
            final(self).score == old(self).score,
            final(self).fast_level == old(self).fast_level,
            ({
                let t = old(self).spawner.timer;
                let fired = (t.elapsed + dt) / (t.duration as int);
                let ticked = ObstacleSpawner {
                    timer: CadenceTimer { elapsed: ((t.elapsed + dt) % (t.duration as int)) as u64, ..t },
                    ..old(self).spawner
                };
                &&& old(self).state == GameState::Playing ==> {
                    &&& exists|states: Seq<ObstacleSpawner>|
                        #![trigger fire_chain(states, r@, old(self).level.gravity_mult)]
                        states[0] == ticked && states.last() == final(self).spawner
                        && fire_chain(states, r@, old(self).level.gravity_mult)
                    &&& r@.len() <= fired
                    &&& (r@.len() == fired || final(self).spawner.stats.num_items == u64::MAX)
                }
                &&& old(self).state != GameState::Playing ==> r@.len() == 0 && final(self).spawner == ticked
            }),
    {
        let fired = self.spawner.tick(dt);
        let ghost ticked = self.spawner;
        let mut out: Vec<FireOutcome> = Vec::new();
        let ghost mut states: Seq<ObstacleSpawner> = seq![ticked];
        if matches!(self.state, GameState::Playing) {
            let mut k: u64 = 0;
            while k < fired && self.spawner.stats.num_items < u64::MAX
                invariant
                    self.wf(),
                    k <= fired,
                    out@.len() == k,
                    states[0] == ticked,
                    states.last() == self.spawner,
                    fire_chain(states, out@, self.level.gravity_mult),
                    self.state == old(self).state,
                    self.level == old(self).level,
                    self.score == old(self).score,
                    self.fast_level == old(self).fast_level,
                    self.spawner.bounds == old(self).spawner.bounds,
                decreases fired - k,
            {
                let o = self.spawner.spawn_items(self.level.gravity_mult);
                out.push(o);
                k = k + 1;
                proof {
                    states = states.push(self.spawner);
                }
            }
        }
        assert(states.len() > 0);
        out
    }
}

} // verus!
