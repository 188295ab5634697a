//! Configuration of one difficulty level of the spawner.
use vstd::prelude::*;
use crate::geometry::{Vector2, WorldBounds};

verus! {

/// Placement of a tunnel: two barriers with a scoring gap between them.
#[derive(Clone, Copy, Debug, PartialEq, Eq)]
pub struct TunnelSpawnSettings {
    /// Lowest and highest centre of the gap.
    pub center_y_range: [i32; 2],
    /// Smallest and largest height of the gap.
    pub gap_height_range: [i32; 2],
    pub obstacle_width: i32,
    pub scoring_gap_width: i32,
}

/// Size of a gravity region.
#[derive(Clone, Copy, Debug, PartialEq, Eq, Structural)]
pub struct GravityRegionSettings {
    pub gravity_width: i32,
}

/// Settings for overall object spawning in one level.
#[derive(Clone, Copy, Debug, PartialEq, Eq)]
pub struct SpawnerSettings {
    /// Velocity of every spawned item, in units per second; leftward.
    pub item_vel: Vector2,
    /// How far ahead of the right edge items start, as travel time in milliseconds.
    pub start_offset_millis: u32,
    /// Spawn cadence: milliseconds between two items.
    pub millis_per_item: u32,
    /// Relative weight of a tunnel.
    pub tunnel_weight: u32,
    pub tunnel_settings: TunnelSpawnSettings,
    /// Relative weight of a gravity region.
    pub gravity_weight: u32,
    /// Items that must be spawned after a gravity region before the next one.
    pub min_items_between_gravity: u32,
    pub gravity_settings: GravityRegionSettings,
}

/// Why a configuration is refused.
#[derive(Clone, Copy, Debug, PartialEq, Eq, Structural)]
pub enum ConfigError {
    /// `millis_per_item` is zero.
    NonPositiveCadence,
    /// Items would not move leftward (`item_vel.x > 0`).
    NotLeftward,
    /// A range has its low end above its high end.
    InvertedRange,
    /// A width or the smallest gap height is not positive.
    NonPositiveSize,
    /// The tallest gap leaves no room for both barriers.
    GapOutsideWorld,
    /// A spawn could find every candidate weighted zero.
    ZeroWeights,
}

impl TunnelSpawnSettings {
    pub open spec fn ranges_ordered(self) -> bool {
        self.center_y_range[0] <= self.center_y_range[1]
            && self.gap_height_range[0] <= self.gap_height_range[1]
    }

    pub open spec fn sizes_positive(self) -> bool {
        self.obstacle_width > 0 && self.scoring_gap_width > 0 && self.gap_height_range[0] > 0
    }

    /// The tallest gap leaves room for a barrier of positive height above and below it.
    pub open spec fn fits(self, b: WorldBounds) -> bool {
        self.gap_height_range[1] + 2 <= b.height_spec()
    }

    /// The values of the default tunnel.
    pub open spec fn is_default(self) -> bool {
        &&& self.center_y_range@ == seq![-200i32, 200]
        &&& self.gap_height_range@ == seq![200i32, 300]
        &&& self.obstacle_width == 96
        &&& self.scoring_gap_width == 32
    }

    /// The default tunnel.
    pub fn new() -> (r: TunnelSpawnSettings)
        ensures
            r.is_default(),
    {
        let r = TunnelSpawnSettings {
            center_y_range: [-200, 200],
            gap_height_range: [200, 300],
            obstacle_width: 96,
            scoring_gap_width: 32,
        };
        assert(r.center_y_range@ =~= seq![-200i32, 200]);
        assert(r.gap_height_range@ =~= seq![200i32, 300]);
        r
    }
}

impl Default for TunnelSpawnSettings {
    fn default() -> (r: TunnelSpawnSettings)
        ensures
            r.is_default(),
    {
        TunnelSpawnSettings::new()
    }
}

impl SpawnerSettings {
    /// Some candidate always carries weight: the tunnel, which is always offered,
    /// or a gravity region that is offered from the start.
    pub open spec fn weights_never_all_zero(self) -> bool {
        self.tunnel_weight > 0 || (self.gravity_weight > 0 && self.min_items_between_gravity == 0)
    }

    /// The first error found, in the order of [`ConfigError`]'s variants; `None` for a sound configuration.
    pub open spec fn config_error(self, b: WorldBounds) -> Option<ConfigError> {
        if self.millis_per_item == 0 {
            Some(ConfigError::NonPositiveCadence)
        } else if self.item_vel.x > 0 {
            Some(ConfigError::NotLeftward)
        } else if !self.tunnel_settings.ranges_ordered() {
            Some(ConfigError::InvertedRange)
        } else if !self.tunnel_settings.sizes_positive() || self.gravity_settings.gravity_width <= 0 {
            Some(ConfigError::NonPositiveSize)
        } else if !self.tunnel_settings.fits(b) {
            Some(ConfigError::GapOutsideWorld)
        } else if !self.weights_never_all_zero() {
            Some(ConfigError::ZeroWeights)
        } else {
            None
        }
    }

    /// A configuration that can drive the spawner inside `b`.
    pub open spec fn valid_for(self, b: WorldBounds) -> bool {
        self.config_error(b) is None
    }

    /// The default (base) level.
    pub fn new() -> (r: SpawnerSettings)
        ensures
            r.item_vel == (Vector2 { x: -200i32, y: 0i32 }),
            r.start_offset_millis == 100,
            r.millis_per_item == 2000,
            r.tunnel_weight == 80,
            r.tunnel_settings.is_default(),
            r.gravity_weight == 20,
            r.min_items_between_gravity == 3,
            r.gravity_settings.gravity_width == 32,
    {
        SpawnerSettings {
            item_vel: Vector2 { x: -200, y: 0 },
            start_offset_millis: 100,
            millis_per_item: 2000,
            tunnel_weight: 80,
            tunnel_settings: TunnelSpawnSettings::default(),
            gravity_weight: 20,
            min_items_between_gravity: 3,
            gravity_settings: GravityRegionSettings { gravity_width: 32 },
        }
    }

    /// Puts the default level back.
    pub fn reset(&mut self)
        ensures
            final(self).item_vel == (Vector2 { x: -200i32, y: 0i32 }),
            final(self).start_offset_millis == 100,
            final(self).millis_per_item == 2000,
            final(self).tunnel_weight == 80,
            final(self).tunnel_settings.is_default(),
            final(self).gravity_weight == 20,
            final(self).min_items_between_gravity == 3,
            final(self).gravity_settings.gravity_width == 32,
    {
        *self = SpawnerSettings::new();
    }

    /// Checks the configuration against the play area it will spawn into.
    pub fn validate(&self, b: &WorldBounds) -> (r: Result<(), ConfigError>)
        ensures
            r is Ok <==> self.valid_for(*b),
            r matches Err(e) ==> self.config_error(*b) == Some(e),
    {
        let t = &self.tunnel_settings;
        if self.millis_per_item == 0 {
            Err(ConfigError::NonPositiveCadence)
        } else if self.item_vel.x > 0 {
            Err(ConfigError::NotLeftward)
        } else if !(t.center_y_range[0] <= t.center_y_range[1]
            && t.gap_height_range[0] <= t.gap_height_range[1]) {
            Err(ConfigError::InvertedRange)
        } else if !(t.obstacle_width > 0 && t.scoring_gap_width > 0 && t.gap_height_range[0] > 0)
            || self.gravity_settings.gravity_width <= 0 {
            Err(ConfigError::NonPositiveSize)
        } else if !(t.gap_height_range[1] as i64 + 2 <= b.height()) {
            Err(ConfigError::GapOutsideWorld)
        } else if !(self.tunnel_weight > 0 || (self.gravity_weight > 0
            && self.min_items_between_gravity == 0)) {
            Err(ConfigError::ZeroWeights)
        } else {
            Ok(())
        }
    }

    /// Left edge of a newly spawned item: the right edge of the play area, moved on by
    /// the distance an item travels in `start_offset_millis` (rounded down to a whole unit).
    pub open spec fn start_offset_x_spec(self, b: WorldBounds) -> int {
        b.max.x + (-self.item_vel.x) * self.start_offset_millis / 1000
    }

    /// Left edge at which new items are placed.
    pub fn start_offset_x(&self, b: &WorldBounds) -> (r: i64)
        requires
            self.item_vel.x <= 0,
        ensures
            r == self.start_offset_x_spec(*b),
            b.max.x <= r <= b.max.x + 0x0040_0000_0000_0000,
    {
        let speed: u64 = (0i64 - self.item_vel.x as i64) as u64;
        let millis: u64 = self.start_offset_millis as u64;
        assert(speed * millis <= 0x8000_0000u64 * 0xffff_ffffu64) by (nonlinear_arith)
            requires
                speed <= 0x8000_0000u64,
                millis <= 0xffff_ffffu64,
        ;
        let product: u64 = speed * millis;
        let travel: u64 = product / 1000;
        assert(travel <= product);
        b.max.x as i64 + travel as i64
    }
}

} // verus!
