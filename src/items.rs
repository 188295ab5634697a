//! Descriptions of spawned items, and the builders that place them.
//!
//! Edges are stored doubled (in half units) so that a gap centred on a whole
//! unit with an odd height keeps exact edges.
use vstd::prelude::*;
use crate::geometry::{Sign, Vector2, WorldBounds};
use crate::spawner_settings::{GravityRegionSettings, TunnelSpawnSettings};

verus! {

/// Bound on a spawn position, far beyond any play area, that keeps doubled edges within `i64`.
pub const SPAWN_X_LIMIT: i64 = 0x1000_0000_0000_0000;

/// Where one piece goes and how the engine treats it.
#[derive(Clone, Copy, Debug, PartialEq, Eq, Structural)]
pub struct Placement {
    /// Twice the left edge.
    pub left2: i64,
    /// Twice the right edge.
    pub right2: i64,
    /// Twice the bottom edge.
    pub bottom2: i64,
    /// Twice the top edge.
    pub top2: i64,
    /// Initial velocity.
    pub velocity: Vector2,
    /// Removed once its centre is this far past the left edge of the play area.
    pub remove_when_left: i32,
    /// Removed when the level resets.
    pub remove_on_reset: bool,
}

/// Two barriers and the scoring region between them.
#[derive(Clone, Copy, Debug, PartialEq, Eq, Structural)]
pub struct Tunnel {
    /// Shared by the three pieces; hitting a barrier removes the scoring region of its group.
    pub group: u64,
    pub top: Placement,
    pub bottom: Placement,
    pub scoring_region: Placement,
    /// Score change when the player passes through the scoring region.
    pub score_delta: i32,
}

/// A sensor across the whole height that sets the gravity multiplier when entered.
#[derive(Clone, Copy, Debug, PartialEq, Eq, Structural)]
pub struct GravityRegion {
    pub placement: Placement,
    /// The multiplier the region applies.
    pub sign: Sign,
}

/// One spawned item, to be materialised by the engine.
#[derive(Clone, Copy, Debug, PartialEq, Eq, Structural)]
pub enum SpawnedItem {
    Tunnel(Tunnel),
    Gravity(GravityRegion),
}

/// The piece with the given doubled edges, moving at `vel` and removed `margin` past the left edge.
pub open spec fn piece(l2: int, r2: int, b2: int, t2: int, vel: Vector2, margin: i32) -> Placement {
    Placement {
        left2: l2 as i64,
        right2: r2 as i64,
        bottom2: b2 as i64,
        top2: t2 as i64,
        velocity: vel,
        remove_when_left: margin,
        remove_on_reset: true,
    }
}

impl Placement {
    /// Twice the width.
    pub open spec fn width2(self) -> int {
        self.right2 - self.left2
    }

    /// Twice the height.
    pub open spec fn height2(self) -> int {
        self.top2 - self.bottom2
    }

    /// Four times the centre's y coordinate.
    pub open spec fn center_y4(self) -> int {
        self.bottom2 + self.top2
    }
}

/// Twice the height of the top barrier: from the top of the gap to the top edge.
pub open spec fn top_extent2(b: WorldBounds, gap_center: int, gap_height: int) -> int {
    2 * b.max.y - (2 * gap_center + gap_height)
}

/// Twice the height of the bottom barrier: from the bottom edge to the bottom of the gap.
pub open spec fn bottom_extent2(b: WorldBounds, gap_center: int, gap_height: int) -> int {
    (2 * gap_center - gap_height) - 2 * b.min.y
}

/// Twice the height of the scoring region: what the barriers leave of the play area.
pub open spec fn scoring_height2(b: WorldBounds, gap_center: int, gap_height: int) -> int {
    2 * b.height_spec() - top_extent2(b, gap_center, gap_height) - bottom_extent2(b, gap_center, gap_height)
}

/// The gap centre actually used: a centre that would push the gap past an edge is moved
/// back until both barriers keep a positive height.
pub open spec fn clamp_center(b: WorldBounds, gap_center: int, gap_height: int) -> int {
    let hi = b.max.y - gap_height / 2 - 1;
    let lo = b.min.y + gap_height / 2 + 1;
    if gap_center > hi {
        hi
    } else if gap_center < lo {
        lo
    } else {
        gap_center
    }
}

/// The gap leaves both barriers a positive height.
pub open spec fn gap_inside(b: WorldBounds, gap_center: int, gap_height: int) -> bool {
    top_extent2(b, gap_center, gap_height) > 0 && bottom_extent2(b, gap_center, gap_height) > 0
}

/// The tunnel whose left edge is at `spawn_x` and whose gap has the given height and,
/// moved inside the play area if need be, the given centre.
pub open spec fn tunnel_spec(
    t: TunnelSpawnSettings,
    vel: Vector2,
    spawn_x: int,
    b: WorldBounds,
    gap_center: int,
    gap_height: int,
    group: u64,
) -> Tunnel {
    let gap_center = clamp_center(b, gap_center, gap_height);
    let top = top_extent2(b, gap_center, gap_height);
    let bottom = bottom_extent2(b, gap_center, gap_height);
    let scoring = scoring_height2(b, gap_center, gap_height);
    let left = 2 * spawn_x;
    let right = 2 * spawn_x + 2 * t.obstacle_width;
    Tunnel {
        group,
        top: piece(left, right, 2 * b.max.y - top, 2 * b.max.y, vel, t.obstacle_width),
        bottom: piece(left, right, 2 * b.min.y, 2 * b.min.y + bottom, vel, t.obstacle_width),
        scoring_region: piece(
            right - 2 * t.scoring_gap_width,
            right,
            2 * gap_center - scoring / 2,
            2 * gap_center + scoring / 2,
            vel,
            t.scoring_gap_width,
        ),
        score_delta: 1,
    }
}

/// The settings admit this gap, inside these bounds.
pub open spec fn gap_allowed(t: TunnelSpawnSettings, b: WorldBounds, gap_center: int, gap_height: int) -> bool {
    &&& b.wf()
    &&& t.ranges_ordered()
    &&& t.sizes_positive()
    &&& t.fits(b)
    &&& t.center_y_range[0] <= gap_center <= t.center_y_range[1]
    &&& t.gap_height_range[0] <= gap_height <= t.gap_height_range[1]
}

/// Places a tunnel: a barrier from the top of the gap up to the top edge, one from the
/// bottom edge up to the bottom of the gap, and a scoring region filling the gap at the
/// tunnel's right end.
pub fn build_tunnel(
    t: &TunnelSpawnSettings,
    vel: Vector2,
    spawn_x: i64,
    b: &WorldBounds,
    gap_center: i32,
    gap_height: i32,
    group: u64,
) -> (r: Tunnel)
    requires
        gap_allowed(*t, *b, gap_center as int, gap_height as int),
        -SPAWN_X_LIMIT <= spawn_x <= SPAWN_X_LIMIT,
    ensures
        r == tunnel_spec(*t, vel, spawn_x as int, *b, gap_center as int, gap_height as int, group),
        r.top.height2() > 0,
        r.bottom.height2() > 0,
        r.scoring_region.height2() == 2 * gap_height,
        gap_inside(*b, gap_center as int, gap_height as int) ==> r.scoring_region.center_y4() == 4 * gap_center,
        r.top.width2() == 2 * t.obstacle_width,
        r.scoring_region.width2() == 2 * t.scoring_gap_width,
{
    let half: i32 = gap_height / 2;
    let hi: i32 = b.max.y - half - 1;
    let lo: i32 = b.min.y + half + 1;
    let c: i32 = if gap_center > hi {
        hi
    } else if gap_center < lo {
        lo
    } else {
        gap_center
    };
    let c2: i64 = 2 * c as i64;
    let h: i64 = gap_height as i64;
    let max2: i64 = 2 * b.max.y as i64;
    let min2: i64 = 2 * b.min.y as i64;
    let top_extent: i64 = max2 - (c2 + h);
    let bottom_extent: i64 = (c2 - h) - min2;
    let scoring: i64 = 2 * b.height() - top_extent - bottom_extent;
    assert(scoring == 2 * h);
    let left: i64 = 2 * spawn_x;
    let right: i64 = left + 2 * t.obstacle_width as i64;
    let top = Placement {
        left2: left,
        right2: right,
        bottom2: max2 - top_extent,
        top2: max2,
        velocity: vel,
        remove_when_left: t.obstacle_width,
        remove_on_reset: true,
    };
    let bottom = Placement {
        left2: left,
        right2: right,
        bottom2: min2,
        top2: min2 + bottom_extent,
        velocity: vel,
        remove_when_left: t.obstacle_width,
        remove_on_reset: true,
    };
    let scoring_region = Placement {
        left2: right - 2 * t.scoring_gap_width as i64,
        right2: right,
        bottom2: c2 - scoring / 2,
        top2: c2 + scoring / 2,
        velocity: vel,
        remove_when_left: t.scoring_gap_width,
        remove_on_reset: true,
    };
    Tunnel { group, top, bottom, scoring_region, score_delta: 1 }
}

/// The gravity region with left edge `left_x`, spanning the whole height of the play area.
pub open spec fn gravity_region_spec(
    sign: Sign,
    left_x: int,
    g: GravityRegionSettings,
    vel: Vector2,
    b: WorldBounds,
) -> GravityRegion {
    GravityRegion {
        placement: piece(
            2 * left_x,
            2 * left_x + 2 * g.gravity_width,
            2 * b.min.y,
            2 * b.max.y,
            vel,
            g.gravity_width,
        ),
        sign,
    }
}

/// Places a gravity region that applies `sign` when entered.
pub fn new_gravity_region(
    sign: Sign,
    left_x: i64,
    g: &GravityRegionSettings,
    vel: Vector2,
    b: &WorldBounds,
) -> (r: GravityRegion)
    requires
        -SPAWN_X_LIMIT <= left_x <= SPAWN_X_LIMIT,
    ensures
        r == gravity_region_spec(sign, left_x as int, *g, vel, *b),
{
    let left: i64 = 2 * left_x;
    GravityRegion {
        placement: Placement {
            left2: left,
            right2: left + 2 * g.gravity_width as i64,
            bottom2: 2 * b.min.y as i64,
            top2: 2 * b.max.y as i64,
            velocity: vel,
            remove_when_left: g.gravity_width,
            remove_on_reset: true,
        },
        sign,
    }
}

impl GravityRegion {
    /// Whether the region pulls downward once entered (its arrow points down).
    pub fn points_down(&self) -> (r: bool)
        ensures
            r == (self.sign.value() > 0),
    {
        self.sign.is_positive()
    }
}

/// Heights of a tunnel's pieces add up to the play area's height, and the scoring region
/// is exactly as tall as the gap.
pub proof fn lemma_tunnel_fills_height(
    t: TunnelSpawnSettings,
    vel: Vector2,
    spawn_x: int,
    b: WorldBounds,
    gap_center: int,
    gap_height: int,
    group: u64,
)
    requires
        gap_allowed(t, b, gap_center, gap_height),
        -SPAWN_X_LIMIT <= spawn_x <= SPAWN_X_LIMIT,
    ensures
        top_extent2(b, gap_center, gap_height) + 2 * gap_height
            + bottom_extent2(b, gap_center, gap_height) == 2 * b.height_spec(),
        gap_inside(b, clamp_center(b, gap_center, gap_height), gap_height),
        gap_inside(b, gap_center, gap_height) ==> clamp_center(b, gap_center, gap_height) == gap_center,
        ({
            let r = tunnel_spec(t, vel, spawn_x, b, gap_center, gap_height, group);
            &&& r.top.height2() + r.scoring_region.height2() + r.bottom.height2() == 2 * b.height_spec()
            &&& r.scoring_region.height2() == 2 * gap_height
            &&& r.top.height2() > 0 && r.bottom.height2() > 0
        }),
{
}

} // verus!
