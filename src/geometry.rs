//! Integer geometry of the play field.
use vstd::prelude::*;

verus! {

/// A two-dimensional vector in whole world units (a velocity is in units per second).
#[derive(Clone, Copy, Debug, PartialEq, Eq, Structural)]
pub struct Vector2 {
    pub x: i32,
    pub y: i32,
}

/// The sign of a gravity multiplier: `Positive` is `+1`, `Negative` is `-1`.
#[derive(Clone, Copy, Debug, PartialEq, Eq, Structural)]
pub enum Sign {
    Positive,
    Negative,
}

impl Sign {
    /// The multiplier this sign stands for.
    pub open spec fn value(self) -> int {
        match self {
            Sign::Positive => 1,
            Sign::Negative => -1,
        }
    }

    /// The opposite sign.
    pub open spec fn flip(self) -> Sign {
        match self {
            Sign::Positive => Sign::Negative,
            Sign::Negative => Sign::Positive,
        }
    }

    /// The multiplier as an integer.
    pub fn to_i32(self) -> (r: i32)
        ensures
            r == self.value(),
    {
        match self {
            Sign::Positive => 1,
            Sign::Negative => -1,
        }
    }

    /// The opposite sign.
    pub fn flipped(self) -> (r: Sign)
        ensures
            r == self.flip(),
            r.value() == -self.value(),
    {
        match self {
            Sign::Positive => Sign::Negative,
            Sign::Negative => Sign::Positive,
        }
    }

    /// Whether the multiplier is positive (gravity pulls down).
    pub fn is_positive(self) -> (r: bool)
        ensures
            r == (self.value() > 0),
    {
        matches!(self, Sign::Positive)
    }
}

impl Vector2 {
    pub fn new(x: i32, y: i32) -> (r: Vector2)
        ensures
            r == (Vector2 { x, y }),
    {
        Vector2 { x, y }
    }

    /// Whether both components can be negated in `i32`.
    pub open spec fn negatable(self) -> bool {
        self.x != i32::MIN && self.y != i32::MIN
    }

    /// The vector multiplied by a sign, in the mathematical model.
    pub open spec fn scale(self, s: Sign) -> Vector2 {
        Vector2 { x: (self.x * s.value()) as i32, y: (self.y * s.value()) as i32 }
    }

    /// The vector multiplied by `s`.
    pub fn scaled(self, s: Sign) -> (r: Vector2)
        requires
            self.negatable(),
        ensures
            r == self.scale(s),
            r.x == self.x * s.value(),
            r.y == self.y * s.value(),
    {
        match s {
            Sign::Positive => self,
            Sign::Negative => Vector2 { x: -self.x, y: -self.y },
        }
    }
}

/// The visible play area, an axis-aligned rectangle in world units.
#[derive(Clone, Copy, Debug, PartialEq, Eq, Structural)]
pub struct WorldBounds {
    pub min: Vector2,
    pub max: Vector2,
}

impl WorldBounds {
    /// The rectangle is not empty.
    pub open spec fn wf(self) -> bool {
        self.min.x < self.max.x && self.min.y < self.max.y
    }

    pub open spec fn height_spec(self) -> int {
        self.max.y - self.min.y
    }

    /// Builds bounds from the two corners; `None` unless `min` lies strictly below and left of `max`.
    pub fn new(min: Vector2, max: Vector2) -> (r: Option<WorldBounds>)
        ensures
            r matches Some(b) <==> (min.x < max.x && min.y < max.y),
            r matches Some(b) ==> b.min == min && b.max == max && b.wf(),
    {
        if min.x < max.x && min.y < max.y {
            Some(WorldBounds { min, max })
        } else {
            None
        }
    }

    /// Bounds centred on the origin for a window of the given size (odd sizes round down).
    pub fn centered(width: u32, height: u32) -> (r: Option<WorldBounds>)
        ensures
            r matches Some(b) <==> (width >= 2 && height >= 2 && width / 2 <= i32::MAX && height / 2 <= i32::MAX),
            r matches Some(b) ==> b.wf() && b.max.x == width / 2 && b.max.y == height / 2
                && b.min.x == -b.max.x && b.min.y == -b.max.y,
    {
        let hw = width / 2;
        let hh = height / 2;
        if hw >= 1 && hh >= 1 && hw <= i32::MAX as u32 && hh <= i32::MAX as u32 {
            let mx = hw as i32;
            let my = hh as i32;
            Some(WorldBounds { min: Vector2 { x: -mx, y: -my }, max: Vector2 { x: mx, y: my } })
        } else {
            None
        }
    }

    /// Height of the play area.
    pub fn height(&self) -> (r: i64)
        ensures
            r == self.height_spec(),
    {
        self.max.y as i64 - self.min.y as i64
    }

    pub open spec fn contains_spec(self, p: Vector2) -> bool {
        self.min.x <= p.x <= self.max.x && self.min.y <= p.y <= self.max.y
    }

    /// Whether a point lies inside the rectangle, edges included.
    pub fn contains(&self, p: Vector2) -> (r: bool)
        ensures
            r == self.contains_spec(p),
    {
        self.min.x <= p.x && p.x <= self.max.x && self.min.y <= p.y && p.y <= self.max.y
    }

    /// Whether an item whose centre is at `x` has scrolled past the left edge by more than `margin`.
    pub fn is_past_left(&self, x: i64, margin: i32) -> (r: bool)
        ensures
            r == (x < self.min.x - margin),
    {
        x < self.min.x as i64 - margin as i64
    }
}

} // verus!
