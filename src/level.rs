//! Physics constants of a level and the gravity multiplier that gravity regions flip.
use vstd::prelude::*;
use crate::geometry::{Sign, Vector2};

verus! {

/// Global settings of the running level.
#[derive(Clone, Copy, Debug, PartialEq, Eq, Structural)]
pub struct LevelSettings {
    /// Velocity given by a jump while gravity pulls down.
    pub base_jump_vel: Vector2,
    /// Speed at which the pieces of an exploding player fly apart.
    pub explosion_speed: i32,
    /// Gravity acceleration while gravity pulls down.
    pub base_gravity: Vector2,
    /// Current gravity multiplier.
    pub gravity_mult: Sign,
}

impl LevelSettings {
    /// The base vectors can be flipped.
    pub open spec fn wf(self) -> bool {
        self.base_jump_vel.negatable() && self.base_gravity.negatable()
    }

    /// The settings a session starts with.
    pub open spec fn new_spec() -> LevelSettings {
        LevelSettings {
            base_jump_vel: Vector2 { x: 0, y: 300 },
            explosion_speed: 600,
            base_gravity: Vector2 { x: 0, y: -500i32 },
            gravity_mult: Sign::Positive,
        }
    }

    /// The settings a session starts with: jumps at 300 units per second upward,
    /// gravity of 500 downward, explosions at 600, gravity pulling down.
    pub fn new() -> (r: LevelSettings)
        ensures
            r == LevelSettings::new_spec(),
            r.wf(),
    {
        LevelSettings {
            base_jump_vel: Vector2 { x: 0, y: 300 },
            explosion_speed: 600,
            base_gravity: Vector2 { x: 0, y: -500 },
            gravity_mult: Sign::Positive,
        }
    }

    /// Settings to restore when a level starts: gravity pulls down again.
    pub fn reset(&mut self)
        ensures
            *final(self) == (LevelSettings { gravity_mult: Sign::Positive, ..*old(self) }),
    {
        self.gravity_mult = Sign::Positive;
    }

    pub open spec fn jump_vector_spec(self) -> Vector2 {
        self.base_jump_vel.scale(self.gravity_mult)
    }

    pub open spec fn gravity_vector_spec(self) -> Vector2 {
        self.base_gravity.scale(self.gravity_mult)
    }

    /// The jump velocity, turned by the gravity multiplier.
    pub fn jump_vector(&self) -> (r: Vector2)
        requires
            self.wf(),
        ensures
            r == self.jump_vector_spec(),
            r.x == self.base_jump_vel.x * self.gravity_mult.value(),
            r.y == self.base_jump_vel.y * self.gravity_mult.value(),
    {
        self.base_jump_vel.scaled(self.gravity_mult)
    }

    /// The gravity acceleration, turned by the gravity multiplier.
    pub fn gravity_vector(&self) -> (r: Vector2)
        requires
            self.wf(),
        ensures
            r == self.gravity_vector_spec(),
            r.x == self.base_gravity.x * self.gravity_mult.value(),
            r.y == self.base_gravity.y * self.gravity_mult.value(),
    {
        self.base_gravity.scaled(self.gravity_mult)
    }

    /// Applies a gravity region's sign; returns the gravity to hand to the physics engine.
    pub fn on_gravity_event(&mut self, sign: Sign) -> (r: Vector2)
        requires
            old(self).wf(),
        ensures
            final(self).wf(),
            *final(self) == (LevelSettings { gravity_mult: sign, ..*old(self) }),
            r == final(self).gravity_vector_spec(),
    {
        self.gravity_mult = sign;
        self.gravity_vector()
    }
}

/// Entering a region that applies the opposite of the current multiplier flips gravity:
/// the multiplier changes sign and so does the gravity vector.
pub proof fn lemma_opposite_region_flips_gravity(l: LevelSettings)
    requires
        l.wf(),
    ensures
        ({
            let after = LevelSettings { gravity_mult: l.gravity_mult.flip(), ..l };
            &&& after.gravity_mult.value() == -l.gravity_mult.value()
            &&& after.gravity_vector_spec().x == -l.gravity_vector_spec().x
            &&& after.gravity_vector_spec().y == -l.gravity_vector_spec().y
        }),
{
}

} // verus!
