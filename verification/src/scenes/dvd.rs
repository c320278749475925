//! A disc that drifts over the screen and turns back at its edges.

use vstd::prelude::*;
use crate::consts;
use crate::scenes::UpdateResult;

verus! {

/// Very simple test scene.
pub struct DvdScene {
    x: i32,
    y: i32,
    vel_x: i32,
    vel_y: i32,
    radius: u32,
}

/// The position and the velocity on one axis after a tick: the position
/// moves by the velocity, and the velocity turns round where the disc then
/// touches an edge of the axis of length `extent`.
pub open spec fn bounce(position: int, velocity: int, radius: int, extent: int) -> (int, int) {
    let moved = position + velocity;
    if moved <= radius || moved >= extent - radius {
        (moved, -velocity)
    } else {
        (moved, velocity)
    }
}

/// Whether a disc with this position and velocity on an axis is on its way
/// between the two edges.
pub open spec fn on_track(position: int, velocity: int, radius: int, extent: int) -> bool {
    &&& radius <= position <= extent - radius
    &&& (velocity == 1 || velocity == -1)
    &&& (position == radius ==> velocity == 1)
    &&& (position == extent - radius ==> velocity == -1)
}

/// A disc that is on its way between the edges stays so.
pub proof fn lemma_bounce_stays_on_track(position: int, velocity: int, radius: int, extent: int)
    requires
        on_track(position, velocity, radius, extent),
        extent - radius >= radius + 1,
    ensures
        on_track(
            bounce(position, velocity, radius, extent).0,
            bounce(position, velocity, radius, extent).1,
            radius,
            extent,
        ),
{
}

impl DvdScene {
    #[verifier::type_invariant]
    spec fn wf(&self) -> bool {
        &&& self.radius == 64
        &&& on_track(self.x as int, self.vel_x as int, 64, 240)
        &&& on_track(self.y as int, self.vel_y as int, 64, 280)
    }

    /// Centre of the disc.
    pub closed spec fn position(&self) -> (int, int) {
        (self.x as int, self.y as int)
    }

    /// Pixels that the disc moves in a tick, on each axis.
    pub closed spec fn velocity(&self) -> (int, int) {
        (self.vel_x as int, self.vel_y as int)
    }

    /// Radius of the disc.
    pub closed spec fn spec_radius(&self) -> int {
        self.radius as int
    }

    /// The disc in the middle of the screen, on its way to the upper right.
    pub fn new() -> (scene: Self)
        ensures
            scene.position() == ((consts::WIDTH / 2) as int, (consts::HEIGHT / 2) as int),
            scene.velocity() == (1int, -1int),
            scene.spec_radius() == 64,
    {
        Self {
            x: (consts::WIDTH / 2) as i32,
            y: (consts::HEIGHT / 2) as i32,
            vel_x: 1,
            vel_y: -1,
            radius: 64,
        }
    }

    /// Moves the disc by one tick.
    pub fn update(&mut self) -> (result: UpdateResult)
        ensures
            result == UpdateResult::Stay,
            final(self).spec_radius() == old(self).spec_radius(),
            (final(self).position().0, final(self).velocity().0) == bounce(
                old(self).position().0,
                old(self).velocity().0,
                old(self).spec_radius(),
                consts::WIDTH as int,
            ),
            (final(self).position().1, final(self).velocity().1) == bounce(
                old(self).position().1,
                old(self).velocity().1,
                old(self).spec_radius(),
                consts::HEIGHT as int,
            ),
    {
        proof {
            use_type_invariant(&*self);
        }
        let radius = self.radius as i32;
        let mut x = self.x + self.vel_x;
        let mut vel_x = self.vel_x;
        if x <= radius || x >= (consts::WIDTH - self.radius) as i32 {
            vel_x = -vel_x;
        }
        let mut y = self.y + self.vel_y;
        let mut vel_y = self.vel_y;
        if y <= radius || y >= (consts::HEIGHT - self.radius) as i32 {
            vel_y = -vel_y;
        }
        *self = DvdScene { x, y, vel_x, vel_y, radius: self.radius };
        UpdateResult::Stay
    }

    /// Centre of the disc.
    pub fn center(&self) -> (center: (i32, i32))
        ensures
            (center.0 as int, center.1 as int) == self.position(),
    {
        (self.x, self.y)
    }

    /// Radius of the disc.
    pub fn radius(&self) -> (radius: u32)
        ensures
            radius == self.spec_radius(),
    {
        self.radius
    }
}

} // verus!
