//! Ground sensing: what the downward probe found, and whether it can be
//! walked on.

use crate::fixed::Fixed;
use crate::timer::{tick_down, tick_down_spec};
use crate::vec3::Vec3;
use vstd::prelude::*;

verus! {

/// What the physics engine reports for the nearest hit of the probe.
#[derive(Clone, Copy, Debug)]
pub struct GroundHit {
    /// Identifier of the body that was hit.
    pub entity: u64,
    pub point: Vec3,
    /// Unit normal of the surface at the hit.
    pub normal: Vec3,
    /// Distance travelled by the probe.
    pub distance: Fixed,
    /// Linear velocity of the hit body at the point.
    pub point_velocity: Vec3,
}

/// A classified ground contact.
#[derive(Clone, Copy, Debug)]
pub struct Contact {
    pub entity: u64,
    pub point: Vec3,
    pub normal: Vec3,
    pub distance: Fixed,
    /// Whether the surface is flat enough to stand on.
    pub stable: bool,
    pub point_velocity: Vec3,
}

/// Result of ground sensing for one tick.
#[derive(Debug)]
pub struct GroundCast {
    /// Contact found this tick.
    pub current: Option<Contact>,
    /// Most recent contact, kept for one tick after it is lost.
    pub viable: Vec<Contact>,
}

/// Configuration and state of the downward probe.
#[derive(Clone, Copy, Debug)]
pub struct GroundCaster {
    /// While positive, sensing is suppressed.
    pub skip_ground_check_timer: Fixed,
    /// How far down the probe reaches.
    pub cast_length: Fixed,
    /// Cosine of the steepest angle between a normal and the up vector that
    /// still counts as walkable.
    pub max_ground_angle_cos: Fixed,
}

impl GroundCast {
    /// Standing on walkable ground.
    pub open spec fn grounded_spec(&self) -> bool {
        match self.current {
            Some(contact) => contact.stable,
            None => false,
        }
    }

    /// Velocity of the ground under the body: that of the most recent
    /// contact, zero where there is none.
    pub open spec fn ground_velocity_spec(&self) -> Vec3 {
        if self.viable@.len() > 0 {
            self.viable@.last().point_velocity
        } else {
            Vec3::zero_spec()
        }
    }

    /// A result with no contact at all.
    pub fn new() -> (r: GroundCast)
        ensures
            r.current is None,
            r.viable@.len() == 0,
    {
        GroundCast { current: None, viable: Vec::new() }
    }

    /// Standing on walkable ground.
    pub fn grounded(&self) -> (r: bool)
        ensures
            r == self.grounded_spec(),
    {
        match self.current {
            Some(contact) => contact.stable,
            None => false,
        }
    }

    /// Velocity of the ground under the body.
    pub fn ground_velocity(&self) -> (r: Vec3)
        ensures
            r == self.ground_velocity_spec(),
    {
        let n = self.viable.len();
        if n > 0 {
            self.viable[n - 1].point_velocity
        } else {
            Vec3::zero()
        }
    }
}

impl GroundCaster {
    /// A surface is walkable when its normal is within the slope limit of
    /// the up vector; for unit vectors the dot product is the cosine of the
    /// angle between them.
    pub open spec fn stable_spec(&self, normal: Vec3, up_vector: Vec3) -> bool {
        normal.dot_spec(up_vector).raw >= self.max_ground_angle_cos.raw
    }

    /// The contact that a hit amounts to.
    pub open spec fn classify_spec(&self, hit: GroundHit, up_vector: Vec3) -> Contact {
        Contact {
            entity: hit.entity,
            point: hit.point,
            normal: hit.normal,
            distance: hit.distance,
            stable: self.stable_spec(hit.normal, up_vector),
            point_velocity: hit.point_velocity,
        }
    }

    /// The contact sensed this tick: none while sensing is suppressed, none
    /// without a hit, none for a hit beyond the probe's reach.
    pub open spec fn sense_spec(&self, hit: Option<GroundHit>, up_vector: Vec3) -> Option<Contact> {
        if self.skip_ground_check_timer.raw > 0 {
            None
        } else {
            match hit {
                Some(h) => if h.distance.raw <= self.cast_length.raw {
                    Some(self.classify_spec(h, up_vector))
                } else {
                    None
                },
                None => None,
            }
        }
    }

    /// The fallback contacts after a tick: a new contact replaces them, a
    /// contact lost this very tick leaves them, a second tick without
    /// contact clears them.
    pub open spec fn viable_spec(
        previous: GroundCast,
        sensed: Option<Contact>,
    ) -> Seq<Contact> {
        match sensed {
            Some(contact) => seq![contact],
            None => if previous.current is Some {
                previous.viable@
            } else {
                Seq::empty()
            },
        }
    }

    /// Whether the probe should be cast at all this tick.
    pub fn should_cast(&self) -> (r: bool)
        ensures
            r == !(self.skip_ground_check_timer.raw > 0),
    {
        !(self.skip_ground_check_timer.raw > 0)
    }

    /// Classifies a hit as walkable or too steep.
    pub fn classify(&self, hit: &GroundHit, up_vector: Vec3) -> (r: Contact)
        ensures
            r == self.classify_spec(*hit, up_vector),
    {
        Contact {
            entity: hit.entity,
            point: hit.point,
            normal: hit.normal,
            distance: hit.distance,
            stable: hit.normal.dot(up_vector).raw >= self.max_ground_angle_cos.raw,
            point_velocity: hit.point_velocity,
        }
    }

    /// Turns this tick's probe result into the ground cast, and runs the
    /// suppression timer down by `dt`.
    pub fn update(
        &mut self,
        cast: &mut GroundCast,
        hit: Option<GroundHit>,
        up_vector: Vec3,
        dt: Fixed,
    )
        ensures
            final(cast).current == old(self).sense_spec(hit, up_vector),
            final(cast).viable@ == GroundCaster::viable_spec(
                *old(cast),
                old(self).sense_spec(hit, up_vector),
            ),
            final(self).skip_ground_check_timer == tick_down_spec(
                old(self).skip_ground_check_timer,
                dt,
            ),
            final(self).cast_length == old(self).cast_length,
            final(self).max_ground_angle_cos == old(self).max_ground_angle_cos,
    {
        let mut sensed: Option<Contact> = None;
        if !(self.skip_ground_check_timer.raw > 0) {
            if let Some(h) = hit {
                if h.distance.raw <= self.cast_length.raw {
                    sensed = Some(self.classify(&h, up_vector));
                }
            }
        }
        match sensed {
            Some(contact) => {
                let mut viable: Vec<Contact> = Vec::new();
                viable.push(contact);
                assert(viable@ =~= seq![contact]);
                cast.viable = viable;
            },
            None => {
                if cast.current.is_none() {
                    cast.viable = Vec::new();
                }
            },
        }
        cast.current = sensed;
        self.skip_ground_check_timer = tick_down(self.skip_ground_check_timer, dt);
    }
}

} // verus!
