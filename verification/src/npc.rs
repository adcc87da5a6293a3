//! The walk of a patrolling actor along its route.
//!
//! A route is a list of points; the actor walks from one to the next and
//! turns round at either end. Which point it has reached is for the caller
//! to say; the rules here keep the point it heads for and pick the next.
use vstd::prelude::*;

verus! {

/// Where a patrolling actor is on its route: the index of the point it heads
/// for, and whether it walks the route forward.
#[derive(Clone, Copy, Debug, PartialEq, Eq, Hash)]
pub struct Patrol {
    pub index: usize,
    pub forward: bool,
}

impl Default for Patrol {
    /// An actor at the first point of its route, heading forward for the
    /// second.
    fn default() -> (patrol: Patrol)
        ensures
            patrol == (Patrol { index: 1, forward: true }),
    {
        Patrol { index: 1, forward: true }
    }
}

impl Patrol {
    /// The walk after the actor has reached the point it headed for, on a
    /// route of `len` points: it turns forward at the first point and back
    /// at the last, and heads for the next point in its sense.
    pub open spec fn after_point(self, len: usize) -> Patrol {
        let forward = if self.index == 0 {
            true
        } else if self.index == len - 1 {
            false
        } else {
            self.forward
        };
        Patrol {
            index: if forward {
                (self.index + 1) as usize
            } else {
                (self.index - 1) as usize
            },
            forward,
        }
    }

    /// Heads for the next point of a route of `len` points, once the actor
    /// has reached the one it headed for. The new point is a neighbour of
    /// the old one and lies on the route.
    pub fn reach_point(&mut self, len: usize)
        requires
            2 <= len,
            old(self).index < len,
        ensures
            *final(self) == old(self).after_point(len),
            final(self).index < len,
            final(self).index == old(self).index + 1 || final(self).index + 1 == old(self).index,
    {
        if self.index == 0 {
            self.forward = true;
        } else if self.index == len - 1 {
            self.forward = false;
        }
        if self.forward {
            self.index = self.index + 1;
        } else {
            self.index = self.index - 1;
        }
    }
}

} // verus!
