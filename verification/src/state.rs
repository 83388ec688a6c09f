//! The state vector and its per-body reading.
use vstd::prelude::*;

use crate::binary32::{finite, is_finite};
use crate::layout::{
    body_at, lemma_slot_covers, lemma_slot_reads_back, quantity_at, slot, slot_of, Quantity,
    BODIES, STATE_LEN,
};

verus! {

/// A planar vector: a position, a velocity or an acceleration.
#[derive(Clone, Copy, PartialEq, Eq, Structural, Debug)]
pub struct Planar {
    pub x: u32,
    pub y: u32,
}

/// Position and velocity of one body.
#[derive(Clone, Copy, PartialEq, Eq, Structural, Debug)]
pub struct Body {
    pub position: Planar,
    pub velocity: Planar,
}

impl Body {
    /// The coordinate of this body that `quantity` names.
    pub open spec fn component_of(&self, quantity: Quantity) -> u32 {
        match quantity {
            Quantity::PositionX => self.position.x,
            Quantity::PositionY => self.position.y,
            Quantity::VelocityX => self.velocity.x,
            Quantity::VelocityY => self.velocity.y,
        }
    }
}

/// The state vector of three bodies: each slot holds the quantity that the
/// layout assigns to it, of the body that the layout assigns to it.
pub open spec fn flatten(bodies: Seq<Body>) -> Seq<u32> {
    Seq::new(STATE_LEN as nat, |slot: int| bodies[body_at(slot)].component_of(quantity_at(slot)))
}

/// Positions and velocities of the three bodies in the flat layout that
/// the integrator works on.
#[derive(Clone, Copy, Debug)]
pub struct SimulationState {
    pub slots: [u32; STATE_LEN],
}

impl View for SimulationState {
    type V = Seq<u32>;

    open spec fn view(&self) -> Seq<u32> {
        self.slots@
    }
}

impl SimulationState {
    /// Value of `quantity` for `body`.
    pub open spec fn component_of(&self, quantity: Quantity, body: int) -> u32 {
        self@[slot_of(quantity, body)]
    }

    /// Position of `body`.
    pub open spec fn position_of(&self, body: int) -> Planar {
        Planar {
            x: self.component_of(Quantity::PositionX, body),
            y: self.component_of(Quantity::PositionY, body),
        }
    }

    /// Velocity of `body`.
    pub open spec fn velocity_of(&self, body: int) -> Planar {
        Planar {
            x: self.component_of(Quantity::VelocityX, body),
            y: self.component_of(Quantity::VelocityY, body),
        }
    }

    /// Position and velocity of `body`.
    pub open spec fn body_of(&self, body: int) -> Body {
        Body { position: self.position_of(body), velocity: self.velocity_of(body) }
    }

    /// Position and velocity of all bodies, by body index.
    pub open spec fn bodies_of(&self) -> Seq<Body> {
        Seq::new(BODIES as nat, |body: int| self.body_of(body))
    }

    /// Positions of all bodies, by body index.
    pub open spec fn positions_of(&self) -> Seq<Planar> {
        Seq::new(BODIES as nat, |body: int| self.position_of(body))
    }

    /// Every slot holds a finite number.
    pub open spec fn all_finite(&self) -> bool {
        forall|i: int| 0 <= i < STATE_LEN ==> finite(#[trigger] self@[i])
    }

    /// Lays three bodies out in the state vector.
    pub fn from_bodies(bodies: &[Body; BODIES]) -> (state: SimulationState)
        ensures
            state@ == flatten(bodies@),
    {
        SimulationState {
            slots: [
                bodies[0].position.x,
                bodies[1].position.x,
                bodies[2].position.x,
                bodies[0].position.y,
                bodies[1].position.y,
                bodies[2].position.y,
                bodies[0].velocity.x,
                bodies[1].velocity.x,
                bodies[2].velocity.x,
                bodies[0].velocity.y,
                bodies[1].velocity.y,
                bodies[2].velocity.y,
            ],
        }
    }

    /// Reads one quantity of one body.
    pub fn component(&self, quantity: Quantity, body: usize) -> (value: u32)
        requires
            body < BODIES,
        ensures
            value == self.component_of(quantity, body as int),
    {
        self.slots[slot(quantity, body)]
    }

    /// Reads the position of one body.
    pub fn position(&self, body: usize) -> (p: Planar)
        requires
            body < BODIES,
        ensures
            p == self.position_of(body as int),
    {
        Planar {
            x: self.component(Quantity::PositionX, body),
            y: self.component(Quantity::PositionY, body),
        }
    }

    /// Reads the velocity of one body.
    pub fn velocity(&self, body: usize) -> (v: Planar)
        requires
            body < BODIES,
        ensures
            v == self.velocity_of(body as int),
    {
        Planar {
            x: self.component(Quantity::VelocityX, body),
            y: self.component(Quantity::VelocityY, body),
        }
    }

    /// Reads position and velocity of one body.
    pub fn body(&self, body: usize) -> (b: Body)
        requires
            body < BODIES,
        ensures
            b == self.body_of(body as int),
    {
        Body { position: self.position(body), velocity: self.velocity(body) }
    }

    /// The positions of the three bodies, by body index.
    pub fn positions(&self) -> (snapshot: [Planar; BODIES])
        ensures
            snapshot@ == self.positions_of(),
    {
        [self.position(0), self.position(1), self.position(2)]
    }

    /// Tests whether every slot holds a finite number.
    pub fn is_finite(&self) -> (r: bool)
        ensures
            r == self.all_finite(),
    {
        let mut i: usize = 0;
        while i < STATE_LEN
            invariant
                i <= STATE_LEN,
                forall|j: int| 0 <= j < i ==> finite(#[trigger] self@[j]),
            decreases STATE_LEN - i,
        {
            if !is_finite(self.slots[i]) {
                assert(!finite(self@[i as int]));
                return false;
            }
            i += 1;
        }
        true
    }
}

/// Reading the bodies out of a state and laying them out again gives the
/// same vector.
pub proof fn lemma_flatten_bodies(state: SimulationState)
    ensures
        flatten(state.bodies_of()) == state@,
{
    assert forall|i: int| 0 <= i < STATE_LEN implies flatten(state.bodies_of())[i] == state@[i] by {
        lemma_slot_covers(i);
    }
}

/// Laying three bodies out and reading them back gives the same bodies.
pub proof fn lemma_bodies_flatten(state: SimulationState, bodies: Seq<Body>)
    requires
        bodies.len() == BODIES,
        state@ == flatten(bodies),
    ensures
        state.bodies_of() == bodies,
{
    assert forall|body: int| 0 <= body < BODIES implies state.body_of(body) == bodies[body] by {
        lemma_slot_reads_back(Quantity::PositionX, body);
        lemma_slot_reads_back(Quantity::PositionY, body);
        lemma_slot_reads_back(Quantity::VelocityX, body);
        lemma_slot_reads_back(Quantity::VelocityY, body);
    }
}

} // verus!
