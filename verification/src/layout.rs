//! Fixed layout of the state vector.
//!
//! The vector has one slot per body and quantity. Slots are grouped by
//! quantity: the x positions of bodies 0, 1, 2 come first, then the y
//! positions, the x velocities and the y velocities.
use vstd::prelude::*;

verus! {

/// Number of bodies.
pub const BODIES: usize = 3;

/// Number of slots in the state vector.
pub const STATE_LEN: usize = 12;

/// What a slot of the state vector holds.
#[derive(Clone, Copy, PartialEq, Eq, Structural, Debug)]
pub enum Quantity {
    PositionX,
    PositionY,
    VelocityX,
    VelocityY,
}

impl Quantity {
    /// Rank of the group of three slots that holds this quantity.
    pub open spec fn group(self) -> int {
        match self {
            Quantity::PositionX => 0,
            Quantity::PositionY => 1,
            Quantity::VelocityX => 2,
            Quantity::VelocityY => 3,
        }
    }
}

/// Slot of `quantity` for `body`.
pub open spec fn slot_of(quantity: Quantity, body: int) -> int {
    quantity.group() * BODIES + body
}

/// The pair of bodies other than `body`, lower index first.
pub open spec fn others_of(body: int) -> (int, int) {
    if body == 0 {
        (1, 2)
    } else if body == 1 {
        (0, 2)
    } else {
        (0, 1)
    }
}

/// The quantity that `slot` holds.
pub open spec fn quantity_at(slot: int) -> Quantity {
    if slot < 3 {
        Quantity::PositionX
    } else if slot < 6 {
        Quantity::PositionY
    } else if slot < 9 {
        Quantity::VelocityX
    } else {
        Quantity::VelocityY
    }
}

/// The body that `slot` belongs to.
pub open spec fn body_at(slot: int) -> int {
    slot % (BODIES as int)
}

/// No slot serves two purposes: the slot of a quantity for a body holds
/// that quantity of that body, so distinct pairs have distinct slots.
pub proof fn lemma_slot_reads_back(quantity: Quantity, body: int)
    requires
        0 <= body < BODIES,
    ensures
        0 <= slot_of(quantity, body) < STATE_LEN,
        quantity_at(slot_of(quantity, body)) == quantity,
        body_at(slot_of(quantity, body)) == body,
{
}

/// No slot is unused: every index below `STATE_LEN` is the slot of the
/// quantity it holds for the body it belongs to.
pub proof fn lemma_slot_covers(slot: int)
    requires
        0 <= slot < STATE_LEN,
    ensures
        0 <= body_at(slot) < BODIES,
        slot_of(quantity_at(slot), body_at(slot)) == slot,
{
}

/// Index into the state vector of `quantity` for `body`.
pub fn slot(quantity: Quantity, body: usize) -> (s: usize)
    requires
        body < BODIES,
    ensures
        s == slot_of(quantity, body as int),
        s < STATE_LEN,
{
    let group: usize = match quantity {
        Quantity::PositionX => 0,
        Quantity::PositionY => 1,
        Quantity::VelocityX => 2,
        Quantity::VelocityY => 3,
    };
    group * BODIES + body
}

/// The two bodies that attract `body`, lower index first.
pub fn others(body: usize) -> (pair: (usize, usize))
    requires
        body < BODIES,
    ensures
        (pair.0 as int, pair.1 as int) == others_of(body as int),
        pair.0 < pair.1 < BODIES,
        pair.0 != body,
        pair.1 != body,
{
    if body == 0 {
        (1, 2)
    } else if body == 1 {
        (0, 2)
    } else {
        (0, 1)
    }
}

} // verus!
