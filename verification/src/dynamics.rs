//! Bookkeeping of the equations of motion.
//!
//! The rate of change of a state is again a vector in the state layout. Its
//! position slots hold the velocities of the state, bit for bit. Its
//! velocity slots hold one acceleration per body, which the host computes
//! from the two attractions listed here for that body and adds up.
use vstd::prelude::*;

use crate::layout::{others, others_of, BODIES};
use crate::params::SimulationParameters;
use crate::state::{flatten, Body, SimulationState, Planar};

verus! {

/// One pull of gravity: the body at `source`, of mass `source_mass`, draws
/// the body at `target` towards itself. The displacement that enters the
/// force law is `source` minus `target`.
#[derive(Clone, Copy, PartialEq, Eq, Structural, Debug)]
pub struct Attraction {
    pub target: Planar,
    pub source: Planar,
    pub source_mass: u32,
}

/// The pull of body `source` on body `target`.
pub open spec fn attraction_of(
    state: SimulationState,
    params: SimulationParameters,
    target: int,
    source: int,
) -> Attraction {
    Attraction {
        target: state.position_of(target),
        source: state.position_of(source),
        source_mass: params.mass_of(source),
    }
}

/// The two pulls on `body`, by ascending index of the attracting body.
pub open spec fn attractions_of(
    state: SimulationState,
    params: SimulationParameters,
    body: int,
) -> Seq<Attraction> {
    seq![
        attraction_of(state, params, body, others_of(body).0),
        attraction_of(state, params, body, others_of(body).1),
    ]
}

/// The rate of change of each body under `accelerations`: its position
/// changes at its velocity, its velocity at its acceleration.
pub open spec fn rates_of(state: SimulationState, accelerations: Seq<Planar>) -> Seq<Body> {
    Seq::new(
        BODIES as nat,
        |body: int| Body { position: state.velocity_of(body), velocity: accelerations[body] },
    )
}

/// Lists the two pulls on `body`: from each of the other two bodies, at its
/// position and with its mass, lower index first.
pub fn attractions(state: &SimulationState, params: &SimulationParameters, body: usize) -> (pulls:
    [Attraction; 2])
    requires
        body < BODIES,
    ensures
        pulls@ == attractions_of(*state, *params, body as int),
{
    let (first, second) = others(body);
    let target = state.position(body);
    let pulls = [
        Attraction { target, source: state.position(first), source_mass: params.mass(first) },
        Attraction { target, source: state.position(second), source_mass: params.mass(second) },
    ];
    assert(pulls@ =~= attractions_of(*state, *params, body as int));
    pulls
}

/// Assembles the rate of change of `state` from the acceleration of each
/// body.
pub fn derivative(state: &SimulationState, accelerations: &[Planar; BODIES]) -> (rate: SimulationState)
    ensures
        rate@ == flatten(rates_of(*state, accelerations@)),
{
    let rates = [
        Body { position: state.velocity(0), velocity: accelerations[0] },
        Body { position: state.velocity(1), velocity: accelerations[1] },
        Body { position: state.velocity(2), velocity: accelerations[2] },
    ];
    assert(rates@ =~= rates_of(*state, accelerations@));
    SimulationState::from_bodies(&rates)
}

/// Every body is pulled by each of the other two, once, and never by
/// itself: the sources of the two pulls on `target` are two different
/// bodies other than `target`, and the pull of any other body `source` is
/// one of the two.
pub proof fn lemma_attractions_pairing(
    state: SimulationState,
    params: SimulationParameters,
    target: int,
    source: int,
)
    requires
        0 <= target < BODIES,
        0 <= source < BODIES,
        target != source,
    ensures
        attractions_of(state, params, target).len() == 2,
        0 <= others_of(target).0 < others_of(target).1 < BODIES,
        others_of(target).0 != target,
        others_of(target).1 != target,
        source == others_of(target).0 || source == others_of(target).1,
        attractions_of(state, params, target).contains(
            attraction_of(state, params, target, source),
        ),
{
    let pulls = attractions_of(state, params, target);
    if source == others_of(target).0 {
        assert(pulls[0] == attraction_of(state, params, target, source));
    } else {
        assert(pulls[1] == attraction_of(state, params, target, source));
    }
}

/// The two pulls between a pair of bodies join the same two points in
/// opposite directions: the target of one is the source of the other.
pub proof fn lemma_attractions_reciprocal(
    state: SimulationState,
    params: SimulationParameters,
    i: int,
    j: int,
)
    ensures
        attraction_of(state, params, i, j).target == attraction_of(state, params, j, i).source,
        attraction_of(state, params, i, j).source == attraction_of(state, params, j, i).target,
{
}

} // verus!
