//! The integrator loop's side of a tick.
//!
//! A run owns its parameters, its step size, the current state and the
//! number of steps taken. The host integrates the current state over one
//! step size and offers the outcome; the run takes it over whole or not
//! at all.
use vstd::prelude::*;

use crate::binary32::{is_positive, positive};
use crate::layout::BODIES;
use crate::params::{SimulationError, SimulationParameters};
use crate::state::{SimulationState, Planar};

verus! {

/// A running simulation.
///
/// The step size of a value of this type is always greater than zero.
#[derive(Debug)]
pub struct Simulation {
    params: SimulationParameters,
    dt: u32,
    state: SimulationState,
    ticks: u64,
}

impl Simulation {
    #[verifier::type_invariant]
    spec fn well_formed(self) -> bool {
        positive(self.dt)
    }

    /// The parameters the run was started with.
    pub closed spec fn parameters(&self) -> SimulationParameters {
        self.params
    }

    /// The fixed step size.
    pub closed spec fn step_size(&self) -> u32 {
        self.dt
    }

    /// The current state.
    pub closed spec fn current(&self) -> SimulationState {
        self.state
    }

    /// The number of steps taken so far. The simulated time is this many
    /// step sizes.
    pub closed spec fn steps(&self) -> nat {
        self.ticks as nat
    }

    /// Starts a run at `initial` if the step size is greater than zero, and
    /// refuses otherwise.
    pub fn new(params: SimulationParameters, dt: u32, initial: SimulationState) -> (r: Result<
        Simulation,
        SimulationError,
    >)
        ensures
            match r {
                Ok(sim) => {
                    &&& positive(dt)
                    &&& sim.parameters() == params
                    &&& sim.step_size() == dt
                    &&& sim.current() == initial
                    &&& sim.steps() == 0
                },
                Err(e) => !positive(dt) && e == SimulationError::InvalidConfiguration,
            },
    {
        if is_positive(dt) {
            Ok(Simulation { params, dt, state: initial, ticks: 0 })
        } else {
            Err(SimulationError::InvalidConfiguration)
        }
    }

    /// The parameters the run was started with.
    pub fn params(&self) -> (p: SimulationParameters)
        ensures
            p == self.parameters(),
    {
        self.params
    }

    /// The fixed step size, which is greater than zero.
    pub fn dt(&self) -> (value: u32)
        ensures
            value == self.step_size(),
            positive(value),
    {
        proof {
            use_type_invariant(self);
        }
        self.dt
    }

    /// The current state.
    pub fn state(&self) -> (s: SimulationState)
        ensures
            s == self.current(),
    {
        self.state
    }

    /// The number of steps taken so far.
    pub fn ticks(&self) -> (n: u64)
        ensures
            n == self.steps(),
    {
        self.ticks
    }

    /// The current positions of the three bodies.
    pub fn positions(&self) -> (snapshot: [Planar; BODIES])
        ensures
            snapshot@ == self.current().positions_of(),
    {
        self.state.positions()
    }

    /// Ends a tick with `next`, the state that integration over one step
    /// size arrived at.
    ///
    /// If every slot of `next` is finite, `next` becomes the current state,
    /// the step count grows by one and the new positions are returned. If
    /// not, the step fails and the run stays exactly as it was.
    pub fn commit(&mut self, next: SimulationState) -> (r: Result<[Planar; BODIES], SimulationError>)
        requires
            old(self).steps() < u64::MAX,
        ensures
            match r {
                Ok(snapshot) => {
                    &&& next.all_finite()
                    &&& final(self).current() == next
                    &&& final(self).steps() == old(self).steps() + 1
                    &&& final(self).parameters() == old(self).parameters()
                    &&& final(self).step_size() == old(self).step_size()
                    &&& snapshot@ == next.positions_of()
                },
                Err(e) => {
                    &&& !next.all_finite()
                    &&& e == SimulationError::NumericDivergence
                    &&& *final(self) == *old(self)
                },
            },
    {
        proof {
            use_type_invariant(&*self);
        }
        if next.is_finite() {
            self.state = next;
            self.ticks = self.ticks + 1;
            Ok(next.positions())
        } else {
            Err(SimulationError::NumericDivergence)
        }
    }
}

} // verus!
