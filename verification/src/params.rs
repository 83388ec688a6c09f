//! Physical parameters of a run and the check that admits them.
use vstd::prelude::*;

use crate::binary32::{is_positive, positive};
use crate::layout::BODIES;

verus! {

/// Why the simulation refused to start or to go on.
#[derive(Clone, Copy, PartialEq, Eq, Structural, Debug)]
pub enum SimulationError {
    /// A mass, the softening length or the step size is not greater than
    /// zero.
    InvalidConfiguration,
    /// An integrated state holds an infinity or a NaN.
    NumericDivergence,
}

/// Gravitational constant, masses and softening length, fixed for a run.
///
/// A value of this type always holds three positive masses and a positive
/// softening length.
#[derive(Clone, Copy, Debug)]
pub struct SimulationParameters {
    g: u32,
    masses: [u32; BODIES],
    epsilon: u32,
}

/// The masses and the softening length are all greater than zero.
pub open spec fn admissible(m1: u32, m2: u32, m3: u32, epsilon: u32) -> bool {
    positive(m1) && positive(m2) && positive(m3) && positive(epsilon)
}

impl SimulationParameters {
    #[verifier::type_invariant]
    spec fn well_formed(self) -> bool {
        admissible(self.masses@[0], self.masses@[1], self.masses@[2], self.epsilon)
    }

    /// The gravitational constant.
    pub closed spec fn gravity(&self) -> u32 {
        self.g
    }

    /// The mass of `body`.
    pub closed spec fn mass_of(&self, body: int) -> u32 {
        self.masses@[body]
    }

    /// The softening length.
    pub closed spec fn softening(&self) -> u32 {
        self.epsilon
    }

    /// Admits the parameters if the three masses and the softening length
    /// are greater than zero, and refuses them otherwise. The gravitational
    /// constant is taken as given.
    pub fn new(g: u32, m1: u32, m2: u32, m3: u32, epsilon: u32) -> (r: Result<
        SimulationParameters,
        SimulationError,
    >)
        ensures
            match r {
                Ok(p) => {
                    &&& admissible(m1, m2, m3, epsilon)
                    &&& p.gravity() == g
                    &&& p.mass_of(0) == m1
                    &&& p.mass_of(1) == m2
                    &&& p.mass_of(2) == m3
                    &&& p.softening() == epsilon
                },
                Err(e) => !admissible(m1, m2, m3, epsilon) && e
                    == SimulationError::InvalidConfiguration,
            },
    {
        if is_positive(m1) && is_positive(m2) && is_positive(m3) && is_positive(epsilon) {
            Ok(SimulationParameters { g, masses: [m1, m2, m3], epsilon })
        } else {
            Err(SimulationError::InvalidConfiguration)
        }
    }

    /// The gravitational constant.
    pub fn g(&self) -> (value: u32)
        ensures
            value == self.gravity(),
    {
        self.g
    }

    /// The mass of `body`, which is greater than zero.
    pub fn mass(&self, body: usize) -> (value: u32)
        requires
            body < BODIES,
        ensures
            value == self.mass_of(body as int),
            positive(value),
    {
        proof {
            use_type_invariant(self);
        }
        self.masses[body]
    }

    /// The softening length, which is greater than zero.
    pub fn epsilon(&self) -> (value: u32)
        ensures
            value == self.softening(),
            positive(value),
    {
        proof {
            use_type_invariant(self);
        }
        self.epsilon
    }
}

} // verus!
