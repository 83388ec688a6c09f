//! Bookkeeping core of a planar three-body gravity simulation.
//!
//! Every scalar that crosses this crate's boundary is the bit pattern of an
//! IEEE 754 binary32 value. The crate decides which configurations may start
//! a run, where each physical quantity lives in the state vector, and whether
//! a freshly integrated state may replace the current one. The arithmetic of
//! the integrator itself belongs to the host.
pub mod binary32;
pub mod layout;
pub mod state;
pub mod params;
pub mod dynamics;
pub mod simulation;
