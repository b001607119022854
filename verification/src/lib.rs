//! Asteroid-impact kinetic-energy calculator over exact rational arithmetic.
//!
//! The library computes, in CGS units, the kinetic energy released when a
//! hypothetical asteroid strikes at escape velocity, and compares it to the
//! energy of a 10-megaton explosive.  Every quantity is carried as an exact
//! rational number (`rat::Rat`), so each formula — sphere volume, unit
//! conversions, mass from density, kinetic energy — is verified to produce
//! exactly the value its mathematical model prescribes.

pub mod physics;
pub mod rat;
pub mod report;
