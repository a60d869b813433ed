//! Core of a small real-time airspace simulation.
//!
//! Ground stations are dropped onto a bounded plane under a minimum mutual
//! separation, aerial vehicles appear on a density-controlled cadence, and
//! every vehicle is moved along its heading once per update interval.
//!
//! All quantities are integers. Time is counted in nanoseconds, positions in
//! thousandths of a distance unit, speeds in knots, headings in whole degrees.

pub mod error;
pub mod timer;
pub mod random;
pub mod plane;
pub mod heading;
pub mod airport;
pub mod vehicle;
pub mod traffic;
pub mod simulation;
