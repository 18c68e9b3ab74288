//! Deterministic core of a climate simulation engine: the hashing and
//! pseudo-random draws behind its synthetic fields, the catalogue of
//! monitored regions, the simulation and forecast plans, and the request
//! counters that the service keeps.

pub mod hash;
pub mod rng;
pub mod ident;
pub mod simulation;
pub mod stats;
pub mod regions;
pub mod anomaly;
pub mod forecast;

pub use hash::simple_hash_str;
