//! What is kept about a service: who owns it, what it has staked, how its
//! calls ended and how fast it answers.

pub mod bond;
pub mod latency;
pub mod outcome;
pub mod service;
