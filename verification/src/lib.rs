//! Rails in two dimensions: a network of linked path segments, followers that
//! move along them and hop between neighbours, and turnouts that select one
//! rail out of several.
//!
//! Distances are whole ticks. The host decides how long a tick is and samples
//! the curves; this crate decides where a follower is and what is to be
//! sampled.

pub mod distance;
pub mod error;
pub mod rail;
pub mod rail_follower;
pub mod turnout;
