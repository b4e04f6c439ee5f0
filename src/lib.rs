//! Live baseball scores: request building, schedule and game models, team
//! selection, ordered collection of concurrently fetched results, and the
//! derivation of box scores and start times from a live game.

pub mod text;
pub mod requests;
pub mod link;
pub mod teams;
pub mod live;
pub mod schedule;
pub mod pipeline;
