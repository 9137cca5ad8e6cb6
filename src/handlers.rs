//! The three state transitions. Each one either succeeds and applies all of
//! its effects, or fails with a `QvError` and leaves the store as it was.

pub mod initialize_dao;
pub mod initialize_proposal;
pub mod cast_vote;
