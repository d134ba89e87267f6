//! Races between the members of a chat channel.
//!
//! A channel holds at most one race at a time. Somebody opens it, others
//! enter and say when they are ready, the race starts once every entrant is
//! ready, and it closes again once every racer has finished or forfeited.

pub mod laws;
pub mod model;
pub mod race;
pub mod registry;
pub mod text;
pub mod time;
pub mod validity;
