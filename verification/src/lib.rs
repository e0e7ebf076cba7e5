//! A fortune, its owner and a leaderboard of scores, kept as one stored record
//! that commands read, change and write back as a whole.

pub mod contract;
pub mod error;
pub mod laws;
pub mod ledger;
pub mod msg;
pub mod response;
pub mod state;
pub mod store;
pub mod text;
