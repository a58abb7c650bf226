//! The rules of a ticket lottery run as a Solana program: configuration,
//! ticket sales inside a slot window, randomness commitment, winner draw and
//! the winner's claim of the pot.
pub mod errors;
pub mod laws;
pub mod lottery;
pub mod metadata;
pub mod randomness;
pub mod state;
pub mod ticket;
