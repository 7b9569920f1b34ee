//! Verified models of two MultiversX smart contracts: an auction house and a zombie registry.
pub mod address;
pub mod amount;
pub mod token;
pub mod auction;
pub mod zombies;
pub mod auction_laws;
pub mod zombies_laws;
