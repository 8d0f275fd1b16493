//! A shared pixel canvas whose cells are rented through a continuous
//! pay-to-extend auction, with every bid escrowed in a single vault.
pub mod accounts;
pub mod auction;
pub mod error;
pub mod laws;
