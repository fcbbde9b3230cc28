//! Settlement and account-state layer of an on-chain spot exchange.
pub mod account;
pub mod error;
pub mod instruction;
pub mod key;
pub mod order_id;
pub mod processor;
pub mod register;
pub mod signer;
pub mod state;
pub mod utils;
pub mod wire;
