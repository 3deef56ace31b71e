//! Client for the Pump.fun program on Solana: creating, buying and selling tokens.
//!
//! This crate makes every decision of the client and touches no network. It derives the addresses,
//! decodes the accounts, quotes the trades, builds the instructions, and drives each operation as a
//! sequence of actions that whoever owns a connection carries out: see [`flow`].
pub mod accounts;
pub mod address;
pub mod client;
pub mod constants;
pub mod cpi;
pub mod error;
pub mod flow;
pub mod instruction;
pub mod laws;
pub mod pubkey;
pub mod request;
pub mod utils;

pub use client::{Client, Cluster, CommitmentConfig, CommitmentLevel, PriorityFee, PumpFun};
pub use flow::{Action, Event, Flow};
pub use pubkey::{Pubkey, Signature};
