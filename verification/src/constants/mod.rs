//! Values fixed by the on-chain programs.
pub mod accounts;
pub mod seeds;
