//! Seeds of the program derived addresses.
use vstd::prelude::*;

verus! {

/// `global`: seed of the global state account.
pub const GLOBAL_SEED: [u8; 6] = [103, 108, 111, 98, 97, 108];

/// `mint-authority`: seed of the authority that mints every token.
pub const MINT_AUTHORITY_SEED: [u8; 14] = [
    109, 105, 110, 116, 45, 97, 117, 116, 104, 111, 114, 105, 116, 121,
];

/// `bonding-curve`: first seed of a token's bonding curve account.
pub const BONDING_CURVE_SEED: [u8; 13] = [98, 111, 110, 100, 105, 110, 103, 45, 99, 117, 114, 118, 101];

/// `metadata`: first seed of a token's metadata account.
pub const METADATA_SEED: [u8; 8] = [109, 101, 116, 97, 100, 97, 116, 97];

} // verus!
