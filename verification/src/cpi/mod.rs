//! The Pump.fun program: its address, and the arguments of its instructions.
use vstd::prelude::*;

pub mod instruction;

verus! {

/// Address of the Pump.fun program, `6EF8rrecthR5Dkzon8Nwu78hRvfCKubJ14M5uBEwF6P`.
pub const ID: [u8; 32] = [
    1, 86, 224, 246, 147, 102, 90, 207, 68, 219, 21, 104, 191, 23, 91, 170,
    81, 137, 203, 151, 245, 210, 255, 59, 101, 93, 43, 182, 253, 109, 24, 176,
];

} // verus!
