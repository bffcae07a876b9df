//! Fixed-width binary floating-point values carried by their IEEE-754 bit
//! patterns. The library stores, copies and compares such values but never
//! computes with them; the edge of the program converts them with
//! `to_bits`/`from_bits`, which is exact in both directions.
use vstd::prelude::*;

verus! {

/// A binary32 value, held as its bit pattern.
#[derive(Clone, Copy, PartialEq, Eq, Debug)]
pub struct Real32 {
    pub bits: u32,
}

/// A binary64 value, held as its bit pattern.
#[derive(Clone, Copy, PartialEq, Eq, Debug)]
pub struct Real64 {
    pub bits: u64,
}

} // verus!
