//! The input of a randomized exercise of the store.
use vstd::prelude::*;

verus! {

/// One random draw: a key and the value to store under it.
#[derive(Debug, Clone, Copy, PartialEq, Eq, Structural)]
pub struct Random {
    pub value: u8,
    pub key: i32,
}

} // verus!
