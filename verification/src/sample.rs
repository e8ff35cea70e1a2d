//! The data item that a subscription delivers.

use vstd::prelude::*;

verus! {

/// A single delivered data item, bound to the key it was published on.
#[derive(Clone, Debug, PartialEq, Eq)]
pub struct Sample {
    pub key_expr: String,
    pub value: Vec<u8>,
}

} // verus!
