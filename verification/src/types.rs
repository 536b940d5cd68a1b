//! The parameters of the calls that carry more than one value.

use vstd::prelude::*;

verus! {

/// The pair that a set-call carries: the key and the value to bind it to.
#[derive(Clone, Copy, Debug, PartialEq, Eq, Structural)]
pub struct KeyValueType {
    pub key: u64,
    pub value: u64,
}

} // verus!
