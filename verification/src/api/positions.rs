//! Positions endpoint types.

use vstd::prelude::*;

verus! {

#[derive(Debug)]
pub struct ErrorResponse {
    pub error: String,
}

} // verus!
