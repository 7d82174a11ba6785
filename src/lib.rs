use vstd::prelude::*;

pub mod company;
pub mod error;
pub mod laws;
pub mod listing;
pub mod numeral;

verus! {

/// Status code of a successful health probe.
pub fn health_check() -> (r: u16)
    ensures
        r == 200,
{
    company::OK
}

} // verus!
