use vstd::prelude::*;

verus! {

/// What a point lookup against the storage engine came back with: a row's
/// value, no row, or a storage failure. A failure is never folded into a
/// miss: every decision function maps it to an internal error.
#[derive(Debug)]
pub enum LookupResult {
    Hit(String),
    Miss,
    Failed,
}

} // verus!
