use vstd::prelude::*;

verus! {

/// The envelope every request body arrives in: the route's payload and an
/// optional flow token continuing an earlier step.
#[derive(Debug)]
pub struct Request<T> {
    pub data: T,
    pub flow_token: Option<String>,
}

} // verus!
