use vstd::prelude::*;

use crate::error::ApiError;

verus! {

/// The body of a project's feature flag listing.
pub struct Response<T> {
    pub items: Vec<T>,
}

/// The answer to a flag listing, given the flags the lookup returned.
pub fn respond<T>(flags: Result<Vec<T>, ApiError>) -> (r: Result<Response<T>, ApiError>)
    ensures
        match flags {
            Ok(items) => r matches Ok(resp) && resp.items@ == items@,
            Err(e) => r == Err::<Response<T>, ApiError>(e),
        },
{
    match flags {
        Ok(items) => Ok(Response { items }),
        Err(e) => Err(e),
    }
}

} // verus!
