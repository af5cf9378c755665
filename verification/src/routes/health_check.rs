//! The liveness probe.

use crate::routes::{bare, Response};
use vstd::prelude::*;

verus! {

/// Where the liveness probe is served, for `GET` requests.
pub const HEALTH_CHECK_PATH: &'static str = "/healthcheck";

/// Answers the liveness probe: 200 with an empty body, whatever the request,
/// and without a look at the store.
pub fn health_check() -> (response: Response)
    ensures
        response@ == bare(200),
        response.status == 200,
        response.body@.len() == 0,
{
    Response::empty(200)
}

} // verus!
