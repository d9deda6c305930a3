//! `GET /health_check`: the liveness probe.

use vstd::prelude::*;
use crate::response::{bare, Reply, OK};

verus! {

/// Answers the probe: [`OK`] with an empty body, whatever state the store is
/// in. The handler is given nothing to look at.
pub fn health_check() -> (reply: Reply)
    ensures
        reply@ == bare(OK),
{
    Reply::bare(OK)
}

} // verus!
