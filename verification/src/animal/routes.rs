//! Where the animal resource is served.

use vstd::prelude::*;
use crate::router::{crud_routes, Rocket};

verus! {

/// Mounts the five animal routes at `/api/animals`.
pub fn fuel(rocket: Rocket) -> (fuelled: Rocket)
    ensures
        fuelled.routes@ == rocket.routes@ + crud_routes("/api/animals"),
{
    rocket.mount_crud("/api/animals")
}

} // verus!
