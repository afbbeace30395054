//! Where the car resource is served.

use vstd::prelude::*;
use crate::router::{crud_routes, Rocket};

verus! {

/// Mounts the five car routes at `/api/cars`.
pub fn fuel(rocket: Rocket) -> (fuelled: Rocket)
    ensures
        fuelled.routes@ == rocket.routes@ + crud_routes("/api/cars"),
{
    rocket.mount_crud("/api/cars")
}

} // verus!
