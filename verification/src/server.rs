//! The application as a whole: the health check and the routes of every
//! resource.

use vstd::prelude::*;
use crate::animal;
use crate::car;
use crate::router::{crud_routes, Method, Operation, Rocket, Route};

verus! {

/// The route of the health check.
pub open spec fn health_route() -> Route {
    Route { method: Method::Get, base: "/api", pattern: "/", operation: Operation::HealthCheck }
}

/// The body of the answer to a health check.
pub fn health_check() -> (body: &'static str)
    ensures
        body@ == "OK"@,
{
    "OK"
}

/// The route table of the application: the health check at `/api`, then the
/// cars, then the animals.
pub fn rocket() -> (rocket: Rocket)
    ensures
        rocket.routes@ == seq![health_route()] + crud_routes("/api/cars") + crud_routes(
            "/api/animals",
        ),
{
    let mut rocket = Rocket::build().mount(
        Route { method: Method::Get, base: "/api", pattern: "/", operation: Operation::HealthCheck },
    );
    rocket = car::routes::fuel(rocket);
    rocket = animal::routes::fuel(rocket);
    assert(rocket.routes@ =~= seq![health_route()] + crud_routes("/api/cars") + crud_routes(
        "/api/animals",
    ));
    rocket
}

} // verus!
