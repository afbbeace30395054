//! The route table: which operation answers which method and path.

use vstd::prelude::*;

verus! {

/// The HTTP methods that the routes use.
#[derive(Clone, Copy, Debug, PartialEq, Eq)]
pub enum Method {
    Get,
    Post,
    Patch,
    Delete,
}

/// What a route does.
#[derive(Clone, Copy, Debug, PartialEq, Eq)]
pub enum Operation {
    HealthCheck,
    Reads,
    Read,
    Post,
    Patch,
    Delete,
}

/// One route: a method and a path pattern below a base, and the operation
/// that answers it.
#[derive(Clone, Copy, Debug, PartialEq, Eq)]
pub struct Route {
    pub method: Method,
    pub base: &'static str,
    pub pattern: &'static str,
    pub operation: Operation,
}

/// The routes of an application, in the order in which they were mounted.
#[derive(Clone, Debug, PartialEq, Eq)]
pub struct Rocket {
    pub routes: Vec<Route>,
}

/// The five routes of a resource mounted at `base`.
pub open spec fn crud_routes(base: &'static str) -> Seq<Route> {
    seq![
        Route { method: Method::Get, base, pattern: "/", operation: Operation::Reads },
        Route { method: Method::Get, base, pattern: "/<obj_id>", operation: Operation::Read },
        Route { method: Method::Post, base, pattern: "/", operation: Operation::Post },
        Route { method: Method::Patch, base, pattern: "/<obj_id>", operation: Operation::Patch },
        Route { method: Method::Delete, base, pattern: "/<obj_id>", operation: Operation::Delete },
    ]
}

impl Rocket {
    /// An application without routes.
    pub fn build() -> (rocket: Rocket)
        ensures
            rocket.routes@ == Seq::<Route>::empty(),
    {
        Rocket { routes: Vec::new() }
    }

    /// Adds one route after those that are there.
    pub fn mount(self, route: Route) -> (rocket: Rocket)
        ensures
            rocket.routes@ == self.routes@.push(route),
    {
        let mut routes = self.routes;
        routes.push(route);
        Rocket { routes }
    }

    /// Adds the five routes of a resource at `base`.
    pub fn mount_crud(self, base: &'static str) -> (rocket: Rocket)
        ensures
            rocket.routes@ == self.routes@ + crud_routes(base),
    {
        let rocket = self.mount(
            Route { method: Method::Get, base, pattern: "/", operation: Operation::Reads },
        ).mount(
            Route { method: Method::Get, base, pattern: "/<obj_id>", operation: Operation::Read },
        ).mount(
            Route { method: Method::Post, base, pattern: "/", operation: Operation::Post },
        ).mount(
            Route { method: Method::Patch, base, pattern: "/<obj_id>", operation: Operation::Patch },
        ).mount(
            Route {
                method: Method::Delete,
                base,
                pattern: "/<obj_id>",
                operation: Operation::Delete,
            },
        );
        assert(rocket.routes@ =~= self.routes@ + crud_routes(base));
        rocket
    }
}

} // verus!
