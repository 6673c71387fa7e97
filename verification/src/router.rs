//! The route table and the request router.
//!
//! A [`RouteTable`] is a static list of `(method, path, handler)`
//! rows, built once at startup by [`router_service`] and never
//! mutated. [`RouteTable::dispatch`] selects the first row matching a
//! request exactly on method and path and runs its handler; when no
//! row matches, the answer is the fixed 404 response.
//! [`route_request`] is the direct form of the same dispatch, and
//! [`lemma_table_agrees_with_route_request`] proves that the two
//! agree on every request.

use vstd::prelude::*;

use crate::api::{mpi_get, mpi_get_spec, mpi_set, mpi_set_spec};
use crate::http::{
    Method, Request, Response, ResponseSpec, not_found_response, not_found_spec, text_response,
    text_response_spec,
};

verus! {

/// The exact response of the `GET /greet` handler.
pub open spec fn greet_spec() -> ResponseSpec {
    text_response_spec("Hello World"@)
}

/// Handler for `GET /greet`: always the fixed `Hello World` body,
/// with status 200, `text/plain`, and `Content-Length` 11. The
/// request is ignored.
pub fn basic_handler(_req: &Request) -> (r: Response)
    ensures
        r@ == greet_spec(),
{
    text_response("Hello World")
}

/// Identity of a handler, as stored in the route table.
#[derive(Clone, Copy, PartialEq, Eq, Structural, Debug)]
pub enum HandlerId {
    MpiGet,
    MpiSet,
    Greet,
}

/// The response the identified handler returns — the same one for
/// every request, since no handler reads its request.
pub open spec fn handler_spec(h: HandlerId) -> ResponseSpec {
    match h {
        HandlerId::MpiGet => mpi_get_spec(),
        HandlerId::MpiSet => mpi_set_spec(),
        HandlerId::Greet => greet_spec(),
    }
}

/// Runs the identified handler on a request.
pub fn invoke_handler(h: HandlerId, req: &Request) -> (r: Response)
    ensures
        r@ == handler_spec(h),
{
    match h {
        HandlerId::MpiGet => mpi_get(req),
        HandlerId::MpiSet => mpi_set(req),
        HandlerId::Greet => basic_handler(req),
    }
}

/// One row of the route table: an exact method, an exact literal
/// path (no wildcards, no parameters), and the handler to run.
pub struct Route {
    pub method: Method,
    pub path: String,
    pub handler: HandlerId,
}

/// Mathematical view of a [`Route`].
pub ghost struct RouteSpec {
    pub method: Method,
    pub path: Seq<char>,
    pub handler: HandlerId,
}

impl View for Route {
    type V = RouteSpec;

    open spec fn view(&self) -> RouteSpec {
        RouteSpec { method: self.method, path: self.path@, handler: self.handler }
    }
}

/// First-match lookup in a sequence of routes: the handler of the
/// first row whose method and path both equal the request's, or
/// `None` when no row matches.
pub open spec fn lookup_spec(routes: Seq<RouteSpec>, method: Method, path: Seq<char>) -> Option<
    HandlerId,
>
    decreases routes.len(),
{
    if routes.len() == 0 {
        None
    } else if routes[0].method == method && routes[0].path == path {
        Some(routes[0].handler)
    } else {
        lookup_spec(routes.drop_first(), method, path)
    }
}

/// The response the table produces for a request: the matched
/// handler's response, or the 404 response when nothing matches.
pub open spec fn table_response_spec(
    routes: Seq<RouteSpec>,
    method: Method,
    path: Seq<char>,
) -> ResponseSpec {
    match lookup_spec(routes, method, path) {
        Some(h) => handler_spec(h),
        None => not_found_spec(),
    }
}

/// A static route table: built once at startup, never mutated.
pub struct RouteTable {
    pub routes: Vec<Route>,
}

impl View for RouteTable {
    type V = Seq<RouteSpec>;

    open spec fn view(&self) -> Seq<RouteSpec> {
        self.routes@.map_values(|r: Route| r@)
    }
}

impl RouteTable {
    /// Finds the handler of the first row matching the method and
    /// path exactly, if any.
    pub fn lookup(&self, method: Method, path: &String) -> (h: Option<HandlerId>)
        ensures
            h == lookup_spec(self@, method, path@),
    {
        let n: usize = self.routes.len();
        let mut i: usize = 0;
        proof {
            assert(self@.skip(0) =~= self@);
        }
        while i < n
            invariant
                n == self.routes.len(),
                i <= n,
                lookup_spec(self@, method, path@) == lookup_spec(
                    self@.skip(i as int),
                    method,
                    path@,
                ),
            decreases n - i,
        {
            let route = &self.routes[i];
            if route.method == method && route.path == *path {
                return Some(route.handler);
            }
            proof {
                assert(self@.skip(i as int).drop_first() =~= self@.skip(i + 1));
            }
            i = i + 1;
        }
        None
    }

    /// Routes a request through the table: runs the handler of the
    /// first matching row, or returns the 404 response when no row
    /// matches.
    pub fn dispatch(&self, req: &Request) -> (r: Response)
        ensures
            r@ == table_response_spec(self@, req.method, req.path@),
    {
        match self.lookup(req.method, &req.path) {
            Some(h) => invoke_handler(h, req),
            None => not_found_response(),
        }
    }
}

/// The full routing surface of the service, as one case split: what
/// the service answers to any method and path.
pub open spec fn route_spec(method: Method, path: Seq<char>) -> ResponseSpec {
    if method == Method::Get && path == "/mpi"@ {
        mpi_get_spec()
    } else if method == Method::Post && path == "/mpi"@ {
        mpi_set_spec()
    } else if method == Method::Get && path == "/greet"@ {
        greet_spec()
    } else {
        not_found_spec()
    }
}

/// Whether some route matches the method and path: the full list of
/// requests the service answers successfully.
pub open spec fn routed(method: Method, path: Seq<char>) -> bool {
    ||| method == Method::Get && path == "/mpi"@
    ||| method == Method::Post && path == "/mpi"@
    ||| method == Method::Get && path == "/greet"@
}

/// The service answers 404 with the body `Not Found` exactly on the
/// requests no route matches, and 200 on all the rest.
pub proof fn lemma_not_found_exactly_on_unrouted(method: Method, path: Seq<char>)
    ensures
        route_spec(method, path).status == 404 <==> !routed(method, path),
        !routed(method, path) ==> route_spec(method, path) == not_found_spec(),
        routed(method, path) ==> route_spec(method, path).status == 200,
{
}

/// Every successful response carries a correct `Content-Length`:
/// whenever the service sets the header, its value is the length of
/// the body sent with it.
pub proof fn lemma_content_length_correct(method: Method, path: Seq<char>)
    ensures
        route_spec(method, path).content_length matches Some(n) ==> n == route_spec(
            method,
            path,
        ).body.len(),
{
}

/// Routes a request directly, without a table: exact match on method
/// and path, 404 for everything else.
pub fn route_request(req: &Request) -> (r: Response)
    ensures
        r@ == route_spec(req.method, req.path@),
{
    let mpi_path: String = "/mpi".to_owned();
    let greet_path: String = "/greet".to_owned();
    let is_mpi = req.path == mpi_path;
    let is_greet = req.path == greet_path;
    match req.method {
        Method::Get if is_mpi => mpi_get(req),
        Method::Post if is_mpi => mpi_set(req),
        Method::Get if is_greet => basic_handler(req),
        _ => not_found_response(),
    }
}

/// Builds the service's route table: the two `/mpi` rows and the
/// `/greet` example row, in that order.
pub fn router_service() -> (t: RouteTable)
    ensures
        t@ == service_table_spec(),
{
    let mut routes: Vec<Route> = Vec::new();
    routes.push(
        Route { method: Method::Get, path: "/mpi".to_owned(), handler: HandlerId::MpiGet },
    );
    routes.push(
        Route { method: Method::Post, path: "/mpi".to_owned(), handler: HandlerId::MpiSet },
    );
    routes.push(
        Route { method: Method::Get, path: "/greet".to_owned(), handler: HandlerId::Greet },
    );
    let t = RouteTable { routes };
    proof {
        assert(t@ =~= service_table_spec());
    }
    t
}

/// The rows of the service's route table.
pub open spec fn service_table_spec() -> Seq<RouteSpec> {
    seq![
        RouteSpec { method: Method::Get, path: "/mpi"@, handler: HandlerId::MpiGet },
        RouteSpec { method: Method::Post, path: "/mpi"@, handler: HandlerId::MpiSet },
        RouteSpec { method: Method::Get, path: "/greet"@, handler: HandlerId::Greet },
    ]
}

/// The table built by [`router_service`] and the direct router
/// [`route_request`] answer every request identically.
pub proof fn lemma_table_agrees_with_route_request(method: Method, path: Seq<char>)
    ensures
        table_response_spec(service_table_spec(), method, path) == route_spec(method, path),
{
    reveal_with_fuel(lookup_spec, 4);
}

/// Handling a request is idempotent: the response is a function of
/// the request's method and path alone, so repeating the same
/// request any number of times yields identical responses.
pub proof fn lemma_route_request_idempotent(req: Request, r1: Response, r2: Response)
    requires
        r1@ == route_spec(req.method, req.path@),
        r2@ == route_spec(req.method, req.path@),
    ensures
        r1@ == r2@,
{
}

} // verus!
