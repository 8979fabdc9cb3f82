//! The routes of the HTTP API and its cross-origin policy.
//!
//! A [`Router`] is a description: which request goes to which endpoint,
//! and what is answered to browsers that ask from another origin. The
//! server that listens on a socket is built from it elsewhere.

use crate::config::ApiConfig;
use crate::cors::CorsPolicy;
use vstd::prelude::*;
use vstd::string::StringExecFns;

verus! {

/// The request methods that the API answers.
#[derive(Clone, Copy, Debug, PartialEq, Eq, Structural)]
pub enum Method {
    /// `GET`.
    Get,
    /// `POST`.
    Post,
}

/// The operations of the API.
#[derive(Clone, Copy, Debug, PartialEq, Eq, Structural)]
pub enum Endpoint {
    /// Report the current metrics.
    GetMetrics,
    /// Accept a metric observation.
    UpdateMetrics,
}

/// One entry of the routing table.
#[derive(Debug)]
pub struct Route {
    /// The method that the entry answers.
    pub method: Method,
    /// The request path, matched as a whole.
    pub path: String,
    /// The operation that handles the request.
    pub endpoint: Endpoint,
}

/// What a [`Route`] holds, with the path as a sequence of characters.
pub struct RouteView {
    /// The method that the entry answers.
    pub method: Method,
    /// The request path.
    pub path: Seq<char>,
    /// The operation that handles the request.
    pub endpoint: Endpoint,
}

impl RouteView {
    /// Whether a request with this method and path is one for this route.
    pub open spec fn accepts(self, method: Method, path: Seq<char>) -> bool {
        self.method == method && self.path == path
    }
}

impl View for Route {
    type V = RouteView;

    open spec fn view(&self) -> RouteView {
        RouteView { method: self.method, path: self.path@, endpoint: self.endpoint }
    }
}

/// The routing table of the service and its cross-origin policy.
#[derive(Debug)]
pub struct Router {
    /// The routes, in the order in which they were added.
    pub routes: Vec<Route>,
    /// The cross-origin policy that applies to every route.
    pub cors: CorsPolicy,
}

/// What a [`Router`] holds, as a sequence of route views.
pub struct RouterView {
    /// The routes, in the order in which they were added.
    pub routes: Seq<RouteView>,
    /// The cross-origin policy.
    pub cors: CorsPolicy,
}

impl RouterView {
    /// The routing table of the dashboard: metrics are read with a `GET`
    /// and updated with a `POST`.
    pub open spec fn dashboard_routes() -> Seq<RouteView> {
        seq![
            RouteView { method: Method::Get, path: "/metrics"@, endpoint: Endpoint::GetMetrics },
            RouteView {
                method: Method::Post,
                path: "/metrics/update"@,
                endpoint: Endpoint::UpdateMetrics,
            },
        ]
    }

    /// The endpoint of the dashboard API for a request.
    pub open spec fn dashboard_endpoint(method: Method, path: Seq<char>) -> Option<Endpoint> {
        if method == Method::Get && path == "/metrics"@ {
            Some(Endpoint::GetMetrics)
        } else if method == Method::Post && path == "/metrics/update"@ {
            Some(Endpoint::UpdateMetrics)
        } else {
            None
        }
    }

    /// The endpoint of the first route from position `start` on that
    /// accepts the request, if there is one.
    pub open spec fn resolve_from(self, start: int, method: Method, path: Seq<char>) -> Option<
        Endpoint,
    >
        decreases self.routes.len() - start,
    {
        if start < 0 || start >= self.routes.len() {
            None
        } else if self.routes[start].accepts(method, path) {
            Some(self.routes[start].endpoint)
        } else {
            self.resolve_from(start + 1, method, path)
        }
    }

    /// The endpoint that handles a request: that of the first route that
    /// accepts it. `None` when no route does.
    pub open spec fn resolve(self, method: Method, path: Seq<char>) -> Option<Endpoint> {
        self.resolve_from(0, method, path)
    }
}

/// The two paths of the dashboard differ, and its routing table comes to
/// [`RouterView::dashboard_endpoint`]: a `GET` of `/metrics` reads the
/// metrics, a `POST` to `/metrics/update` updates them, and no other
/// request has an endpoint.
pub proof fn lemma_dashboard_routes_resolve(cors: CorsPolicy, method: Method, path: Seq<char>)
    ensures
        "/metrics"@ != "/metrics/update"@,
        (RouterView { routes: RouterView::dashboard_routes(), cors }).resolve(method, path)
            == RouterView::dashboard_endpoint(method, path),
{
    let table = RouterView { routes: RouterView::dashboard_routes(), cors };
    reveal_strlit("/metrics");
    reveal_strlit("/metrics/update");
    assert("/metrics"@.len() != "/metrics/update"@.len());
    reveal_with_fuel(RouterView::resolve_from, 3);
    assert(table.resolve_from(2, method, path).is_none());
}

impl View for Router {
    type V = RouterView;

    open spec fn view(&self) -> RouterView {
        RouterView {
            routes: Seq::new(self.routes.len() as nat, |i: int| self.routes[i]@),
            cors: self.cors,
        }
    }
}

impl Router {
    /// The router of the dashboard API under the given API configuration.
    pub fn new(api_config: &ApiConfig) -> (router: Router)
        ensures
            router@.routes == RouterView::dashboard_routes(),
            router@.cors == CorsPolicy::of(api_config.cors_enabled),
    {
        let mut routes: Vec<Route> = Vec::new();
        routes.push(
            Route {
                method: Method::Get,
                path: String::from_str("/metrics"),
                endpoint: Endpoint::GetMetrics,
            },
        );
        routes.push(
            Route {
                method: Method::Post,
                path: String::from_str("/metrics/update"),
                endpoint: Endpoint::UpdateMetrics,
            },
        );
        let router = Router { routes, cors: CorsPolicy::from_config(api_config) };
        assert(router@.routes =~= RouterView::dashboard_routes());
        router
    }

    /// The endpoint that handles a request with the given method and
    /// path, if any route accepts it.
    pub fn resolve(&self, method: Method, path: &str) -> (endpoint: Option<Endpoint>)
        ensures
            endpoint == self@.resolve(method, path@),
    {
        let wanted = String::from_str(path);
        let mut i: usize = 0;
        while i < self.routes.len()
            invariant
                i <= self.routes.len(),
                wanted@ == path@,
                self@.resolve(method, path@) == self@.resolve_from(i as int, method, path@),
            decreases self.routes.len() - i,
        {
            let route = &self.routes[i];
            if route.method == method && route.path == wanted {
                return Some(route.endpoint);
            }
            i += 1;
        }
        None
    }
}

} // verus!
