//! The cross-origin policy of the API, and the `tower-http` layer that
//! puts it into effect.

use crate::config::ApiConfig;
use tower_http::cors::{Any, CorsLayer};
use vstd::prelude::*;

verus! {

/// The permissions that a cross-origin layer can grant without limit.
#[derive(Clone, Copy, Debug, PartialEq, Eq, Structural)]
pub enum Wildcard {
    /// Requests from any origin.
    Origin,
    /// Requests with any method.
    Methods,
    /// Requests with any header.
    Headers,
}

/// The middleware of `tower-http` that answers cross-origin requests.
#[verifier::external_type_specification]
#[verifier::external_body]
pub struct ExCorsLayer(tower_http::cors::CorsLayer);

/// The wildcards that a layer holds: `Origin` if it answers every origin
/// with `Access-Control-Allow-Origin: *`, `Methods` and `Headers` likewise
/// for `Access-Control-Allow-Methods` and `Access-Control-Allow-Headers`.
pub uninterp spec fn layer_wildcards(layer: CorsLayer) -> Set<Wildcard>;

/// `CorsLayer::new`: a layer that sends no headers, so one that holds no
/// wildcard.
#[verifier::external_body]
fn new_layer() -> (layer: CorsLayer)
    ensures
        layer_wildcards(layer) == Set::<Wildcard>::empty(),
{
    CorsLayer::new()
}

/// `CorsLayer::allow_origin` with `Any`: the layer then allows every
/// origin, and its other settings are as before.
#[verifier::external_body]
fn allow_any_origin(layer: CorsLayer) -> (allowed: CorsLayer)
    ensures
        layer_wildcards(allowed) == layer_wildcards(layer).insert(Wildcard::Origin),
{
    layer.allow_origin(Any)
}

/// `CorsLayer::allow_methods` with `Any`: the layer then allows every
/// method, and its other settings are as before.
#[verifier::external_body]
fn allow_any_method(layer: CorsLayer) -> (allowed: CorsLayer)
    ensures
        layer_wildcards(allowed) == layer_wildcards(layer).insert(Wildcard::Methods),
{
    layer.allow_methods(Any)
}

/// `CorsLayer::allow_headers` with `Any`: the layer then allows every
/// header, and its other settings are as before.
#[verifier::external_body]
fn allow_any_header(layer: CorsLayer) -> (allowed: CorsLayer)
    ensures
        layer_wildcards(allowed) == layer_wildcards(layer).insert(Wildcard::Headers),
{
    layer.allow_headers(Any)
}

/// What the service tells browsers about requests from other origins.
#[derive(Clone, Copy, Debug, PartialEq, Eq, Structural)]
pub struct CorsPolicy {
    /// Requests from any origin are allowed.
    pub allow_any_origin: bool,
    /// Requests with any method are allowed.
    pub allow_any_method: bool,
    /// Requests with any header are allowed.
    pub allow_any_header: bool,
}

impl CorsPolicy {
    /// The policy for a given setting of the API's cross-origin switch:
    /// switched on, any origin, method and header is allowed; switched
    /// off, nothing is.
    pub open spec fn of(cors_enabled: bool) -> CorsPolicy {
        CorsPolicy {
            allow_any_origin: cors_enabled,
            allow_any_method: cors_enabled,
            allow_any_header: cors_enabled,
        }
    }

    /// The wildcards that the policy grants.
    pub open spec fn wildcards(self) -> Set<Wildcard> {
        Set::new(
            |w: Wildcard|
                match w {
                    Wildcard::Origin => self.allow_any_origin,
                    Wildcard::Methods => self.allow_any_method,
                    Wildcard::Headers => self.allow_any_header,
                },
        )
    }

    /// The policy that the API configuration asks for.
    pub fn from_config(api_config: &ApiConfig) -> (policy: CorsPolicy)
        ensures
            policy == CorsPolicy::of(api_config.cors_enabled),
    {
        if api_config.cors_enabled {
            CorsPolicy { allow_any_origin: true, allow_any_method: true, allow_any_header: true }
        } else {
            CorsPolicy { allow_any_origin: false, allow_any_method: false, allow_any_header: false }
        }
    }

    /// The layer that puts the policy into effect: it holds exactly the
    /// wildcards that the policy grants.
    pub fn layer(self) -> (layer: CorsLayer)
        ensures
            layer_wildcards(layer) == self.wildcards(),
    {
        let mut layer = new_layer();
        if self.allow_any_origin {
            layer = allow_any_origin(layer);
        }
        if self.allow_any_method {
            layer = allow_any_method(layer);
        }
        if self.allow_any_header {
            layer = allow_any_header(layer);
        }
        assert(layer_wildcards(layer) =~= self.wildcards());
        layer
    }
}

/// With cross-origin requests enabled the policy grants every wildcard;
/// disabled, it grants none.
pub proof fn lemma_policy_is_all_or_nothing(cors_enabled: bool)
    ensures
        cors_enabled ==> CorsPolicy::of(cors_enabled).wildcards() == Set::<Wildcard>::full(),
        !cors_enabled ==> CorsPolicy::of(cors_enabled).wildcards() == Set::<Wildcard>::empty(),
{
    assert(cors_enabled ==> CorsPolicy::of(cors_enabled).wildcards() =~= Set::<Wildcard>::full());
    assert(!cors_enabled ==> CorsPolicy::of(cors_enabled).wildcards() =~= Set::<
        Wildcard,
    >::empty());
}

} // verus!
