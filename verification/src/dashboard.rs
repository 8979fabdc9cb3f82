//! The dashboard: its configuration, the state that its request handlers
//! share, and the way it is brought up.

use crate::config::DashboardConfig;
use crate::cors::CorsPolicy;
use crate::router::{Router, RouterView};
use std::sync::Arc;
use vstd::prelude::*;

verus! {

/// What every request handler is handed: the database connection pool and
/// a copy of the configuration. Handlers only read it.
///
/// The library never looks inside the pool, so its type is left open.
#[derive(Debug)]
pub struct AppState<P> {
    /// Database connection pool.
    pub pool: P,
    /// Dashboard configuration.
    pub config: DashboardConfig,
}

impl<P: Clone> Clone for AppState<P> {
    fn clone(&self) -> (copy: Self)
        ensures
            copy.config == self.config,
            cloned::<P>(self.pool, copy.pool),
    {
        AppState { pool: self.pool.clone(), config: self.config.clone() }
    }
}

/// The database could not be reached when the service started.
#[derive(Debug)]
pub struct ConnectionError {
    /// What the database client reported.
    pub message: String,
}

impl Clone for ConnectionError {
    fn clone(&self) -> (copy: Self)
        ensures
            copy == *self,
    {
        ConnectionError { message: self.message.clone() }
    }
}

/// A dashboard that is ready to serve.
#[derive(Debug)]
pub struct Dashboard<P> {
    config: DashboardConfig,
    state: Arc<AppState<P>>,
}

/// `Arc::clone` of the standard library: the new pointer leads to the
/// same allocation as the given one, and so to the same value.
#[verifier::external_body]
fn share<T>(pointer: &Arc<T>) -> (other: Arc<T>)
    ensures
        other == *pointer,
{
    Arc::clone(pointer)
}

impl<P> Clone for Dashboard<P> {
    /// The copy shares its state with the dashboard it was made from.
    fn clone(&self) -> (copy: Self)
        ensures
            copy.configuration() == self.configuration(),
            copy.shared_state() == self.shared_state(),
    {
        proof {
            use_type_invariant(self);
        }
        Dashboard { config: self.config.clone(), state: share(&self.state) }
    }
}

impl<P> Dashboard<P> {
    /// The shared state carries the same configuration as the dashboard
    /// itself.
    #[verifier::type_invariant]
    spec fn coherent(self) -> bool {
        self.state.config == self.config
    }

    /// The configuration that the dashboard was created with.
    pub closed spec fn configuration(self) -> DashboardConfig {
        self.config
    }

    /// The state that the request handlers share.
    pub closed spec fn shared_state(self) -> AppState<P> {
        *self.state
    }

    /// Bundles a configuration with a connection pool.
    pub fn new(config: DashboardConfig, pool: P) -> (dashboard: Self)
        ensures
            dashboard.configuration() == config,
            dashboard.shared_state() == (AppState { pool, config }),
    {
        let state = Arc::new(AppState { pool, config: config.clone() });
        Dashboard { config, state }
    }

    /// The configuration of the dashboard.
    pub fn config(&self) -> (config: &DashboardConfig)
        ensures
            *config == self.configuration(),
    {
        &self.config
    }

    /// The state to hand to the request handlers. Its configuration is
    /// that of the dashboard.
    pub fn state(&self) -> (state: &Arc<AppState<P>>)
        ensures
            **state == self.shared_state(),
            state.config == self.configuration(),
    {
        proof {
            use_type_invariant(self);
        }
        &self.state
    }

    /// The router of the API: the two metrics routes, and a cross-origin
    /// policy that allows everything if the configuration enables
    /// cross-origin requests and nothing otherwise.
    pub fn create_router(&self) -> (router: Router)
        ensures
            router@.routes == RouterView::dashboard_routes(),
            router@.cors == CorsPolicy::of(self.configuration().api_config.cors_enabled),
    {
        Router::new(&self.config.api_config)
    }
}

/// Brings up a dashboard from a configuration and the outcome of
/// connecting to the database named by `config.database_url`. A failed
/// connection is the only way in which this fails.
pub fn init<P>(config: DashboardConfig, connection: Result<P, ConnectionError>) -> (result: Result<
    Dashboard<P>,
    ConnectionError,
>)
    ensures
        match connection {
            Ok(pool) => result matches Ok(dashboard) && dashboard.configuration() == config
                && dashboard.shared_state() == (AppState { pool, config }),
            Err(error) => result matches Err(returned) && returned == error,
        },
{
    match connection {
        Ok(pool) => Ok(Dashboard::new(config, pool)),
        Err(error) => Err(error),
    }
}

} // verus!
