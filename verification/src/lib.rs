//! Verified core of a Bitcoin metrics dashboard service.
//!
//! The service reports system metrics over HTTP and accepts metric
//! observations. This library holds what the service decides: the
//! configuration and its defaults, the state that request handlers share,
//! the routing table with its cross-origin policy, and the two handlers as
//! functions from a decoded request to an answer. Sockets, JSON and the
//! database connection belong to the program around it.

pub mod config;
pub mod cors;
pub mod dashboard;
pub mod decimal;
pub mod double;
pub mod handlers;
pub mod metrics;
pub mod router;

pub use crate::config::{AnalyticsLevel, ApiConfig, DashboardConfig, MLConfig, Network, RateLimit};
pub use crate::cors::{CorsPolicy, Wildcard};
pub use crate::dashboard::{init, AppState, ConnectionError, Dashboard};
pub use crate::double::Double;
pub use crate::handlers::{get_metrics, update_metrics, Reply, UpdateOutcome, ValidationWarning};
pub use crate::metrics::{MetricUpdate, Metrics, Timestamp};
pub use crate::router::{Endpoint, Method, Route, Router};
