//! Settings of the dashboard, fixed when the service starts.
//!
//! A configuration is plain data. Nothing is validated: whatever values a
//! caller fills in are kept as they are.

use crate::decimal::{append_decimal, decimal};
use crate::double::Double;
use vstd::prelude::*;
use vstd::string::StringExecFns;

verus! {

/// The Bitcoin network that the dashboard reports on.
#[derive(Clone, Copy, Debug, PartialEq, Eq, Structural)]
pub enum Network {
    /// The main chain.
    Bitcoin,
    /// The third test network.
    Testnet,
    /// The fourth test network.
    Testnet4,
    /// The signed test network.
    Signet,
    /// A local regression-test chain.
    Regtest,
}

/// How much analysis the dashboard is configured to perform.
#[derive(Clone, Copy, Debug, PartialEq, Eq, Structural)]
pub enum AnalyticsLevel {
    /// Basic analytics (low resource usage).
    Basic,
    /// Advanced analytics with model-backed features.
    Advanced,
    /// Expert level with custom models.
    Expert,
}

/// Rate limiting of the API.
#[derive(Clone, Copy, Debug, PartialEq, Eq, Structural)]
pub struct RateLimit {
    /// Requests per second.
    pub requests_per_second: u32,
    /// Burst size.
    pub burst_size: u32,
}

/// Where and how the HTTP API is served.
#[derive(Debug)]
pub struct ApiConfig {
    /// Host address.
    pub host: String,
    /// Port number.
    pub port: u16,
    /// Whether cross-origin requests are allowed.
    pub cors_enabled: bool,
    /// Rate limiting configuration.
    pub rate_limit: RateLimit,
}

/// What an [`ApiConfig`] holds, with the host as a sequence of characters.
pub struct ApiConfigView {
    /// Host address.
    pub host: Seq<char>,
    /// Port number.
    pub port: u16,
    /// Whether cross-origin requests are allowed.
    pub cors_enabled: bool,
    /// Rate limiting configuration.
    pub rate_limit: RateLimit,
}

impl ApiConfigView {
    /// The address to listen on: the host, a colon, and the port in
    /// decimal notation.
    pub open spec fn bind_address(self) -> Seq<char> {
        self.host + seq![':'] + decimal(self.port as nat)
    }
}

impl View for ApiConfig {
    type V = ApiConfigView;

    open spec fn view(&self) -> ApiConfigView {
        ApiConfigView {
            host: self.host@,
            port: self.port,
            cors_enabled: self.cors_enabled,
            rate_limit: self.rate_limit,
        }
    }
}

impl Clone for ApiConfig {
    fn clone(&self) -> (copy: Self)
        ensures
            copy == *self,
    {
        ApiConfig {
            host: self.host.clone(),
            port: self.port,
            cors_enabled: self.cors_enabled,
            rate_limit: self.rate_limit,
        }
    }
}

impl ApiConfig {
    /// The address that the server binds to, as `host:port`.
    pub fn bind_address(&self) -> (address: String)
        ensures
            address@ == self@.bind_address(),
    {
        let mut address = self.host.clone();
        address.append(":");
        proof {
            reveal_strlit(":");
        }
        append_decimal(&mut address, self.port);
        address
    }
}

/// Settings of the prediction model.
#[derive(Debug)]
pub struct MLConfig {
    /// Model type.
    pub model_type: String,
    /// Training interval in seconds.
    pub training_interval: u64,
    /// Minimum confidence threshold.
    pub confidence_threshold: Double,
}

/// What an [`MLConfig`] holds, with the model type as a sequence of
/// characters.
pub struct MLConfigView {
    /// Model type.
    pub model_type: Seq<char>,
    /// Training interval in seconds.
    pub training_interval: u64,
    /// Minimum confidence threshold.
    pub confidence_threshold: Double,
}

impl View for MLConfig {
    type V = MLConfigView;

    open spec fn view(&self) -> MLConfigView {
        MLConfigView {
            model_type: self.model_type@,
            training_interval: self.training_interval,
            confidence_threshold: self.confidence_threshold,
        }
    }
}

impl Clone for MLConfig {
    fn clone(&self) -> (copy: Self)
        ensures
            copy == *self,
    {
        MLConfig {
            model_type: self.model_type.clone(),
            training_interval: self.training_interval,
            confidence_threshold: self.confidence_threshold,
        }
    }
}

/// The bit pattern of the binary64 value nearest to 0.8.
pub const DEFAULT_CONFIDENCE_THRESHOLD_BITS: u64 = 0x3fe9_9999_9999_999a;

/// Dashboard configuration options.
#[derive(Debug)]
pub struct DashboardConfig {
    /// Bitcoin network to report on.
    pub network: Network,
    /// Level of analytics complexity.
    pub analytics_level: AnalyticsLevel,
    /// Connection string of the database.
    pub database_url: String,
    /// API configuration.
    pub api_config: ApiConfig,
    /// Model configuration.
    pub ml_config: MLConfig,
}

/// What a [`DashboardConfig`] holds, with every string as a sequence of
/// characters.
pub struct DashboardConfigView {
    /// Bitcoin network to report on.
    pub network: Network,
    /// Level of analytics complexity.
    pub analytics_level: AnalyticsLevel,
    /// Connection string of the database.
    pub database_url: Seq<char>,
    /// API configuration.
    pub api_config: ApiConfigView,
    /// Model configuration.
    pub ml_config: MLConfigView,
}

impl View for DashboardConfig {
    type V = DashboardConfigView;

    open spec fn view(&self) -> DashboardConfigView {
        DashboardConfigView {
            network: self.network,
            analytics_level: self.analytics_level,
            database_url: self.database_url@,
            api_config: self.api_config@,
            ml_config: self.ml_config@,
        }
    }
}

impl Clone for DashboardConfig {
    fn clone(&self) -> (copy: Self)
        ensures
            copy == *self,
    {
        DashboardConfig {
            network: self.network,
            analytics_level: self.analytics_level,
            database_url: self.database_url.clone(),
            api_config: self.api_config.clone(),
            ml_config: self.ml_config.clone(),
        }
    }
}

impl DashboardConfig {
    /// The configuration of a dashboard that was given no settings: the
    /// main chain, basic analytics, a local database, the API on the
    /// loopback address at port 3000 with cross-origin requests allowed
    /// and ten requests per second in bursts of up to fifty, and an LSTM
    /// model retrained every hour with a confidence threshold of 0.8.
    pub open spec fn default_view() -> DashboardConfigView {
        DashboardConfigView {
            network: Network::Bitcoin,
            analytics_level: AnalyticsLevel::Basic,
            database_url: "postgres://localhost/dash33"@,
            api_config: ApiConfigView {
                host: "127.0.0.1"@,
                port: 3000,
                cors_enabled: true,
                rate_limit: RateLimit { requests_per_second: 10, burst_size: 50 },
            },
            ml_config: MLConfigView {
                model_type: "lstm"@,
                training_interval: 3600,
                confidence_threshold: Double { bits: DEFAULT_CONFIDENCE_THRESHOLD_BITS },
            },
        }
    }
}

impl Default for DashboardConfig {
    fn default() -> (config: Self)
        ensures
            config@ == DashboardConfig::default_view(),
    {
        DashboardConfig {
            network: Network::Bitcoin,
            analytics_level: AnalyticsLevel::Basic,
            database_url: String::from_str("postgres://localhost/dash33"),
            api_config: ApiConfig {
                host: String::from_str("127.0.0.1"),
                port: 3000,
                cors_enabled: true,
                rate_limit: RateLimit { requests_per_second: 10, burst_size: 50 },
            },
            ml_config: MLConfig {
                model_type: String::from_str("lstm"),
                training_interval: 3600,
                confidence_threshold: Double::from_bits(DEFAULT_CONFIDENCE_THRESHOLD_BITS),
            },
        }
    }
}

/// The default confidence threshold lies within half a unit in the last
/// place of eight tenths, and so between 0 and 1.
pub proof fn lemma_default_confidence_threshold()
    ensures
        DashboardConfig::default_view().ml_config.confidence_threshold.approximates(8, 10),
        DashboardConfig::default_view().ml_config.confidence_threshold.in_unit_interval(),
{
    vstd::arithmetic::power2::lemma2_to64_rest();
}

} // verus!
