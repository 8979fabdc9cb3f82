//! The values that travel over the metrics API.

use crate::double::Double;
use vstd::prelude::*;

verus! {

/// A point-in-time snapshot of the system.
#[derive(Clone, Copy, Debug)]
pub struct Metrics {
    /// Number of transactions processed.
    pub transactions: i64,
    /// Number of active users.
    pub active_users: i64,
    /// System health score, from 0 to 1.
    pub system_health: Double,
    /// Accuracy of the prediction model, from 0 to 1.
    pub model_accuracy: Double,
    /// API response time in milliseconds.
    pub api_latency: Double,
}

/// The bit pattern of the binary64 value nearest to 0.99.
pub const SYSTEM_HEALTH_BITS: u64 = 0x3fef_ae14_7ae1_47ae;

/// The bit pattern of the binary64 value nearest to 0.95.
pub const MODEL_ACCURACY_BITS: u64 = 0x3fee_6666_6666_6666;

/// The bit pattern of the binary64 value 50.
pub const API_LATENCY_BITS: u64 = 0x4049_0000_0000_0000;

impl Metrics {
    /// The snapshot that the service reports. It is fixed: 100
    /// transactions, 50 active users, health 0.99, accuracy 0.95 and a
    /// latency of 50 ms.
    pub open spec fn placeholder() -> Metrics {
        Metrics {
            transactions: 100,
            active_users: 50,
            system_health: Double { bits: SYSTEM_HEALTH_BITS },
            model_accuracy: Double { bits: MODEL_ACCURACY_BITS },
            api_latency: Double { bits: API_LATENCY_BITS },
        }
    }

    /// Both scores lie in the closed interval from 0 to 1.
    pub open spec fn scores_in_range(self) -> bool {
        self.system_health.in_unit_interval() && self.model_accuracy.in_unit_interval()
    }
}

/// The scores of the reported snapshot lie within half a unit in the last
/// place of 99/100 and of 95/100, and its latency is exactly 50; both
/// scores lie between 0 and 1.
pub proof fn lemma_placeholder_values()
    ensures
        Metrics::placeholder().system_health.approximates(99, 100),
        Metrics::placeholder().model_accuracy.approximates(95, 100),
        Metrics::placeholder().api_latency.is_exactly(50, 1),
        Metrics::placeholder().scores_in_range(),
{
    vstd::arithmetic::power2::lemma2_to64_rest();
}

/// A point in time: seconds and nanoseconds since the Unix epoch, UTC.
#[derive(Clone, Copy, Debug, PartialEq, Eq, Structural)]
pub struct Timestamp {
    /// Whole seconds since 1970-01-01T00:00:00Z; negative before it.
    pub seconds: i64,
    /// Nanoseconds past the whole second.
    pub nanoseconds: u32,
}

/// A metric observation submitted by a client.
#[derive(Debug)]
pub struct MetricUpdate {
    /// Name of the metric to update.
    pub metric_type: String,
    /// New value for the metric.
    pub value: Double,
    /// When the observation was made, if the client said so.
    pub timestamp: Option<Timestamp>,
}

/// What a [`MetricUpdate`] holds, with the name as a sequence of
/// characters.
pub struct MetricUpdateView {
    /// Name of the metric.
    pub metric_type: Seq<char>,
    /// Value of the metric.
    pub value: Double,
    /// Time of the observation.
    pub timestamp: Option<Timestamp>,
}

impl View for MetricUpdate {
    type V = MetricUpdateView;

    open spec fn view(&self) -> MetricUpdateView {
        MetricUpdateView {
            metric_type: self.metric_type@,
            value: self.value,
            timestamp: self.timestamp,
        }
    }
}

impl Clone for MetricUpdate {
    fn clone(&self) -> (copy: Self)
        ensures
            copy == *self,
    {
        MetricUpdate {
            metric_type: self.metric_type.clone(),
            value: self.value,
            timestamp: self.timestamp,
        }
    }
}

} // verus!
