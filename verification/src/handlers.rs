//! The request handlers, as functions from the shared state and the
//! decoded request to what is answered.
//!
//! Neither handler reads or changes the state: what is answered depends
//! on the request alone.

use crate::dashboard::AppState;
use crate::double::Double;
use crate::metrics::{MetricUpdate, MetricUpdateView, Metrics};
use vstd::prelude::*;

verus! {

/// The HTTP status of a successful request.
pub const STATUS_OK: u16 = 200;

/// An answer to a request: the status code, and the value that is sent as
/// the JSON body.
#[derive(Debug)]
pub struct Reply<T> {
    /// HTTP status code.
    pub status: u16,
    /// The value to serialize as the body.
    pub body: T,
}

/// A metric update carried a negative value. The update is accepted all
/// the same; the warning is for the log.
#[derive(Clone, Copy, Debug)]
pub struct ValidationWarning {
    /// The value that was received.
    pub value: Double,
}

/// What handling a metric update results in.
#[derive(Debug)]
pub struct UpdateOutcome {
    /// The answer to the client.
    pub reply: Reply<bool>,
    /// The warning to log, if the value calls for one.
    pub warning: Option<ValidationWarning>,
}

/// The answer to a request for the metrics: success, with the fixed
/// snapshot as its body, whatever the state.
pub open spec fn metrics_reply<P>(state: AppState<P>) -> Reply<Metrics> {
    Reply { status: STATUS_OK, body: Metrics::placeholder() }
}

/// The outcome of a metric update: success with the body `true`, and a
/// warning exactly if the value is below zero.
pub open spec fn update_outcome(update: MetricUpdateView) -> UpdateOutcome {
    UpdateOutcome {
        reply: Reply { status: STATUS_OK, body: true },
        warning: if update.value.is_below_zero() {
            Some(ValidationWarning { value: update.value })
        } else {
            None
        },
    }
}

/// Handles `GET /metrics`: reports the current system metrics.
pub fn get_metrics<P>(state: &AppState<P>) -> (reply: Reply<Metrics>)
    ensures
        reply == metrics_reply(*state),
        reply.status == STATUS_OK,
        reply.body.scores_in_range(),
{
    proof {
        crate::metrics::lemma_placeholder_values();
    }
    Reply {
        status: STATUS_OK,
        body: Metrics {
            transactions: 100,
            active_users: 50,
            system_health: Double::from_bits(crate::metrics::SYSTEM_HEALTH_BITS),
            model_accuracy: Double::from_bits(crate::metrics::MODEL_ACCURACY_BITS),
            api_latency: Double::from_bits(crate::metrics::API_LATENCY_BITS),
        },
    }
}

/// Handles `POST /metrics/update`: accepts the observation. A negative
/// value is not rejected; it only earns a warning.
pub fn update_metrics<P>(state: &AppState<P>, update: &MetricUpdate) -> (outcome: UpdateOutcome)
    ensures
        outcome == update_outcome(update@),
        outcome.reply.status == STATUS_OK,
        outcome.reply.body,
        outcome.warning is Some <==> update.value.is_below_zero(),
{
    let warning = if update.value.is_negative() {
        Some(ValidationWarning { value: update.value })
    } else {
        None
    };
    UpdateOutcome { reply: Reply { status: STATUS_OK, body: true }, warning }
}

/// Two requests for the metrics are answered alike, whatever state each
/// of them is served from: no state reaches the answer.
pub proof fn lemma_metrics_reply_ignores_state<P>(first: AppState<P>, second: AppState<P>)
    ensures
        metrics_reply(first) == metrics_reply(second),
{
}

/// A request for the metrics always succeeds, and both scores of its
/// answer lie between 0 and 1.
pub proof fn lemma_metrics_reply_in_range<P>(state: AppState<P>)
    ensures
        metrics_reply(state).status == 200,
        metrics_reply(state).body.scores_in_range(),
{
    crate::metrics::lemma_placeholder_values();
}

/// What a metric update results in depends on its value alone: neither
/// the name of the metric nor the timestamp has a part in it.
pub proof fn lemma_update_outcome_depends_on_value(first: MetricUpdateView, second: MetricUpdateView)
    requires
        first.value == second.value,
    ensures
        update_outcome(first) == update_outcome(second),
{
}

/// Every metric update is accepted: the answer is success with the body
/// `true`, whatever the name, the value and the timestamp.
pub proof fn lemma_update_always_accepted(update: MetricUpdateView)
    ensures
        update_outcome(update).reply.status == 200,
        update_outcome(update).reply.body == true,
{
}

} // verus!
