//! `POST /v1/devices/:id/api/:topic`: a synchronous request to the
//! device, answered within a bounded time.

use vstd::prelude::*;

use crate::auth::scope::{access_of, check_device};
use crate::db::users::User;
use crate::error::{GatewayError, GatewayErrorView};
use crate::metrics::{bumped, Metrics, Outcome};
use crate::text::{opt_chars, push_str};

verus! {

/// Wait for a reply when the request gives none, in milliseconds.
pub const DEFAULT_TIMEOUT_MS: u64 = 5000;

/// Longest wait a request may ask, in milliseconds.
pub const MAX_TIMEOUT_MS: u64 = 60000;

/// Extra wait on the reply channel beyond the query's own timeout.
pub const REPLY_GRACE_MS: u64 = 500;

/// The query timeout: the one asked, else the default, and never more
/// than the maximum.
pub open spec fn call_timeout(asked: Option<u64>) -> u64 {
    let t = match asked {
        Some(t) => t,
        None => DEFAULT_TIMEOUT_MS,
    };
    if t > MAX_TIMEOUT_MS {
        MAX_TIMEOUT_MS
    } else {
        t
    }
}

/// The query timeout for a request asking `asked`.
pub fn timeout_ms(asked: Option<u64>) -> (r: u64)
    ensures
        r == call_timeout(asked),
        r <= MAX_TIMEOUT_MS,
{
    let t = match asked {
        Some(t) => t,
        None => DEFAULT_TIMEOUT_MS,
    };
    if t > MAX_TIMEOUT_MS {
        MAX_TIMEOUT_MS
    } else {
        t
    }
}

/// How long to wait on the reply channel for a query timeout of
/// `timeout` milliseconds.
pub fn reply_wait_ms(timeout: u64) -> (r: u64)
    requires
        timeout <= MAX_TIMEOUT_MS,
    ensures
        r == timeout + REPLY_GRACE_MS,
{
    timeout + REPLY_GRACE_MS
}

/// How a call ended, for the audit row and the metric.
pub enum CallOutcome {
    Replied,
    Unreachable,
    TimedOut,
}

/// The audit text of an outcome.
pub fn outcome_text(o: CallOutcome) -> (r: &'static str)
    ensures
        r@ == match o {
            CallOutcome::Replied => "ok"@,
            CallOutcome::Unreachable => "device_unreachable"@,
            CallOutcome::TimedOut => "device_timeout"@,
        },
{
    match o {
        CallOutcome::Replied => "ok",
        CallOutcome::Unreachable => "device_unreachable",
        CallOutcome::TimedOut => "device_timeout",
    }
}

/// The HTTP status of an outcome.
pub fn outcome_status(o: CallOutcome) -> (r: u16)
    ensures
        r == match o {
            CallOutcome::Replied => 200u16,
            CallOutcome::Unreachable => 503u16,
            CallOutcome::TimedOut => 504u16,
        },
{
    match o {
        CallOutcome::Replied => 200,
        CallOutcome::Unreachable => 503,
        CallOutcome::TimedOut => 504,
    }
}

/// What a call is sent with: the query timeout, how long to wait for
/// the reply, and the request's content type.
pub struct CallPlan {
    pub timeout_ms: u64,
    pub wait_ms: u64,
    pub content_type: String,
}

/// Plans a call by `user` to `topic` on `device_id`: the caller must
/// reach the device, and the topic must not be empty; the timeout is
/// bounded and the content type defaults to `application/json`.
pub fn call_plan(user: &User, device_id: i64, topic: &str, asked_timeout: Option<u64>, content_type: Option<String>) -> (r:
    Result<CallPlan, GatewayError>)
    ensures
        match access_of(*user, device_id) {
            Err(e) => r matches Err(f) && f@ == e,
            Ok(()) => if topic@.len() == 0 {
                r matches Err(f) && f@ == GatewayErrorView::BadRequest("topic must not be empty"@)
            } else {
                r matches Ok(p) && p.timeout_ms == call_timeout(asked_timeout) && p.wait_ms == call_timeout(
                    asked_timeout,
                ) + REPLY_GRACE_MS && p.content_type@ == match opt_chars(content_type) {
                    Some(c) => c,
                    None => "application/json"@,
                }
            },
        },
{
    match check_device(user, device_id) {
        Err(e) => return Err(e),
        Ok(()) => {},
    }
    if topic.is_empty() {
        return Err(GatewayError::BadRequest("topic must not be empty".to_owned()));
    }
    let timeout = timeout_ms(asked_timeout);
    let content_type = match content_type {
        Some(c) => c,
        None => "application/json".to_owned(),
    };
    Ok(CallPlan { timeout_ms: timeout, wait_ms: reply_wait_ms(timeout), content_type })
}

/// The metric outcome of a call: a reply is a success, anything else
/// an error.
pub open spec fn metric_outcome(o: CallOutcome) -> Outcome {
    match o {
        CallOutcome::Replied => Outcome::Success,
        _ => Outcome::Error,
    }
}

/// Counts a call that ended with `o` on `topic`, and gives the text
/// recorded in its audit row and the HTTP status answered.
pub fn record_call(metrics: &mut Metrics, topic: &str, o: CallOutcome) -> (r: (&'static str, u16))
    requires
        old(metrics).wf(),
    ensures
        final(metrics).wf(),
        final(metrics).api_calls() == bumped(old(metrics).api_calls(), seq![topic@, metric_outcome(o).label()], 1),
        final(metrics).same_except(old(metrics), "api"@),
        r.0@ == match o {
            CallOutcome::Replied => "ok"@,
            CallOutcome::Unreachable => "device_unreachable"@,
            CallOutcome::TimedOut => "device_timeout"@,
        },
        r.1 == match o {
            CallOutcome::Replied => 200u16,
            CallOutcome::Unreachable => 503u16,
            CallOutcome::TimedOut => 504u16,
        },
{
    let outcome = match o {
        CallOutcome::Replied => Outcome::Success,
        _ => Outcome::Error,
    };
    metrics.inc_api_call(topic, outcome);
    let text = match o {
        CallOutcome::Replied => "ok",
        CallOutcome::Unreachable => "device_unreachable",
        CallOutcome::TimedOut => "device_timeout",
    };
    let status: u16 = match o {
        CallOutcome::Replied => 200,
        CallOutcome::Unreachable => 503,
        CallOutcome::TimedOut => 504,
    };
    (text, status)
}

/// Where a call failed after it was planned.
pub enum CallFailure {
    /// The request could not be encoded.
    Encode,
    /// The device answered with an error.
    DeviceError,
    /// The reply could not be decoded.
    Decode,
}

/// The error answered for a call that failed at `at` with `detail`.
pub fn call_failure(at: CallFailure, detail: &str) -> (r: GatewayError)
    ensures
        r@ == GatewayErrorView::BadRequest(
            match at {
                CallFailure::Encode => "request encode: "@,
                CallFailure::DeviceError => "device error: "@,
                CallFailure::Decode => "reply decode: "@,
            } + detail@,
        ),
{
    let mut m = match at {
        CallFailure::Encode => "request encode: ".to_owned(),
        CallFailure::DeviceError => "device error: ".to_owned(),
        CallFailure::Decode => "reply decode: ".to_owned(),
    };
    push_str(&mut m, detail);
    GatewayError::BadRequest(m)
}

} // verus!
