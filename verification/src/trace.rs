//! W3C Trace Context propagation: the headers the client injects into
//! session requests so that the Copilot CLI can continue a distributed trace.
use crate::json::{empty_object, json_text, serialized_json, set_field, JsonValue, JsonView};
use vstd::prelude::*;

verus! {

/// W3C Trace Context headers used for distributed trace propagation.
#[derive(Debug, Clone, Default, PartialEq, Eq)]
pub struct TraceContext {
    /// The `traceparent` header value.
    pub traceparent: Option<String>,
    /// The `tracestate` header value.
    pub tracestate: Option<String>,
}

impl TraceContext {
    /// Returns `true` when neither `traceparent` nor `tracestate` is set.
    pub fn is_empty(&self) -> (r: bool)
        ensures
            r == (self.traceparent is None && self.tracestate is None),
    {
        self.traceparent.is_none() && self.tracestate.is_none()
    }

    /// An empty context.
    pub fn empty() -> (r: Self)
        ensures
            r.traceparent is None,
            r.tracestate is None,
    {
        TraceContext { traceparent: None, tracestate: None }
    }
}

/// The trace context a request carries: the one the provider returned, or
/// an empty one when no provider is configured.
pub fn get_trace_context(provided: Option<TraceContext>) -> (r: TraceContext)
    ensures
        match provided {
            Some(t) => r == t,
            None => r.traceparent is None && r.tracestate is None,
        },
{
    match provided {
        Some(t) => t,
        None => TraceContext::empty(),
    }
}

/// `params` with `traceparent` and `tracestate` added for the headers that are set.
pub open spec fn with_trace(params: JsonView, trace: TraceContext) -> JsonView {
    let p1 = match trace.traceparent {
        Some(tp) => set_field(params, "traceparent"@, JsonView::Str(tp@)),
        None => params,
    };
    match trace.tracestate {
        Some(ts) => set_field(p1, "tracestate"@, JsonView::Str(ts@)),
        None => p1,
    }
}

/// Adds the set trace headers to request parameters.
pub fn inject_trace(params: &mut JsonValue, trace: &TraceContext)
    ensures
        final(params)@ == with_trace(old(params)@, *trace),
{
    match &trace.traceparent {
        Some(tp) => params.set("traceparent", JsonValue::string(tp.as_str())),
        None => {},
    }
    match &trace.tracestate {
        Some(ts) => params.set("tracestate", JsonValue::string(ts.as_str())),
        None => {},
    }
}

impl TraceContext {
    /// The wire object: each header that is set.
    pub fn to_json(&self) -> (r: JsonValue)
        ensures
            r@ == with_trace(empty_object(), *self),
    {
        let mut o = JsonValue::object();
        inject_trace(&mut o, self);
        o
    }

    /// The compact JSON text of the wire object.
    pub fn to_json_text(&self) -> (r: String)
        ensures
            r@ == serialized_json(with_trace(empty_object(), *self)),
    {
        json_text(&self.to_json())
    }
}

} // verus!
