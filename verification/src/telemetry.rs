//! What is exported to OpenTelemetry for each event: the span's name and
//! kind, its attributes and its error status. The caller records the span.

use vstd::prelude::*;

use crate::text::{decimal, owned, push_decimal, push_str};

verus! {

/// What telemetry reads of a proxy event (durations in milliseconds).
pub enum TelemetryEvent {
    Request { id: String, method: String, path: String, body_size: u64 },
    Response { request_id: String, status: u16, body_size: u64, ttfb_ms: u64, duration_ms: u64 },
    ToolCall { id: String, tool_name: String, input_size: u64 },
    ToolResult { id: String, tool_name: String, duration_ms: u64, success: bool },
    ApiUsage { model: String, input_tokens: u32, output_tokens: u32, cache_creation_tokens: u32, cache_read_tokens: u32 },
    Error { message: String, context: Option<String> },
    ContextCompact { previous_context: u64, new_context: u64 },
    RequestTransformed { transformer: String, tokens_before: u32, tokens_after: u32, modifications: u64 },
    ResponseAugmented { augmenter: String, tokens_injected: u32 },
    /// An event that is not exported.
    Other,
}

/// An attribute value.
pub enum AttrValue {
    Str(String),
    Int(i64),
    Bool(bool),
}

/// An attribute value by its characters.
pub enum AttrV {
    Str(Seq<char>),
    Int(i64),
    Bool(bool),
}

pub open spec fn attr_view(v: AttrValue) -> AttrV {
    match v {
        AttrValue::Str(s) => AttrV::Str(s@),
        AttrValue::Int(i) => AttrV::Int(i),
        AttrValue::Bool(b) => AttrV::Bool(b),
    }
}

/// A span to record.
pub struct SpanPlan {
    pub name: String,
    /// Server kind (the proxy serving its client); otherwise internal.
    pub server: bool,
    pub attributes: Vec<(String, AttrValue)>,
    /// The error status, when the span records a failure.
    pub error: Option<String>,
}

/// A span by its characters.
#[verifier::ext_equal]
pub struct SpanV {
    pub name: Seq<char>,
    pub server: bool,
    pub attributes: Seq<(Seq<char>, AttrV)>,
    pub error: Option<Seq<char>>,
}

pub open spec fn attrs_view(a: Seq<(String, AttrValue)>) -> Seq<(Seq<char>, AttrV)> {
    a.map_values(|p: (String, AttrValue)| (p.0@, attr_view(p.1)))
}

pub open spec fn span_view(s: SpanPlan) -> SpanV {
    SpanV {
        name: s.name@,
        server: s.server,
        attributes: attrs_view(s.attributes@),
        error: match s.error {
            Some(e) => Some(e@),
            None => None,
        },
    }
}

/// The session attribute, when the session is known.
pub open spec fn session_attr(session: Option<Seq<char>>) -> Seq<(Seq<char>, AttrV)> {
    match session {
        Some(s) => seq![("session.id"@, AttrV::Str(s))],
        None => Seq::empty(),
    }
}

/// Whether the span of an event can be computed: the token total fits 32
/// bits and a compaction does not grow the context.
pub open spec fn plan_defined(e: TelemetryEvent) -> bool {
    match e {
        TelemetryEvent::ApiUsage { input_tokens, output_tokens, .. } => input_tokens + output_tokens <= u32::MAX,
        TelemetryEvent::ContextCompact { previous_context, new_context } => previous_context >= new_context,
        _ => true,
    }
}

/// The span exported for an event; none for events that are not exported.
pub open spec fn span_for(e: TelemetryEvent, session: Option<Seq<char>>) -> Option<SpanV> {
    match e {
        TelemetryEvent::Request { id, method, path, body_size } => Some(SpanV {
            name: "api.request"@,
            server: true,
            attributes: seq![
                ("request.id"@, AttrV::Str(id@)),
                ("http.method"@, AttrV::Str(method@)),
                ("http.url"@, AttrV::Str(path@)),
                ("http.request.body.size"@, AttrV::Int(body_size as i64)),
            ] + session_attr(session),
            error: None,
        }),
        TelemetryEvent::Response { request_id, status, body_size, ttfb_ms, duration_ms } => Some(SpanV {
            name: "api.response"@,
            server: true,
            attributes: seq![
                ("request.id"@, AttrV::Str(request_id@)),
                ("http.status_code"@, AttrV::Int(status as i64)),
                ("http.response.body.size"@, AttrV::Int(body_size as i64)),
                ("http.ttfb_ms"@, AttrV::Int(ttfb_ms as i64)),
                ("http.duration_ms"@, AttrV::Int(duration_ms as i64)),
            ] + session_attr(session),
            error: if status >= 400 {
                Some("HTTP "@ + decimal(status as nat))
            } else {
                None
            },
        }),
        TelemetryEvent::ToolCall { id, tool_name, input_size } => Some(SpanV {
            name: "tool."@ + tool_name@,
            server: false,
            attributes: seq![
                ("tool.id"@, AttrV::Str(id@)),
                ("tool.name"@, AttrV::Str(tool_name@)),
                ("tool.input.size"@, AttrV::Int(input_size as i64)),
            ] + session_attr(session),
            error: None,
        }),
        TelemetryEvent::ToolResult { id, tool_name, duration_ms, success } => Some(SpanV {
            name: "tool."@ + tool_name@ + ".result"@,
            server: false,
            attributes: seq![
                ("tool.id"@, AttrV::Str(id@)),
                ("tool.name"@, AttrV::Str(tool_name@)),
                ("tool.duration_ms"@, AttrV::Int(duration_ms as i64)),
                ("tool.success"@, AttrV::Bool(success)),
            ],
            error: if !success {
                Some("Tool execution failed"@)
            } else {
                None
            },
        }),
        TelemetryEvent::ApiUsage { model, input_tokens, output_tokens, cache_creation_tokens, cache_read_tokens } => Some(SpanV {
            name: "api.usage"@,
            server: false,
            attributes: seq![
                ("model"@, AttrV::Str(model@)),
                ("tokens.input"@, AttrV::Int(input_tokens as i64)),
                ("tokens.output"@, AttrV::Int(output_tokens as i64)),
                ("tokens.cache_creation"@, AttrV::Int(cache_creation_tokens as i64)),
                ("tokens.cache_read"@, AttrV::Int(cache_read_tokens as i64)),
                ("tokens.total"@, AttrV::Int((input_tokens + output_tokens) as i64)),
            ] + session_attr(session),
            error: None,
        }),
        TelemetryEvent::Error { message, context } => Some(SpanV {
            name: "api.error"@,
            server: true,
            attributes: seq![("error.message"@, AttrV::Str(message@))] + match context {
                Some(c) => seq![("error.context"@, AttrV::Str(c@))],
                None => Seq::empty(),
            } + session_attr(session),
            error: Some(message@),
        }),
        TelemetryEvent::ContextCompact { previous_context, new_context } => Some(SpanV {
            name: "context.compact"@,
            server: false,
            attributes: seq![
                ("context.previous"@, AttrV::Int(previous_context as i64)),
                ("context.new"@, AttrV::Int(new_context as i64)),
                ("context.reduction"@, AttrV::Int((previous_context - new_context) as i64)),
            ],
            error: None,
        }),
        TelemetryEvent::RequestTransformed { transformer, tokens_before, tokens_after, modifications } => Some(SpanV {
            name: "transform.request"@,
            server: false,
            attributes: seq![
                ("transformer"@, AttrV::Str(transformer@)),
                ("tokens.before"@, AttrV::Int(tokens_before as i64)),
                ("tokens.after"@, AttrV::Int(tokens_after as i64)),
                ("tokens.delta"@, AttrV::Int((tokens_after - tokens_before) as i64)),
                ("modifications.count"@, AttrV::Int(modifications as i64)),
            ] + session_attr(session),
            error: None,
        }),
        TelemetryEvent::ResponseAugmented { augmenter, tokens_injected } => Some(SpanV {
            name: "augment.response"@,
            server: false,
            attributes: seq![
                ("augmenter"@, AttrV::Str(augmenter@)),
                ("tokens.injected"@, AttrV::Int(tokens_injected as i64)),
            ] + session_attr(session),
            error: None,
        }),
        TelemetryEvent::Other => None,
    }
}

fn attr(out: &mut Vec<(String, AttrValue)>, key: &str, v: AttrValue)
    ensures
        attrs_view(final(out)@) == attrs_view(old(out)@).push((key@, attr_view(v))),
{
    let ghost av = attr_view(v);
    out.push((owned(key), v));
    assert(attrs_view(out@) =~= attrs_view(old(out)@).push((key@, av)));
}

fn session_attrs(out: &mut Vec<(String, AttrValue)>, session: Option<&str>)
    ensures
        attrs_view(final(out)@) == attrs_view(old(out)@) + session_attr(match session {
            Some(s) => Some(s@),
            None => None,
        }),
{
    match session {
        Some(s) => {
            attr(out, "session.id", AttrValue::Str(owned(s)));
            assert(attrs_view(old(out)@).push(("session.id"@, AttrV::Str(s@))) =~= attrs_view(old(out)@) + seq![
                ("session.id"@, AttrV::Str(s@)),
            ]);
        },
        None => {
            assert(attrs_view(out@) =~= attrs_view(out@) + Seq::<(Seq<char>, AttrV)>::empty());
        },
    }
}

/// The span exported for an event, with the session's attribute on the
/// spans that carry one; none for events that are not exported.
#[verifier::rlimit(40)]
pub fn plan_span(e: &TelemetryEvent, session: Option<&str>) -> (r: Option<SpanPlan>)
    requires
        plan_defined(*e),
    ensures
        match r {
            Some(p) => span_for(*e, match session {
                Some(s) => Some(s@),
                None => None,
            }) == Some(span_view(p)),
            None => span_for(*e, match session {
                Some(s) => Some(s@),
                None => None,
            }) is None,
        },
{
    let mut a: Vec<(String, AttrValue)> = Vec::new();
    match e {
        TelemetryEvent::Request { id, method, path, body_size } => {
            attr(&mut a, "request.id", AttrValue::Str(id.clone()));
            attr(&mut a, "http.method", AttrValue::Str(method.clone()));
            attr(&mut a, "http.url", AttrValue::Str(path.clone()));
            #[verifier::truncate]
            let size = *body_size as i64;
            attr(&mut a, "http.request.body.size", AttrValue::Int(size));
            session_attrs(&mut a, session);
            Some(SpanPlan { name: owned("api.request"), server: true, attributes: a, error: None })
        },
        TelemetryEvent::Response { request_id, status, body_size, ttfb_ms, duration_ms } => {
            attr(&mut a, "request.id", AttrValue::Str(request_id.clone()));
            attr(&mut a, "http.status_code", AttrValue::Int(*status as i64));
            #[verifier::truncate]
            let size = *body_size as i64;
            attr(&mut a, "http.response.body.size", AttrValue::Int(size));
            #[verifier::truncate]
            let ttfb = *ttfb_ms as i64;
            attr(&mut a, "http.ttfb_ms", AttrValue::Int(ttfb));
            #[verifier::truncate]
            let dur = *duration_ms as i64;
            attr(&mut a, "http.duration_ms", AttrValue::Int(dur));
            session_attrs(&mut a, session);
            let error = if *status >= 400 {
                let mut m = owned("HTTP ");
                push_decimal(&mut m, *status as u64);
                Some(m)
            } else {
                None
            };
            Some(SpanPlan { name: owned("api.response"), server: true, attributes: a, error })
        },
        TelemetryEvent::ToolCall { id, tool_name, input_size } => {
            attr(&mut a, "tool.id", AttrValue::Str(id.clone()));
            attr(&mut a, "tool.name", AttrValue::Str(tool_name.clone()));
            #[verifier::truncate]
            let size = *input_size as i64;
            attr(&mut a, "tool.input.size", AttrValue::Int(size));
            session_attrs(&mut a, session);
            let mut name = owned("tool.");
            push_str(&mut name, tool_name.as_str());
            Some(SpanPlan { name, server: false, attributes: a, error: None })
        },
        TelemetryEvent::ToolResult { id, tool_name, duration_ms, success } => {
            attr(&mut a, "tool.id", AttrValue::Str(id.clone()));
            attr(&mut a, "tool.name", AttrValue::Str(tool_name.clone()));
            #[verifier::truncate]
            let dur = *duration_ms as i64;
            attr(&mut a, "tool.duration_ms", AttrValue::Int(dur));
            attr(&mut a, "tool.success", AttrValue::Bool(*success));
            let mut name = owned("tool.");
            push_str(&mut name, tool_name.as_str());
            push_str(&mut name, ".result");
            let error = if !*success {
                Some(owned("Tool execution failed"))
            } else {
                None
            };
            Some(SpanPlan { name, server: false, attributes: a, error })
        },
        TelemetryEvent::ApiUsage { model, input_tokens, output_tokens, cache_creation_tokens, cache_read_tokens } => {
            attr(&mut a, "model", AttrValue::Str(model.clone()));
            attr(&mut a, "tokens.input", AttrValue::Int(*input_tokens as i64));
            attr(&mut a, "tokens.output", AttrValue::Int(*output_tokens as i64));
            attr(&mut a, "tokens.cache_creation", AttrValue::Int(*cache_creation_tokens as i64));
            attr(&mut a, "tokens.cache_read", AttrValue::Int(*cache_read_tokens as i64));
            let total = *input_tokens + *output_tokens;
            attr(&mut a, "tokens.total", AttrValue::Int(total as i64));
            session_attrs(&mut a, session);
            Some(SpanPlan { name: owned("api.usage"), server: false, attributes: a, error: None })
        },
        TelemetryEvent::Error { message, context } => {
            attr(&mut a, "error.message", AttrValue::Str(message.clone()));
            let ghost base = attrs_view(a@);
            match context {
                Some(c) => {
                    attr(&mut a, "error.context", AttrValue::Str(c.clone()));
                    assert(attrs_view(a@) =~= base + seq![("error.context"@, AttrV::Str(c@))]);
                },
                None => {
                    assert(attrs_view(a@) =~= base + Seq::<(Seq<char>, AttrV)>::empty());
                },
            }
            session_attrs(&mut a, session);
            Some(SpanPlan { name: owned("api.error"), server: true, attributes: a, error: Some(message.clone()) })
        },
        TelemetryEvent::ContextCompact { previous_context, new_context } => {
            #[verifier::truncate]
            let p = *previous_context as i64;
            #[verifier::truncate]
            let n = *new_context as i64;
            #[verifier::truncate]
            let d = (*previous_context - *new_context) as i64;
            attr(&mut a, "context.previous", AttrValue::Int(p));
            attr(&mut a, "context.new", AttrValue::Int(n));
            attr(&mut a, "context.reduction", AttrValue::Int(d));
            Some(SpanPlan { name: owned("context.compact"), server: false, attributes: a, error: None })
        },
        TelemetryEvent::RequestTransformed { transformer, tokens_before, tokens_after, modifications } => {
            attr(&mut a, "transformer", AttrValue::Str(transformer.clone()));
            attr(&mut a, "tokens.before", AttrValue::Int(*tokens_before as i64));
            attr(&mut a, "tokens.after", AttrValue::Int(*tokens_after as i64));
            attr(&mut a, "tokens.delta", AttrValue::Int((*tokens_after as i64) - (*tokens_before as i64)));
            #[verifier::truncate]
            let m = *modifications as i64;
            attr(&mut a, "modifications.count", AttrValue::Int(m));
            session_attrs(&mut a, session);
            Some(SpanPlan { name: owned("transform.request"), server: false, attributes: a, error: None })
        },
        TelemetryEvent::ResponseAugmented { augmenter, tokens_injected } => {
            attr(&mut a, "augmenter", AttrValue::Str(augmenter.clone()));
            attr(&mut a, "tokens.injected", AttrValue::Int(*tokens_injected as i64));
            session_attrs(&mut a, session);
            Some(SpanPlan { name: owned("augment.response"), server: false, attributes: a, error: None })
        },
        TelemetryEvent::Other => None,
    }
}

} // verus!
