use vstd::prelude::*;
use crate::headers::{find_header, header_lookup};

verus! {

/// One invocation fetched from the control plane: the deserialized payload
/// and the three metadata headers that identify the execution context.
/// A value of this type exists only when all three headers were present and
/// the body deserialized into `T`.
pub struct InvocationRequest<T> {
    pub payload: T,
    pub request_id: String,
    pub trace_id: String,
    pub function_arn: String,
}

/// What came back over the wire from one poll of the control plane, reduced
/// to plain values: the status code, the response headers in order, and the
/// body decoded as text.
pub struct HttpResponse {
    pub status: u16,
    pub headers: Vec<(String, String)>,
    pub body: String,
}

/// What one poll of the control plane yields for the runtime loop:
/// an invocation to dispatch, no further work, or a single invocation to
/// skip because its body did not deserialize.
pub enum FetchResult<T> {
    Present(InvocationRequest<T>),
    Absent,
    Skipped,
}

/// A successful (2xx) HTTP status.
pub open spec fn status_ok(status: u16) -> bool {
    200 <= status < 300
}

/// All three required metadata headers are present, matched by name
/// case-insensitively.
pub open spec fn metadata_present(headers: Seq<(String, String)>) -> bool {
    &&& header_lookup(headers, "Lambda-Runtime-Aws-Request-Id"@) is Some
    &&& header_lookup(headers, "Lambda-Runtime-Trace-Id"@) is Some
    &&& header_lookup(headers, "Lambda-Runtime-Invoked-Function-Arn"@) is Some
}

/// Relies on serde_json::from_str: parses the body as JSON into `T`.
/// Whether a given body parses is decided by `T`'s deserialization rules,
/// so nothing is promised of the outcome; callers state what holds of each.
#[verifier::external_body]
fn parse_json<T: serde::de::DeserializeOwned>(body: &str) -> (r: Option<T>) {
    serde_json::from_str(body).ok()
}

/// Builds the invocation from the two things the wire gave: the parse
/// outcome for the body and the response headers. An invocation is produced
/// exactly when the body parsed and all three metadata headers are present;
/// a missing header yields `Absent` whatever the body held, and a body that
/// did not parse under complete metadata yields `Skipped`.
pub fn assemble_invocation<T>(payload: Option<T>, headers: &Vec<(String, String)>) -> (r:
    FetchResult<T>)
    ensures
        r is Absent <==> !metadata_present(headers@),
        r is Skipped <==> metadata_present(headers@) && payload is None,
        r is Present <==> metadata_present(headers@) && payload is Some,
        r matches FetchResult::Present(inv) ==> ({
            &&& payload matches Some(p) && inv.payload == p
            &&& header_lookup(headers@, "Lambda-Runtime-Aws-Request-Id"@) == Some(
                inv.request_id@,
            )
            &&& header_lookup(headers@, "Lambda-Runtime-Trace-Id"@) == Some(inv.trace_id@)
            &&& header_lookup(headers@, "Lambda-Runtime-Invoked-Function-Arn"@) == Some(
                inv.function_arn@,
            )
        }),
{
    let rid = find_header(headers, "Lambda-Runtime-Aws-Request-Id");
    let tid = find_header(headers, "Lambda-Runtime-Trace-Id");
    let arn = find_header(headers, "Lambda-Runtime-Invoked-Function-Arn");
    match (rid, tid, arn) {
        (Some(request_id), Some(trace_id), Some(function_arn)) => match payload {
            Some(p) => FetchResult::Present(
                InvocationRequest { payload: p, request_id, trace_id, function_arn },
            ),
            None => FetchResult::Skipped,
        },
        _ => FetchResult::Absent,
    }
}

/// Interprets one poll of the control plane. A transport failure or a
/// non-2xx status is `Absent`; otherwise the body is parsed as JSON and the
/// invocation assembled from the parse outcome and the headers.
pub fn interpret_fetch<T: serde::de::DeserializeOwned>(response: Option<HttpResponse>) -> (r:
    FetchResult<T>)
    ensures
        r is Absent <==> !(response matches Some(resp) && status_ok(resp.status)
            && metadata_present(resp.headers@)),
        r is Skipped ==> (response matches Some(resp) && status_ok(resp.status)
            && metadata_present(resp.headers@)),
        r matches FetchResult::Present(inv) ==> (response matches Some(resp) && ({
            &&& status_ok(resp.status)
            &&& header_lookup(resp.headers@, "Lambda-Runtime-Aws-Request-Id"@) == Some(
                inv.request_id@,
            )
            &&& header_lookup(resp.headers@, "Lambda-Runtime-Trace-Id"@) == Some(inv.trace_id@)
            &&& header_lookup(resp.headers@, "Lambda-Runtime-Invoked-Function-Arn"@) == Some(
                inv.function_arn@,
            )
        })),
{
    match response {
        None => FetchResult::Absent,
        Some(resp) => {
            if 200 <= resp.status && resp.status < 300 {
                let payload: Option<T> = parse_json(resp.body.as_str());
                assemble_invocation(payload, &resp.headers)
            } else {
                FetchResult::Absent
            }
        },
    }
}

} // verus!
