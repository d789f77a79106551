use vstd::prelude::*;
use crate::config::RuntimeConfig;

verus! {

/// The fully qualified control-plane URL for a relative path:
/// `http://{endpoint}/{api version}/runtime{path}`, with the API version
/// segment fixed at "2018-06-01".
pub open spec fn uri_of(endpoint: Seq<char>, path: Seq<char>) -> Seq<char> {
    "http://"@ + endpoint + "/"@ + "2018-06-01"@ + "/runtime"@ + path
}

/// The relative path polled for the next pending invocation.
pub open spec fn next_invocation_path() -> Seq<char> {
    "/invocation/next"@
}

/// The relative path a successful outcome for `request_id` is posted to.
pub open spec fn response_path_of(request_id: Seq<char>) -> Seq<char> {
    "/invocation/"@ + request_id + "/response"@
}

/// The relative path a failed outcome for `request_id` is posted to.
pub open spec fn error_path_of(request_id: Seq<char>) -> Seq<char> {
    "/invocation/"@ + request_id + "/error"@
}

/// Composes the versioned control-plane URL for a relative path segment.
/// Pure string composition; no side effects.
pub fn build_uri(config: &RuntimeConfig, path: &str) -> (r: String)
    ensures
        r@ == uri_of(config.endpoint@, path@),
{
    let mut s = String::from_str("http://");
    s.append(config.endpoint.as_str());
    s.append("/");
    s.append("2018-06-01");
    s.append("/runtime");
    s.append(path);
    s
}

/// The URL polled for the next pending invocation.
pub fn next_invocation_uri(config: &RuntimeConfig) -> (r: String)
    ensures
        r@ == uri_of(config.endpoint@, next_invocation_path()),
{
    build_uri(config, "/invocation/next")
}

/// The URL a successful outcome for `request_id` is posted to.
pub fn response_uri(config: &RuntimeConfig, request_id: &str) -> (r: String)
    ensures
        r@ == uri_of(config.endpoint@, response_path_of(request_id@)),
{
    let mut path = String::from_str("/invocation/");
    path.append(request_id);
    path.append("/response");
    build_uri(config, path.as_str())
}

/// The URL a failed outcome for `request_id` is posted to.
pub fn error_uri(config: &RuntimeConfig, request_id: &str) -> (r: String)
    ensures
        r@ == uri_of(config.endpoint@, error_path_of(request_id@)),
{
    let mut path = String::from_str("/invocation/");
    path.append(request_id);
    path.append("/error");
    build_uri(config, path.as_str())
}

} // verus!
