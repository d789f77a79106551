use vstd::prelude::*;

verus! {

/// Configuration of the runtime loop, resolved once at loop start and
/// immutable afterwards: the control-plane address (host, optionally with a
/// port) that every request is sent to.
pub struct RuntimeConfig {
    pub endpoint: String,
}

/// The endpoint the runtime uses, given the value of the environment
/// variable naming the control-plane address: the value verbatim when it is
/// set and non-empty, the loopback address otherwise.
pub open spec fn resolved_endpoint(env_endpoint: Option<String>) -> Seq<char> {
    match env_endpoint {
        Some(e) => if e@.len() > 0 {
            e@
        } else {
            "127.0.0.1"@
        },
        None => "127.0.0.1"@,
    }
}

impl RuntimeConfig {
    /// Builds the configuration from the raw environment value, if any.
    /// No syntactic validation is performed: a malformed address surfaces
    /// later as a transport failure.
    pub fn resolve(env_endpoint: Option<String>) -> (r: RuntimeConfig)
        ensures
            r.endpoint@ == resolved_endpoint(env_endpoint),
    {
        match env_endpoint {
            Some(e) => {
                if e.as_str().unicode_len() > 0 {
                    RuntimeConfig { endpoint: e }
                } else {
                    RuntimeConfig { endpoint: String::from_str("127.0.0.1") }
                }
            },
            None => RuntimeConfig { endpoint: String::from_str("127.0.0.1") },
        }
    }
}

} // verus!
