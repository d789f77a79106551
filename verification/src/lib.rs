use vstd::prelude::*;

pub mod config;
pub mod headers;
pub mod invocation;
pub mod runtime;
pub mod uri;

verus! {

/// The outcome a handler produces for one invocation: a success body or an
/// error message, each delivered verbatim to the control plane.
pub type LambdaStatus = Result<String, String>;

/// A user-supplied handler, bound once to the runtime loop and invoked once
/// per fetched invocation with the freshly deserialized payload.
pub trait LambdaHandler<T> {
    fn handle(&self, payload: T) -> LambdaStatus;
}

} // verus!
