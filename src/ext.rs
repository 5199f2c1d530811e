//! Extension messages: methods outside the fixed registry, whose parameters
//! and results are carried as raw JSON text that is never parsed.
use vstd::prelude::*;

verus! {

/// A request of a method that is not part of the protocol.
#[derive(Clone, Debug)]
#[non_exhaustive]
pub struct ExtRequest {
    /// The method name, used for routing.
    pub method: String,
    /// The parameters, as raw JSON text.
    pub params: String,
}

impl ExtRequest {
    /// A request of `method` with the given raw parameters.
    pub fn new(method: &str, params: String) -> (r: ExtRequest)
        ensures
            r.method@ == method@,
            r.params == params,
    {
        ExtRequest { method: method.to_owned(), params }
    }
}

/// The raw JSON result of an extension request.
#[derive(Clone, Debug)]
#[non_exhaustive]
pub struct ExtResponse(pub String);

impl ExtResponse {
    /// A response with the given raw result.
    pub fn new(params: String) -> (r: ExtResponse)
        ensures
            r.0 == params,
    {
        ExtResponse(params)
    }
}

/// A notification of a method that is not part of the protocol.
#[derive(Clone, Debug)]
#[non_exhaustive]
pub struct ExtNotification {
    /// The method name, used for routing.
    pub method: String,
    /// The parameters, as raw JSON text.
    pub params: String,
}

impl ExtNotification {
    /// A notification of `method` with the given raw parameters.
    pub fn new(method: &str, params: String) -> (r: ExtNotification)
        ensures
            r.method@ == method@,
            r.params == params,
    {
        ExtNotification { method: method.to_owned(), params }
    }
}

} // verus!
