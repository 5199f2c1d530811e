//! Protocol-level methods, which both roles handle.
use vstd::prelude::*;
use crate::rpc::RequestId;

use crate::methods::cancel_request_name;

verus! {

/// Names of the protocol-level methods.
#[derive(Clone, Debug, PartialEq, Eq)]
#[non_exhaustive]
pub struct GeneralMethodNames {
    pub cancel_request: &'static str,
}

/// The names of the protocol-level methods, as the registry has them.
pub fn protocol_level_method_names() -> (r: GeneralMethodNames)
    ensures
        r.cancel_request@ == cancel_request_name(),
{
    GeneralMethodNames { cancel_request: crate::methods::KnownMethod::CancelRequest.name() }
}

/// Notification to cancel an ongoing request, named by its id.
#[derive(Clone, Debug)]
#[non_exhaustive]
pub struct CancelRequestNotification {
    /// The id of the request to cancel.
    pub request_id: RequestId,
}

impl CancelRequestNotification {
    /// The cancellation of the request `request_id`.
    pub fn new(request_id: RequestId) -> (r: CancelRequestNotification)
        ensures
            r.request_id == request_id,
    {
        CancelRequestNotification { request_id }
    }
}

} // verus!
