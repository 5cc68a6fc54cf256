//! The call dispatcher's verified half: building the outbound call.
//!
//! A header event turns into one fully described outbound call: the remote
//! service's endpoint, the method to invoke, the encoded `HeaderRequest`,
//! and the bounded timeout. Submitting the call is the host transport's job;
//! it answers with an opaque correlation handle, or rejects the call at once,
//! and that answer is fed back to the state machine.

use vstd::prelude::*;

use crate::codec::{encode_message, spec_encode_message, Direction, MAX_FIELD_LEN, REQUEST_TAG};

verus! {

/// The timeout handed to the transport with every call, in milliseconds.
pub const CALL_TIMEOUT_MS: u64 = 5000;

/// An immediate rejection by the transport: the call was never sent and no
/// completion will ever arrive for it. Carries the transport's status code.
#[derive(Clone, Copy, PartialEq, Eq, Debug, Structural)]
pub struct DispatchError {
    pub status: u32,
}

/// Everything the transport needs to submit one call to the remote
/// header-generation service.
pub struct CallRequest {
    pub endpoint: &'static str,
    pub service: &'static str,
    pub method: &'static str,
    pub payload: Vec<u8>,
    pub timeout_ms: u64,
}

/// Mathematical model of a `CallRequest`.
pub struct CallRequestView {
    pub endpoint: Seq<char>,
    pub service: Seq<char>,
    pub method: Seq<char>,
    pub payload: Seq<u8>,
    pub timeout_ms: u64,
}

impl View for CallRequest {
    type V = CallRequestView;

    open spec fn view(&self) -> CallRequestView {
        CallRequestView {
            endpoint: self.endpoint@,
            service: self.service@,
            method: self.method@,
            payload: self.payload@,
            timeout_ms: self.timeout_ms,
        }
    }
}

/// The one call a header event for direction `d` of the transaction named
/// `transaction_id` gives rise to.
pub open spec fn spec_call_request(d: Direction, transaction_id: Seq<u8>) -> CallRequestView {
    CallRequestView {
        endpoint: "grpc_service"@,
        service: "api.ExampleService"@,
        method: "GenerateHeader"@,
        payload: spec_encode_message(REQUEST_TAG, d, transaction_id),
        timeout_ms: CALL_TIMEOUT_MS,
    }
}

/// Builds the outbound call for one header event: the encoded
/// `HeaderRequest` for `direction` and `transaction_id`, addressed to the
/// remote service, with the bounded timeout.
pub fn build_call(direction: Direction, transaction_id: &Vec<u8>) -> (r: CallRequest)
    requires
        transaction_id@.len() <= MAX_FIELD_LEN,
    ensures
        r@ == spec_call_request(direction, transaction_id@),
{
    CallRequest {
        endpoint: "grpc_service",
        service: "api.ExampleService",
        method: "GenerateHeader",
        payload: encode_message(REQUEST_TAG, direction, transaction_id),
        timeout_ms: CALL_TIMEOUT_MS,
    }
}

} // verus!
