use header_filter::codec::{decode_request, encode_response, Direction, HeaderRequest, HeaderResponse};
use header_filter::dispatch::DispatchError;
use header_filter::filter::{
    header_name, CompletionOutcome, DispatchOutcome, FailureKind, Filter, SlotState,
};

fn response_bytes(direction: Direction, header: &[u8]) -> Vec<u8> {
    encode_response(&HeaderResponse {
        direction,
        header: header.to_vec(),
    })
}

#[test]
fn new_filter_is_idle_and_keeps_its_transaction_id() {
    let filter = Filter::new(b"tx1".to_vec());
    assert_eq!(filter.transaction_id(), &b"tx1".to_vec());
    assert_eq!(filter.slot_state(Direction::RequestPath), SlotState::Idle);
    assert_eq!(filter.slot_state(Direction::ResponsePath), SlotState::Idle);
    assert!(!filter.is_pending(0));
}

#[test]
fn request_header_applied_and_resumed_once() {
    let mut filter = Filter::new(b"tx1".to_vec());
    assert_eq!(filter.slot_state(Direction::RequestPath), SlotState::Idle);

    let call = filter.on_headers(Direction::RequestPath).expect("idle slot must dispatch");
    assert_eq!(call.endpoint, "grpc_service");
    assert_eq!(call.service, "api.ExampleService");
    assert_eq!(call.method, "GenerateHeader");
    assert_eq!(call.timeout_ms, 5000);
    assert_eq!(
        decode_request(&call.payload),
        Ok(HeaderRequest {
            direction: Direction::RequestPath,
            transaction_id: b"tx1".to_vec(),
        })
    );

    assert_eq!(
        filter.on_dispatch_result(Direction::RequestPath, Ok(7)),
        DispatchOutcome::Suspend
    );
    assert_eq!(filter.slot_state(Direction::RequestPath), SlotState::AwaitingReply);
    assert!(filter.is_pending(7));

    let outcome = filter.on_completion(7, 0, &response_bytes(Direction::RequestPath, b"abc"));
    assert_eq!(
        outcome,
        CompletionOutcome::Applied {
            direction: Direction::RequestPath,
            header: b"abc".to_vec(),
        }
    );
    assert_eq!(header_name(Direction::RequestPath), "x-request-header");
    assert_eq!(filter.slot_state(Direction::RequestPath), SlotState::Completed);
    assert!(!filter.is_pending(7));
}

#[test]
fn direction_mismatch_fails_open() {
    let mut filter = Filter::new(b"tx1".to_vec());
    filter.on_headers(Direction::RequestPath).expect("idle slot must dispatch");
    assert_eq!(
        filter.on_dispatch_result(Direction::RequestPath, Ok(7)),
        DispatchOutcome::Suspend
    );

    let outcome = filter.on_completion(7, 0, &response_bytes(Direction::ResponsePath, b"abc"));
    assert_eq!(
        outcome,
        CompletionOutcome::FailedResume {
            direction: Direction::RequestPath,
            failure: FailureKind::ProtocolMismatch,
        }
    );
    assert_eq!(filter.slot_state(Direction::RequestPath), SlotState::Failed);
}

#[test]
fn rejected_dispatch_never_suspends() {
    let mut filter = Filter::new(b"tx1".to_vec());
    filter.on_headers(Direction::RequestPath).expect("idle slot must dispatch");
    assert_eq!(
        filter.on_dispatch_result(Direction::RequestPath, Err(DispatchError { status: 2 })),
        DispatchOutcome::Proceed(FailureKind::Dispatch)
    );
    assert_eq!(filter.slot_state(Direction::RequestPath), SlotState::Failed);
    for handle in 0..10 {
        assert!(!filter.is_pending(handle));
    }
    assert!(filter.on_headers(Direction::RequestPath).is_none());
}

#[test]
fn empty_payload_fails_open_and_resumes() {
    let mut filter = Filter::new(b"tx1".to_vec());
    filter.on_headers(Direction::RequestPath).expect("idle slot must dispatch");
    assert_eq!(
        filter.on_dispatch_result(Direction::RequestPath, Ok(9)),
        DispatchOutcome::Suspend
    );

    let outcome = filter.on_completion(9, 0, &[]);
    assert_eq!(
        outcome,
        CompletionOutcome::FailedResume {
            direction: Direction::RequestPath,
            failure: FailureKind::TimeoutOrTransport,
        }
    );
    assert_eq!(filter.slot_state(Direction::RequestPath), SlotState::Failed);

    // The other direction keeps being served.
    assert!(filter.on_headers(Direction::ResponsePath).is_some());
}

#[test]
fn failed_status_fails_open_and_resumes() {
    let mut filter = Filter::new(b"tx1".to_vec());
    filter.on_headers(Direction::RequestPath).expect("idle slot must dispatch");
    filter.on_dispatch_result(Direction::RequestPath, Ok(3));
    let outcome = filter.on_completion(3, 13, &response_bytes(Direction::RequestPath, b"abc"));
    assert_eq!(
        outcome,
        CompletionOutcome::FailedResume {
            direction: Direction::RequestPath,
            failure: FailureKind::TimeoutOrTransport,
        }
    );
}

#[test]
fn undecodable_payload_fails_open_and_resumes() {
    let mut filter = Filter::new(b"tx1".to_vec());
    filter.on_headers(Direction::RequestPath).expect("idle slot must dispatch");
    filter.on_dispatch_result(Direction::RequestPath, Ok(4));
    let outcome = filter.on_completion(4, 0, b"junk123");
    assert_eq!(
        outcome,
        CompletionOutcome::FailedResume {
            direction: Direction::RequestPath,
            failure: FailureKind::Decode,
        }
    );
    assert_eq!(filter.slot_state(Direction::RequestPath), SlotState::Failed);
}

#[test]
fn second_completion_is_ignored() {
    let mut filter = Filter::new(b"tx1".to_vec());
    filter.on_headers(Direction::RequestPath).expect("idle slot must dispatch");
    filter.on_dispatch_result(Direction::RequestPath, Ok(7));
    let bytes = response_bytes(Direction::RequestPath, b"abc");
    filter.on_completion(7, 0, &bytes);

    let outcome = filter.on_completion(7, 0, &bytes);
    assert_eq!(
        outcome,
        CompletionOutcome::Ignored {
            failure: FailureKind::UnknownHandle,
        }
    );
    assert_eq!(filter.slot_state(Direction::RequestPath), SlotState::Completed);
}

#[test]
fn completion_for_unknown_handle_is_ignored() {
    let mut filter = Filter::new(b"tx1".to_vec());
    let outcome = filter.on_completion(5, 0, &response_bytes(Direction::RequestPath, b"abc"));
    assert_eq!(
        outcome,
        CompletionOutcome::Ignored {
            failure: FailureKind::UnknownHandle,
        }
    );
    assert_eq!(filter.slot_state(Direction::RequestPath), SlotState::Idle);
    assert_eq!(filter.slot_state(Direction::ResponsePath), SlotState::Idle);
}

#[test]
fn second_header_event_is_rejected_while_awaiting() {
    let mut filter = Filter::new(b"tx1".to_vec());
    filter.on_headers(Direction::RequestPath).expect("idle slot must dispatch");
    filter.on_dispatch_result(Direction::RequestPath, Ok(7));
    assert!(filter.on_headers(Direction::RequestPath).is_none());
    assert!(filter.is_pending(7));
}

#[test]
fn response_header_applied_and_resumed_once() {
    let mut filter = Filter::new(b"tx9".to_vec());
    let call = filter.on_headers(Direction::ResponsePath).expect("idle slot must dispatch");
    assert_eq!(
        decode_request(&call.payload),
        Ok(HeaderRequest {
            direction: Direction::ResponsePath,
            transaction_id: b"tx9".to_vec(),
        })
    );
    filter.on_dispatch_result(Direction::ResponsePath, Ok(11));
    let outcome = filter.on_completion(11, 0, &response_bytes(Direction::ResponsePath, b"v"));
    assert_eq!(
        outcome,
        CompletionOutcome::Applied {
            direction: Direction::ResponsePath,
            header: b"v".to_vec(),
        }
    );
    assert_eq!(header_name(Direction::ResponsePath), "x-response-header");
    assert_eq!(filter.slot_state(Direction::ResponsePath), SlotState::Completed);
}

#[test]
fn both_directions_run_independently() {
    let mut filter = Filter::new(b"tx1".to_vec());
    filter.on_headers(Direction::RequestPath).expect("idle slot must dispatch");
    filter.on_dispatch_result(Direction::RequestPath, Ok(1));
    filter.on_headers(Direction::ResponsePath).expect("idle slot must dispatch");
    filter.on_dispatch_result(Direction::ResponsePath, Ok(2));
    assert!(filter.is_pending(1) && filter.is_pending(2));

    // Completions may arrive in either order; each resumes its own side.
    let outcome = filter.on_completion(2, 0, &response_bytes(Direction::ResponsePath, b"b"));
    assert_eq!(
        outcome,
        CompletionOutcome::Applied {
            direction: Direction::ResponsePath,
            header: b"b".to_vec(),
        }
    );
    assert!(filter.is_pending(1));
    assert_eq!(filter.slot_state(Direction::RequestPath), SlotState::AwaitingReply);

    let outcome = filter.on_completion(1, 0, &response_bytes(Direction::RequestPath, b"a"));
    assert_eq!(
        outcome,
        CompletionOutcome::Applied {
            direction: Direction::RequestPath,
            header: b"a".to_vec(),
        }
    );
}
