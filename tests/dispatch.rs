use age_rollup::dispatch::{
    advance_status, finish_advance, handle_advance, handle_inspect, next_step,
    parse_request_type, route_request, RequestType, RollupStatus, Step,
};
use age_rollup::error::{RequestError, VerifyError};
use age_rollup::receipt::{ReceiptCheck, AGE_VERIFY_ID};

fn forty_byte_payload_with_wrong_identity() -> String {
    format!("0x{}{}", "00".repeat(8), "11".repeat(32))
}

fn payload_with_expected_identity() -> String {
    let mut id = Vec::new();
    for w in AGE_VERIFY_ID.iter() {
        id.extend_from_slice(&w.to_le_bytes());
    }
    format!("0x{}{}", "ab".repeat(16), hex::encode(id))
}

fn reported(step: Step) -> Option<RollupStatus> {
    match step {
        Step::Report(s) => Some(s),
        Step::CheckReceipt(_) => None,
    }
}

#[test]
fn status_spelling() {
    assert_eq!(RollupStatus::Accept.as_str(), "accept");
    assert_eq!(RollupStatus::Reject.as_str(), "reject");
}

#[test]
fn request_types() {
    assert_eq!(parse_request_type("advance_state"), RequestType::AdvanceState);
    assert_eq!(parse_request_type("inspect_state"), RequestType::InspectState);
    assert_eq!(parse_request_type("advance_stat"), RequestType::Unknown);
    assert_eq!(parse_request_type(""), RequestType::Unknown);
}

#[test]
fn verified_true_accepts() {
    assert_eq!(advance_status(Ok(true)), RollupStatus::Accept);
    assert_eq!(advance_status(Ok(false)), RollupStatus::Reject);
    assert_eq!(advance_status(Err(VerifyError::VerificationFailed)), RollupStatus::Reject);
    assert_eq!(advance_status(Err(VerifyError::IdentityMismatch)), RollupStatus::Reject);
}

#[test]
fn verified_advance_accepted_and_reported() {
    let text = payload_with_expected_identity();
    let step = next_step(RollupStatus::Reject, Some((Some("advance_state"), Some(&text))));
    let payload = match step {
        Step::CheckReceipt(p) => p,
        Step::Report(_) => panic!("a decodable payload needs a receipt check"),
    };
    assert_eq!(payload.receipt, vec![0xab; 16]);
    let status = finish_advance(&payload, ReceiptCheck::Verified(Some(true)));
    assert_eq!(status, RollupStatus::Accept);
    assert_eq!(reported(next_step(status, None)), Some(RollupStatus::Accept));
    assert_eq!(finish_advance(&payload, ReceiptCheck::Verified(Some(false))), RollupStatus::Reject);
    assert_eq!(finish_advance(&payload, ReceiptCheck::Rejected), RollupStatus::Reject);
}

#[test]
fn advance_with_wrong_identity_rejects() {
    let text = forty_byte_payload_with_wrong_identity();
    let payload = match handle_advance(Some(&text)) {
        Ok(Step::CheckReceipt(p)) => p,
        _ => panic!("a 40-byte payload needs a receipt check"),
    };
    assert_eq!(payload.receipt.len(), 8);
    assert_eq!(finish_advance(&payload, ReceiptCheck::Undecodable), RollupStatus::Reject);
    assert_eq!(finish_advance(&payload, ReceiptCheck::Rejected), RollupStatus::Reject);
}

#[test]
fn undecodable_advance_payload_rejects_at_once() {
    assert_eq!(reported(handle_advance(Some("0xzz")).unwrap()), Some(RollupStatus::Reject));
    assert_eq!(reported(handle_advance(Some("0x1234")).unwrap()), Some(RollupStatus::Reject));
    assert_eq!(reported(route_request(Some("advance_state"), Some("nothex"))), Some(RollupStatus::Reject));
}

#[test]
fn missing_payload_is_request_error() {
    assert!(matches!(handle_advance(None), Err(RequestError::MissingPayload)));
    assert_eq!(handle_inspect(None), Err(RequestError::MissingPayload));
    assert_eq!(reported(route_request(Some("advance_state"), None)), Some(RollupStatus::Reject));
    assert_eq!(reported(route_request(Some("inspect_state"), None)), Some(RollupStatus::Reject));
}

#[test]
fn inspect_accepts_present_payload() {
    assert_eq!(handle_inspect(Some("0x00")), Ok(RollupStatus::Accept));
    assert_eq!(reported(route_request(Some("inspect_state"), Some("anything"))), Some(RollupStatus::Accept));
}

#[test]
fn unknown_request_type_rejects() {
    let payload = payload_with_expected_identity();
    assert_eq!(reported(route_request(Some("other"), Some(&payload))), Some(RollupStatus::Reject));
    assert_eq!(reported(route_request(None, Some(&payload))), Some(RollupStatus::Reject));
    let step = next_step(RollupStatus::Accept, Some((Some("foo"), Some(&payload))));
    assert_eq!(reported(step), Some(RollupStatus::Reject));
}

#[test]
fn no_pending_request_keeps_status() {
    assert_eq!(reported(next_step(RollupStatus::Accept, None)), Some(RollupStatus::Accept));
    assert_eq!(reported(next_step(RollupStatus::Reject, None)), Some(RollupStatus::Reject));
}
