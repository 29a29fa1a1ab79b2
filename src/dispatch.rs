//! The decisions of the rollup request loop. Each round trip with the
//! coordinator yields a step: report a status on the next `finish` call, or
//! have a payload's receipt checked first and then report what that gives.
use vstd::prelude::*;
use crate::error::{RequestError, VerifyError};
use crate::payload::{
    decode_payload, payload_bytes, strip_hex_prefix, valid_hex, ProofPayload, IMAGE_ID_SIZE,
};
use crate::receipt::{proof_result, receipt_result, verify_payload, ReceiptCheck};

verus! {

/// The verdict reported to the coordinator on the next `finish` call.
#[derive(Debug, Clone, Copy, PartialEq, Eq, Structural)]
pub enum RollupStatus {
    Accept,
    Reject,
}

impl RollupStatus {
    /// The status as the coordinator's protocol spells it.
    pub fn as_str(&self) -> (r: &'static str)
        ensures
            *self == RollupStatus::Accept ==> r@ == "accept"@,
            *self == RollupStatus::Reject ==> r@ == "reject"@,
    {
        match self {
            RollupStatus::Accept => "accept",
            RollupStatus::Reject => "reject",
        }
    }
}

/// The kind of a request, from its `request_type` field.
#[derive(Debug, Clone, Copy, PartialEq, Eq, Structural)]
pub enum RequestType {
    AdvanceState,
    InspectState,
    Unknown,
}

pub open spec fn request_type_of(s: Seq<char>) -> RequestType {
    if s == "advance_state"@ {
        RequestType::AdvanceState
    } else if s == "inspect_state"@ {
        RequestType::InspectState
    } else {
        RequestType::Unknown
    }
}

fn str_equals(s: &str, t: &str) -> (r: bool)
    ensures
        r == (s@ == t@),
{
    let n: usize = s.unicode_len();
    if n != t.unicode_len() {
        return false;
    }
    let mut i: usize = 0;
    while i < n
        invariant
            i <= n,
            n == s@.len(),
            n == t@.len(),
            forall|j: int| 0 <= j < i ==> s@[j] == t@[j],
        decreases n - i,
    {
        if s.get_char(i) != t.get_char(i) {
            return false;
        }
        i = i + 1;
    }
    assert(s@ =~= t@);
    true
}

pub fn parse_request_type(s: &str) -> (r: RequestType)
    ensures
        r == request_type_of(s@),
{
    if str_equals(s, "advance_state") {
        RequestType::AdvanceState
    } else if str_equals(s, "inspect_state") {
        RequestType::InspectState
    } else {
        RequestType::Unknown
    }
}

/// A state-changing request is accepted only on a verified `true` verdict.
pub open spec fn advance_status_of(result: Result<bool, VerifyError>) -> RollupStatus {
    if result == Ok::<bool, VerifyError>(true) {
        RollupStatus::Accept
    } else {
        RollupStatus::Reject
    }
}

/// Maps the verifier's result to the status of a state-changing request.
pub fn advance_status(result: Result<bool, VerifyError>) -> (r: RollupStatus)
    ensures
        r == advance_status_of(result),
        r == RollupStatus::Accept <==> result == Ok::<bool, VerifyError>(true),
{
    match result {
        Ok(true) => RollupStatus::Accept,
        _ => RollupStatus::Reject,
    }
}

/// What the loop does next.
#[derive(Debug)]
pub enum Step {
    /// Report this status on the next `finish` call.
    Report(RollupStatus),
    /// Have this payload's receipt checked, then report what `finish_advance`
    /// makes of the outcome.
    CheckReceipt(ProofPayload),
}

/// The step for a state-changing request's payload: a payload that does not
/// decode, or is too short, is rejected at once; any other has its receipt
/// checked, split exactly as it was sent.
pub open spec fn advance_step(payload: Seq<char>, step: Step) -> bool {
    let bytes = payload_bytes(payload);
    if !valid_hex(strip_hex_prefix(payload)) || bytes.len() <= IMAGE_ID_SIZE {
        step == Step::Report(RollupStatus::Reject)
    } else {
        match step {
            Step::CheckReceipt(p) => p.wf() && p.receipt@ == bytes.subrange(
                0,
                bytes.len() - IMAGE_ID_SIZE,
            ) && p.identity@ == bytes.subrange(bytes.len() - IMAGE_ID_SIZE, bytes.len() as int),
            Step::Report(_) => false,
        }
    }
}

/// The status of a request that needs no receipt check: an unknown or missing
/// type, or a missing payload, rejects; a read-only request with a payload is
/// accepted.
pub open spec fn routed_status(
    request_type: Option<Seq<char>>,
    payload: Option<Seq<char>>,
) -> RollupStatus {
    match request_type {
        None => RollupStatus::Reject,
        Some(t) => if request_type_of(t) == RequestType::InspectState && payload.is_some() {
            RollupStatus::Accept
        } else {
            RollupStatus::Reject
        },
    }
}

/// The step that a request with this type and payload leads to.
pub open spec fn request_step(
    request_type: Option<Seq<char>>,
    payload: Option<Seq<char>>,
    step: Step,
) -> bool {
    if request_type.is_some() && request_type_of(request_type.unwrap())
        == RequestType::AdvanceState && payload.is_some() {
        advance_step(payload.unwrap(), step)
    } else {
        step == Step::Report(routed_status(request_type, payload))
    }
}

pub open spec fn str_view(s: Option<&str>) -> Option<Seq<char>> {
    match s {
        Some(t) => Some(t@),
        None => None,
    }
}

/// Handles a state-changing request's payload: decodes it and asks for its
/// receipt to be checked. A payload that fails to decode rejects the request;
/// only a missing payload is an error.
pub fn handle_advance(payload: Option<&str>) -> (r: Result<Step, RequestError>)
    ensures
        payload.is_none() ==> r == Err::<Step, RequestError>(RequestError::MissingPayload),
        payload.is_some() ==> r.is_ok() && advance_step(payload.unwrap()@, r.unwrap()),
{
    match payload {
        None => Err(RequestError::MissingPayload),
        Some(p) => match decode_payload(p) {
            Ok(decoded) => Ok(Step::CheckReceipt(decoded)),
            Err(_) => Ok(Step::Report(RollupStatus::Reject)),
        },
    }
}

/// The status of a state-changing request once its receipt check reported
/// `check`.
pub fn finish_advance(payload: &ProofPayload, check: ReceiptCheck) -> (r: RollupStatus)
    requires
        payload.wf(),
    ensures
        r == advance_status_of(receipt_result(check, payload.identity@)),
{
    advance_status(verify_payload(payload, check))
}

/// Handles a read-only request's payload: it is accepted as soon as it is
/// there.
pub fn handle_inspect(payload: Option<&str>) -> (r: Result<RollupStatus, RequestError>)
    ensures
        payload.is_none() ==> r == Err::<RollupStatus, RequestError>(RequestError::MissingPayload),
        payload.is_some() ==> r == Ok::<RollupStatus, RequestError>(RollupStatus::Accept),
{
    match payload {
        None => Err(RequestError::MissingPayload),
        Some(_) => Ok(RollupStatus::Accept),
    }
}

/// Routes a request by its type. An unknown or missing type, and a missing
/// payload, reject the request without invoking either handler.
pub fn route_request(request_type: Option<&str>, payload: Option<&str>) -> (r: Step)
    ensures
        request_step(str_view(request_type), str_view(payload), r),
{
    let t: &str = match request_type {
        None => {
            return Step::Report(RollupStatus::Reject);
        },
        Some(t) => t,
    };
    match parse_request_type(t) {
        RequestType::AdvanceState => match handle_advance(payload) {
            Ok(step) => step,
            Err(_) => Step::Report(RollupStatus::Reject),
        },
        RequestType::InspectState => match handle_inspect(payload) {
            Ok(status) => Step::Report(status),
            Err(_) => Step::Report(RollupStatus::Reject),
        },
        RequestType::Unknown => Step::Report(RollupStatus::Reject),
    }
}

/// One step of the request loop. With no pending request (`None`) the
/// current status is reported again; otherwise the request's `request_type`
/// and `data.payload` strings decide the step.
pub fn next_step(current: RollupStatus, request: Option<(Option<&str>, Option<&str>)>) -> (r: Step)
    ensures
        request.is_none() ==> r == Step::Report(current),
        request.is_some() ==> request_step(
            str_view(request.unwrap().0),
            str_view(request.unwrap().1),
            r,
        ),
{
    match request {
        None => Step::Report(current),
        Some((request_type, payload)) => route_request(request_type, payload),
    }
}

/// A state-changing request is accepted exactly when its payload decodes and
/// the check of its receipt verifies with a `true` verdict; whatever the
/// payload's trailing identity, any other outcome rejects it.
pub proof fn lemma_advance_accepts_only_verified(payload: Seq<char>, check: ReceiptCheck)
    ensures
        advance_status_of(proof_result(payload, check)) == RollupStatus::Accept <==> (valid_hex(
            strip_hex_prefix(payload),
        ) && payload_bytes(payload).len() > IMAGE_ID_SIZE && check == ReceiptCheck::Verified(
            Some(true),
        )),
{
}

/// The step that a state-changing request leads to, once its receipt check
/// reports `check`, gives the status that verifying the payload string with
/// that outcome gives.
pub proof fn lemma_advance_step_consistent(payload: Seq<char>, step: Step, check: ReceiptCheck)
    requires
        advance_step(payload, step),
    ensures
        match step {
            Step::Report(s) => s == advance_status_of(proof_result(payload, check)),
            Step::CheckReceipt(p) => advance_status_of(receipt_result(check, p.identity@))
                == advance_status_of(proof_result(payload, check)),
        },
{
}

/// A request whose type is neither known kind is rejected, whatever payload
/// it carries.
pub proof fn lemma_unknown_type_rejected(
    request_type: Seq<char>,
    payload: Option<Seq<char>>,
    step: Step,
)
    requires
        request_type_of(request_type) == RequestType::Unknown,
        request_step(Some(request_type), payload, step),
    ensures
        step == Step::Report(RollupStatus::Reject),
{
}

} // verus!
