//! Receipt verification: what a payload's receipt must be checked against,
//! and how the outcome of that check becomes the verifier's result.
use vstd::prelude::*;
use crate::error::VerifyError;
use crate::payload::{
    decode_payload, identity_words, parse_identity, payload_bytes, strip_hex_prefix, valid_hex,
    ProofPayload, IMAGE_ID_SIZE,
};

verus! {

/// Identity of the attested age-eligibility program.
pub const AGE_VERIFY_ID: [u32; 8] = [
    0x48a22539,
    0x62c92ee4,
    0x3eb929c8,
    0xd930e83d,
    0xe79c784a,
    0xe6df700e,
    0x39566542,
    0xecd80864,
];

pub open spec fn expected_identity() -> Seq<u32> {
    AGE_VERIFY_ID@
}

/// What the cryptographic check of a receipt reported.
#[derive(Debug, Clone, Copy, PartialEq, Eq, Structural)]
pub enum ReceiptCheck {
    /// The receipt bytes did not deserialize as a receipt.
    Undecodable,
    /// The receipt deserialized but did not verify against the identity.
    Rejected,
    /// The receipt verified; the journal read as a boolean, if it holds one.
    Verified(Option<bool>),
}

/// A receipt to be checked, and the program identity to check it against.
pub struct CheckRequest {
    pub receipt: Vec<u8>,
    pub image_id: [u32; 8],
}

/// The verifier's result for one outcome of the check: on success, the
/// journal's verdict; on a failed check, a mismatch when the payload names
/// another program, and a failed verification otherwise.
pub open spec fn receipt_result(check: ReceiptCheck, identity: Seq<u8>) -> Result<
    bool,
    VerifyError,
> {
    match check {
        ReceiptCheck::Undecodable => Err(VerifyError::DeserializationError),
        ReceiptCheck::Verified(Some(v)) => Ok(v),
        ReceiptCheck::Verified(None) => Err(VerifyError::MalformedJournal),
        ReceiptCheck::Rejected => if identity_words(identity) != expected_identity() {
            Err(VerifyError::IdentityMismatch)
        } else {
            Err(VerifyError::VerificationFailed)
        },
    }
}

/// The result of verifying a payload string whose receipt check reports
/// `check`.
pub open spec fn proof_result(payload: Seq<char>, check: ReceiptCheck) -> Result<
    bool,
    VerifyError,
> {
    let bytes = payload_bytes(payload);
    if !valid_hex(strip_hex_prefix(payload)) {
        Err(VerifyError::MalformedHex)
    } else if bytes.len() <= IMAGE_ID_SIZE {
        Err(VerifyError::PayloadTooSmall)
    } else {
        receipt_result(
            check,
            bytes.subrange(bytes.len() - IMAGE_ID_SIZE, bytes.len() as int),
        )
    }
}

/// The identity that every receipt is checked against.
pub fn expected_image_id() -> (r: [u32; 8])
    ensures
        r@ == expected_identity(),
{
    AGE_VERIFY_ID
}

/// The check that a decoded payload calls for: its receipt bytes, against
/// the expected program identity and never the identity the payload names.
pub fn check_request(payload: &ProofPayload) -> (r: CheckRequest)
    ensures
        r.receipt@ == payload.receipt@,
        r.image_id@ == expected_identity(),
{
    CheckRequest { receipt: payload.receipt.clone(), image_id: expected_image_id() }
}

/// Whether identity words equal the expected program identity.
pub fn is_expected_identity(words: &Vec<u32>) -> (r: bool)
    ensures
        r == (words@ == expected_identity()),
{
    if words.len() != 8 {
        return false;
    }
    let mut i: usize = 0;
    while i < 8
        invariant
            i <= 8,
            words@.len() == 8,
            forall|j: int| 0 <= j < i ==> words@[j] == AGE_VERIFY_ID@[j],
        decreases 8 - i,
    {
        if words[i] != AGE_VERIFY_ID[i] {
            return false;
        }
        i = i + 1;
    }
    assert(words@ =~= expected_identity());
    true
}

/// Turns the outcome of a decoded payload's receipt check into the
/// verifier's result.
pub fn verify_payload(payload: &ProofPayload, check: ReceiptCheck) -> (r: Result<bool, VerifyError>)
    requires
        payload.wf(),
    ensures
        r == receipt_result(check, payload.identity@),
{
    match check {
        ReceiptCheck::Undecodable => Err(VerifyError::DeserializationError),
        ReceiptCheck::Verified(Some(v)) => Ok(v),
        ReceiptCheck::Verified(None) => Err(VerifyError::MalformedJournal),
        ReceiptCheck::Rejected => {
            let words: Vec<u32> = parse_identity(payload.identity.as_slice());
            if is_expected_identity(&words) {
                Err(VerifyError::VerificationFailed)
            } else {
                Err(VerifyError::IdentityMismatch)
            }
        },
    }
}

/// Verifies a hex payload whose receipt check reported `check`. A payload
/// that does not decode, or is too short, fails whatever `check` says: its
/// receipt is never looked at.
pub fn verify_zkp(payload: &str, check: ReceiptCheck) -> (r: Result<bool, VerifyError>)
    ensures
        r == proof_result(payload@, check),
{
    match decode_payload(payload) {
        Ok(p) => verify_payload(&p, check),
        Err(e) => Err(e),
    }
}

/// When the receipt check fails on a payload that decodes, the failure is an
/// identity mismatch exactly when the payload's trailing identity is not the
/// expected one, and a failed verification exactly when it is.
pub proof fn lemma_failure_classification(payload: Seq<char>)
    requires
        valid_hex(strip_hex_prefix(payload)),
        payload_bytes(payload).len() > IMAGE_ID_SIZE,
    ensures
        ({
            let bytes = payload_bytes(payload);
            let identity = bytes.subrange(bytes.len() - IMAGE_ID_SIZE, bytes.len() as int);
            &&& identity_words(identity) == expected_identity() ==> proof_result(
                payload,
                ReceiptCheck::Rejected,
            ) == Err::<bool, VerifyError>(VerifyError::VerificationFailed)
            &&& identity_words(identity) != expected_identity() ==> proof_result(
                payload,
                ReceiptCheck::Rejected,
            ) == Err::<bool, VerifyError>(VerifyError::IdentityMismatch)
        }),
{
}

} // verus!
