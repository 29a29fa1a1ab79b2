//! Age attestation and rollup verification: an eligibility predicate over two
//! timestamps, the proof payload wire format, the classification of receipt
//! checks against the expected program identity, and the accept/reject steps
//! of the rollup request loop.

pub mod eligibility;
pub mod error;
pub mod payload;
pub mod receipt;
pub mod dispatch;
