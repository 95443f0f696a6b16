use vstd::prelude::*;

verus! {

/// Domain failure taxonomy for the marketplace core.
///
/// - `InvalidInput`: malformed address, name/symbol too long, empty field.
/// - `SignatureInvalid`: signature of the wrong shape, or verification failed.
/// - `DerivationFailure`: no valid derived address exists for the seeds
///   (fatal and unexpected in practice).
/// - `LedgerQueryFailure`: a blockhash / rent / account read failed
///   (transient; safe to retry).
/// - `LedgerSubmissionFailure`: submission rejected or confirmation timed out
///   (not safe to blindly retry; the effect may have landed).
/// - `StateViolation`: listing missing, inactive, or malformed account bytes.
#[derive(Clone, Copy, Debug, PartialEq, Eq, Structural)]
pub enum MarketError {
    InvalidInput,
    SignatureInvalid,
    DerivationFailure,
    LedgerQueryFailure,
    LedgerSubmissionFailure,
    StateViolation,
}

impl MarketError {
    /// Stable machine-readable code for reporting a failure to a caller.
    pub fn code(&self) -> (r: &'static str)
        ensures
            r@ == self.spec_code(),
    {
        match self {
            MarketError::InvalidInput => "INVALID_INPUT",
            MarketError::SignatureInvalid => "SIGNATURE_INVALID",
            MarketError::DerivationFailure => "DERIVATION_FAILURE",
            MarketError::LedgerQueryFailure => "LEDGER_QUERY_FAILURE",
            MarketError::LedgerSubmissionFailure => "LEDGER_SUBMISSION_FAILURE",
            MarketError::StateViolation => "STATE_VIOLATION",
        }
    }

    pub open spec fn spec_code(&self) -> Seq<char> {
        match self {
            MarketError::InvalidInput => "INVALID_INPUT"@,
            MarketError::SignatureInvalid => "SIGNATURE_INVALID"@,
            MarketError::DerivationFailure => "DERIVATION_FAILURE"@,
            MarketError::LedgerQueryFailure => "LEDGER_QUERY_FAILURE"@,
            MarketError::LedgerSubmissionFailure => "LEDGER_SUBMISSION_FAILURE"@,
            MarketError::StateViolation => "STATE_VIOLATION"@,
        }
    }

    /// Whether a failed flow may be retried without first re-reading
    /// on-ledger state.
    pub fn retry_safe(&self) -> (r: bool)
        ensures
            r == (*self == MarketError::LedgerQueryFailure),
    {
        match self {
            MarketError::LedgerQueryFailure => true,
            _ => false,
        }
    }
}

} // verus!
