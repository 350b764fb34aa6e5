use vstd::prelude::*;

verus! {

/// Why the external attestation verifier refused a quote.
#[derive(Clone, Copy, Debug, PartialEq, Eq, Structural)]
pub enum RejectReason {
    BadSignatureChain,
    CollateralExpired,
    CollateralUnavailable,
    PlatformMismatch,
    TcbRevoked,
    ClockSkew,
    UnsupportedFormat,
}

/// Every way a gateway operation can fail. Each aborts the call with no
/// change of state.
#[derive(Clone, Copy, Debug, PartialEq, Eq, Structural)]
pub enum GatewayError {
    /// The attestation evidence is not valid hex.
    MalformedEvidence,
    /// The attestation verifier refused the quote.
    AttestationRejected(RejectReason),
    /// The quote's report data does not name the calling identity.
    IdentityBindingFailed,
    /// The TCB-info document does not resolve the measured code.
    CodeIdentityUnresolvable,
    /// The derived code identity is not on the allowlist.
    CodeNotApproved,
    /// The worker's code identity was removed from the allowlist.
    CodeNoLongerApproved,
    /// The caller has no worker record.
    WorkerNotRegistered,
    /// A non-owner called an owner-only operation.
    Unauthorized,
}

} // verus!

verus! {

/// Every way a bookkeeping operation can fail. Each aborts the call with no
/// change of state.
#[derive(Clone, Copy, Debug, PartialEq, Eq, Structural)]
pub enum PortfolioError {
    /// A non-owner called an owner-only operation.
    Unauthorized,
    /// No intent has the given id.
    IntentNotFound,
    /// No trade has the given id.
    TradeNotFound,
    /// Only the owner or the intent's creator may execute it.
    NotIntentParty,
    /// The name given for the owner is not a valid account name.
    InvalidAccountId,
}

} // verus!
