//! Properties of admission and signing authorization that hold for every
//! input, stated over the same spec functions as the operations' contracts.
use crate::attestation::{binds_caller, code_identity, TcbView, VerifiedReport};
use crate::error::{GatewayError, RejectReason};
use crate::gateway::{
    admission_outcome, admitted_worker, after_admission, after_approval, after_revocation,
    signing_decision, GatewayView,
};
use crate::hexcode::is_hex;
use vstd::prelude::*;

verus! {

/// Evidence that is not hex is refused as malformed, whatever else is
/// presented, and no worker record is written.
pub proof fn malformed_evidence_is_refused(
    g: GatewayView,
    caller: Seq<char>,
    quote_hex: Seq<u8>,
    checksum: Seq<char>,
    attestation: Result<VerifiedReport, RejectReason>,
    tcb: TcbView,
    now: u64,
)
    requires
        !is_hex(quote_hex),
    ensures
        admission_outcome(g.allowlist, caller, quote_hex, attestation, tcb)
            == Err::<Seq<char>, GatewayError>(GatewayError::MalformedEvidence),
        after_admission(g, caller, quote_hex, checksum, attestation, tcb, now) == g,
{
}

/// A verified quote whose report data does not name the caller is refused
/// for identity binding, whatever the TCB-info document and the allowlist,
/// and no worker record is written.
pub proof fn unbound_evidence_is_refused(
    g: GatewayView,
    caller: Seq<char>,
    quote_hex: Seq<u8>,
    checksum: Seq<char>,
    report: VerifiedReport,
    tcb: TcbView,
    now: u64,
)
    requires
        is_hex(quote_hex),
        !binds_caller(report@.report_data, caller),
    ensures
        admission_outcome(g.allowlist, caller, quote_hex, Ok(report), tcb)
            == Err::<Seq<char>, GatewayError>(GatewayError::IdentityBindingFailed),
        after_admission(g, caller, quote_hex, checksum, Ok(report), tcb, now) == g,
{
}

/// Evidence that resolves to a code identity off the allowlist is refused as
/// not approved and writes nothing; once the owner approves that identity,
/// the same admission attempt succeeds and records it.
pub proof fn approval_admits_refused_code(
    g: GatewayView,
    caller: Seq<char>,
    quote_hex: Seq<u8>,
    checksum: Seq<char>,
    attestation: Result<VerifiedReport, RejectReason>,
    tcb: TcbView,
    now: u64,
    code: Seq<char>,
)
    requires
        is_hex(quote_hex),
        attestation is Ok,
        binds_caller(attestation->Ok_0@.report_data, caller),
        code_identity(attestation->Ok_0@, tcb) == Some(code),
        !g.allowlist.contains(code),
    ensures
        admission_outcome(g.allowlist, caller, quote_hex, attestation, tcb)
            == Err::<Seq<char>, GatewayError>(GatewayError::CodeNotApproved),
        after_admission(g, caller, quote_hex, checksum, attestation, tcb, now) == g,
        admission_outcome(
            after_approval(g, g.owner, code).allowlist,
            caller,
            quote_hex,
            attestation,
            tcb,
        ) == Ok::<Seq<char>, GatewayError>(code),
        after_admission(
            after_approval(g, g.owner, code),
            caller,
            quote_hex,
            checksum,
            attestation,
            tcb,
            now,
        ).workers == g.workers.insert(caller, admitted_worker(checksum, code, now)),
{
    assert(after_approval(g, g.owner, code).allowlist.contains(code));
}

/// Admitting the same caller twice under the same code identity leaves one
/// record for it, the one the second admission wrote; nothing else changes.
pub proof fn readmission_overwrites(
    g: GatewayView,
    caller: Seq<char>,
    code: Seq<char>,
    quote_hex1: Seq<u8>,
    checksum1: Seq<char>,
    attestation1: Result<VerifiedReport, RejectReason>,
    tcb1: TcbView,
    now1: u64,
    quote_hex2: Seq<u8>,
    checksum2: Seq<char>,
    attestation2: Result<VerifiedReport, RejectReason>,
    tcb2: TcbView,
    now2: u64,
)
    requires
        admission_outcome(g.allowlist, caller, quote_hex1, attestation1, tcb1) == Ok::<
            Seq<char>,
            GatewayError,
        >(code),
        admission_outcome(g.allowlist, caller, quote_hex2, attestation2, tcb2) == Ok::<
            Seq<char>,
            GatewayError,
        >(code),
    ensures
        ({
            let g1 = after_admission(g, caller, quote_hex1, checksum1, attestation1, tcb1, now1);
            let g2 = after_admission(g1, caller, quote_hex2, checksum2, attestation2, tcb2, now2);
            &&& g2.workers == g.workers.insert(caller, admitted_worker(checksum2, code, now2))
            &&& g2.workers.dom() == g.workers.dom().insert(caller)
            &&& g2.owner == g.owner
            &&& g2.allowlist == g.allowlist
        }),
{
    let g1 = after_admission(g, caller, quote_hex1, checksum1, attestation1, tcb1, now1);
    let g2 = after_admission(g1, caller, quote_hex2, checksum2, attestation2, tcb2, now2);
    assert(g2.workers =~= g.workers.insert(caller, admitted_worker(checksum2, code, now2)));
}

/// A caller without a worker record is refused signing.
pub proof fn unregistered_caller_cannot_sign(g: GatewayView, caller: Seq<char>)
    requires
        !g.workers.contains_key(caller),
    ensures
        signing_decision(g, caller) == Err::<(), GatewayError>(GatewayError::WorkerNotRegistered),
{
}

/// A successful admission records a code identity that is on the allowlist.
pub proof fn admission_requires_approval(
    g: GatewayView,
    caller: Seq<char>,
    quote_hex: Seq<u8>,
    checksum: Seq<char>,
    attestation: Result<VerifiedReport, RejectReason>,
    tcb: TcbView,
    now: u64,
)
    requires
        admission_outcome(g.allowlist, caller, quote_hex, attestation, tcb) is Ok,
    ensures
        ({
            let code = admission_outcome(g.allowlist, caller, quote_hex, attestation, tcb)->Ok_0;
            &&& g.allowlist.contains(code)
            &&& after_admission(g, caller, quote_hex, checksum, attestation, tcb, now).workers[caller]
                == admitted_worker(checksum, code, now)
        }),
{
}

/// Once the owner revokes a worker's code identity, the worker keeps its
/// record but is refused signing.
pub proof fn revocation_blocks_signing(g: GatewayView, caller: Seq<char>)
    requires
        g.workers.contains_key(caller),
    ensures
        ({
            let revoked = after_revocation(g, g.owner, g.workers[caller].codehash);
            &&& revoked.workers == g.workers
            &&& signing_decision(revoked, caller) == Err::<(), GatewayError>(
                GatewayError::CodeNoLongerApproved,
            )
        }),
{
}

} // verus!
