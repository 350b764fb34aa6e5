//! The gateway's persistent state: the owner, the allowlist of approved code
//! identities and the registry of admitted workers; admission of workers and
//! the authorization of delegated signing.
use crate::attestation::{
    binds_caller, check_caller_binding, code_identity, extract_code_identity, TcbInfo, TcbView,
    VerifiedReport,
};
use crate::error::{GatewayError, RejectReason};
use crate::hexcode::{decode_quote, is_hex};
use crate::signing::{get_sig, sign_call_for, SignCall};
use crate::records::{PortfolioAsset, PortfolioHealth, RebalanceIntent, Trade, UserPreferences};
use vstd::hash_map::{HashMapWithView, StringHashMap};
use vstd::hash_set::{HashSetWithView, StringHashSet};
use vstd::prelude::*;
use vstd::string::StringSliceAdditionalSpecFns;

verus! {

/// The success rate a newly admitted worker starts with, in percent.
pub const INITIAL_SUCCESS_RATE: u8 = 100;

/// What the registry records of an admitted worker.
#[derive(Clone, Debug)]
pub struct Worker {
    /// Opaque build fingerprint the worker presented.
    pub checksum: String,
    /// The code identity its evidence resolved to.
    pub codehash: String,
    pub registration_timestamp: u64,
    pub last_activity: u64,
    pub tasks_completed: u64,
    pub success_rate: u8,
}

pub ghost struct WorkerView {
    pub checksum: Seq<char>,
    pub codehash: Seq<char>,
    pub registration_timestamp: u64,
    pub last_activity: u64,
    pub tasks_completed: u64,
    pub success_rate: u8,
}

impl View for Worker {
    type V = WorkerView;

    open spec fn view(&self) -> WorkerView {
        WorkerView {
            checksum: self.checksum@,
            codehash: self.codehash@,
            registration_timestamp: self.registration_timestamp,
            last_activity: self.last_activity,
            tasks_completed: self.tasks_completed,
            success_rate: self.success_rate,
        }
    }
}

/// The record written for a worker admitted at time `now`.
pub open spec fn admitted_worker(checksum: Seq<char>, codehash: Seq<char>, now: u64) -> WorkerView {
    WorkerView {
        checksum,
        codehash,
        registration_timestamp: now,
        last_activity: now,
        tasks_completed: 0,
        success_rate: INITIAL_SUCCESS_RATE,
    }
}

/// The contract's state. Callers are identified by their account name. The
/// trust gateway is the owner, the allowlist and the worker registry; the
/// rest is portfolio bookkeeping (see `book`).
pub struct AIPortfolioRebalancer {
    pub owner_id: String,
    pub greeting: String,
    pub users: StringHashSet,
    pub user_portfolios: StringHashMap<Vec<PortfolioAsset>>,
    pub user_preferences: StringHashMap<UserPreferences>,
    pub user_health: StringHashMap<PortfolioHealth>,
    pub intents: HashMapWithView<u64, RebalanceIntent>,
    pub next_intent_id: u64,
    pub user_intents: StringHashMap<Vec<u64>>,
    pub trades: HashMapWithView<u64, Trade>,
    pub next_trade_id: u64,
    pub active_rebalances: HashSetWithView<u64>,
    pub approved_codehashes: StringHashSet,
    pub worker_by_account_id: StringHashMap<Worker>,
    pub latest_market_analysis_json: String,
    pub supported_chains: Vec<String>,
    pub supported_assets: Vec<String>,
    pub asset_prices: StringHashMap<String>,
    pub total_volume_usd: String,
    pub total_users: u64,
    pub total_intents: u64,
    pub total_trades: u64,
    pub total_gas_saved: String,
    pub success_rate: u8,
}

pub ghost struct GatewayView {
    pub owner: Seq<char>,
    pub allowlist: Set<Seq<char>>,
    pub workers: Map<Seq<char>, WorkerView>,
}

impl View for AIPortfolioRebalancer {
    type V = GatewayView;

    open spec fn view(&self) -> GatewayView {
        GatewayView {
            owner: self.owner_id@,
            allowlist: self.approved_codehashes@,
            workers: self.worker_by_account_id@.map_values(|w: Worker| w@),
        }
    }
}

/// The outcome of an admission attempt by `caller`: the code identity that
/// admits it, or the first check that fails, in the order evidence decoding,
/// attestation, caller binding, code-identity resolution, allowlist.
/// `attestation` is what the attestation verifier returned for the quote.
pub open spec fn admission_outcome(
    allowlist: Set<Seq<char>>,
    caller: Seq<char>,
    quote_hex: Seq<u8>,
    attestation: Result<VerifiedReport, RejectReason>,
    tcb: TcbView,
) -> Result<Seq<char>, GatewayError> {
    if !is_hex(quote_hex) {
        Err(GatewayError::MalformedEvidence)
    } else {
        match attestation {
            Err(reason) => Err(GatewayError::AttestationRejected(reason)),
            Ok(report) => if !binds_caller(report@.report_data, caller) {
                Err(GatewayError::IdentityBindingFailed)
            } else {
                match code_identity(report@, tcb) {
                    None => Err(GatewayError::CodeIdentityUnresolvable),
                    Some(code) => if allowlist.contains(code) {
                        Ok(code)
                    } else {
                        Err(GatewayError::CodeNotApproved)
                    },
                }
            },
        }
    }
}

/// The state after an admission attempt: on success the caller's record is
/// written, replacing any earlier one; on failure nothing changes.
pub open spec fn after_admission(
    g: GatewayView,
    caller: Seq<char>,
    quote_hex: Seq<u8>,
    checksum: Seq<char>,
    attestation: Result<VerifiedReport, RejectReason>,
    tcb: TcbView,
    now: u64,
) -> GatewayView {
    match admission_outcome(g.allowlist, caller, quote_hex, attestation, tcb) {
        Ok(code) => GatewayView {
            workers: g.workers.insert(caller, admitted_worker(checksum, code, now)),
            ..g
        },
        Err(_) => g,
    }
}

/// Owner-only operations fail for anyone else.
pub open spec fn owner_check(g: GatewayView, caller: Seq<char>) -> Result<(), GatewayError> {
    if caller == g.owner {
        Ok(())
    } else {
        Err(GatewayError::Unauthorized)
    }
}

/// The state after `caller` asks to approve `code`.
pub open spec fn after_approval(g: GatewayView, caller: Seq<char>, code: Seq<char>) -> GatewayView {
    if caller == g.owner {
        GatewayView { allowlist: g.allowlist.insert(code), ..g }
    } else {
        g
    }
}

/// The state after `caller` asks to revoke `code`. Worker records stay; they
/// are refused at their next signing request.
pub open spec fn after_revocation(g: GatewayView, caller: Seq<char>, code: Seq<char>) -> GatewayView {
    if caller == g.owner {
        GatewayView { allowlist: g.allowlist.remove(code), ..g }
    } else {
        g
    }
}

/// Whether `caller` may have a payload signed: it must hold a worker record
/// whose code identity is on the allowlist as it stands now.
pub open spec fn signing_decision(g: GatewayView, caller: Seq<char>) -> Result<(), GatewayError> {
    if !g.workers.contains_key(caller) {
        Err(GatewayError::WorkerNotRegistered)
    } else if !g.allowlist.contains(g.workers[caller].codehash) {
        Err(GatewayError::CodeNoLongerApproved)
    } else {
        Ok(())
    }
}

impl AIPortfolioRebalancer {
    /// Whether `codehash` is on the allowlist.
    pub fn is_approved(&self, codehash: &str) -> (r: bool)
        ensures
            r == self@.allowlist.contains(codehash@),
    {
        self.approved_codehashes.contains(codehash)
    }

    /// The worker record of `account_id`, if it was admitted.
    pub fn get_worker(&self, account_id: &str) -> (r: Option<&Worker>)
        ensures
            match r {
                Some(w) => self@.workers.contains_key(account_id@) && w@ == self@.workers[account_id@],
                None => !self@.workers.contains_key(account_id@),
            },
    {
        self.worker_by_account_id.get(account_id)
    }

    /// Adds `codehash` to the allowlist; only the owner may.
    pub fn approve_codehash(&mut self, caller: &String, codehash: String) -> (r: Result<
        (),
        GatewayError,
    >)
        ensures
            r == owner_check(old(self)@, caller@),
            final(self)@ == after_approval(old(self)@, caller@, codehash@),
            final(self).book() == old(self).book(),
    {
        if *caller != self.owner_id {
            return Err(GatewayError::Unauthorized);
        }
        self.approved_codehashes.insert(codehash);
        Ok(())
    }

    /// Removes `codehash` from the allowlist; only the owner may. Workers
    /// admitted under it keep their records but can no longer sign.
    pub fn revoke_codehash(&mut self, caller: &String, codehash: &str) -> (r: Result<
        (),
        GatewayError,
    >)
        ensures
            r == owner_check(old(self)@, caller@),
            final(self)@ == after_revocation(old(self)@, caller@, codehash@),
            final(self).book() == old(self).book(),
    {
        if *caller != self.owner_id {
            return Err(GatewayError::Unauthorized);
        }
        self.approved_codehashes.remove(codehash);
        Ok(())
    }

    /// Admits `caller` as a worker. `quote_hex` is the hex-encoded quote;
    /// `attestation` is what the attestation verifier returned for the decoded
    /// quote, its collateral and the trusted time; `tcb_info` is the TCB-info
    /// document presented with it; `now` is the block timestamp. On success
    /// the caller's record maps to `checksum` and the resolved code identity.
    pub fn register_worker(
        &mut self,
        caller: &String,
        quote_hex: &str,
        checksum: String,
        attestation: Result<VerifiedReport, RejectReason>,
        tcb_info: &TcbInfo,
        now: u64,
    ) -> (r: Result<(), GatewayError>)
        ensures
            match admission_outcome(
                old(self)@.allowlist,
                caller@,
                quote_hex.spec_bytes(),
                attestation,
                tcb_info@,
            ) {
                Ok(_) => r is Ok,
                Err(e) => r == Err::<(), GatewayError>(e),
            },
            final(self)@ == after_admission(
                old(self)@,
                caller@,
                quote_hex.spec_bytes(),
                checksum@,
                attestation,
                tcb_info@,
                now,
            ),
            final(self).book() == old(self).book(),
    {
        if let Err(e) = decode_quote(quote_hex) {
            return Err(e);
        }
        let report = match attestation {
            Ok(report) => report,
            Err(reason) => return Err(GatewayError::AttestationRejected(reason)),
        };
        if !check_caller_binding(&report, caller.as_str()) {
            return Err(GatewayError::IdentityBindingFailed);
        }
        let code = match extract_code_identity(&report, tcb_info) {
            Ok(code) => code,
            Err(e) => return Err(e),
        };
        if !self.approved_codehashes.contains(code.as_str()) {
            return Err(GatewayError::CodeNotApproved);
        }
        let worker = Worker {
            checksum,
            codehash: code,
            registration_timestamp: now,
            last_activity: now,
            tasks_completed: 0,
            success_rate: INITIAL_SUCCESS_RATE,
        };
        let ghost before = self.worker_by_account_id@;
        self.worker_by_account_id.insert(caller.clone(), worker);
        assert(self.worker_by_account_id@.map_values(|w: Worker| w@) =~= before.map_values(
            |w: Worker| w@,
        ).insert(caller@, worker@));
        Ok(())
    }

    /// Forwards `{payload, derivation_path, key_version}` to the signing
    /// service on behalf of `caller`, if `caller` is an admitted worker whose
    /// code identity is still approved.
    pub fn sign_transaction(
        &self,
        caller: &String,
        payload: Vec<u8>,
        derivation_path: String,
        key_version: u32,
    ) -> (r: Result<SignCall, GatewayError>)
        ensures
            match signing_decision(self@, caller@) {
                Ok(_) => r is Ok && r->Ok_0@ == sign_call_for(payload@, derivation_path@, key_version),
                Err(e) => r == Err::<SignCall, GatewayError>(e),
            },
    {
        let worker = match self.worker_by_account_id.get(caller.as_str()) {
            Some(worker) => worker,
            None => return Err(GatewayError::WorkerNotRegistered),
        };
        if !self.approved_codehashes.contains(worker.codehash.as_str()) {
            return Err(GatewayError::CodeNoLongerApproved);
        }
        Ok(get_sig(payload, derivation_path, key_version))
    }
}

} // verus!
