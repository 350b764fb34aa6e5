use tee_gateway::attestation::{
    attestation_time, check_caller_binding, extract_code_identity, ReportVariant, TcbInfo,
    TcbMeasurement, VerifiedReport,
};
use tee_gateway::error::{GatewayError, RejectReason};
use tee_gateway::gateway::AIPortfolioRebalancer;
use tee_gateway::hexcode::decode_quote;
use tee_gateway::signing::get_sig;

const OWNER: &str = "owner.near";
const QUOTE: &str = "0a1b2c3d4e5f";
const APP_REGISTER: [u8; 4] = [0xde, 0xad, 0xbe, 0xef];

fn report_data_for(id: &str) -> Vec<u8> {
    let mut data = id.as_bytes().to_vec();
    data.resize(64, 0);
    data
}

fn report_for(id: &str) -> VerifiedReport {
    VerifiedReport {
        variant: ReportVariant::TdReport10,
        report_data: report_data_for(id),
        rt_mrs: vec![vec![1; 48], vec![2; 48], APP_REGISTER.to_vec(), vec![4; 48]],
    }
}

fn tcb_mapping(code: &str) -> TcbInfo {
    TcbInfo {
        signature_verified: true,
        measurements: vec![
            TcbMeasurement { register_hex: "00112233".to_string(), code_identity: "other".to_string() },
            TcbMeasurement { register_hex: "deadbeef".to_string(), code_identity: code.to_string() },
        ],
    }
}

fn gateway_with(approved: &[&str]) -> AIPortfolioRebalancer {
    let mut g = AIPortfolioRebalancer::new(OWNER.to_string()).unwrap();
    for code in approved {
        assert!(g.approve_codehash(&OWNER.to_string(), code.to_string()).is_ok());
    }
    g
}

fn enroll(
    g: &mut AIPortfolioRebalancer,
    caller: &str,
    quote_hex: &str,
    checksum: &str,
    report_owner: &str,
    code: &str,
    now: u64,
) -> Result<(), GatewayError> {
    g.register_worker(
        &caller.to_string(),
        quote_hex,
        checksum.to_string(),
        Ok(report_for(report_owner)),
        &tcb_mapping(code),
        now,
    )
}

#[test]
fn decode_quote_reads_hex_of_either_case() {
    assert_eq!(decode_quote("00ff10").unwrap(), vec![0x00, 0xff, 0x10]);
    assert_eq!(decode_quote("AbCd").unwrap(), vec![0xab, 0xcd]);
    assert_eq!(decode_quote("").unwrap(), Vec::<u8>::new());
}

#[test]
fn decode_quote_refuses_non_hex() {
    assert_eq!(decode_quote("abc"), Err(GatewayError::MalformedEvidence));
    assert_eq!(decode_quote("0g"), Err(GatewayError::MalformedEvidence));
    assert_eq!(decode_quote("zz99"), Err(GatewayError::MalformedEvidence));
}

#[test]
fn caller_binding_ignores_trailing_padding_only() {
    let report = report_for("alice.near");
    assert!(check_caller_binding(&report, "alice.near"));
    assert!(!check_caller_binding(&report, "alice.nea"));
    assert!(!check_caller_binding(&report, "bob.near"));
    assert!(!check_caller_binding(&report, "alice.near\0x"));
    let unpadded = VerifiedReport {
        variant: ReportVariant::TdReport15,
        report_data: b"w".to_vec(),
        rt_mrs: vec![],
    };
    assert!(check_caller_binding(&unpadded, "w"));
    let empty = VerifiedReport { variant: ReportVariant::SgxEnclave, report_data: vec![0; 8], rt_mrs: vec![] };
    assert!(check_caller_binding(&empty, ""));
    assert!(!check_caller_binding(&empty, "w"));
}

#[test]
fn code_identity_comes_from_the_third_register() {
    let report = report_for("w.near");
    assert_eq!(extract_code_identity(&report, &tcb_mapping("abc123")).unwrap(), "abc123");
}

#[test]
fn code_identity_unresolvable_cases() {
    let report = report_for("w.near");
    let mut unsigned = tcb_mapping("abc123");
    unsigned.signature_verified = false;
    assert_eq!(extract_code_identity(&report, &unsigned), Err(GatewayError::CodeIdentityUnresolvable));
    let unmapped = TcbInfo {
        signature_verified: true,
        measurements: vec![TcbMeasurement { register_hex: "DEADBEEF".to_string(), code_identity: "x".to_string() }],
    };
    assert_eq!(extract_code_identity(&report, &unmapped), Err(GatewayError::CodeIdentityUnresolvable));
    let short = VerifiedReport { variant: ReportVariant::SgxEnclave, report_data: vec![], rt_mrs: vec![vec![0xde]] };
    assert_eq!(extract_code_identity(&short, &tcb_mapping("abc123")), Err(GatewayError::CodeIdentityUnresolvable));
}

#[test]
fn code_identity_takes_the_first_matching_entry() {
    let report = report_for("w.near");
    let tcb = TcbInfo {
        signature_verified: true,
        measurements: vec![
            TcbMeasurement { register_hex: "deadbeef".to_string(), code_identity: "first".to_string() },
            TcbMeasurement { register_hex: "deadbeef".to_string(), code_identity: "second".to_string() },
        ],
    };
    assert_eq!(extract_code_identity(&report, &tcb).unwrap(), "first");
}

#[test]
fn attestation_time_truncates_to_seconds() {
    assert_eq!(attestation_time(1_700_000_000_999_999_999), 1_700_000_000);
    assert_eq!(attestation_time(999_999_999), 0);
}

#[test]
fn sign_call_carries_budget_and_fee() {
    let call = get_sig(vec![1, 2, 3], "m/0".to_string(), 0);
    assert_eq!(call.signer_contract, "v1.signer-prod.testnet");
    assert_eq!(call.request.payload, vec![1, 2, 3]);
    assert_eq!(call.request.path, "m/0");
    assert_eq!(call.request.key_version, 0);
    assert_eq!(call.gas, 250_000_000_000_000);
    assert_eq!(call.deposit_yoctonear, 1_000_000_000_000_000_000_000);
}

#[test]
fn end_to_end_admission_and_signing() {
    let mut g = AIPortfolioRebalancer::new(OWNER.to_string()).unwrap();
    assert_eq!(g.approve_codehash(&OWNER.to_string(), "abc123".to_string()), Ok(()));
    assert_eq!(enroll(&mut g, "w.near", QUOTE, "sum-1", "w.near", "abc123", 7), Ok(()));
    let worker = g.get_worker("w.near").unwrap();
    assert_eq!(worker.checksum, "sum-1");
    assert_eq!(worker.codehash, "abc123");
    assert_eq!(worker.registration_timestamp, 7);
    assert_eq!(worker.last_activity, 7);
    assert_eq!(worker.tasks_completed, 0);
    assert_eq!(worker.success_rate, 100);
    let call = g.sign_transaction(&"w.near".to_string(), b"payload".to_vec(), "m/0".to_string(), 0).unwrap();
    assert_eq!(call.request.payload, b"payload".to_vec());
    assert_eq!(call.request.path, "m/0");
    assert_eq!(call.request.key_version, 0);
    assert_eq!(call.signer_contract, "v1.signer-prod.testnet");
    let refused = g.sign_transaction(&"u.near".to_string(), b"payload".to_vec(), "m/0".to_string(), 0);
    assert_eq!(refused.unwrap_err(), GatewayError::WorkerNotRegistered);
}

#[test]
fn unapproved_code_is_not_admitted() {
    let mut g = gateway_with(&["abc123"]);
    assert_eq!(enroll(&mut g, "w.near", QUOTE, "sum", "w.near", "zzz999", 1), Err(GatewayError::CodeNotApproved));
    assert!(g.get_worker("w.near").is_none());
}

#[test]
fn malformed_evidence_writes_no_worker() {
    let mut g = gateway_with(&["abc123"]);
    for bad in ["xyz", "abc", "0a1b2c3d4e5", "0a 1b", "0x12"] {
        assert_eq!(enroll(&mut g, "w.near", bad, "sum", "w.near", "abc123", 1), Err(GatewayError::MalformedEvidence));
    }
    assert!(g.get_worker("w.near").is_none());
}

#[test]
fn rejected_attestation_is_reported_with_its_reason() {
    let mut g = gateway_with(&["abc123"]);
    let r = g.register_worker(
        &"w.near".to_string(),
        QUOTE,
        "sum".to_string(),
        Err(RejectReason::CollateralExpired),
        &tcb_mapping("abc123"),
        1,
    );
    assert_eq!(r, Err(GatewayError::AttestationRejected(RejectReason::CollateralExpired)));
    assert!(g.get_worker("w.near").is_none());
}

#[test]
fn evidence_bound_to_another_identity_is_refused() {
    let mut g = gateway_with(&["abc123"]);
    assert_eq!(enroll(&mut g, "mallory.near", QUOTE, "sum", "w.near", "abc123", 1), Err(GatewayError::IdentityBindingFailed));
    assert_eq!(enroll(&mut g, "mallory.near", QUOTE, "sum", "w.near", "zzz999", 1), Err(GatewayError::IdentityBindingFailed));
    assert!(g.get_worker("mallory.near").is_none());
}

#[test]
fn unresolvable_code_identity_is_refused() {
    let mut g = gateway_with(&["abc123"]);
    let mut tcb = tcb_mapping("abc123");
    tcb.signature_verified = false;
    let r = g.register_worker(&"w.near".to_string(), QUOTE, "sum".to_string(), Ok(report_for("w.near")), &tcb, 1);
    assert_eq!(r, Err(GatewayError::CodeIdentityUnresolvable));
    assert!(g.get_worker("w.near").is_none());
}

#[test]
fn approval_admits_a_refused_attempt() {
    let mut g = gateway_with(&[]);
    assert_eq!(enroll(&mut g, "w.near", QUOTE, "sum", "w.near", "abc123", 1), Err(GatewayError::CodeNotApproved));
    assert_eq!(g.approve_codehash(&OWNER.to_string(), "abc123".to_string()), Ok(()));
    assert_eq!(enroll(&mut g, "w.near", QUOTE, "sum", "w.near", "abc123", 1), Ok(()));
    assert_eq!(g.get_worker("w.near").unwrap().codehash, "abc123");
}

#[test]
fn second_admission_overwrites_the_first() {
    let mut g = gateway_with(&["abc123"]);
    assert_eq!(enroll(&mut g, "w.near", QUOTE, "sum-1", "w.near", "abc123", 1), Ok(()));
    assert_eq!(enroll(&mut g, "w.near", "ABCDEF", "sum-2", "w.near", "abc123", 2), Ok(()));
    let worker = g.get_worker("w.near").unwrap();
    assert_eq!(worker.checksum, "sum-2");
    assert_eq!(worker.codehash, "abc123");
    assert_eq!(worker.registration_timestamp, 2);
}

#[test]
fn only_the_owner_manages_the_allowlist() {
    let mut g = gateway_with(&[]);
    assert_eq!(g.approve_codehash(&"w.near".to_string(), "abc123".to_string()), Err(GatewayError::Unauthorized));
    assert!(!g.is_approved("abc123"));
    assert_eq!(g.approve_codehash(&OWNER.to_string(), "abc123".to_string()), Ok(()));
    assert_eq!(g.approve_codehash(&OWNER.to_string(), "abc123".to_string()), Ok(()));
    assert!(g.is_approved("abc123"));
    assert_eq!(g.revoke_codehash(&"w.near".to_string(), "abc123"), Err(GatewayError::Unauthorized));
    assert!(g.is_approved("abc123"));
    assert_eq!(g.owner_id, OWNER);
}

#[test]
fn revocation_blocks_signing_but_keeps_the_record() {
    let mut g = gateway_with(&["abc123"]);
    assert_eq!(enroll(&mut g, "w.near", QUOTE, "sum", "w.near", "abc123", 1), Ok(()));
    assert_eq!(g.revoke_codehash(&OWNER.to_string(), "abc123"), Ok(()));
    assert!(g.get_worker("w.near").is_some());
    let r = g.sign_transaction(&"w.near".to_string(), vec![9], "m/1".to_string(), 1);
    assert_eq!(r.unwrap_err(), GatewayError::CodeNoLongerApproved);
    assert_eq!(enroll(&mut g, "v.near", QUOTE, "sum", "v.near", "abc123", 1), Err(GatewayError::CodeNotApproved));
}

#[test]
fn unregistered_caller_cannot_sign() {
    let g = gateway_with(&["abc123"]);
    let r = g.sign_transaction(&"nobody.near".to_string(), vec![], String::new(), 0);
    assert_eq!(r.unwrap_err(), GatewayError::WorkerNotRegistered);
}
