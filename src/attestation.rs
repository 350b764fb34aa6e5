//! What a verified attestation report carries, how it is bound to the caller,
//! and how the measured application resolves to a code identity.
use crate::error::GatewayError;
use crate::hexcode::{hex_encode, hex_encoded};
use vstd::prelude::*;
use vstd::string::StringSliceAdditionalSpecFns;
use vstd::utf8::encode_utf8;

verus! {

/// The register, among the run-time measurement registers, that holds the
/// measured state of the deployed application (the third one).
pub const APP_REGISTER_INDEX: usize = 2;

/// Nanoseconds in a second.
pub const NANOS_PER_SECOND: u64 = 1_000_000_000;

/// The generation or format of an attestation report.
#[derive(Clone, Copy, Debug, PartialEq, Eq, Structural)]
pub enum ReportVariant {
    SgxEnclave,
    TdReport10,
    TdReport15,
}

/// What the attestation verifier hands back for a quote it accepted.
#[derive(Clone, Debug)]
pub struct VerifiedReport {
    pub variant: ReportVariant,
    /// The caller-bound payload embedded in the quote when it was generated.
    pub report_data: Vec<u8>,
    /// The run-time measurement registers, in order.
    pub rt_mrs: Vec<Vec<u8>>,
}

pub ghost struct ReportView {
    pub variant: ReportVariant,
    pub report_data: Seq<u8>,
    pub rt_mrs: Seq<Seq<u8>>,
}

impl View for VerifiedReport {
    type V = ReportView;

    open spec fn view(&self) -> ReportView {
        ReportView {
            variant: self.variant,
            report_data: self.report_data@,
            rt_mrs: self.rt_mrs.deep_view(),
        }
    }
}

/// One entry of a TCB-info document's measurement map: a measured register
/// value, as hex text, and the application identity it is recognised as.
#[derive(Clone, Debug)]
pub struct TcbMeasurement {
    pub register_hex: String,
    pub code_identity: String,
}

/// A TCB-info document as the gateway reads it. `signature_verified` records
/// whether the document's own signature was found valid against the
/// collateral's key material.
#[derive(Clone, Debug)]
pub struct TcbInfo {
    pub signature_verified: bool,
    pub measurements: Vec<TcbMeasurement>,
}

pub ghost struct TcbView {
    pub signature_verified: bool,
    pub measurements: Seq<(Seq<char>, Seq<char>)>,
}

impl View for TcbInfo {
    type V = TcbView;

    open spec fn view(&self) -> TcbView {
        TcbView {
            signature_verified: self.signature_verified,
            measurements: self.measurements@.map_values(
                |m: TcbMeasurement| (m.register_hex@, m.code_identity@),
            ),
        }
    }
}

/// Report data with its trailing NUL padding removed.
pub open spec fn without_trailing_nuls(d: Seq<u8>) -> Seq<u8>
    decreases d.len(),
{
    if d.len() > 0 && d.last() == 0 {
        without_trailing_nuls(d.drop_last())
    } else {
        d
    }
}

/// The report data, read as text without its padding, is the caller's identity.
pub open spec fn binds_caller(report_data: Seq<u8>, caller: Seq<char>) -> bool {
    without_trailing_nuls(report_data) == encode_utf8(caller)
}

/// The identity that the first entry for `register_hex` maps to, if any.
pub open spec fn lookup_measurement(
    entries: Seq<(Seq<char>, Seq<char>)>,
    register_hex: Seq<char>,
) -> Option<Seq<char>>
    decreases entries.len(),
{
    if entries.len() == 0 {
        None
    } else if entries[0].0 == register_hex {
        Some(entries[0].1)
    } else {
        lookup_measurement(entries.drop_first(), register_hex)
    }
}

/// The code identity of a report under a TCB-info document: none when the
/// document's signature did not verify, when the report has no application
/// register, or when that register's hex text is not in the measurement map.
pub open spec fn code_identity(report: ReportView, tcb: TcbView) -> Option<Seq<char>> {
    if !tcb.signature_verified || report.rt_mrs.len() <= APP_REGISTER_INDEX {
        None
    } else {
        lookup_measurement(tcb.measurements, hex_encoded(report.rt_mrs[APP_REGISTER_INDEX as int]))
    }
}

/// The trusted time handed to the attestation verifier: the host's block
/// timestamp, in nanoseconds, truncated to whole seconds.
pub fn attestation_time(block_timestamp_ns: u64) -> (secs: u64)
    ensures
        secs == block_timestamp_ns / NANOS_PER_SECOND,
{
    block_timestamp_ns / NANOS_PER_SECOND
}

/// Whether the report's data, without trailing NUL padding, is exactly the
/// UTF-8 text of `caller`.
pub fn check_caller_binding(report: &VerifiedReport, caller: &str) -> (r: bool)
    ensures
        r == binds_caller(report@.report_data, caller@),
{
    let data = &report.report_data;
    let mut end: usize = data.len();
    assert(data@.subrange(0, end as int) =~= data@);
    while end > 0 && data[end - 1] == 0
        invariant
            end <= data@.len(),
            without_trailing_nuls(data@) == without_trailing_nuls(data@.subrange(0, end as int)),
        decreases end,
    {
        assert(data@.subrange(0, end as int).drop_last() =~= data@.subrange(0, end - 1));
        end = end - 1;
    }
    let ghost kept = data@.subrange(0, end as int);
    assert(without_trailing_nuls(kept) == kept);
    let expected = caller.as_bytes();
    assert(expected@ == encode_utf8(caller@));
    if end != expected.len() {
        return false;
    }
    let mut i: usize = 0;
    while i < end
        invariant
            end == expected@.len(),
            end <= data@.len(),
            data@ == report@.report_data,
            kept == data@.subrange(0, end as int),
            expected@ == encode_utf8(caller@),
            without_trailing_nuls(data@) == kept,
            i <= end,
            forall|j: int| 0 <= j < i ==> data@[j] == expected@[j],
        decreases end - i,
    {
        if data[i] != expected[i] {
            assert(kept[i as int] != expected@[i as int]);
            return false;
        }
        i = i + 1;
    }
    assert(kept =~= expected@);
    true
}

/// Resolves the application identity of a verified report through the
/// TCB-info document's measurement map.
pub fn extract_code_identity(report: &VerifiedReport, tcb: &TcbInfo) -> (r: Result<
    String,
    GatewayError,
>)
    ensures
        match code_identity(report@, tcb@) {
            Some(id) => r is Ok && r->Ok_0@ == id,
            None => r == Err::<String, GatewayError>(GatewayError::CodeIdentityUnresolvable),
        },
{
    if !tcb.signature_verified || report.rt_mrs.len() <= APP_REGISTER_INDEX {
        return Err(GatewayError::CodeIdentityUnresolvable);
    }
    let register_hex = hex_encode(report.rt_mrs[APP_REGISTER_INDEX].as_slice());
    assert(report.rt_mrs[APP_REGISTER_INDEX as int]@ == report@.rt_mrs[APP_REGISTER_INDEX as int]);
    assert(code_identity(report@, tcb@) == lookup_measurement(tcb@.measurements, register_hex@));
    let entries = &tcb.measurements;
    assert(tcb@.measurements.subrange(0, entries@.len() as int) =~= tcb@.measurements);
    let mut i: usize = 0;
    while i < entries.len()
        invariant
            i <= entries@.len(),
            entries@ == tcb.measurements@,
            tcb@.measurements.len() == entries@.len(),
            code_identity(report@, tcb@) == lookup_measurement(tcb@.measurements, register_hex@),
            lookup_measurement(tcb@.measurements, register_hex@) == lookup_measurement(
                tcb@.measurements.subrange(i as int, entries@.len() as int),
                register_hex@,
            ),
        decreases entries.len() - i,
    {
        let ghost rest = tcb@.measurements.subrange(i as int, entries@.len() as int);
        assert(rest[0] == (entries@[i as int].register_hex@, entries@[i as int].code_identity@));
        if entries[i].register_hex == register_hex {
            return Ok(entries[i].code_identity.clone());
        }
        assert(rest.drop_first() =~= tcb@.measurements.subrange(i + 1, entries@.len() as int));
        i = i + 1;
    }
    Err(GatewayError::CodeIdentityUnresolvable)
}

} // verus!
