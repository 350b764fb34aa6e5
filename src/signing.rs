//! The hand-off to the external threshold-signing service: a request record
//! with the execution budget and fee that the gateway attaches to it.
use vstd::prelude::*;

verus! {

/// Account of the threshold-signing service.
pub const MPC_CONTRACT: &'static str = "v1.signer-prod.testnet";

/// Execution budget attached to a signing request, in whole tera-gas.
pub const SIGN_TGAS: u64 = 250;

/// Fee attached to a signing request, in milli-NEAR.
pub const SIGN_DEPOSIT_MILLINEAR: u128 = 1;

/// Gas in one tera-gas.
pub const GAS_PER_TGAS: u64 = 1_000_000_000_000;

/// Yocto-NEAR in one milli-NEAR.
pub const YOCTO_PER_MILLINEAR: u128 = 1_000_000_000_000_000_000_000;

/// What the signing service is asked to sign.
#[derive(Clone, Debug)]
pub struct SignRequest {
    pub payload: Vec<u8>,
    pub path: String,
    pub key_version: u32,
}

/// A signing request accepted for delegation: where it goes, with what
/// budget and fee. The gateway's part ends once this record exists.
#[derive(Clone, Debug)]
pub struct SignCall {
    pub signer_contract: String,
    pub request: SignRequest,
    pub gas: u64,
    pub deposit_yoctonear: u128,
}

pub ghost struct SignCallView {
    pub signer_contract: Seq<char>,
    pub payload: Seq<u8>,
    pub path: Seq<char>,
    pub key_version: u32,
    pub gas: u64,
    pub deposit_yoctonear: u128,
}

impl View for SignCall {
    type V = SignCallView;

    open spec fn view(&self) -> SignCallView {
        SignCallView {
            signer_contract: self.signer_contract@,
            payload: self.request.payload@,
            path: self.request.path@,
            key_version: self.request.key_version,
            gas: self.gas,
            deposit_yoctonear: self.deposit_yoctonear,
        }
    }
}

/// The call that forwards `{payload, path, key_version}` to the signing service.
pub open spec fn sign_call_for(payload: Seq<u8>, path: Seq<char>, key_version: u32) -> SignCallView {
    SignCallView {
        signer_contract: MPC_CONTRACT@,
        payload,
        path,
        key_version,
        gas: (SIGN_TGAS * GAS_PER_TGAS) as u64,
        deposit_yoctonear: (SIGN_DEPOSIT_MILLINEAR * YOCTO_PER_MILLINEAR) as u128,
    }
}

/// Relies on `near_sdk::Gas::from_tgas` and `as_gas`: `tgas` whole tera-gas
/// is `tgas * 10^12` gas. The product must fit, or `from_tgas` overflows.
#[verifier::external_body]
fn gas_from_tgas(tgas: u64) -> (gas: u64)
    requires
        tgas * GAS_PER_TGAS <= u64::MAX,
    ensures
        gas == tgas * GAS_PER_TGAS,
{
    near_sdk::Gas::from_tgas(tgas).as_gas()
}

/// Relies on `near_sdk::NearToken::from_millinear` and `as_yoctonear`:
/// `millinear` milli-NEAR is `millinear * 10^21` yocto-NEAR. The product must
/// fit, or `from_millinear` overflows.
#[verifier::external_body]
fn yocto_from_millinear(millinear: u128) -> (yocto: u128)
    requires
        millinear * YOCTO_PER_MILLINEAR <= u128::MAX,
    ensures
        yocto == millinear * YOCTO_PER_MILLINEAR,
{
    near_sdk::NearToken::from_millinear(millinear).as_yoctonear()
}

/// Builds the delegated call that asks the signing service to sign `payload`
/// with the key derived along `derivation_path`, in version `key_version`.
pub fn get_sig(payload: Vec<u8>, derivation_path: String, key_version: u32) -> (call: SignCall)
    ensures
        call@ == sign_call_for(payload@, derivation_path@, key_version),
{
    let request = SignRequest { payload, path: derivation_path, key_version };
    SignCall {
        signer_contract: String::from_str(MPC_CONTRACT),
        request,
        gas: gas_from_tgas(SIGN_TGAS),
        deposit_yoctonear: yocto_from_millinear(SIGN_DEPOSIT_MILLINEAR),
    }
}

} // verus!
