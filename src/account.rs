//! NEAR account names, as the contract's owner is given.
use vstd::prelude::*;

verus! {

/// The error that `near_sdk::AccountId::validate` reports.
#[verifier::external_type_specification]
#[verifier::external_body]
pub struct ExParseAccountError(near_sdk::account_id::ParseAccountError);

pub open spec fn is_separator(c: char) -> bool {
    c == '-' || c == '_' || c == '.'
}

/// A lowercase ASCII letter, a digit or a separator.
pub open spec fn is_account_char(c: char) -> bool {
    (0x61 <= (c as u32) <= 0x7a) || (0x30 <= (c as u32) <= 0x39) || is_separator(c)
}

/// A valid account name: 2 to 64 account characters, with no separator
/// first, last, or next to another.
pub open spec fn is_valid_account_id(s: Seq<char>) -> bool {
    &&& 2 <= s.len() <= 64
    &&& forall|i: int| 0 <= i < s.len() ==> is_account_char(#[trigger] s[i])
    &&& !is_separator(s[0])
    &&& !is_separator(s.last())
    &&& forall|i: int| 0 <= i < s.len() - 1 ==> !(is_separator(#[trigger] s[i]) && is_separator(s[i + 1]))
}

/// Relies on `near_sdk::AccountId::validate`: it accepts exactly the names of
/// 2 to 64 bytes made of `a`-`z`, `0`-`9`, `-`, `_` and `.`, with no separator
/// first, last, or next to another.
#[verifier::external_body]
fn validate_account_id(account_id: &str) -> (r: Result<(), near_sdk::account_id::ParseAccountError>)
    ensures
        r is Ok <==> is_valid_account_id(account_id@),
{
    near_sdk::AccountId::validate(account_id)
}

/// Whether `account_id` is a valid account name.
pub fn is_account_id(account_id: &str) -> (r: bool)
    ensures
        r == is_valid_account_id(account_id@),
{
    validate_account_id(account_id).is_ok()
}

} // verus!
