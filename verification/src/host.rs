//! What the library takes from the host's SDK: the account address that an
//! application carries, and the environment in which an address is made.
//! Nothing here is proved; each item says what is taken on trust.

use soroban_sdk::{Address, Env};
use vstd::prelude::*;

verus! {

/// `soroban_sdk::Address`, carried through the records as an opaque value.
#[verifier::external_type_specification]
#[verifier::external_body]
pub struct ExAddress(soroban_sdk::Address);

/// `soroban_sdk::Env`, the handle on the host in which addresses live.
#[verifier::external_type_specification]
#[verifier::external_body]
pub struct ExEnv(soroban_sdk::Env);

/// `Address::clone`: the copy is the same address as the one it was made of.
pub assume_specification[ <soroban_sdk::Address as Clone>::clone ](
    address: &soroban_sdk::Address,
) -> (copy: soroban_sdk::Address)
    ensures
        copy == *address,
;

/// The text of the account that stands in records for "no applicant": the
/// account whose key is all zero.
pub open spec fn vacant_account() -> Seq<char> {
    "GAAAAAAAAAAAAAAAAAAAAAAAAAAAAAAAAAAAAAAAAAAAAAAAAAAAAWHF"@
}

/// `Address::from_str`, which makes the address that an account's text names
/// and panics on a text that names none. It is called on the vacant account
/// only, a text that names one. Nothing is claimed of the address returned.
#[verifier::external_body]
pub(crate) fn address_of_account(env: &Env, account: &str) -> (address: Address)
    requires
        account@ == vacant_account(),
{
    Address::from_str(env, account)
}

} // verus!
