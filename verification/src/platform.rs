//! The few things this library takes from the Solana runtime as given:
//! the account key type, its equality, and the cluster clock.
//!
//! Nothing in this file is proved. Each item says in its comment what is
//! believed of the outside code.

use anchor_lang::prelude::Clock;
use anchor_lang::prelude::ProgramError;
use anchor_lang::prelude::Pubkey;
use anchor_lang::prelude::SolanaSysvar;
use vstd::prelude::*;

verus! {

/// `anchor_lang::prelude::Pubkey`, the 32-byte address of an account.
/// The library stores keys and compares them; it never looks inside one.
#[verifier::external_type_specification]
#[verifier::external_body]
pub struct ExPubkey(Pubkey);

/// `anchor_lang::prelude::ProgramError`, the runtime's reason for
/// refusing a request. The library only hands it on.
#[verifier::external_type_specification]
#[verifier::external_body]
pub struct ExProgramError(ProgramError);

/// `Pubkey::clone`: a key is plain data, and its clone is the same key.
pub assume_specification[ <Pubkey as Clone>::clone ](key: &Pubkey) -> (copy: Pubkey)
    ensures
        copy == *key,
;

/// `Pubkey`'s `==`, which compares the 32 bytes: it answers `true` for
/// a key and itself and `false` for two different keys.
#[verifier::external_body]
pub(crate) fn same_key(a: &Pubkey, b: &Pubkey) -> (same: bool)
    ensures
        same == (*a == *b),
{
    a == b
}

/// `Clock::get`, then the `unix_timestamp` field of what it returns:
/// the cluster's current time in seconds, or the runtime's refusal.
/// Nothing is promised of the value: it is whatever the runtime says.
#[verifier::external_body]
pub(crate) fn unix_time() -> (now: Result<i64, ProgramError>) {
    Clock::get().map(|clock| clock.unix_timestamp)
}

} // verus!
