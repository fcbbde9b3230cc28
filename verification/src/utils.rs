//! Checks on single accounts.
use vstd::prelude::*;

use crate::account::Account;
use crate::error::DexError;
use crate::key::Key;

verus! {

/// Accepts `account` only if its address is `key`.
pub fn check_account_key(account: &Account, key: &Key) -> (r: Result<(), DexError>)
    ensures
        r == (if account.key == *key {
            Ok::<(), DexError>(())
        } else {
            Err(DexError::InvalidAccountKey)
        }),
{
    if account.key != *key {
        return Err(DexError::InvalidAccountKey);
    }
    Ok(())
}

/// Accepts `account` only if its holder authenticated the instruction.
pub fn check_signer(account: &Account) -> (r: Result<(), DexError>)
    ensures
        r == (if account.is_signer {
            Ok::<(), DexError>(())
        } else {
            Err(DexError::MissingRequiredSignature)
        }),
{
    if !account.is_signer {
        return Err(DexError::MissingRequiredSignature);
    }
    Ok(())
}

} // verus!
