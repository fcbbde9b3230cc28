//! Accounts as an instruction sees them.
use vstd::prelude::*;

use crate::key::Key;

verus! {

/// One account of the set that an instruction is given: its address, whether
/// its holder authenticated the instruction, and the bytes it stores.
#[derive(Clone, Debug)]
pub struct Account {
    pub key: Key,
    pub is_signer: bool,
    pub data: Vec<u8>,
}

impl Account {
    /// An account with the given address, authentication flag and contents.
    pub fn new(key: Key, is_signer: bool, data: Vec<u8>) -> (account: Account)
        ensures
            account.key == key,
            account.is_signer == is_signer,
            account.data == data,
    {
        Account { key, is_signer, data }
    }
}

} // verus!
