//! The persisted records: the market's configuration and the user's balances
//! and resting orders.
//!
//! Both records have a fixed layout. Integers are little-endian, addresses
//! are their 32 bytes, and the first byte of a record tells its kind.
use vstd::prelude::*;

pub mod market;
pub mod user_account;

verus! {

/// The kind of record that an account's bytes begin with.
#[derive(Clone, Copy, Debug, PartialEq, Eq, Structural)]
pub enum AccountTag {
    /// Nothing was written yet.
    Uninitialized,
    /// The record of a market.
    DexState,
    /// The record of a user's balances and orders.
    UserAccount,
}

impl AccountTag {
    /// The tag that the byte `b` stands for, if any.
    pub open spec fn spec_from_byte(b: u8) -> Option<AccountTag> {
        if b == 0 {
            Some(AccountTag::Uninitialized)
        } else if b == 1 {
            Some(AccountTag::DexState)
        } else if b == 2 {
            Some(AccountTag::UserAccount)
        } else {
            None
        }
    }

    /// The byte that stands for the tag.
    pub open spec fn spec_to_byte(self) -> u8 {
        match self {
            AccountTag::Uninitialized => 0,
            AccountTag::DexState => 1,
            AccountTag::UserAccount => 2,
        }
    }

    /// Decodes a tag byte.
    pub fn from_byte(b: u8) -> (r: Option<AccountTag>)
        ensures
            r == Self::spec_from_byte(b),
    {
        if b == 0 {
            Some(AccountTag::Uninitialized)
        } else if b == 1 {
            Some(AccountTag::DexState)
        } else if b == 2 {
            Some(AccountTag::UserAccount)
        } else {
            None
        }
    }

    /// Encodes the tag as one byte.
    pub fn to_byte(self) -> (b: u8)
        ensures
            b == self.spec_to_byte(),
            Self::spec_from_byte(b) == Some(self),
    {
        match self {
            AccountTag::Uninitialized => 0,
            AccountTag::DexState => 1,
            AccountTag::UserAccount => 2,
        }
    }
}

} // verus!
