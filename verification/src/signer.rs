//! The signing authority of a market.
//!
//! A market signs its requests to the matching engine under an address that
//! derives from the market's own address and a nonce stored in its record.
//! No private key exists for that address: only the program that owns the
//! market can sign under it, by naming the seeds.
use solana_program::pubkey::Pubkey;
use vstd::prelude::*;

use crate::key::Key;

verus! {

/// The address that the program `program_id` derives from the seeds
/// `market` and `nonce`; `None` where the seeds derive no address.
pub uninterp spec fn program_address(market: Seq<u8>, nonce: u8, program_id: Seq<u8>) -> Option<Seq<u8>>;

/// The bytes of an optional address.
pub open spec fn spec_key_bytes(key: Option<Key>) -> Option<Seq<u8>> {
    match key {
        Some(key) => Some(key@),
        None => None,
    }
}

/// Derives an address with `Pubkey::create_program_address`, from the two
/// seeds `market` and `[nonce]`.
///
/// Trusted: the outcome depends on the three arguments alone. Two seeds of at
/// most 32 bytes are within the limits of the call, so that it fails only
/// where the seeds derive no valid address.
#[verifier::external_body]
fn create_program_address(market: &Key, nonce: u8, program_id: &Key) -> (r: Option<Key>)
    ensures
        spec_key_bytes(r) == program_address(market@, nonce, program_id@),
{
    let seeds: [&[u8]; 2] = [&market.bytes, &[nonce]];
    match Pubkey::create_program_address(&seeds, &Pubkey::new_from_array(program_id.bytes)) {
        Ok(address) => Some(Key { bytes: address.to_bytes() }),
        Err(_) => None,
    }
}

/// The capability to sign as a market: the derived address together with the
/// seeds that derive it. It is made by `derive` alone, so that whoever holds
/// one holds seeds that were checked against the address.
#[derive(Clone, Copy, Debug)]
pub struct MarketSigner {
    program_id: Key,
    address: Key,
    market: Key,
    nonce: u8,
}

impl MarketSigner {
    /// The seeds derive the address, under the program that made the
    /// capability.
    #[verifier::type_invariant]
    closed spec fn derived(self) -> bool {
        program_address(self.market@, self.nonce, self.program_id@) == Some(self.address@)
    }

    /// The program under which the address was derived.
    pub closed spec fn spec_program_id(&self) -> Key {
        self.program_id
    }

    /// The address to sign under.
    pub closed spec fn spec_address(&self) -> Key {
        self.address
    }

    /// The market whose authority this is.
    pub closed spec fn spec_market(&self) -> Key {
        self.market
    }

    /// The nonce that completes the seeds.
    pub closed spec fn spec_nonce(&self) -> u8 {
        self.nonce
    }

    /// Derives the signing authority of `market` under the program
    /// `program_id`; `None` where the market and the nonce derive no address.
    pub fn derive(program_id: &Key, market: &Key, nonce: u8) -> (r: Option<MarketSigner>)
        ensures
            r is Some <==> program_address(market@, nonce, program_id@) is Some,
            r matches Some(signer) ==> {
                &&& program_address(market@, nonce, program_id@) == Some(signer.spec_address()@)
                &&& signer.spec_program_id() == *program_id
                &&& signer.spec_market() == *market
                &&& signer.spec_nonce() == nonce
            },
    {
        match create_program_address(market, nonce, program_id) {
            Some(address) => Some(
                MarketSigner { program_id: *program_id, address, market: *market, nonce },
            ),
            None => None,
        }
    }

    /// The address to sign under. It is the address that the seeds derive.
    pub fn address(&self) -> (key: Key)
        ensures
            key == self.spec_address(),
            program_address(self.spec_market()@, self.spec_nonce(), self.spec_program_id()@)
                == Some(key@),
    {
        proof {
            use_type_invariant(self);
        }
        self.address
    }

    /// The first seed: the address of the market.
    pub fn market(&self) -> (key: Key)
        ensures
            key == self.spec_market(),
    {
        self.market
    }

    /// The second seed: the market's nonce.
    pub fn nonce(&self) -> (nonce: u8)
        ensures
            nonce == self.spec_nonce(),
    {
        self.nonce
    }
}

} // verus!
