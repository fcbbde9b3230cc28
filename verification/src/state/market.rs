//! The market's configuration and authority record.
use vstd::prelude::*;

use crate::error::view_ok;
use crate::error::DexError;
use crate::key::Key;
use crate::state::AccountTag;
use crate::wire::put_key;
use crate::wire::read_key;

verus! {

/// Length in bytes of a serialized market record.
pub const DEX_STATE_LEN: usize = 130;

/// The configuration and authority record of one market. It is written once,
/// when the market is created, and read by every instruction.
#[derive(Clone, Copy, Debug)]
pub struct DexState {
    /// The kind of record; a market carries `AccountTag::DexState`.
    pub tag: AccountTag,
    /// The nonce from which, together with the market's address, the market's
    /// signing address derives.
    pub signer_nonce: u8,
    /// The mint of the base asset.
    pub base_mint: Key,
    /// The mint of the quote asset.
    pub quote_mint: Key,
    /// The order book of the market, kept by the matching engine.
    pub orderbook: Key,
    /// The program of the matching engine.
    pub aaob_program: Key,
}

/// A market record as a mathematical value.
pub struct DexStateView {
    pub tag: AccountTag,
    pub signer_nonce: u8,
    pub base_mint: Seq<u8>,
    pub quote_mint: Seq<u8>,
    pub orderbook: Seq<u8>,
    pub aaob_program: Seq<u8>,
}

impl View for DexState {
    type V = DexStateView;

    open spec fn view(&self) -> DexStateView {
        DexStateView {
            tag: self.tag,
            signer_nonce: self.signer_nonce,
            base_mint: self.base_mint@,
            quote_mint: self.quote_mint@,
            orderbook: self.orderbook@,
            aaob_program: self.aaob_program@,
        }
    }
}

impl DexStateView {
    /// Every address of the record is 32 bytes long.
    pub open spec fn wf(self) -> bool {
        &&& self.base_mint.len() == 32
        &&& self.quote_mint.len() == 32
        &&& self.orderbook.len() == 32
        &&& self.aaob_program.len() == 32
    }

    /// The record that the first `DEX_STATE_LEN` bytes of `bytes` hold: the
    /// tag, the nonce, and the four addresses, in this order. Bytes beyond
    /// the record are not looked at.
    pub open spec fn deserialize(bytes: Seq<u8>) -> Result<DexStateView, DexError> {
        if bytes.len() < DEX_STATE_LEN {
            Err(DexError::InvalidAccountData)
        } else {
            match AccountTag::spec_from_byte(bytes[0]) {
                None => Err(DexError::InvalidAccountData),
                Some(tag) => Ok(
                    DexStateView {
                        tag,
                        signer_nonce: bytes[1],
                        base_mint: bytes.subrange(2, 34),
                        quote_mint: bytes.subrange(34, 66),
                        orderbook: bytes.subrange(66, 98),
                        aaob_program: bytes.subrange(98, 130),
                    },
                ),
            }
        }
    }

    /// The `DEX_STATE_LEN` bytes of the record.
    pub open spec fn serialize(self) -> Seq<u8> {
        seq![self.tag.spec_to_byte(), self.signer_nonce] + self.base_mint + self.quote_mint
            + self.orderbook + self.aaob_program
    }

    /// `Ok` of the record itself when it is tagged as a market, else
    /// `InvalidState`.
    pub open spec fn check(self) -> Result<DexStateView, DexError> {
        if self.tag == AccountTag::DexState {
            Ok(self)
        } else {
            Err(DexError::InvalidState)
        }
    }
}

impl DexState {
    /// Decodes the market record at the start of `data`.
    pub fn deserialize(data: &[u8]) -> (r: Result<DexState, DexError>)
        ensures
            view_ok(r) == DexStateView::deserialize(data@),
            r matches Ok(state) ==> state@.serialize() == data@.subrange(0, DEX_STATE_LEN as int),
    {
        proof {
            if DexStateView::deserialize(data@) is Ok {
                lemma_dex_state_serialize_deserialize(data@);
            }
        }
        if data.len() < DEX_STATE_LEN {
            return Err(DexError::InvalidAccountData);
        }
        match AccountTag::from_byte(data[0]) {
            None => Err(DexError::InvalidAccountData),
            Some(tag) => Ok(
                DexState {
                    tag,
                    signer_nonce: data[1],
                    base_mint: read_key(data, 2),
                    quote_mint: read_key(data, 34),
                    orderbook: read_key(data, 66),
                    aaob_program: read_key(data, 98),
                },
            ),
        }
    }

    /// Encodes the record; what comes out decodes to the record again.
    pub fn serialize(&self) -> (out: Vec<u8>)
        ensures
            out@ == self@.serialize(),
            out@.len() == DEX_STATE_LEN,
            DexStateView::deserialize(out@) == Ok::<DexStateView, DexError>(self@),
    {
        proof {
            lemma_dex_state_deserialize_serialize(self@);
        }
        let mut out: Vec<u8> = Vec::new();
        out.push(self.tag.to_byte());
        out.push(self.signer_nonce);
        put_key(&mut out, &self.base_mint);
        put_key(&mut out, &self.quote_mint);
        put_key(&mut out, &self.orderbook);
        put_key(&mut out, &self.aaob_program);
        assert(out@ =~= self@.serialize());
        out
    }

    /// Validates the record before use: it must carry the tag of a market.
    /// The record is handed back untouched.
    pub fn check(self) -> (r: Result<DexState, DexError>)
        ensures
            view_ok(r) == self@.check(),
    {
        match self.tag {
            AccountTag::DexState => Ok(self),
            _ => Err(DexError::InvalidState),
        }
    }
}

/// A serialized market record decodes to the record it was made from.
pub proof fn lemma_dex_state_deserialize_serialize(state: DexStateView)
    requires
        state.wf(),
    ensures
        DexStateView::deserialize(state.serialize()) == Ok::<DexStateView, DexError>(state),
{
    let bytes = state.serialize();
    assert(bytes.subrange(2, 34) =~= state.base_mint);
    assert(bytes.subrange(34, 66) =~= state.quote_mint);
    assert(bytes.subrange(66, 98) =~= state.orderbook);
    assert(bytes.subrange(98, 130) =~= state.aaob_program);
}

/// Writing a market record back over the bytes it was decoded from changes
/// none of them.
pub proof fn lemma_dex_state_serialize_deserialize(bytes: Seq<u8>)
    requires
        DexStateView::deserialize(bytes) is Ok,
    ensures
        DexStateView::deserialize(bytes)->Ok_0.wf(),
        DexStateView::deserialize(bytes)->Ok_0.serialize() == bytes.subrange(
            0,
            DEX_STATE_LEN as int,
        ),
{
    let state = DexStateView::deserialize(bytes)->Ok_0;
    assert(state.serialize() =~= bytes.subrange(0, DEX_STATE_LEN as int));
}

} // verus!
