//! How an instruction can fail.
use vstd::prelude::*;

verus! {

/// The reason an instruction is rejected. A rejected instruction persists
/// nothing.
#[derive(Clone, Copy, Debug, PartialEq, Eq, Structural)]
pub enum DexError {
    /// The payload carries an unknown tag or is not laid out as its tag demands.
    InvalidInstructionData,
    /// Fewer accounts were supplied than the instruction takes.
    NotEnoughAccountKeys,
    /// The user's owner did not authenticate the instruction.
    MissingRequiredSignature,
    /// The bytes of a persisted record do not decode.
    InvalidAccountData,
    /// The market record does not carry the tag of a market.
    InvalidState,
    /// The user account belongs to another owner than the caller.
    InvalidOwner,
    /// The user account belongs to another market than the current one.
    InvalidMarket,
    /// The market and its stored nonce derive no signing address.
    InvalidSeeds,
    /// A supplied account is not the one that the market record names.
    InvalidAccountKey,
    /// The order index is outside the slab or names an empty slot.
    InvalidArgument,
    /// The matching engine refused the request; its code is handed on as it came.
    Engine(u64),
}

/// A breach of an invariant that correct operation upholds. There is no
/// recovery from it: the host must abort the instruction.
#[derive(Clone, Copy, Debug, PartialEq, Eq, Structural)]
pub enum Fault {
    /// The engine reported success and left the result register empty.
    RegisterEmpty,
    /// Crediting the unwound quantity would exceed what a free balance can hold.
    FreeOverflow,
    /// The engine unwound more than the account has locked.
    LockedUnderflow,
}

/// The view of a `Result` whose success carries a value with a view.
pub open spec fn view_ok<T: View>(r: Result<T, DexError>) -> Result<T::V, DexError> {
    match r {
        Ok(value) => Ok(value@),
        Err(e) => Err(e),
    }
}

} // verus!
