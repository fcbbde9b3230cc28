//! Cancellation of a resting order.
//!
//! The handler runs in two steps around the single request to the matching
//! engine. `process` validates the accounts and says which order the engine
//! is to cancel, and under whose authority. The host issues that request.
//! `settle` then takes the engine's answer and moves the unfilled remainder
//! of the order from locked to free. The host persists what `settle` leaves
//! only if the whole instruction succeeded.
use vstd::prelude::*;

use crate::account::Account;
use crate::error::view_ok;
use crate::error::DexError;
use crate::error::Fault;
use crate::key::lemma_key_ext;
use crate::key::Key;
use crate::order_id::get_side_from_order_id;
use crate::order_id::spec_side;
use crate::order_id::Side;
use crate::register::OrderSummary;
use crate::register::ResultRegister;
use crate::signer::program_address;
use crate::signer::MarketSigner;
use crate::state::market::lemma_dex_state_serialize_deserialize;
use crate::state::market::DexState;
use crate::state::market::DexStateView;
use crate::state::market::DEX_STATE_LEN;
use crate::state::user_account::UserAccount;
use crate::state::user_account::UserAccountView;
use crate::utils::check_account_key;
use crate::utils::check_signer;
use crate::wire::decode_u64;
use crate::wire::le_bytes;
use crate::wire::put_u64;
use crate::wire::spec_decode_u64;

verus! {

/// The arguments of a cancellation.
#[derive(Clone, Copy, Debug, PartialEq, Eq, Structural)]
pub struct Params {
    /// The slot of the user's slab that holds the order. This is a position
    /// in the slab, not the identifier of the order.
    pub order_index: u64,
}

impl Params {
    /// The arguments that `bytes` hold: the order index, as eight bytes.
    pub open spec fn spec_try_from_slice(bytes: Seq<u8>) -> Result<Params, DexError> {
        match spec_decode_u64(bytes) {
            Some(order_index) => Ok(Params { order_index }),
            None => Err(DexError::InvalidInstructionData),
        }
    }

    /// The eight bytes of the arguments.
    pub open spec fn spec_try_to_vec(self) -> Seq<u8> {
        le_bytes(self.order_index as nat, 8)
    }

    /// Decodes the arguments of a cancellation.
    pub fn try_from_slice(bytes: &[u8]) -> (r: Result<Params, DexError>)
        ensures
            r == Self::spec_try_from_slice(bytes@),
    {
        match decode_u64(bytes) {
            Some(order_index) => Ok(Params { order_index }),
            None => Err(DexError::InvalidInstructionData),
        }
    }

    /// Encodes the arguments.
    pub fn try_to_vec(&self) -> (out: Vec<u8>)
        ensures
            out@ == self.spec_try_to_vec(),
    {
        let mut out: Vec<u8> = Vec::new();
        put_u64(&mut out, self.order_index);
        assert(out@ =~= self.spec_try_to_vec());
        out
    }
}

/// How an order is to be treated when it is placed.
#[derive(Clone, Copy, Debug, PartialEq, Eq, Structural)]
pub enum OrderType {
    Limit,
    ImmediateOrCancel,
    FillOrKill,
    PostOnly,
}

impl OrderType {
    /// The order type that `bytes` hold: a single byte, the position of the
    /// variant.
    pub open spec fn spec_try_from_slice(bytes: Seq<u8>) -> Result<OrderType, DexError> {
        if bytes.len() != 1 {
            Err(DexError::InvalidInstructionData)
        } else if bytes[0] == 0 {
            Ok(OrderType::Limit)
        } else if bytes[0] == 1 {
            Ok(OrderType::ImmediateOrCancel)
        } else if bytes[0] == 2 {
            Ok(OrderType::FillOrKill)
        } else if bytes[0] == 3 {
            Ok(OrderType::PostOnly)
        } else {
            Err(DexError::InvalidInstructionData)
        }
    }

    /// The byte of the order type.
    pub open spec fn spec_try_to_vec(self) -> Seq<u8> {
        match self {
            OrderType::Limit => seq![0u8],
            OrderType::ImmediateOrCancel => seq![1u8],
            OrderType::FillOrKill => seq![2u8],
            OrderType::PostOnly => seq![3u8],
        }
    }

    /// Decodes an order type.
    pub fn try_from_slice(bytes: &[u8]) -> (r: Result<OrderType, DexError>)
        ensures
            r == Self::spec_try_from_slice(bytes@),
    {
        if bytes.len() != 1 {
            return Err(DexError::InvalidInstructionData);
        }
        let tag: u8 = bytes[0];
        if tag == 0 {
            Ok(OrderType::Limit)
        } else if tag == 1 {
            Ok(OrderType::ImmediateOrCancel)
        } else if tag == 2 {
            Ok(OrderType::FillOrKill)
        } else if tag == 3 {
            Ok(OrderType::PostOnly)
        } else {
            Err(DexError::InvalidInstructionData)
        }
    }

    /// Encodes the order type; what comes out decodes to it again.
    pub fn try_to_vec(&self) -> (out: Vec<u8>)
        ensures
            out@ == self.spec_try_to_vec(),
            Self::spec_try_from_slice(out@) == Ok::<OrderType, DexError>(*self),
    {
        let tag: u8 = match self {
            OrderType::Limit => 0,
            OrderType::ImmediateOrCancel => 1,
            OrderType::FillOrKill => 2,
            OrderType::PostOnly => 3,
        };
        let mut out: Vec<u8> = Vec::new();
        out.push(tag);
        assert(out@ =~= self.spec_try_to_vec());
        out
    }
}

/// The accounts of a cancellation, in the order in which the instruction
/// takes them.
pub struct Accounts<'a> {
    pub aaob_program: &'a Account,
    pub market: &'a Account,
    pub market_signer: &'a Account,
    pub orderbook: &'a Account,
    pub event_queue: &'a Account,
    pub bids: &'a Account,
    pub asks: &'a Account,
    pub user: &'a Account,
    pub user_owner: &'a Account,
}

impl<'a> Accounts<'a> {
    /// Why `accounts` is no account set of a cancellation, if it is none:
    /// nine accounts are needed, and the ninth, the user's owner, must have
    /// authenticated the instruction.
    pub open spec fn spec_parse_error(accounts: Seq<Account>) -> Option<DexError> {
        if accounts.len() < 9 {
            Some(DexError::NotEnoughAccountKeys)
        } else if !accounts[8].is_signer {
            Some(DexError::MissingRequiredSignature)
        } else {
            None
        }
    }

    /// Whether the nine fields are the first nine of `accounts`.
    pub open spec fn taken_from(&self, accounts: Seq<Account>) -> bool {
        &&& accounts.len() >= 9
        &&& *self.aaob_program == accounts[0]
        &&& *self.market == accounts[1]
        &&& *self.market_signer == accounts[2]
        &&& *self.orderbook == accounts[3]
        &&& *self.event_queue == accounts[4]
        &&& *self.bids == accounts[5]
        &&& *self.asks == accounts[6]
        &&& *self.user == accounts[7]
        &&& *self.user_owner == accounts[8]
    }

    /// Names the accounts of a cancellation. Accounts beyond the ninth are
    /// ignored.
    pub fn parse(_program_id: &Key, accounts: &'a [Account]) -> (r: Result<Accounts<'a>, DexError>)
        ensures
            match r {
                Ok(a) => Self::spec_parse_error(accounts@) is None && a.taken_from(accounts@),
                Err(e) => Self::spec_parse_error(accounts@) == Some(e),
            },
    {
        if accounts.len() < 9 {
            return Err(DexError::NotEnoughAccountKeys);
        }
        let a = Accounts {
            aaob_program: &accounts[0],
            market: &accounts[1],
            market_signer: &accounts[2],
            orderbook: &accounts[3],
            event_queue: &accounts[4],
            bids: &accounts[5],
            asks: &accounts[6],
            user: &accounts[7],
            user_owner: &accounts[8],
        };
        check_signer(a.user_owner)?;
        Ok(a)
    }

    /// Loads the user's account and checks that it belongs to the caller and
    /// to the current market.
    pub fn load_user_account(&self) -> (r: Result<UserAccount, DexError>)
        ensures
            view_ok(r) == UserAccountView::load(
                self.user.data@,
                self.user_owner.key@,
                self.market.key@,
            ),
            r matches Ok(account) ==> account@.wf() && account@.serialize() == self.user.data@,
    {
        UserAccount::load(self.user.data.as_slice(), &self.user_owner.key, &self.market.key)
    }
}

/// Why the supplied accounts are not those of the market, if they are not:
/// the signer must be the address that the market derives, and the order
/// book and the engine those that the market's record names.
pub open spec fn spec_check_accounts(
    derived: Seq<u8>,
    market_state: DexStateView,
    market_signer: Seq<u8>,
    orderbook: Seq<u8>,
    aaob_program: Seq<u8>,
) -> Result<(), DexError> {
    if market_signer == derived && orderbook == market_state.orderbook && aaob_program
        == market_state.aaob_program {
        Ok(())
    } else {
        Err(DexError::InvalidAccountKey)
    }
}

/// Cross-checks the supplied accounts against the market's record and the
/// address `derived` that the market signs under, so that no request is ever
/// signed for a book or an engine that the market does not name.
pub fn check_accounts(derived: &Key, market_state: &DexState, accounts: &Accounts) -> (r: Result<
    (),
    DexError,
>)
    ensures
        r == spec_check_accounts(
            derived@,
            market_state@,
            accounts.market_signer.key@,
            accounts.orderbook.key@,
            accounts.aaob_program.key@,
        ),
{
    proof {
        if accounts.market_signer.key@ == derived@ {
            lemma_key_ext(accounts.market_signer.key, *derived);
        }
        if accounts.orderbook.key@ == market_state.orderbook@ {
            lemma_key_ext(accounts.orderbook.key, market_state.orderbook);
        }
        if accounts.aaob_program.key@ == market_state.aaob_program@ {
            lemma_key_ext(accounts.aaob_program.key, market_state.aaob_program);
        }
    }
    check_account_key(accounts.market_signer, derived)?;
    check_account_key(accounts.orderbook, &market_state.orderbook)?;
    check_account_key(accounts.aaob_program, &market_state.aaob_program)?;
    Ok(())
}

/// The request that the host is to put to the matching engine: cancel
/// `order_id` in the given book, signed by the market's derived authority.
#[derive(Clone, Copy, Debug)]
pub struct CancelRequest {
    pub aaob_program: Key,
    pub orderbook: Key,
    pub market_signer: MarketSigner,
    pub event_queue: Key,
    pub bids: Key,
    pub asks: Key,
    pub order_id: u128,
}

/// A cancellation that passed every check and waits for the engine.
#[derive(Debug)]
pub struct PendingCancel {
    /// The bytes to persist as the market's record. They are the record as it
    /// was read, serialized again.
    pub market_data: Vec<u8>,
    /// The user's account as loaded, not yet changed.
    pub user_account: UserAccount,
    /// The slot that holds the order.
    pub order_index: u64,
    /// What to ask of the engine.
    pub request: CancelRequest,
}

/// The first reason for which a cancellation is rejected before its slot is
/// looked at, or `None` where it is not. The checks run in this order: the
/// account set, the market's record, the user's account, the cross-checks of
/// the market's accounts.
pub open spec fn spec_validate_error(program_id: Seq<u8>, accounts: Seq<Account>) -> Option<
    DexError,
> {
    match Accounts::spec_parse_error(accounts) {
        Some(e) => Some(e),
        None => match DexStateView::deserialize(accounts[1].data@) {
            Err(e) => Some(e),
            Ok(decoded) => match decoded.check() {
                Err(e) => Some(e),
                Ok(market_state) => match UserAccountView::load(
                    accounts[7].data@,
                    accounts[8].key@,
                    accounts[1].key@,
                ) {
                    Err(e) => Some(e),
                    Ok(_) => match program_address(
                        accounts[1].key@,
                        market_state.signer_nonce,
                        program_id,
                    ) {
                        None => Some(DexError::InvalidSeeds),
                        Some(derived) => match spec_check_accounts(
                            derived,
                            market_state,
                            accounts[2].key@,
                            accounts[3].key@,
                            accounts[0].key@,
                        ) {
                            Err(e) => Some(e),
                            Ok(_) => None,
                        },
                    },
                },
            },
        },
    }
}

/// The first reason for which a cancellation is rejected before the engine is
/// asked, or `None` where it is not: the checks of `spec_validate_error`, and
/// then the slot, which must hold an order.
pub open spec fn spec_process_error(
    program_id: Seq<u8>,
    accounts: Seq<Account>,
    order_index: u64,
) -> Option<DexError> {
    match spec_validate_error(program_id, accounts) {
        Some(e) => Some(e),
        None => match UserAccountView::parse(accounts[7].data@)->Ok_0.read_order(
            order_index as int,
        ) {
            Err(e) => Some(e),
            Ok(_) => None,
        },
    }
}

/// What a cancellation that passed every check holds: the market's bytes as
/// they were, the user's account as its bytes give it, and a request for the
/// order in the named slot, addressed to the supplied accounts and signed
/// with the market's seeds. The user's account, written back as it is, gives
/// the bytes it was read from.
pub open spec fn spec_process_ok(
    accounts: Seq<Account>,
    order_index: u64,
    pending: PendingCancel,
) -> bool {
    let market_state = DexStateView::deserialize(accounts[1].data@)->Ok_0;
    let user_account = UserAccountView::parse(accounts[7].data@)->Ok_0;
    &&& pending.market_data@ == accounts[1].data@
    &&& pending.user_account@ == user_account
    &&& pending.user_account@.serialize() == accounts[7].data@
    &&& pending.order_index == order_index
    &&& user_account.read_order(order_index as int) == Ok::<u128, DexError>(
        pending.request.order_id,
    )
    &&& pending.request.aaob_program == accounts[0].key
    &&& pending.request.orderbook == accounts[3].key
    &&& pending.request.event_queue == accounts[4].key
    &&& pending.request.bids == accounts[5].key
    &&& pending.request.asks == accounts[6].key
    &&& pending.request.market_signer.spec_address() == accounts[2].key
    &&& pending.request.market_signer.spec_market() == accounts[1].key
    &&& pending.request.market_signer.spec_nonce() == market_state.signer_nonce
}

/// What `process` returns on the given input.
pub open spec fn spec_process_post(
    program_id: Seq<u8>,
    accounts: Seq<Account>,
    order_index: u64,
    r: Result<PendingCancel, DexError>,
) -> bool {
    match r {
        Ok(pending) => spec_process_error(program_id, accounts, order_index) is None
            && spec_process_ok(accounts, order_index, pending),
        Err(e) => spec_process_error(program_id, accounts, order_index) == Some(e),
    }
}

/// Validates a cancellation and prepares the request to the engine. Nothing
/// is asked of the engine unless every check passed.
pub fn process(program_id: &Key, accounts: &[Account], params: Params) -> (r: Result<
    PendingCancel,
    DexError,
>)
    ensures
        spec_process_post(program_id@, accounts@, params.order_index, r),
{
    let accounts = Accounts::parse(program_id, accounts)?;
    let Params { order_index } = params;

    let market_bytes = accounts.market.data.as_slice();
    let market_state = DexState::deserialize(market_bytes)?.check()?;

    let user_account = accounts.load_user_account()?;

    let mut market_data = market_state.serialize();
    let trailing = vstd::slice::slice_subrange(market_bytes, DEX_STATE_LEN, market_bytes.len());
    let mut trailing = vstd::slice::slice_to_vec(trailing);
    market_data.append(&mut trailing);
    proof {
        lemma_dex_state_serialize_deserialize(market_bytes@);
        assert(market_data@ =~= market_bytes@);
    }

    let signer = match MarketSigner::derive(program_id, &accounts.market.key, market_state.signer_nonce) {
        Some(s) => s,
        None => { return Err(DexError::InvalidSeeds); },
    };
    check_accounts(&signer.address(), &market_state, &accounts)?;

    let order_id = user_account.read_order(order_index)?;

    proof {
        lemma_key_ext(signer.spec_address(), accounts.market_signer.key);
    }
    Ok(
        PendingCancel {
            market_data,
            user_account,
            order_index,
            request: CancelRequest {
                aaob_program: accounts.aaob_program.key,
                orderbook: accounts.orderbook.key,
                market_signer: signer,
                event_queue: accounts.event_queue.key,
                bids: accounts.bids.key,
                asks: accounts.asks.key,
                order_id,
            },
        },
    )
}

/// The invariant that settling would breach, if any. There is none where the
/// slot is empty or the engine failed, since nothing is then settled.
/// Otherwise the register must hold a summary, and the unwound quantity must
/// fit the balances.
pub open spec fn spec_fault(
    user_account: UserAccountView,
    order_index: u64,
    engine_result: Result<(), u64>,
    register: Option<OrderSummary>,
) -> Option<Fault> {
    match user_account.read_order(order_index as int) {
        Err(_) => None,
        Ok(order_id) => match engine_result {
            Err(_) => None,
            Ok(_) => match register {
                None => Some(Fault::RegisterEmpty),
                Some(summary) => user_account.unlock_fault(spec_side(order_id), summary),
            },
        },
    }
}

/// The user's account after the engine answered, or the reason for which the
/// cancellation is rejected. The side of the order is read from its
/// identifier.
pub open spec fn spec_settle(
    user_account: UserAccountView,
    order_index: u64,
    engine_result: Result<(), u64>,
    register: Option<OrderSummary>,
) -> Result<UserAccountView, DexError>
    recommends
        spec_fault(user_account, order_index, engine_result, register) is None,
{
    match user_account.read_order(order_index as int) {
        Err(e) => Err(e),
        Ok(order_id) => match engine_result {
            Err(code) => Err(DexError::Engine(code)),
            Ok(_) => Ok(
                user_account.unlock(spec_side(order_id), register->Some_0).remove_order(
                    order_index as int,
                ),
            ),
        },
    }
}

/// Tells whether settling would breach an invariant. The host calls this
/// before `settle` and aborts the instruction on a fault.
pub fn fault(
    user_account: &UserAccount,
    order_index: u64,
    engine_result: &Result<(), u64>,
    register: &ResultRegister,
) -> (r: Option<Fault>)
    ensures
        r == spec_fault(user_account@, order_index, *engine_result, register@),
{
    let order_id = match user_account.read_order(order_index) {
        Ok(id) => id,
        Err(_) => { return None; },
    };
    if engine_result.is_err() {
        return None;
    }
    let summary = match register.peek() {
        Some(summary) => summary,
        None => { return Some(Fault::RegisterEmpty); },
    };
    user_account.unlock_fault(get_side_from_order_id(order_id), &summary)
}

/// Applies the engine's answer to the user's account.
///
/// Where the engine failed, its code is handed on and nothing changes. Where
/// it succeeded, the summary is taken out of the register, the unfilled
/// remainder moves from locked to free on the side of the order, and the
/// slot is emptied. On every rejection the account and the register are left
/// as they were.
///
/// The answer must breach no invariant: `fault` tells whether it does, and
/// `try_settle` makes that test itself.
pub fn settle(
    user_account: &mut UserAccount,
    order_index: u64,
    engine_result: Result<(), u64>,
    register: &mut ResultRegister,
) -> (r: Result<(), DexError>)
    requires
        spec_fault(old(user_account)@, order_index, engine_result, old(register)@) is None,
    ensures
        match spec_settle(old(user_account)@, order_index, engine_result, old(register)@) {
            Ok(after) => r == Ok::<(), DexError>(())
                && final(user_account)@ == after
                && final(register)@ is None,
            Err(e) => r == Err::<(), DexError>(e)
                && final(user_account)@ == old(user_account)@
                && final(register)@ == old(register)@,
        },
{
    let order_id = user_account.read_order(order_index)?;
    if let Err(code) = engine_result {
        return Err(DexError::Engine(code));
    }
    let summary = register.take().unwrap();
    let side = get_side_from_order_id(order_id);
    user_account.unlock(side, &summary).unwrap();
    user_account.remove_order(order_index)
}

/// Settles a cancellation unless that would breach an invariant.
///
/// On a fault nothing is changed and the fault is returned as the outer
/// error: the host must then abort the instruction. Otherwise the inner
/// result is that of `settle`.
pub fn try_settle(
    user_account: &mut UserAccount,
    order_index: u64,
    engine_result: Result<(), u64>,
    register: &mut ResultRegister,
) -> (r: Result<Result<(), DexError>, Fault>)
    ensures
        match spec_fault(old(user_account)@, order_index, engine_result, old(register)@) {
            Some(f) => r == Err::<Result<(), DexError>, Fault>(f)
                && final(user_account)@ == old(user_account)@
                && final(register)@ == old(register)@,
            None => match spec_settle(
                old(user_account)@,
                order_index,
                engine_result,
                old(register)@,
            ) {
                Ok(after) => r == Ok::<Result<(), DexError>, Fault>(Ok(()))
                    && final(user_account)@ == after
                    && final(register)@ is None,
                Err(e) => r == Ok::<Result<(), DexError>, Fault>(Err(e))
                    && final(user_account)@ == old(user_account)@
                    && final(register)@ == old(register)@,
            },
        },
{
    match fault(user_account, order_index, &engine_result, register) {
        Some(f) => Err(f),
        None => Ok(settle(user_account, order_index, engine_result, register)),
    }
}

/// Conservation. A successful cancellation credits the free balance on the
/// side of the order by exactly what it debits from the locked balance of
/// that side, which is the quantity that the engine reported as unwound. The
/// balances of the other side stay as they were.
pub proof fn lemma_settle_conserves(
    before: UserAccountView,
    order_index: u64,
    engine_result: Result<(), u64>,
    register: Option<OrderSummary>,
)
    requires
        spec_fault(before, order_index, engine_result, register) is None,
        spec_settle(before, order_index, engine_result, register) is Ok,
    ensures
        ({
            let after = spec_settle(before, order_index, engine_result, register)->Ok_0;
            let side = spec_side(before.orders[order_index as int]->Some_0);
            let qty = UserAccountView::unwound(side, register->Some_0);
            &&& after.free(side) - before.free(side) == before.locked(side) - after.locked(side)
            &&& after.free(side) - before.free(side) == qty
            &&& after.free(side.opposite()) == before.free(side.opposite())
            &&& after.locked(side.opposite()) == before.locked(side.opposite())
        }),
{
}

/// Nothing else changes. A successful cancellation empties the slot it names
/// and leaves every other slot, the capacity of the slab, the owner and the
/// market as they were.
pub proof fn lemma_settle_keeps_the_rest(
    before: UserAccountView,
    order_index: u64,
    engine_result: Result<(), u64>,
    register: Option<OrderSummary>,
)
    requires
        spec_settle(before, order_index, engine_result, register) is Ok,
    ensures
        ({
            let after = spec_settle(before, order_index, engine_result, register)->Ok_0;
            &&& after.owner == before.owner
            &&& after.market == before.market
            &&& after.capacity() == before.capacity()
            &&& after.orders[order_index as int] is None
            &&& forall|j: int|
                0 <= j < before.orders.len() && j != order_index ==> after.orders[j]
                    == before.orders[j]
        }),
{
}

/// Side correctness. Whatever the outcome, settling an order that is tagged
/// as a bid leaves the base balances as they were, and settling one that is
/// tagged as an ask leaves the quote balances as they were.
pub proof fn lemma_settle_touches_one_side(
    before: UserAccountView,
    order_index: u64,
    engine_result: Result<(), u64>,
    register: Option<OrderSummary>,
)
    requires
        before.occupied(order_index as int),
    ensures
        ({
            let after = match spec_settle(before, order_index, engine_result, register) {
                Ok(after) => after,
                Err(_) => before,
            };
            let side = spec_side(before.orders[order_index as int]->Some_0);
            &&& side == Side::Bid ==> after.base_token_free == before.base_token_free
                && after.base_token_locked == before.base_token_locked
            &&& side == Side::Ask ==> after.quote_token_free == before.quote_token_free
                && after.quote_token_locked == before.quote_token_locked
        }),
{
}

/// Absence handling. A cancellation that names an empty slot, or a slot
/// outside the slab, is rejected with `InvalidArgument` before the engine is
/// asked, provided that nothing else was wrong first. If such a cancellation
/// is settled all the same, it is rejected in the same way and the account
/// stays as it was.
pub proof fn lemma_empty_slot_rejected(
    program_id: Seq<u8>,
    accounts: Seq<Account>,
    order_index: u64,
    engine_result: Result<(), u64>,
    register: Option<OrderSummary>,
)
    requires
        spec_validate_error(program_id, accounts) is None,
        !UserAccountView::parse(accounts[7].data@)->Ok_0.occupied(order_index as int),
    ensures
        spec_process_error(program_id, accounts, order_index) == Some(DexError::InvalidArgument),
        ({
            let user_account = UserAccountView::parse(accounts[7].data@)->Ok_0;
            &&& spec_fault(user_account, order_index, engine_result, register) is None
            &&& spec_settle(user_account, order_index, engine_result, register) == Err::<
                UserAccountView,
                DexError,
            >(DexError::InvalidArgument)
        }),
{
}

/// Non-negativity. Where the engine reports more as unwound than the account
/// has locked on the side of the order, settling is a fault. Where settling
/// is no fault, the locked balance after it is the locked balance before it
/// less the unwound quantity, and so is not negative.
pub proof fn lemma_locked_never_negative(
    before: UserAccountView,
    order_index: u64,
    summary: OrderSummary,
)
    requires
        before.occupied(order_index as int),
    ensures
        ({
            let side = spec_side(before.orders[order_index as int]->Some_0);
            let qty = UserAccountView::unwound(side, summary);
            let fault = spec_fault(before, order_index, Ok(()), Some(summary));
            let after = spec_settle(before, order_index, Ok(()), Some(summary));
            &&& before.locked(side) < qty ==> fault is Some
            &&& fault is None ==> after is Ok && after->Ok_0.locked(side) == before.locked(side)
                - qty && before.locked(side) - qty >= 0
        }),
{
}

/// Atomicity. Where the engine fails, settling is rejected, with the engine's
/// own code if the slot holds an order, and the account that results is the
/// account as it was. The bytes that a validated cancellation holds for the
/// market's record are those that were read.
pub proof fn lemma_engine_failure_changes_nothing(
    before: UserAccountView,
    order_index: u64,
    code: u64,
    register: Option<OrderSummary>,
)
    ensures
        spec_fault(before, order_index, Err(code), register) is None,
        spec_settle(before, order_index, Err(code), register) is Err,
        before.occupied(order_index as int) ==> spec_settle(
            before,
            order_index,
            Err(code),
            register,
        ) == Err::<UserAccountView, DexError>(DexError::Engine(code)),
{
}

/// Ownership enforcement. Where the account set and the market's record are
/// in order and the user's account decodes, an account that is stored under
/// another owner than the authenticated caller is rejected with
/// `InvalidOwner`, whatever the order index is.
pub proof fn lemma_foreign_owner_rejected(
    program_id: Seq<u8>,
    accounts: Seq<Account>,
    order_index: u64,
)
    requires
        Accounts::spec_parse_error(accounts) is None,
        DexStateView::deserialize(accounts[1].data@) is Ok,
        DexStateView::deserialize(accounts[1].data@)->Ok_0.check() is Ok,
        UserAccountView::parse(accounts[7].data@) is Ok,
        UserAccountView::parse(accounts[7].data@)->Ok_0.owner != accounts[8].key@,
    ensures
        spec_process_error(program_id, accounts, order_index) == Some(DexError::InvalidOwner),
{
}

} // verus!
