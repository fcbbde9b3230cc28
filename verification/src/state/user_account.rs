//! The user's record: balances and the slab of resting orders.
//!
//! The slab is an arena of slots addressed by small integers. Its capacity is
//! fixed when the account is created. A slot is empty or holds the identifier
//! of an order that rests in the book.
//!
//! Layout: the tag byte, the market, the owner, the four balances, then one
//! field of `ORDER_SLOT_LEN` bytes per slot. A slot field is an occupancy
//! marker followed by the identifier; an empty slot is all zero.
use vstd::prelude::*;

use crate::error::view_ok;
use crate::error::DexError;
use crate::error::Fault;
use crate::key::Key;
use crate::order_id::Side;
use crate::register::OrderSummary;
use crate::state::AccountTag;
use crate::wire::le_bytes;
use crate::wire::le_value;
use crate::wire::lemma_le_bytes_len;
use crate::wire::lemma_le_bytes_of_value;
use crate::wire::lemma_le_value_bound;
use crate::wire::lemma_le_value_of_bytes;
use crate::wire::lemma_radix_values;
use crate::wire::put_key;
use crate::wire::put_u128;
use crate::wire::put_u64;
use crate::wire::read_key;
use crate::wire::read_u128;
use crate::wire::read_u64;

verus! {

/// Length in bytes of what precedes the slab in a serialized user account.
pub const USER_ACCOUNT_HEADER_LEN: usize = 97;

/// Length in bytes of one slot of the slab.
pub const ORDER_SLOT_LEN: usize = 17;

/// The fixed part of a user account.
#[derive(Clone, Copy, Debug)]
pub struct UserAccountHeader {
    /// The market the account trades on.
    pub market: Key,
    /// The owner, who must authenticate every instruction on the account.
    pub owner: Key,
    /// Base funds available for new orders or withdrawal.
    pub base_token_free: u64,
    /// Base funds committed to resting orders.
    pub base_token_locked: u64,
    /// Quote funds available for new orders or withdrawal.
    pub quote_token_free: u64,
    /// Quote funds committed to resting orders.
    pub quote_token_locked: u64,
}

/// A user's balances and resting orders. The fields are private: the owner,
/// the market and the capacity of the slab are fixed when the account is
/// made, and balances move only by `unlock`.
#[derive(Clone, Debug)]
pub struct UserAccount {
    header: UserAccountHeader,
    orders: Vec<Option<u128>>,
}

/// A user account as a mathematical value.
pub struct UserAccountView {
    pub market: Seq<u8>,
    pub owner: Seq<u8>,
    pub base_token_free: u64,
    pub base_token_locked: u64,
    pub quote_token_free: u64,
    pub quote_token_locked: u64,
    /// The slab: one entry per slot, `None` for an empty slot.
    pub orders: Seq<Option<u128>>,
}

impl View for UserAccount {
    type V = UserAccountView;

    closed spec fn view(&self) -> UserAccountView {
        UserAccountView::of(self.header, self.orders@)
    }
}

/// The bytes of one slot.
pub open spec fn spec_slot_bytes(slot: Option<u128>) -> Seq<u8> {
    match slot {
        None => seq![0u8] + le_bytes(0, 16),
        Some(order_id) => seq![1u8] + le_bytes(order_id as nat, 16),
    }
}

/// The slot that a field of `ORDER_SLOT_LEN` bytes holds, or `None` where the
/// field is malformed: the marker is neither 0 nor 1, or an empty slot is not
/// all zero.
pub open spec fn spec_slot(field: Seq<u8>) -> Option<Option<u128>> {
    let number = le_value(field.subrange(1, ORDER_SLOT_LEN as int));
    if field[0] == 1 {
        Some(Some(number as u128))
    } else if field[0] == 0 && number == 0 {
        Some(None)
    } else {
        None
    }
}

/// The field of slot `index` within the bytes of a slab.
pub open spec fn spec_slot_field(slab: Seq<u8>, index: int) -> Seq<u8> {
    slab.subrange(ORDER_SLOT_LEN * index, ORDER_SLOT_LEN * index + ORDER_SLOT_LEN)
}

/// The bytes of a slab: the fields of its slots, one after the other.
pub open spec fn spec_slab_bytes(orders: Seq<Option<u128>>) -> Seq<u8> {
    Seq::new(
        orders.len() * ORDER_SLOT_LEN as nat,
        |j: int| spec_slot_bytes(orders[j / ORDER_SLOT_LEN as int])[j % ORDER_SLOT_LEN as int],
    )
}

/// Whether `slab` is a whole number of well-formed slot fields.
pub open spec fn spec_slab_ok(slab: Seq<u8>) -> bool {
    &&& slab.len() % ORDER_SLOT_LEN as nat == 0
    &&& forall|i: int|
        0 <= i < slab.len() / ORDER_SLOT_LEN as nat ==> (#[trigger] spec_slot(
            spec_slot_field(slab, i),
        )) is Some
}

/// The slots that the bytes of a well-formed slab hold.
pub open spec fn spec_slab(slab: Seq<u8>) -> Seq<Option<u128>> {
    Seq::new(
        slab.len() / ORDER_SLOT_LEN as nat,
        |i: int| spec_slot(spec_slot_field(slab, i))->Some_0,
    )
}

impl UserAccountView {
    /// The account made of a header and a slab.
    pub open spec fn of(header: UserAccountHeader, orders: Seq<Option<u128>>) -> UserAccountView {
        UserAccountView {
            market: header.market@,
            owner: header.owner@,
            base_token_free: header.base_token_free,
            base_token_locked: header.base_token_locked,
            quote_token_free: header.quote_token_free,
            quote_token_locked: header.quote_token_locked,
            orders,
        }
    }

    /// Both addresses of the account are 32 bytes long.
    pub open spec fn wf(self) -> bool {
        &&& self.market.len() == 32
        &&& self.owner.len() == 32
    }

    /// The number of slots of the slab.
    pub open spec fn capacity(self) -> nat {
        self.orders.len()
    }

    /// The bytes of the account.
    pub open spec fn serialize(self) -> Seq<u8> {
        seq![AccountTag::UserAccount.spec_to_byte()] + self.market + self.owner + le_bytes(
            self.base_token_free as nat,
            8,
        ) + le_bytes(self.base_token_locked as nat, 8) + le_bytes(self.quote_token_free as nat, 8)
            + le_bytes(self.quote_token_locked as nat, 8) + spec_slab_bytes(self.orders)
    }

    /// The account that `bytes` hold. They must be the header and a whole
    /// number of well-formed slots, and begin with the tag of a user account.
    pub open spec fn parse(bytes: Seq<u8>) -> Result<UserAccountView, DexError> {
        if bytes.len() < USER_ACCOUNT_HEADER_LEN || bytes[0]
            != AccountTag::UserAccount.spec_to_byte() || !spec_slab_ok(
            bytes.skip(USER_ACCOUNT_HEADER_LEN as int),
        ) {
            Err(DexError::InvalidAccountData)
        } else {
            Ok(
                UserAccountView {
                    market: bytes.subrange(1, 33),
                    owner: bytes.subrange(33, 65),
                    base_token_free: le_value(bytes.subrange(65, 73)) as u64,
                    base_token_locked: le_value(bytes.subrange(73, 81)) as u64,
                    quote_token_free: le_value(bytes.subrange(81, 89)) as u64,
                    quote_token_locked: le_value(bytes.subrange(89, 97)) as u64,
                    orders: spec_slab(bytes.skip(USER_ACCOUNT_HEADER_LEN as int)),
                },
            )
        }
    }

    /// The account that `bytes` hold, provided that it belongs to `owner` and
    /// to `market`. The owner is checked before the market.
    pub open spec fn load(bytes: Seq<u8>, owner: Seq<u8>, market: Seq<u8>) -> Result<
        UserAccountView,
        DexError,
    > {
        match Self::parse(bytes) {
            Err(e) => Err(e),
            Ok(account) => if account.owner != owner {
                Err(DexError::InvalidOwner)
            } else if account.market != market {
                Err(DexError::InvalidMarket)
            } else {
                Ok(account)
            },
        }
    }

    /// Whether `index` names a slot of the slab that holds an order.
    pub open spec fn occupied(self, index: int) -> bool {
        0 <= index < self.orders.len() && self.orders[index] is Some
    }

    /// The identifier in slot `index`; `InvalidArgument` where the index is
    /// outside the slab or the slot is empty.
    pub open spec fn read_order(self, index: int) -> Result<u128, DexError> {
        if self.occupied(index) {
            Ok(self.orders[index]->Some_0)
        } else {
            Err(DexError::InvalidArgument)
        }
    }

    /// The account with slot `index` emptied.
    pub open spec fn remove_order(self, index: int) -> UserAccountView {
        UserAccountView { orders: self.orders.update(index, None), ..self }
    }

    /// The quantity of `summary` that counts for an order on `side`: quote
    /// funds for a bid, base funds for an ask.
    pub open spec fn unwound(side: Side, summary: OrderSummary) -> u64 {
        match side {
            Side::Bid => summary.total_quote_qty,
            Side::Ask => summary.total_asset_qty,
        }
    }

    /// The free balance of the asset that an order on `side` locks.
    pub open spec fn free(self, side: Side) -> u64 {
        match side {
            Side::Bid => self.quote_token_free,
            Side::Ask => self.base_token_free,
        }
    }

    /// The locked balance of the asset that an order on `side` locks.
    pub open spec fn locked(self, side: Side) -> u64 {
        match side {
            Side::Bid => self.quote_token_locked,
            Side::Ask => self.base_token_locked,
        }
    }

    /// The invariant that unlocking would breach, if any: the credit must fit
    /// the free balance, and the locked balance must cover the debit.
    pub open spec fn unlock_fault(self, side: Side, summary: OrderSummary) -> Option<Fault> {
        if self.free(side) + Self::unwound(side, summary) > u64::MAX {
            Some(Fault::FreeOverflow)
        } else if self.locked(side) < Self::unwound(side, summary) {
            Some(Fault::LockedUnderflow)
        } else {
            None
        }
    }

    /// The account after the unwound quantity moved from locked to free, on
    /// the asset that an order on `side` locks.
    pub open spec fn unlock(self, side: Side, summary: OrderSummary) -> UserAccountView
        recommends
            self.unlock_fault(side, summary) is None,
    {
        let qty = Self::unwound(side, summary);
        match side {
            Side::Bid => UserAccountView {
                quote_token_free: (self.quote_token_free + qty) as u64,
                quote_token_locked: (self.quote_token_locked - qty) as u64,
                ..self
            },
            Side::Ask => UserAccountView {
                base_token_free: (self.base_token_free + qty) as u64,
                base_token_locked: (self.base_token_locked - qty) as u64,
                ..self
            },
        }
    }
}

impl UserAccount {
    /// An account with the given header and slab. The length of `orders` is
    /// the capacity of the slab from now on.
    pub fn new(header: UserAccountHeader, orders: Vec<Option<u128>>) -> (account: UserAccount)
        ensures
            account@ == UserAccountView::of(header, orders@),
    {
        UserAccount { header, orders }
    }

    /// The fixed part of the account.
    pub fn header(&self) -> (header: UserAccountHeader)
        ensures
            self@ == UserAccountView::of(header, self@.orders),
    {
        self.header
    }

    /// The number of slots of the slab.
    pub fn capacity(&self) -> (n: usize)
        ensures
            n == self@.capacity(),
    {
        self.orders.len()
    }

    /// What slot `order_index` holds: `None` for an empty slot and for an
    /// index outside the slab.
    pub fn slot(&self, order_index: u64) -> (r: Option<u128>)
        ensures
            r == (if 0 <= order_index < self@.orders.len() {
                self@.orders[order_index as int]
            } else {
                None
            }),
    {
        if order_index >= self.orders.len() as u64 {
            None
        } else {
            self.orders[order_index as usize]
        }
    }

    /// Reads the identifier of the order in slot `order_index`.
    pub fn read_order(&self, order_index: u64) -> (r: Result<u128, DexError>)
        ensures
            r == self@.read_order(order_index as int),
    {
        match self.slot(order_index) {
            Some(order_id) => Ok(order_id),
            None => Err(DexError::InvalidArgument),
        }
    }

    /// Empties slot `order_index`, so that it can take another order. Fails
    /// as `read_order` does, and then changes nothing.
    pub fn remove_order(&mut self, order_index: u64) -> (r: Result<(), DexError>)
        ensures
            old(self)@.occupied(order_index as int) ==> r == Ok::<(), DexError>(())
                && final(self)@ == old(self)@.remove_order(order_index as int),
            !old(self)@.occupied(order_index as int) ==> r == Err::<(), DexError>(
                DexError::InvalidArgument,
            ) && final(self)@ == old(self)@,
    {
        if order_index >= self.orders.len() as u64 {
            return Err(DexError::InvalidArgument);
        }
        let index: usize = order_index as usize;
        match self.orders[index] {
            Some(_) => {
                self.orders[index] = None;
                Ok(())
            },
            None => Err(DexError::InvalidArgument),
        }
    }

    /// Tells which invariant `unlock` would breach on these arguments, if any.
    pub fn unlock_fault(&self, side: Side, summary: &OrderSummary) -> (r: Option<Fault>)
        ensures
            r == self@.unlock_fault(side, *summary),
    {
        let (free, locked, qty) = match side {
            Side::Bid => (
                self.header.quote_token_free,
                self.header.quote_token_locked,
                summary.total_quote_qty,
            ),
            Side::Ask => (
                self.header.base_token_free,
                self.header.base_token_locked,
                summary.total_asset_qty,
            ),
        };
        if free.checked_add(qty).is_none() {
            Some(Fault::FreeOverflow)
        } else if locked < qty {
            Some(Fault::LockedUnderflow)
        } else {
            None
        }
    }

    /// Moves the quantity that `summary` reports as unwound from locked to
    /// free, on the asset that an order on `side` locks. Funds are neither
    /// made nor lost. Where the move would breach an invariant the account is
    /// left as it is and the breach is reported.
    pub fn unlock(&mut self, side: Side, summary: &OrderSummary) -> (r: Result<(), Fault>)
        ensures
            r == match old(self)@.unlock_fault(side, *summary) {
                Some(fault) => Err::<(), Fault>(fault),
                None => Ok(()),
            },
            r is Ok ==> final(self)@ == old(self)@.unlock(side, *summary),
            r is Err ==> final(self)@ == old(self)@,
    {
        match side {
            Side::Bid => {
                let qty: u64 = summary.total_quote_qty;
                let free = match self.header.quote_token_free.checked_add(qty) {
                    Some(v) => v,
                    None => { return Err(Fault::FreeOverflow); },
                };
                let locked = match self.header.quote_token_locked.checked_sub(qty) {
                    Some(v) => v,
                    None => { return Err(Fault::LockedUnderflow); },
                };
                self.header.quote_token_free = free;
                self.header.quote_token_locked = locked;
            },
            Side::Ask => {
                let qty: u64 = summary.total_asset_qty;
                let free = match self.header.base_token_free.checked_add(qty) {
                    Some(v) => v,
                    None => { return Err(Fault::FreeOverflow); },
                };
                let locked = match self.header.base_token_locked.checked_sub(qty) {
                    Some(v) => v,
                    None => { return Err(Fault::LockedUnderflow); },
                };
                self.header.base_token_free = free;
                self.header.base_token_locked = locked;
            },
        }
        Ok(())
    }

    /// Decodes a user account from the bytes of its record.
    pub fn parse(data: &[u8]) -> (r: Result<UserAccount, DexError>)
        ensures
            view_ok(r) == UserAccountView::parse(data@),
            r matches Ok(account) ==> account@.wf() && account@.serialize() == data@,
    {
        proof {
            if UserAccountView::parse(data@) is Ok {
                lemma_user_account_serialize_parse(data@);
            }
        }
        let len: usize = data.len();
        if len < USER_ACCOUNT_HEADER_LEN {
            return Err(DexError::InvalidAccountData);
        }
        if data[0] != AccountTag::UserAccount.to_byte() {
            return Err(DexError::InvalidAccountData);
        }
        let ghost slab = data@.skip(USER_ACCOUNT_HEADER_LEN as int);
        if (len - USER_ACCOUNT_HEADER_LEN) % ORDER_SLOT_LEN != 0 {
            return Err(DexError::InvalidAccountData);
        }
        let capacity: usize = (len - USER_ACCOUNT_HEADER_LEN) / ORDER_SLOT_LEN;
        let header = UserAccountHeader {
            market: read_key(data, 1),
            owner: read_key(data, 33),
            base_token_free: read_u64(data, 65),
            base_token_locked: read_u64(data, 73),
            quote_token_free: read_u64(data, 81),
            quote_token_locked: read_u64(data, 89),
        };
        let mut orders: Vec<Option<u128>> = Vec::new();
        let mut i: usize = 0;
        while i < capacity
            invariant
                len == data@.len(),
                len >= USER_ACCOUNT_HEADER_LEN,
                slab == data@.skip(USER_ACCOUNT_HEADER_LEN as int),
                capacity * ORDER_SLOT_LEN == len - USER_ACCOUNT_HEADER_LEN,
                i <= capacity,
                orders@.len() == i,
                forall|k: int|
                    0 <= k < i ==> (#[trigger] spec_slot(spec_slot_field(slab, k))) == Some(
                        orders@[k],
                    ),
            decreases capacity - i,
        {
            let at: usize = USER_ACCOUNT_HEADER_LEN + ORDER_SLOT_LEN * i;
            let marker: u8 = data[at];
            let number: u128 = read_u128(data, at + 1);
            proof {
                let field = spec_slot_field(slab, i as int);
                assert(field[0] == marker);
                assert(field.subrange(1, ORDER_SLOT_LEN as int) =~= data@.subrange(
                    at + 1,
                    at + 17,
                ));
                lemma_le_value_bound(field.subrange(1, ORDER_SLOT_LEN as int));
                lemma_radix_values();
            }
            if marker == 1 {
                orders.push(Some(number));
            } else if marker == 0 && number == 0 {
                orders.push(None);
            } else {
                assert(spec_slot(spec_slot_field(slab, i as int)) is None);
                return Err(DexError::InvalidAccountData);
            }
            i += 1;
        }
        let account = UserAccount { header, orders };
        proof {
            assert(slab.len() == capacity * ORDER_SLOT_LEN);
            assert(spec_slab_ok(slab));
            assert(account@.orders =~= spec_slab(slab));
            lemma_le_value_bound(data@.subrange(65, 73));
            lemma_le_value_bound(data@.subrange(73, 81));
            lemma_le_value_bound(data@.subrange(81, 89));
            lemma_le_value_bound(data@.subrange(89, 97));
            lemma_radix_values();
        }
        Ok(account)
    }

    /// Decodes the user account in `data` and checks that it belongs to the
    /// caller and to the current market.
    pub fn load(data: &[u8], owner: &Key, market: &Key) -> (r: Result<UserAccount, DexError>)
        ensures
            view_ok(r) == UserAccountView::load(data@, owner@, market@),
            r matches Ok(account) ==> account@.wf() && account@.serialize() == data@,
    {
        let account = UserAccount::parse(data)?;
        proof {
            if account.header.owner@ == owner@ {
                crate::key::lemma_key_ext(account.header.owner, *owner);
            }
            if account.header.market@ == market@ {
                crate::key::lemma_key_ext(account.header.market, *market);
            }
        }
        if account.header.owner != *owner {
            return Err(DexError::InvalidOwner);
        }
        if account.header.market != *market {
            return Err(DexError::InvalidMarket);
        }
        Ok(account)
    }

    /// Encodes the account as the bytes of its record; they decode to the
    /// account again. Persisting them is the last step of an instruction:
    /// nothing that is done to the account afterwards lasts.
    pub fn write(&self) -> (out: Vec<u8>)
        ensures
            out@ == self@.serialize(),
            UserAccountView::parse(out@) == Ok::<UserAccountView, DexError>(self@),
    {
        proof {
            lemma_user_account_parse_serialize(self@);
        }
        let mut out: Vec<u8> = Vec::new();
        out.push(AccountTag::UserAccount.to_byte());
        put_key(&mut out, &self.header.market);
        put_key(&mut out, &self.header.owner);
        put_u64(&mut out, self.header.base_token_free);
        put_u64(&mut out, self.header.base_token_locked);
        put_u64(&mut out, self.header.quote_token_free);
        put_u64(&mut out, self.header.quote_token_locked);
        let ghost head = out@;
        proof {
            assert(spec_slab_bytes(self.orders@.take(0)) =~= Seq::<u8>::empty());
            assert(head + Seq::<u8>::empty() =~= head);
        }
        let mut i: usize = 0;
        while i < self.orders.len()
            invariant
                i <= self.orders.len(),
                out@ == head + spec_slab_bytes(self.orders@.take(i as int)),
            decreases self.orders.len() - i,
        {
            let ghost before = out@;
            match self.orders[i] {
                Some(order_id) => {
                    out.push(1);
                    put_u128(&mut out, order_id);
                },
                None => {
                    out.push(0);
                    put_u128(&mut out, 0);
                },
            }
            proof {
                let done = self.orders@.take(i as int);
                let slot = self.orders@[i as int];
                assert(out@ =~= before + spec_slot_bytes(slot));
                assert(self.orders@.take(i + 1) =~= done.push(slot));
                lemma_slab_bytes_push(done, slot);
                assert(out@ =~= head + spec_slab_bytes(self.orders@.take(i + 1)));
            }
            i += 1;
        }
        assert(self.orders@.take(i as int) =~= self.orders@);
        out
    }
}

/// A slot field is `ORDER_SLOT_LEN` bytes long and decodes to its slot.
pub proof fn lemma_slot_of_bytes(slot: Option<u128>)
    ensures
        spec_slot_bytes(slot).len() == ORDER_SLOT_LEN,
        spec_slot(spec_slot_bytes(slot)) == Some(slot),
{
    let field = spec_slot_bytes(slot);
    lemma_radix_values();
    match slot {
        None => {
            lemma_le_bytes_len(0, 16);
            lemma_le_value_of_bytes(0, 16);
            assert(field.subrange(1, ORDER_SLOT_LEN as int) =~= le_bytes(0, 16));
        },
        Some(order_id) => {
            lemma_le_bytes_len(order_id as nat, 16);
            lemma_le_value_of_bytes(order_id as nat, 16);
            assert(field.subrange(1, ORDER_SLOT_LEN as int) =~= le_bytes(order_id as nat, 16));
        },
    }
}

/// A well-formed slot field is the encoding of the slot it decodes to.
pub proof fn lemma_bytes_of_slot(field: Seq<u8>)
    requires
        field.len() == ORDER_SLOT_LEN,
        spec_slot(field) is Some,
    ensures
        spec_slot_bytes(spec_slot(field)->Some_0) == field,
{
    let number_bytes = field.subrange(1, ORDER_SLOT_LEN as int);
    lemma_le_bytes_of_value(number_bytes);
    lemma_le_value_bound(number_bytes);
    lemma_radix_values();
    assert(seq![field[0]] + number_bytes =~= field);
}

/// The bytes of a slab grow by one field with each slot.
pub proof fn lemma_slab_bytes_push(orders: Seq<Option<u128>>, slot: Option<u128>)
    ensures
        spec_slab_bytes(orders.push(slot)) == spec_slab_bytes(orders) + spec_slot_bytes(slot),
{
    lemma_slot_of_bytes(slot);
    let n = orders.len() as int;
    let whole = spec_slab_bytes(orders.push(slot));
    let parts = spec_slab_bytes(orders) + spec_slot_bytes(slot);
    assert(whole.len() == parts.len());
    assert forall|j: int| 0 <= j < whole.len() implies whole[j] == parts[j] by {
        if j < 17 * n {
            assert(j / 17 < n);
        } else {
            assert(j / 17 == n);
            assert(j % 17 == j - 17 * n);
        }
    }
    assert(whole =~= parts);
}

/// Field `index` of the bytes of a slab is the encoding of slot `index`.
pub proof fn lemma_slab_bytes_field(orders: Seq<Option<u128>>, index: int)
    requires
        0 <= index < orders.len(),
    ensures
        spec_slot_field(spec_slab_bytes(orders), index) == spec_slot_bytes(orders[index]),
{
    lemma_slot_of_bytes(orders[index]);
    let field = spec_slot_field(spec_slab_bytes(orders), index);
    let want = spec_slot_bytes(orders[index]);
    assert(field.len() == want.len());
    assert forall|t: int| 0 <= t < 17 implies field[t] == want[t] by {
        let j = 17 * index + t;
        assert(j / 17 == index);
        assert(j % 17 == t);
    }
    assert(field =~= want);
}

/// The bytes of a slab decode to the slab.
pub proof fn lemma_slab_of_bytes(orders: Seq<Option<u128>>)
    ensures
        spec_slab_bytes(orders).len() == orders.len() * ORDER_SLOT_LEN,
        spec_slab_ok(spec_slab_bytes(orders)),
        spec_slab(spec_slab_bytes(orders)) == orders,
{
    let slab = spec_slab_bytes(orders);
    assert(slab.len() / 17 == orders.len());
    assert forall|i: int| 0 <= i < slab.len() / 17 implies (#[trigger] spec_slot(
        spec_slot_field(slab, i),
    )) == Some(orders[i]) by {
        lemma_slab_bytes_field(orders, i);
        lemma_slot_of_bytes(orders[i]);
    }
    assert(spec_slab(slab) =~= orders);
}

/// A well-formed slab is the encoding of the slots it decodes to.
pub proof fn lemma_bytes_of_slab(slab: Seq<u8>)
    requires
        spec_slab_ok(slab),
    ensures
        spec_slab_bytes(spec_slab(slab)) == slab,
{
    let orders = spec_slab(slab);
    let bytes = spec_slab_bytes(orders);
    assert(bytes.len() == slab.len());
    assert forall|j: int| 0 <= j < slab.len() implies bytes[j] == slab[j] by {
        let i = j / 17;
        let t = j % 17;
        assert(0 <= i < slab.len() / 17);
        let field = spec_slot_field(slab, i);
        assert(spec_slot(field) is Some);
        lemma_bytes_of_slot(field);
        assert(field[t] == slab[17 * i + t]);
    }
    assert(bytes =~= slab);
}

/// A serialized user account decodes to the account it was made from.
pub proof fn lemma_user_account_parse_serialize(account: UserAccountView)
    requires
        account.wf(),
    ensures
        UserAccountView::parse(account.serialize()) == Ok::<UserAccountView, DexError>(account),
{
    let bytes = account.serialize();
    lemma_le_bytes_len(account.base_token_free as nat, 8);
    lemma_le_bytes_len(account.base_token_locked as nat, 8);
    lemma_le_bytes_len(account.quote_token_free as nat, 8);
    lemma_le_bytes_len(account.quote_token_locked as nat, 8);
    lemma_radix_values();
    lemma_le_value_of_bytes(account.base_token_free as nat, 8);
    lemma_le_value_of_bytes(account.base_token_locked as nat, 8);
    lemma_le_value_of_bytes(account.quote_token_free as nat, 8);
    lemma_le_value_of_bytes(account.quote_token_locked as nat, 8);
    lemma_slab_of_bytes(account.orders);
    assert(bytes.subrange(1, 33) =~= account.market);
    assert(bytes.subrange(33, 65) =~= account.owner);
    assert(bytes.subrange(65, 73) =~= le_bytes(account.base_token_free as nat, 8));
    assert(bytes.subrange(73, 81) =~= le_bytes(account.base_token_locked as nat, 8));
    assert(bytes.subrange(81, 89) =~= le_bytes(account.quote_token_free as nat, 8));
    assert(bytes.subrange(89, 97) =~= le_bytes(account.quote_token_locked as nat, 8));
    assert(bytes.skip(USER_ACCOUNT_HEADER_LEN as int) =~= spec_slab_bytes(account.orders));
}

/// A record of at least header length is its tag byte, its header fields and
/// its slab, one after the other.
proof fn lemma_record_parts(bytes: Seq<u8>)
    requires
        bytes.len() >= USER_ACCOUNT_HEADER_LEN,
    ensures
        seq![bytes[0]] + bytes.subrange(1, 33) + bytes.subrange(33, 65) + bytes.subrange(65, 73)
            + bytes.subrange(73, 81) + bytes.subrange(81, 89) + bytes.subrange(89, 97)
            + bytes.skip(USER_ACCOUNT_HEADER_LEN as int) == bytes,
{
    assert(seq![bytes[0]] + bytes.subrange(1, 33) + bytes.subrange(33, 65) + bytes.subrange(65, 73)
        + bytes.subrange(73, 81) + bytes.subrange(81, 89) + bytes.subrange(89, 97) + bytes.skip(
        USER_ACCOUNT_HEADER_LEN as int,
    ) =~= bytes);
}

/// An eight-byte field is the encoding of the `u64` it decodes to.
proof fn lemma_u64_field(field: Seq<u8>)
    requires
        field.len() == 8,
    ensures
        le_bytes((le_value(field) as u64) as nat, 8) == field,
{
    lemma_le_bytes_of_value(field);
    lemma_le_value_bound(field);
    lemma_radix_values();
}

/// The bytes that decode to a user account are the encoding of that account:
/// to persist what was just parsed changes no byte.
pub proof fn lemma_user_account_serialize_parse(bytes: Seq<u8>)
    requires
        UserAccountView::parse(bytes) is Ok,
    ensures
        UserAccountView::parse(bytes)->Ok_0.wf(),
        UserAccountView::parse(bytes)->Ok_0.serialize() == bytes,
{
    let account = UserAccountView::parse(bytes)->Ok_0;
    let slab = bytes.skip(USER_ACCOUNT_HEADER_LEN as int);
    lemma_u64_field(bytes.subrange(65, 73));
    lemma_u64_field(bytes.subrange(73, 81));
    lemma_u64_field(bytes.subrange(81, 89));
    lemma_u64_field(bytes.subrange(89, 97));
    lemma_bytes_of_slab(slab);
    lemma_record_parts(bytes);
}

} // verus!
