//! Order identifiers as the matching engine issues them.
//!
//! An identifier is one unsigned integer. A single bit tells the side of the
//! book the order rests on; the other bits are the engine's own composite of
//! price and sequence number and mean nothing to this layer.
use vstd::prelude::*;

verus! {

/// The bit of an order identifier that tells its side.
pub const SIDE_FLAG: u128 = 0x8000_0000_0000_0000;

/// A side of the order book.
#[derive(Clone, Copy, Debug, PartialEq, Eq, Structural)]
pub enum Side {
    /// An offer to buy the base asset: it locks quote funds.
    Bid,
    /// An offer to sell the base asset: it locks base funds.
    Ask,
}

impl Side {
    /// The other side of the book.
    pub open spec fn opposite(self) -> Side {
        match self {
            Side::Bid => Side::Ask,
            Side::Ask => Side::Bid,
        }
    }
}

/// The side that an identifier is tagged with: bid when the flag is set.
pub open spec fn spec_side(order_id: u128) -> Side {
    if order_id & SIDE_FLAG != 0 {
        Side::Bid
    } else {
        Side::Ask
    }
}

/// The identifier without its side flag.
pub open spec fn spec_composite(order_id: u128) -> u128 {
    order_id & !SIDE_FLAG
}

/// The identifier that carries `composite` and is tagged with `side`.
pub open spec fn spec_pack(side: Side, composite: u128) -> u128 {
    match side {
        Side::Bid => composite | SIDE_FLAG,
        Side::Ask => composite & !SIDE_FLAG,
    }
}

/// Tells the side of an order from its identifier.
pub fn get_side_from_order_id(order_id: u128) -> (side: Side)
    ensures
        side == spec_side(order_id),
{
    if order_id & SIDE_FLAG != 0 {
        Side::Bid
    } else {
        Side::Ask
    }
}

/// Strips the side flag from an identifier.
pub fn composite_of(order_id: u128) -> (composite: u128)
    ensures
        composite == spec_composite(order_id),
{
    order_id & !SIDE_FLAG
}

/// Packs a side and the engine's composite into one identifier. A flag bit
/// that `composite` may carry is overwritten.
pub fn pack(side: Side, composite: u128) -> (order_id: u128)
    ensures
        order_id == spec_pack(side, composite),
        spec_side(order_id) == side,
        spec_composite(order_id) == spec_composite(composite),
{
    proof {
        lemma_pack_unpack(side, composite);
    }
    match side {
        Side::Bid => composite | SIDE_FLAG,
        Side::Ask => composite & !SIDE_FLAG,
    }
}

/// Packing then reading gives back the side, and the composite up to its own
/// flag bit.
pub proof fn lemma_pack_unpack(side: Side, composite: u128)
    ensures
        spec_side(spec_pack(side, composite)) == side,
        spec_composite(spec_pack(side, composite)) == spec_composite(composite),
{
    let flag = SIDE_FLAG;
    assert((composite | flag) & flag != 0) by (bit_vector)
        requires
            flag == 0x8000_0000_0000_0000u128,
    ;
    assert((composite & !flag) & flag == 0) by (bit_vector);
    assert((composite | flag) & !flag == composite & !flag) by (bit_vector);
    assert((composite & !flag) & !flag == composite & !flag) by (bit_vector);
}

/// An identifier is the packing of its own side and composite.
pub proof fn lemma_unpack_pack(order_id: u128)
    ensures
        spec_pack(spec_side(order_id), spec_composite(order_id)) == order_id,
{
    let flag = SIDE_FLAG;
    assert(order_id & flag != 0 ==> (order_id & !flag) | flag == order_id) by (bit_vector)
        requires
            flag == 0x8000_0000_0000_0000u128,
    ;
    assert(order_id & flag == 0 ==> (order_id & !flag) & !flag == order_id) by (bit_vector);
}

} // verus!
