//! The result register of the matching engine.
//!
//! The engine answers a request by writing one summary into a fixed slot of
//! the region it shares with its callers. The slot is a mailbox for a single
//! message: a summary is read once, by the instruction that asked for it, and
//! the next request overwrites it.
use vstd::prelude::*;

use crate::error::Fault;
use crate::order_id::Side;

verus! {

/// What the engine reports of one request: the side of the order and the
/// quantities that the request left unfilled.
#[derive(Clone, Copy, Debug, PartialEq, Eq, Structural)]
pub struct OrderSummary {
    /// The side the engine filed the order under.
    pub side: Side,
    /// Unfilled quantity of the base asset.
    pub total_asset_qty: u64,
    /// Unfilled quantity of the quote asset.
    pub total_quote_qty: u64,
}

/// The single-slot mailbox that holds the engine's latest summary.
#[derive(Clone, Copy, Debug, PartialEq, Eq, Structural)]
pub struct ResultRegister {
    slot: Option<OrderSummary>,
}

impl View for ResultRegister {
    type V = Option<OrderSummary>;

    /// The pending summary, if there is one.
    closed spec fn view(&self) -> Option<OrderSummary> {
        self.slot
    }
}

impl ResultRegister {
    /// A register that no request has populated.
    pub fn new() -> (register: ResultRegister)
        ensures
            register@ is None,
    {
        ResultRegister { slot: None }
    }

    /// Stores the summary of a request, replacing what the slot held.
    pub fn post(&mut self, summary: OrderSummary)
        ensures
            final(self)@ == Some(summary),
    {
        self.slot = Some(summary);
    }

    /// The pending summary, left in place.
    pub fn peek(&self) -> (r: Option<OrderSummary>)
        ensures
            r == self@,
    {
        self.slot
    }

    /// Takes the pending summary out of the register. After the call the
    /// register is empty, so that no summary is ever read twice. Reading an
    /// empty register is an error and never yields a stale value.
    pub fn take(&mut self) -> (r: Result<OrderSummary, Fault>)
        ensures
            final(self)@ is None,
            r == match old(self)@ {
                Some(summary) => Ok::<OrderSummary, Fault>(summary),
                None => Err(Fault::RegisterEmpty),
            },
    {
        match self.slot {
            Some(summary) => {
                self.slot = None;
                Ok(summary)
            },
            None => Err(Fault::RegisterEmpty),
        }
    }
}

} // verus!
