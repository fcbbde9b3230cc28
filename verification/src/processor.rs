//! The instruction router and the handlers it dispatches to.
use vstd::prelude::*;

use crate::account::Account;
use crate::error::DexError;
use crate::instruction::DexInstruction;
use crate::instruction::DexInstructionView;
use crate::key::Key;
use crate::processor::cancel_order::spec_process_post;
use crate::processor::cancel_order::PendingCancel;

pub mod cancel_order;

verus! {

/// Where an instruction was sent. A cancellation is validated on the spot;
/// the other instructions go to their handlers with their arguments.
#[derive(Debug)]
pub enum Dispatch {
    CreateMarket(Vec<u8>),
    NewOrder(Vec<u8>),
    ConsumeEvents(Vec<u8>),
    CancelOrder(PendingCancel),
    Settle(Vec<u8>),
}

/// The router of the program's instructions.
pub struct Processor {}

impl Processor {
    /// What `process_instruction` returns on the given input. A payload that
    /// does not decode is rejected whatever the accounts are.
    pub open spec fn spec_process_instruction_post(
        program_id: Seq<u8>,
        accounts: Seq<Account>,
        instruction_data: Seq<u8>,
        r: Result<Dispatch, DexError>,
    ) -> bool {
        match DexInstructionView::try_from_slice(instruction_data) {
            Err(e) => r == Err::<Dispatch, DexError>(e),
            Ok(DexInstructionView::CreateMarket(args)) => r matches Ok(Dispatch::CreateMarket(a))
                && a@ == args,
            Ok(DexInstructionView::NewOrder(args)) => r matches Ok(Dispatch::NewOrder(a)) && a@
                == args,
            Ok(DexInstructionView::ConsumeEvents(args)) => r matches Ok(
                Dispatch::ConsumeEvents(a),
            ) && a@ == args,
            Ok(DexInstructionView::Settle(args)) => r matches Ok(Dispatch::Settle(a)) && a@
                == args,
            Ok(DexInstructionView::CancelOrder(params)) => match r {
                Ok(Dispatch::CancelOrder(pending)) => spec_process_post(
                    program_id,
                    accounts,
                    params.order_index,
                    Ok(pending),
                ),
                Ok(_) => false,
                Err(e) => spec_process_post(program_id, accounts, params.order_index, Err(e)),
            },
        }
    }

    /// Decodes the payload of an instruction and dispatches on its tag.
    pub fn process_instruction(
        program_id: &Key,
        accounts: &[Account],
        instruction_data: &[u8],
    ) -> (r: Result<Dispatch, DexError>)
        ensures
            Self::spec_process_instruction_post(program_id@, accounts@, instruction_data@, r),
    {
        match DexInstruction::try_from_slice(instruction_data)? {
            DexInstruction::CreateMarket(args) => Ok(Dispatch::CreateMarket(args)),
            DexInstruction::NewOrder(args) => Ok(Dispatch::NewOrder(args)),
            DexInstruction::ConsumeEvents(args) => Ok(Dispatch::ConsumeEvents(args)),
            DexInstruction::CancelOrder(params) => Ok(
                Dispatch::CancelOrder(cancel_order::process(program_id, accounts, params)?),
            ),
            DexInstruction::Settle(args) => Ok(Dispatch::Settle(args)),
        }
    }
}

} // verus!
