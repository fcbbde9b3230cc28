//! The instructions of the program and their payloads.
//!
//! A payload is one tag byte followed by the arguments of the instruction.
//! The arguments of a cancellation are decoded here. Those of the other
//! instructions belong to their handlers and are handed on as they came.
use vstd::prelude::*;

use crate::error::view_ok;
use crate::error::DexError;
use crate::processor::cancel_order::Params;
use crate::wire::le_bytes;
use crate::wire::lemma_le_bytes_len;
use crate::wire::lemma_le_bytes_of_value;
use crate::wire::lemma_le_value_bound;
use crate::wire::lemma_le_value_of_bytes;
use crate::wire::lemma_radix_values;

verus! {

/// An instruction, told apart by its tag.
#[derive(Debug)]
pub enum DexInstruction {
    /// Tag 0, with its undecoded arguments.
    CreateMarket(Vec<u8>),
    /// Tag 1, with its undecoded arguments.
    NewOrder(Vec<u8>),
    /// Tag 2, with its undecoded arguments.
    ConsumeEvents(Vec<u8>),
    /// Tag 3.
    CancelOrder(Params),
    /// Tag 4, with its undecoded arguments.
    Settle(Vec<u8>),
}

/// An instruction as a mathematical value.
pub enum DexInstructionView {
    CreateMarket(Seq<u8>),
    NewOrder(Seq<u8>),
    ConsumeEvents(Seq<u8>),
    CancelOrder(Params),
    Settle(Seq<u8>),
}

impl View for DexInstruction {
    type V = DexInstructionView;

    open spec fn view(&self) -> DexInstructionView {
        match self {
            DexInstruction::CreateMarket(args) => DexInstructionView::CreateMarket(args@),
            DexInstruction::NewOrder(args) => DexInstructionView::NewOrder(args@),
            DexInstruction::ConsumeEvents(args) => DexInstructionView::ConsumeEvents(args@),
            DexInstruction::CancelOrder(params) => DexInstructionView::CancelOrder(*params),
            DexInstruction::Settle(args) => DexInstructionView::Settle(args@),
        }
    }
}

impl DexInstructionView {
    /// The instruction that a payload holds. An empty payload, an unknown
    /// tag, and a cancellation whose arguments are not exactly one order
    /// index are malformed.
    pub open spec fn try_from_slice(data: Seq<u8>) -> Result<DexInstructionView, DexError> {
        if data.len() == 0 {
            Err(DexError::InvalidInstructionData)
        } else if data[0] == 0 {
            Ok(DexInstructionView::CreateMarket(data.skip(1)))
        } else if data[0] == 1 {
            Ok(DexInstructionView::NewOrder(data.skip(1)))
        } else if data[0] == 2 {
            Ok(DexInstructionView::ConsumeEvents(data.skip(1)))
        } else if data[0] == 3 {
            match Params::spec_try_from_slice(data.skip(1)) {
                Ok(params) => Ok(DexInstructionView::CancelOrder(params)),
                Err(e) => Err(e),
            }
        } else if data[0] == 4 {
            Ok(DexInstructionView::Settle(data.skip(1)))
        } else {
            Err(DexError::InvalidInstructionData)
        }
    }

    /// The payload of an instruction: its tag, then its arguments.
    pub open spec fn try_to_vec(self) -> Seq<u8> {
        match self {
            DexInstructionView::CreateMarket(args) => seq![0u8] + args,
            DexInstructionView::NewOrder(args) => seq![1u8] + args,
            DexInstructionView::ConsumeEvents(args) => seq![2u8] + args,
            DexInstructionView::CancelOrder(params) => seq![3u8] + params.spec_try_to_vec(),
            DexInstructionView::Settle(args) => seq![4u8] + args,
        }
    }
}

/// Copies the arguments that follow the tag byte.
fn arguments(data: &[u8]) -> (args: Vec<u8>)
    requires
        data@.len() >= 1,
    ensures
        args@ == data@.skip(1),
{
    let rest = vstd::slice::slice_subrange(data, 1, data.len());
    vstd::slice::slice_to_vec(rest)
}

impl DexInstruction {
    /// Decodes a payload.
    pub fn try_from_slice(data: &[u8]) -> (r: Result<DexInstruction, DexError>)
        ensures
            view_ok(r) == DexInstructionView::try_from_slice(data@),
    {
        if data.len() == 0 {
            return Err(DexError::InvalidInstructionData);
        }
        let tag: u8 = data[0];
        if tag == 0 {
            Ok(DexInstruction::CreateMarket(arguments(data)))
        } else if tag == 1 {
            Ok(DexInstruction::NewOrder(arguments(data)))
        } else if tag == 2 {
            Ok(DexInstruction::ConsumeEvents(arguments(data)))
        } else if tag == 3 {
            let rest = vstd::slice::slice_subrange(data, 1, data.len());
            Ok(DexInstruction::CancelOrder(Params::try_from_slice(rest)?))
        } else if tag == 4 {
            Ok(DexInstruction::Settle(arguments(data)))
        } else {
            Err(DexError::InvalidInstructionData)
        }
    }

    /// Encodes the instruction as a payload; the payload decodes to the
    /// instruction again.
    pub fn try_to_vec(&self) -> (out: Vec<u8>)
        ensures
            out@ == self@.try_to_vec(),
            DexInstructionView::try_from_slice(out@) == Ok::<DexInstructionView, DexError>(self@),
    {
        proof {
            lemma_instruction_decode_encode(self@);
        }
        let mut out: Vec<u8> = Vec::new();
        let mut args: Vec<u8> = match self {
            DexInstruction::CreateMarket(args) => {
                out.push(0);
                vstd::slice::slice_to_vec(args.as_slice())
            },
            DexInstruction::NewOrder(args) => {
                out.push(1);
                vstd::slice::slice_to_vec(args.as_slice())
            },
            DexInstruction::ConsumeEvents(args) => {
                out.push(2);
                vstd::slice::slice_to_vec(args.as_slice())
            },
            DexInstruction::CancelOrder(params) => {
                out.push(3);
                params.try_to_vec()
            },
            DexInstruction::Settle(args) => {
                out.push(4);
                vstd::slice::slice_to_vec(args.as_slice())
            },
        };
        out.append(&mut args);
        assert(out@ =~= self@.try_to_vec());
        out
    }
}

/// A payload decodes to the instruction it was made from.
pub proof fn lemma_instruction_decode_encode(instruction: DexInstructionView)
    ensures
        DexInstructionView::try_from_slice(instruction.try_to_vec()) == Ok::<
            DexInstructionView,
            DexError,
        >(instruction),
{
    let data = instruction.try_to_vec();
    match instruction {
        DexInstructionView::CreateMarket(args) => {
            assert(data.skip(1) =~= args);
        },
        DexInstructionView::NewOrder(args) => {
            assert(data.skip(1) =~= args);
        },
        DexInstructionView::ConsumeEvents(args) => {
            assert(data.skip(1) =~= args);
        },
        DexInstructionView::CancelOrder(params) => {
            lemma_le_bytes_len(params.order_index as nat, 8);
            lemma_radix_values();
            lemma_le_value_of_bytes(params.order_index as nat, 8);
            assert(data.skip(1) =~= le_bytes(params.order_index as nat, 8));
        },
        DexInstructionView::Settle(args) => {
            assert(data.skip(1) =~= args);
        },
    }
}

/// A payload that decodes is the encoding of what it decodes to: no two
/// payloads stand for the same instruction.
pub proof fn lemma_instruction_encode_decode(data: Seq<u8>)
    requires
        DexInstructionView::try_from_slice(data) is Ok,
    ensures
        DexInstructionView::try_from_slice(data)->Ok_0.try_to_vec() == data,
{
    let instruction = DexInstructionView::try_from_slice(data)->Ok_0;
    if data[0] == 3 {
        lemma_le_bytes_of_value(data.skip(1));
        lemma_le_value_bound(data.skip(1));
        lemma_radix_values();
    }
    assert(seq![data[0]] + data.skip(1) =~= data);
}

} // verus!
