//! Instruction model and dispatch decisions for a host-function fuzzing
//! contract: the value word that crosses the host boundary, the catalogue
//! of host functions, the raw and typed instruction tiers, and the
//! rule that turns an instruction into the exact host call it stands for.

pub mod catalogue;
pub mod fixture;
pub mod handle;
pub mod operand;
pub mod outcome;
pub mod raw;
pub mod shape;
pub mod typed;
pub mod word;

use crate::catalogue::HostFn;
use crate::operand::{tags_agree, words_of, HostCall, Operand};
use crate::raw::RawFuzzInstruction;
use crate::typed::TypedFuzzInstruction;
use vstd::prelude::*;

verus! {

/// An instruction of either tier.
#[derive(Clone, Copy, Debug, PartialEq, Eq)]
pub enum FuzzInstruction {
    Raw(RawFuzzInstruction),
    Typed(TypedFuzzInstruction),
}

impl FuzzInstruction {
    /// The host function the instruction calls.
    pub open spec fn opcode(self) -> HostFn {
        match self {
            FuzzInstruction::Raw(i) => i.opcode(),
            FuzzInstruction::Typed(i) => i.opcode(),
        }
    }

    /// The instruction's operands, in slot order.
    pub open spec fn operands(self) -> Seq<Operand> {
        match self {
            FuzzInstruction::Raw(i) => i.operands(),
            FuzzInstruction::Typed(i) => i.operands(),
        }
    }

    /// The host call that the instruction stands for, with each operand
    /// coerced by the rule of its tier.
    pub fn host_call(&self) -> (r: HostCall)
        ensures
            r.function == self.opcode(),
            r.args@ == words_of(self.operands()),
            self is Typed ==> tags_agree(self.operands()),
    {
        match self {
            FuzzInstruction::Raw(i) => i.host_call(),
            FuzzInstruction::Typed(i) => i.host_call(),
        }
    }
}

/// The contract through which instructions reach the host: it turns each
/// instruction into one host call and takes no decision of its own.
pub struct FuzzContract;

impl FuzzContract {
    /// The one host call that running `fuzz_instruction` makes.
    pub fn dispatch(fuzz_instruction: &FuzzInstruction) -> (r: HostCall)
        ensures
            r.function == fuzz_instruction.opcode(),
            r.args@ == words_of(fuzz_instruction.operands()),
    {
        fuzz_instruction.host_call()
    }
}

} // verus!
