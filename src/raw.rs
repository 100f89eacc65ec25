//! The raw tier: every value-word operand is a bare word, passed to the
//! host bit for bit whatever its tag, so that the host meets ill-typed and
//! corrupted words as well as good ones.

use crate::catalogue::{HostFn, Module};
use crate::operand::{coerce_all, conforms_raw, raw_conforms, words_of, HostCall, Operand};
use crate::word::FakeVal;
use vstd::prelude::*;

verus! {

/// An instruction of the raw tier: a module, and in it one host function
/// with its operands. `Test` is the marker that calls the host's no-op
/// function, `dummy0`.
#[derive(Clone, Copy, Debug, PartialEq, Eq)]
pub enum RawFuzzInstruction {
    Address(RawModAddress),
    Buf(RawModBuf),
    Call(RawModCall),
    Context(RawModContext),
    Crypto(RawModCrypto),
    Int(RawModInt),
    Ledger(RawModLedger),
    Maps(RawModMap),
    Prng(RawModPrng),
    Test,
    Vec(RawModVec),
}

impl RawFuzzInstruction {
    /// The host function the instruction calls.
    pub open spec fn opcode(self) -> HostFn {
        match self {
            RawFuzzInstruction::Address(m) => m.opcode(),
            RawFuzzInstruction::Buf(m) => m.opcode(),
            RawFuzzInstruction::Call(m) => m.opcode(),
            RawFuzzInstruction::Context(m) => m.opcode(),
            RawFuzzInstruction::Crypto(m) => m.opcode(),
            RawFuzzInstruction::Int(m) => m.opcode(),
            RawFuzzInstruction::Ledger(m) => m.opcode(),
            RawFuzzInstruction::Maps(m) => m.opcode(),
            RawFuzzInstruction::Prng(m) => m.opcode(),
            RawFuzzInstruction::Vec(m) => m.opcode(),
            RawFuzzInstruction::Test => HostFn::Dummy0,
        }
    }

    /// The module the instruction belongs to.
    pub open spec fn module(self) -> Module {
        match self {
            RawFuzzInstruction::Address(_) => Module::Address,
            RawFuzzInstruction::Buf(_) => Module::Buf,
            RawFuzzInstruction::Call(_) => Module::Call,
            RawFuzzInstruction::Context(_) => Module::Context,
            RawFuzzInstruction::Crypto(_) => Module::Crypto,
            RawFuzzInstruction::Int(_) => Module::Int,
            RawFuzzInstruction::Ledger(_) => Module::Ledger,
            RawFuzzInstruction::Maps(_) => Module::Maps,
            RawFuzzInstruction::Prng(_) => Module::Prng,
            RawFuzzInstruction::Vec(_) => Module::Vec,
            RawFuzzInstruction::Test => Module::Test,
        }
    }

    /// The instruction's operands, in slot order.
    pub open spec fn operands(self) -> Seq<Operand> {
        match self {
            RawFuzzInstruction::Address(m) => m.operands(),
            RawFuzzInstruction::Buf(m) => m.operands(),
            RawFuzzInstruction::Call(m) => m.operands(),
            RawFuzzInstruction::Context(m) => m.operands(),
            RawFuzzInstruction::Crypto(m) => m.operands(),
            RawFuzzInstruction::Int(m) => m.operands(),
            RawFuzzInstruction::Ledger(m) => m.operands(),
            RawFuzzInstruction::Maps(m) => m.operands(),
            RawFuzzInstruction::Prng(m) => m.operands(),
            RawFuzzInstruction::Vec(m) => m.operands(),
            RawFuzzInstruction::Test => Seq::empty(),
        }
    }

    /// The instruction that calls `f` with the operands `ops`, if `ops`
    /// fit the parameters of `f`.
    pub open spec fn spec_from_parts(f: HostFn, ops: Seq<Operand>) -> Option<RawFuzzInstruction> {
        match f.module() {
            Module::Address => match RawModAddress::spec_from_parts(f, ops) {
                Some(m) => Some(RawFuzzInstruction::Address(m)),
                None => None,
            },
            Module::Buf => match RawModBuf::spec_from_parts(f, ops) {
                Some(m) => Some(RawFuzzInstruction::Buf(m)),
                None => None,
            },
            Module::Call => match RawModCall::spec_from_parts(f, ops) {
                Some(m) => Some(RawFuzzInstruction::Call(m)),
                None => None,
            },
            Module::Context => match RawModContext::spec_from_parts(f, ops) {
                Some(m) => Some(RawFuzzInstruction::Context(m)),
                None => None,
            },
            Module::Crypto => match RawModCrypto::spec_from_parts(f, ops) {
                Some(m) => Some(RawFuzzInstruction::Crypto(m)),
                None => None,
            },
            Module::Int => match RawModInt::spec_from_parts(f, ops) {
                Some(m) => Some(RawFuzzInstruction::Int(m)),
                None => None,
            },
            Module::Ledger => match RawModLedger::spec_from_parts(f, ops) {
                Some(m) => Some(RawFuzzInstruction::Ledger(m)),
                None => None,
            },
            Module::Maps => match RawModMap::spec_from_parts(f, ops) {
                Some(m) => Some(RawFuzzInstruction::Maps(m)),
                None => None,
            },
            Module::Prng => match RawModPrng::spec_from_parts(f, ops) {
                Some(m) => Some(RawFuzzInstruction::Prng(m)),
                None => None,
            },
            Module::Vec => match RawModVec::spec_from_parts(f, ops) {
                Some(m) => Some(RawFuzzInstruction::Vec(m)),
                None => None,
            },
            Module::Test => if raw_conforms(f.params(), ops) {
                Some(RawFuzzInstruction::Test)
            } else {
                None
            },
        }
    }

    /// The host function the instruction calls.
    pub fn host_fn(&self) -> (r: HostFn)
        ensures
            r == self.opcode(),
    {
        match self {
            RawFuzzInstruction::Address(m) => m.host_fn(),
            RawFuzzInstruction::Buf(m) => m.host_fn(),
            RawFuzzInstruction::Call(m) => m.host_fn(),
            RawFuzzInstruction::Context(m) => m.host_fn(),
            RawFuzzInstruction::Crypto(m) => m.host_fn(),
            RawFuzzInstruction::Int(m) => m.host_fn(),
            RawFuzzInstruction::Ledger(m) => m.host_fn(),
            RawFuzzInstruction::Maps(m) => m.host_fn(),
            RawFuzzInstruction::Prng(m) => m.host_fn(),
            RawFuzzInstruction::Vec(m) => m.host_fn(),
            RawFuzzInstruction::Test => HostFn::Dummy0,
        }
    }

    /// The instruction's operands, in slot order.
    pub fn operand_list(&self) -> (r: Vec<Operand>)
        ensures
            r@ == self.operands(),
    {
        match self {
            RawFuzzInstruction::Address(m) => m.operand_list(),
            RawFuzzInstruction::Buf(m) => m.operand_list(),
            RawFuzzInstruction::Call(m) => m.operand_list(),
            RawFuzzInstruction::Context(m) => m.operand_list(),
            RawFuzzInstruction::Crypto(m) => m.operand_list(),
            RawFuzzInstruction::Int(m) => m.operand_list(),
            RawFuzzInstruction::Ledger(m) => m.operand_list(),
            RawFuzzInstruction::Maps(m) => m.operand_list(),
            RawFuzzInstruction::Prng(m) => m.operand_list(),
            RawFuzzInstruction::Vec(m) => m.operand_list(),
            RawFuzzInstruction::Test => Vec::new(),
        }
    }

    /// The host call that the instruction stands for: its function, and
    /// each operand coerced, in slot order, into the word the host gets.
    pub fn host_call(&self) -> (r: HostCall)
        ensures
            r.function == self.opcode(),
            r.args@ == words_of(self.operands()),
    {
        let ops = self.operand_list();
        HostCall { function: self.host_fn(), args: coerce_all(&ops) }
    }
}

/// A decoded instruction before it is checked against the catalogue: the
/// host function picked, and the operands decoded for its slots.
#[derive(Clone, Debug, PartialEq, Eq)]
pub struct RawFuzzInstructionPrototype {
    pub function: HostFn,
    pub operands: Vec<Operand>,
}

impl RawFuzzInstructionPrototype {
    /// The instruction that calls the picked function with the decoded
    /// operands, in the same slot order; `None` when the operands do not
    /// fit the function's parameters.
    pub fn to_guest(&self) -> (r: Option<RawFuzzInstruction>)
        ensures
            r == RawFuzzInstruction::spec_from_parts(self.function, self.operands@),
            r is Some <==> raw_conforms(self.function.params(), self.operands@),
            r matches Some(i) ==> i.opcode() == self.function && i.operands() == self.operands@,
    {
        let f = self.function;
        let ops = &self.operands;
        let r = match f.module_of() {
            Module::Address => match RawModAddress::from_parts(f, ops) {
                Some(m) => Some(RawFuzzInstruction::Address(m)),
                None => None,
            },
            Module::Buf => match RawModBuf::from_parts(f, ops) {
                Some(m) => Some(RawFuzzInstruction::Buf(m)),
                None => None,
            },
            Module::Call => match RawModCall::from_parts(f, ops) {
                Some(m) => Some(RawFuzzInstruction::Call(m)),
                None => None,
            },
            Module::Context => match RawModContext::from_parts(f, ops) {
                Some(m) => Some(RawFuzzInstruction::Context(m)),
                None => None,
            },
            Module::Crypto => match RawModCrypto::from_parts(f, ops) {
                Some(m) => Some(RawFuzzInstruction::Crypto(m)),
                None => None,
            },
            Module::Int => match RawModInt::from_parts(f, ops) {
                Some(m) => Some(RawFuzzInstruction::Int(m)),
                None => None,
            },
            Module::Ledger => match RawModLedger::from_parts(f, ops) {
                Some(m) => Some(RawFuzzInstruction::Ledger(m)),
                None => None,
            },
            Module::Maps => match RawModMap::from_parts(f, ops) {
                Some(m) => Some(RawFuzzInstruction::Maps(m)),
                None => None,
            },
            Module::Prng => match RawModPrng::from_parts(f, ops) {
                Some(m) => Some(RawFuzzInstruction::Prng(m)),
                None => None,
            },
            Module::Vec => match RawModVec::from_parts(f, ops) {
                Some(m) => Some(RawFuzzInstruction::Vec(m)),
                None => None,
            },
            Module::Test => if conforms_raw(&f.param_list(), ops) {
                Some(RawFuzzInstruction::Test)
            } else {
                None
            },
        };
        proof {
            if raw_conforms(f.params(), ops@) {
                lemma_raw_exists(f, ops@);
            } else {
                lemma_raw_refuses(f, ops@);
            }
        }
        r
    }
}

/// The raw tier's instructions of the `address` module: one per host function.
#[derive(Clone, Copy, Debug, PartialEq, Eq)]
pub enum RawModAddress {
    AddressToStrkey(FakeVal),
    AuthorizeAsCurrContract(FakeVal),
    GetAddressExecutable(FakeVal),
    GetAddressFromMuxedAddress(FakeVal),
    GetIdFromMuxedAddress(FakeVal),
    RequireAuth(FakeVal),
    RequireAuthForArgs(FakeVal, FakeVal),
    StrkeyToAddress(FakeVal),
}

impl RawModAddress {
    /// The host function the instruction calls.
    pub open spec fn opcode(self) -> HostFn {
        match self {
            RawModAddress::AddressToStrkey(..) => HostFn::AddressToStrkey,
            RawModAddress::AuthorizeAsCurrContract(..) => HostFn::AuthorizeAsCurrContract,
            RawModAddress::GetAddressExecutable(..) => HostFn::GetAddressExecutable,
            RawModAddress::GetAddressFromMuxedAddress(..) => HostFn::GetAddressFromMuxedAddress,
            RawModAddress::GetIdFromMuxedAddress(..) => HostFn::GetIdFromMuxedAddress,
            RawModAddress::RequireAuth(..) => HostFn::RequireAuth,
            RawModAddress::RequireAuthForArgs(..) => HostFn::RequireAuthForArgs,
            RawModAddress::StrkeyToAddress(..) => HostFn::StrkeyToAddress,
        }
    }

    /// The instruction's operands, in slot order.
    pub open spec fn operands(self) -> Seq<Operand> {
        match self {
            RawModAddress::AddressToStrkey(a0) => seq![Operand::Word(a0)],
            RawModAddress::AuthorizeAsCurrContract(a0) => seq![Operand::Word(a0)],
            RawModAddress::GetAddressExecutable(a0) => seq![Operand::Word(a0)],
            RawModAddress::GetAddressFromMuxedAddress(a0) => seq![Operand::Word(a0)],
            RawModAddress::GetIdFromMuxedAddress(a0) => seq![Operand::Word(a0)],
            RawModAddress::RequireAuth(a0) => seq![Operand::Word(a0)],
            RawModAddress::RequireAuthForArgs(a0, a1) => seq![Operand::Word(a0), Operand::Word(a1)],
            RawModAddress::StrkeyToAddress(a0) => seq![Operand::Word(a0)],
        }
    }

    /// The instruction of this module that calls `f` with the operands
    /// `ops`, if `f` is in this module and `ops` fit its parameters.
    pub open spec fn spec_from_parts(f: HostFn, ops: Seq<Operand>) -> Option<RawModAddress> {
        if !(raw_conforms(f.params(), ops)) {
            None
        } else {
            match f {
                HostFn::AddressToStrkey => Some(RawModAddress::AddressToStrkey(ops[0].word_part())),
                HostFn::AuthorizeAsCurrContract => Some(RawModAddress::AuthorizeAsCurrContract(ops[0].word_part())),
                HostFn::GetAddressExecutable => Some(RawModAddress::GetAddressExecutable(ops[0].word_part())),
                HostFn::GetAddressFromMuxedAddress => Some(RawModAddress::GetAddressFromMuxedAddress(ops[0].word_part())),
                HostFn::GetIdFromMuxedAddress => Some(RawModAddress::GetIdFromMuxedAddress(ops[0].word_part())),
                HostFn::RequireAuth => Some(RawModAddress::RequireAuth(ops[0].word_part())),
                HostFn::RequireAuthForArgs => Some(RawModAddress::RequireAuthForArgs(ops[0].word_part(), ops[1].word_part())),
                HostFn::StrkeyToAddress => Some(RawModAddress::StrkeyToAddress(ops[0].word_part())),
                _ => None,
            }
        }
    }

    /// The host function the instruction calls.
    pub fn host_fn(&self) -> (r: HostFn)
        ensures
            r == self.opcode(),
    {
        match self {
            RawModAddress::AddressToStrkey(..) => HostFn::AddressToStrkey,
            RawModAddress::AuthorizeAsCurrContract(..) => HostFn::AuthorizeAsCurrContract,
            RawModAddress::GetAddressExecutable(..) => HostFn::GetAddressExecutable,
            RawModAddress::GetAddressFromMuxedAddress(..) => HostFn::GetAddressFromMuxedAddress,
            RawModAddress::GetIdFromMuxedAddress(..) => HostFn::GetIdFromMuxedAddress,
            RawModAddress::RequireAuth(..) => HostFn::RequireAuth,
            RawModAddress::RequireAuthForArgs(..) => HostFn::RequireAuthForArgs,
            RawModAddress::StrkeyToAddress(..) => HostFn::StrkeyToAddress,
        }
    }

    /// The instruction's operands, in slot order.
    pub fn operand_list(&self) -> (r: Vec<Operand>)
        ensures
            r@ == self.operands(),
    {
        let r = match self {
            RawModAddress::AddressToStrkey(a0) => vec![Operand::Word(*a0)],
            RawModAddress::AuthorizeAsCurrContract(a0) => vec![Operand::Word(*a0)],
            RawModAddress::GetAddressExecutable(a0) => vec![Operand::Word(*a0)],
            RawModAddress::GetAddressFromMuxedAddress(a0) => vec![Operand::Word(*a0)],
            RawModAddress::GetIdFromMuxedAddress(a0) => vec![Operand::Word(*a0)],
            RawModAddress::RequireAuth(a0) => vec![Operand::Word(*a0)],
            RawModAddress::RequireAuthForArgs(a0, a1) => vec![Operand::Word(*a0), Operand::Word(*a1)],
            RawModAddress::StrkeyToAddress(a0) => vec![Operand::Word(*a0)],
        };
        assert(r@ =~= self.operands());
        r
    }

    /// The instruction of this module that calls `f` with the operands
    /// `ops`, if `f` is in this module and `ops` fit its parameters.
    pub fn from_parts(f: HostFn, ops: &Vec<Operand>) -> (r: Option<RawModAddress>)
        ensures
            r == Self::spec_from_parts(f, ops@),
    {
        if !conforms_raw(&f.param_list(), ops) {
            return None;
        }
        match f {
            HostFn::AddressToStrkey => Some(RawModAddress::AddressToStrkey(ops[0].get_word())),
            HostFn::AuthorizeAsCurrContract => Some(RawModAddress::AuthorizeAsCurrContract(ops[0].get_word())),
            HostFn::GetAddressExecutable => Some(RawModAddress::GetAddressExecutable(ops[0].get_word())),
            HostFn::GetAddressFromMuxedAddress => Some(RawModAddress::GetAddressFromMuxedAddress(ops[0].get_word())),
            HostFn::GetIdFromMuxedAddress => Some(RawModAddress::GetIdFromMuxedAddress(ops[0].get_word())),
            HostFn::RequireAuth => Some(RawModAddress::RequireAuth(ops[0].get_word())),
            HostFn::RequireAuthForArgs => Some(RawModAddress::RequireAuthForArgs(ops[0].get_word(), ops[1].get_word())),
            HostFn::StrkeyToAddress => Some(RawModAddress::StrkeyToAddress(ops[0].get_word())),
            _ => None,
        }
    }
}

proof fn lemma_address_inverse(m: RawModAddress)
    ensures
        m.opcode().module() == Module::Address,
        raw_conforms(m.opcode().params(), m.operands()),
        RawModAddress::spec_from_parts(m.opcode(), m.operands()) == Some(m),
{
}

proof fn lemma_address_realizes(f: HostFn, ops: Seq<Operand>)
    requires
        f.module() == Module::Address,
        raw_conforms(f.params(), ops),
    ensures
        RawModAddress::spec_from_parts(f, ops) matches Some(m) && m.opcode() == f && m.operands() == ops,
{
    if ops.len() > 0 {
        assert(ops[0].raw_fits(f.params()[0]));
    }
    if ops.len() > 1 {
        assert(ops[1].raw_fits(f.params()[1]));
    }
    assert(RawModAddress::spec_from_parts(f, ops).unwrap().operands() =~= ops);
}

/// The raw tier's instructions of the `buf` module: one per host function.
#[derive(Clone, Copy, Debug, PartialEq, Eq)]
pub enum RawModBuf {
    BytesAppend(FakeVal, FakeVal),
    BytesBack(FakeVal),
    BytesCopyFromLinearMemory(FakeVal, u32, u32, u32),
    BytesCopyToLinearMemory(FakeVal, u32, u32, u32),
    BytesDel(FakeVal, u32),
    BytesFront(FakeVal),
    BytesGet(FakeVal, u32),
    BytesInsert(FakeVal, u32, u32),
    BytesLen(FakeVal),
    BytesNew,
    BytesNewFromLinearMemory(u32, u32),
    BytesPop(FakeVal),
    BytesPush(FakeVal, u32),
    BytesPut(FakeVal, u32, u32),
    BytesSlice(FakeVal, u32, u32),
    BytesToString(FakeVal),
    DeserializeFromBytes(FakeVal),
    SerializeToBytes(FakeVal),
    StringCopyToLinearMemory(FakeVal, u32, u32, u32),
    StringLen(FakeVal),
    StringNewFromLinearMemory(u32, u32),
    StringToBytes(FakeVal),
    SymbolCopyToLinearMemory(FakeVal, u32, u32, u32),
    SymbolIndexInLinearMemory(FakeVal, u32, u32),
    SymbolLen(FakeVal),
    SymbolNewFromLinearMemory(u32, u32),
}

impl RawModBuf {
    /// The host function the instruction calls.
    pub open spec fn opcode(self) -> HostFn {
        match self {
            RawModBuf::BytesAppend(..) => HostFn::BytesAppend,
            RawModBuf::BytesBack(..) => HostFn::BytesBack,
            RawModBuf::BytesCopyFromLinearMemory(..) => HostFn::BytesCopyFromLinearMemory,
            RawModBuf::BytesCopyToLinearMemory(..) => HostFn::BytesCopyToLinearMemory,
            RawModBuf::BytesDel(..) => HostFn::BytesDel,
            RawModBuf::BytesFront(..) => HostFn::BytesFront,
            RawModBuf::BytesGet(..) => HostFn::BytesGet,
            RawModBuf::BytesInsert(..) => HostFn::BytesInsert,
            RawModBuf::BytesLen(..) => HostFn::BytesLen,
            RawModBuf::BytesNew => HostFn::BytesNew,
            RawModBuf::BytesNewFromLinearMemory(..) => HostFn::BytesNewFromLinearMemory,
            RawModBuf::BytesPop(..) => HostFn::BytesPop,
            RawModBuf::BytesPush(..) => HostFn::BytesPush,
            RawModBuf::BytesPut(..) => HostFn::BytesPut,
            RawModBuf::BytesSlice(..) => HostFn::BytesSlice,
            RawModBuf::BytesToString(..) => HostFn::BytesToString,
            RawModBuf::DeserializeFromBytes(..) => HostFn::DeserializeFromBytes,
            RawModBuf::SerializeToBytes(..) => HostFn::SerializeToBytes,
            RawModBuf::StringCopyToLinearMemory(..) => HostFn::StringCopyToLinearMemory,
            RawModBuf::StringLen(..) => HostFn::StringLen,
            RawModBuf::StringNewFromLinearMemory(..) => HostFn::StringNewFromLinearMemory,
            RawModBuf::StringToBytes(..) => HostFn::StringToBytes,
            RawModBuf::SymbolCopyToLinearMemory(..) => HostFn::SymbolCopyToLinearMemory,
            RawModBuf::SymbolIndexInLinearMemory(..) => HostFn::SymbolIndexInLinearMemory,
            RawModBuf::SymbolLen(..) => HostFn::SymbolLen,
            RawModBuf::SymbolNewFromLinearMemory(..) => HostFn::SymbolNewFromLinearMemory,
        }
    }

    /// The instruction's operands, in slot order.
    pub open spec fn operands(self) -> Seq<Operand> {
        match self {
            RawModBuf::BytesAppend(a0, a1) => seq![Operand::Word(a0), Operand::Word(a1)],
            RawModBuf::BytesBack(a0) => seq![Operand::Word(a0)],
            RawModBuf::BytesCopyFromLinearMemory(a0, a1, a2, a3) => seq![Operand::Word(a0), Operand::U32(a1), Operand::U32(a2), Operand::U32(a3)],
            RawModBuf::BytesCopyToLinearMemory(a0, a1, a2, a3) => seq![Operand::Word(a0), Operand::U32(a1), Operand::U32(a2), Operand::U32(a3)],
            RawModBuf::BytesDel(a0, a1) => seq![Operand::Word(a0), Operand::U32(a1)],
            RawModBuf::BytesFront(a0) => seq![Operand::Word(a0)],
            RawModBuf::BytesGet(a0, a1) => seq![Operand::Word(a0), Operand::U32(a1)],
            RawModBuf::BytesInsert(a0, a1, a2) => seq![Operand::Word(a0), Operand::U32(a1), Operand::U32(a2)],
            RawModBuf::BytesLen(a0) => seq![Operand::Word(a0)],
            RawModBuf::BytesNew => seq![],
            RawModBuf::BytesNewFromLinearMemory(a0, a1) => seq![Operand::U32(a0), Operand::U32(a1)],
            RawModBuf::BytesPop(a0) => seq![Operand::Word(a0)],
            RawModBuf::BytesPush(a0, a1) => seq![Operand::Word(a0), Operand::U32(a1)],
            RawModBuf::BytesPut(a0, a1, a2) => seq![Operand::Word(a0), Operand::U32(a1), Operand::U32(a2)],
            RawModBuf::BytesSlice(a0, a1, a2) => seq![Operand::Word(a0), Operand::U32(a1), Operand::U32(a2)],
            RawModBuf::BytesToString(a0) => seq![Operand::Word(a0)],
            RawModBuf::DeserializeFromBytes(a0) => seq![Operand::Word(a0)],
            RawModBuf::SerializeToBytes(a0) => seq![Operand::Word(a0)],
            RawModBuf::StringCopyToLinearMemory(a0, a1, a2, a3) => seq![Operand::Word(a0), Operand::U32(a1), Operand::U32(a2), Operand::U32(a3)],
            RawModBuf::StringLen(a0) => seq![Operand::Word(a0)],
            RawModBuf::StringNewFromLinearMemory(a0, a1) => seq![Operand::U32(a0), Operand::U32(a1)],
            RawModBuf::StringToBytes(a0) => seq![Operand::Word(a0)],
            RawModBuf::SymbolCopyToLinearMemory(a0, a1, a2, a3) => seq![Operand::Word(a0), Operand::U32(a1), Operand::U32(a2), Operand::U32(a3)],
            RawModBuf::SymbolIndexInLinearMemory(a0, a1, a2) => seq![Operand::Word(a0), Operand::U32(a1), Operand::U32(a2)],
            RawModBuf::SymbolLen(a0) => seq![Operand::Word(a0)],
            RawModBuf::SymbolNewFromLinearMemory(a0, a1) => seq![Operand::U32(a0), Operand::U32(a1)],
        }
    }

    /// The instruction of this module that calls `f` with the operands
    /// `ops`, if `f` is in this module and `ops` fit its parameters.
    pub open spec fn spec_from_parts(f: HostFn, ops: Seq<Operand>) -> Option<RawModBuf> {
        if !(raw_conforms(f.params(), ops)) {
            None
        } else {
            match f {
                HostFn::BytesAppend => Some(RawModBuf::BytesAppend(ops[0].word_part(), ops[1].word_part())),
                HostFn::BytesBack => Some(RawModBuf::BytesBack(ops[0].word_part())),
                HostFn::BytesCopyFromLinearMemory => Some(RawModBuf::BytesCopyFromLinearMemory(ops[0].word_part(), ops[1].u32_part(), ops[2].u32_part(), ops[3].u32_part())),
                HostFn::BytesCopyToLinearMemory => Some(RawModBuf::BytesCopyToLinearMemory(ops[0].word_part(), ops[1].u32_part(), ops[2].u32_part(), ops[3].u32_part())),
                HostFn::BytesDel => Some(RawModBuf::BytesDel(ops[0].word_part(), ops[1].u32_part())),
                HostFn::BytesFront => Some(RawModBuf::BytesFront(ops[0].word_part())),
                HostFn::BytesGet => Some(RawModBuf::BytesGet(ops[0].word_part(), ops[1].u32_part())),
                HostFn::BytesInsert => Some(RawModBuf::BytesInsert(ops[0].word_part(), ops[1].u32_part(), ops[2].u32_part())),
                HostFn::BytesLen => Some(RawModBuf::BytesLen(ops[0].word_part())),
                HostFn::BytesNew => Some(RawModBuf::BytesNew),
                HostFn::BytesNewFromLinearMemory => Some(RawModBuf::BytesNewFromLinearMemory(ops[0].u32_part(), ops[1].u32_part())),
                HostFn::BytesPop => Some(RawModBuf::BytesPop(ops[0].word_part())),
                HostFn::BytesPush => Some(RawModBuf::BytesPush(ops[0].word_part(), ops[1].u32_part())),
                HostFn::BytesPut => Some(RawModBuf::BytesPut(ops[0].word_part(), ops[1].u32_part(), ops[2].u32_part())),
                HostFn::BytesSlice => Some(RawModBuf::BytesSlice(ops[0].word_part(), ops[1].u32_part(), ops[2].u32_part())),
                HostFn::BytesToString => Some(RawModBuf::BytesToString(ops[0].word_part())),
                HostFn::DeserializeFromBytes => Some(RawModBuf::DeserializeFromBytes(ops[0].word_part())),
                HostFn::SerializeToBytes => Some(RawModBuf::SerializeToBytes(ops[0].word_part())),
                HostFn::StringCopyToLinearMemory => Some(RawModBuf::StringCopyToLinearMemory(ops[0].word_part(), ops[1].u32_part(), ops[2].u32_part(), ops[3].u32_part())),
                HostFn::StringLen => Some(RawModBuf::StringLen(ops[0].word_part())),
                HostFn::StringNewFromLinearMemory => Some(RawModBuf::StringNewFromLinearMemory(ops[0].u32_part(), ops[1].u32_part())),
                HostFn::StringToBytes => Some(RawModBuf::StringToBytes(ops[0].word_part())),
                HostFn::SymbolCopyToLinearMemory => Some(RawModBuf::SymbolCopyToLinearMemory(ops[0].word_part(), ops[1].u32_part(), ops[2].u32_part(), ops[3].u32_part())),
                HostFn::SymbolIndexInLinearMemory => Some(RawModBuf::SymbolIndexInLinearMemory(ops[0].word_part(), ops[1].u32_part(), ops[2].u32_part())),
                HostFn::SymbolLen => Some(RawModBuf::SymbolLen(ops[0].word_part())),
                HostFn::SymbolNewFromLinearMemory => Some(RawModBuf::SymbolNewFromLinearMemory(ops[0].u32_part(), ops[1].u32_part())),
                _ => None,
            }
        }
    }

    /// The host function the instruction calls.
    pub fn host_fn(&self) -> (r: HostFn)
        ensures
            r == self.opcode(),
    {
        match self {
            RawModBuf::BytesAppend(..) => HostFn::BytesAppend,
            RawModBuf::BytesBack(..) => HostFn::BytesBack,
            RawModBuf::BytesCopyFromLinearMemory(..) => HostFn::BytesCopyFromLinearMemory,
            RawModBuf::BytesCopyToLinearMemory(..) => HostFn::BytesCopyToLinearMemory,
            RawModBuf::BytesDel(..) => HostFn::BytesDel,
            RawModBuf::BytesFront(..) => HostFn::BytesFront,
            RawModBuf::BytesGet(..) => HostFn::BytesGet,
            RawModBuf::BytesInsert(..) => HostFn::BytesInsert,
            RawModBuf::BytesLen(..) => HostFn::BytesLen,
            RawModBuf::BytesNew => HostFn::BytesNew,
            RawModBuf::BytesNewFromLinearMemory(..) => HostFn::BytesNewFromLinearMemory,
            RawModBuf::BytesPop(..) => HostFn::BytesPop,
            RawModBuf::BytesPush(..) => HostFn::BytesPush,
            RawModBuf::BytesPut(..) => HostFn::BytesPut,
            RawModBuf::BytesSlice(..) => HostFn::BytesSlice,
            RawModBuf::BytesToString(..) => HostFn::BytesToString,
            RawModBuf::DeserializeFromBytes(..) => HostFn::DeserializeFromBytes,
            RawModBuf::SerializeToBytes(..) => HostFn::SerializeToBytes,
            RawModBuf::StringCopyToLinearMemory(..) => HostFn::StringCopyToLinearMemory,
            RawModBuf::StringLen(..) => HostFn::StringLen,
            RawModBuf::StringNewFromLinearMemory(..) => HostFn::StringNewFromLinearMemory,
            RawModBuf::StringToBytes(..) => HostFn::StringToBytes,
            RawModBuf::SymbolCopyToLinearMemory(..) => HostFn::SymbolCopyToLinearMemory,
            RawModBuf::SymbolIndexInLinearMemory(..) => HostFn::SymbolIndexInLinearMemory,
            RawModBuf::SymbolLen(..) => HostFn::SymbolLen,
            RawModBuf::SymbolNewFromLinearMemory(..) => HostFn::SymbolNewFromLinearMemory,
        }
    }

    /// The instruction's operands, in slot order.
    pub fn operand_list(&self) -> (r: Vec<Operand>)
        ensures
            r@ == self.operands(),
    {
        let r = match self {
            RawModBuf::BytesAppend(a0, a1) => vec![Operand::Word(*a0), Operand::Word(*a1)],
            RawModBuf::BytesBack(a0) => vec![Operand::Word(*a0)],
            RawModBuf::BytesCopyFromLinearMemory(a0, a1, a2, a3) => vec![Operand::Word(*a0), Operand::U32(*a1), Operand::U32(*a2), Operand::U32(*a3)],
            RawModBuf::BytesCopyToLinearMemory(a0, a1, a2, a3) => vec![Operand::Word(*a0), Operand::U32(*a1), Operand::U32(*a2), Operand::U32(*a3)],
            RawModBuf::BytesDel(a0, a1) => vec![Operand::Word(*a0), Operand::U32(*a1)],
            RawModBuf::BytesFront(a0) => vec![Operand::Word(*a0)],
            RawModBuf::BytesGet(a0, a1) => vec![Operand::Word(*a0), Operand::U32(*a1)],
            RawModBuf::BytesInsert(a0, a1, a2) => vec![Operand::Word(*a0), Operand::U32(*a1), Operand::U32(*a2)],
            RawModBuf::BytesLen(a0) => vec![Operand::Word(*a0)],
            RawModBuf::BytesNew => vec![],
            RawModBuf::BytesNewFromLinearMemory(a0, a1) => vec![Operand::U32(*a0), Operand::U32(*a1)],
            RawModBuf::BytesPop(a0) => vec![Operand::Word(*a0)],
            RawModBuf::BytesPush(a0, a1) => vec![Operand::Word(*a0), Operand::U32(*a1)],
            RawModBuf::BytesPut(a0, a1, a2) => vec![Operand::Word(*a0), Operand::U32(*a1), Operand::U32(*a2)],
            RawModBuf::BytesSlice(a0, a1, a2) => vec![Operand::Word(*a0), Operand::U32(*a1), Operand::U32(*a2)],
            RawModBuf::BytesToString(a0) => vec![Operand::Word(*a0)],
            RawModBuf::DeserializeFromBytes(a0) => vec![Operand::Word(*a0)],
            RawModBuf::SerializeToBytes(a0) => vec![Operand::Word(*a0)],
            RawModBuf::StringCopyToLinearMemory(a0, a1, a2, a3) => vec![Operand::Word(*a0), Operand::U32(*a1), Operand::U32(*a2), Operand::U32(*a3)],
            RawModBuf::StringLen(a0) => vec![Operand::Word(*a0)],
            RawModBuf::StringNewFromLinearMemory(a0, a1) => vec![Operand::U32(*a0), Operand::U32(*a1)],
            RawModBuf::StringToBytes(a0) => vec![Operand::Word(*a0)],
            RawModBuf::SymbolCopyToLinearMemory(a0, a1, a2, a3) => vec![Operand::Word(*a0), Operand::U32(*a1), Operand::U32(*a2), Operand::U32(*a3)],
            RawModBuf::SymbolIndexInLinearMemory(a0, a1, a2) => vec![Operand::Word(*a0), Operand::U32(*a1), Operand::U32(*a2)],
            RawModBuf::SymbolLen(a0) => vec![Operand::Word(*a0)],
            RawModBuf::SymbolNewFromLinearMemory(a0, a1) => vec![Operand::U32(*a0), Operand::U32(*a1)],
        };
        assert(r@ =~= self.operands());
        r
    }

    /// The instruction of this module that calls `f` with the operands
    /// `ops`, if `f` is in this module and `ops` fit its parameters.
    pub fn from_parts(f: HostFn, ops: &Vec<Operand>) -> (r: Option<RawModBuf>)
        ensures
            r == Self::spec_from_parts(f, ops@),
    {
        if !conforms_raw(&f.param_list(), ops) {
            return None;
        }
        match f {
            HostFn::BytesAppend => Some(RawModBuf::BytesAppend(ops[0].get_word(), ops[1].get_word())),
            HostFn::BytesBack => Some(RawModBuf::BytesBack(ops[0].get_word())),
            HostFn::BytesCopyFromLinearMemory => Some(RawModBuf::BytesCopyFromLinearMemory(ops[0].get_word(), ops[1].get_u32(), ops[2].get_u32(), ops[3].get_u32())),
            HostFn::BytesCopyToLinearMemory => Some(RawModBuf::BytesCopyToLinearMemory(ops[0].get_word(), ops[1].get_u32(), ops[2].get_u32(), ops[3].get_u32())),
            HostFn::BytesDel => Some(RawModBuf::BytesDel(ops[0].get_word(), ops[1].get_u32())),
            HostFn::BytesFront => Some(RawModBuf::BytesFront(ops[0].get_word())),
            HostFn::BytesGet => Some(RawModBuf::BytesGet(ops[0].get_word(), ops[1].get_u32())),
            HostFn::BytesInsert => Some(RawModBuf::BytesInsert(ops[0].get_word(), ops[1].get_u32(), ops[2].get_u32())),
            HostFn::BytesLen => Some(RawModBuf::BytesLen(ops[0].get_word())),
            HostFn::BytesNew => Some(RawModBuf::BytesNew),
            HostFn::BytesNewFromLinearMemory => Some(RawModBuf::BytesNewFromLinearMemory(ops[0].get_u32(), ops[1].get_u32())),
            HostFn::BytesPop => Some(RawModBuf::BytesPop(ops[0].get_word())),
            HostFn::BytesPush => Some(RawModBuf::BytesPush(ops[0].get_word(), ops[1].get_u32())),
            HostFn::BytesPut => Some(RawModBuf::BytesPut(ops[0].get_word(), ops[1].get_u32(), ops[2].get_u32())),
            HostFn::BytesSlice => Some(RawModBuf::BytesSlice(ops[0].get_word(), ops[1].get_u32(), ops[2].get_u32())),
            HostFn::BytesToString => Some(RawModBuf::BytesToString(ops[0].get_word())),
            HostFn::DeserializeFromBytes => Some(RawModBuf::DeserializeFromBytes(ops[0].get_word())),
            HostFn::SerializeToBytes => Some(RawModBuf::SerializeToBytes(ops[0].get_word())),
            HostFn::StringCopyToLinearMemory => Some(RawModBuf::StringCopyToLinearMemory(ops[0].get_word(), ops[1].get_u32(), ops[2].get_u32(), ops[3].get_u32())),
            HostFn::StringLen => Some(RawModBuf::StringLen(ops[0].get_word())),
            HostFn::StringNewFromLinearMemory => Some(RawModBuf::StringNewFromLinearMemory(ops[0].get_u32(), ops[1].get_u32())),
            HostFn::StringToBytes => Some(RawModBuf::StringToBytes(ops[0].get_word())),
            HostFn::SymbolCopyToLinearMemory => Some(RawModBuf::SymbolCopyToLinearMemory(ops[0].get_word(), ops[1].get_u32(), ops[2].get_u32(), ops[3].get_u32())),
            HostFn::SymbolIndexInLinearMemory => Some(RawModBuf::SymbolIndexInLinearMemory(ops[0].get_word(), ops[1].get_u32(), ops[2].get_u32())),
            HostFn::SymbolLen => Some(RawModBuf::SymbolLen(ops[0].get_word())),
            HostFn::SymbolNewFromLinearMemory => Some(RawModBuf::SymbolNewFromLinearMemory(ops[0].get_u32(), ops[1].get_u32())),
            _ => None,
        }
    }
}

proof fn lemma_buf_inverse(m: RawModBuf)
    ensures
        m.opcode().module() == Module::Buf,
        raw_conforms(m.opcode().params(), m.operands()),
        RawModBuf::spec_from_parts(m.opcode(), m.operands()) == Some(m),
{
}

proof fn lemma_buf_realizes(f: HostFn, ops: Seq<Operand>)
    requires
        f.module() == Module::Buf,
        raw_conforms(f.params(), ops),
    ensures
        RawModBuf::spec_from_parts(f, ops) matches Some(m) && m.opcode() == f && m.operands() == ops,
{
    if ops.len() > 0 {
        assert(ops[0].raw_fits(f.params()[0]));
    }
    if ops.len() > 1 {
        assert(ops[1].raw_fits(f.params()[1]));
    }
    if ops.len() > 2 {
        assert(ops[2].raw_fits(f.params()[2]));
    }
    if ops.len() > 3 {
        assert(ops[3].raw_fits(f.params()[3]));
    }
    assert(RawModBuf::spec_from_parts(f, ops).unwrap().operands() =~= ops);
}

/// The raw tier's instructions of the `call` module: one per host function.
#[derive(Clone, Copy, Debug, PartialEq, Eq)]
pub enum RawModCall {
    Call(FakeVal, FakeVal, FakeVal),
    TryCall(FakeVal, FakeVal, FakeVal),
}

impl RawModCall {
    /// The host function the instruction calls.
    pub open spec fn opcode(self) -> HostFn {
        match self {
            RawModCall::Call(..) => HostFn::Call,
            RawModCall::TryCall(..) => HostFn::TryCall,
        }
    }

    /// The instruction's operands, in slot order.
    pub open spec fn operands(self) -> Seq<Operand> {
        match self {
            RawModCall::Call(a0, a1, a2) => seq![Operand::Word(a0), Operand::Word(a1), Operand::Word(a2)],
            RawModCall::TryCall(a0, a1, a2) => seq![Operand::Word(a0), Operand::Word(a1), Operand::Word(a2)],
        }
    }

    /// The instruction of this module that calls `f` with the operands
    /// `ops`, if `f` is in this module and `ops` fit its parameters.
    pub open spec fn spec_from_parts(f: HostFn, ops: Seq<Operand>) -> Option<RawModCall> {
        if !(raw_conforms(f.params(), ops)) {
            None
        } else {
            match f {
                HostFn::Call => Some(RawModCall::Call(ops[0].word_part(), ops[1].word_part(), ops[2].word_part())),
                HostFn::TryCall => Some(RawModCall::TryCall(ops[0].word_part(), ops[1].word_part(), ops[2].word_part())),
                _ => None,
            }
        }
    }

    /// The host function the instruction calls.
    pub fn host_fn(&self) -> (r: HostFn)
        ensures
            r == self.opcode(),
    {
        match self {
            RawModCall::Call(..) => HostFn::Call,
            RawModCall::TryCall(..) => HostFn::TryCall,
        }
    }

    /// The instruction's operands, in slot order.
    pub fn operand_list(&self) -> (r: Vec<Operand>)
        ensures
            r@ == self.operands(),
    {
        let r = match self {
            RawModCall::Call(a0, a1, a2) => vec![Operand::Word(*a0), Operand::Word(*a1), Operand::Word(*a2)],
            RawModCall::TryCall(a0, a1, a2) => vec![Operand::Word(*a0), Operand::Word(*a1), Operand::Word(*a2)],
        };
        assert(r@ =~= self.operands());
        r
    }

    /// The instruction of this module that calls `f` with the operands
    /// `ops`, if `f` is in this module and `ops` fit its parameters.
    pub fn from_parts(f: HostFn, ops: &Vec<Operand>) -> (r: Option<RawModCall>)
        ensures
            r == Self::spec_from_parts(f, ops@),
    {
        if !conforms_raw(&f.param_list(), ops) {
            return None;
        }
        match f {
            HostFn::Call => Some(RawModCall::Call(ops[0].get_word(), ops[1].get_word(), ops[2].get_word())),
            HostFn::TryCall => Some(RawModCall::TryCall(ops[0].get_word(), ops[1].get_word(), ops[2].get_word())),
            _ => None,
        }
    }
}

proof fn lemma_call_inverse(m: RawModCall)
    ensures
        m.opcode().module() == Module::Call,
        raw_conforms(m.opcode().params(), m.operands()),
        RawModCall::spec_from_parts(m.opcode(), m.operands()) == Some(m),
{
}

proof fn lemma_call_realizes(f: HostFn, ops: Seq<Operand>)
    requires
        f.module() == Module::Call,
        raw_conforms(f.params(), ops),
    ensures
        RawModCall::spec_from_parts(f, ops) matches Some(m) && m.opcode() == f && m.operands() == ops,
{
    if ops.len() > 0 {
        assert(ops[0].raw_fits(f.params()[0]));
    }
    if ops.len() > 1 {
        assert(ops[1].raw_fits(f.params()[1]));
    }
    if ops.len() > 2 {
        assert(ops[2].raw_fits(f.params()[2]));
    }
    assert(RawModCall::spec_from_parts(f, ops).unwrap().operands() =~= ops);
}

/// The raw tier's instructions of the `context` module: one per host function.
#[derive(Clone, Copy, Debug, PartialEq, Eq)]
pub enum RawModContext {
    ContractEvent(FakeVal, FakeVal),
    FailWithError(FakeVal),
    GetCurrentContractAddress,
    GetLedgerNetworkId,
    GetLedgerSequence,
    GetLedgerTimestamp,
    GetLedgerVersion,
    GetMaxLiveUntilLedger,
    LogFromLinearMemory(u32, u32, u32, u32),
    ObjCmp(FakeVal, FakeVal),
}

impl RawModContext {
    /// The host function the instruction calls.
    pub open spec fn opcode(self) -> HostFn {
        match self {
            RawModContext::ContractEvent(..) => HostFn::ContractEvent,
            RawModContext::FailWithError(..) => HostFn::FailWithError,
            RawModContext::GetCurrentContractAddress => HostFn::GetCurrentContractAddress,
            RawModContext::GetLedgerNetworkId => HostFn::GetLedgerNetworkId,
            RawModContext::GetLedgerSequence => HostFn::GetLedgerSequence,
            RawModContext::GetLedgerTimestamp => HostFn::GetLedgerTimestamp,
            RawModContext::GetLedgerVersion => HostFn::GetLedgerVersion,
            RawModContext::GetMaxLiveUntilLedger => HostFn::GetMaxLiveUntilLedger,
            RawModContext::LogFromLinearMemory(..) => HostFn::LogFromLinearMemory,
            RawModContext::ObjCmp(..) => HostFn::ObjCmp,
        }
    }

    /// The instruction's operands, in slot order.
    pub open spec fn operands(self) -> Seq<Operand> {
        match self {
            RawModContext::ContractEvent(a0, a1) => seq![Operand::Word(a0), Operand::Word(a1)],
            RawModContext::FailWithError(a0) => seq![Operand::Word(a0)],
            RawModContext::GetCurrentContractAddress => seq![],
            RawModContext::GetLedgerNetworkId => seq![],
            RawModContext::GetLedgerSequence => seq![],
            RawModContext::GetLedgerTimestamp => seq![],
            RawModContext::GetLedgerVersion => seq![],
            RawModContext::GetMaxLiveUntilLedger => seq![],
            RawModContext::LogFromLinearMemory(a0, a1, a2, a3) => seq![Operand::U32(a0), Operand::U32(a1), Operand::U32(a2), Operand::U32(a3)],
            RawModContext::ObjCmp(a0, a1) => seq![Operand::Word(a0), Operand::Word(a1)],
        }
    }

    /// The instruction of this module that calls `f` with the operands
    /// `ops`, if `f` is in this module and `ops` fit its parameters.
    pub open spec fn spec_from_parts(f: HostFn, ops: Seq<Operand>) -> Option<RawModContext> {
        if !(raw_conforms(f.params(), ops)) {
            None
        } else {
            match f {
                HostFn::ContractEvent => Some(RawModContext::ContractEvent(ops[0].word_part(), ops[1].word_part())),
                HostFn::FailWithError => Some(RawModContext::FailWithError(ops[0].word_part())),
                HostFn::GetCurrentContractAddress => Some(RawModContext::GetCurrentContractAddress),
                HostFn::GetLedgerNetworkId => Some(RawModContext::GetLedgerNetworkId),
                HostFn::GetLedgerSequence => Some(RawModContext::GetLedgerSequence),
                HostFn::GetLedgerTimestamp => Some(RawModContext::GetLedgerTimestamp),
                HostFn::GetLedgerVersion => Some(RawModContext::GetLedgerVersion),
                HostFn::GetMaxLiveUntilLedger => Some(RawModContext::GetMaxLiveUntilLedger),
                HostFn::LogFromLinearMemory => Some(RawModContext::LogFromLinearMemory(ops[0].u32_part(), ops[1].u32_part(), ops[2].u32_part(), ops[3].u32_part())),
                HostFn::ObjCmp => Some(RawModContext::ObjCmp(ops[0].word_part(), ops[1].word_part())),
                _ => None,
            }
        }
    }

    /// The host function the instruction calls.
    pub fn host_fn(&self) -> (r: HostFn)
        ensures
            r == self.opcode(),
    {
        match self {
            RawModContext::ContractEvent(..) => HostFn::ContractEvent,
            RawModContext::FailWithError(..) => HostFn::FailWithError,
            RawModContext::GetCurrentContractAddress => HostFn::GetCurrentContractAddress,
            RawModContext::GetLedgerNetworkId => HostFn::GetLedgerNetworkId,
            RawModContext::GetLedgerSequence => HostFn::GetLedgerSequence,
            RawModContext::GetLedgerTimestamp => HostFn::GetLedgerTimestamp,
            RawModContext::GetLedgerVersion => HostFn::GetLedgerVersion,
            RawModContext::GetMaxLiveUntilLedger => HostFn::GetMaxLiveUntilLedger,
            RawModContext::LogFromLinearMemory(..) => HostFn::LogFromLinearMemory,
            RawModContext::ObjCmp(..) => HostFn::ObjCmp,
        }
    }

    /// The instruction's operands, in slot order.
    pub fn operand_list(&self) -> (r: Vec<Operand>)
        ensures
            r@ == self.operands(),
    {
        let r = match self {
            RawModContext::ContractEvent(a0, a1) => vec![Operand::Word(*a0), Operand::Word(*a1)],
            RawModContext::FailWithError(a0) => vec![Operand::Word(*a0)],
            RawModContext::GetCurrentContractAddress => vec![],
            RawModContext::GetLedgerNetworkId => vec![],
            RawModContext::GetLedgerSequence => vec![],
            RawModContext::GetLedgerTimestamp => vec![],
            RawModContext::GetLedgerVersion => vec![],
            RawModContext::GetMaxLiveUntilLedger => vec![],
            RawModContext::LogFromLinearMemory(a0, a1, a2, a3) => vec![Operand::U32(*a0), Operand::U32(*a1), Operand::U32(*a2), Operand::U32(*a3)],
            RawModContext::ObjCmp(a0, a1) => vec![Operand::Word(*a0), Operand::Word(*a1)],
        };
        assert(r@ =~= self.operands());
        r
    }

    /// The instruction of this module that calls `f` with the operands
    /// `ops`, if `f` is in this module and `ops` fit its parameters.
    pub fn from_parts(f: HostFn, ops: &Vec<Operand>) -> (r: Option<RawModContext>)
        ensures
            r == Self::spec_from_parts(f, ops@),
    {
        if !conforms_raw(&f.param_list(), ops) {
            return None;
        }
        match f {
            HostFn::ContractEvent => Some(RawModContext::ContractEvent(ops[0].get_word(), ops[1].get_word())),
            HostFn::FailWithError => Some(RawModContext::FailWithError(ops[0].get_word())),
            HostFn::GetCurrentContractAddress => Some(RawModContext::GetCurrentContractAddress),
            HostFn::GetLedgerNetworkId => Some(RawModContext::GetLedgerNetworkId),
            HostFn::GetLedgerSequence => Some(RawModContext::GetLedgerSequence),
            HostFn::GetLedgerTimestamp => Some(RawModContext::GetLedgerTimestamp),
            HostFn::GetLedgerVersion => Some(RawModContext::GetLedgerVersion),
            HostFn::GetMaxLiveUntilLedger => Some(RawModContext::GetMaxLiveUntilLedger),
            HostFn::LogFromLinearMemory => Some(RawModContext::LogFromLinearMemory(ops[0].get_u32(), ops[1].get_u32(), ops[2].get_u32(), ops[3].get_u32())),
            HostFn::ObjCmp => Some(RawModContext::ObjCmp(ops[0].get_word(), ops[1].get_word())),
            _ => None,
        }
    }
}

proof fn lemma_context_inverse(m: RawModContext)
    ensures
        m.opcode().module() == Module::Context,
        raw_conforms(m.opcode().params(), m.operands()),
        RawModContext::spec_from_parts(m.opcode(), m.operands()) == Some(m),
{
}

proof fn lemma_context_realizes(f: HostFn, ops: Seq<Operand>)
    requires
        f.module() == Module::Context,
        raw_conforms(f.params(), ops),
    ensures
        RawModContext::spec_from_parts(f, ops) matches Some(m) && m.opcode() == f && m.operands() == ops,
{
    if ops.len() > 0 {
        assert(ops[0].raw_fits(f.params()[0]));
    }
    if ops.len() > 1 {
        assert(ops[1].raw_fits(f.params()[1]));
    }
    if ops.len() > 2 {
        assert(ops[2].raw_fits(f.params()[2]));
    }
    if ops.len() > 3 {
        assert(ops[3].raw_fits(f.params()[3]));
    }
    assert(RawModContext::spec_from_parts(f, ops).unwrap().operands() =~= ops);
}

/// The raw tier's instructions of the `crypto` module: one per host function.
#[derive(Clone, Copy, Debug, PartialEq, Eq)]
pub enum RawModCrypto {
    Bls12381CheckG1IsInSubgroup(FakeVal),
    Bls12381CheckG2IsInSubgroup(FakeVal),
    Bls12381FrAdd(FakeVal, FakeVal),
    Bls12381FrInv(FakeVal),
    Bls12381FrMul(FakeVal, FakeVal),
    Bls12381FrPow(FakeVal, FakeVal),
    Bls12381FrSub(FakeVal, FakeVal),
    Bls12381G1Add(FakeVal, FakeVal),
    Bls12381G1Msm(FakeVal, FakeVal),
    Bls12381G1Mul(FakeVal, FakeVal),
    Bls12381G2Add(FakeVal, FakeVal),
    Bls12381G2Msm(FakeVal, FakeVal),
    Bls12381G2Mul(FakeVal, FakeVal),
    Bls12381HashToG1(FakeVal, FakeVal),
    Bls12381HashToG2(FakeVal, FakeVal),
    Bls12381MapFp2ToG2(FakeVal),
    Bls12381MapFpToG1(FakeVal),
    Bls12381MultiPairingCheck(FakeVal, FakeVal),
    ComputeHashKeccak256(FakeVal),
    ComputeHashSha256(FakeVal),
    RecoverKeyEcdsaSecp256k1(FakeVal, FakeVal, u32),
    VerifySigEcdsaSecp256r1(FakeVal, FakeVal, FakeVal),
    VerifySigEd25519(FakeVal, FakeVal, FakeVal),
}

impl RawModCrypto {
    /// The host function the instruction calls.
    pub open spec fn opcode(self) -> HostFn {
        match self {
            RawModCrypto::Bls12381CheckG1IsInSubgroup(..) => HostFn::Bls12381CheckG1IsInSubgroup,
            RawModCrypto::Bls12381CheckG2IsInSubgroup(..) => HostFn::Bls12381CheckG2IsInSubgroup,
            RawModCrypto::Bls12381FrAdd(..) => HostFn::Bls12381FrAdd,
            RawModCrypto::Bls12381FrInv(..) => HostFn::Bls12381FrInv,
            RawModCrypto::Bls12381FrMul(..) => HostFn::Bls12381FrMul,
            RawModCrypto::Bls12381FrPow(..) => HostFn::Bls12381FrPow,
            RawModCrypto::Bls12381FrSub(..) => HostFn::Bls12381FrSub,
            RawModCrypto::Bls12381G1Add(..) => HostFn::Bls12381G1Add,
            RawModCrypto::Bls12381G1Msm(..) => HostFn::Bls12381G1Msm,
            RawModCrypto::Bls12381G1Mul(..) => HostFn::Bls12381G1Mul,
            RawModCrypto::Bls12381G2Add(..) => HostFn::Bls12381G2Add,
            RawModCrypto::Bls12381G2Msm(..) => HostFn::Bls12381G2Msm,
            RawModCrypto::Bls12381G2Mul(..) => HostFn::Bls12381G2Mul,
            RawModCrypto::Bls12381HashToG1(..) => HostFn::Bls12381HashToG1,
            RawModCrypto::Bls12381HashToG2(..) => HostFn::Bls12381HashToG2,
            RawModCrypto::Bls12381MapFp2ToG2(..) => HostFn::Bls12381MapFp2ToG2,
            RawModCrypto::Bls12381MapFpToG1(..) => HostFn::Bls12381MapFpToG1,
            RawModCrypto::Bls12381MultiPairingCheck(..) => HostFn::Bls12381MultiPairingCheck,
            RawModCrypto::ComputeHashKeccak256(..) => HostFn::ComputeHashKeccak256,
            RawModCrypto::ComputeHashSha256(..) => HostFn::ComputeHashSha256,
            RawModCrypto::RecoverKeyEcdsaSecp256k1(..) => HostFn::RecoverKeyEcdsaSecp256k1,
            RawModCrypto::VerifySigEcdsaSecp256r1(..) => HostFn::VerifySigEcdsaSecp256r1,
            RawModCrypto::VerifySigEd25519(..) => HostFn::VerifySigEd25519,
        }
    }

    /// The instruction's operands, in slot order.
    pub open spec fn operands(self) -> Seq<Operand> {
        match self {
            RawModCrypto::Bls12381CheckG1IsInSubgroup(a0) => seq![Operand::Word(a0)],
            RawModCrypto::Bls12381CheckG2IsInSubgroup(a0) => seq![Operand::Word(a0)],
            RawModCrypto::Bls12381FrAdd(a0, a1) => seq![Operand::Word(a0), Operand::Word(a1)],
            RawModCrypto::Bls12381FrInv(a0) => seq![Operand::Word(a0)],
            RawModCrypto::Bls12381FrMul(a0, a1) => seq![Operand::Word(a0), Operand::Word(a1)],
            RawModCrypto::Bls12381FrPow(a0, a1) => seq![Operand::Word(a0), Operand::Word(a1)],
            RawModCrypto::Bls12381FrSub(a0, a1) => seq![Operand::Word(a0), Operand::Word(a1)],
            RawModCrypto::Bls12381G1Add(a0, a1) => seq![Operand::Word(a0), Operand::Word(a1)],
            RawModCrypto::Bls12381G1Msm(a0, a1) => seq![Operand::Word(a0), Operand::Word(a1)],
            RawModCrypto::Bls12381G1Mul(a0, a1) => seq![Operand::Word(a0), Operand::Word(a1)],
            RawModCrypto::Bls12381G2Add(a0, a1) => seq![Operand::Word(a0), Operand::Word(a1)],
            RawModCrypto::Bls12381G2Msm(a0, a1) => seq![Operand::Word(a0), Operand::Word(a1)],
            RawModCrypto::Bls12381G2Mul(a0, a1) => seq![Operand::Word(a0), Operand::Word(a1)],
            RawModCrypto::Bls12381HashToG1(a0, a1) => seq![Operand::Word(a0), Operand::Word(a1)],
            RawModCrypto::Bls12381HashToG2(a0, a1) => seq![Operand::Word(a0), Operand::Word(a1)],
            RawModCrypto::Bls12381MapFp2ToG2(a0) => seq![Operand::Word(a0)],
            RawModCrypto::Bls12381MapFpToG1(a0) => seq![Operand::Word(a0)],
            RawModCrypto::Bls12381MultiPairingCheck(a0, a1) => seq![Operand::Word(a0), Operand::Word(a1)],
            RawModCrypto::ComputeHashKeccak256(a0) => seq![Operand::Word(a0)],
            RawModCrypto::ComputeHashSha256(a0) => seq![Operand::Word(a0)],
            RawModCrypto::RecoverKeyEcdsaSecp256k1(a0, a1, a2) => seq![Operand::Word(a0), Operand::Word(a1), Operand::U32(a2)],
            RawModCrypto::VerifySigEcdsaSecp256r1(a0, a1, a2) => seq![Operand::Word(a0), Operand::Word(a1), Operand::Word(a2)],
            RawModCrypto::VerifySigEd25519(a0, a1, a2) => seq![Operand::Word(a0), Operand::Word(a1), Operand::Word(a2)],
        }
    }

    /// The instruction of this module that calls `f` with the operands
    /// `ops`, if `f` is in this module and `ops` fit its parameters.
    pub open spec fn spec_from_parts(f: HostFn, ops: Seq<Operand>) -> Option<RawModCrypto> {
        if !(raw_conforms(f.params(), ops)) {
            None
        } else {
            match f {
                HostFn::Bls12381CheckG1IsInSubgroup => Some(RawModCrypto::Bls12381CheckG1IsInSubgroup(ops[0].word_part())),
                HostFn::Bls12381CheckG2IsInSubgroup => Some(RawModCrypto::Bls12381CheckG2IsInSubgroup(ops[0].word_part())),
                HostFn::Bls12381FrAdd => Some(RawModCrypto::Bls12381FrAdd(ops[0].word_part(), ops[1].word_part())),
                HostFn::Bls12381FrInv => Some(RawModCrypto::Bls12381FrInv(ops[0].word_part())),
                HostFn::Bls12381FrMul => Some(RawModCrypto::Bls12381FrMul(ops[0].word_part(), ops[1].word_part())),
                HostFn::Bls12381FrPow => Some(RawModCrypto::Bls12381FrPow(ops[0].word_part(), ops[1].word_part())),
                HostFn::Bls12381FrSub => Some(RawModCrypto::Bls12381FrSub(ops[0].word_part(), ops[1].word_part())),
                HostFn::Bls12381G1Add => Some(RawModCrypto::Bls12381G1Add(ops[0].word_part(), ops[1].word_part())),
                HostFn::Bls12381G1Msm => Some(RawModCrypto::Bls12381G1Msm(ops[0].word_part(), ops[1].word_part())),
                HostFn::Bls12381G1Mul => Some(RawModCrypto::Bls12381G1Mul(ops[0].word_part(), ops[1].word_part())),
                HostFn::Bls12381G2Add => Some(RawModCrypto::Bls12381G2Add(ops[0].word_part(), ops[1].word_part())),
                HostFn::Bls12381G2Msm => Some(RawModCrypto::Bls12381G2Msm(ops[0].word_part(), ops[1].word_part())),
                HostFn::Bls12381G2Mul => Some(RawModCrypto::Bls12381G2Mul(ops[0].word_part(), ops[1].word_part())),
                HostFn::Bls12381HashToG1 => Some(RawModCrypto::Bls12381HashToG1(ops[0].word_part(), ops[1].word_part())),
                HostFn::Bls12381HashToG2 => Some(RawModCrypto::Bls12381HashToG2(ops[0].word_part(), ops[1].word_part())),
                HostFn::Bls12381MapFp2ToG2 => Some(RawModCrypto::Bls12381MapFp2ToG2(ops[0].word_part())),
                HostFn::Bls12381MapFpToG1 => Some(RawModCrypto::Bls12381MapFpToG1(ops[0].word_part())),
                HostFn::Bls12381MultiPairingCheck => Some(RawModCrypto::Bls12381MultiPairingCheck(ops[0].word_part(), ops[1].word_part())),
                HostFn::ComputeHashKeccak256 => Some(RawModCrypto::ComputeHashKeccak256(ops[0].word_part())),
                HostFn::ComputeHashSha256 => Some(RawModCrypto::ComputeHashSha256(ops[0].word_part())),
                HostFn::RecoverKeyEcdsaSecp256k1 => Some(RawModCrypto::RecoverKeyEcdsaSecp256k1(ops[0].word_part(), ops[1].word_part(), ops[2].u32_part())),
                HostFn::VerifySigEcdsaSecp256r1 => Some(RawModCrypto::VerifySigEcdsaSecp256r1(ops[0].word_part(), ops[1].word_part(), ops[2].word_part())),
                HostFn::VerifySigEd25519 => Some(RawModCrypto::VerifySigEd25519(ops[0].word_part(), ops[1].word_part(), ops[2].word_part())),
                _ => None,
            }
        }
    }

    /// The host function the instruction calls.
    pub fn host_fn(&self) -> (r: HostFn)
        ensures
            r == self.opcode(),
    {
        match self {
            RawModCrypto::Bls12381CheckG1IsInSubgroup(..) => HostFn::Bls12381CheckG1IsInSubgroup,
            RawModCrypto::Bls12381CheckG2IsInSubgroup(..) => HostFn::Bls12381CheckG2IsInSubgroup,
            RawModCrypto::Bls12381FrAdd(..) => HostFn::Bls12381FrAdd,
            RawModCrypto::Bls12381FrInv(..) => HostFn::Bls12381FrInv,
            RawModCrypto::Bls12381FrMul(..) => HostFn::Bls12381FrMul,
            RawModCrypto::Bls12381FrPow(..) => HostFn::Bls12381FrPow,
            RawModCrypto::Bls12381FrSub(..) => HostFn::Bls12381FrSub,
            RawModCrypto::Bls12381G1Add(..) => HostFn::Bls12381G1Add,
            RawModCrypto::Bls12381G1Msm(..) => HostFn::Bls12381G1Msm,
            RawModCrypto::Bls12381G1Mul(..) => HostFn::Bls12381G1Mul,
            RawModCrypto::Bls12381G2Add(..) => HostFn::Bls12381G2Add,
            RawModCrypto::Bls12381G2Msm(..) => HostFn::Bls12381G2Msm,
            RawModCrypto::Bls12381G2Mul(..) => HostFn::Bls12381G2Mul,
            RawModCrypto::Bls12381HashToG1(..) => HostFn::Bls12381HashToG1,
            RawModCrypto::Bls12381HashToG2(..) => HostFn::Bls12381HashToG2,
            RawModCrypto::Bls12381MapFp2ToG2(..) => HostFn::Bls12381MapFp2ToG2,
            RawModCrypto::Bls12381MapFpToG1(..) => HostFn::Bls12381MapFpToG1,
            RawModCrypto::Bls12381MultiPairingCheck(..) => HostFn::Bls12381MultiPairingCheck,
            RawModCrypto::ComputeHashKeccak256(..) => HostFn::ComputeHashKeccak256,
            RawModCrypto::ComputeHashSha256(..) => HostFn::ComputeHashSha256,
            RawModCrypto::RecoverKeyEcdsaSecp256k1(..) => HostFn::RecoverKeyEcdsaSecp256k1,
            RawModCrypto::VerifySigEcdsaSecp256r1(..) => HostFn::VerifySigEcdsaSecp256r1,
            RawModCrypto::VerifySigEd25519(..) => HostFn::VerifySigEd25519,
        }
    }

    /// The instruction's operands, in slot order.
    pub fn operand_list(&self) -> (r: Vec<Operand>)
        ensures
            r@ == self.operands(),
    {
        let r = match self {
            RawModCrypto::Bls12381CheckG1IsInSubgroup(a0) => vec![Operand::Word(*a0)],
            RawModCrypto::Bls12381CheckG2IsInSubgroup(a0) => vec![Operand::Word(*a0)],
            RawModCrypto::Bls12381FrAdd(a0, a1) => vec![Operand::Word(*a0), Operand::Word(*a1)],
            RawModCrypto::Bls12381FrInv(a0) => vec![Operand::Word(*a0)],
            RawModCrypto::Bls12381FrMul(a0, a1) => vec![Operand::Word(*a0), Operand::Word(*a1)],
            RawModCrypto::Bls12381FrPow(a0, a1) => vec![Operand::Word(*a0), Operand::Word(*a1)],
            RawModCrypto::Bls12381FrSub(a0, a1) => vec![Operand::Word(*a0), Operand::Word(*a1)],
            RawModCrypto::Bls12381G1Add(a0, a1) => vec![Operand::Word(*a0), Operand::Word(*a1)],
            RawModCrypto::Bls12381G1Msm(a0, a1) => vec![Operand::Word(*a0), Operand::Word(*a1)],
            RawModCrypto::Bls12381G1Mul(a0, a1) => vec![Operand::Word(*a0), Operand::Word(*a1)],
            RawModCrypto::Bls12381G2Add(a0, a1) => vec![Operand::Word(*a0), Operand::Word(*a1)],
            RawModCrypto::Bls12381G2Msm(a0, a1) => vec![Operand::Word(*a0), Operand::Word(*a1)],
            RawModCrypto::Bls12381G2Mul(a0, a1) => vec![Operand::Word(*a0), Operand::Word(*a1)],
            RawModCrypto::Bls12381HashToG1(a0, a1) => vec![Operand::Word(*a0), Operand::Word(*a1)],
            RawModCrypto::Bls12381HashToG2(a0, a1) => vec![Operand::Word(*a0), Operand::Word(*a1)],
            RawModCrypto::Bls12381MapFp2ToG2(a0) => vec![Operand::Word(*a0)],
            RawModCrypto::Bls12381MapFpToG1(a0) => vec![Operand::Word(*a0)],
            RawModCrypto::Bls12381MultiPairingCheck(a0, a1) => vec![Operand::Word(*a0), Operand::Word(*a1)],
            RawModCrypto::ComputeHashKeccak256(a0) => vec![Operand::Word(*a0)],
            RawModCrypto::ComputeHashSha256(a0) => vec![Operand::Word(*a0)],
            RawModCrypto::RecoverKeyEcdsaSecp256k1(a0, a1, a2) => vec![Operand::Word(*a0), Operand::Word(*a1), Operand::U32(*a2)],
            RawModCrypto::VerifySigEcdsaSecp256r1(a0, a1, a2) => vec![Operand::Word(*a0), Operand::Word(*a1), Operand::Word(*a2)],
            RawModCrypto::VerifySigEd25519(a0, a1, a2) => vec![Operand::Word(*a0), Operand::Word(*a1), Operand::Word(*a2)],
        };
        assert(r@ =~= self.operands());
        r
    }

    /// The instruction of this module that calls `f` with the operands
    /// `ops`, if `f` is in this module and `ops` fit its parameters.
    pub fn from_parts(f: HostFn, ops: &Vec<Operand>) -> (r: Option<RawModCrypto>)
        ensures
            r == Self::spec_from_parts(f, ops@),
    {
        if !conforms_raw(&f.param_list(), ops) {
            return None;
        }
        match f {
            HostFn::Bls12381CheckG1IsInSubgroup => Some(RawModCrypto::Bls12381CheckG1IsInSubgroup(ops[0].get_word())),
            HostFn::Bls12381CheckG2IsInSubgroup => Some(RawModCrypto::Bls12381CheckG2IsInSubgroup(ops[0].get_word())),
            HostFn::Bls12381FrAdd => Some(RawModCrypto::Bls12381FrAdd(ops[0].get_word(), ops[1].get_word())),
            HostFn::Bls12381FrInv => Some(RawModCrypto::Bls12381FrInv(ops[0].get_word())),
            HostFn::Bls12381FrMul => Some(RawModCrypto::Bls12381FrMul(ops[0].get_word(), ops[1].get_word())),
            HostFn::Bls12381FrPow => Some(RawModCrypto::Bls12381FrPow(ops[0].get_word(), ops[1].get_word())),
            HostFn::Bls12381FrSub => Some(RawModCrypto::Bls12381FrSub(ops[0].get_word(), ops[1].get_word())),
            HostFn::Bls12381G1Add => Some(RawModCrypto::Bls12381G1Add(ops[0].get_word(), ops[1].get_word())),
            HostFn::Bls12381G1Msm => Some(RawModCrypto::Bls12381G1Msm(ops[0].get_word(), ops[1].get_word())),
            HostFn::Bls12381G1Mul => Some(RawModCrypto::Bls12381G1Mul(ops[0].get_word(), ops[1].get_word())),
            HostFn::Bls12381G2Add => Some(RawModCrypto::Bls12381G2Add(ops[0].get_word(), ops[1].get_word())),
            HostFn::Bls12381G2Msm => Some(RawModCrypto::Bls12381G2Msm(ops[0].get_word(), ops[1].get_word())),
            HostFn::Bls12381G2Mul => Some(RawModCrypto::Bls12381G2Mul(ops[0].get_word(), ops[1].get_word())),
            HostFn::Bls12381HashToG1 => Some(RawModCrypto::Bls12381HashToG1(ops[0].get_word(), ops[1].get_word())),
            HostFn::Bls12381HashToG2 => Some(RawModCrypto::Bls12381HashToG2(ops[0].get_word(), ops[1].get_word())),
            HostFn::Bls12381MapFp2ToG2 => Some(RawModCrypto::Bls12381MapFp2ToG2(ops[0].get_word())),
            HostFn::Bls12381MapFpToG1 => Some(RawModCrypto::Bls12381MapFpToG1(ops[0].get_word())),
            HostFn::Bls12381MultiPairingCheck => Some(RawModCrypto::Bls12381MultiPairingCheck(ops[0].get_word(), ops[1].get_word())),
            HostFn::ComputeHashKeccak256 => Some(RawModCrypto::ComputeHashKeccak256(ops[0].get_word())),
            HostFn::ComputeHashSha256 => Some(RawModCrypto::ComputeHashSha256(ops[0].get_word())),
            HostFn::RecoverKeyEcdsaSecp256k1 => Some(RawModCrypto::RecoverKeyEcdsaSecp256k1(ops[0].get_word(), ops[1].get_word(), ops[2].get_u32())),
            HostFn::VerifySigEcdsaSecp256r1 => Some(RawModCrypto::VerifySigEcdsaSecp256r1(ops[0].get_word(), ops[1].get_word(), ops[2].get_word())),
            HostFn::VerifySigEd25519 => Some(RawModCrypto::VerifySigEd25519(ops[0].get_word(), ops[1].get_word(), ops[2].get_word())),
            _ => None,
        }
    }
}

proof fn lemma_crypto_inverse(m: RawModCrypto)
    ensures
        m.opcode().module() == Module::Crypto,
        raw_conforms(m.opcode().params(), m.operands()),
        RawModCrypto::spec_from_parts(m.opcode(), m.operands()) == Some(m),
{
}

proof fn lemma_crypto_realizes(f: HostFn, ops: Seq<Operand>)
    requires
        f.module() == Module::Crypto,
        raw_conforms(f.params(), ops),
    ensures
        RawModCrypto::spec_from_parts(f, ops) matches Some(m) && m.opcode() == f && m.operands() == ops,
{
    if ops.len() > 0 {
        assert(ops[0].raw_fits(f.params()[0]));
    }
    if ops.len() > 1 {
        assert(ops[1].raw_fits(f.params()[1]));
    }
    if ops.len() > 2 {
        assert(ops[2].raw_fits(f.params()[2]));
    }
    assert(RawModCrypto::spec_from_parts(f, ops).unwrap().operands() =~= ops);
}

/// The raw tier's instructions of the `int` module: one per host function.
#[derive(Clone, Copy, Debug, PartialEq, Eq)]
pub enum RawModInt {
    DurationObjFromU64(u64),
    DurationObjToU64(FakeVal),
    I256Add(FakeVal, FakeVal),
    I256Div(FakeVal, FakeVal),
    I256Mul(FakeVal, FakeVal),
    I256Pow(FakeVal, u32),
    I256RemEuclid(FakeVal, FakeVal),
    I256Shl(FakeVal, u32),
    I256Shr(FakeVal, u32),
    I256Sub(FakeVal, FakeVal),
    I256ValFromBeBytes(FakeVal),
    I256ValToBeBytes(FakeVal),
    ObjFromI128Pieces(i64, u64),
    ObjFromI256Pieces(i64, u64, u64, u64),
    ObjFromI64(i64),
    ObjFromU128Pieces(u64, u64),
    ObjFromU256Pieces(u64, u64, u64, u64),
    ObjFromU64(u64),
    ObjToI128Hi64(FakeVal),
    ObjToI128Lo64(FakeVal),
    ObjToI256HiHi(FakeVal),
    ObjToI256HiLo(FakeVal),
    ObjToI256LoHi(FakeVal),
    ObjToI256LoLo(FakeVal),
    ObjToI64(FakeVal),
    ObjToU128Hi64(FakeVal),
    ObjToU128Lo64(FakeVal),
    ObjToU256HiHi(FakeVal),
    ObjToU256HiLo(FakeVal),
    ObjToU256LoHi(FakeVal),
    ObjToU256LoLo(FakeVal),
    ObjToU64(FakeVal),
    TimepointObjFromU64(u64),
    TimepointObjToU64(FakeVal),
    U256Add(FakeVal, FakeVal),
    U256Div(FakeVal, FakeVal),
    U256Mul(FakeVal, FakeVal),
    U256Pow(FakeVal, u32),
    U256RemEuclid(FakeVal, FakeVal),
    U256Shl(FakeVal, u32),
    U256Shr(FakeVal, u32),
    U256Sub(FakeVal, FakeVal),
    U256ValFromBeBytes(FakeVal),
    U256ValToBeBytes(FakeVal),
}

impl RawModInt {
    /// The host function the instruction calls.
    pub open spec fn opcode(self) -> HostFn {
        match self {
            RawModInt::DurationObjFromU64(..) => HostFn::DurationObjFromU64,
            RawModInt::DurationObjToU64(..) => HostFn::DurationObjToU64,
            RawModInt::I256Add(..) => HostFn::I256Add,
            RawModInt::I256Div(..) => HostFn::I256Div,
            RawModInt::I256Mul(..) => HostFn::I256Mul,
            RawModInt::I256Pow(..) => HostFn::I256Pow,
            RawModInt::I256RemEuclid(..) => HostFn::I256RemEuclid,
            RawModInt::I256Shl(..) => HostFn::I256Shl,
            RawModInt::I256Shr(..) => HostFn::I256Shr,
            RawModInt::I256Sub(..) => HostFn::I256Sub,
            RawModInt::I256ValFromBeBytes(..) => HostFn::I256ValFromBeBytes,
            RawModInt::I256ValToBeBytes(..) => HostFn::I256ValToBeBytes,
            RawModInt::ObjFromI128Pieces(..) => HostFn::ObjFromI128Pieces,
            RawModInt::ObjFromI256Pieces(..) => HostFn::ObjFromI256Pieces,
            RawModInt::ObjFromI64(..) => HostFn::ObjFromI64,
            RawModInt::ObjFromU128Pieces(..) => HostFn::ObjFromU128Pieces,
            RawModInt::ObjFromU256Pieces(..) => HostFn::ObjFromU256Pieces,
            RawModInt::ObjFromU64(..) => HostFn::ObjFromU64,
            RawModInt::ObjToI128Hi64(..) => HostFn::ObjToI128Hi64,
            RawModInt::ObjToI128Lo64(..) => HostFn::ObjToI128Lo64,
            RawModInt::ObjToI256HiHi(..) => HostFn::ObjToI256HiHi,
            RawModInt::ObjToI256HiLo(..) => HostFn::ObjToI256HiLo,
            RawModInt::ObjToI256LoHi(..) => HostFn::ObjToI256LoHi,
            RawModInt::ObjToI256LoLo(..) => HostFn::ObjToI256LoLo,
            RawModInt::ObjToI64(..) => HostFn::ObjToI64,
            RawModInt::ObjToU128Hi64(..) => HostFn::ObjToU128Hi64,
            RawModInt::ObjToU128Lo64(..) => HostFn::ObjToU128Lo64,
            RawModInt::ObjToU256HiHi(..) => HostFn::ObjToU256HiHi,
            RawModInt::ObjToU256HiLo(..) => HostFn::ObjToU256HiLo,
            RawModInt::ObjToU256LoHi(..) => HostFn::ObjToU256LoHi,
            RawModInt::ObjToU256LoLo(..) => HostFn::ObjToU256LoLo,
            RawModInt::ObjToU64(..) => HostFn::ObjToU64,
            RawModInt::TimepointObjFromU64(..) => HostFn::TimepointObjFromU64,
            RawModInt::TimepointObjToU64(..) => HostFn::TimepointObjToU64,
            RawModInt::U256Add(..) => HostFn::U256Add,
            RawModInt::U256Div(..) => HostFn::U256Div,
            RawModInt::U256Mul(..) => HostFn::U256Mul,
            RawModInt::U256Pow(..) => HostFn::U256Pow,
            RawModInt::U256RemEuclid(..) => HostFn::U256RemEuclid,
            RawModInt::U256Shl(..) => HostFn::U256Shl,
            RawModInt::U256Shr(..) => HostFn::U256Shr,
            RawModInt::U256Sub(..) => HostFn::U256Sub,
            RawModInt::U256ValFromBeBytes(..) => HostFn::U256ValFromBeBytes,
            RawModInt::U256ValToBeBytes(..) => HostFn::U256ValToBeBytes,
        }
    }

    /// The instruction's operands, in slot order.
    pub open spec fn operands(self) -> Seq<Operand> {
        match self {
            RawModInt::DurationObjFromU64(a0) => seq![Operand::U64(a0)],
            RawModInt::DurationObjToU64(a0) => seq![Operand::Word(a0)],
            RawModInt::I256Add(a0, a1) => seq![Operand::Word(a0), Operand::Word(a1)],
            RawModInt::I256Div(a0, a1) => seq![Operand::Word(a0), Operand::Word(a1)],
            RawModInt::I256Mul(a0, a1) => seq![Operand::Word(a0), Operand::Word(a1)],
            RawModInt::I256Pow(a0, a1) => seq![Operand::Word(a0), Operand::U32(a1)],
            RawModInt::I256RemEuclid(a0, a1) => seq![Operand::Word(a0), Operand::Word(a1)],
            RawModInt::I256Shl(a0, a1) => seq![Operand::Word(a0), Operand::U32(a1)],
            RawModInt::I256Shr(a0, a1) => seq![Operand::Word(a0), Operand::U32(a1)],
            RawModInt::I256Sub(a0, a1) => seq![Operand::Word(a0), Operand::Word(a1)],
            RawModInt::I256ValFromBeBytes(a0) => seq![Operand::Word(a0)],
            RawModInt::I256ValToBeBytes(a0) => seq![Operand::Word(a0)],
            RawModInt::ObjFromI128Pieces(a0, a1) => seq![Operand::I64(a0), Operand::U64(a1)],
            RawModInt::ObjFromI256Pieces(a0, a1, a2, a3) => seq![Operand::I64(a0), Operand::U64(a1), Operand::U64(a2), Operand::U64(a3)],
            RawModInt::ObjFromI64(a0) => seq![Operand::I64(a0)],
            RawModInt::ObjFromU128Pieces(a0, a1) => seq![Operand::U64(a0), Operand::U64(a1)],
            RawModInt::ObjFromU256Pieces(a0, a1, a2, a3) => seq![Operand::U64(a0), Operand::U64(a1), Operand::U64(a2), Operand::U64(a3)],
            RawModInt::ObjFromU64(a0) => seq![Operand::U64(a0)],
            RawModInt::ObjToI128Hi64(a0) => seq![Operand::Word(a0)],
            RawModInt::ObjToI128Lo64(a0) => seq![Operand::Word(a0)],
            RawModInt::ObjToI256HiHi(a0) => seq![Operand::Word(a0)],
            RawModInt::ObjToI256HiLo(a0) => seq![Operand::Word(a0)],
            RawModInt::ObjToI256LoHi(a0) => seq![Operand::Word(a0)],
            RawModInt::ObjToI256LoLo(a0) => seq![Operand::Word(a0)],
            RawModInt::ObjToI64(a0) => seq![Operand::Word(a0)],
            RawModInt::ObjToU128Hi64(a0) => seq![Operand::Word(a0)],
            RawModInt::ObjToU128Lo64(a0) => seq![Operand::Word(a0)],
            RawModInt::ObjToU256HiHi(a0) => seq![Operand::Word(a0)],
            RawModInt::ObjToU256HiLo(a0) => seq![Operand::Word(a0)],
            RawModInt::ObjToU256LoHi(a0) => seq![Operand::Word(a0)],
            RawModInt::ObjToU256LoLo(a0) => seq![Operand::Word(a0)],
            RawModInt::ObjToU64(a0) => seq![Operand::Word(a0)],
            RawModInt::TimepointObjFromU64(a0) => seq![Operand::U64(a0)],
            RawModInt::TimepointObjToU64(a0) => seq![Operand::Word(a0)],
            RawModInt::U256Add(a0, a1) => seq![Operand::Word(a0), Operand::Word(a1)],
            RawModInt::U256Div(a0, a1) => seq![Operand::Word(a0), Operand::Word(a1)],
            RawModInt::U256Mul(a0, a1) => seq![Operand::Word(a0), Operand::Word(a1)],
            RawModInt::U256Pow(a0, a1) => seq![Operand::Word(a0), Operand::U32(a1)],
            RawModInt::U256RemEuclid(a0, a1) => seq![Operand::Word(a0), Operand::Word(a1)],
            RawModInt::U256Shl(a0, a1) => seq![Operand::Word(a0), Operand::U32(a1)],
            RawModInt::U256Shr(a0, a1) => seq![Operand::Word(a0), Operand::U32(a1)],
            RawModInt::U256Sub(a0, a1) => seq![Operand::Word(a0), Operand::Word(a1)],
            RawModInt::U256ValFromBeBytes(a0) => seq![Operand::Word(a0)],
            RawModInt::U256ValToBeBytes(a0) => seq![Operand::Word(a0)],
        }
    }

    /// The instruction of this module that calls `f` with the operands
    /// `ops`, if `f` is in this module and `ops` fit its parameters.
    pub open spec fn spec_from_parts(f: HostFn, ops: Seq<Operand>) -> Option<RawModInt> {
        if !(raw_conforms(f.params(), ops)) {
            None
        } else {
            match f {
                HostFn::DurationObjFromU64 => Some(RawModInt::DurationObjFromU64(ops[0].u64_part())),
                HostFn::DurationObjToU64 => Some(RawModInt::DurationObjToU64(ops[0].word_part())),
                HostFn::I256Add => Some(RawModInt::I256Add(ops[0].word_part(), ops[1].word_part())),
                HostFn::I256Div => Some(RawModInt::I256Div(ops[0].word_part(), ops[1].word_part())),
                HostFn::I256Mul => Some(RawModInt::I256Mul(ops[0].word_part(), ops[1].word_part())),
                HostFn::I256Pow => Some(RawModInt::I256Pow(ops[0].word_part(), ops[1].u32_part())),
                HostFn::I256RemEuclid => Some(RawModInt::I256RemEuclid(ops[0].word_part(), ops[1].word_part())),
                HostFn::I256Shl => Some(RawModInt::I256Shl(ops[0].word_part(), ops[1].u32_part())),
                HostFn::I256Shr => Some(RawModInt::I256Shr(ops[0].word_part(), ops[1].u32_part())),
                HostFn::I256Sub => Some(RawModInt::I256Sub(ops[0].word_part(), ops[1].word_part())),
                HostFn::I256ValFromBeBytes => Some(RawModInt::I256ValFromBeBytes(ops[0].word_part())),
                HostFn::I256ValToBeBytes => Some(RawModInt::I256ValToBeBytes(ops[0].word_part())),
                HostFn::ObjFromI128Pieces => Some(RawModInt::ObjFromI128Pieces(ops[0].i64_part(), ops[1].u64_part())),
                HostFn::ObjFromI256Pieces => Some(RawModInt::ObjFromI256Pieces(ops[0].i64_part(), ops[1].u64_part(), ops[2].u64_part(), ops[3].u64_part())),
                HostFn::ObjFromI64 => Some(RawModInt::ObjFromI64(ops[0].i64_part())),
                HostFn::ObjFromU128Pieces => Some(RawModInt::ObjFromU128Pieces(ops[0].u64_part(), ops[1].u64_part())),
                HostFn::ObjFromU256Pieces => Some(RawModInt::ObjFromU256Pieces(ops[0].u64_part(), ops[1].u64_part(), ops[2].u64_part(), ops[3].u64_part())),
                HostFn::ObjFromU64 => Some(RawModInt::ObjFromU64(ops[0].u64_part())),
                HostFn::ObjToI128Hi64 => Some(RawModInt::ObjToI128Hi64(ops[0].word_part())),
                HostFn::ObjToI128Lo64 => Some(RawModInt::ObjToI128Lo64(ops[0].word_part())),
                HostFn::ObjToI256HiHi => Some(RawModInt::ObjToI256HiHi(ops[0].word_part())),
                HostFn::ObjToI256HiLo => Some(RawModInt::ObjToI256HiLo(ops[0].word_part())),
                HostFn::ObjToI256LoHi => Some(RawModInt::ObjToI256LoHi(ops[0].word_part())),
                HostFn::ObjToI256LoLo => Some(RawModInt::ObjToI256LoLo(ops[0].word_part())),
                HostFn::ObjToI64 => Some(RawModInt::ObjToI64(ops[0].word_part())),
                HostFn::ObjToU128Hi64 => Some(RawModInt::ObjToU128Hi64(ops[0].word_part())),
                HostFn::ObjToU128Lo64 => Some(RawModInt::ObjToU128Lo64(ops[0].word_part())),
                HostFn::ObjToU256HiHi => Some(RawModInt::ObjToU256HiHi(ops[0].word_part())),
                HostFn::ObjToU256HiLo => Some(RawModInt::ObjToU256HiLo(ops[0].word_part())),
                HostFn::ObjToU256LoHi => Some(RawModInt::ObjToU256LoHi(ops[0].word_part())),
                HostFn::ObjToU256LoLo => Some(RawModInt::ObjToU256LoLo(ops[0].word_part())),
                HostFn::ObjToU64 => Some(RawModInt::ObjToU64(ops[0].word_part())),
                HostFn::TimepointObjFromU64 => Some(RawModInt::TimepointObjFromU64(ops[0].u64_part())),
                HostFn::TimepointObjToU64 => Some(RawModInt::TimepointObjToU64(ops[0].word_part())),
                HostFn::U256Add => Some(RawModInt::U256Add(ops[0].word_part(), ops[1].word_part())),
                HostFn::U256Div => Some(RawModInt::U256Div(ops[0].word_part(), ops[1].word_part())),
                HostFn::U256Mul => Some(RawModInt::U256Mul(ops[0].word_part(), ops[1].word_part())),
                HostFn::U256Pow => Some(RawModInt::U256Pow(ops[0].word_part(), ops[1].u32_part())),
                HostFn::U256RemEuclid => Some(RawModInt::U256RemEuclid(ops[0].word_part(), ops[1].word_part())),
                HostFn::U256Shl => Some(RawModInt::U256Shl(ops[0].word_part(), ops[1].u32_part())),
                HostFn::U256Shr => Some(RawModInt::U256Shr(ops[0].word_part(), ops[1].u32_part())),
                HostFn::U256Sub => Some(RawModInt::U256Sub(ops[0].word_part(), ops[1].word_part())),
                HostFn::U256ValFromBeBytes => Some(RawModInt::U256ValFromBeBytes(ops[0].word_part())),
                HostFn::U256ValToBeBytes => Some(RawModInt::U256ValToBeBytes(ops[0].word_part())),
                _ => None,
            }
        }
    }

    /// The host function the instruction calls.
    pub fn host_fn(&self) -> (r: HostFn)
        ensures
            r == self.opcode(),
    {
        match self {
            RawModInt::DurationObjFromU64(..) => HostFn::DurationObjFromU64,
            RawModInt::DurationObjToU64(..) => HostFn::DurationObjToU64,
            RawModInt::I256Add(..) => HostFn::I256Add,
            RawModInt::I256Div(..) => HostFn::I256Div,
            RawModInt::I256Mul(..) => HostFn::I256Mul,
            RawModInt::I256Pow(..) => HostFn::I256Pow,
            RawModInt::I256RemEuclid(..) => HostFn::I256RemEuclid,
            RawModInt::I256Shl(..) => HostFn::I256Shl,
            RawModInt::I256Shr(..) => HostFn::I256Shr,
            RawModInt::I256Sub(..) => HostFn::I256Sub,
            RawModInt::I256ValFromBeBytes(..) => HostFn::I256ValFromBeBytes,
            RawModInt::I256ValToBeBytes(..) => HostFn::I256ValToBeBytes,
            RawModInt::ObjFromI128Pieces(..) => HostFn::ObjFromI128Pieces,
            RawModInt::ObjFromI256Pieces(..) => HostFn::ObjFromI256Pieces,
            RawModInt::ObjFromI64(..) => HostFn::ObjFromI64,
            RawModInt::ObjFromU128Pieces(..) => HostFn::ObjFromU128Pieces,
            RawModInt::ObjFromU256Pieces(..) => HostFn::ObjFromU256Pieces,
            RawModInt::ObjFromU64(..) => HostFn::ObjFromU64,
            RawModInt::ObjToI128Hi64(..) => HostFn::ObjToI128Hi64,
            RawModInt::ObjToI128Lo64(..) => HostFn::ObjToI128Lo64,
            RawModInt::ObjToI256HiHi(..) => HostFn::ObjToI256HiHi,
            RawModInt::ObjToI256HiLo(..) => HostFn::ObjToI256HiLo,
            RawModInt::ObjToI256LoHi(..) => HostFn::ObjToI256LoHi,
            RawModInt::ObjToI256LoLo(..) => HostFn::ObjToI256LoLo,
            RawModInt::ObjToI64(..) => HostFn::ObjToI64,
            RawModInt::ObjToU128Hi64(..) => HostFn::ObjToU128Hi64,
            RawModInt::ObjToU128Lo64(..) => HostFn::ObjToU128Lo64,
            RawModInt::ObjToU256HiHi(..) => HostFn::ObjToU256HiHi,
            RawModInt::ObjToU256HiLo(..) => HostFn::ObjToU256HiLo,
            RawModInt::ObjToU256LoHi(..) => HostFn::ObjToU256LoHi,
            RawModInt::ObjToU256LoLo(..) => HostFn::ObjToU256LoLo,
            RawModInt::ObjToU64(..) => HostFn::ObjToU64,
            RawModInt::TimepointObjFromU64(..) => HostFn::TimepointObjFromU64,
            RawModInt::TimepointObjToU64(..) => HostFn::TimepointObjToU64,
            RawModInt::U256Add(..) => HostFn::U256Add,
            RawModInt::U256Div(..) => HostFn::U256Div,
            RawModInt::U256Mul(..) => HostFn::U256Mul,
            RawModInt::U256Pow(..) => HostFn::U256Pow,
            RawModInt::U256RemEuclid(..) => HostFn::U256RemEuclid,
            RawModInt::U256Shl(..) => HostFn::U256Shl,
            RawModInt::U256Shr(..) => HostFn::U256Shr,
            RawModInt::U256Sub(..) => HostFn::U256Sub,
            RawModInt::U256ValFromBeBytes(..) => HostFn::U256ValFromBeBytes,
            RawModInt::U256ValToBeBytes(..) => HostFn::U256ValToBeBytes,
        }
    }

    /// The instruction's operands, in slot order.
    pub fn operand_list(&self) -> (r: Vec<Operand>)
        ensures
            r@ == self.operands(),
    {
        let r = match self {
            RawModInt::DurationObjFromU64(a0) => vec![Operand::U64(*a0)],
            RawModInt::DurationObjToU64(a0) => vec![Operand::Word(*a0)],
            RawModInt::I256Add(a0, a1) => vec![Operand::Word(*a0), Operand::Word(*a1)],
            RawModInt::I256Div(a0, a1) => vec![Operand::Word(*a0), Operand::Word(*a1)],
            RawModInt::I256Mul(a0, a1) => vec![Operand::Word(*a0), Operand::Word(*a1)],
            RawModInt::I256Pow(a0, a1) => vec![Operand::Word(*a0), Operand::U32(*a1)],
            RawModInt::I256RemEuclid(a0, a1) => vec![Operand::Word(*a0), Operand::Word(*a1)],
            RawModInt::I256Shl(a0, a1) => vec![Operand::Word(*a0), Operand::U32(*a1)],
            RawModInt::I256Shr(a0, a1) => vec![Operand::Word(*a0), Operand::U32(*a1)],
            RawModInt::I256Sub(a0, a1) => vec![Operand::Word(*a0), Operand::Word(*a1)],
            RawModInt::I256ValFromBeBytes(a0) => vec![Operand::Word(*a0)],
            RawModInt::I256ValToBeBytes(a0) => vec![Operand::Word(*a0)],
            RawModInt::ObjFromI128Pieces(a0, a1) => vec![Operand::I64(*a0), Operand::U64(*a1)],
            RawModInt::ObjFromI256Pieces(a0, a1, a2, a3) => vec![Operand::I64(*a0), Operand::U64(*a1), Operand::U64(*a2), Operand::U64(*a3)],
            RawModInt::ObjFromI64(a0) => vec![Operand::I64(*a0)],
            RawModInt::ObjFromU128Pieces(a0, a1) => vec![Operand::U64(*a0), Operand::U64(*a1)],
            RawModInt::ObjFromU256Pieces(a0, a1, a2, a3) => vec![Operand::U64(*a0), Operand::U64(*a1), Operand::U64(*a2), Operand::U64(*a3)],
            RawModInt::ObjFromU64(a0) => vec![Operand::U64(*a0)],
            RawModInt::ObjToI128Hi64(a0) => vec![Operand::Word(*a0)],
            RawModInt::ObjToI128Lo64(a0) => vec![Operand::Word(*a0)],
            RawModInt::ObjToI256HiHi(a0) => vec![Operand::Word(*a0)],
            RawModInt::ObjToI256HiLo(a0) => vec![Operand::Word(*a0)],
            RawModInt::ObjToI256LoHi(a0) => vec![Operand::Word(*a0)],
            RawModInt::ObjToI256LoLo(a0) => vec![Operand::Word(*a0)],
            RawModInt::ObjToI64(a0) => vec![Operand::Word(*a0)],
            RawModInt::ObjToU128Hi64(a0) => vec![Operand::Word(*a0)],
            RawModInt::ObjToU128Lo64(a0) => vec![Operand::Word(*a0)],
            RawModInt::ObjToU256HiHi(a0) => vec![Operand::Word(*a0)],
            RawModInt::ObjToU256HiLo(a0) => vec![Operand::Word(*a0)],
            RawModInt::ObjToU256LoHi(a0) => vec![Operand::Word(*a0)],
            RawModInt::ObjToU256LoLo(a0) => vec![Operand::Word(*a0)],
            RawModInt::ObjToU64(a0) => vec![Operand::Word(*a0)],
            RawModInt::TimepointObjFromU64(a0) => vec![Operand::U64(*a0)],
            RawModInt::TimepointObjToU64(a0) => vec![Operand::Word(*a0)],
            RawModInt::U256Add(a0, a1) => vec![Operand::Word(*a0), Operand::Word(*a1)],
            RawModInt::U256Div(a0, a1) => vec![Operand::Word(*a0), Operand::Word(*a1)],
            RawModInt::U256Mul(a0, a1) => vec![Operand::Word(*a0), Operand::Word(*a1)],
            RawModInt::U256Pow(a0, a1) => vec![Operand::Word(*a0), Operand::U32(*a1)],
            RawModInt::U256RemEuclid(a0, a1) => vec![Operand::Word(*a0), Operand::Word(*a1)],
            RawModInt::U256Shl(a0, a1) => vec![Operand::Word(*a0), Operand::U32(*a1)],
            RawModInt::U256Shr(a0, a1) => vec![Operand::Word(*a0), Operand::U32(*a1)],
            RawModInt::U256Sub(a0, a1) => vec![Operand::Word(*a0), Operand::Word(*a1)],
            RawModInt::U256ValFromBeBytes(a0) => vec![Operand::Word(*a0)],
            RawModInt::U256ValToBeBytes(a0) => vec![Operand::Word(*a0)],
        };
        assert(r@ =~= self.operands());
        r
    }

    /// The instruction of this module that calls `f` with the operands
    /// `ops`, if `f` is in this module and `ops` fit its parameters.
    pub fn from_parts(f: HostFn, ops: &Vec<Operand>) -> (r: Option<RawModInt>)
        ensures
            r == Self::spec_from_parts(f, ops@),
    {
        if !conforms_raw(&f.param_list(), ops) {
            return None;
        }
        match f {
            HostFn::DurationObjFromU64 => Some(RawModInt::DurationObjFromU64(ops[0].get_u64())),
            HostFn::DurationObjToU64 => Some(RawModInt::DurationObjToU64(ops[0].get_word())),
            HostFn::I256Add => Some(RawModInt::I256Add(ops[0].get_word(), ops[1].get_word())),
            HostFn::I256Div => Some(RawModInt::I256Div(ops[0].get_word(), ops[1].get_word())),
            HostFn::I256Mul => Some(RawModInt::I256Mul(ops[0].get_word(), ops[1].get_word())),
            HostFn::I256Pow => Some(RawModInt::I256Pow(ops[0].get_word(), ops[1].get_u32())),
            HostFn::I256RemEuclid => Some(RawModInt::I256RemEuclid(ops[0].get_word(), ops[1].get_word())),
            HostFn::I256Shl => Some(RawModInt::I256Shl(ops[0].get_word(), ops[1].get_u32())),
            HostFn::I256Shr => Some(RawModInt::I256Shr(ops[0].get_word(), ops[1].get_u32())),
            HostFn::I256Sub => Some(RawModInt::I256Sub(ops[0].get_word(), ops[1].get_word())),
            HostFn::I256ValFromBeBytes => Some(RawModInt::I256ValFromBeBytes(ops[0].get_word())),
            HostFn::I256ValToBeBytes => Some(RawModInt::I256ValToBeBytes(ops[0].get_word())),
            HostFn::ObjFromI128Pieces => Some(RawModInt::ObjFromI128Pieces(ops[0].get_i64(), ops[1].get_u64())),
            HostFn::ObjFromI256Pieces => Some(RawModInt::ObjFromI256Pieces(ops[0].get_i64(), ops[1].get_u64(), ops[2].get_u64(), ops[3].get_u64())),
            HostFn::ObjFromI64 => Some(RawModInt::ObjFromI64(ops[0].get_i64())),
            HostFn::ObjFromU128Pieces => Some(RawModInt::ObjFromU128Pieces(ops[0].get_u64(), ops[1].get_u64())),
            HostFn::ObjFromU256Pieces => Some(RawModInt::ObjFromU256Pieces(ops[0].get_u64(), ops[1].get_u64(), ops[2].get_u64(), ops[3].get_u64())),
            HostFn::ObjFromU64 => Some(RawModInt::ObjFromU64(ops[0].get_u64())),
            HostFn::ObjToI128Hi64 => Some(RawModInt::ObjToI128Hi64(ops[0].get_word())),
            HostFn::ObjToI128Lo64 => Some(RawModInt::ObjToI128Lo64(ops[0].get_word())),
            HostFn::ObjToI256HiHi => Some(RawModInt::ObjToI256HiHi(ops[0].get_word())),
            HostFn::ObjToI256HiLo => Some(RawModInt::ObjToI256HiLo(ops[0].get_word())),
            HostFn::ObjToI256LoHi => Some(RawModInt::ObjToI256LoHi(ops[0].get_word())),
            HostFn::ObjToI256LoLo => Some(RawModInt::ObjToI256LoLo(ops[0].get_word())),
            HostFn::ObjToI64 => Some(RawModInt::ObjToI64(ops[0].get_word())),
            HostFn::ObjToU128Hi64 => Some(RawModInt::ObjToU128Hi64(ops[0].get_word())),
            HostFn::ObjToU128Lo64 => Some(RawModInt::ObjToU128Lo64(ops[0].get_word())),
            HostFn::ObjToU256HiHi => Some(RawModInt::ObjToU256HiHi(ops[0].get_word())),
            HostFn::ObjToU256HiLo => Some(RawModInt::ObjToU256HiLo(ops[0].get_word())),
            HostFn::ObjToU256LoHi => Some(RawModInt::ObjToU256LoHi(ops[0].get_word())),
            HostFn::ObjToU256LoLo => Some(RawModInt::ObjToU256LoLo(ops[0].get_word())),
            HostFn::ObjToU64 => Some(RawModInt::ObjToU64(ops[0].get_word())),
            HostFn::TimepointObjFromU64 => Some(RawModInt::TimepointObjFromU64(ops[0].get_u64())),
            HostFn::TimepointObjToU64 => Some(RawModInt::TimepointObjToU64(ops[0].get_word())),
            HostFn::U256Add => Some(RawModInt::U256Add(ops[0].get_word(), ops[1].get_word())),
            HostFn::U256Div => Some(RawModInt::U256Div(ops[0].get_word(), ops[1].get_word())),
            HostFn::U256Mul => Some(RawModInt::U256Mul(ops[0].get_word(), ops[1].get_word())),
            HostFn::U256Pow => Some(RawModInt::U256Pow(ops[0].get_word(), ops[1].get_u32())),
            HostFn::U256RemEuclid => Some(RawModInt::U256RemEuclid(ops[0].get_word(), ops[1].get_word())),
            HostFn::U256Shl => Some(RawModInt::U256Shl(ops[0].get_word(), ops[1].get_u32())),
            HostFn::U256Shr => Some(RawModInt::U256Shr(ops[0].get_word(), ops[1].get_u32())),
            HostFn::U256Sub => Some(RawModInt::U256Sub(ops[0].get_word(), ops[1].get_word())),
            HostFn::U256ValFromBeBytes => Some(RawModInt::U256ValFromBeBytes(ops[0].get_word())),
            HostFn::U256ValToBeBytes => Some(RawModInt::U256ValToBeBytes(ops[0].get_word())),
            _ => None,
        }
    }
}

proof fn lemma_int_inverse(m: RawModInt)
    ensures
        m.opcode().module() == Module::Int,
        raw_conforms(m.opcode().params(), m.operands()),
        RawModInt::spec_from_parts(m.opcode(), m.operands()) == Some(m),
{
}

proof fn lemma_int_realizes(f: HostFn, ops: Seq<Operand>)
    requires
        f.module() == Module::Int,
        raw_conforms(f.params(), ops),
    ensures
        RawModInt::spec_from_parts(f, ops) matches Some(m) && m.opcode() == f && m.operands() == ops,
{
    if ops.len() > 0 {
        assert(ops[0].raw_fits(f.params()[0]));
    }
    if ops.len() > 1 {
        assert(ops[1].raw_fits(f.params()[1]));
    }
    if ops.len() > 2 {
        assert(ops[2].raw_fits(f.params()[2]));
    }
    if ops.len() > 3 {
        assert(ops[3].raw_fits(f.params()[3]));
    }
    assert(RawModInt::spec_from_parts(f, ops).unwrap().operands() =~= ops);
}

/// The raw tier's instructions of the `ledger` module: one per host function.
#[derive(Clone, Copy, Debug, PartialEq, Eq)]
pub enum RawModLedger {
    CreateAssetContract(FakeVal),
    CreateContract(FakeVal, FakeVal, FakeVal),
    CreateContractWithConstructor(FakeVal, FakeVal, FakeVal, FakeVal),
    DelContractData(FakeVal, FakeVal),
    ExtendContractCodeTtl(FakeVal, u32, u32),
    ExtendContractDataTtl(FakeVal, FakeVal, u32, u32),
    ExtendContractInstanceAndCodeTtl(FakeVal, u32, u32),
    ExtendContractInstanceTtl(FakeVal, u32, u32),
    ExtendCurrentContractInstanceAndCodeTtl(u32, u32),
    GetAssetContractId(FakeVal),
    GetContractData(FakeVal, FakeVal),
    GetContractId(FakeVal, FakeVal),
    HasContractData(FakeVal, FakeVal),
    PutContractData(FakeVal, FakeVal, FakeVal),
    UpdateCurrentContractWasm(FakeVal),
    UploadWasm(FakeVal),
}

impl RawModLedger {
    /// The host function the instruction calls.
    pub open spec fn opcode(self) -> HostFn {
        match self {
            RawModLedger::CreateAssetContract(..) => HostFn::CreateAssetContract,
            RawModLedger::CreateContract(..) => HostFn::CreateContract,
            RawModLedger::CreateContractWithConstructor(..) => HostFn::CreateContractWithConstructor,
            RawModLedger::DelContractData(..) => HostFn::DelContractData,
            RawModLedger::ExtendContractCodeTtl(..) => HostFn::ExtendContractCodeTtl,
            RawModLedger::ExtendContractDataTtl(..) => HostFn::ExtendContractDataTtl,
            RawModLedger::ExtendContractInstanceAndCodeTtl(..) => HostFn::ExtendContractInstanceAndCodeTtl,
            RawModLedger::ExtendContractInstanceTtl(..) => HostFn::ExtendContractInstanceTtl,
            RawModLedger::ExtendCurrentContractInstanceAndCodeTtl(..) => HostFn::ExtendCurrentContractInstanceAndCodeTtl,
            RawModLedger::GetAssetContractId(..) => HostFn::GetAssetContractId,
            RawModLedger::GetContractData(..) => HostFn::GetContractData,
            RawModLedger::GetContractId(..) => HostFn::GetContractId,
            RawModLedger::HasContractData(..) => HostFn::HasContractData,
            RawModLedger::PutContractData(..) => HostFn::PutContractData,
            RawModLedger::UpdateCurrentContractWasm(..) => HostFn::UpdateCurrentContractWasm,
            RawModLedger::UploadWasm(..) => HostFn::UploadWasm,
        }
    }

    /// The instruction's operands, in slot order.
    pub open spec fn operands(self) -> Seq<Operand> {
        match self {
            RawModLedger::CreateAssetContract(a0) => seq![Operand::Word(a0)],
            RawModLedger::CreateContract(a0, a1, a2) => seq![Operand::Word(a0), Operand::Word(a1), Operand::Word(a2)],
            RawModLedger::CreateContractWithConstructor(a0, a1, a2, a3) => seq![Operand::Word(a0), Operand::Word(a1), Operand::Word(a2), Operand::Word(a3)],
            RawModLedger::DelContractData(a0, a1) => seq![Operand::Word(a0), Operand::Word(a1)],
            RawModLedger::ExtendContractCodeTtl(a0, a1, a2) => seq![Operand::Word(a0), Operand::U32(a1), Operand::U32(a2)],
            RawModLedger::ExtendContractDataTtl(a0, a1, a2, a3) => seq![Operand::Word(a0), Operand::Word(a1), Operand::U32(a2), Operand::U32(a3)],
            RawModLedger::ExtendContractInstanceAndCodeTtl(a0, a1, a2) => seq![Operand::Word(a0), Operand::U32(a1), Operand::U32(a2)],
            RawModLedger::ExtendContractInstanceTtl(a0, a1, a2) => seq![Operand::Word(a0), Operand::U32(a1), Operand::U32(a2)],
            RawModLedger::ExtendCurrentContractInstanceAndCodeTtl(a0, a1) => seq![Operand::U32(a0), Operand::U32(a1)],
            RawModLedger::GetAssetContractId(a0) => seq![Operand::Word(a0)],
            RawModLedger::GetContractData(a0, a1) => seq![Operand::Word(a0), Operand::Word(a1)],
            RawModLedger::GetContractId(a0, a1) => seq![Operand::Word(a0), Operand::Word(a1)],
            RawModLedger::HasContractData(a0, a1) => seq![Operand::Word(a0), Operand::Word(a1)],
            RawModLedger::PutContractData(a0, a1, a2) => seq![Operand::Word(a0), Operand::Word(a1), Operand::Word(a2)],
            RawModLedger::UpdateCurrentContractWasm(a0) => seq![Operand::Word(a0)],
            RawModLedger::UploadWasm(a0) => seq![Operand::Word(a0)],
        }
    }

    /// The instruction of this module that calls `f` with the operands
    /// `ops`, if `f` is in this module and `ops` fit its parameters.
    pub open spec fn spec_from_parts(f: HostFn, ops: Seq<Operand>) -> Option<RawModLedger> {
        if !(raw_conforms(f.params(), ops)) {
            None
        } else {
            match f {
                HostFn::CreateAssetContract => Some(RawModLedger::CreateAssetContract(ops[0].word_part())),
                HostFn::CreateContract => Some(RawModLedger::CreateContract(ops[0].word_part(), ops[1].word_part(), ops[2].word_part())),
                HostFn::CreateContractWithConstructor => Some(RawModLedger::CreateContractWithConstructor(ops[0].word_part(), ops[1].word_part(), ops[2].word_part(), ops[3].word_part())),
                HostFn::DelContractData => Some(RawModLedger::DelContractData(ops[0].word_part(), ops[1].word_part())),
                HostFn::ExtendContractCodeTtl => Some(RawModLedger::ExtendContractCodeTtl(ops[0].word_part(), ops[1].u32_part(), ops[2].u32_part())),
                HostFn::ExtendContractDataTtl => Some(RawModLedger::ExtendContractDataTtl(ops[0].word_part(), ops[1].word_part(), ops[2].u32_part(), ops[3].u32_part())),
                HostFn::ExtendContractInstanceAndCodeTtl => Some(RawModLedger::ExtendContractInstanceAndCodeTtl(ops[0].word_part(), ops[1].u32_part(), ops[2].u32_part())),
                HostFn::ExtendContractInstanceTtl => Some(RawModLedger::ExtendContractInstanceTtl(ops[0].word_part(), ops[1].u32_part(), ops[2].u32_part())),
                HostFn::ExtendCurrentContractInstanceAndCodeTtl => Some(RawModLedger::ExtendCurrentContractInstanceAndCodeTtl(ops[0].u32_part(), ops[1].u32_part())),
                HostFn::GetAssetContractId => Some(RawModLedger::GetAssetContractId(ops[0].word_part())),
                HostFn::GetContractData => Some(RawModLedger::GetContractData(ops[0].word_part(), ops[1].word_part())),
                HostFn::GetContractId => Some(RawModLedger::GetContractId(ops[0].word_part(), ops[1].word_part())),
                HostFn::HasContractData => Some(RawModLedger::HasContractData(ops[0].word_part(), ops[1].word_part())),
                HostFn::PutContractData => Some(RawModLedger::PutContractData(ops[0].word_part(), ops[1].word_part(), ops[2].word_part())),
                HostFn::UpdateCurrentContractWasm => Some(RawModLedger::UpdateCurrentContractWasm(ops[0].word_part())),
                HostFn::UploadWasm => Some(RawModLedger::UploadWasm(ops[0].word_part())),
                _ => None,
            }
        }
    }

    /// The host function the instruction calls.
    pub fn host_fn(&self) -> (r: HostFn)
        ensures
            r == self.opcode(),
    {
        match self {
            RawModLedger::CreateAssetContract(..) => HostFn::CreateAssetContract,
            RawModLedger::CreateContract(..) => HostFn::CreateContract,
            RawModLedger::CreateContractWithConstructor(..) => HostFn::CreateContractWithConstructor,
            RawModLedger::DelContractData(..) => HostFn::DelContractData,
            RawModLedger::ExtendContractCodeTtl(..) => HostFn::ExtendContractCodeTtl,
            RawModLedger::ExtendContractDataTtl(..) => HostFn::ExtendContractDataTtl,
            RawModLedger::ExtendContractInstanceAndCodeTtl(..) => HostFn::ExtendContractInstanceAndCodeTtl,
            RawModLedger::ExtendContractInstanceTtl(..) => HostFn::ExtendContractInstanceTtl,
            RawModLedger::ExtendCurrentContractInstanceAndCodeTtl(..) => HostFn::ExtendCurrentContractInstanceAndCodeTtl,
            RawModLedger::GetAssetContractId(..) => HostFn::GetAssetContractId,
            RawModLedger::GetContractData(..) => HostFn::GetContractData,
            RawModLedger::GetContractId(..) => HostFn::GetContractId,
            RawModLedger::HasContractData(..) => HostFn::HasContractData,
            RawModLedger::PutContractData(..) => HostFn::PutContractData,
            RawModLedger::UpdateCurrentContractWasm(..) => HostFn::UpdateCurrentContractWasm,
            RawModLedger::UploadWasm(..) => HostFn::UploadWasm,
        }
    }

    /// The instruction's operands, in slot order.
    pub fn operand_list(&self) -> (r: Vec<Operand>)
        ensures
            r@ == self.operands(),
    {
        let r = match self {
            RawModLedger::CreateAssetContract(a0) => vec![Operand::Word(*a0)],
            RawModLedger::CreateContract(a0, a1, a2) => vec![Operand::Word(*a0), Operand::Word(*a1), Operand::Word(*a2)],
            RawModLedger::CreateContractWithConstructor(a0, a1, a2, a3) => vec![Operand::Word(*a0), Operand::Word(*a1), Operand::Word(*a2), Operand::Word(*a3)],
            RawModLedger::DelContractData(a0, a1) => vec![Operand::Word(*a0), Operand::Word(*a1)],
            RawModLedger::ExtendContractCodeTtl(a0, a1, a2) => vec![Operand::Word(*a0), Operand::U32(*a1), Operand::U32(*a2)],
            RawModLedger::ExtendContractDataTtl(a0, a1, a2, a3) => vec![Operand::Word(*a0), Operand::Word(*a1), Operand::U32(*a2), Operand::U32(*a3)],
            RawModLedger::ExtendContractInstanceAndCodeTtl(a0, a1, a2) => vec![Operand::Word(*a0), Operand::U32(*a1), Operand::U32(*a2)],
            RawModLedger::ExtendContractInstanceTtl(a0, a1, a2) => vec![Operand::Word(*a0), Operand::U32(*a1), Operand::U32(*a2)],
            RawModLedger::ExtendCurrentContractInstanceAndCodeTtl(a0, a1) => vec![Operand::U32(*a0), Operand::U32(*a1)],
            RawModLedger::GetAssetContractId(a0) => vec![Operand::Word(*a0)],
            RawModLedger::GetContractData(a0, a1) => vec![Operand::Word(*a0), Operand::Word(*a1)],
            RawModLedger::GetContractId(a0, a1) => vec![Operand::Word(*a0), Operand::Word(*a1)],
            RawModLedger::HasContractData(a0, a1) => vec![Operand::Word(*a0), Operand::Word(*a1)],
            RawModLedger::PutContractData(a0, a1, a2) => vec![Operand::Word(*a0), Operand::Word(*a1), Operand::Word(*a2)],
            RawModLedger::UpdateCurrentContractWasm(a0) => vec![Operand::Word(*a0)],
            RawModLedger::UploadWasm(a0) => vec![Operand::Word(*a0)],
        };
        assert(r@ =~= self.operands());
        r
    }

    /// The instruction of this module that calls `f` with the operands
    /// `ops`, if `f` is in this module and `ops` fit its parameters.
    pub fn from_parts(f: HostFn, ops: &Vec<Operand>) -> (r: Option<RawModLedger>)
        ensures
            r == Self::spec_from_parts(f, ops@),
    {
        if !conforms_raw(&f.param_list(), ops) {
            return None;
        }
        match f {
            HostFn::CreateAssetContract => Some(RawModLedger::CreateAssetContract(ops[0].get_word())),
            HostFn::CreateContract => Some(RawModLedger::CreateContract(ops[0].get_word(), ops[1].get_word(), ops[2].get_word())),
            HostFn::CreateContractWithConstructor => Some(RawModLedger::CreateContractWithConstructor(ops[0].get_word(), ops[1].get_word(), ops[2].get_word(), ops[3].get_word())),
            HostFn::DelContractData => Some(RawModLedger::DelContractData(ops[0].get_word(), ops[1].get_word())),
            HostFn::ExtendContractCodeTtl => Some(RawModLedger::ExtendContractCodeTtl(ops[0].get_word(), ops[1].get_u32(), ops[2].get_u32())),
            HostFn::ExtendContractDataTtl => Some(RawModLedger::ExtendContractDataTtl(ops[0].get_word(), ops[1].get_word(), ops[2].get_u32(), ops[3].get_u32())),
            HostFn::ExtendContractInstanceAndCodeTtl => Some(RawModLedger::ExtendContractInstanceAndCodeTtl(ops[0].get_word(), ops[1].get_u32(), ops[2].get_u32())),
            HostFn::ExtendContractInstanceTtl => Some(RawModLedger::ExtendContractInstanceTtl(ops[0].get_word(), ops[1].get_u32(), ops[2].get_u32())),
            HostFn::ExtendCurrentContractInstanceAndCodeTtl => Some(RawModLedger::ExtendCurrentContractInstanceAndCodeTtl(ops[0].get_u32(), ops[1].get_u32())),
            HostFn::GetAssetContractId => Some(RawModLedger::GetAssetContractId(ops[0].get_word())),
            HostFn::GetContractData => Some(RawModLedger::GetContractData(ops[0].get_word(), ops[1].get_word())),
            HostFn::GetContractId => Some(RawModLedger::GetContractId(ops[0].get_word(), ops[1].get_word())),
            HostFn::HasContractData => Some(RawModLedger::HasContractData(ops[0].get_word(), ops[1].get_word())),
            HostFn::PutContractData => Some(RawModLedger::PutContractData(ops[0].get_word(), ops[1].get_word(), ops[2].get_word())),
            HostFn::UpdateCurrentContractWasm => Some(RawModLedger::UpdateCurrentContractWasm(ops[0].get_word())),
            HostFn::UploadWasm => Some(RawModLedger::UploadWasm(ops[0].get_word())),
            _ => None,
        }
    }
}

proof fn lemma_ledger_inverse(m: RawModLedger)
    ensures
        m.opcode().module() == Module::Ledger,
        raw_conforms(m.opcode().params(), m.operands()),
        RawModLedger::spec_from_parts(m.opcode(), m.operands()) == Some(m),
{
}

proof fn lemma_ledger_realizes(f: HostFn, ops: Seq<Operand>)
    requires
        f.module() == Module::Ledger,
        raw_conforms(f.params(), ops),
    ensures
        RawModLedger::spec_from_parts(f, ops) matches Some(m) && m.opcode() == f && m.operands() == ops,
{
    if ops.len() > 0 {
        assert(ops[0].raw_fits(f.params()[0]));
    }
    if ops.len() > 1 {
        assert(ops[1].raw_fits(f.params()[1]));
    }
    if ops.len() > 2 {
        assert(ops[2].raw_fits(f.params()[2]));
    }
    if ops.len() > 3 {
        assert(ops[3].raw_fits(f.params()[3]));
    }
    assert(RawModLedger::spec_from_parts(f, ops).unwrap().operands() =~= ops);
}

/// The raw tier's instructions of the `map` module: one per host function.
#[derive(Clone, Copy, Debug, PartialEq, Eq)]
pub enum RawModMap {
    MapDel(FakeVal, FakeVal),
    MapGet(FakeVal, FakeVal),
    MapHas(FakeVal, FakeVal),
    MapKeyByPos(FakeVal, u32),
    MapKeys(FakeVal),
    MapLen(FakeVal),
    MapNew,
    MapNewFromLinearMemory(u32, u32, u32),
    MapPut(FakeVal, FakeVal, FakeVal),
    MapUnpackToLinearMemory(FakeVal, u32, u32, u32),
    MapValByPos(FakeVal, u32),
    MapValues(FakeVal),
}

impl RawModMap {
    /// The host function the instruction calls.
    pub open spec fn opcode(self) -> HostFn {
        match self {
            RawModMap::MapDel(..) => HostFn::MapDel,
            RawModMap::MapGet(..) => HostFn::MapGet,
            RawModMap::MapHas(..) => HostFn::MapHas,
            RawModMap::MapKeyByPos(..) => HostFn::MapKeyByPos,
            RawModMap::MapKeys(..) => HostFn::MapKeys,
            RawModMap::MapLen(..) => HostFn::MapLen,
            RawModMap::MapNew => HostFn::MapNew,
            RawModMap::MapNewFromLinearMemory(..) => HostFn::MapNewFromLinearMemory,
            RawModMap::MapPut(..) => HostFn::MapPut,
            RawModMap::MapUnpackToLinearMemory(..) => HostFn::MapUnpackToLinearMemory,
            RawModMap::MapValByPos(..) => HostFn::MapValByPos,
            RawModMap::MapValues(..) => HostFn::MapValues,
        }
    }

    /// The instruction's operands, in slot order.
    pub open spec fn operands(self) -> Seq<Operand> {
        match self {
            RawModMap::MapDel(a0, a1) => seq![Operand::Word(a0), Operand::Word(a1)],
            RawModMap::MapGet(a0, a1) => seq![Operand::Word(a0), Operand::Word(a1)],
            RawModMap::MapHas(a0, a1) => seq![Operand::Word(a0), Operand::Word(a1)],
            RawModMap::MapKeyByPos(a0, a1) => seq![Operand::Word(a0), Operand::U32(a1)],
            RawModMap::MapKeys(a0) => seq![Operand::Word(a0)],
            RawModMap::MapLen(a0) => seq![Operand::Word(a0)],
            RawModMap::MapNew => seq![],
            RawModMap::MapNewFromLinearMemory(a0, a1, a2) => seq![Operand::U32(a0), Operand::U32(a1), Operand::U32(a2)],
            RawModMap::MapPut(a0, a1, a2) => seq![Operand::Word(a0), Operand::Word(a1), Operand::Word(a2)],
            RawModMap::MapUnpackToLinearMemory(a0, a1, a2, a3) => seq![Operand::Word(a0), Operand::U32(a1), Operand::U32(a2), Operand::U32(a3)],
            RawModMap::MapValByPos(a0, a1) => seq![Operand::Word(a0), Operand::U32(a1)],
            RawModMap::MapValues(a0) => seq![Operand::Word(a0)],
        }
    }

    /// The instruction of this module that calls `f` with the operands
    /// `ops`, if `f` is in this module and `ops` fit its parameters.
    pub open spec fn spec_from_parts(f: HostFn, ops: Seq<Operand>) -> Option<RawModMap> {
        if !(raw_conforms(f.params(), ops)) {
            None
        } else {
            match f {
                HostFn::MapDel => Some(RawModMap::MapDel(ops[0].word_part(), ops[1].word_part())),
                HostFn::MapGet => Some(RawModMap::MapGet(ops[0].word_part(), ops[1].word_part())),
                HostFn::MapHas => Some(RawModMap::MapHas(ops[0].word_part(), ops[1].word_part())),
                HostFn::MapKeyByPos => Some(RawModMap::MapKeyByPos(ops[0].word_part(), ops[1].u32_part())),
                HostFn::MapKeys => Some(RawModMap::MapKeys(ops[0].word_part())),
                HostFn::MapLen => Some(RawModMap::MapLen(ops[0].word_part())),
                HostFn::MapNew => Some(RawModMap::MapNew),
                HostFn::MapNewFromLinearMemory => Some(RawModMap::MapNewFromLinearMemory(ops[0].u32_part(), ops[1].u32_part(), ops[2].u32_part())),
                HostFn::MapPut => Some(RawModMap::MapPut(ops[0].word_part(), ops[1].word_part(), ops[2].word_part())),
                HostFn::MapUnpackToLinearMemory => Some(RawModMap::MapUnpackToLinearMemory(ops[0].word_part(), ops[1].u32_part(), ops[2].u32_part(), ops[3].u32_part())),
                HostFn::MapValByPos => Some(RawModMap::MapValByPos(ops[0].word_part(), ops[1].u32_part())),
                HostFn::MapValues => Some(RawModMap::MapValues(ops[0].word_part())),
                _ => None,
            }
        }
    }

    /// The host function the instruction calls.
    pub fn host_fn(&self) -> (r: HostFn)
        ensures
            r == self.opcode(),
    {
        match self {
            RawModMap::MapDel(..) => HostFn::MapDel,
            RawModMap::MapGet(..) => HostFn::MapGet,
            RawModMap::MapHas(..) => HostFn::MapHas,
            RawModMap::MapKeyByPos(..) => HostFn::MapKeyByPos,
            RawModMap::MapKeys(..) => HostFn::MapKeys,
            RawModMap::MapLen(..) => HostFn::MapLen,
            RawModMap::MapNew => HostFn::MapNew,
            RawModMap::MapNewFromLinearMemory(..) => HostFn::MapNewFromLinearMemory,
            RawModMap::MapPut(..) => HostFn::MapPut,
            RawModMap::MapUnpackToLinearMemory(..) => HostFn::MapUnpackToLinearMemory,
            RawModMap::MapValByPos(..) => HostFn::MapValByPos,
            RawModMap::MapValues(..) => HostFn::MapValues,
        }
    }

    /// The instruction's operands, in slot order.
    pub fn operand_list(&self) -> (r: Vec<Operand>)
        ensures
            r@ == self.operands(),
    {
        let r = match self {
            RawModMap::MapDel(a0, a1) => vec![Operand::Word(*a0), Operand::Word(*a1)],
            RawModMap::MapGet(a0, a1) => vec![Operand::Word(*a0), Operand::Word(*a1)],
            RawModMap::MapHas(a0, a1) => vec![Operand::Word(*a0), Operand::Word(*a1)],
            RawModMap::MapKeyByPos(a0, a1) => vec![Operand::Word(*a0), Operand::U32(*a1)],
            RawModMap::MapKeys(a0) => vec![Operand::Word(*a0)],
            RawModMap::MapLen(a0) => vec![Operand::Word(*a0)],
            RawModMap::MapNew => vec![],
            RawModMap::MapNewFromLinearMemory(a0, a1, a2) => vec![Operand::U32(*a0), Operand::U32(*a1), Operand::U32(*a2)],
            RawModMap::MapPut(a0, a1, a2) => vec![Operand::Word(*a0), Operand::Word(*a1), Operand::Word(*a2)],
            RawModMap::MapUnpackToLinearMemory(a0, a1, a2, a3) => vec![Operand::Word(*a0), Operand::U32(*a1), Operand::U32(*a2), Operand::U32(*a3)],
            RawModMap::MapValByPos(a0, a1) => vec![Operand::Word(*a0), Operand::U32(*a1)],
            RawModMap::MapValues(a0) => vec![Operand::Word(*a0)],
        };
        assert(r@ =~= self.operands());
        r
    }

    /// The instruction of this module that calls `f` with the operands
    /// `ops`, if `f` is in this module and `ops` fit its parameters.
    pub fn from_parts(f: HostFn, ops: &Vec<Operand>) -> (r: Option<RawModMap>)
        ensures
            r == Self::spec_from_parts(f, ops@),
    {
        if !conforms_raw(&f.param_list(), ops) {
            return None;
        }
        match f {
            HostFn::MapDel => Some(RawModMap::MapDel(ops[0].get_word(), ops[1].get_word())),
            HostFn::MapGet => Some(RawModMap::MapGet(ops[0].get_word(), ops[1].get_word())),
            HostFn::MapHas => Some(RawModMap::MapHas(ops[0].get_word(), ops[1].get_word())),
            HostFn::MapKeyByPos => Some(RawModMap::MapKeyByPos(ops[0].get_word(), ops[1].get_u32())),
            HostFn::MapKeys => Some(RawModMap::MapKeys(ops[0].get_word())),
            HostFn::MapLen => Some(RawModMap::MapLen(ops[0].get_word())),
            HostFn::MapNew => Some(RawModMap::MapNew),
            HostFn::MapNewFromLinearMemory => Some(RawModMap::MapNewFromLinearMemory(ops[0].get_u32(), ops[1].get_u32(), ops[2].get_u32())),
            HostFn::MapPut => Some(RawModMap::MapPut(ops[0].get_word(), ops[1].get_word(), ops[2].get_word())),
            HostFn::MapUnpackToLinearMemory => Some(RawModMap::MapUnpackToLinearMemory(ops[0].get_word(), ops[1].get_u32(), ops[2].get_u32(), ops[3].get_u32())),
            HostFn::MapValByPos => Some(RawModMap::MapValByPos(ops[0].get_word(), ops[1].get_u32())),
            HostFn::MapValues => Some(RawModMap::MapValues(ops[0].get_word())),
            _ => None,
        }
    }
}

proof fn lemma_map_inverse(m: RawModMap)
    ensures
        m.opcode().module() == Module::Maps,
        raw_conforms(m.opcode().params(), m.operands()),
        RawModMap::spec_from_parts(m.opcode(), m.operands()) == Some(m),
{
}

proof fn lemma_map_realizes(f: HostFn, ops: Seq<Operand>)
    requires
        f.module() == Module::Maps,
        raw_conforms(f.params(), ops),
    ensures
        RawModMap::spec_from_parts(f, ops) matches Some(m) && m.opcode() == f && m.operands() == ops,
{
    if ops.len() > 0 {
        assert(ops[0].raw_fits(f.params()[0]));
    }
    if ops.len() > 1 {
        assert(ops[1].raw_fits(f.params()[1]));
    }
    if ops.len() > 2 {
        assert(ops[2].raw_fits(f.params()[2]));
    }
    if ops.len() > 3 {
        assert(ops[3].raw_fits(f.params()[3]));
    }
    assert(RawModMap::spec_from_parts(f, ops).unwrap().operands() =~= ops);
}

/// The raw tier's instructions of the `prng` module: one per host function.
#[derive(Clone, Copy, Debug, PartialEq, Eq)]
pub enum RawModPrng {
    PrngBytesNew(u32),
    PrngReseed(FakeVal),
    PrngU64InInclusiveRange(u64, u64),
    PrngVecShuffle(FakeVal),
}

impl RawModPrng {
    /// The host function the instruction calls.
    pub open spec fn opcode(self) -> HostFn {
        match self {
            RawModPrng::PrngBytesNew(..) => HostFn::PrngBytesNew,
            RawModPrng::PrngReseed(..) => HostFn::PrngReseed,
            RawModPrng::PrngU64InInclusiveRange(..) => HostFn::PrngU64InInclusiveRange,
            RawModPrng::PrngVecShuffle(..) => HostFn::PrngVecShuffle,
        }
    }

    /// The instruction's operands, in slot order.
    pub open spec fn operands(self) -> Seq<Operand> {
        match self {
            RawModPrng::PrngBytesNew(a0) => seq![Operand::U32(a0)],
            RawModPrng::PrngReseed(a0) => seq![Operand::Word(a0)],
            RawModPrng::PrngU64InInclusiveRange(a0, a1) => seq![Operand::U64(a0), Operand::U64(a1)],
            RawModPrng::PrngVecShuffle(a0) => seq![Operand::Word(a0)],
        }
    }

    /// The instruction of this module that calls `f` with the operands
    /// `ops`, if `f` is in this module and `ops` fit its parameters.
    pub open spec fn spec_from_parts(f: HostFn, ops: Seq<Operand>) -> Option<RawModPrng> {
        if !(raw_conforms(f.params(), ops)) {
            None
        } else {
            match f {
                HostFn::PrngBytesNew => Some(RawModPrng::PrngBytesNew(ops[0].u32_part())),
                HostFn::PrngReseed => Some(RawModPrng::PrngReseed(ops[0].word_part())),
                HostFn::PrngU64InInclusiveRange => Some(RawModPrng::PrngU64InInclusiveRange(ops[0].u64_part(), ops[1].u64_part())),
                HostFn::PrngVecShuffle => Some(RawModPrng::PrngVecShuffle(ops[0].word_part())),
                _ => None,
            }
        }
    }

    /// The host function the instruction calls.
    pub fn host_fn(&self) -> (r: HostFn)
        ensures
            r == self.opcode(),
    {
        match self {
            RawModPrng::PrngBytesNew(..) => HostFn::PrngBytesNew,
            RawModPrng::PrngReseed(..) => HostFn::PrngReseed,
            RawModPrng::PrngU64InInclusiveRange(..) => HostFn::PrngU64InInclusiveRange,
            RawModPrng::PrngVecShuffle(..) => HostFn::PrngVecShuffle,
        }
    }

    /// The instruction's operands, in slot order.
    pub fn operand_list(&self) -> (r: Vec<Operand>)
        ensures
            r@ == self.operands(),
    {
        let r = match self {
            RawModPrng::PrngBytesNew(a0) => vec![Operand::U32(*a0)],
            RawModPrng::PrngReseed(a0) => vec![Operand::Word(*a0)],
            RawModPrng::PrngU64InInclusiveRange(a0, a1) => vec![Operand::U64(*a0), Operand::U64(*a1)],
            RawModPrng::PrngVecShuffle(a0) => vec![Operand::Word(*a0)],
        };
        assert(r@ =~= self.operands());
        r
    }

    /// The instruction of this module that calls `f` with the operands
    /// `ops`, if `f` is in this module and `ops` fit its parameters.
    pub fn from_parts(f: HostFn, ops: &Vec<Operand>) -> (r: Option<RawModPrng>)
        ensures
            r == Self::spec_from_parts(f, ops@),
    {
        if !conforms_raw(&f.param_list(), ops) {
            return None;
        }
        match f {
            HostFn::PrngBytesNew => Some(RawModPrng::PrngBytesNew(ops[0].get_u32())),
            HostFn::PrngReseed => Some(RawModPrng::PrngReseed(ops[0].get_word())),
            HostFn::PrngU64InInclusiveRange => Some(RawModPrng::PrngU64InInclusiveRange(ops[0].get_u64(), ops[1].get_u64())),
            HostFn::PrngVecShuffle => Some(RawModPrng::PrngVecShuffle(ops[0].get_word())),
            _ => None,
        }
    }
}

proof fn lemma_prng_inverse(m: RawModPrng)
    ensures
        m.opcode().module() == Module::Prng,
        raw_conforms(m.opcode().params(), m.operands()),
        RawModPrng::spec_from_parts(m.opcode(), m.operands()) == Some(m),
{
}

proof fn lemma_prng_realizes(f: HostFn, ops: Seq<Operand>)
    requires
        f.module() == Module::Prng,
        raw_conforms(f.params(), ops),
    ensures
        RawModPrng::spec_from_parts(f, ops) matches Some(m) && m.opcode() == f && m.operands() == ops,
{
    if ops.len() > 0 {
        assert(ops[0].raw_fits(f.params()[0]));
    }
    if ops.len() > 1 {
        assert(ops[1].raw_fits(f.params()[1]));
    }
    assert(RawModPrng::spec_from_parts(f, ops).unwrap().operands() =~= ops);
}

/// The raw tier's instructions of the `vec` module: one per host function.
#[derive(Clone, Copy, Debug, PartialEq, Eq)]
pub enum RawModVec {
    VecAppend(FakeVal, FakeVal),
    VecBack(FakeVal),
    VecBinarySearch(FakeVal, FakeVal),
    VecDel(FakeVal, u32),
    VecFirstIndexOf(FakeVal, FakeVal),
    VecFront(FakeVal),
    VecGet(FakeVal, u32),
    VecInsert(FakeVal, u32, FakeVal),
    VecLastIndexOf(FakeVal, FakeVal),
    VecLen(FakeVal),
    VecNew,
    VecNewFromLinearMemory(u32, u32),
    VecPopBack(FakeVal),
    VecPopFront(FakeVal),
    VecPushBack(FakeVal, FakeVal),
    VecPushFront(FakeVal, FakeVal),
    VecPut(FakeVal, u32, FakeVal),
    VecSlice(FakeVal, u32, u32),
    VecUnpackToLinearMemory(FakeVal, u32, u32),
}

impl RawModVec {
    /// The host function the instruction calls.
    pub open spec fn opcode(self) -> HostFn {
        match self {
            RawModVec::VecAppend(..) => HostFn::VecAppend,
            RawModVec::VecBack(..) => HostFn::VecBack,
            RawModVec::VecBinarySearch(..) => HostFn::VecBinarySearch,
            RawModVec::VecDel(..) => HostFn::VecDel,
            RawModVec::VecFirstIndexOf(..) => HostFn::VecFirstIndexOf,
            RawModVec::VecFront(..) => HostFn::VecFront,
            RawModVec::VecGet(..) => HostFn::VecGet,
            RawModVec::VecInsert(..) => HostFn::VecInsert,
            RawModVec::VecLastIndexOf(..) => HostFn::VecLastIndexOf,
            RawModVec::VecLen(..) => HostFn::VecLen,
            RawModVec::VecNew => HostFn::VecNew,
            RawModVec::VecNewFromLinearMemory(..) => HostFn::VecNewFromLinearMemory,
            RawModVec::VecPopBack(..) => HostFn::VecPopBack,
            RawModVec::VecPopFront(..) => HostFn::VecPopFront,
            RawModVec::VecPushBack(..) => HostFn::VecPushBack,
            RawModVec::VecPushFront(..) => HostFn::VecPushFront,
            RawModVec::VecPut(..) => HostFn::VecPut,
            RawModVec::VecSlice(..) => HostFn::VecSlice,
            RawModVec::VecUnpackToLinearMemory(..) => HostFn::VecUnpackToLinearMemory,
        }
    }

    /// The instruction's operands, in slot order.
    pub open spec fn operands(self) -> Seq<Operand> {
        match self {
            RawModVec::VecAppend(a0, a1) => seq![Operand::Word(a0), Operand::Word(a1)],
            RawModVec::VecBack(a0) => seq![Operand::Word(a0)],
            RawModVec::VecBinarySearch(a0, a1) => seq![Operand::Word(a0), Operand::Word(a1)],
            RawModVec::VecDel(a0, a1) => seq![Operand::Word(a0), Operand::U32(a1)],
            RawModVec::VecFirstIndexOf(a0, a1) => seq![Operand::Word(a0), Operand::Word(a1)],
            RawModVec::VecFront(a0) => seq![Operand::Word(a0)],
            RawModVec::VecGet(a0, a1) => seq![Operand::Word(a0), Operand::U32(a1)],
            RawModVec::VecInsert(a0, a1, a2) => seq![Operand::Word(a0), Operand::U32(a1), Operand::Word(a2)],
            RawModVec::VecLastIndexOf(a0, a1) => seq![Operand::Word(a0), Operand::Word(a1)],
            RawModVec::VecLen(a0) => seq![Operand::Word(a0)],
            RawModVec::VecNew => seq![],
            RawModVec::VecNewFromLinearMemory(a0, a1) => seq![Operand::U32(a0), Operand::U32(a1)],
            RawModVec::VecPopBack(a0) => seq![Operand::Word(a0)],
            RawModVec::VecPopFront(a0) => seq![Operand::Word(a0)],
            RawModVec::VecPushBack(a0, a1) => seq![Operand::Word(a0), Operand::Word(a1)],
            RawModVec::VecPushFront(a0, a1) => seq![Operand::Word(a0), Operand::Word(a1)],
            RawModVec::VecPut(a0, a1, a2) => seq![Operand::Word(a0), Operand::U32(a1), Operand::Word(a2)],
            RawModVec::VecSlice(a0, a1, a2) => seq![Operand::Word(a0), Operand::U32(a1), Operand::U32(a2)],
            RawModVec::VecUnpackToLinearMemory(a0, a1, a2) => seq![Operand::Word(a0), Operand::U32(a1), Operand::U32(a2)],
        }
    }

    /// The instruction of this module that calls `f` with the operands
    /// `ops`, if `f` is in this module and `ops` fit its parameters.
    pub open spec fn spec_from_parts(f: HostFn, ops: Seq<Operand>) -> Option<RawModVec> {
        if !(raw_conforms(f.params(), ops)) {
            None
        } else {
            match f {
                HostFn::VecAppend => Some(RawModVec::VecAppend(ops[0].word_part(), ops[1].word_part())),
                HostFn::VecBack => Some(RawModVec::VecBack(ops[0].word_part())),
                HostFn::VecBinarySearch => Some(RawModVec::VecBinarySearch(ops[0].word_part(), ops[1].word_part())),
                HostFn::VecDel => Some(RawModVec::VecDel(ops[0].word_part(), ops[1].u32_part())),
                HostFn::VecFirstIndexOf => Some(RawModVec::VecFirstIndexOf(ops[0].word_part(), ops[1].word_part())),
                HostFn::VecFront => Some(RawModVec::VecFront(ops[0].word_part())),
                HostFn::VecGet => Some(RawModVec::VecGet(ops[0].word_part(), ops[1].u32_part())),
                HostFn::VecInsert => Some(RawModVec::VecInsert(ops[0].word_part(), ops[1].u32_part(), ops[2].word_part())),
                HostFn::VecLastIndexOf => Some(RawModVec::VecLastIndexOf(ops[0].word_part(), ops[1].word_part())),
                HostFn::VecLen => Some(RawModVec::VecLen(ops[0].word_part())),
                HostFn::VecNew => Some(RawModVec::VecNew),
                HostFn::VecNewFromLinearMemory => Some(RawModVec::VecNewFromLinearMemory(ops[0].u32_part(), ops[1].u32_part())),
                HostFn::VecPopBack => Some(RawModVec::VecPopBack(ops[0].word_part())),
                HostFn::VecPopFront => Some(RawModVec::VecPopFront(ops[0].word_part())),
                HostFn::VecPushBack => Some(RawModVec::VecPushBack(ops[0].word_part(), ops[1].word_part())),
                HostFn::VecPushFront => Some(RawModVec::VecPushFront(ops[0].word_part(), ops[1].word_part())),
                HostFn::VecPut => Some(RawModVec::VecPut(ops[0].word_part(), ops[1].u32_part(), ops[2].word_part())),
                HostFn::VecSlice => Some(RawModVec::VecSlice(ops[0].word_part(), ops[1].u32_part(), ops[2].u32_part())),
                HostFn::VecUnpackToLinearMemory => Some(RawModVec::VecUnpackToLinearMemory(ops[0].word_part(), ops[1].u32_part(), ops[2].u32_part())),
                _ => None,
            }
        }
    }

    /// The host function the instruction calls.
    pub fn host_fn(&self) -> (r: HostFn)
        ensures
            r == self.opcode(),
    {
        match self {
            RawModVec::VecAppend(..) => HostFn::VecAppend,
            RawModVec::VecBack(..) => HostFn::VecBack,
            RawModVec::VecBinarySearch(..) => HostFn::VecBinarySearch,
            RawModVec::VecDel(..) => HostFn::VecDel,
            RawModVec::VecFirstIndexOf(..) => HostFn::VecFirstIndexOf,
            RawModVec::VecFront(..) => HostFn::VecFront,
            RawModVec::VecGet(..) => HostFn::VecGet,
            RawModVec::VecInsert(..) => HostFn::VecInsert,
            RawModVec::VecLastIndexOf(..) => HostFn::VecLastIndexOf,
            RawModVec::VecLen(..) => HostFn::VecLen,
            RawModVec::VecNew => HostFn::VecNew,
            RawModVec::VecNewFromLinearMemory(..) => HostFn::VecNewFromLinearMemory,
            RawModVec::VecPopBack(..) => HostFn::VecPopBack,
            RawModVec::VecPopFront(..) => HostFn::VecPopFront,
            RawModVec::VecPushBack(..) => HostFn::VecPushBack,
            RawModVec::VecPushFront(..) => HostFn::VecPushFront,
            RawModVec::VecPut(..) => HostFn::VecPut,
            RawModVec::VecSlice(..) => HostFn::VecSlice,
            RawModVec::VecUnpackToLinearMemory(..) => HostFn::VecUnpackToLinearMemory,
        }
    }

    /// The instruction's operands, in slot order.
    pub fn operand_list(&self) -> (r: Vec<Operand>)
        ensures
            r@ == self.operands(),
    {
        let r = match self {
            RawModVec::VecAppend(a0, a1) => vec![Operand::Word(*a0), Operand::Word(*a1)],
            RawModVec::VecBack(a0) => vec![Operand::Word(*a0)],
            RawModVec::VecBinarySearch(a0, a1) => vec![Operand::Word(*a0), Operand::Word(*a1)],
            RawModVec::VecDel(a0, a1) => vec![Operand::Word(*a0), Operand::U32(*a1)],
            RawModVec::VecFirstIndexOf(a0, a1) => vec![Operand::Word(*a0), Operand::Word(*a1)],
            RawModVec::VecFront(a0) => vec![Operand::Word(*a0)],
            RawModVec::VecGet(a0, a1) => vec![Operand::Word(*a0), Operand::U32(*a1)],
            RawModVec::VecInsert(a0, a1, a2) => vec![Operand::Word(*a0), Operand::U32(*a1), Operand::Word(*a2)],
            RawModVec::VecLastIndexOf(a0, a1) => vec![Operand::Word(*a0), Operand::Word(*a1)],
            RawModVec::VecLen(a0) => vec![Operand::Word(*a0)],
            RawModVec::VecNew => vec![],
            RawModVec::VecNewFromLinearMemory(a0, a1) => vec![Operand::U32(*a0), Operand::U32(*a1)],
            RawModVec::VecPopBack(a0) => vec![Operand::Word(*a0)],
            RawModVec::VecPopFront(a0) => vec![Operand::Word(*a0)],
            RawModVec::VecPushBack(a0, a1) => vec![Operand::Word(*a0), Operand::Word(*a1)],
            RawModVec::VecPushFront(a0, a1) => vec![Operand::Word(*a0), Operand::Word(*a1)],
            RawModVec::VecPut(a0, a1, a2) => vec![Operand::Word(*a0), Operand::U32(*a1), Operand::Word(*a2)],
            RawModVec::VecSlice(a0, a1, a2) => vec![Operand::Word(*a0), Operand::U32(*a1), Operand::U32(*a2)],
            RawModVec::VecUnpackToLinearMemory(a0, a1, a2) => vec![Operand::Word(*a0), Operand::U32(*a1), Operand::U32(*a2)],
        };
        assert(r@ =~= self.operands());
        r
    }

    /// The instruction of this module that calls `f` with the operands
    /// `ops`, if `f` is in this module and `ops` fit its parameters.
    pub fn from_parts(f: HostFn, ops: &Vec<Operand>) -> (r: Option<RawModVec>)
        ensures
            r == Self::spec_from_parts(f, ops@),
    {
        if !conforms_raw(&f.param_list(), ops) {
            return None;
        }
        match f {
            HostFn::VecAppend => Some(RawModVec::VecAppend(ops[0].get_word(), ops[1].get_word())),
            HostFn::VecBack => Some(RawModVec::VecBack(ops[0].get_word())),
            HostFn::VecBinarySearch => Some(RawModVec::VecBinarySearch(ops[0].get_word(), ops[1].get_word())),
            HostFn::VecDel => Some(RawModVec::VecDel(ops[0].get_word(), ops[1].get_u32())),
            HostFn::VecFirstIndexOf => Some(RawModVec::VecFirstIndexOf(ops[0].get_word(), ops[1].get_word())),
            HostFn::VecFront => Some(RawModVec::VecFront(ops[0].get_word())),
            HostFn::VecGet => Some(RawModVec::VecGet(ops[0].get_word(), ops[1].get_u32())),
            HostFn::VecInsert => Some(RawModVec::VecInsert(ops[0].get_word(), ops[1].get_u32(), ops[2].get_word())),
            HostFn::VecLastIndexOf => Some(RawModVec::VecLastIndexOf(ops[0].get_word(), ops[1].get_word())),
            HostFn::VecLen => Some(RawModVec::VecLen(ops[0].get_word())),
            HostFn::VecNew => Some(RawModVec::VecNew),
            HostFn::VecNewFromLinearMemory => Some(RawModVec::VecNewFromLinearMemory(ops[0].get_u32(), ops[1].get_u32())),
            HostFn::VecPopBack => Some(RawModVec::VecPopBack(ops[0].get_word())),
            HostFn::VecPopFront => Some(RawModVec::VecPopFront(ops[0].get_word())),
            HostFn::VecPushBack => Some(RawModVec::VecPushBack(ops[0].get_word(), ops[1].get_word())),
            HostFn::VecPushFront => Some(RawModVec::VecPushFront(ops[0].get_word(), ops[1].get_word())),
            HostFn::VecPut => Some(RawModVec::VecPut(ops[0].get_word(), ops[1].get_u32(), ops[2].get_word())),
            HostFn::VecSlice => Some(RawModVec::VecSlice(ops[0].get_word(), ops[1].get_u32(), ops[2].get_u32())),
            HostFn::VecUnpackToLinearMemory => Some(RawModVec::VecUnpackToLinearMemory(ops[0].get_word(), ops[1].get_u32(), ops[2].get_u32())),
            _ => None,
        }
    }
}

proof fn lemma_vec_inverse(m: RawModVec)
    ensures
        m.opcode().module() == Module::Vec,
        raw_conforms(m.opcode().params(), m.operands()),
        RawModVec::spec_from_parts(m.opcode(), m.operands()) == Some(m),
{
}

proof fn lemma_vec_realizes(f: HostFn, ops: Seq<Operand>)
    requires
        f.module() == Module::Vec,
        raw_conforms(f.params(), ops),
    ensures
        RawModVec::spec_from_parts(f, ops) matches Some(m) && m.opcode() == f && m.operands() == ops,
{
    if ops.len() > 0 {
        assert(ops[0].raw_fits(f.params()[0]));
    }
    if ops.len() > 1 {
        assert(ops[1].raw_fits(f.params()[1]));
    }
    if ops.len() > 2 {
        assert(ops[2].raw_fits(f.params()[2]));
    }
    assert(RawModVec::spec_from_parts(f, ops).unwrap().operands() =~= ops);
}

/// Every raw instruction calls a host function of its own module, with
/// one operand per parameter, each of the declared type; `Test` calls the
/// no-op `dummy0` with none.
pub proof fn lemma_raw_matches_surface(i: RawFuzzInstruction)
    ensures
        i is Test <==> i.opcode() == HostFn::Dummy0,
        i.opcode().module() == i.module(),
        raw_conforms(i.opcode().params(), i.operands()),
        RawFuzzInstruction::spec_from_parts(i.opcode(), i.operands()) == Some(i),
{
    match i {
        RawFuzzInstruction::Address(m) => lemma_address_inverse(m),
        RawFuzzInstruction::Buf(m) => lemma_buf_inverse(m),
        RawFuzzInstruction::Call(m) => lemma_call_inverse(m),
        RawFuzzInstruction::Context(m) => lemma_context_inverse(m),
        RawFuzzInstruction::Crypto(m) => lemma_crypto_inverse(m),
        RawFuzzInstruction::Int(m) => lemma_int_inverse(m),
        RawFuzzInstruction::Ledger(m) => lemma_ledger_inverse(m),
        RawFuzzInstruction::Maps(m) => lemma_map_inverse(m),
        RawFuzzInstruction::Prng(m) => lemma_prng_inverse(m),
        RawFuzzInstruction::Vec(m) => lemma_vec_inverse(m),
        RawFuzzInstruction::Test => {},
    }
}

/// Two raw instructions that call the same host function with the same
/// operands are the same instruction: no host function has two variants.
pub proof fn lemma_raw_unique(i: RawFuzzInstruction, j: RawFuzzInstruction)
    requires
        i.opcode() == j.opcode(),
        i.operands() == j.operands(),
    ensures
        i == j,
{
    lemma_raw_matches_surface(i);
    lemma_raw_matches_surface(j);
}

/// Every host function of the surface has a raw instruction, for every
/// operand list that fits its parameters: the instruction calls that
/// function with exactly those operands.
pub proof fn lemma_raw_exists(f: HostFn, ops: Seq<Operand>)
    requires
        raw_conforms(f.params(), ops),
    ensures
        RawFuzzInstruction::spec_from_parts(f, ops) matches Some(i) && i.opcode() == f && i.operands() == ops,
{
    match f.module() {
        Module::Address => lemma_address_realizes(f, ops),
        Module::Buf => lemma_buf_realizes(f, ops),
        Module::Call => lemma_call_realizes(f, ops),
        Module::Context => lemma_context_realizes(f, ops),
        Module::Crypto => lemma_crypto_realizes(f, ops),
        Module::Int => lemma_int_realizes(f, ops),
        Module::Ledger => lemma_ledger_realizes(f, ops),
        Module::Maps => lemma_map_realizes(f, ops),
        Module::Prng => lemma_prng_realizes(f, ops),
        Module::Vec => lemma_vec_realizes(f, ops),
        Module::Test => {
            assert(f == HostFn::Dummy0);
            assert(ops =~= Seq::<Operand>::empty());
        },
    }
}

/// No raw instruction calls a host function with operands that do not fit
/// its parameters.
pub proof fn lemma_raw_refuses(f: HostFn, ops: Seq<Operand>)
    requires
        !(raw_conforms(f.params(), ops)),
    ensures
        RawFuzzInstruction::spec_from_parts(f, ops) is None,
{
}

/// The raw tier passes each word operand to the host exactly as it was
/// given: the word in slot `k` of the host call is the operand's own bit
/// pattern, with no check, re-tagging or truncation.
pub proof fn lemma_raw_words_verbatim(i: RawFuzzInstruction, k: int)
    requires
        0 <= k < i.operands().len(),
        i.operands()[k] is Word,
    ensures
        words_of(i.operands())[k] == i.operands()[k].word_part().0,
{
}

} // verus!
