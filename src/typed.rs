//! The typed tier: every operand that the host function declares with a
//! shape is a handle whose word was checked to have that shape before the
//! instruction was built.

use crate::catalogue::{HostFn, Module};
use crate::handle::{
    AddressObj, BytesObj, DurationObj, ErrorWord, I128Obj, I256Obj, I256Word, I64Obj, MapObj,
    MuxedAddressObj, StringObj, SymbolObj, SymbolWord, TimepointObj, U128Obj, U256Obj, U256Word,
    U64Obj, U64Word, VecObj,
};
use crate::operand::{
    coerce_all, conforms_typed, tags_agree, typed_conforms, words_of, HostCall, Operand, StorageType,
};
use crate::shape::Shape;
use crate::word::FakeVal;
use vstd::prelude::*;

verus! {

broadcast use crate::handle::handle_laws;

/// An instruction of the typed tier: a module, and in it one host function
/// with its operands. `Test` is the marker that calls the host's no-op
/// function, `dummy0`.
#[derive(Clone, Copy, Debug, PartialEq, Eq)]
pub enum TypedFuzzInstruction {
    Address(TypedModAddress),
    Buf(TypedModBuf),
    Call(TypedModCall),
    Context(TypedModContext),
    Crypto(TypedModCrypto),
    Int(TypedModInt),
    Ledger(TypedModLedger),
    Maps(TypedModMap),
    Prng(TypedModPrng),
    Test,
    Vec(TypedModVec),
}

impl TypedFuzzInstruction {
    /// The host function the instruction calls.
    pub open spec fn opcode(self) -> HostFn {
        match self {
            TypedFuzzInstruction::Address(m) => m.opcode(),
            TypedFuzzInstruction::Buf(m) => m.opcode(),
            TypedFuzzInstruction::Call(m) => m.opcode(),
            TypedFuzzInstruction::Context(m) => m.opcode(),
            TypedFuzzInstruction::Crypto(m) => m.opcode(),
            TypedFuzzInstruction::Int(m) => m.opcode(),
            TypedFuzzInstruction::Ledger(m) => m.opcode(),
            TypedFuzzInstruction::Maps(m) => m.opcode(),
            TypedFuzzInstruction::Prng(m) => m.opcode(),
            TypedFuzzInstruction::Vec(m) => m.opcode(),
            TypedFuzzInstruction::Test => HostFn::Dummy0,
        }
    }

    /// The module the instruction belongs to.
    pub open spec fn module(self) -> Module {
        match self {
            TypedFuzzInstruction::Address(_) => Module::Address,
            TypedFuzzInstruction::Buf(_) => Module::Buf,
            TypedFuzzInstruction::Call(_) => Module::Call,
            TypedFuzzInstruction::Context(_) => Module::Context,
            TypedFuzzInstruction::Crypto(_) => Module::Crypto,
            TypedFuzzInstruction::Int(_) => Module::Int,
            TypedFuzzInstruction::Ledger(_) => Module::Ledger,
            TypedFuzzInstruction::Maps(_) => Module::Maps,
            TypedFuzzInstruction::Prng(_) => Module::Prng,
            TypedFuzzInstruction::Vec(_) => Module::Vec,
            TypedFuzzInstruction::Test => Module::Test,
        }
    }

    /// The instruction's operands, in slot order.
    pub open spec fn operands(self) -> Seq<Operand> {
        match self {
            TypedFuzzInstruction::Address(m) => m.operands(),
            TypedFuzzInstruction::Buf(m) => m.operands(),
            TypedFuzzInstruction::Call(m) => m.operands(),
            TypedFuzzInstruction::Context(m) => m.operands(),
            TypedFuzzInstruction::Crypto(m) => m.operands(),
            TypedFuzzInstruction::Int(m) => m.operands(),
            TypedFuzzInstruction::Ledger(m) => m.operands(),
            TypedFuzzInstruction::Maps(m) => m.operands(),
            TypedFuzzInstruction::Prng(m) => m.operands(),
            TypedFuzzInstruction::Vec(m) => m.operands(),
            TypedFuzzInstruction::Test => Seq::empty(),
        }
    }

    /// The instruction that calls `f` with the operands `ops`, if `ops`
    /// fit the parameters of `f`.
    pub open spec fn spec_from_parts(f: HostFn, ops: Seq<Operand>) -> Option<TypedFuzzInstruction> {
        match f.module() {
            Module::Address => match TypedModAddress::spec_from_parts(f, ops) {
                Some(m) => Some(TypedFuzzInstruction::Address(m)),
                None => None,
            },
            Module::Buf => match TypedModBuf::spec_from_parts(f, ops) {
                Some(m) => Some(TypedFuzzInstruction::Buf(m)),
                None => None,
            },
            Module::Call => match TypedModCall::spec_from_parts(f, ops) {
                Some(m) => Some(TypedFuzzInstruction::Call(m)),
                None => None,
            },
            Module::Context => match TypedModContext::spec_from_parts(f, ops) {
                Some(m) => Some(TypedFuzzInstruction::Context(m)),
                None => None,
            },
            Module::Crypto => match TypedModCrypto::spec_from_parts(f, ops) {
                Some(m) => Some(TypedFuzzInstruction::Crypto(m)),
                None => None,
            },
            Module::Int => match TypedModInt::spec_from_parts(f, ops) {
                Some(m) => Some(TypedFuzzInstruction::Int(m)),
                None => None,
            },
            Module::Ledger => match TypedModLedger::spec_from_parts(f, ops) {
                Some(m) => Some(TypedFuzzInstruction::Ledger(m)),
                None => None,
            },
            Module::Maps => match TypedModMap::spec_from_parts(f, ops) {
                Some(m) => Some(TypedFuzzInstruction::Maps(m)),
                None => None,
            },
            Module::Prng => match TypedModPrng::spec_from_parts(f, ops) {
                Some(m) => Some(TypedFuzzInstruction::Prng(m)),
                None => None,
            },
            Module::Vec => match TypedModVec::spec_from_parts(f, ops) {
                Some(m) => Some(TypedFuzzInstruction::Vec(m)),
                None => None,
            },
            Module::Test => if typed_conforms(f.params(), ops) && tags_agree(ops) {
                Some(TypedFuzzInstruction::Test)
            } else {
                None
            },
        }
    }

    /// The host function the instruction calls.
    pub fn host_fn(&self) -> (r: HostFn)
        ensures
            r == self.opcode(),
    {
        match self {
            TypedFuzzInstruction::Address(m) => m.host_fn(),
            TypedFuzzInstruction::Buf(m) => m.host_fn(),
            TypedFuzzInstruction::Call(m) => m.host_fn(),
            TypedFuzzInstruction::Context(m) => m.host_fn(),
            TypedFuzzInstruction::Crypto(m) => m.host_fn(),
            TypedFuzzInstruction::Int(m) => m.host_fn(),
            TypedFuzzInstruction::Ledger(m) => m.host_fn(),
            TypedFuzzInstruction::Maps(m) => m.host_fn(),
            TypedFuzzInstruction::Prng(m) => m.host_fn(),
            TypedFuzzInstruction::Vec(m) => m.host_fn(),
            TypedFuzzInstruction::Test => HostFn::Dummy0,
        }
    }

    /// The instruction's operands, in slot order.
    pub fn operand_list(&self) -> (r: Vec<Operand>)
        ensures
            r@ == self.operands(),
            tags_agree(r@),
    {
        match self {
            TypedFuzzInstruction::Address(m) => m.operand_list(),
            TypedFuzzInstruction::Buf(m) => m.operand_list(),
            TypedFuzzInstruction::Call(m) => m.operand_list(),
            TypedFuzzInstruction::Context(m) => m.operand_list(),
            TypedFuzzInstruction::Crypto(m) => m.operand_list(),
            TypedFuzzInstruction::Int(m) => m.operand_list(),
            TypedFuzzInstruction::Ledger(m) => m.operand_list(),
            TypedFuzzInstruction::Maps(m) => m.operand_list(),
            TypedFuzzInstruction::Prng(m) => m.operand_list(),
            TypedFuzzInstruction::Vec(m) => m.operand_list(),
            TypedFuzzInstruction::Test => Vec::new(),
        }
    }

    /// The host call that the instruction stands for: its function, and
    /// each operand coerced, in slot order, into the word the host gets.
    pub fn host_call(&self) -> (r: HostCall)
        ensures
            r.function == self.opcode(),
            r.args@ == words_of(self.operands()),
            tags_agree(self.operands()),
    {
        let ops = self.operand_list();
        HostCall { function: self.host_fn(), args: coerce_all(&ops) }
    }
}

/// A decoded instruction before it is checked against the catalogue: the
/// host function picked, and the operands decoded for its slots.
#[derive(Clone, Debug, PartialEq, Eq)]
pub struct TypedFuzzInstructionPrototype {
    pub function: HostFn,
    pub operands: Vec<Operand>,
}

impl TypedFuzzInstructionPrototype {
    /// The instruction that calls the picked function with the decoded
    /// operands, in the same slot order; `None` when the operands do not
    /// fit the function's parameters, or a shaped word does not carry
    /// its shape.
    pub fn to_guest(&self) -> (r: Option<TypedFuzzInstruction>)
        ensures
            r == TypedFuzzInstruction::spec_from_parts(self.function, self.operands@),
            r is Some <==> typed_conforms(self.function.params(), self.operands@) && tags_agree(self.operands@),
            r matches Some(i) ==> i.opcode() == self.function && i.operands() == self.operands@,
    {
        let f = self.function;
        let ops = &self.operands;
        let r = match f.module_of() {
            Module::Address => match TypedModAddress::from_parts(f, ops) {
                Some(m) => Some(TypedFuzzInstruction::Address(m)),
                None => None,
            },
            Module::Buf => match TypedModBuf::from_parts(f, ops) {
                Some(m) => Some(TypedFuzzInstruction::Buf(m)),
                None => None,
            },
            Module::Call => match TypedModCall::from_parts(f, ops) {
                Some(m) => Some(TypedFuzzInstruction::Call(m)),
                None => None,
            },
            Module::Context => match TypedModContext::from_parts(f, ops) {
                Some(m) => Some(TypedFuzzInstruction::Context(m)),
                None => None,
            },
            Module::Crypto => match TypedModCrypto::from_parts(f, ops) {
                Some(m) => Some(TypedFuzzInstruction::Crypto(m)),
                None => None,
            },
            Module::Int => match TypedModInt::from_parts(f, ops) {
                Some(m) => Some(TypedFuzzInstruction::Int(m)),
                None => None,
            },
            Module::Ledger => match TypedModLedger::from_parts(f, ops) {
                Some(m) => Some(TypedFuzzInstruction::Ledger(m)),
                None => None,
            },
            Module::Maps => match TypedModMap::from_parts(f, ops) {
                Some(m) => Some(TypedFuzzInstruction::Maps(m)),
                None => None,
            },
            Module::Prng => match TypedModPrng::from_parts(f, ops) {
                Some(m) => Some(TypedFuzzInstruction::Prng(m)),
                None => None,
            },
            Module::Vec => match TypedModVec::from_parts(f, ops) {
                Some(m) => Some(TypedFuzzInstruction::Vec(m)),
                None => None,
            },
            Module::Test => if conforms_typed(&f.param_list(), ops) {
                Some(TypedFuzzInstruction::Test)
            } else {
                None
            },
        };
        proof {
            if typed_conforms(f.params(), ops@) && tags_agree(ops@) {
                lemma_typed_exists(f, ops@);
            } else {
                lemma_typed_refuses(f, ops@);
            }
        }
        r
    }
}

/// The typed tier's instructions of the `address` module: one per host function.
#[derive(Clone, Copy, Debug, PartialEq, Eq)]
pub enum TypedModAddress {
    AddressToStrkey(AddressObj),
    AuthorizeAsCurrContract(VecObj),
    GetAddressExecutable(AddressObj),
    GetAddressFromMuxedAddress(MuxedAddressObj),
    GetIdFromMuxedAddress(MuxedAddressObj),
    RequireAuth(AddressObj),
    RequireAuthForArgs(AddressObj, VecObj),
    StrkeyToAddress(FakeVal),
}

impl TypedModAddress {
    /// The host function the instruction calls.
    pub open spec fn opcode(self) -> HostFn {
        match self {
            TypedModAddress::AddressToStrkey(..) => HostFn::AddressToStrkey,
            TypedModAddress::AuthorizeAsCurrContract(..) => HostFn::AuthorizeAsCurrContract,
            TypedModAddress::GetAddressExecutable(..) => HostFn::GetAddressExecutable,
            TypedModAddress::GetAddressFromMuxedAddress(..) => HostFn::GetAddressFromMuxedAddress,
            TypedModAddress::GetIdFromMuxedAddress(..) => HostFn::GetIdFromMuxedAddress,
            TypedModAddress::RequireAuth(..) => HostFn::RequireAuth,
            TypedModAddress::RequireAuthForArgs(..) => HostFn::RequireAuthForArgs,
            TypedModAddress::StrkeyToAddress(..) => HostFn::StrkeyToAddress,
        }
    }

    /// The instruction's operands, in slot order.
    pub open spec fn operands(self) -> Seq<Operand> {
        match self {
            TypedModAddress::AddressToStrkey(a0) => seq![Operand::Shaped(Shape::AddressObject, FakeVal(a0.spec_word()))],
            TypedModAddress::AuthorizeAsCurrContract(a0) => seq![Operand::Shaped(Shape::VecObject, FakeVal(a0.spec_word()))],
            TypedModAddress::GetAddressExecutable(a0) => seq![Operand::Shaped(Shape::AddressObject, FakeVal(a0.spec_word()))],
            TypedModAddress::GetAddressFromMuxedAddress(a0) => seq![Operand::Shaped(Shape::MuxedAddressObject, FakeVal(a0.spec_word()))],
            TypedModAddress::GetIdFromMuxedAddress(a0) => seq![Operand::Shaped(Shape::MuxedAddressObject, FakeVal(a0.spec_word()))],
            TypedModAddress::RequireAuth(a0) => seq![Operand::Shaped(Shape::AddressObject, FakeVal(a0.spec_word()))],
            TypedModAddress::RequireAuthForArgs(a0, a1) => seq![Operand::Shaped(Shape::AddressObject, FakeVal(a0.spec_word())), Operand::Shaped(Shape::VecObject, FakeVal(a1.spec_word()))],
            TypedModAddress::StrkeyToAddress(a0) => seq![Operand::Word(a0)],
        }
    }

    /// The instruction of this module that calls `f` with the operands
    /// `ops`, if `f` is in this module and `ops` fit its parameters.
    pub open spec fn spec_from_parts(f: HostFn, ops: Seq<Operand>) -> Option<TypedModAddress> {
        if !(typed_conforms(f.params(), ops) && tags_agree(ops)) {
            None
        } else {
            match f {
                HostFn::AddressToStrkey => Some(TypedModAddress::AddressToStrkey(AddressObj::spec_new(ops[0].word_part().0))),
                HostFn::AuthorizeAsCurrContract => Some(TypedModAddress::AuthorizeAsCurrContract(VecObj::spec_new(ops[0].word_part().0))),
                HostFn::GetAddressExecutable => Some(TypedModAddress::GetAddressExecutable(AddressObj::spec_new(ops[0].word_part().0))),
                HostFn::GetAddressFromMuxedAddress => Some(TypedModAddress::GetAddressFromMuxedAddress(MuxedAddressObj::spec_new(ops[0].word_part().0))),
                HostFn::GetIdFromMuxedAddress => Some(TypedModAddress::GetIdFromMuxedAddress(MuxedAddressObj::spec_new(ops[0].word_part().0))),
                HostFn::RequireAuth => Some(TypedModAddress::RequireAuth(AddressObj::spec_new(ops[0].word_part().0))),
                HostFn::RequireAuthForArgs => Some(TypedModAddress::RequireAuthForArgs(AddressObj::spec_new(ops[0].word_part().0), VecObj::spec_new(ops[1].word_part().0))),
                HostFn::StrkeyToAddress => Some(TypedModAddress::StrkeyToAddress(ops[0].word_part())),
                _ => None,
            }
        }
    }

    /// The host function the instruction calls.
    pub fn host_fn(&self) -> (r: HostFn)
        ensures
            r == self.opcode(),
    {
        match self {
            TypedModAddress::AddressToStrkey(..) => HostFn::AddressToStrkey,
            TypedModAddress::AuthorizeAsCurrContract(..) => HostFn::AuthorizeAsCurrContract,
            TypedModAddress::GetAddressExecutable(..) => HostFn::GetAddressExecutable,
            TypedModAddress::GetAddressFromMuxedAddress(..) => HostFn::GetAddressFromMuxedAddress,
            TypedModAddress::GetIdFromMuxedAddress(..) => HostFn::GetIdFromMuxedAddress,
            TypedModAddress::RequireAuth(..) => HostFn::RequireAuth,
            TypedModAddress::RequireAuthForArgs(..) => HostFn::RequireAuthForArgs,
            TypedModAddress::StrkeyToAddress(..) => HostFn::StrkeyToAddress,
        }
    }

    /// The instruction's operands, in slot order.
    pub fn operand_list(&self) -> (r: Vec<Operand>)
        ensures
            r@ == self.operands(),
            tags_agree(r@),
    {
        let r = match self {
            TypedModAddress::AddressToStrkey(a0) => vec![Operand::Shaped(Shape::AddressObject, a0.word())],
            TypedModAddress::AuthorizeAsCurrContract(a0) => vec![Operand::Shaped(Shape::VecObject, a0.word())],
            TypedModAddress::GetAddressExecutable(a0) => vec![Operand::Shaped(Shape::AddressObject, a0.word())],
            TypedModAddress::GetAddressFromMuxedAddress(a0) => vec![Operand::Shaped(Shape::MuxedAddressObject, a0.word())],
            TypedModAddress::GetIdFromMuxedAddress(a0) => vec![Operand::Shaped(Shape::MuxedAddressObject, a0.word())],
            TypedModAddress::RequireAuth(a0) => vec![Operand::Shaped(Shape::AddressObject, a0.word())],
            TypedModAddress::RequireAuthForArgs(a0, a1) => vec![Operand::Shaped(Shape::AddressObject, a0.word()), Operand::Shaped(Shape::VecObject, a1.word())],
            TypedModAddress::StrkeyToAddress(a0) => vec![Operand::Word(*a0)],
        };
        assert(r@ =~= self.operands());
        r
    }

    /// The instruction of this module that calls `f` with the operands
    /// `ops`, if `f` is in this module and `ops` fit its parameters.
    pub fn from_parts(f: HostFn, ops: &Vec<Operand>) -> (r: Option<TypedModAddress>)
        ensures
            r == Self::spec_from_parts(f, ops@),
    {
        if !conforms_typed(&f.param_list(), ops) {
            return None;
        }
        match f {
            HostFn::AddressToStrkey => {
                assert(ops@[0].tag_agrees() && ops@[0].typed_fits(f.params()[0]));
                Some(TypedModAddress::AddressToStrkey(AddressObj::checked(ops[0].get_word()).unwrap()))
            },
            HostFn::AuthorizeAsCurrContract => {
                assert(ops@[0].tag_agrees() && ops@[0].typed_fits(f.params()[0]));
                Some(TypedModAddress::AuthorizeAsCurrContract(VecObj::checked(ops[0].get_word()).unwrap()))
            },
            HostFn::GetAddressExecutable => {
                assert(ops@[0].tag_agrees() && ops@[0].typed_fits(f.params()[0]));
                Some(TypedModAddress::GetAddressExecutable(AddressObj::checked(ops[0].get_word()).unwrap()))
            },
            HostFn::GetAddressFromMuxedAddress => {
                assert(ops@[0].tag_agrees() && ops@[0].typed_fits(f.params()[0]));
                Some(TypedModAddress::GetAddressFromMuxedAddress(MuxedAddressObj::checked(ops[0].get_word()).unwrap()))
            },
            HostFn::GetIdFromMuxedAddress => {
                assert(ops@[0].tag_agrees() && ops@[0].typed_fits(f.params()[0]));
                Some(TypedModAddress::GetIdFromMuxedAddress(MuxedAddressObj::checked(ops[0].get_word()).unwrap()))
            },
            HostFn::RequireAuth => {
                assert(ops@[0].tag_agrees() && ops@[0].typed_fits(f.params()[0]));
                Some(TypedModAddress::RequireAuth(AddressObj::checked(ops[0].get_word()).unwrap()))
            },
            HostFn::RequireAuthForArgs => {
                assert(ops@[0].tag_agrees() && ops@[0].typed_fits(f.params()[0]));
                assert(ops@[1].tag_agrees() && ops@[1].typed_fits(f.params()[1]));
                Some(TypedModAddress::RequireAuthForArgs(AddressObj::checked(ops[0].get_word()).unwrap(), VecObj::checked(ops[1].get_word()).unwrap()))
            },
            HostFn::StrkeyToAddress => Some(TypedModAddress::StrkeyToAddress(ops[0].get_word())),
            _ => None,
        }
    }
}

proof fn lemma_address_inverse(m: TypedModAddress)
    requires
        tags_agree(m.operands()),
    ensures
        m.opcode().module() == Module::Address,
        typed_conforms(m.opcode().params(), m.operands()),
        TypedModAddress::spec_from_parts(m.opcode(), m.operands()) == Some(m),
{
}

proof fn lemma_address_realizes(f: HostFn, ops: Seq<Operand>)
    requires
        f.module() == Module::Address,
        typed_conforms(f.params(), ops),
        tags_agree(ops),
    ensures
        TypedModAddress::spec_from_parts(f, ops) matches Some(m) && m.opcode() == f && m.operands() == ops,
{
    if ops.len() > 0 {
        assert(ops[0].typed_fits(f.params()[0]));
        assert(ops[0].tag_agrees());
    }
    if ops.len() > 1 {
        assert(ops[1].typed_fits(f.params()[1]));
        assert(ops[1].tag_agrees());
    }
    assert(TypedModAddress::spec_from_parts(f, ops).unwrap().operands() =~= ops);
}

/// The typed tier's instructions of the `buf` module: one per host function.
#[derive(Clone, Copy, Debug, PartialEq, Eq)]
pub enum TypedModBuf {
    BytesAppend(BytesObj, BytesObj),
    BytesBack(BytesObj),
    BytesCopyFromLinearMemory(BytesObj, u32, u32, u32),
    BytesCopyToLinearMemory(BytesObj, u32, u32, u32),
    BytesDel(BytesObj, u32),
    BytesFront(BytesObj),
    BytesGet(BytesObj, u32),
    BytesInsert(BytesObj, u32, u32),
    BytesLen(BytesObj),
    BytesNew,
    BytesNewFromLinearMemory(u32, u32),
    BytesPop(BytesObj),
    BytesPush(BytesObj, u32),
    BytesPut(BytesObj, u32, u32),
    BytesSlice(BytesObj, u32, u32),
    BytesToString(BytesObj),
    DeserializeFromBytes(BytesObj),
    SerializeToBytes(FakeVal),
    StringCopyToLinearMemory(StringObj, u32, u32, u32),
    StringLen(StringObj),
    StringNewFromLinearMemory(u32, u32),
    StringToBytes(StringObj),
    SymbolCopyToLinearMemory(SymbolObj, u32, u32, u32),
    SymbolIndexInLinearMemory(SymbolWord, u32, u32),
    SymbolLen(SymbolObj),
    SymbolNewFromLinearMemory(u32, u32),
}

impl TypedModBuf {
    /// The host function the instruction calls.
    pub open spec fn opcode(self) -> HostFn {
        match self {
            TypedModBuf::BytesAppend(..) => HostFn::BytesAppend,
            TypedModBuf::BytesBack(..) => HostFn::BytesBack,
            TypedModBuf::BytesCopyFromLinearMemory(..) => HostFn::BytesCopyFromLinearMemory,
            TypedModBuf::BytesCopyToLinearMemory(..) => HostFn::BytesCopyToLinearMemory,
            TypedModBuf::BytesDel(..) => HostFn::BytesDel,
            TypedModBuf::BytesFront(..) => HostFn::BytesFront,
            TypedModBuf::BytesGet(..) => HostFn::BytesGet,
            TypedModBuf::BytesInsert(..) => HostFn::BytesInsert,
            TypedModBuf::BytesLen(..) => HostFn::BytesLen,
            TypedModBuf::BytesNew => HostFn::BytesNew,
            TypedModBuf::BytesNewFromLinearMemory(..) => HostFn::BytesNewFromLinearMemory,
            TypedModBuf::BytesPop(..) => HostFn::BytesPop,
            TypedModBuf::BytesPush(..) => HostFn::BytesPush,
            TypedModBuf::BytesPut(..) => HostFn::BytesPut,
            TypedModBuf::BytesSlice(..) => HostFn::BytesSlice,
            TypedModBuf::BytesToString(..) => HostFn::BytesToString,
            TypedModBuf::DeserializeFromBytes(..) => HostFn::DeserializeFromBytes,
            TypedModBuf::SerializeToBytes(..) => HostFn::SerializeToBytes,
            TypedModBuf::StringCopyToLinearMemory(..) => HostFn::StringCopyToLinearMemory,
            TypedModBuf::StringLen(..) => HostFn::StringLen,
            TypedModBuf::StringNewFromLinearMemory(..) => HostFn::StringNewFromLinearMemory,
            TypedModBuf::StringToBytes(..) => HostFn::StringToBytes,
            TypedModBuf::SymbolCopyToLinearMemory(..) => HostFn::SymbolCopyToLinearMemory,
            TypedModBuf::SymbolIndexInLinearMemory(..) => HostFn::SymbolIndexInLinearMemory,
            TypedModBuf::SymbolLen(..) => HostFn::SymbolLen,
            TypedModBuf::SymbolNewFromLinearMemory(..) => HostFn::SymbolNewFromLinearMemory,
        }
    }

    /// The instruction's operands, in slot order.
    pub open spec fn operands(self) -> Seq<Operand> {
        match self {
            TypedModBuf::BytesAppend(a0, a1) => seq![Operand::Shaped(Shape::BytesObject, FakeVal(a0.spec_word())), Operand::Shaped(Shape::BytesObject, FakeVal(a1.spec_word()))],
            TypedModBuf::BytesBack(a0) => seq![Operand::Shaped(Shape::BytesObject, FakeVal(a0.spec_word()))],
            TypedModBuf::BytesCopyFromLinearMemory(a0, a1, a2, a3) => seq![Operand::Shaped(Shape::BytesObject, FakeVal(a0.spec_word())), Operand::U32(a1), Operand::U32(a2), Operand::U32(a3)],
            TypedModBuf::BytesCopyToLinearMemory(a0, a1, a2, a3) => seq![Operand::Shaped(Shape::BytesObject, FakeVal(a0.spec_word())), Operand::U32(a1), Operand::U32(a2), Operand::U32(a3)],
            TypedModBuf::BytesDel(a0, a1) => seq![Operand::Shaped(Shape::BytesObject, FakeVal(a0.spec_word())), Operand::U32(a1)],
            TypedModBuf::BytesFront(a0) => seq![Operand::Shaped(Shape::BytesObject, FakeVal(a0.spec_word()))],
            TypedModBuf::BytesGet(a0, a1) => seq![Operand::Shaped(Shape::BytesObject, FakeVal(a0.spec_word())), Operand::U32(a1)],
            TypedModBuf::BytesInsert(a0, a1, a2) => seq![Operand::Shaped(Shape::BytesObject, FakeVal(a0.spec_word())), Operand::U32(a1), Operand::U32(a2)],
            TypedModBuf::BytesLen(a0) => seq![Operand::Shaped(Shape::BytesObject, FakeVal(a0.spec_word()))],
            TypedModBuf::BytesNew => seq![],
            TypedModBuf::BytesNewFromLinearMemory(a0, a1) => seq![Operand::U32(a0), Operand::U32(a1)],
            TypedModBuf::BytesPop(a0) => seq![Operand::Shaped(Shape::BytesObject, FakeVal(a0.spec_word()))],
            TypedModBuf::BytesPush(a0, a1) => seq![Operand::Shaped(Shape::BytesObject, FakeVal(a0.spec_word())), Operand::U32(a1)],
            TypedModBuf::BytesPut(a0, a1, a2) => seq![Operand::Shaped(Shape::BytesObject, FakeVal(a0.spec_word())), Operand::U32(a1), Operand::U32(a2)],
            TypedModBuf::BytesSlice(a0, a1, a2) => seq![Operand::Shaped(Shape::BytesObject, FakeVal(a0.spec_word())), Operand::U32(a1), Operand::U32(a2)],
            TypedModBuf::BytesToString(a0) => seq![Operand::Shaped(Shape::BytesObject, FakeVal(a0.spec_word()))],
            TypedModBuf::DeserializeFromBytes(a0) => seq![Operand::Shaped(Shape::BytesObject, FakeVal(a0.spec_word()))],
            TypedModBuf::SerializeToBytes(a0) => seq![Operand::Word(a0)],
            TypedModBuf::StringCopyToLinearMemory(a0, a1, a2, a3) => seq![Operand::Shaped(Shape::StringObject, FakeVal(a0.spec_word())), Operand::U32(a1), Operand::U32(a2), Operand::U32(a3)],
            TypedModBuf::StringLen(a0) => seq![Operand::Shaped(Shape::StringObject, FakeVal(a0.spec_word()))],
            TypedModBuf::StringNewFromLinearMemory(a0, a1) => seq![Operand::U32(a0), Operand::U32(a1)],
            TypedModBuf::StringToBytes(a0) => seq![Operand::Shaped(Shape::StringObject, FakeVal(a0.spec_word()))],
            TypedModBuf::SymbolCopyToLinearMemory(a0, a1, a2, a3) => seq![Operand::Shaped(Shape::SymbolObject, FakeVal(a0.spec_word())), Operand::U32(a1), Operand::U32(a2), Operand::U32(a3)],
            TypedModBuf::SymbolIndexInLinearMemory(a0, a1, a2) => seq![Operand::Shaped(Shape::Symbol, FakeVal(a0.spec_word())), Operand::U32(a1), Operand::U32(a2)],
            TypedModBuf::SymbolLen(a0) => seq![Operand::Shaped(Shape::SymbolObject, FakeVal(a0.spec_word()))],
            TypedModBuf::SymbolNewFromLinearMemory(a0, a1) => seq![Operand::U32(a0), Operand::U32(a1)],
        }
    }

    /// The instruction of this module that calls `f` with the operands
    /// `ops`, if `f` is in this module and `ops` fit its parameters.
    pub open spec fn spec_from_parts(f: HostFn, ops: Seq<Operand>) -> Option<TypedModBuf> {
        if !(typed_conforms(f.params(), ops) && tags_agree(ops)) {
            None
        } else {
            match f {
                HostFn::BytesAppend => Some(TypedModBuf::BytesAppend(BytesObj::spec_new(ops[0].word_part().0), BytesObj::spec_new(ops[1].word_part().0))),
                HostFn::BytesBack => Some(TypedModBuf::BytesBack(BytesObj::spec_new(ops[0].word_part().0))),
                HostFn::BytesCopyFromLinearMemory => Some(TypedModBuf::BytesCopyFromLinearMemory(BytesObj::spec_new(ops[0].word_part().0), ops[1].u32_part(), ops[2].u32_part(), ops[3].u32_part())),
                HostFn::BytesCopyToLinearMemory => Some(TypedModBuf::BytesCopyToLinearMemory(BytesObj::spec_new(ops[0].word_part().0), ops[1].u32_part(), ops[2].u32_part(), ops[3].u32_part())),
                HostFn::BytesDel => Some(TypedModBuf::BytesDel(BytesObj::spec_new(ops[0].word_part().0), ops[1].u32_part())),
                HostFn::BytesFront => Some(TypedModBuf::BytesFront(BytesObj::spec_new(ops[0].word_part().0))),
                HostFn::BytesGet => Some(TypedModBuf::BytesGet(BytesObj::spec_new(ops[0].word_part().0), ops[1].u32_part())),
                HostFn::BytesInsert => Some(TypedModBuf::BytesInsert(BytesObj::spec_new(ops[0].word_part().0), ops[1].u32_part(), ops[2].u32_part())),
                HostFn::BytesLen => Some(TypedModBuf::BytesLen(BytesObj::spec_new(ops[0].word_part().0))),
                HostFn::BytesNew => Some(TypedModBuf::BytesNew),
                HostFn::BytesNewFromLinearMemory => Some(TypedModBuf::BytesNewFromLinearMemory(ops[0].u32_part(), ops[1].u32_part())),
                HostFn::BytesPop => Some(TypedModBuf::BytesPop(BytesObj::spec_new(ops[0].word_part().0))),
                HostFn::BytesPush => Some(TypedModBuf::BytesPush(BytesObj::spec_new(ops[0].word_part().0), ops[1].u32_part())),
                HostFn::BytesPut => Some(TypedModBuf::BytesPut(BytesObj::spec_new(ops[0].word_part().0), ops[1].u32_part(), ops[2].u32_part())),
                HostFn::BytesSlice => Some(TypedModBuf::BytesSlice(BytesObj::spec_new(ops[0].word_part().0), ops[1].u32_part(), ops[2].u32_part())),
                HostFn::BytesToString => Some(TypedModBuf::BytesToString(BytesObj::spec_new(ops[0].word_part().0))),
                HostFn::DeserializeFromBytes => Some(TypedModBuf::DeserializeFromBytes(BytesObj::spec_new(ops[0].word_part().0))),
                HostFn::SerializeToBytes => Some(TypedModBuf::SerializeToBytes(ops[0].word_part())),
                HostFn::StringCopyToLinearMemory => Some(TypedModBuf::StringCopyToLinearMemory(StringObj::spec_new(ops[0].word_part().0), ops[1].u32_part(), ops[2].u32_part(), ops[3].u32_part())),
                HostFn::StringLen => Some(TypedModBuf::StringLen(StringObj::spec_new(ops[0].word_part().0))),
                HostFn::StringNewFromLinearMemory => Some(TypedModBuf::StringNewFromLinearMemory(ops[0].u32_part(), ops[1].u32_part())),
                HostFn::StringToBytes => Some(TypedModBuf::StringToBytes(StringObj::spec_new(ops[0].word_part().0))),
                HostFn::SymbolCopyToLinearMemory => Some(TypedModBuf::SymbolCopyToLinearMemory(SymbolObj::spec_new(ops[0].word_part().0), ops[1].u32_part(), ops[2].u32_part(), ops[3].u32_part())),
                HostFn::SymbolIndexInLinearMemory => Some(TypedModBuf::SymbolIndexInLinearMemory(SymbolWord::spec_new(ops[0].word_part().0), ops[1].u32_part(), ops[2].u32_part())),
                HostFn::SymbolLen => Some(TypedModBuf::SymbolLen(SymbolObj::spec_new(ops[0].word_part().0))),
                HostFn::SymbolNewFromLinearMemory => Some(TypedModBuf::SymbolNewFromLinearMemory(ops[0].u32_part(), ops[1].u32_part())),
                _ => None,
            }
        }
    }

    /// The host function the instruction calls.
    pub fn host_fn(&self) -> (r: HostFn)
        ensures
            r == self.opcode(),
    {
        match self {
            TypedModBuf::BytesAppend(..) => HostFn::BytesAppend,
            TypedModBuf::BytesBack(..) => HostFn::BytesBack,
            TypedModBuf::BytesCopyFromLinearMemory(..) => HostFn::BytesCopyFromLinearMemory,
            TypedModBuf::BytesCopyToLinearMemory(..) => HostFn::BytesCopyToLinearMemory,
            TypedModBuf::BytesDel(..) => HostFn::BytesDel,
            TypedModBuf::BytesFront(..) => HostFn::BytesFront,
            TypedModBuf::BytesGet(..) => HostFn::BytesGet,
            TypedModBuf::BytesInsert(..) => HostFn::BytesInsert,
            TypedModBuf::BytesLen(..) => HostFn::BytesLen,
            TypedModBuf::BytesNew => HostFn::BytesNew,
            TypedModBuf::BytesNewFromLinearMemory(..) => HostFn::BytesNewFromLinearMemory,
            TypedModBuf::BytesPop(..) => HostFn::BytesPop,
            TypedModBuf::BytesPush(..) => HostFn::BytesPush,
            TypedModBuf::BytesPut(..) => HostFn::BytesPut,
            TypedModBuf::BytesSlice(..) => HostFn::BytesSlice,
            TypedModBuf::BytesToString(..) => HostFn::BytesToString,
            TypedModBuf::DeserializeFromBytes(..) => HostFn::DeserializeFromBytes,
            TypedModBuf::SerializeToBytes(..) => HostFn::SerializeToBytes,
            TypedModBuf::StringCopyToLinearMemory(..) => HostFn::StringCopyToLinearMemory,
            TypedModBuf::StringLen(..) => HostFn::StringLen,
            TypedModBuf::StringNewFromLinearMemory(..) => HostFn::StringNewFromLinearMemory,
            TypedModBuf::StringToBytes(..) => HostFn::StringToBytes,
            TypedModBuf::SymbolCopyToLinearMemory(..) => HostFn::SymbolCopyToLinearMemory,
            TypedModBuf::SymbolIndexInLinearMemory(..) => HostFn::SymbolIndexInLinearMemory,
            TypedModBuf::SymbolLen(..) => HostFn::SymbolLen,
            TypedModBuf::SymbolNewFromLinearMemory(..) => HostFn::SymbolNewFromLinearMemory,
        }
    }

    /// The instruction's operands, in slot order.
    pub fn operand_list(&self) -> (r: Vec<Operand>)
        ensures
            r@ == self.operands(),
            tags_agree(r@),
    {
        let r = match self {
            TypedModBuf::BytesAppend(a0, a1) => vec![Operand::Shaped(Shape::BytesObject, a0.word()), Operand::Shaped(Shape::BytesObject, a1.word())],
            TypedModBuf::BytesBack(a0) => vec![Operand::Shaped(Shape::BytesObject, a0.word())],
            TypedModBuf::BytesCopyFromLinearMemory(a0, a1, a2, a3) => vec![Operand::Shaped(Shape::BytesObject, a0.word()), Operand::U32(*a1), Operand::U32(*a2), Operand::U32(*a3)],
            TypedModBuf::BytesCopyToLinearMemory(a0, a1, a2, a3) => vec![Operand::Shaped(Shape::BytesObject, a0.word()), Operand::U32(*a1), Operand::U32(*a2), Operand::U32(*a3)],
            TypedModBuf::BytesDel(a0, a1) => vec![Operand::Shaped(Shape::BytesObject, a0.word()), Operand::U32(*a1)],
            TypedModBuf::BytesFront(a0) => vec![Operand::Shaped(Shape::BytesObject, a0.word())],
            TypedModBuf::BytesGet(a0, a1) => vec![Operand::Shaped(Shape::BytesObject, a0.word()), Operand::U32(*a1)],
            TypedModBuf::BytesInsert(a0, a1, a2) => vec![Operand::Shaped(Shape::BytesObject, a0.word()), Operand::U32(*a1), Operand::U32(*a2)],
            TypedModBuf::BytesLen(a0) => vec![Operand::Shaped(Shape::BytesObject, a0.word())],
            TypedModBuf::BytesNew => vec![],
            TypedModBuf::BytesNewFromLinearMemory(a0, a1) => vec![Operand::U32(*a0), Operand::U32(*a1)],
            TypedModBuf::BytesPop(a0) => vec![Operand::Shaped(Shape::BytesObject, a0.word())],
            TypedModBuf::BytesPush(a0, a1) => vec![Operand::Shaped(Shape::BytesObject, a0.word()), Operand::U32(*a1)],
            TypedModBuf::BytesPut(a0, a1, a2) => vec![Operand::Shaped(Shape::BytesObject, a0.word()), Operand::U32(*a1), Operand::U32(*a2)],
            TypedModBuf::BytesSlice(a0, a1, a2) => vec![Operand::Shaped(Shape::BytesObject, a0.word()), Operand::U32(*a1), Operand::U32(*a2)],
            TypedModBuf::BytesToString(a0) => vec![Operand::Shaped(Shape::BytesObject, a0.word())],
            TypedModBuf::DeserializeFromBytes(a0) => vec![Operand::Shaped(Shape::BytesObject, a0.word())],
            TypedModBuf::SerializeToBytes(a0) => vec![Operand::Word(*a0)],
            TypedModBuf::StringCopyToLinearMemory(a0, a1, a2, a3) => vec![Operand::Shaped(Shape::StringObject, a0.word()), Operand::U32(*a1), Operand::U32(*a2), Operand::U32(*a3)],
            TypedModBuf::StringLen(a0) => vec![Operand::Shaped(Shape::StringObject, a0.word())],
            TypedModBuf::StringNewFromLinearMemory(a0, a1) => vec![Operand::U32(*a0), Operand::U32(*a1)],
            TypedModBuf::StringToBytes(a0) => vec![Operand::Shaped(Shape::StringObject, a0.word())],
            TypedModBuf::SymbolCopyToLinearMemory(a0, a1, a2, a3) => vec![Operand::Shaped(Shape::SymbolObject, a0.word()), Operand::U32(*a1), Operand::U32(*a2), Operand::U32(*a3)],
            TypedModBuf::SymbolIndexInLinearMemory(a0, a1, a2) => vec![Operand::Shaped(Shape::Symbol, a0.word()), Operand::U32(*a1), Operand::U32(*a2)],
            TypedModBuf::SymbolLen(a0) => vec![Operand::Shaped(Shape::SymbolObject, a0.word())],
            TypedModBuf::SymbolNewFromLinearMemory(a0, a1) => vec![Operand::U32(*a0), Operand::U32(*a1)],
        };
        assert(r@ =~= self.operands());
        r
    }

    /// The instruction of this module that calls `f` with the operands
    /// `ops`, if `f` is in this module and `ops` fit its parameters.
    pub fn from_parts(f: HostFn, ops: &Vec<Operand>) -> (r: Option<TypedModBuf>)
        ensures
            r == Self::spec_from_parts(f, ops@),
    {
        if !conforms_typed(&f.param_list(), ops) {
            return None;
        }
        match f {
            HostFn::BytesAppend => {
                assert(ops@[0].tag_agrees() && ops@[0].typed_fits(f.params()[0]));
                assert(ops@[1].tag_agrees() && ops@[1].typed_fits(f.params()[1]));
                Some(TypedModBuf::BytesAppend(BytesObj::checked(ops[0].get_word()).unwrap(), BytesObj::checked(ops[1].get_word()).unwrap()))
            },
            HostFn::BytesBack => {
                assert(ops@[0].tag_agrees() && ops@[0].typed_fits(f.params()[0]));
                Some(TypedModBuf::BytesBack(BytesObj::checked(ops[0].get_word()).unwrap()))
            },
            HostFn::BytesCopyFromLinearMemory => {
                assert(ops@[0].tag_agrees() && ops@[0].typed_fits(f.params()[0]));
                Some(TypedModBuf::BytesCopyFromLinearMemory(BytesObj::checked(ops[0].get_word()).unwrap(), ops[1].get_u32(), ops[2].get_u32(), ops[3].get_u32()))
            },
            HostFn::BytesCopyToLinearMemory => {
                assert(ops@[0].tag_agrees() && ops@[0].typed_fits(f.params()[0]));
                Some(TypedModBuf::BytesCopyToLinearMemory(BytesObj::checked(ops[0].get_word()).unwrap(), ops[1].get_u32(), ops[2].get_u32(), ops[3].get_u32()))
            },
            HostFn::BytesDel => {
                assert(ops@[0].tag_agrees() && ops@[0].typed_fits(f.params()[0]));
                Some(TypedModBuf::BytesDel(BytesObj::checked(ops[0].get_word()).unwrap(), ops[1].get_u32()))
            },
            HostFn::BytesFront => {
                assert(ops@[0].tag_agrees() && ops@[0].typed_fits(f.params()[0]));
                Some(TypedModBuf::BytesFront(BytesObj::checked(ops[0].get_word()).unwrap()))
            },
            HostFn::BytesGet => {
                assert(ops@[0].tag_agrees() && ops@[0].typed_fits(f.params()[0]));
                Some(TypedModBuf::BytesGet(BytesObj::checked(ops[0].get_word()).unwrap(), ops[1].get_u32()))
            },
            HostFn::BytesInsert => {
                assert(ops@[0].tag_agrees() && ops@[0].typed_fits(f.params()[0]));
                Some(TypedModBuf::BytesInsert(BytesObj::checked(ops[0].get_word()).unwrap(), ops[1].get_u32(), ops[2].get_u32()))
            },
            HostFn::BytesLen => {
                assert(ops@[0].tag_agrees() && ops@[0].typed_fits(f.params()[0]));
                Some(TypedModBuf::BytesLen(BytesObj::checked(ops[0].get_word()).unwrap()))
            },
            HostFn::BytesNew => Some(TypedModBuf::BytesNew),
            HostFn::BytesNewFromLinearMemory => Some(TypedModBuf::BytesNewFromLinearMemory(ops[0].get_u32(), ops[1].get_u32())),
            HostFn::BytesPop => {
                assert(ops@[0].tag_agrees() && ops@[0].typed_fits(f.params()[0]));
                Some(TypedModBuf::BytesPop(BytesObj::checked(ops[0].get_word()).unwrap()))
            },
            HostFn::BytesPush => {
                assert(ops@[0].tag_agrees() && ops@[0].typed_fits(f.params()[0]));
                Some(TypedModBuf::BytesPush(BytesObj::checked(ops[0].get_word()).unwrap(), ops[1].get_u32()))
            },
            HostFn::BytesPut => {
                assert(ops@[0].tag_agrees() && ops@[0].typed_fits(f.params()[0]));
                Some(TypedModBuf::BytesPut(BytesObj::checked(ops[0].get_word()).unwrap(), ops[1].get_u32(), ops[2].get_u32()))
            },
            HostFn::BytesSlice => {
                assert(ops@[0].tag_agrees() && ops@[0].typed_fits(f.params()[0]));
                Some(TypedModBuf::BytesSlice(BytesObj::checked(ops[0].get_word()).unwrap(), ops[1].get_u32(), ops[2].get_u32()))
            },
            HostFn::BytesToString => {
                assert(ops@[0].tag_agrees() && ops@[0].typed_fits(f.params()[0]));
                Some(TypedModBuf::BytesToString(BytesObj::checked(ops[0].get_word()).unwrap()))
            },
            HostFn::DeserializeFromBytes => {
                assert(ops@[0].tag_agrees() && ops@[0].typed_fits(f.params()[0]));
                Some(TypedModBuf::DeserializeFromBytes(BytesObj::checked(ops[0].get_word()).unwrap()))
            },
            HostFn::SerializeToBytes => Some(TypedModBuf::SerializeToBytes(ops[0].get_word())),
            HostFn::StringCopyToLinearMemory => {
                assert(ops@[0].tag_agrees() && ops@[0].typed_fits(f.params()[0]));
                Some(TypedModBuf::StringCopyToLinearMemory(StringObj::checked(ops[0].get_word()).unwrap(), ops[1].get_u32(), ops[2].get_u32(), ops[3].get_u32()))
            },
            HostFn::StringLen => {
                assert(ops@[0].tag_agrees() && ops@[0].typed_fits(f.params()[0]));
                Some(TypedModBuf::StringLen(StringObj::checked(ops[0].get_word()).unwrap()))
            },
            HostFn::StringNewFromLinearMemory => Some(TypedModBuf::StringNewFromLinearMemory(ops[0].get_u32(), ops[1].get_u32())),
            HostFn::StringToBytes => {
                assert(ops@[0].tag_agrees() && ops@[0].typed_fits(f.params()[0]));
                Some(TypedModBuf::StringToBytes(StringObj::checked(ops[0].get_word()).unwrap()))
            },
            HostFn::SymbolCopyToLinearMemory => {
                assert(ops@[0].tag_agrees() && ops@[0].typed_fits(f.params()[0]));
                Some(TypedModBuf::SymbolCopyToLinearMemory(SymbolObj::checked(ops[0].get_word()).unwrap(), ops[1].get_u32(), ops[2].get_u32(), ops[3].get_u32()))
            },
            HostFn::SymbolIndexInLinearMemory => {
                assert(ops@[0].tag_agrees() && ops@[0].typed_fits(f.params()[0]));
                Some(TypedModBuf::SymbolIndexInLinearMemory(SymbolWord::checked(ops[0].get_word()).unwrap(), ops[1].get_u32(), ops[2].get_u32()))
            },
            HostFn::SymbolLen => {
                assert(ops@[0].tag_agrees() && ops@[0].typed_fits(f.params()[0]));
                Some(TypedModBuf::SymbolLen(SymbolObj::checked(ops[0].get_word()).unwrap()))
            },
            HostFn::SymbolNewFromLinearMemory => Some(TypedModBuf::SymbolNewFromLinearMemory(ops[0].get_u32(), ops[1].get_u32())),
            _ => None,
        }
    }
}

proof fn lemma_buf_inverse(m: TypedModBuf)
    requires
        tags_agree(m.operands()),
    ensures
        m.opcode().module() == Module::Buf,
        typed_conforms(m.opcode().params(), m.operands()),
        TypedModBuf::spec_from_parts(m.opcode(), m.operands()) == Some(m),
{
}

proof fn lemma_buf_realizes(f: HostFn, ops: Seq<Operand>)
    requires
        f.module() == Module::Buf,
        typed_conforms(f.params(), ops),
        tags_agree(ops),
    ensures
        TypedModBuf::spec_from_parts(f, ops) matches Some(m) && m.opcode() == f && m.operands() == ops,
{
    if ops.len() > 0 {
        assert(ops[0].typed_fits(f.params()[0]));
        assert(ops[0].tag_agrees());
    }
    if ops.len() > 1 {
        assert(ops[1].typed_fits(f.params()[1]));
        assert(ops[1].tag_agrees());
    }
    if ops.len() > 2 {
        assert(ops[2].typed_fits(f.params()[2]));
        assert(ops[2].tag_agrees());
    }
    if ops.len() > 3 {
        assert(ops[3].typed_fits(f.params()[3]));
        assert(ops[3].tag_agrees());
    }
    assert(TypedModBuf::spec_from_parts(f, ops).unwrap().operands() =~= ops);
}

/// The typed tier's instructions of the `call` module: one per host function.
#[derive(Clone, Copy, Debug, PartialEq, Eq)]
pub enum TypedModCall {
    Call(AddressObj, SymbolWord, VecObj),
    TryCall(AddressObj, SymbolWord, VecObj),
}

impl TypedModCall {
    /// The host function the instruction calls.
    pub open spec fn opcode(self) -> HostFn {
        match self {
            TypedModCall::Call(..) => HostFn::Call,
            TypedModCall::TryCall(..) => HostFn::TryCall,
        }
    }

    /// The instruction's operands, in slot order.
    pub open spec fn operands(self) -> Seq<Operand> {
        match self {
            TypedModCall::Call(a0, a1, a2) => seq![Operand::Shaped(Shape::AddressObject, FakeVal(a0.spec_word())), Operand::Shaped(Shape::Symbol, FakeVal(a1.spec_word())), Operand::Shaped(Shape::VecObject, FakeVal(a2.spec_word()))],
            TypedModCall::TryCall(a0, a1, a2) => seq![Operand::Shaped(Shape::AddressObject, FakeVal(a0.spec_word())), Operand::Shaped(Shape::Symbol, FakeVal(a1.spec_word())), Operand::Shaped(Shape::VecObject, FakeVal(a2.spec_word()))],
        }
    }

    /// The instruction of this module that calls `f` with the operands
    /// `ops`, if `f` is in this module and `ops` fit its parameters.
    pub open spec fn spec_from_parts(f: HostFn, ops: Seq<Operand>) -> Option<TypedModCall> {
        if !(typed_conforms(f.params(), ops) && tags_agree(ops)) {
            None
        } else {
            match f {
                HostFn::Call => Some(TypedModCall::Call(AddressObj::spec_new(ops[0].word_part().0), SymbolWord::spec_new(ops[1].word_part().0), VecObj::spec_new(ops[2].word_part().0))),
                HostFn::TryCall => Some(TypedModCall::TryCall(AddressObj::spec_new(ops[0].word_part().0), SymbolWord::spec_new(ops[1].word_part().0), VecObj::spec_new(ops[2].word_part().0))),
                _ => None,
            }
        }
    }

    /// The host function the instruction calls.
    pub fn host_fn(&self) -> (r: HostFn)
        ensures
            r == self.opcode(),
    {
        match self {
            TypedModCall::Call(..) => HostFn::Call,
            TypedModCall::TryCall(..) => HostFn::TryCall,
        }
    }

    /// The instruction's operands, in slot order.
    pub fn operand_list(&self) -> (r: Vec<Operand>)
        ensures
            r@ == self.operands(),
            tags_agree(r@),
    {
        let r = match self {
            TypedModCall::Call(a0, a1, a2) => vec![Operand::Shaped(Shape::AddressObject, a0.word()), Operand::Shaped(Shape::Symbol, a1.word()), Operand::Shaped(Shape::VecObject, a2.word())],
            TypedModCall::TryCall(a0, a1, a2) => vec![Operand::Shaped(Shape::AddressObject, a0.word()), Operand::Shaped(Shape::Symbol, a1.word()), Operand::Shaped(Shape::VecObject, a2.word())],
        };
        assert(r@ =~= self.operands());
        r
    }

    /// The instruction of this module that calls `f` with the operands
    /// `ops`, if `f` is in this module and `ops` fit its parameters.
    pub fn from_parts(f: HostFn, ops: &Vec<Operand>) -> (r: Option<TypedModCall>)
        ensures
            r == Self::spec_from_parts(f, ops@),
    {
        if !conforms_typed(&f.param_list(), ops) {
            return None;
        }
        match f {
            HostFn::Call => {
                assert(ops@[0].tag_agrees() && ops@[0].typed_fits(f.params()[0]));
                assert(ops@[1].tag_agrees() && ops@[1].typed_fits(f.params()[1]));
                assert(ops@[2].tag_agrees() && ops@[2].typed_fits(f.params()[2]));
                Some(TypedModCall::Call(AddressObj::checked(ops[0].get_word()).unwrap(), SymbolWord::checked(ops[1].get_word()).unwrap(), VecObj::checked(ops[2].get_word()).unwrap()))
            },
            HostFn::TryCall => {
                assert(ops@[0].tag_agrees() && ops@[0].typed_fits(f.params()[0]));
                assert(ops@[1].tag_agrees() && ops@[1].typed_fits(f.params()[1]));
                assert(ops@[2].tag_agrees() && ops@[2].typed_fits(f.params()[2]));
                Some(TypedModCall::TryCall(AddressObj::checked(ops[0].get_word()).unwrap(), SymbolWord::checked(ops[1].get_word()).unwrap(), VecObj::checked(ops[2].get_word()).unwrap()))
            },
            _ => None,
        }
    }
}

proof fn lemma_call_inverse(m: TypedModCall)
    requires
        tags_agree(m.operands()),
    ensures
        m.opcode().module() == Module::Call,
        typed_conforms(m.opcode().params(), m.operands()),
        TypedModCall::spec_from_parts(m.opcode(), m.operands()) == Some(m),
{
}

proof fn lemma_call_realizes(f: HostFn, ops: Seq<Operand>)
    requires
        f.module() == Module::Call,
        typed_conforms(f.params(), ops),
        tags_agree(ops),
    ensures
        TypedModCall::spec_from_parts(f, ops) matches Some(m) && m.opcode() == f && m.operands() == ops,
{
    if ops.len() > 0 {
        assert(ops[0].typed_fits(f.params()[0]));
        assert(ops[0].tag_agrees());
    }
    if ops.len() > 1 {
        assert(ops[1].typed_fits(f.params()[1]));
        assert(ops[1].tag_agrees());
    }
    if ops.len() > 2 {
        assert(ops[2].typed_fits(f.params()[2]));
        assert(ops[2].tag_agrees());
    }
    assert(TypedModCall::spec_from_parts(f, ops).unwrap().operands() =~= ops);
}

/// The typed tier's instructions of the `context` module: one per host function.
#[derive(Clone, Copy, Debug, PartialEq, Eq)]
pub enum TypedModContext {
    ContractEvent(VecObj, FakeVal),
    FailWithError(ErrorWord),
    GetCurrentContractAddress,
    GetLedgerNetworkId,
    GetLedgerSequence,
    GetLedgerTimestamp,
    GetLedgerVersion,
    GetMaxLiveUntilLedger,
    LogFromLinearMemory(u32, u32, u32, u32),
    ObjCmp(FakeVal, FakeVal),
}

impl TypedModContext {
    /// The host function the instruction calls.
    pub open spec fn opcode(self) -> HostFn {
        match self {
            TypedModContext::ContractEvent(..) => HostFn::ContractEvent,
            TypedModContext::FailWithError(..) => HostFn::FailWithError,
            TypedModContext::GetCurrentContractAddress => HostFn::GetCurrentContractAddress,
            TypedModContext::GetLedgerNetworkId => HostFn::GetLedgerNetworkId,
            TypedModContext::GetLedgerSequence => HostFn::GetLedgerSequence,
            TypedModContext::GetLedgerTimestamp => HostFn::GetLedgerTimestamp,
            TypedModContext::GetLedgerVersion => HostFn::GetLedgerVersion,
            TypedModContext::GetMaxLiveUntilLedger => HostFn::GetMaxLiveUntilLedger,
            TypedModContext::LogFromLinearMemory(..) => HostFn::LogFromLinearMemory,
            TypedModContext::ObjCmp(..) => HostFn::ObjCmp,
        }
    }

    /// The instruction's operands, in slot order.
    pub open spec fn operands(self) -> Seq<Operand> {
        match self {
            TypedModContext::ContractEvent(a0, a1) => seq![Operand::Shaped(Shape::VecObject, FakeVal(a0.spec_word())), Operand::Word(a1)],
            TypedModContext::FailWithError(a0) => seq![Operand::Shaped(Shape::Error, FakeVal(a0.spec_word()))],
            TypedModContext::GetCurrentContractAddress => seq![],
            TypedModContext::GetLedgerNetworkId => seq![],
            TypedModContext::GetLedgerSequence => seq![],
            TypedModContext::GetLedgerTimestamp => seq![],
            TypedModContext::GetLedgerVersion => seq![],
            TypedModContext::GetMaxLiveUntilLedger => seq![],
            TypedModContext::LogFromLinearMemory(a0, a1, a2, a3) => seq![Operand::U32(a0), Operand::U32(a1), Operand::U32(a2), Operand::U32(a3)],
            TypedModContext::ObjCmp(a0, a1) => seq![Operand::Word(a0), Operand::Word(a1)],
        }
    }

    /// The instruction of this module that calls `f` with the operands
    /// `ops`, if `f` is in this module and `ops` fit its parameters.
    pub open spec fn spec_from_parts(f: HostFn, ops: Seq<Operand>) -> Option<TypedModContext> {
        if !(typed_conforms(f.params(), ops) && tags_agree(ops)) {
            None
        } else {
            match f {
                HostFn::ContractEvent => Some(TypedModContext::ContractEvent(VecObj::spec_new(ops[0].word_part().0), ops[1].word_part())),
                HostFn::FailWithError => Some(TypedModContext::FailWithError(ErrorWord::spec_new(ops[0].word_part().0))),
                HostFn::GetCurrentContractAddress => Some(TypedModContext::GetCurrentContractAddress),
                HostFn::GetLedgerNetworkId => Some(TypedModContext::GetLedgerNetworkId),
                HostFn::GetLedgerSequence => Some(TypedModContext::GetLedgerSequence),
                HostFn::GetLedgerTimestamp => Some(TypedModContext::GetLedgerTimestamp),
                HostFn::GetLedgerVersion => Some(TypedModContext::GetLedgerVersion),
                HostFn::GetMaxLiveUntilLedger => Some(TypedModContext::GetMaxLiveUntilLedger),
                HostFn::LogFromLinearMemory => Some(TypedModContext::LogFromLinearMemory(ops[0].u32_part(), ops[1].u32_part(), ops[2].u32_part(), ops[3].u32_part())),
                HostFn::ObjCmp => Some(TypedModContext::ObjCmp(ops[0].word_part(), ops[1].word_part())),
                _ => None,
            }
        }
    }

    /// The host function the instruction calls.
    pub fn host_fn(&self) -> (r: HostFn)
        ensures
            r == self.opcode(),
    {
        match self {
            TypedModContext::ContractEvent(..) => HostFn::ContractEvent,
            TypedModContext::FailWithError(..) => HostFn::FailWithError,
            TypedModContext::GetCurrentContractAddress => HostFn::GetCurrentContractAddress,
            TypedModContext::GetLedgerNetworkId => HostFn::GetLedgerNetworkId,
            TypedModContext::GetLedgerSequence => HostFn::GetLedgerSequence,
            TypedModContext::GetLedgerTimestamp => HostFn::GetLedgerTimestamp,
            TypedModContext::GetLedgerVersion => HostFn::GetLedgerVersion,
            TypedModContext::GetMaxLiveUntilLedger => HostFn::GetMaxLiveUntilLedger,
            TypedModContext::LogFromLinearMemory(..) => HostFn::LogFromLinearMemory,
            TypedModContext::ObjCmp(..) => HostFn::ObjCmp,
        }
    }

    /// The instruction's operands, in slot order.
    pub fn operand_list(&self) -> (r: Vec<Operand>)
        ensures
            r@ == self.operands(),
            tags_agree(r@),
    {
        let r = match self {
            TypedModContext::ContractEvent(a0, a1) => vec![Operand::Shaped(Shape::VecObject, a0.word()), Operand::Word(*a1)],
            TypedModContext::FailWithError(a0) => vec![Operand::Shaped(Shape::Error, a0.word())],
            TypedModContext::GetCurrentContractAddress => vec![],
            TypedModContext::GetLedgerNetworkId => vec![],
            TypedModContext::GetLedgerSequence => vec![],
            TypedModContext::GetLedgerTimestamp => vec![],
            TypedModContext::GetLedgerVersion => vec![],
            TypedModContext::GetMaxLiveUntilLedger => vec![],
            TypedModContext::LogFromLinearMemory(a0, a1, a2, a3) => vec![Operand::U32(*a0), Operand::U32(*a1), Operand::U32(*a2), Operand::U32(*a3)],
            TypedModContext::ObjCmp(a0, a1) => vec![Operand::Word(*a0), Operand::Word(*a1)],
        };
        assert(r@ =~= self.operands());
        r
    }

    /// The instruction of this module that calls `f` with the operands
    /// `ops`, if `f` is in this module and `ops` fit its parameters.
    pub fn from_parts(f: HostFn, ops: &Vec<Operand>) -> (r: Option<TypedModContext>)
        ensures
            r == Self::spec_from_parts(f, ops@),
    {
        if !conforms_typed(&f.param_list(), ops) {
            return None;
        }
        match f {
            HostFn::ContractEvent => {
                assert(ops@[0].tag_agrees() && ops@[0].typed_fits(f.params()[0]));
                Some(TypedModContext::ContractEvent(VecObj::checked(ops[0].get_word()).unwrap(), ops[1].get_word()))
            },
            HostFn::FailWithError => {
                assert(ops@[0].tag_agrees() && ops@[0].typed_fits(f.params()[0]));
                Some(TypedModContext::FailWithError(ErrorWord::checked(ops[0].get_word()).unwrap()))
            },
            HostFn::GetCurrentContractAddress => Some(TypedModContext::GetCurrentContractAddress),
            HostFn::GetLedgerNetworkId => Some(TypedModContext::GetLedgerNetworkId),
            HostFn::GetLedgerSequence => Some(TypedModContext::GetLedgerSequence),
            HostFn::GetLedgerTimestamp => Some(TypedModContext::GetLedgerTimestamp),
            HostFn::GetLedgerVersion => Some(TypedModContext::GetLedgerVersion),
            HostFn::GetMaxLiveUntilLedger => Some(TypedModContext::GetMaxLiveUntilLedger),
            HostFn::LogFromLinearMemory => Some(TypedModContext::LogFromLinearMemory(ops[0].get_u32(), ops[1].get_u32(), ops[2].get_u32(), ops[3].get_u32())),
            HostFn::ObjCmp => Some(TypedModContext::ObjCmp(ops[0].get_word(), ops[1].get_word())),
            _ => None,
        }
    }
}

proof fn lemma_context_inverse(m: TypedModContext)
    requires
        tags_agree(m.operands()),
    ensures
        m.opcode().module() == Module::Context,
        typed_conforms(m.opcode().params(), m.operands()),
        TypedModContext::spec_from_parts(m.opcode(), m.operands()) == Some(m),
{
}

proof fn lemma_context_realizes(f: HostFn, ops: Seq<Operand>)
    requires
        f.module() == Module::Context,
        typed_conforms(f.params(), ops),
        tags_agree(ops),
    ensures
        TypedModContext::spec_from_parts(f, ops) matches Some(m) && m.opcode() == f && m.operands() == ops,
{
    if ops.len() > 0 {
        assert(ops[0].typed_fits(f.params()[0]));
        assert(ops[0].tag_agrees());
    }
    if ops.len() > 1 {
        assert(ops[1].typed_fits(f.params()[1]));
        assert(ops[1].tag_agrees());
    }
    if ops.len() > 2 {
        assert(ops[2].typed_fits(f.params()[2]));
        assert(ops[2].tag_agrees());
    }
    if ops.len() > 3 {
        assert(ops[3].typed_fits(f.params()[3]));
        assert(ops[3].tag_agrees());
    }
    assert(TypedModContext::spec_from_parts(f, ops).unwrap().operands() =~= ops);
}

/// The typed tier's instructions of the `crypto` module: one per host function.
#[derive(Clone, Copy, Debug, PartialEq, Eq)]
pub enum TypedModCrypto {
    Bls12381CheckG1IsInSubgroup(BytesObj),
    Bls12381CheckG2IsInSubgroup(BytesObj),
    Bls12381FrAdd(U256Word, U256Word),
    Bls12381FrInv(U256Word),
    Bls12381FrMul(U256Word, U256Word),
    Bls12381FrPow(U256Word, U64Word),
    Bls12381FrSub(U256Word, U256Word),
    Bls12381G1Add(BytesObj, BytesObj),
    Bls12381G1Msm(VecObj, VecObj),
    Bls12381G1Mul(BytesObj, U256Word),
    Bls12381G2Add(BytesObj, BytesObj),
    Bls12381G2Msm(VecObj, VecObj),
    Bls12381G2Mul(BytesObj, U256Word),
    Bls12381HashToG1(BytesObj, BytesObj),
    Bls12381HashToG2(BytesObj, BytesObj),
    Bls12381MapFp2ToG2(BytesObj),
    Bls12381MapFpToG1(BytesObj),
    Bls12381MultiPairingCheck(VecObj, VecObj),
    ComputeHashKeccak256(BytesObj),
    ComputeHashSha256(BytesObj),
    RecoverKeyEcdsaSecp256k1(BytesObj, BytesObj, u32),
    VerifySigEcdsaSecp256r1(BytesObj, BytesObj, BytesObj),
    VerifySigEd25519(BytesObj, BytesObj, BytesObj),
}

impl TypedModCrypto {
    /// The host function the instruction calls.
    pub open spec fn opcode(self) -> HostFn {
        match self {
            TypedModCrypto::Bls12381CheckG1IsInSubgroup(..) => HostFn::Bls12381CheckG1IsInSubgroup,
            TypedModCrypto::Bls12381CheckG2IsInSubgroup(..) => HostFn::Bls12381CheckG2IsInSubgroup,
            TypedModCrypto::Bls12381FrAdd(..) => HostFn::Bls12381FrAdd,
            TypedModCrypto::Bls12381FrInv(..) => HostFn::Bls12381FrInv,
            TypedModCrypto::Bls12381FrMul(..) => HostFn::Bls12381FrMul,
            TypedModCrypto::Bls12381FrPow(..) => HostFn::Bls12381FrPow,
            TypedModCrypto::Bls12381FrSub(..) => HostFn::Bls12381FrSub,
            TypedModCrypto::Bls12381G1Add(..) => HostFn::Bls12381G1Add,
            TypedModCrypto::Bls12381G1Msm(..) => HostFn::Bls12381G1Msm,
            TypedModCrypto::Bls12381G1Mul(..) => HostFn::Bls12381G1Mul,
            TypedModCrypto::Bls12381G2Add(..) => HostFn::Bls12381G2Add,
            TypedModCrypto::Bls12381G2Msm(..) => HostFn::Bls12381G2Msm,
            TypedModCrypto::Bls12381G2Mul(..) => HostFn::Bls12381G2Mul,
            TypedModCrypto::Bls12381HashToG1(..) => HostFn::Bls12381HashToG1,
            TypedModCrypto::Bls12381HashToG2(..) => HostFn::Bls12381HashToG2,
            TypedModCrypto::Bls12381MapFp2ToG2(..) => HostFn::Bls12381MapFp2ToG2,
            TypedModCrypto::Bls12381MapFpToG1(..) => HostFn::Bls12381MapFpToG1,
            TypedModCrypto::Bls12381MultiPairingCheck(..) => HostFn::Bls12381MultiPairingCheck,
            TypedModCrypto::ComputeHashKeccak256(..) => HostFn::ComputeHashKeccak256,
            TypedModCrypto::ComputeHashSha256(..) => HostFn::ComputeHashSha256,
            TypedModCrypto::RecoverKeyEcdsaSecp256k1(..) => HostFn::RecoverKeyEcdsaSecp256k1,
            TypedModCrypto::VerifySigEcdsaSecp256r1(..) => HostFn::VerifySigEcdsaSecp256r1,
            TypedModCrypto::VerifySigEd25519(..) => HostFn::VerifySigEd25519,
        }
    }

    /// The instruction's operands, in slot order.
    pub open spec fn operands(self) -> Seq<Operand> {
        match self {
            TypedModCrypto::Bls12381CheckG1IsInSubgroup(a0) => seq![Operand::Shaped(Shape::BytesObject, FakeVal(a0.spec_word()))],
            TypedModCrypto::Bls12381CheckG2IsInSubgroup(a0) => seq![Operand::Shaped(Shape::BytesObject, FakeVal(a0.spec_word()))],
            TypedModCrypto::Bls12381FrAdd(a0, a1) => seq![Operand::Shaped(Shape::U256Val, FakeVal(a0.spec_word())), Operand::Shaped(Shape::U256Val, FakeVal(a1.spec_word()))],
            TypedModCrypto::Bls12381FrInv(a0) => seq![Operand::Shaped(Shape::U256Val, FakeVal(a0.spec_word()))],
            TypedModCrypto::Bls12381FrMul(a0, a1) => seq![Operand::Shaped(Shape::U256Val, FakeVal(a0.spec_word())), Operand::Shaped(Shape::U256Val, FakeVal(a1.spec_word()))],
            TypedModCrypto::Bls12381FrPow(a0, a1) => seq![Operand::Shaped(Shape::U256Val, FakeVal(a0.spec_word())), Operand::Shaped(Shape::U64Val, FakeVal(a1.spec_word()))],
            TypedModCrypto::Bls12381FrSub(a0, a1) => seq![Operand::Shaped(Shape::U256Val, FakeVal(a0.spec_word())), Operand::Shaped(Shape::U256Val, FakeVal(a1.spec_word()))],
            TypedModCrypto::Bls12381G1Add(a0, a1) => seq![Operand::Shaped(Shape::BytesObject, FakeVal(a0.spec_word())), Operand::Shaped(Shape::BytesObject, FakeVal(a1.spec_word()))],
            TypedModCrypto::Bls12381G1Msm(a0, a1) => seq![Operand::Shaped(Shape::VecObject, FakeVal(a0.spec_word())), Operand::Shaped(Shape::VecObject, FakeVal(a1.spec_word()))],
            TypedModCrypto::Bls12381G1Mul(a0, a1) => seq![Operand::Shaped(Shape::BytesObject, FakeVal(a0.spec_word())), Operand::Shaped(Shape::U256Val, FakeVal(a1.spec_word()))],
            TypedModCrypto::Bls12381G2Add(a0, a1) => seq![Operand::Shaped(Shape::BytesObject, FakeVal(a0.spec_word())), Operand::Shaped(Shape::BytesObject, FakeVal(a1.spec_word()))],
            TypedModCrypto::Bls12381G2Msm(a0, a1) => seq![Operand::Shaped(Shape::VecObject, FakeVal(a0.spec_word())), Operand::Shaped(Shape::VecObject, FakeVal(a1.spec_word()))],
            TypedModCrypto::Bls12381G2Mul(a0, a1) => seq![Operand::Shaped(Shape::BytesObject, FakeVal(a0.spec_word())), Operand::Shaped(Shape::U256Val, FakeVal(a1.spec_word()))],
            TypedModCrypto::Bls12381HashToG1(a0, a1) => seq![Operand::Shaped(Shape::BytesObject, FakeVal(a0.spec_word())), Operand::Shaped(Shape::BytesObject, FakeVal(a1.spec_word()))],
            TypedModCrypto::Bls12381HashToG2(a0, a1) => seq![Operand::Shaped(Shape::BytesObject, FakeVal(a0.spec_word())), Operand::Shaped(Shape::BytesObject, FakeVal(a1.spec_word()))],
            TypedModCrypto::Bls12381MapFp2ToG2(a0) => seq![Operand::Shaped(Shape::BytesObject, FakeVal(a0.spec_word()))],
            TypedModCrypto::Bls12381MapFpToG1(a0) => seq![Operand::Shaped(Shape::BytesObject, FakeVal(a0.spec_word()))],
            TypedModCrypto::Bls12381MultiPairingCheck(a0, a1) => seq![Operand::Shaped(Shape::VecObject, FakeVal(a0.spec_word())), Operand::Shaped(Shape::VecObject, FakeVal(a1.spec_word()))],
            TypedModCrypto::ComputeHashKeccak256(a0) => seq![Operand::Shaped(Shape::BytesObject, FakeVal(a0.spec_word()))],
            TypedModCrypto::ComputeHashSha256(a0) => seq![Operand::Shaped(Shape::BytesObject, FakeVal(a0.spec_word()))],
            TypedModCrypto::RecoverKeyEcdsaSecp256k1(a0, a1, a2) => seq![Operand::Shaped(Shape::BytesObject, FakeVal(a0.spec_word())), Operand::Shaped(Shape::BytesObject, FakeVal(a1.spec_word())), Operand::U32(a2)],
            TypedModCrypto::VerifySigEcdsaSecp256r1(a0, a1, a2) => seq![Operand::Shaped(Shape::BytesObject, FakeVal(a0.spec_word())), Operand::Shaped(Shape::BytesObject, FakeVal(a1.spec_word())), Operand::Shaped(Shape::BytesObject, FakeVal(a2.spec_word()))],
            TypedModCrypto::VerifySigEd25519(a0, a1, a2) => seq![Operand::Shaped(Shape::BytesObject, FakeVal(a0.spec_word())), Operand::Shaped(Shape::BytesObject, FakeVal(a1.spec_word())), Operand::Shaped(Shape::BytesObject, FakeVal(a2.spec_word()))],
        }
    }

    /// The instruction of this module that calls `f` with the operands
    /// `ops`, if `f` is in this module and `ops` fit its parameters.
    pub open spec fn spec_from_parts(f: HostFn, ops: Seq<Operand>) -> Option<TypedModCrypto> {
        if !(typed_conforms(f.params(), ops) && tags_agree(ops)) {
            None
        } else {
            match f {
                HostFn::Bls12381CheckG1IsInSubgroup => Some(TypedModCrypto::Bls12381CheckG1IsInSubgroup(BytesObj::spec_new(ops[0].word_part().0))),
                HostFn::Bls12381CheckG2IsInSubgroup => Some(TypedModCrypto::Bls12381CheckG2IsInSubgroup(BytesObj::spec_new(ops[0].word_part().0))),
                HostFn::Bls12381FrAdd => Some(TypedModCrypto::Bls12381FrAdd(U256Word::spec_new(ops[0].word_part().0), U256Word::spec_new(ops[1].word_part().0))),
                HostFn::Bls12381FrInv => Some(TypedModCrypto::Bls12381FrInv(U256Word::spec_new(ops[0].word_part().0))),
                HostFn::Bls12381FrMul => Some(TypedModCrypto::Bls12381FrMul(U256Word::spec_new(ops[0].word_part().0), U256Word::spec_new(ops[1].word_part().0))),
                HostFn::Bls12381FrPow => Some(TypedModCrypto::Bls12381FrPow(U256Word::spec_new(ops[0].word_part().0), U64Word::spec_new(ops[1].word_part().0))),
                HostFn::Bls12381FrSub => Some(TypedModCrypto::Bls12381FrSub(U256Word::spec_new(ops[0].word_part().0), U256Word::spec_new(ops[1].word_part().0))),
                HostFn::Bls12381G1Add => Some(TypedModCrypto::Bls12381G1Add(BytesObj::spec_new(ops[0].word_part().0), BytesObj::spec_new(ops[1].word_part().0))),
                HostFn::Bls12381G1Msm => Some(TypedModCrypto::Bls12381G1Msm(VecObj::spec_new(ops[0].word_part().0), VecObj::spec_new(ops[1].word_part().0))),
                HostFn::Bls12381G1Mul => Some(TypedModCrypto::Bls12381G1Mul(BytesObj::spec_new(ops[0].word_part().0), U256Word::spec_new(ops[1].word_part().0))),
                HostFn::Bls12381G2Add => Some(TypedModCrypto::Bls12381G2Add(BytesObj::spec_new(ops[0].word_part().0), BytesObj::spec_new(ops[1].word_part().0))),
                HostFn::Bls12381G2Msm => Some(TypedModCrypto::Bls12381G2Msm(VecObj::spec_new(ops[0].word_part().0), VecObj::spec_new(ops[1].word_part().0))),
                HostFn::Bls12381G2Mul => Some(TypedModCrypto::Bls12381G2Mul(BytesObj::spec_new(ops[0].word_part().0), U256Word::spec_new(ops[1].word_part().0))),
                HostFn::Bls12381HashToG1 => Some(TypedModCrypto::Bls12381HashToG1(BytesObj::spec_new(ops[0].word_part().0), BytesObj::spec_new(ops[1].word_part().0))),
                HostFn::Bls12381HashToG2 => Some(TypedModCrypto::Bls12381HashToG2(BytesObj::spec_new(ops[0].word_part().0), BytesObj::spec_new(ops[1].word_part().0))),
                HostFn::Bls12381MapFp2ToG2 => Some(TypedModCrypto::Bls12381MapFp2ToG2(BytesObj::spec_new(ops[0].word_part().0))),
                HostFn::Bls12381MapFpToG1 => Some(TypedModCrypto::Bls12381MapFpToG1(BytesObj::spec_new(ops[0].word_part().0))),
                HostFn::Bls12381MultiPairingCheck => Some(TypedModCrypto::Bls12381MultiPairingCheck(VecObj::spec_new(ops[0].word_part().0), VecObj::spec_new(ops[1].word_part().0))),
                HostFn::ComputeHashKeccak256 => Some(TypedModCrypto::ComputeHashKeccak256(BytesObj::spec_new(ops[0].word_part().0))),
                HostFn::ComputeHashSha256 => Some(TypedModCrypto::ComputeHashSha256(BytesObj::spec_new(ops[0].word_part().0))),
                HostFn::RecoverKeyEcdsaSecp256k1 => Some(TypedModCrypto::RecoverKeyEcdsaSecp256k1(BytesObj::spec_new(ops[0].word_part().0), BytesObj::spec_new(ops[1].word_part().0), ops[2].u32_part())),
                HostFn::VerifySigEcdsaSecp256r1 => Some(TypedModCrypto::VerifySigEcdsaSecp256r1(BytesObj::spec_new(ops[0].word_part().0), BytesObj::spec_new(ops[1].word_part().0), BytesObj::spec_new(ops[2].word_part().0))),
                HostFn::VerifySigEd25519 => Some(TypedModCrypto::VerifySigEd25519(BytesObj::spec_new(ops[0].word_part().0), BytesObj::spec_new(ops[1].word_part().0), BytesObj::spec_new(ops[2].word_part().0))),
                _ => None,
            }
        }
    }

    /// The host function the instruction calls.
    pub fn host_fn(&self) -> (r: HostFn)
        ensures
            r == self.opcode(),
    {
        match self {
            TypedModCrypto::Bls12381CheckG1IsInSubgroup(..) => HostFn::Bls12381CheckG1IsInSubgroup,
            TypedModCrypto::Bls12381CheckG2IsInSubgroup(..) => HostFn::Bls12381CheckG2IsInSubgroup,
            TypedModCrypto::Bls12381FrAdd(..) => HostFn::Bls12381FrAdd,
            TypedModCrypto::Bls12381FrInv(..) => HostFn::Bls12381FrInv,
            TypedModCrypto::Bls12381FrMul(..) => HostFn::Bls12381FrMul,
            TypedModCrypto::Bls12381FrPow(..) => HostFn::Bls12381FrPow,
            TypedModCrypto::Bls12381FrSub(..) => HostFn::Bls12381FrSub,
            TypedModCrypto::Bls12381G1Add(..) => HostFn::Bls12381G1Add,
            TypedModCrypto::Bls12381G1Msm(..) => HostFn::Bls12381G1Msm,
            TypedModCrypto::Bls12381G1Mul(..) => HostFn::Bls12381G1Mul,
            TypedModCrypto::Bls12381G2Add(..) => HostFn::Bls12381G2Add,
            TypedModCrypto::Bls12381G2Msm(..) => HostFn::Bls12381G2Msm,
            TypedModCrypto::Bls12381G2Mul(..) => HostFn::Bls12381G2Mul,
            TypedModCrypto::Bls12381HashToG1(..) => HostFn::Bls12381HashToG1,
            TypedModCrypto::Bls12381HashToG2(..) => HostFn::Bls12381HashToG2,
            TypedModCrypto::Bls12381MapFp2ToG2(..) => HostFn::Bls12381MapFp2ToG2,
            TypedModCrypto::Bls12381MapFpToG1(..) => HostFn::Bls12381MapFpToG1,
            TypedModCrypto::Bls12381MultiPairingCheck(..) => HostFn::Bls12381MultiPairingCheck,
            TypedModCrypto::ComputeHashKeccak256(..) => HostFn::ComputeHashKeccak256,
            TypedModCrypto::ComputeHashSha256(..) => HostFn::ComputeHashSha256,
            TypedModCrypto::RecoverKeyEcdsaSecp256k1(..) => HostFn::RecoverKeyEcdsaSecp256k1,
            TypedModCrypto::VerifySigEcdsaSecp256r1(..) => HostFn::VerifySigEcdsaSecp256r1,
            TypedModCrypto::VerifySigEd25519(..) => HostFn::VerifySigEd25519,
        }
    }

    /// The instruction's operands, in slot order.
    pub fn operand_list(&self) -> (r: Vec<Operand>)
        ensures
            r@ == self.operands(),
            tags_agree(r@),
    {
        let r = match self {
            TypedModCrypto::Bls12381CheckG1IsInSubgroup(a0) => vec![Operand::Shaped(Shape::BytesObject, a0.word())],
            TypedModCrypto::Bls12381CheckG2IsInSubgroup(a0) => vec![Operand::Shaped(Shape::BytesObject, a0.word())],
            TypedModCrypto::Bls12381FrAdd(a0, a1) => vec![Operand::Shaped(Shape::U256Val, a0.word()), Operand::Shaped(Shape::U256Val, a1.word())],
            TypedModCrypto::Bls12381FrInv(a0) => vec![Operand::Shaped(Shape::U256Val, a0.word())],
            TypedModCrypto::Bls12381FrMul(a0, a1) => vec![Operand::Shaped(Shape::U256Val, a0.word()), Operand::Shaped(Shape::U256Val, a1.word())],
            TypedModCrypto::Bls12381FrPow(a0, a1) => vec![Operand::Shaped(Shape::U256Val, a0.word()), Operand::Shaped(Shape::U64Val, a1.word())],
            TypedModCrypto::Bls12381FrSub(a0, a1) => vec![Operand::Shaped(Shape::U256Val, a0.word()), Operand::Shaped(Shape::U256Val, a1.word())],
            TypedModCrypto::Bls12381G1Add(a0, a1) => vec![Operand::Shaped(Shape::BytesObject, a0.word()), Operand::Shaped(Shape::BytesObject, a1.word())],
            TypedModCrypto::Bls12381G1Msm(a0, a1) => vec![Operand::Shaped(Shape::VecObject, a0.word()), Operand::Shaped(Shape::VecObject, a1.word())],
            TypedModCrypto::Bls12381G1Mul(a0, a1) => vec![Operand::Shaped(Shape::BytesObject, a0.word()), Operand::Shaped(Shape::U256Val, a1.word())],
            TypedModCrypto::Bls12381G2Add(a0, a1) => vec![Operand::Shaped(Shape::BytesObject, a0.word()), Operand::Shaped(Shape::BytesObject, a1.word())],
            TypedModCrypto::Bls12381G2Msm(a0, a1) => vec![Operand::Shaped(Shape::VecObject, a0.word()), Operand::Shaped(Shape::VecObject, a1.word())],
            TypedModCrypto::Bls12381G2Mul(a0, a1) => vec![Operand::Shaped(Shape::BytesObject, a0.word()), Operand::Shaped(Shape::U256Val, a1.word())],
            TypedModCrypto::Bls12381HashToG1(a0, a1) => vec![Operand::Shaped(Shape::BytesObject, a0.word()), Operand::Shaped(Shape::BytesObject, a1.word())],
            TypedModCrypto::Bls12381HashToG2(a0, a1) => vec![Operand::Shaped(Shape::BytesObject, a0.word()), Operand::Shaped(Shape::BytesObject, a1.word())],
            TypedModCrypto::Bls12381MapFp2ToG2(a0) => vec![Operand::Shaped(Shape::BytesObject, a0.word())],
            TypedModCrypto::Bls12381MapFpToG1(a0) => vec![Operand::Shaped(Shape::BytesObject, a0.word())],
            TypedModCrypto::Bls12381MultiPairingCheck(a0, a1) => vec![Operand::Shaped(Shape::VecObject, a0.word()), Operand::Shaped(Shape::VecObject, a1.word())],
            TypedModCrypto::ComputeHashKeccak256(a0) => vec![Operand::Shaped(Shape::BytesObject, a0.word())],
            TypedModCrypto::ComputeHashSha256(a0) => vec![Operand::Shaped(Shape::BytesObject, a0.word())],
            TypedModCrypto::RecoverKeyEcdsaSecp256k1(a0, a1, a2) => vec![Operand::Shaped(Shape::BytesObject, a0.word()), Operand::Shaped(Shape::BytesObject, a1.word()), Operand::U32(*a2)],
            TypedModCrypto::VerifySigEcdsaSecp256r1(a0, a1, a2) => vec![Operand::Shaped(Shape::BytesObject, a0.word()), Operand::Shaped(Shape::BytesObject, a1.word()), Operand::Shaped(Shape::BytesObject, a2.word())],
            TypedModCrypto::VerifySigEd25519(a0, a1, a2) => vec![Operand::Shaped(Shape::BytesObject, a0.word()), Operand::Shaped(Shape::BytesObject, a1.word()), Operand::Shaped(Shape::BytesObject, a2.word())],
        };
        assert(r@ =~= self.operands());
        r
    }

    /// The instruction of this module that calls `f` with the operands
    /// `ops`, if `f` is in this module and `ops` fit its parameters.
    pub fn from_parts(f: HostFn, ops: &Vec<Operand>) -> (r: Option<TypedModCrypto>)
        ensures
            r == Self::spec_from_parts(f, ops@),
    {
        if !conforms_typed(&f.param_list(), ops) {
            return None;
        }
        match f {
            HostFn::Bls12381CheckG1IsInSubgroup => {
                assert(ops@[0].tag_agrees() && ops@[0].typed_fits(f.params()[0]));
                Some(TypedModCrypto::Bls12381CheckG1IsInSubgroup(BytesObj::checked(ops[0].get_word()).unwrap()))
            },
            HostFn::Bls12381CheckG2IsInSubgroup => {
                assert(ops@[0].tag_agrees() && ops@[0].typed_fits(f.params()[0]));
                Some(TypedModCrypto::Bls12381CheckG2IsInSubgroup(BytesObj::checked(ops[0].get_word()).unwrap()))
            },
            HostFn::Bls12381FrAdd => {
                assert(ops@[0].tag_agrees() && ops@[0].typed_fits(f.params()[0]));
                assert(ops@[1].tag_agrees() && ops@[1].typed_fits(f.params()[1]));
                Some(TypedModCrypto::Bls12381FrAdd(U256Word::checked(ops[0].get_word()).unwrap(), U256Word::checked(ops[1].get_word()).unwrap()))
            },
            HostFn::Bls12381FrInv => {
                assert(ops@[0].tag_agrees() && ops@[0].typed_fits(f.params()[0]));
                Some(TypedModCrypto::Bls12381FrInv(U256Word::checked(ops[0].get_word()).unwrap()))
            },
            HostFn::Bls12381FrMul => {
                assert(ops@[0].tag_agrees() && ops@[0].typed_fits(f.params()[0]));
                assert(ops@[1].tag_agrees() && ops@[1].typed_fits(f.params()[1]));
                Some(TypedModCrypto::Bls12381FrMul(U256Word::checked(ops[0].get_word()).unwrap(), U256Word::checked(ops[1].get_word()).unwrap()))
            },
            HostFn::Bls12381FrPow => {
                assert(ops@[0].tag_agrees() && ops@[0].typed_fits(f.params()[0]));
                assert(ops@[1].tag_agrees() && ops@[1].typed_fits(f.params()[1]));
                Some(TypedModCrypto::Bls12381FrPow(U256Word::checked(ops[0].get_word()).unwrap(), U64Word::checked(ops[1].get_word()).unwrap()))
            },
            HostFn::Bls12381FrSub => {
                assert(ops@[0].tag_agrees() && ops@[0].typed_fits(f.params()[0]));
                assert(ops@[1].tag_agrees() && ops@[1].typed_fits(f.params()[1]));
                Some(TypedModCrypto::Bls12381FrSub(U256Word::checked(ops[0].get_word()).unwrap(), U256Word::checked(ops[1].get_word()).unwrap()))
            },
            HostFn::Bls12381G1Add => {
                assert(ops@[0].tag_agrees() && ops@[0].typed_fits(f.params()[0]));
                assert(ops@[1].tag_agrees() && ops@[1].typed_fits(f.params()[1]));
                Some(TypedModCrypto::Bls12381G1Add(BytesObj::checked(ops[0].get_word()).unwrap(), BytesObj::checked(ops[1].get_word()).unwrap()))
            },
            HostFn::Bls12381G1Msm => {
                assert(ops@[0].tag_agrees() && ops@[0].typed_fits(f.params()[0]));
                assert(ops@[1].tag_agrees() && ops@[1].typed_fits(f.params()[1]));
                Some(TypedModCrypto::Bls12381G1Msm(VecObj::checked(ops[0].get_word()).unwrap(), VecObj::checked(ops[1].get_word()).unwrap()))
            },
            HostFn::Bls12381G1Mul => {
                assert(ops@[0].tag_agrees() && ops@[0].typed_fits(f.params()[0]));
                assert(ops@[1].tag_agrees() && ops@[1].typed_fits(f.params()[1]));
                Some(TypedModCrypto::Bls12381G1Mul(BytesObj::checked(ops[0].get_word()).unwrap(), U256Word::checked(ops[1].get_word()).unwrap()))
            },
            HostFn::Bls12381G2Add => {
                assert(ops@[0].tag_agrees() && ops@[0].typed_fits(f.params()[0]));
                assert(ops@[1].tag_agrees() && ops@[1].typed_fits(f.params()[1]));
                Some(TypedModCrypto::Bls12381G2Add(BytesObj::checked(ops[0].get_word()).unwrap(), BytesObj::checked(ops[1].get_word()).unwrap()))
            },
            HostFn::Bls12381G2Msm => {
                assert(ops@[0].tag_agrees() && ops@[0].typed_fits(f.params()[0]));
                assert(ops@[1].tag_agrees() && ops@[1].typed_fits(f.params()[1]));
                Some(TypedModCrypto::Bls12381G2Msm(VecObj::checked(ops[0].get_word()).unwrap(), VecObj::checked(ops[1].get_word()).unwrap()))
            },
            HostFn::Bls12381G2Mul => {
                assert(ops@[0].tag_agrees() && ops@[0].typed_fits(f.params()[0]));
                assert(ops@[1].tag_agrees() && ops@[1].typed_fits(f.params()[1]));
                Some(TypedModCrypto::Bls12381G2Mul(BytesObj::checked(ops[0].get_word()).unwrap(), U256Word::checked(ops[1].get_word()).unwrap()))
            },
            HostFn::Bls12381HashToG1 => {
                assert(ops@[0].tag_agrees() && ops@[0].typed_fits(f.params()[0]));
                assert(ops@[1].tag_agrees() && ops@[1].typed_fits(f.params()[1]));
                Some(TypedModCrypto::Bls12381HashToG1(BytesObj::checked(ops[0].get_word()).unwrap(), BytesObj::checked(ops[1].get_word()).unwrap()))
            },
            HostFn::Bls12381HashToG2 => {
                assert(ops@[0].tag_agrees() && ops@[0].typed_fits(f.params()[0]));
                assert(ops@[1].tag_agrees() && ops@[1].typed_fits(f.params()[1]));
                Some(TypedModCrypto::Bls12381HashToG2(BytesObj::checked(ops[0].get_word()).unwrap(), BytesObj::checked(ops[1].get_word()).unwrap()))
            },
            HostFn::Bls12381MapFp2ToG2 => {
                assert(ops@[0].tag_agrees() && ops@[0].typed_fits(f.params()[0]));
                Some(TypedModCrypto::Bls12381MapFp2ToG2(BytesObj::checked(ops[0].get_word()).unwrap()))
            },
            HostFn::Bls12381MapFpToG1 => {
                assert(ops@[0].tag_agrees() && ops@[0].typed_fits(f.params()[0]));
                Some(TypedModCrypto::Bls12381MapFpToG1(BytesObj::checked(ops[0].get_word()).unwrap()))
            },
            HostFn::Bls12381MultiPairingCheck => {
                assert(ops@[0].tag_agrees() && ops@[0].typed_fits(f.params()[0]));
                assert(ops@[1].tag_agrees() && ops@[1].typed_fits(f.params()[1]));
                Some(TypedModCrypto::Bls12381MultiPairingCheck(VecObj::checked(ops[0].get_word()).unwrap(), VecObj::checked(ops[1].get_word()).unwrap()))
            },
            HostFn::ComputeHashKeccak256 => {
                assert(ops@[0].tag_agrees() && ops@[0].typed_fits(f.params()[0]));
                Some(TypedModCrypto::ComputeHashKeccak256(BytesObj::checked(ops[0].get_word()).unwrap()))
            },
            HostFn::ComputeHashSha256 => {
                assert(ops@[0].tag_agrees() && ops@[0].typed_fits(f.params()[0]));
                Some(TypedModCrypto::ComputeHashSha256(BytesObj::checked(ops[0].get_word()).unwrap()))
            },
            HostFn::RecoverKeyEcdsaSecp256k1 => {
                assert(ops@[0].tag_agrees() && ops@[0].typed_fits(f.params()[0]));
                assert(ops@[1].tag_agrees() && ops@[1].typed_fits(f.params()[1]));
                Some(TypedModCrypto::RecoverKeyEcdsaSecp256k1(BytesObj::checked(ops[0].get_word()).unwrap(), BytesObj::checked(ops[1].get_word()).unwrap(), ops[2].get_u32()))
            },
            HostFn::VerifySigEcdsaSecp256r1 => {
                assert(ops@[0].tag_agrees() && ops@[0].typed_fits(f.params()[0]));
                assert(ops@[1].tag_agrees() && ops@[1].typed_fits(f.params()[1]));
                assert(ops@[2].tag_agrees() && ops@[2].typed_fits(f.params()[2]));
                Some(TypedModCrypto::VerifySigEcdsaSecp256r1(BytesObj::checked(ops[0].get_word()).unwrap(), BytesObj::checked(ops[1].get_word()).unwrap(), BytesObj::checked(ops[2].get_word()).unwrap()))
            },
            HostFn::VerifySigEd25519 => {
                assert(ops@[0].tag_agrees() && ops@[0].typed_fits(f.params()[0]));
                assert(ops@[1].tag_agrees() && ops@[1].typed_fits(f.params()[1]));
                assert(ops@[2].tag_agrees() && ops@[2].typed_fits(f.params()[2]));
                Some(TypedModCrypto::VerifySigEd25519(BytesObj::checked(ops[0].get_word()).unwrap(), BytesObj::checked(ops[1].get_word()).unwrap(), BytesObj::checked(ops[2].get_word()).unwrap()))
            },
            _ => None,
        }
    }
}

proof fn lemma_crypto_inverse(m: TypedModCrypto)
    requires
        tags_agree(m.operands()),
    ensures
        m.opcode().module() == Module::Crypto,
        typed_conforms(m.opcode().params(), m.operands()),
        TypedModCrypto::spec_from_parts(m.opcode(), m.operands()) == Some(m),
{
}

proof fn lemma_crypto_realizes(f: HostFn, ops: Seq<Operand>)
    requires
        f.module() == Module::Crypto,
        typed_conforms(f.params(), ops),
        tags_agree(ops),
    ensures
        TypedModCrypto::spec_from_parts(f, ops) matches Some(m) && m.opcode() == f && m.operands() == ops,
{
    if ops.len() > 0 {
        assert(ops[0].typed_fits(f.params()[0]));
        assert(ops[0].tag_agrees());
    }
    if ops.len() > 1 {
        assert(ops[1].typed_fits(f.params()[1]));
        assert(ops[1].tag_agrees());
    }
    if ops.len() > 2 {
        assert(ops[2].typed_fits(f.params()[2]));
        assert(ops[2].tag_agrees());
    }
    assert(TypedModCrypto::spec_from_parts(f, ops).unwrap().operands() =~= ops);
}

/// The typed tier's instructions of the `int` module: one per host function.
#[derive(Clone, Copy, Debug, PartialEq, Eq)]
pub enum TypedModInt {
    DurationObjFromU64(u64),
    DurationObjToU64(DurationObj),
    I256Add(I256Word, I256Word),
    I256Div(I256Word, I256Word),
    I256Mul(I256Word, I256Word),
    I256Pow(I256Word, u32),
    I256RemEuclid(I256Word, I256Word),
    I256Shl(I256Word, u32),
    I256Shr(I256Word, u32),
    I256Sub(I256Word, I256Word),
    I256ValFromBeBytes(BytesObj),
    I256ValToBeBytes(I256Word),
    ObjFromI128Pieces(i64, u64),
    ObjFromI256Pieces(i64, u64, u64, u64),
    ObjFromI64(i64),
    ObjFromU128Pieces(u64, u64),
    ObjFromU256Pieces(u64, u64, u64, u64),
    ObjFromU64(u64),
    ObjToI128Hi64(I128Obj),
    ObjToI128Lo64(I128Obj),
    ObjToI256HiHi(I256Obj),
    ObjToI256HiLo(I256Obj),
    ObjToI256LoHi(I256Obj),
    ObjToI256LoLo(I256Obj),
    ObjToI64(I64Obj),
    ObjToU128Hi64(U128Obj),
    ObjToU128Lo64(U128Obj),
    ObjToU256HiHi(U256Obj),
    ObjToU256HiLo(U256Obj),
    ObjToU256LoHi(U256Obj),
    ObjToU256LoLo(U256Obj),
    ObjToU64(U64Obj),
    TimepointObjFromU64(u64),
    TimepointObjToU64(TimepointObj),
    U256Add(U256Word, U256Word),
    U256Div(U256Word, U256Word),
    U256Mul(U256Word, U256Word),
    U256Pow(U256Word, u32),
    U256RemEuclid(U256Word, U256Word),
    U256Shl(U256Word, u32),
    U256Shr(U256Word, u32),
    U256Sub(U256Word, U256Word),
    U256ValFromBeBytes(BytesObj),
    U256ValToBeBytes(U256Word),
}

impl TypedModInt {
    /// The host function the instruction calls.
    pub open spec fn opcode(self) -> HostFn {
        match self {
            TypedModInt::DurationObjFromU64(..) => HostFn::DurationObjFromU64,
            TypedModInt::DurationObjToU64(..) => HostFn::DurationObjToU64,
            TypedModInt::I256Add(..) => HostFn::I256Add,
            TypedModInt::I256Div(..) => HostFn::I256Div,
            TypedModInt::I256Mul(..) => HostFn::I256Mul,
            TypedModInt::I256Pow(..) => HostFn::I256Pow,
            TypedModInt::I256RemEuclid(..) => HostFn::I256RemEuclid,
            TypedModInt::I256Shl(..) => HostFn::I256Shl,
            TypedModInt::I256Shr(..) => HostFn::I256Shr,
            TypedModInt::I256Sub(..) => HostFn::I256Sub,
            TypedModInt::I256ValFromBeBytes(..) => HostFn::I256ValFromBeBytes,
            TypedModInt::I256ValToBeBytes(..) => HostFn::I256ValToBeBytes,
            TypedModInt::ObjFromI128Pieces(..) => HostFn::ObjFromI128Pieces,
            TypedModInt::ObjFromI256Pieces(..) => HostFn::ObjFromI256Pieces,
            TypedModInt::ObjFromI64(..) => HostFn::ObjFromI64,
            TypedModInt::ObjFromU128Pieces(..) => HostFn::ObjFromU128Pieces,
            TypedModInt::ObjFromU256Pieces(..) => HostFn::ObjFromU256Pieces,
            TypedModInt::ObjFromU64(..) => HostFn::ObjFromU64,
            TypedModInt::ObjToI128Hi64(..) => HostFn::ObjToI128Hi64,
            TypedModInt::ObjToI128Lo64(..) => HostFn::ObjToI128Lo64,
            TypedModInt::ObjToI256HiHi(..) => HostFn::ObjToI256HiHi,
            TypedModInt::ObjToI256HiLo(..) => HostFn::ObjToI256HiLo,
            TypedModInt::ObjToI256LoHi(..) => HostFn::ObjToI256LoHi,
            TypedModInt::ObjToI256LoLo(..) => HostFn::ObjToI256LoLo,
            TypedModInt::ObjToI64(..) => HostFn::ObjToI64,
            TypedModInt::ObjToU128Hi64(..) => HostFn::ObjToU128Hi64,
            TypedModInt::ObjToU128Lo64(..) => HostFn::ObjToU128Lo64,
            TypedModInt::ObjToU256HiHi(..) => HostFn::ObjToU256HiHi,
            TypedModInt::ObjToU256HiLo(..) => HostFn::ObjToU256HiLo,
            TypedModInt::ObjToU256LoHi(..) => HostFn::ObjToU256LoHi,
            TypedModInt::ObjToU256LoLo(..) => HostFn::ObjToU256LoLo,
            TypedModInt::ObjToU64(..) => HostFn::ObjToU64,
            TypedModInt::TimepointObjFromU64(..) => HostFn::TimepointObjFromU64,
            TypedModInt::TimepointObjToU64(..) => HostFn::TimepointObjToU64,
            TypedModInt::U256Add(..) => HostFn::U256Add,
            TypedModInt::U256Div(..) => HostFn::U256Div,
            TypedModInt::U256Mul(..) => HostFn::U256Mul,
            TypedModInt::U256Pow(..) => HostFn::U256Pow,
            TypedModInt::U256RemEuclid(..) => HostFn::U256RemEuclid,
            TypedModInt::U256Shl(..) => HostFn::U256Shl,
            TypedModInt::U256Shr(..) => HostFn::U256Shr,
            TypedModInt::U256Sub(..) => HostFn::U256Sub,
            TypedModInt::U256ValFromBeBytes(..) => HostFn::U256ValFromBeBytes,
            TypedModInt::U256ValToBeBytes(..) => HostFn::U256ValToBeBytes,
        }
    }

    /// The instruction's operands, in slot order.
    pub open spec fn operands(self) -> Seq<Operand> {
        match self {
            TypedModInt::DurationObjFromU64(a0) => seq![Operand::U64(a0)],
            TypedModInt::DurationObjToU64(a0) => seq![Operand::Shaped(Shape::DurationObject, FakeVal(a0.spec_word()))],
            TypedModInt::I256Add(a0, a1) => seq![Operand::Shaped(Shape::I256Val, FakeVal(a0.spec_word())), Operand::Shaped(Shape::I256Val, FakeVal(a1.spec_word()))],
            TypedModInt::I256Div(a0, a1) => seq![Operand::Shaped(Shape::I256Val, FakeVal(a0.spec_word())), Operand::Shaped(Shape::I256Val, FakeVal(a1.spec_word()))],
            TypedModInt::I256Mul(a0, a1) => seq![Operand::Shaped(Shape::I256Val, FakeVal(a0.spec_word())), Operand::Shaped(Shape::I256Val, FakeVal(a1.spec_word()))],
            TypedModInt::I256Pow(a0, a1) => seq![Operand::Shaped(Shape::I256Val, FakeVal(a0.spec_word())), Operand::U32(a1)],
            TypedModInt::I256RemEuclid(a0, a1) => seq![Operand::Shaped(Shape::I256Val, FakeVal(a0.spec_word())), Operand::Shaped(Shape::I256Val, FakeVal(a1.spec_word()))],
            TypedModInt::I256Shl(a0, a1) => seq![Operand::Shaped(Shape::I256Val, FakeVal(a0.spec_word())), Operand::U32(a1)],
            TypedModInt::I256Shr(a0, a1) => seq![Operand::Shaped(Shape::I256Val, FakeVal(a0.spec_word())), Operand::U32(a1)],
            TypedModInt::I256Sub(a0, a1) => seq![Operand::Shaped(Shape::I256Val, FakeVal(a0.spec_word())), Operand::Shaped(Shape::I256Val, FakeVal(a1.spec_word()))],
            TypedModInt::I256ValFromBeBytes(a0) => seq![Operand::Shaped(Shape::BytesObject, FakeVal(a0.spec_word()))],
            TypedModInt::I256ValToBeBytes(a0) => seq![Operand::Shaped(Shape::I256Val, FakeVal(a0.spec_word()))],
            TypedModInt::ObjFromI128Pieces(a0, a1) => seq![Operand::I64(a0), Operand::U64(a1)],
            TypedModInt::ObjFromI256Pieces(a0, a1, a2, a3) => seq![Operand::I64(a0), Operand::U64(a1), Operand::U64(a2), Operand::U64(a3)],
            TypedModInt::ObjFromI64(a0) => seq![Operand::I64(a0)],
            TypedModInt::ObjFromU128Pieces(a0, a1) => seq![Operand::U64(a0), Operand::U64(a1)],
            TypedModInt::ObjFromU256Pieces(a0, a1, a2, a3) => seq![Operand::U64(a0), Operand::U64(a1), Operand::U64(a2), Operand::U64(a3)],
            TypedModInt::ObjFromU64(a0) => seq![Operand::U64(a0)],
            TypedModInt::ObjToI128Hi64(a0) => seq![Operand::Shaped(Shape::I128Object, FakeVal(a0.spec_word()))],
            TypedModInt::ObjToI128Lo64(a0) => seq![Operand::Shaped(Shape::I128Object, FakeVal(a0.spec_word()))],
            TypedModInt::ObjToI256HiHi(a0) => seq![Operand::Shaped(Shape::I256Object, FakeVal(a0.spec_word()))],
            TypedModInt::ObjToI256HiLo(a0) => seq![Operand::Shaped(Shape::I256Object, FakeVal(a0.spec_word()))],
            TypedModInt::ObjToI256LoHi(a0) => seq![Operand::Shaped(Shape::I256Object, FakeVal(a0.spec_word()))],
            TypedModInt::ObjToI256LoLo(a0) => seq![Operand::Shaped(Shape::I256Object, FakeVal(a0.spec_word()))],
            TypedModInt::ObjToI64(a0) => seq![Operand::Shaped(Shape::I64Object, FakeVal(a0.spec_word()))],
            TypedModInt::ObjToU128Hi64(a0) => seq![Operand::Shaped(Shape::U128Object, FakeVal(a0.spec_word()))],
            TypedModInt::ObjToU128Lo64(a0) => seq![Operand::Shaped(Shape::U128Object, FakeVal(a0.spec_word()))],
            TypedModInt::ObjToU256HiHi(a0) => seq![Operand::Shaped(Shape::U256Object, FakeVal(a0.spec_word()))],
            TypedModInt::ObjToU256HiLo(a0) => seq![Operand::Shaped(Shape::U256Object, FakeVal(a0.spec_word()))],
            TypedModInt::ObjToU256LoHi(a0) => seq![Operand::Shaped(Shape::U256Object, FakeVal(a0.spec_word()))],
            TypedModInt::ObjToU256LoLo(a0) => seq![Operand::Shaped(Shape::U256Object, FakeVal(a0.spec_word()))],
            TypedModInt::ObjToU64(a0) => seq![Operand::Shaped(Shape::U64Object, FakeVal(a0.spec_word()))],
            TypedModInt::TimepointObjFromU64(a0) => seq![Operand::U64(a0)],
            TypedModInt::TimepointObjToU64(a0) => seq![Operand::Shaped(Shape::TimepointObject, FakeVal(a0.spec_word()))],
            TypedModInt::U256Add(a0, a1) => seq![Operand::Shaped(Shape::U256Val, FakeVal(a0.spec_word())), Operand::Shaped(Shape::U256Val, FakeVal(a1.spec_word()))],
            TypedModInt::U256Div(a0, a1) => seq![Operand::Shaped(Shape::U256Val, FakeVal(a0.spec_word())), Operand::Shaped(Shape::U256Val, FakeVal(a1.spec_word()))],
            TypedModInt::U256Mul(a0, a1) => seq![Operand::Shaped(Shape::U256Val, FakeVal(a0.spec_word())), Operand::Shaped(Shape::U256Val, FakeVal(a1.spec_word()))],
            TypedModInt::U256Pow(a0, a1) => seq![Operand::Shaped(Shape::U256Val, FakeVal(a0.spec_word())), Operand::U32(a1)],
            TypedModInt::U256RemEuclid(a0, a1) => seq![Operand::Shaped(Shape::U256Val, FakeVal(a0.spec_word())), Operand::Shaped(Shape::U256Val, FakeVal(a1.spec_word()))],
            TypedModInt::U256Shl(a0, a1) => seq![Operand::Shaped(Shape::U256Val, FakeVal(a0.spec_word())), Operand::U32(a1)],
            TypedModInt::U256Shr(a0, a1) => seq![Operand::Shaped(Shape::U256Val, FakeVal(a0.spec_word())), Operand::U32(a1)],
            TypedModInt::U256Sub(a0, a1) => seq![Operand::Shaped(Shape::U256Val, FakeVal(a0.spec_word())), Operand::Shaped(Shape::U256Val, FakeVal(a1.spec_word()))],
            TypedModInt::U256ValFromBeBytes(a0) => seq![Operand::Shaped(Shape::BytesObject, FakeVal(a0.spec_word()))],
            TypedModInt::U256ValToBeBytes(a0) => seq![Operand::Shaped(Shape::U256Val, FakeVal(a0.spec_word()))],
        }
    }

    /// The instruction of this module that calls `f` with the operands
    /// `ops`, if `f` is in this module and `ops` fit its parameters.
    pub open spec fn spec_from_parts(f: HostFn, ops: Seq<Operand>) -> Option<TypedModInt> {
        if !(typed_conforms(f.params(), ops) && tags_agree(ops)) {
            None
        } else {
            match f {
                HostFn::DurationObjFromU64 => Some(TypedModInt::DurationObjFromU64(ops[0].u64_part())),
                HostFn::DurationObjToU64 => Some(TypedModInt::DurationObjToU64(DurationObj::spec_new(ops[0].word_part().0))),
                HostFn::I256Add => Some(TypedModInt::I256Add(I256Word::spec_new(ops[0].word_part().0), I256Word::spec_new(ops[1].word_part().0))),
                HostFn::I256Div => Some(TypedModInt::I256Div(I256Word::spec_new(ops[0].word_part().0), I256Word::spec_new(ops[1].word_part().0))),
                HostFn::I256Mul => Some(TypedModInt::I256Mul(I256Word::spec_new(ops[0].word_part().0), I256Word::spec_new(ops[1].word_part().0))),
                HostFn::I256Pow => Some(TypedModInt::I256Pow(I256Word::spec_new(ops[0].word_part().0), ops[1].u32_part())),
                HostFn::I256RemEuclid => Some(TypedModInt::I256RemEuclid(I256Word::spec_new(ops[0].word_part().0), I256Word::spec_new(ops[1].word_part().0))),
                HostFn::I256Shl => Some(TypedModInt::I256Shl(I256Word::spec_new(ops[0].word_part().0), ops[1].u32_part())),
                HostFn::I256Shr => Some(TypedModInt::I256Shr(I256Word::spec_new(ops[0].word_part().0), ops[1].u32_part())),
                HostFn::I256Sub => Some(TypedModInt::I256Sub(I256Word::spec_new(ops[0].word_part().0), I256Word::spec_new(ops[1].word_part().0))),
                HostFn::I256ValFromBeBytes => Some(TypedModInt::I256ValFromBeBytes(BytesObj::spec_new(ops[0].word_part().0))),
                HostFn::I256ValToBeBytes => Some(TypedModInt::I256ValToBeBytes(I256Word::spec_new(ops[0].word_part().0))),
                HostFn::ObjFromI128Pieces => Some(TypedModInt::ObjFromI128Pieces(ops[0].i64_part(), ops[1].u64_part())),
                HostFn::ObjFromI256Pieces => Some(TypedModInt::ObjFromI256Pieces(ops[0].i64_part(), ops[1].u64_part(), ops[2].u64_part(), ops[3].u64_part())),
                HostFn::ObjFromI64 => Some(TypedModInt::ObjFromI64(ops[0].i64_part())),
                HostFn::ObjFromU128Pieces => Some(TypedModInt::ObjFromU128Pieces(ops[0].u64_part(), ops[1].u64_part())),
                HostFn::ObjFromU256Pieces => Some(TypedModInt::ObjFromU256Pieces(ops[0].u64_part(), ops[1].u64_part(), ops[2].u64_part(), ops[3].u64_part())),
                HostFn::ObjFromU64 => Some(TypedModInt::ObjFromU64(ops[0].u64_part())),
                HostFn::ObjToI128Hi64 => Some(TypedModInt::ObjToI128Hi64(I128Obj::spec_new(ops[0].word_part().0))),
                HostFn::ObjToI128Lo64 => Some(TypedModInt::ObjToI128Lo64(I128Obj::spec_new(ops[0].word_part().0))),
                HostFn::ObjToI256HiHi => Some(TypedModInt::ObjToI256HiHi(I256Obj::spec_new(ops[0].word_part().0))),
                HostFn::ObjToI256HiLo => Some(TypedModInt::ObjToI256HiLo(I256Obj::spec_new(ops[0].word_part().0))),
                HostFn::ObjToI256LoHi => Some(TypedModInt::ObjToI256LoHi(I256Obj::spec_new(ops[0].word_part().0))),
                HostFn::ObjToI256LoLo => Some(TypedModInt::ObjToI256LoLo(I256Obj::spec_new(ops[0].word_part().0))),
                HostFn::ObjToI64 => Some(TypedModInt::ObjToI64(I64Obj::spec_new(ops[0].word_part().0))),
                HostFn::ObjToU128Hi64 => Some(TypedModInt::ObjToU128Hi64(U128Obj::spec_new(ops[0].word_part().0))),
                HostFn::ObjToU128Lo64 => Some(TypedModInt::ObjToU128Lo64(U128Obj::spec_new(ops[0].word_part().0))),
                HostFn::ObjToU256HiHi => Some(TypedModInt::ObjToU256HiHi(U256Obj::spec_new(ops[0].word_part().0))),
                HostFn::ObjToU256HiLo => Some(TypedModInt::ObjToU256HiLo(U256Obj::spec_new(ops[0].word_part().0))),
                HostFn::ObjToU256LoHi => Some(TypedModInt::ObjToU256LoHi(U256Obj::spec_new(ops[0].word_part().0))),
                HostFn::ObjToU256LoLo => Some(TypedModInt::ObjToU256LoLo(U256Obj::spec_new(ops[0].word_part().0))),
                HostFn::ObjToU64 => Some(TypedModInt::ObjToU64(U64Obj::spec_new(ops[0].word_part().0))),
                HostFn::TimepointObjFromU64 => Some(TypedModInt::TimepointObjFromU64(ops[0].u64_part())),
                HostFn::TimepointObjToU64 => Some(TypedModInt::TimepointObjToU64(TimepointObj::spec_new(ops[0].word_part().0))),
                HostFn::U256Add => Some(TypedModInt::U256Add(U256Word::spec_new(ops[0].word_part().0), U256Word::spec_new(ops[1].word_part().0))),
                HostFn::U256Div => Some(TypedModInt::U256Div(U256Word::spec_new(ops[0].word_part().0), U256Word::spec_new(ops[1].word_part().0))),
                HostFn::U256Mul => Some(TypedModInt::U256Mul(U256Word::spec_new(ops[0].word_part().0), U256Word::spec_new(ops[1].word_part().0))),
                HostFn::U256Pow => Some(TypedModInt::U256Pow(U256Word::spec_new(ops[0].word_part().0), ops[1].u32_part())),
                HostFn::U256RemEuclid => Some(TypedModInt::U256RemEuclid(U256Word::spec_new(ops[0].word_part().0), U256Word::spec_new(ops[1].word_part().0))),
                HostFn::U256Shl => Some(TypedModInt::U256Shl(U256Word::spec_new(ops[0].word_part().0), ops[1].u32_part())),
                HostFn::U256Shr => Some(TypedModInt::U256Shr(U256Word::spec_new(ops[0].word_part().0), ops[1].u32_part())),
                HostFn::U256Sub => Some(TypedModInt::U256Sub(U256Word::spec_new(ops[0].word_part().0), U256Word::spec_new(ops[1].word_part().0))),
                HostFn::U256ValFromBeBytes => Some(TypedModInt::U256ValFromBeBytes(BytesObj::spec_new(ops[0].word_part().0))),
                HostFn::U256ValToBeBytes => Some(TypedModInt::U256ValToBeBytes(U256Word::spec_new(ops[0].word_part().0))),
                _ => None,
            }
        }
    }

    /// The host function the instruction calls.
    pub fn host_fn(&self) -> (r: HostFn)
        ensures
            r == self.opcode(),
    {
        match self {
            TypedModInt::DurationObjFromU64(..) => HostFn::DurationObjFromU64,
            TypedModInt::DurationObjToU64(..) => HostFn::DurationObjToU64,
            TypedModInt::I256Add(..) => HostFn::I256Add,
            TypedModInt::I256Div(..) => HostFn::I256Div,
            TypedModInt::I256Mul(..) => HostFn::I256Mul,
            TypedModInt::I256Pow(..) => HostFn::I256Pow,
            TypedModInt::I256RemEuclid(..) => HostFn::I256RemEuclid,
            TypedModInt::I256Shl(..) => HostFn::I256Shl,
            TypedModInt::I256Shr(..) => HostFn::I256Shr,
            TypedModInt::I256Sub(..) => HostFn::I256Sub,
            TypedModInt::I256ValFromBeBytes(..) => HostFn::I256ValFromBeBytes,
            TypedModInt::I256ValToBeBytes(..) => HostFn::I256ValToBeBytes,
            TypedModInt::ObjFromI128Pieces(..) => HostFn::ObjFromI128Pieces,
            TypedModInt::ObjFromI256Pieces(..) => HostFn::ObjFromI256Pieces,
            TypedModInt::ObjFromI64(..) => HostFn::ObjFromI64,
            TypedModInt::ObjFromU128Pieces(..) => HostFn::ObjFromU128Pieces,
            TypedModInt::ObjFromU256Pieces(..) => HostFn::ObjFromU256Pieces,
            TypedModInt::ObjFromU64(..) => HostFn::ObjFromU64,
            TypedModInt::ObjToI128Hi64(..) => HostFn::ObjToI128Hi64,
            TypedModInt::ObjToI128Lo64(..) => HostFn::ObjToI128Lo64,
            TypedModInt::ObjToI256HiHi(..) => HostFn::ObjToI256HiHi,
            TypedModInt::ObjToI256HiLo(..) => HostFn::ObjToI256HiLo,
            TypedModInt::ObjToI256LoHi(..) => HostFn::ObjToI256LoHi,
            TypedModInt::ObjToI256LoLo(..) => HostFn::ObjToI256LoLo,
            TypedModInt::ObjToI64(..) => HostFn::ObjToI64,
            TypedModInt::ObjToU128Hi64(..) => HostFn::ObjToU128Hi64,
            TypedModInt::ObjToU128Lo64(..) => HostFn::ObjToU128Lo64,
            TypedModInt::ObjToU256HiHi(..) => HostFn::ObjToU256HiHi,
            TypedModInt::ObjToU256HiLo(..) => HostFn::ObjToU256HiLo,
            TypedModInt::ObjToU256LoHi(..) => HostFn::ObjToU256LoHi,
            TypedModInt::ObjToU256LoLo(..) => HostFn::ObjToU256LoLo,
            TypedModInt::ObjToU64(..) => HostFn::ObjToU64,
            TypedModInt::TimepointObjFromU64(..) => HostFn::TimepointObjFromU64,
            TypedModInt::TimepointObjToU64(..) => HostFn::TimepointObjToU64,
            TypedModInt::U256Add(..) => HostFn::U256Add,
            TypedModInt::U256Div(..) => HostFn::U256Div,
            TypedModInt::U256Mul(..) => HostFn::U256Mul,
            TypedModInt::U256Pow(..) => HostFn::U256Pow,
            TypedModInt::U256RemEuclid(..) => HostFn::U256RemEuclid,
            TypedModInt::U256Shl(..) => HostFn::U256Shl,
            TypedModInt::U256Shr(..) => HostFn::U256Shr,
            TypedModInt::U256Sub(..) => HostFn::U256Sub,
            TypedModInt::U256ValFromBeBytes(..) => HostFn::U256ValFromBeBytes,
            TypedModInt::U256ValToBeBytes(..) => HostFn::U256ValToBeBytes,
        }
    }

    /// The instruction's operands, in slot order.
    pub fn operand_list(&self) -> (r: Vec<Operand>)
        ensures
            r@ == self.operands(),
            tags_agree(r@),
    {
        let r = match self {
            TypedModInt::DurationObjFromU64(a0) => vec![Operand::U64(*a0)],
            TypedModInt::DurationObjToU64(a0) => vec![Operand::Shaped(Shape::DurationObject, a0.word())],
            TypedModInt::I256Add(a0, a1) => vec![Operand::Shaped(Shape::I256Val, a0.word()), Operand::Shaped(Shape::I256Val, a1.word())],
            TypedModInt::I256Div(a0, a1) => vec![Operand::Shaped(Shape::I256Val, a0.word()), Operand::Shaped(Shape::I256Val, a1.word())],
            TypedModInt::I256Mul(a0, a1) => vec![Operand::Shaped(Shape::I256Val, a0.word()), Operand::Shaped(Shape::I256Val, a1.word())],
            TypedModInt::I256Pow(a0, a1) => vec![Operand::Shaped(Shape::I256Val, a0.word()), Operand::U32(*a1)],
            TypedModInt::I256RemEuclid(a0, a1) => vec![Operand::Shaped(Shape::I256Val, a0.word()), Operand::Shaped(Shape::I256Val, a1.word())],
            TypedModInt::I256Shl(a0, a1) => vec![Operand::Shaped(Shape::I256Val, a0.word()), Operand::U32(*a1)],
            TypedModInt::I256Shr(a0, a1) => vec![Operand::Shaped(Shape::I256Val, a0.word()), Operand::U32(*a1)],
            TypedModInt::I256Sub(a0, a1) => vec![Operand::Shaped(Shape::I256Val, a0.word()), Operand::Shaped(Shape::I256Val, a1.word())],
            TypedModInt::I256ValFromBeBytes(a0) => vec![Operand::Shaped(Shape::BytesObject, a0.word())],
            TypedModInt::I256ValToBeBytes(a0) => vec![Operand::Shaped(Shape::I256Val, a0.word())],
            TypedModInt::ObjFromI128Pieces(a0, a1) => vec![Operand::I64(*a0), Operand::U64(*a1)],
            TypedModInt::ObjFromI256Pieces(a0, a1, a2, a3) => vec![Operand::I64(*a0), Operand::U64(*a1), Operand::U64(*a2), Operand::U64(*a3)],
            TypedModInt::ObjFromI64(a0) => vec![Operand::I64(*a0)],
            TypedModInt::ObjFromU128Pieces(a0, a1) => vec![Operand::U64(*a0), Operand::U64(*a1)],
            TypedModInt::ObjFromU256Pieces(a0, a1, a2, a3) => vec![Operand::U64(*a0), Operand::U64(*a1), Operand::U64(*a2), Operand::U64(*a3)],
            TypedModInt::ObjFromU64(a0) => vec![Operand::U64(*a0)],
            TypedModInt::ObjToI128Hi64(a0) => vec![Operand::Shaped(Shape::I128Object, a0.word())],
            TypedModInt::ObjToI128Lo64(a0) => vec![Operand::Shaped(Shape::I128Object, a0.word())],
            TypedModInt::ObjToI256HiHi(a0) => vec![Operand::Shaped(Shape::I256Object, a0.word())],
            TypedModInt::ObjToI256HiLo(a0) => vec![Operand::Shaped(Shape::I256Object, a0.word())],
            TypedModInt::ObjToI256LoHi(a0) => vec![Operand::Shaped(Shape::I256Object, a0.word())],
            TypedModInt::ObjToI256LoLo(a0) => vec![Operand::Shaped(Shape::I256Object, a0.word())],
            TypedModInt::ObjToI64(a0) => vec![Operand::Shaped(Shape::I64Object, a0.word())],
            TypedModInt::ObjToU128Hi64(a0) => vec![Operand::Shaped(Shape::U128Object, a0.word())],
            TypedModInt::ObjToU128Lo64(a0) => vec![Operand::Shaped(Shape::U128Object, a0.word())],
            TypedModInt::ObjToU256HiHi(a0) => vec![Operand::Shaped(Shape::U256Object, a0.word())],
            TypedModInt::ObjToU256HiLo(a0) => vec![Operand::Shaped(Shape::U256Object, a0.word())],
            TypedModInt::ObjToU256LoHi(a0) => vec![Operand::Shaped(Shape::U256Object, a0.word())],
            TypedModInt::ObjToU256LoLo(a0) => vec![Operand::Shaped(Shape::U256Object, a0.word())],
            TypedModInt::ObjToU64(a0) => vec![Operand::Shaped(Shape::U64Object, a0.word())],
            TypedModInt::TimepointObjFromU64(a0) => vec![Operand::U64(*a0)],
            TypedModInt::TimepointObjToU64(a0) => vec![Operand::Shaped(Shape::TimepointObject, a0.word())],
            TypedModInt::U256Add(a0, a1) => vec![Operand::Shaped(Shape::U256Val, a0.word()), Operand::Shaped(Shape::U256Val, a1.word())],
            TypedModInt::U256Div(a0, a1) => vec![Operand::Shaped(Shape::U256Val, a0.word()), Operand::Shaped(Shape::U256Val, a1.word())],
            TypedModInt::U256Mul(a0, a1) => vec![Operand::Shaped(Shape::U256Val, a0.word()), Operand::Shaped(Shape::U256Val, a1.word())],
            TypedModInt::U256Pow(a0, a1) => vec![Operand::Shaped(Shape::U256Val, a0.word()), Operand::U32(*a1)],
            TypedModInt::U256RemEuclid(a0, a1) => vec![Operand::Shaped(Shape::U256Val, a0.word()), Operand::Shaped(Shape::U256Val, a1.word())],
            TypedModInt::U256Shl(a0, a1) => vec![Operand::Shaped(Shape::U256Val, a0.word()), Operand::U32(*a1)],
            TypedModInt::U256Shr(a0, a1) => vec![Operand::Shaped(Shape::U256Val, a0.word()), Operand::U32(*a1)],
            TypedModInt::U256Sub(a0, a1) => vec![Operand::Shaped(Shape::U256Val, a0.word()), Operand::Shaped(Shape::U256Val, a1.word())],
            TypedModInt::U256ValFromBeBytes(a0) => vec![Operand::Shaped(Shape::BytesObject, a0.word())],
            TypedModInt::U256ValToBeBytes(a0) => vec![Operand::Shaped(Shape::U256Val, a0.word())],
        };
        assert(r@ =~= self.operands());
        r
    }

    /// The instruction of this module that calls `f` with the operands
    /// `ops`, if `f` is in this module and `ops` fit its parameters.
    pub fn from_parts(f: HostFn, ops: &Vec<Operand>) -> (r: Option<TypedModInt>)
        ensures
            r == Self::spec_from_parts(f, ops@),
    {
        if !conforms_typed(&f.param_list(), ops) {
            return None;
        }
        match f {
            HostFn::DurationObjFromU64 => Some(TypedModInt::DurationObjFromU64(ops[0].get_u64())),
            HostFn::DurationObjToU64 => {
                assert(ops@[0].tag_agrees() && ops@[0].typed_fits(f.params()[0]));
                Some(TypedModInt::DurationObjToU64(DurationObj::checked(ops[0].get_word()).unwrap()))
            },
            HostFn::I256Add => {
                assert(ops@[0].tag_agrees() && ops@[0].typed_fits(f.params()[0]));
                assert(ops@[1].tag_agrees() && ops@[1].typed_fits(f.params()[1]));
                Some(TypedModInt::I256Add(I256Word::checked(ops[0].get_word()).unwrap(), I256Word::checked(ops[1].get_word()).unwrap()))
            },
            HostFn::I256Div => {
                assert(ops@[0].tag_agrees() && ops@[0].typed_fits(f.params()[0]));
                assert(ops@[1].tag_agrees() && ops@[1].typed_fits(f.params()[1]));
                Some(TypedModInt::I256Div(I256Word::checked(ops[0].get_word()).unwrap(), I256Word::checked(ops[1].get_word()).unwrap()))
            },
            HostFn::I256Mul => {
                assert(ops@[0].tag_agrees() && ops@[0].typed_fits(f.params()[0]));
                assert(ops@[1].tag_agrees() && ops@[1].typed_fits(f.params()[1]));
                Some(TypedModInt::I256Mul(I256Word::checked(ops[0].get_word()).unwrap(), I256Word::checked(ops[1].get_word()).unwrap()))
            },
            HostFn::I256Pow => {
                assert(ops@[0].tag_agrees() && ops@[0].typed_fits(f.params()[0]));
                Some(TypedModInt::I256Pow(I256Word::checked(ops[0].get_word()).unwrap(), ops[1].get_u32()))
            },
            HostFn::I256RemEuclid => {
                assert(ops@[0].tag_agrees() && ops@[0].typed_fits(f.params()[0]));
                assert(ops@[1].tag_agrees() && ops@[1].typed_fits(f.params()[1]));
                Some(TypedModInt::I256RemEuclid(I256Word::checked(ops[0].get_word()).unwrap(), I256Word::checked(ops[1].get_word()).unwrap()))
            },
            HostFn::I256Shl => {
                assert(ops@[0].tag_agrees() && ops@[0].typed_fits(f.params()[0]));
                Some(TypedModInt::I256Shl(I256Word::checked(ops[0].get_word()).unwrap(), ops[1].get_u32()))
            },
            HostFn::I256Shr => {
                assert(ops@[0].tag_agrees() && ops@[0].typed_fits(f.params()[0]));
                Some(TypedModInt::I256Shr(I256Word::checked(ops[0].get_word()).unwrap(), ops[1].get_u32()))
            },
            HostFn::I256Sub => {
                assert(ops@[0].tag_agrees() && ops@[0].typed_fits(f.params()[0]));
                assert(ops@[1].tag_agrees() && ops@[1].typed_fits(f.params()[1]));
                Some(TypedModInt::I256Sub(I256Word::checked(ops[0].get_word()).unwrap(), I256Word::checked(ops[1].get_word()).unwrap()))
            },
            HostFn::I256ValFromBeBytes => {
                assert(ops@[0].tag_agrees() && ops@[0].typed_fits(f.params()[0]));
                Some(TypedModInt::I256ValFromBeBytes(BytesObj::checked(ops[0].get_word()).unwrap()))
            },
            HostFn::I256ValToBeBytes => {
                assert(ops@[0].tag_agrees() && ops@[0].typed_fits(f.params()[0]));
                Some(TypedModInt::I256ValToBeBytes(I256Word::checked(ops[0].get_word()).unwrap()))
            },
            HostFn::ObjFromI128Pieces => Some(TypedModInt::ObjFromI128Pieces(ops[0].get_i64(), ops[1].get_u64())),
            HostFn::ObjFromI256Pieces => Some(TypedModInt::ObjFromI256Pieces(ops[0].get_i64(), ops[1].get_u64(), ops[2].get_u64(), ops[3].get_u64())),
            HostFn::ObjFromI64 => Some(TypedModInt::ObjFromI64(ops[0].get_i64())),
            HostFn::ObjFromU128Pieces => Some(TypedModInt::ObjFromU128Pieces(ops[0].get_u64(), ops[1].get_u64())),
            HostFn::ObjFromU256Pieces => Some(TypedModInt::ObjFromU256Pieces(ops[0].get_u64(), ops[1].get_u64(), ops[2].get_u64(), ops[3].get_u64())),
            HostFn::ObjFromU64 => Some(TypedModInt::ObjFromU64(ops[0].get_u64())),
            HostFn::ObjToI128Hi64 => {
                assert(ops@[0].tag_agrees() && ops@[0].typed_fits(f.params()[0]));
                Some(TypedModInt::ObjToI128Hi64(I128Obj::checked(ops[0].get_word()).unwrap()))
            },
            HostFn::ObjToI128Lo64 => {
                assert(ops@[0].tag_agrees() && ops@[0].typed_fits(f.params()[0]));
                Some(TypedModInt::ObjToI128Lo64(I128Obj::checked(ops[0].get_word()).unwrap()))
            },
            HostFn::ObjToI256HiHi => {
                assert(ops@[0].tag_agrees() && ops@[0].typed_fits(f.params()[0]));
                Some(TypedModInt::ObjToI256HiHi(I256Obj::checked(ops[0].get_word()).unwrap()))
            },
            HostFn::ObjToI256HiLo => {
                assert(ops@[0].tag_agrees() && ops@[0].typed_fits(f.params()[0]));
                Some(TypedModInt::ObjToI256HiLo(I256Obj::checked(ops[0].get_word()).unwrap()))
            },
            HostFn::ObjToI256LoHi => {
                assert(ops@[0].tag_agrees() && ops@[0].typed_fits(f.params()[0]));
                Some(TypedModInt::ObjToI256LoHi(I256Obj::checked(ops[0].get_word()).unwrap()))
            },
            HostFn::ObjToI256LoLo => {
                assert(ops@[0].tag_agrees() && ops@[0].typed_fits(f.params()[0]));
                Some(TypedModInt::ObjToI256LoLo(I256Obj::checked(ops[0].get_word()).unwrap()))
            },
            HostFn::ObjToI64 => {
                assert(ops@[0].tag_agrees() && ops@[0].typed_fits(f.params()[0]));
                Some(TypedModInt::ObjToI64(I64Obj::checked(ops[0].get_word()).unwrap()))
            },
            HostFn::ObjToU128Hi64 => {
                assert(ops@[0].tag_agrees() && ops@[0].typed_fits(f.params()[0]));
                Some(TypedModInt::ObjToU128Hi64(U128Obj::checked(ops[0].get_word()).unwrap()))
            },
            HostFn::ObjToU128Lo64 => {
                assert(ops@[0].tag_agrees() && ops@[0].typed_fits(f.params()[0]));
                Some(TypedModInt::ObjToU128Lo64(U128Obj::checked(ops[0].get_word()).unwrap()))
            },
            HostFn::ObjToU256HiHi => {
                assert(ops@[0].tag_agrees() && ops@[0].typed_fits(f.params()[0]));
                Some(TypedModInt::ObjToU256HiHi(U256Obj::checked(ops[0].get_word()).unwrap()))
            },
            HostFn::ObjToU256HiLo => {
                assert(ops@[0].tag_agrees() && ops@[0].typed_fits(f.params()[0]));
                Some(TypedModInt::ObjToU256HiLo(U256Obj::checked(ops[0].get_word()).unwrap()))
            },
            HostFn::ObjToU256LoHi => {
                assert(ops@[0].tag_agrees() && ops@[0].typed_fits(f.params()[0]));
                Some(TypedModInt::ObjToU256LoHi(U256Obj::checked(ops[0].get_word()).unwrap()))
            },
            HostFn::ObjToU256LoLo => {
                assert(ops@[0].tag_agrees() && ops@[0].typed_fits(f.params()[0]));
                Some(TypedModInt::ObjToU256LoLo(U256Obj::checked(ops[0].get_word()).unwrap()))
            },
            HostFn::ObjToU64 => {
                assert(ops@[0].tag_agrees() && ops@[0].typed_fits(f.params()[0]));
                Some(TypedModInt::ObjToU64(U64Obj::checked(ops[0].get_word()).unwrap()))
            },
            HostFn::TimepointObjFromU64 => Some(TypedModInt::TimepointObjFromU64(ops[0].get_u64())),
            HostFn::TimepointObjToU64 => {
                assert(ops@[0].tag_agrees() && ops@[0].typed_fits(f.params()[0]));
                Some(TypedModInt::TimepointObjToU64(TimepointObj::checked(ops[0].get_word()).unwrap()))
            },
            HostFn::U256Add => {
                assert(ops@[0].tag_agrees() && ops@[0].typed_fits(f.params()[0]));
                assert(ops@[1].tag_agrees() && ops@[1].typed_fits(f.params()[1]));
                Some(TypedModInt::U256Add(U256Word::checked(ops[0].get_word()).unwrap(), U256Word::checked(ops[1].get_word()).unwrap()))
            },
            HostFn::U256Div => {
                assert(ops@[0].tag_agrees() && ops@[0].typed_fits(f.params()[0]));
                assert(ops@[1].tag_agrees() && ops@[1].typed_fits(f.params()[1]));
                Some(TypedModInt::U256Div(U256Word::checked(ops[0].get_word()).unwrap(), U256Word::checked(ops[1].get_word()).unwrap()))
            },
            HostFn::U256Mul => {
                assert(ops@[0].tag_agrees() && ops@[0].typed_fits(f.params()[0]));
                assert(ops@[1].tag_agrees() && ops@[1].typed_fits(f.params()[1]));
                Some(TypedModInt::U256Mul(U256Word::checked(ops[0].get_word()).unwrap(), U256Word::checked(ops[1].get_word()).unwrap()))
            },
            HostFn::U256Pow => {
                assert(ops@[0].tag_agrees() && ops@[0].typed_fits(f.params()[0]));
                Some(TypedModInt::U256Pow(U256Word::checked(ops[0].get_word()).unwrap(), ops[1].get_u32()))
            },
            HostFn::U256RemEuclid => {
                assert(ops@[0].tag_agrees() && ops@[0].typed_fits(f.params()[0]));
                assert(ops@[1].tag_agrees() && ops@[1].typed_fits(f.params()[1]));
                Some(TypedModInt::U256RemEuclid(U256Word::checked(ops[0].get_word()).unwrap(), U256Word::checked(ops[1].get_word()).unwrap()))
            },
            HostFn::U256Shl => {
                assert(ops@[0].tag_agrees() && ops@[0].typed_fits(f.params()[0]));
                Some(TypedModInt::U256Shl(U256Word::checked(ops[0].get_word()).unwrap(), ops[1].get_u32()))
            },
            HostFn::U256Shr => {
                assert(ops@[0].tag_agrees() && ops@[0].typed_fits(f.params()[0]));
                Some(TypedModInt::U256Shr(U256Word::checked(ops[0].get_word()).unwrap(), ops[1].get_u32()))
            },
            HostFn::U256Sub => {
                assert(ops@[0].tag_agrees() && ops@[0].typed_fits(f.params()[0]));
                assert(ops@[1].tag_agrees() && ops@[1].typed_fits(f.params()[1]));
                Some(TypedModInt::U256Sub(U256Word::checked(ops[0].get_word()).unwrap(), U256Word::checked(ops[1].get_word()).unwrap()))
            },
            HostFn::U256ValFromBeBytes => {
                assert(ops@[0].tag_agrees() && ops@[0].typed_fits(f.params()[0]));
                Some(TypedModInt::U256ValFromBeBytes(BytesObj::checked(ops[0].get_word()).unwrap()))
            },
            HostFn::U256ValToBeBytes => {
                assert(ops@[0].tag_agrees() && ops@[0].typed_fits(f.params()[0]));
                Some(TypedModInt::U256ValToBeBytes(U256Word::checked(ops[0].get_word()).unwrap()))
            },
            _ => None,
        }
    }
}

proof fn lemma_int_inverse(m: TypedModInt)
    requires
        tags_agree(m.operands()),
    ensures
        m.opcode().module() == Module::Int,
        typed_conforms(m.opcode().params(), m.operands()),
        TypedModInt::spec_from_parts(m.opcode(), m.operands()) == Some(m),
{
}

proof fn lemma_int_realizes(f: HostFn, ops: Seq<Operand>)
    requires
        f.module() == Module::Int,
        typed_conforms(f.params(), ops),
        tags_agree(ops),
    ensures
        TypedModInt::spec_from_parts(f, ops) matches Some(m) && m.opcode() == f && m.operands() == ops,
{
    if ops.len() > 0 {
        assert(ops[0].typed_fits(f.params()[0]));
        assert(ops[0].tag_agrees());
    }
    if ops.len() > 1 {
        assert(ops[1].typed_fits(f.params()[1]));
        assert(ops[1].tag_agrees());
    }
    if ops.len() > 2 {
        assert(ops[2].typed_fits(f.params()[2]));
        assert(ops[2].tag_agrees());
    }
    if ops.len() > 3 {
        assert(ops[3].typed_fits(f.params()[3]));
        assert(ops[3].tag_agrees());
    }
    assert(TypedModInt::spec_from_parts(f, ops).unwrap().operands() =~= ops);
}

/// The typed tier's instructions of the `ledger` module: one per host function.
#[derive(Clone, Copy, Debug, PartialEq, Eq)]
pub enum TypedModLedger {
    CreateAssetContract(BytesObj),
    CreateContract(AddressObj, BytesObj, BytesObj),
    CreateContractWithConstructor(AddressObj, BytesObj, BytesObj, VecObj),
    DelContractData(FakeVal, StorageType),
    ExtendContractCodeTtl(AddressObj, u32, u32),
    ExtendContractDataTtl(FakeVal, StorageType, u32, u32),
    ExtendContractInstanceAndCodeTtl(AddressObj, u32, u32),
    ExtendContractInstanceTtl(AddressObj, u32, u32),
    ExtendCurrentContractInstanceAndCodeTtl(u32, u32),
    GetAssetContractId(BytesObj),
    GetContractData(FakeVal, StorageType),
    GetContractId(AddressObj, BytesObj),
    HasContractData(FakeVal, StorageType),
    PutContractData(FakeVal, FakeVal, StorageType),
    UpdateCurrentContractWasm(BytesObj),
    UploadWasm(BytesObj),
}

impl TypedModLedger {
    /// The host function the instruction calls.
    pub open spec fn opcode(self) -> HostFn {
        match self {
            TypedModLedger::CreateAssetContract(..) => HostFn::CreateAssetContract,
            TypedModLedger::CreateContract(..) => HostFn::CreateContract,
            TypedModLedger::CreateContractWithConstructor(..) => HostFn::CreateContractWithConstructor,
            TypedModLedger::DelContractData(..) => HostFn::DelContractData,
            TypedModLedger::ExtendContractCodeTtl(..) => HostFn::ExtendContractCodeTtl,
            TypedModLedger::ExtendContractDataTtl(..) => HostFn::ExtendContractDataTtl,
            TypedModLedger::ExtendContractInstanceAndCodeTtl(..) => HostFn::ExtendContractInstanceAndCodeTtl,
            TypedModLedger::ExtendContractInstanceTtl(..) => HostFn::ExtendContractInstanceTtl,
            TypedModLedger::ExtendCurrentContractInstanceAndCodeTtl(..) => HostFn::ExtendCurrentContractInstanceAndCodeTtl,
            TypedModLedger::GetAssetContractId(..) => HostFn::GetAssetContractId,
            TypedModLedger::GetContractData(..) => HostFn::GetContractData,
            TypedModLedger::GetContractId(..) => HostFn::GetContractId,
            TypedModLedger::HasContractData(..) => HostFn::HasContractData,
            TypedModLedger::PutContractData(..) => HostFn::PutContractData,
            TypedModLedger::UpdateCurrentContractWasm(..) => HostFn::UpdateCurrentContractWasm,
            TypedModLedger::UploadWasm(..) => HostFn::UploadWasm,
        }
    }

    /// The instruction's operands, in slot order.
    pub open spec fn operands(self) -> Seq<Operand> {
        match self {
            TypedModLedger::CreateAssetContract(a0) => seq![Operand::Shaped(Shape::BytesObject, FakeVal(a0.spec_word()))],
            TypedModLedger::CreateContract(a0, a1, a2) => seq![Operand::Shaped(Shape::AddressObject, FakeVal(a0.spec_word())), Operand::Shaped(Shape::BytesObject, FakeVal(a1.spec_word())), Operand::Shaped(Shape::BytesObject, FakeVal(a2.spec_word()))],
            TypedModLedger::CreateContractWithConstructor(a0, a1, a2, a3) => seq![Operand::Shaped(Shape::AddressObject, FakeVal(a0.spec_word())), Operand::Shaped(Shape::BytesObject, FakeVal(a1.spec_word())), Operand::Shaped(Shape::BytesObject, FakeVal(a2.spec_word())), Operand::Shaped(Shape::VecObject, FakeVal(a3.spec_word()))],
            TypedModLedger::DelContractData(a0, a1) => seq![Operand::Word(a0), Operand::Storage(a1)],
            TypedModLedger::ExtendContractCodeTtl(a0, a1, a2) => seq![Operand::Shaped(Shape::AddressObject, FakeVal(a0.spec_word())), Operand::U32(a1), Operand::U32(a2)],
            TypedModLedger::ExtendContractDataTtl(a0, a1, a2, a3) => seq![Operand::Word(a0), Operand::Storage(a1), Operand::U32(a2), Operand::U32(a3)],
            TypedModLedger::ExtendContractInstanceAndCodeTtl(a0, a1, a2) => seq![Operand::Shaped(Shape::AddressObject, FakeVal(a0.spec_word())), Operand::U32(a1), Operand::U32(a2)],
            TypedModLedger::ExtendContractInstanceTtl(a0, a1, a2) => seq![Operand::Shaped(Shape::AddressObject, FakeVal(a0.spec_word())), Operand::U32(a1), Operand::U32(a2)],
            TypedModLedger::ExtendCurrentContractInstanceAndCodeTtl(a0, a1) => seq![Operand::U32(a0), Operand::U32(a1)],
            TypedModLedger::GetAssetContractId(a0) => seq![Operand::Shaped(Shape::BytesObject, FakeVal(a0.spec_word()))],
            TypedModLedger::GetContractData(a0, a1) => seq![Operand::Word(a0), Operand::Storage(a1)],
            TypedModLedger::GetContractId(a0, a1) => seq![Operand::Shaped(Shape::AddressObject, FakeVal(a0.spec_word())), Operand::Shaped(Shape::BytesObject, FakeVal(a1.spec_word()))],
            TypedModLedger::HasContractData(a0, a1) => seq![Operand::Word(a0), Operand::Storage(a1)],
            TypedModLedger::PutContractData(a0, a1, a2) => seq![Operand::Word(a0), Operand::Word(a1), Operand::Storage(a2)],
            TypedModLedger::UpdateCurrentContractWasm(a0) => seq![Operand::Shaped(Shape::BytesObject, FakeVal(a0.spec_word()))],
            TypedModLedger::UploadWasm(a0) => seq![Operand::Shaped(Shape::BytesObject, FakeVal(a0.spec_word()))],
        }
    }

    /// The instruction of this module that calls `f` with the operands
    /// `ops`, if `f` is in this module and `ops` fit its parameters.
    pub open spec fn spec_from_parts(f: HostFn, ops: Seq<Operand>) -> Option<TypedModLedger> {
        if !(typed_conforms(f.params(), ops) && tags_agree(ops)) {
            None
        } else {
            match f {
                HostFn::CreateAssetContract => Some(TypedModLedger::CreateAssetContract(BytesObj::spec_new(ops[0].word_part().0))),
                HostFn::CreateContract => Some(TypedModLedger::CreateContract(AddressObj::spec_new(ops[0].word_part().0), BytesObj::spec_new(ops[1].word_part().0), BytesObj::spec_new(ops[2].word_part().0))),
                HostFn::CreateContractWithConstructor => Some(TypedModLedger::CreateContractWithConstructor(AddressObj::spec_new(ops[0].word_part().0), BytesObj::spec_new(ops[1].word_part().0), BytesObj::spec_new(ops[2].word_part().0), VecObj::spec_new(ops[3].word_part().0))),
                HostFn::DelContractData => Some(TypedModLedger::DelContractData(ops[0].word_part(), ops[1].storage_part())),
                HostFn::ExtendContractCodeTtl => Some(TypedModLedger::ExtendContractCodeTtl(AddressObj::spec_new(ops[0].word_part().0), ops[1].u32_part(), ops[2].u32_part())),
                HostFn::ExtendContractDataTtl => Some(TypedModLedger::ExtendContractDataTtl(ops[0].word_part(), ops[1].storage_part(), ops[2].u32_part(), ops[3].u32_part())),
                HostFn::ExtendContractInstanceAndCodeTtl => Some(TypedModLedger::ExtendContractInstanceAndCodeTtl(AddressObj::spec_new(ops[0].word_part().0), ops[1].u32_part(), ops[2].u32_part())),
                HostFn::ExtendContractInstanceTtl => Some(TypedModLedger::ExtendContractInstanceTtl(AddressObj::spec_new(ops[0].word_part().0), ops[1].u32_part(), ops[2].u32_part())),
                HostFn::ExtendCurrentContractInstanceAndCodeTtl => Some(TypedModLedger::ExtendCurrentContractInstanceAndCodeTtl(ops[0].u32_part(), ops[1].u32_part())),
                HostFn::GetAssetContractId => Some(TypedModLedger::GetAssetContractId(BytesObj::spec_new(ops[0].word_part().0))),
                HostFn::GetContractData => Some(TypedModLedger::GetContractData(ops[0].word_part(), ops[1].storage_part())),
                HostFn::GetContractId => Some(TypedModLedger::GetContractId(AddressObj::spec_new(ops[0].word_part().0), BytesObj::spec_new(ops[1].word_part().0))),
                HostFn::HasContractData => Some(TypedModLedger::HasContractData(ops[0].word_part(), ops[1].storage_part())),
                HostFn::PutContractData => Some(TypedModLedger::PutContractData(ops[0].word_part(), ops[1].word_part(), ops[2].storage_part())),
                HostFn::UpdateCurrentContractWasm => Some(TypedModLedger::UpdateCurrentContractWasm(BytesObj::spec_new(ops[0].word_part().0))),
                HostFn::UploadWasm => Some(TypedModLedger::UploadWasm(BytesObj::spec_new(ops[0].word_part().0))),
                _ => None,
            }
        }
    }

    /// The host function the instruction calls.
    pub fn host_fn(&self) -> (r: HostFn)
        ensures
            r == self.opcode(),
    {
        match self {
            TypedModLedger::CreateAssetContract(..) => HostFn::CreateAssetContract,
            TypedModLedger::CreateContract(..) => HostFn::CreateContract,
            TypedModLedger::CreateContractWithConstructor(..) => HostFn::CreateContractWithConstructor,
            TypedModLedger::DelContractData(..) => HostFn::DelContractData,
            TypedModLedger::ExtendContractCodeTtl(..) => HostFn::ExtendContractCodeTtl,
            TypedModLedger::ExtendContractDataTtl(..) => HostFn::ExtendContractDataTtl,
            TypedModLedger::ExtendContractInstanceAndCodeTtl(..) => HostFn::ExtendContractInstanceAndCodeTtl,
            TypedModLedger::ExtendContractInstanceTtl(..) => HostFn::ExtendContractInstanceTtl,
            TypedModLedger::ExtendCurrentContractInstanceAndCodeTtl(..) => HostFn::ExtendCurrentContractInstanceAndCodeTtl,
            TypedModLedger::GetAssetContractId(..) => HostFn::GetAssetContractId,
            TypedModLedger::GetContractData(..) => HostFn::GetContractData,
            TypedModLedger::GetContractId(..) => HostFn::GetContractId,
            TypedModLedger::HasContractData(..) => HostFn::HasContractData,
            TypedModLedger::PutContractData(..) => HostFn::PutContractData,
            TypedModLedger::UpdateCurrentContractWasm(..) => HostFn::UpdateCurrentContractWasm,
            TypedModLedger::UploadWasm(..) => HostFn::UploadWasm,
        }
    }

    /// The instruction's operands, in slot order.
    pub fn operand_list(&self) -> (r: Vec<Operand>)
        ensures
            r@ == self.operands(),
            tags_agree(r@),
    {
        let r = match self {
            TypedModLedger::CreateAssetContract(a0) => vec![Operand::Shaped(Shape::BytesObject, a0.word())],
            TypedModLedger::CreateContract(a0, a1, a2) => vec![Operand::Shaped(Shape::AddressObject, a0.word()), Operand::Shaped(Shape::BytesObject, a1.word()), Operand::Shaped(Shape::BytesObject, a2.word())],
            TypedModLedger::CreateContractWithConstructor(a0, a1, a2, a3) => vec![Operand::Shaped(Shape::AddressObject, a0.word()), Operand::Shaped(Shape::BytesObject, a1.word()), Operand::Shaped(Shape::BytesObject, a2.word()), Operand::Shaped(Shape::VecObject, a3.word())],
            TypedModLedger::DelContractData(a0, a1) => vec![Operand::Word(*a0), Operand::Storage(*a1)],
            TypedModLedger::ExtendContractCodeTtl(a0, a1, a2) => vec![Operand::Shaped(Shape::AddressObject, a0.word()), Operand::U32(*a1), Operand::U32(*a2)],
            TypedModLedger::ExtendContractDataTtl(a0, a1, a2, a3) => vec![Operand::Word(*a0), Operand::Storage(*a1), Operand::U32(*a2), Operand::U32(*a3)],
            TypedModLedger::ExtendContractInstanceAndCodeTtl(a0, a1, a2) => vec![Operand::Shaped(Shape::AddressObject, a0.word()), Operand::U32(*a1), Operand::U32(*a2)],
            TypedModLedger::ExtendContractInstanceTtl(a0, a1, a2) => vec![Operand::Shaped(Shape::AddressObject, a0.word()), Operand::U32(*a1), Operand::U32(*a2)],
            TypedModLedger::ExtendCurrentContractInstanceAndCodeTtl(a0, a1) => vec![Operand::U32(*a0), Operand::U32(*a1)],
            TypedModLedger::GetAssetContractId(a0) => vec![Operand::Shaped(Shape::BytesObject, a0.word())],
            TypedModLedger::GetContractData(a0, a1) => vec![Operand::Word(*a0), Operand::Storage(*a1)],
            TypedModLedger::GetContractId(a0, a1) => vec![Operand::Shaped(Shape::AddressObject, a0.word()), Operand::Shaped(Shape::BytesObject, a1.word())],
            TypedModLedger::HasContractData(a0, a1) => vec![Operand::Word(*a0), Operand::Storage(*a1)],
            TypedModLedger::PutContractData(a0, a1, a2) => vec![Operand::Word(*a0), Operand::Word(*a1), Operand::Storage(*a2)],
            TypedModLedger::UpdateCurrentContractWasm(a0) => vec![Operand::Shaped(Shape::BytesObject, a0.word())],
            TypedModLedger::UploadWasm(a0) => vec![Operand::Shaped(Shape::BytesObject, a0.word())],
        };
        assert(r@ =~= self.operands());
        r
    }

    /// The instruction of this module that calls `f` with the operands
    /// `ops`, if `f` is in this module and `ops` fit its parameters.
    pub fn from_parts(f: HostFn, ops: &Vec<Operand>) -> (r: Option<TypedModLedger>)
        ensures
            r == Self::spec_from_parts(f, ops@),
    {
        if !conforms_typed(&f.param_list(), ops) {
            return None;
        }
        match f {
            HostFn::CreateAssetContract => {
                assert(ops@[0].tag_agrees() && ops@[0].typed_fits(f.params()[0]));
                Some(TypedModLedger::CreateAssetContract(BytesObj::checked(ops[0].get_word()).unwrap()))
            },
            HostFn::CreateContract => {
                assert(ops@[0].tag_agrees() && ops@[0].typed_fits(f.params()[0]));
                assert(ops@[1].tag_agrees() && ops@[1].typed_fits(f.params()[1]));
                assert(ops@[2].tag_agrees() && ops@[2].typed_fits(f.params()[2]));
                Some(TypedModLedger::CreateContract(AddressObj::checked(ops[0].get_word()).unwrap(), BytesObj::checked(ops[1].get_word()).unwrap(), BytesObj::checked(ops[2].get_word()).unwrap()))
            },
            HostFn::CreateContractWithConstructor => {
                assert(ops@[0].tag_agrees() && ops@[0].typed_fits(f.params()[0]));
                assert(ops@[1].tag_agrees() && ops@[1].typed_fits(f.params()[1]));
                assert(ops@[2].tag_agrees() && ops@[2].typed_fits(f.params()[2]));
                assert(ops@[3].tag_agrees() && ops@[3].typed_fits(f.params()[3]));
                Some(TypedModLedger::CreateContractWithConstructor(AddressObj::checked(ops[0].get_word()).unwrap(), BytesObj::checked(ops[1].get_word()).unwrap(), BytesObj::checked(ops[2].get_word()).unwrap(), VecObj::checked(ops[3].get_word()).unwrap()))
            },
            HostFn::DelContractData => Some(TypedModLedger::DelContractData(ops[0].get_word(), ops[1].get_storage())),
            HostFn::ExtendContractCodeTtl => {
                assert(ops@[0].tag_agrees() && ops@[0].typed_fits(f.params()[0]));
                Some(TypedModLedger::ExtendContractCodeTtl(AddressObj::checked(ops[0].get_word()).unwrap(), ops[1].get_u32(), ops[2].get_u32()))
            },
            HostFn::ExtendContractDataTtl => Some(TypedModLedger::ExtendContractDataTtl(ops[0].get_word(), ops[1].get_storage(), ops[2].get_u32(), ops[3].get_u32())),
            HostFn::ExtendContractInstanceAndCodeTtl => {
                assert(ops@[0].tag_agrees() && ops@[0].typed_fits(f.params()[0]));
                Some(TypedModLedger::ExtendContractInstanceAndCodeTtl(AddressObj::checked(ops[0].get_word()).unwrap(), ops[1].get_u32(), ops[2].get_u32()))
            },
            HostFn::ExtendContractInstanceTtl => {
                assert(ops@[0].tag_agrees() && ops@[0].typed_fits(f.params()[0]));
                Some(TypedModLedger::ExtendContractInstanceTtl(AddressObj::checked(ops[0].get_word()).unwrap(), ops[1].get_u32(), ops[2].get_u32()))
            },
            HostFn::ExtendCurrentContractInstanceAndCodeTtl => Some(TypedModLedger::ExtendCurrentContractInstanceAndCodeTtl(ops[0].get_u32(), ops[1].get_u32())),
            HostFn::GetAssetContractId => {
                assert(ops@[0].tag_agrees() && ops@[0].typed_fits(f.params()[0]));
                Some(TypedModLedger::GetAssetContractId(BytesObj::checked(ops[0].get_word()).unwrap()))
            },
            HostFn::GetContractData => Some(TypedModLedger::GetContractData(ops[0].get_word(), ops[1].get_storage())),
            HostFn::GetContractId => {
                assert(ops@[0].tag_agrees() && ops@[0].typed_fits(f.params()[0]));
                assert(ops@[1].tag_agrees() && ops@[1].typed_fits(f.params()[1]));
                Some(TypedModLedger::GetContractId(AddressObj::checked(ops[0].get_word()).unwrap(), BytesObj::checked(ops[1].get_word()).unwrap()))
            },
            HostFn::HasContractData => Some(TypedModLedger::HasContractData(ops[0].get_word(), ops[1].get_storage())),
            HostFn::PutContractData => Some(TypedModLedger::PutContractData(ops[0].get_word(), ops[1].get_word(), ops[2].get_storage())),
            HostFn::UpdateCurrentContractWasm => {
                assert(ops@[0].tag_agrees() && ops@[0].typed_fits(f.params()[0]));
                Some(TypedModLedger::UpdateCurrentContractWasm(BytesObj::checked(ops[0].get_word()).unwrap()))
            },
            HostFn::UploadWasm => {
                assert(ops@[0].tag_agrees() && ops@[0].typed_fits(f.params()[0]));
                Some(TypedModLedger::UploadWasm(BytesObj::checked(ops[0].get_word()).unwrap()))
            },
            _ => None,
        }
    }
}

proof fn lemma_ledger_inverse(m: TypedModLedger)
    requires
        tags_agree(m.operands()),
    ensures
        m.opcode().module() == Module::Ledger,
        typed_conforms(m.opcode().params(), m.operands()),
        TypedModLedger::spec_from_parts(m.opcode(), m.operands()) == Some(m),
{
}

proof fn lemma_ledger_realizes(f: HostFn, ops: Seq<Operand>)
    requires
        f.module() == Module::Ledger,
        typed_conforms(f.params(), ops),
        tags_agree(ops),
    ensures
        TypedModLedger::spec_from_parts(f, ops) matches Some(m) && m.opcode() == f && m.operands() == ops,
{
    if ops.len() > 0 {
        assert(ops[0].typed_fits(f.params()[0]));
        assert(ops[0].tag_agrees());
    }
    if ops.len() > 1 {
        assert(ops[1].typed_fits(f.params()[1]));
        assert(ops[1].tag_agrees());
    }
    if ops.len() > 2 {
        assert(ops[2].typed_fits(f.params()[2]));
        assert(ops[2].tag_agrees());
    }
    if ops.len() > 3 {
        assert(ops[3].typed_fits(f.params()[3]));
        assert(ops[3].tag_agrees());
    }
    assert(TypedModLedger::spec_from_parts(f, ops).unwrap().operands() =~= ops);
}

/// The typed tier's instructions of the `map` module: one per host function.
#[derive(Clone, Copy, Debug, PartialEq, Eq)]
pub enum TypedModMap {
    MapDel(MapObj, FakeVal),
    MapGet(MapObj, FakeVal),
    MapHas(MapObj, FakeVal),
    MapKeyByPos(MapObj, u32),
    MapKeys(MapObj),
    MapLen(MapObj),
    MapNew,
    MapNewFromLinearMemory(u32, u32, u32),
    MapPut(MapObj, FakeVal, FakeVal),
    MapUnpackToLinearMemory(MapObj, u32, u32, u32),
    MapValByPos(MapObj, u32),
    MapValues(MapObj),
}

impl TypedModMap {
    /// The host function the instruction calls.
    pub open spec fn opcode(self) -> HostFn {
        match self {
            TypedModMap::MapDel(..) => HostFn::MapDel,
            TypedModMap::MapGet(..) => HostFn::MapGet,
            TypedModMap::MapHas(..) => HostFn::MapHas,
            TypedModMap::MapKeyByPos(..) => HostFn::MapKeyByPos,
            TypedModMap::MapKeys(..) => HostFn::MapKeys,
            TypedModMap::MapLen(..) => HostFn::MapLen,
            TypedModMap::MapNew => HostFn::MapNew,
            TypedModMap::MapNewFromLinearMemory(..) => HostFn::MapNewFromLinearMemory,
            TypedModMap::MapPut(..) => HostFn::MapPut,
            TypedModMap::MapUnpackToLinearMemory(..) => HostFn::MapUnpackToLinearMemory,
            TypedModMap::MapValByPos(..) => HostFn::MapValByPos,
            TypedModMap::MapValues(..) => HostFn::MapValues,
        }
    }

    /// The instruction's operands, in slot order.
    pub open spec fn operands(self) -> Seq<Operand> {
        match self {
            TypedModMap::MapDel(a0, a1) => seq![Operand::Shaped(Shape::MapObject, FakeVal(a0.spec_word())), Operand::Word(a1)],
            TypedModMap::MapGet(a0, a1) => seq![Operand::Shaped(Shape::MapObject, FakeVal(a0.spec_word())), Operand::Word(a1)],
            TypedModMap::MapHas(a0, a1) => seq![Operand::Shaped(Shape::MapObject, FakeVal(a0.spec_word())), Operand::Word(a1)],
            TypedModMap::MapKeyByPos(a0, a1) => seq![Operand::Shaped(Shape::MapObject, FakeVal(a0.spec_word())), Operand::U32(a1)],
            TypedModMap::MapKeys(a0) => seq![Operand::Shaped(Shape::MapObject, FakeVal(a0.spec_word()))],
            TypedModMap::MapLen(a0) => seq![Operand::Shaped(Shape::MapObject, FakeVal(a0.spec_word()))],
            TypedModMap::MapNew => seq![],
            TypedModMap::MapNewFromLinearMemory(a0, a1, a2) => seq![Operand::U32(a0), Operand::U32(a1), Operand::U32(a2)],
            TypedModMap::MapPut(a0, a1, a2) => seq![Operand::Shaped(Shape::MapObject, FakeVal(a0.spec_word())), Operand::Word(a1), Operand::Word(a2)],
            TypedModMap::MapUnpackToLinearMemory(a0, a1, a2, a3) => seq![Operand::Shaped(Shape::MapObject, FakeVal(a0.spec_word())), Operand::U32(a1), Operand::U32(a2), Operand::U32(a3)],
            TypedModMap::MapValByPos(a0, a1) => seq![Operand::Shaped(Shape::MapObject, FakeVal(a0.spec_word())), Operand::U32(a1)],
            TypedModMap::MapValues(a0) => seq![Operand::Shaped(Shape::MapObject, FakeVal(a0.spec_word()))],
        }
    }

    /// The instruction of this module that calls `f` with the operands
    /// `ops`, if `f` is in this module and `ops` fit its parameters.
    pub open spec fn spec_from_parts(f: HostFn, ops: Seq<Operand>) -> Option<TypedModMap> {
        if !(typed_conforms(f.params(), ops) && tags_agree(ops)) {
            None
        } else {
            match f {
                HostFn::MapDel => Some(TypedModMap::MapDel(MapObj::spec_new(ops[0].word_part().0), ops[1].word_part())),
                HostFn::MapGet => Some(TypedModMap::MapGet(MapObj::spec_new(ops[0].word_part().0), ops[1].word_part())),
                HostFn::MapHas => Some(TypedModMap::MapHas(MapObj::spec_new(ops[0].word_part().0), ops[1].word_part())),
                HostFn::MapKeyByPos => Some(TypedModMap::MapKeyByPos(MapObj::spec_new(ops[0].word_part().0), ops[1].u32_part())),
                HostFn::MapKeys => Some(TypedModMap::MapKeys(MapObj::spec_new(ops[0].word_part().0))),
                HostFn::MapLen => Some(TypedModMap::MapLen(MapObj::spec_new(ops[0].word_part().0))),
                HostFn::MapNew => Some(TypedModMap::MapNew),
                HostFn::MapNewFromLinearMemory => Some(TypedModMap::MapNewFromLinearMemory(ops[0].u32_part(), ops[1].u32_part(), ops[2].u32_part())),
                HostFn::MapPut => Some(TypedModMap::MapPut(MapObj::spec_new(ops[0].word_part().0), ops[1].word_part(), ops[2].word_part())),
                HostFn::MapUnpackToLinearMemory => Some(TypedModMap::MapUnpackToLinearMemory(MapObj::spec_new(ops[0].word_part().0), ops[1].u32_part(), ops[2].u32_part(), ops[3].u32_part())),
                HostFn::MapValByPos => Some(TypedModMap::MapValByPos(MapObj::spec_new(ops[0].word_part().0), ops[1].u32_part())),
                HostFn::MapValues => Some(TypedModMap::MapValues(MapObj::spec_new(ops[0].word_part().0))),
                _ => None,
            }
        }
    }

    /// The host function the instruction calls.
    pub fn host_fn(&self) -> (r: HostFn)
        ensures
            r == self.opcode(),
    {
        match self {
            TypedModMap::MapDel(..) => HostFn::MapDel,
            TypedModMap::MapGet(..) => HostFn::MapGet,
            TypedModMap::MapHas(..) => HostFn::MapHas,
            TypedModMap::MapKeyByPos(..) => HostFn::MapKeyByPos,
            TypedModMap::MapKeys(..) => HostFn::MapKeys,
            TypedModMap::MapLen(..) => HostFn::MapLen,
            TypedModMap::MapNew => HostFn::MapNew,
            TypedModMap::MapNewFromLinearMemory(..) => HostFn::MapNewFromLinearMemory,
            TypedModMap::MapPut(..) => HostFn::MapPut,
            TypedModMap::MapUnpackToLinearMemory(..) => HostFn::MapUnpackToLinearMemory,
            TypedModMap::MapValByPos(..) => HostFn::MapValByPos,
            TypedModMap::MapValues(..) => HostFn::MapValues,
        }
    }

    /// The instruction's operands, in slot order.
    pub fn operand_list(&self) -> (r: Vec<Operand>)
        ensures
            r@ == self.operands(),
            tags_agree(r@),
    {
        let r = match self {
            TypedModMap::MapDel(a0, a1) => vec![Operand::Shaped(Shape::MapObject, a0.word()), Operand::Word(*a1)],
            TypedModMap::MapGet(a0, a1) => vec![Operand::Shaped(Shape::MapObject, a0.word()), Operand::Word(*a1)],
            TypedModMap::MapHas(a0, a1) => vec![Operand::Shaped(Shape::MapObject, a0.word()), Operand::Word(*a1)],
            TypedModMap::MapKeyByPos(a0, a1) => vec![Operand::Shaped(Shape::MapObject, a0.word()), Operand::U32(*a1)],
            TypedModMap::MapKeys(a0) => vec![Operand::Shaped(Shape::MapObject, a0.word())],
            TypedModMap::MapLen(a0) => vec![Operand::Shaped(Shape::MapObject, a0.word())],
            TypedModMap::MapNew => vec![],
            TypedModMap::MapNewFromLinearMemory(a0, a1, a2) => vec![Operand::U32(*a0), Operand::U32(*a1), Operand::U32(*a2)],
            TypedModMap::MapPut(a0, a1, a2) => vec![Operand::Shaped(Shape::MapObject, a0.word()), Operand::Word(*a1), Operand::Word(*a2)],
            TypedModMap::MapUnpackToLinearMemory(a0, a1, a2, a3) => vec![Operand::Shaped(Shape::MapObject, a0.word()), Operand::U32(*a1), Operand::U32(*a2), Operand::U32(*a3)],
            TypedModMap::MapValByPos(a0, a1) => vec![Operand::Shaped(Shape::MapObject, a0.word()), Operand::U32(*a1)],
            TypedModMap::MapValues(a0) => vec![Operand::Shaped(Shape::MapObject, a0.word())],
        };
        assert(r@ =~= self.operands());
        r
    }

    /// The instruction of this module that calls `f` with the operands
    /// `ops`, if `f` is in this module and `ops` fit its parameters.
    pub fn from_parts(f: HostFn, ops: &Vec<Operand>) -> (r: Option<TypedModMap>)
        ensures
            r == Self::spec_from_parts(f, ops@),
    {
        if !conforms_typed(&f.param_list(), ops) {
            return None;
        }
        match f {
            HostFn::MapDel => {
                assert(ops@[0].tag_agrees() && ops@[0].typed_fits(f.params()[0]));
                Some(TypedModMap::MapDel(MapObj::checked(ops[0].get_word()).unwrap(), ops[1].get_word()))
            },
            HostFn::MapGet => {
                assert(ops@[0].tag_agrees() && ops@[0].typed_fits(f.params()[0]));
                Some(TypedModMap::MapGet(MapObj::checked(ops[0].get_word()).unwrap(), ops[1].get_word()))
            },
            HostFn::MapHas => {
                assert(ops@[0].tag_agrees() && ops@[0].typed_fits(f.params()[0]));
                Some(TypedModMap::MapHas(MapObj::checked(ops[0].get_word()).unwrap(), ops[1].get_word()))
            },
            HostFn::MapKeyByPos => {
                assert(ops@[0].tag_agrees() && ops@[0].typed_fits(f.params()[0]));
                Some(TypedModMap::MapKeyByPos(MapObj::checked(ops[0].get_word()).unwrap(), ops[1].get_u32()))
            },
            HostFn::MapKeys => {
                assert(ops@[0].tag_agrees() && ops@[0].typed_fits(f.params()[0]));
                Some(TypedModMap::MapKeys(MapObj::checked(ops[0].get_word()).unwrap()))
            },
            HostFn::MapLen => {
                assert(ops@[0].tag_agrees() && ops@[0].typed_fits(f.params()[0]));
                Some(TypedModMap::MapLen(MapObj::checked(ops[0].get_word()).unwrap()))
            },
            HostFn::MapNew => Some(TypedModMap::MapNew),
            HostFn::MapNewFromLinearMemory => Some(TypedModMap::MapNewFromLinearMemory(ops[0].get_u32(), ops[1].get_u32(), ops[2].get_u32())),
            HostFn::MapPut => {
                assert(ops@[0].tag_agrees() && ops@[0].typed_fits(f.params()[0]));
                Some(TypedModMap::MapPut(MapObj::checked(ops[0].get_word()).unwrap(), ops[1].get_word(), ops[2].get_word()))
            },
            HostFn::MapUnpackToLinearMemory => {
                assert(ops@[0].tag_agrees() && ops@[0].typed_fits(f.params()[0]));
                Some(TypedModMap::MapUnpackToLinearMemory(MapObj::checked(ops[0].get_word()).unwrap(), ops[1].get_u32(), ops[2].get_u32(), ops[3].get_u32()))
            },
            HostFn::MapValByPos => {
                assert(ops@[0].tag_agrees() && ops@[0].typed_fits(f.params()[0]));
                Some(TypedModMap::MapValByPos(MapObj::checked(ops[0].get_word()).unwrap(), ops[1].get_u32()))
            },
            HostFn::MapValues => {
                assert(ops@[0].tag_agrees() && ops@[0].typed_fits(f.params()[0]));
                Some(TypedModMap::MapValues(MapObj::checked(ops[0].get_word()).unwrap()))
            },
            _ => None,
        }
    }
}

proof fn lemma_map_inverse(m: TypedModMap)
    requires
        tags_agree(m.operands()),
    ensures
        m.opcode().module() == Module::Maps,
        typed_conforms(m.opcode().params(), m.operands()),
        TypedModMap::spec_from_parts(m.opcode(), m.operands()) == Some(m),
{
}

proof fn lemma_map_realizes(f: HostFn, ops: Seq<Operand>)
    requires
        f.module() == Module::Maps,
        typed_conforms(f.params(), ops),
        tags_agree(ops),
    ensures
        TypedModMap::spec_from_parts(f, ops) matches Some(m) && m.opcode() == f && m.operands() == ops,
{
    if ops.len() > 0 {
        assert(ops[0].typed_fits(f.params()[0]));
        assert(ops[0].tag_agrees());
    }
    if ops.len() > 1 {
        assert(ops[1].typed_fits(f.params()[1]));
        assert(ops[1].tag_agrees());
    }
    if ops.len() > 2 {
        assert(ops[2].typed_fits(f.params()[2]));
        assert(ops[2].tag_agrees());
    }
    if ops.len() > 3 {
        assert(ops[3].typed_fits(f.params()[3]));
        assert(ops[3].tag_agrees());
    }
    assert(TypedModMap::spec_from_parts(f, ops).unwrap().operands() =~= ops);
}

/// The typed tier's instructions of the `prng` module: one per host function.
#[derive(Clone, Copy, Debug, PartialEq, Eq)]
pub enum TypedModPrng {
    PrngBytesNew(u32),
    PrngReseed(BytesObj),
    PrngU64InInclusiveRange(u64, u64),
    PrngVecShuffle(VecObj),
}

impl TypedModPrng {
    /// The host function the instruction calls.
    pub open spec fn opcode(self) -> HostFn {
        match self {
            TypedModPrng::PrngBytesNew(..) => HostFn::PrngBytesNew,
            TypedModPrng::PrngReseed(..) => HostFn::PrngReseed,
            TypedModPrng::PrngU64InInclusiveRange(..) => HostFn::PrngU64InInclusiveRange,
            TypedModPrng::PrngVecShuffle(..) => HostFn::PrngVecShuffle,
        }
    }

    /// The instruction's operands, in slot order.
    pub open spec fn operands(self) -> Seq<Operand> {
        match self {
            TypedModPrng::PrngBytesNew(a0) => seq![Operand::U32(a0)],
            TypedModPrng::PrngReseed(a0) => seq![Operand::Shaped(Shape::BytesObject, FakeVal(a0.spec_word()))],
            TypedModPrng::PrngU64InInclusiveRange(a0, a1) => seq![Operand::U64(a0), Operand::U64(a1)],
            TypedModPrng::PrngVecShuffle(a0) => seq![Operand::Shaped(Shape::VecObject, FakeVal(a0.spec_word()))],
        }
    }

    /// The instruction of this module that calls `f` with the operands
    /// `ops`, if `f` is in this module and `ops` fit its parameters.
    pub open spec fn spec_from_parts(f: HostFn, ops: Seq<Operand>) -> Option<TypedModPrng> {
        if !(typed_conforms(f.params(), ops) && tags_agree(ops)) {
            None
        } else {
            match f {
                HostFn::PrngBytesNew => Some(TypedModPrng::PrngBytesNew(ops[0].u32_part())),
                HostFn::PrngReseed => Some(TypedModPrng::PrngReseed(BytesObj::spec_new(ops[0].word_part().0))),
                HostFn::PrngU64InInclusiveRange => Some(TypedModPrng::PrngU64InInclusiveRange(ops[0].u64_part(), ops[1].u64_part())),
                HostFn::PrngVecShuffle => Some(TypedModPrng::PrngVecShuffle(VecObj::spec_new(ops[0].word_part().0))),
                _ => None,
            }
        }
    }

    /// The host function the instruction calls.
    pub fn host_fn(&self) -> (r: HostFn)
        ensures
            r == self.opcode(),
    {
        match self {
            TypedModPrng::PrngBytesNew(..) => HostFn::PrngBytesNew,
            TypedModPrng::PrngReseed(..) => HostFn::PrngReseed,
            TypedModPrng::PrngU64InInclusiveRange(..) => HostFn::PrngU64InInclusiveRange,
            TypedModPrng::PrngVecShuffle(..) => HostFn::PrngVecShuffle,
        }
    }

    /// The instruction's operands, in slot order.
    pub fn operand_list(&self) -> (r: Vec<Operand>)
        ensures
            r@ == self.operands(),
            tags_agree(r@),
    {
        let r = match self {
            TypedModPrng::PrngBytesNew(a0) => vec![Operand::U32(*a0)],
            TypedModPrng::PrngReseed(a0) => vec![Operand::Shaped(Shape::BytesObject, a0.word())],
            TypedModPrng::PrngU64InInclusiveRange(a0, a1) => vec![Operand::U64(*a0), Operand::U64(*a1)],
            TypedModPrng::PrngVecShuffle(a0) => vec![Operand::Shaped(Shape::VecObject, a0.word())],
        };
        assert(r@ =~= self.operands());
        r
    }

    /// The instruction of this module that calls `f` with the operands
    /// `ops`, if `f` is in this module and `ops` fit its parameters.
    pub fn from_parts(f: HostFn, ops: &Vec<Operand>) -> (r: Option<TypedModPrng>)
        ensures
            r == Self::spec_from_parts(f, ops@),
    {
        if !conforms_typed(&f.param_list(), ops) {
            return None;
        }
        match f {
            HostFn::PrngBytesNew => Some(TypedModPrng::PrngBytesNew(ops[0].get_u32())),
            HostFn::PrngReseed => {
                assert(ops@[0].tag_agrees() && ops@[0].typed_fits(f.params()[0]));
                Some(TypedModPrng::PrngReseed(BytesObj::checked(ops[0].get_word()).unwrap()))
            },
            HostFn::PrngU64InInclusiveRange => Some(TypedModPrng::PrngU64InInclusiveRange(ops[0].get_u64(), ops[1].get_u64())),
            HostFn::PrngVecShuffle => {
                assert(ops@[0].tag_agrees() && ops@[0].typed_fits(f.params()[0]));
                Some(TypedModPrng::PrngVecShuffle(VecObj::checked(ops[0].get_word()).unwrap()))
            },
            _ => None,
        }
    }
}

proof fn lemma_prng_inverse(m: TypedModPrng)
    requires
        tags_agree(m.operands()),
    ensures
        m.opcode().module() == Module::Prng,
        typed_conforms(m.opcode().params(), m.operands()),
        TypedModPrng::spec_from_parts(m.opcode(), m.operands()) == Some(m),
{
}

proof fn lemma_prng_realizes(f: HostFn, ops: Seq<Operand>)
    requires
        f.module() == Module::Prng,
        typed_conforms(f.params(), ops),
        tags_agree(ops),
    ensures
        TypedModPrng::spec_from_parts(f, ops) matches Some(m) && m.opcode() == f && m.operands() == ops,
{
    if ops.len() > 0 {
        assert(ops[0].typed_fits(f.params()[0]));
        assert(ops[0].tag_agrees());
    }
    if ops.len() > 1 {
        assert(ops[1].typed_fits(f.params()[1]));
        assert(ops[1].tag_agrees());
    }
    assert(TypedModPrng::spec_from_parts(f, ops).unwrap().operands() =~= ops);
}

/// The typed tier's instructions of the `vec` module: one per host function.
#[derive(Clone, Copy, Debug, PartialEq, Eq)]
pub enum TypedModVec {
    VecAppend(VecObj, VecObj),
    VecBack(VecObj),
    VecBinarySearch(VecObj, FakeVal),
    VecDel(VecObj, u32),
    VecFirstIndexOf(VecObj, FakeVal),
    VecFront(VecObj),
    VecGet(VecObj, u32),
    VecInsert(VecObj, u32, FakeVal),
    VecLastIndexOf(VecObj, FakeVal),
    VecLen(VecObj),
    VecNew,
    VecNewFromLinearMemory(u32, u32),
    VecPopBack(VecObj),
    VecPopFront(VecObj),
    VecPushBack(VecObj, FakeVal),
    VecPushFront(VecObj, FakeVal),
    VecPut(VecObj, u32, FakeVal),
    VecSlice(VecObj, u32, u32),
    VecUnpackToLinearMemory(VecObj, u32, u32),
}

impl TypedModVec {
    /// The host function the instruction calls.
    pub open spec fn opcode(self) -> HostFn {
        match self {
            TypedModVec::VecAppend(..) => HostFn::VecAppend,
            TypedModVec::VecBack(..) => HostFn::VecBack,
            TypedModVec::VecBinarySearch(..) => HostFn::VecBinarySearch,
            TypedModVec::VecDel(..) => HostFn::VecDel,
            TypedModVec::VecFirstIndexOf(..) => HostFn::VecFirstIndexOf,
            TypedModVec::VecFront(..) => HostFn::VecFront,
            TypedModVec::VecGet(..) => HostFn::VecGet,
            TypedModVec::VecInsert(..) => HostFn::VecInsert,
            TypedModVec::VecLastIndexOf(..) => HostFn::VecLastIndexOf,
            TypedModVec::VecLen(..) => HostFn::VecLen,
            TypedModVec::VecNew => HostFn::VecNew,
            TypedModVec::VecNewFromLinearMemory(..) => HostFn::VecNewFromLinearMemory,
            TypedModVec::VecPopBack(..) => HostFn::VecPopBack,
            TypedModVec::VecPopFront(..) => HostFn::VecPopFront,
            TypedModVec::VecPushBack(..) => HostFn::VecPushBack,
            TypedModVec::VecPushFront(..) => HostFn::VecPushFront,
            TypedModVec::VecPut(..) => HostFn::VecPut,
            TypedModVec::VecSlice(..) => HostFn::VecSlice,
            TypedModVec::VecUnpackToLinearMemory(..) => HostFn::VecUnpackToLinearMemory,
        }
    }

    /// The instruction's operands, in slot order.
    pub open spec fn operands(self) -> Seq<Operand> {
        match self {
            TypedModVec::VecAppend(a0, a1) => seq![Operand::Shaped(Shape::VecObject, FakeVal(a0.spec_word())), Operand::Shaped(Shape::VecObject, FakeVal(a1.spec_word()))],
            TypedModVec::VecBack(a0) => seq![Operand::Shaped(Shape::VecObject, FakeVal(a0.spec_word()))],
            TypedModVec::VecBinarySearch(a0, a1) => seq![Operand::Shaped(Shape::VecObject, FakeVal(a0.spec_word())), Operand::Word(a1)],
            TypedModVec::VecDel(a0, a1) => seq![Operand::Shaped(Shape::VecObject, FakeVal(a0.spec_word())), Operand::U32(a1)],
            TypedModVec::VecFirstIndexOf(a0, a1) => seq![Operand::Shaped(Shape::VecObject, FakeVal(a0.spec_word())), Operand::Word(a1)],
            TypedModVec::VecFront(a0) => seq![Operand::Shaped(Shape::VecObject, FakeVal(a0.spec_word()))],
            TypedModVec::VecGet(a0, a1) => seq![Operand::Shaped(Shape::VecObject, FakeVal(a0.spec_word())), Operand::U32(a1)],
            TypedModVec::VecInsert(a0, a1, a2) => seq![Operand::Shaped(Shape::VecObject, FakeVal(a0.spec_word())), Operand::U32(a1), Operand::Word(a2)],
            TypedModVec::VecLastIndexOf(a0, a1) => seq![Operand::Shaped(Shape::VecObject, FakeVal(a0.spec_word())), Operand::Word(a1)],
            TypedModVec::VecLen(a0) => seq![Operand::Shaped(Shape::VecObject, FakeVal(a0.spec_word()))],
            TypedModVec::VecNew => seq![],
            TypedModVec::VecNewFromLinearMemory(a0, a1) => seq![Operand::U32(a0), Operand::U32(a1)],
            TypedModVec::VecPopBack(a0) => seq![Operand::Shaped(Shape::VecObject, FakeVal(a0.spec_word()))],
            TypedModVec::VecPopFront(a0) => seq![Operand::Shaped(Shape::VecObject, FakeVal(a0.spec_word()))],
            TypedModVec::VecPushBack(a0, a1) => seq![Operand::Shaped(Shape::VecObject, FakeVal(a0.spec_word())), Operand::Word(a1)],
            TypedModVec::VecPushFront(a0, a1) => seq![Operand::Shaped(Shape::VecObject, FakeVal(a0.spec_word())), Operand::Word(a1)],
            TypedModVec::VecPut(a0, a1, a2) => seq![Operand::Shaped(Shape::VecObject, FakeVal(a0.spec_word())), Operand::U32(a1), Operand::Word(a2)],
            TypedModVec::VecSlice(a0, a1, a2) => seq![Operand::Shaped(Shape::VecObject, FakeVal(a0.spec_word())), Operand::U32(a1), Operand::U32(a2)],
            TypedModVec::VecUnpackToLinearMemory(a0, a1, a2) => seq![Operand::Shaped(Shape::VecObject, FakeVal(a0.spec_word())), Operand::U32(a1), Operand::U32(a2)],
        }
    }

    /// The instruction of this module that calls `f` with the operands
    /// `ops`, if `f` is in this module and `ops` fit its parameters.
    pub open spec fn spec_from_parts(f: HostFn, ops: Seq<Operand>) -> Option<TypedModVec> {
        if !(typed_conforms(f.params(), ops) && tags_agree(ops)) {
            None
        } else {
            match f {
                HostFn::VecAppend => Some(TypedModVec::VecAppend(VecObj::spec_new(ops[0].word_part().0), VecObj::spec_new(ops[1].word_part().0))),
                HostFn::VecBack => Some(TypedModVec::VecBack(VecObj::spec_new(ops[0].word_part().0))),
                HostFn::VecBinarySearch => Some(TypedModVec::VecBinarySearch(VecObj::spec_new(ops[0].word_part().0), ops[1].word_part())),
                HostFn::VecDel => Some(TypedModVec::VecDel(VecObj::spec_new(ops[0].word_part().0), ops[1].u32_part())),
                HostFn::VecFirstIndexOf => Some(TypedModVec::VecFirstIndexOf(VecObj::spec_new(ops[0].word_part().0), ops[1].word_part())),
                HostFn::VecFront => Some(TypedModVec::VecFront(VecObj::spec_new(ops[0].word_part().0))),
                HostFn::VecGet => Some(TypedModVec::VecGet(VecObj::spec_new(ops[0].word_part().0), ops[1].u32_part())),
                HostFn::VecInsert => Some(TypedModVec::VecInsert(VecObj::spec_new(ops[0].word_part().0), ops[1].u32_part(), ops[2].word_part())),
                HostFn::VecLastIndexOf => Some(TypedModVec::VecLastIndexOf(VecObj::spec_new(ops[0].word_part().0), ops[1].word_part())),
                HostFn::VecLen => Some(TypedModVec::VecLen(VecObj::spec_new(ops[0].word_part().0))),
                HostFn::VecNew => Some(TypedModVec::VecNew),
                HostFn::VecNewFromLinearMemory => Some(TypedModVec::VecNewFromLinearMemory(ops[0].u32_part(), ops[1].u32_part())),
                HostFn::VecPopBack => Some(TypedModVec::VecPopBack(VecObj::spec_new(ops[0].word_part().0))),
                HostFn::VecPopFront => Some(TypedModVec::VecPopFront(VecObj::spec_new(ops[0].word_part().0))),
                HostFn::VecPushBack => Some(TypedModVec::VecPushBack(VecObj::spec_new(ops[0].word_part().0), ops[1].word_part())),
                HostFn::VecPushFront => Some(TypedModVec::VecPushFront(VecObj::spec_new(ops[0].word_part().0), ops[1].word_part())),
                HostFn::VecPut => Some(TypedModVec::VecPut(VecObj::spec_new(ops[0].word_part().0), ops[1].u32_part(), ops[2].word_part())),
                HostFn::VecSlice => Some(TypedModVec::VecSlice(VecObj::spec_new(ops[0].word_part().0), ops[1].u32_part(), ops[2].u32_part())),
                HostFn::VecUnpackToLinearMemory => Some(TypedModVec::VecUnpackToLinearMemory(VecObj::spec_new(ops[0].word_part().0), ops[1].u32_part(), ops[2].u32_part())),
                _ => None,
            }
        }
    }

    /// The host function the instruction calls.
    pub fn host_fn(&self) -> (r: HostFn)
        ensures
            r == self.opcode(),
    {
        match self {
            TypedModVec::VecAppend(..) => HostFn::VecAppend,
            TypedModVec::VecBack(..) => HostFn::VecBack,
            TypedModVec::VecBinarySearch(..) => HostFn::VecBinarySearch,
            TypedModVec::VecDel(..) => HostFn::VecDel,
            TypedModVec::VecFirstIndexOf(..) => HostFn::VecFirstIndexOf,
            TypedModVec::VecFront(..) => HostFn::VecFront,
            TypedModVec::VecGet(..) => HostFn::VecGet,
            TypedModVec::VecInsert(..) => HostFn::VecInsert,
            TypedModVec::VecLastIndexOf(..) => HostFn::VecLastIndexOf,
            TypedModVec::VecLen(..) => HostFn::VecLen,
            TypedModVec::VecNew => HostFn::VecNew,
            TypedModVec::VecNewFromLinearMemory(..) => HostFn::VecNewFromLinearMemory,
            TypedModVec::VecPopBack(..) => HostFn::VecPopBack,
            TypedModVec::VecPopFront(..) => HostFn::VecPopFront,
            TypedModVec::VecPushBack(..) => HostFn::VecPushBack,
            TypedModVec::VecPushFront(..) => HostFn::VecPushFront,
            TypedModVec::VecPut(..) => HostFn::VecPut,
            TypedModVec::VecSlice(..) => HostFn::VecSlice,
            TypedModVec::VecUnpackToLinearMemory(..) => HostFn::VecUnpackToLinearMemory,
        }
    }

    /// The instruction's operands, in slot order.
    pub fn operand_list(&self) -> (r: Vec<Operand>)
        ensures
            r@ == self.operands(),
            tags_agree(r@),
    {
        let r = match self {
            TypedModVec::VecAppend(a0, a1) => vec![Operand::Shaped(Shape::VecObject, a0.word()), Operand::Shaped(Shape::VecObject, a1.word())],
            TypedModVec::VecBack(a0) => vec![Operand::Shaped(Shape::VecObject, a0.word())],
            TypedModVec::VecBinarySearch(a0, a1) => vec![Operand::Shaped(Shape::VecObject, a0.word()), Operand::Word(*a1)],
            TypedModVec::VecDel(a0, a1) => vec![Operand::Shaped(Shape::VecObject, a0.word()), Operand::U32(*a1)],
            TypedModVec::VecFirstIndexOf(a0, a1) => vec![Operand::Shaped(Shape::VecObject, a0.word()), Operand::Word(*a1)],
            TypedModVec::VecFront(a0) => vec![Operand::Shaped(Shape::VecObject, a0.word())],
            TypedModVec::VecGet(a0, a1) => vec![Operand::Shaped(Shape::VecObject, a0.word()), Operand::U32(*a1)],
            TypedModVec::VecInsert(a0, a1, a2) => vec![Operand::Shaped(Shape::VecObject, a0.word()), Operand::U32(*a1), Operand::Word(*a2)],
            TypedModVec::VecLastIndexOf(a0, a1) => vec![Operand::Shaped(Shape::VecObject, a0.word()), Operand::Word(*a1)],
            TypedModVec::VecLen(a0) => vec![Operand::Shaped(Shape::VecObject, a0.word())],
            TypedModVec::VecNew => vec![],
            TypedModVec::VecNewFromLinearMemory(a0, a1) => vec![Operand::U32(*a0), Operand::U32(*a1)],
            TypedModVec::VecPopBack(a0) => vec![Operand::Shaped(Shape::VecObject, a0.word())],
            TypedModVec::VecPopFront(a0) => vec![Operand::Shaped(Shape::VecObject, a0.word())],
            TypedModVec::VecPushBack(a0, a1) => vec![Operand::Shaped(Shape::VecObject, a0.word()), Operand::Word(*a1)],
            TypedModVec::VecPushFront(a0, a1) => vec![Operand::Shaped(Shape::VecObject, a0.word()), Operand::Word(*a1)],
            TypedModVec::VecPut(a0, a1, a2) => vec![Operand::Shaped(Shape::VecObject, a0.word()), Operand::U32(*a1), Operand::Word(*a2)],
            TypedModVec::VecSlice(a0, a1, a2) => vec![Operand::Shaped(Shape::VecObject, a0.word()), Operand::U32(*a1), Operand::U32(*a2)],
            TypedModVec::VecUnpackToLinearMemory(a0, a1, a2) => vec![Operand::Shaped(Shape::VecObject, a0.word()), Operand::U32(*a1), Operand::U32(*a2)],
        };
        assert(r@ =~= self.operands());
        r
    }

    /// The instruction of this module that calls `f` with the operands
    /// `ops`, if `f` is in this module and `ops` fit its parameters.
    pub fn from_parts(f: HostFn, ops: &Vec<Operand>) -> (r: Option<TypedModVec>)
        ensures
            r == Self::spec_from_parts(f, ops@),
    {
        if !conforms_typed(&f.param_list(), ops) {
            return None;
        }
        match f {
            HostFn::VecAppend => {
                assert(ops@[0].tag_agrees() && ops@[0].typed_fits(f.params()[0]));
                assert(ops@[1].tag_agrees() && ops@[1].typed_fits(f.params()[1]));
                Some(TypedModVec::VecAppend(VecObj::checked(ops[0].get_word()).unwrap(), VecObj::checked(ops[1].get_word()).unwrap()))
            },
            HostFn::VecBack => {
                assert(ops@[0].tag_agrees() && ops@[0].typed_fits(f.params()[0]));
                Some(TypedModVec::VecBack(VecObj::checked(ops[0].get_word()).unwrap()))
            },
            HostFn::VecBinarySearch => {
                assert(ops@[0].tag_agrees() && ops@[0].typed_fits(f.params()[0]));
                Some(TypedModVec::VecBinarySearch(VecObj::checked(ops[0].get_word()).unwrap(), ops[1].get_word()))
            },
            HostFn::VecDel => {
                assert(ops@[0].tag_agrees() && ops@[0].typed_fits(f.params()[0]));
                Some(TypedModVec::VecDel(VecObj::checked(ops[0].get_word()).unwrap(), ops[1].get_u32()))
            },
            HostFn::VecFirstIndexOf => {
                assert(ops@[0].tag_agrees() && ops@[0].typed_fits(f.params()[0]));
                Some(TypedModVec::VecFirstIndexOf(VecObj::checked(ops[0].get_word()).unwrap(), ops[1].get_word()))
            },
            HostFn::VecFront => {
                assert(ops@[0].tag_agrees() && ops@[0].typed_fits(f.params()[0]));
                Some(TypedModVec::VecFront(VecObj::checked(ops[0].get_word()).unwrap()))
            },
            HostFn::VecGet => {
                assert(ops@[0].tag_agrees() && ops@[0].typed_fits(f.params()[0]));
                Some(TypedModVec::VecGet(VecObj::checked(ops[0].get_word()).unwrap(), ops[1].get_u32()))
            },
            HostFn::VecInsert => {
                assert(ops@[0].tag_agrees() && ops@[0].typed_fits(f.params()[0]));
                Some(TypedModVec::VecInsert(VecObj::checked(ops[0].get_word()).unwrap(), ops[1].get_u32(), ops[2].get_word()))
            },
            HostFn::VecLastIndexOf => {
                assert(ops@[0].tag_agrees() && ops@[0].typed_fits(f.params()[0]));
                Some(TypedModVec::VecLastIndexOf(VecObj::checked(ops[0].get_word()).unwrap(), ops[1].get_word()))
            },
            HostFn::VecLen => {
                assert(ops@[0].tag_agrees() && ops@[0].typed_fits(f.params()[0]));
                Some(TypedModVec::VecLen(VecObj::checked(ops[0].get_word()).unwrap()))
            },
            HostFn::VecNew => Some(TypedModVec::VecNew),
            HostFn::VecNewFromLinearMemory => Some(TypedModVec::VecNewFromLinearMemory(ops[0].get_u32(), ops[1].get_u32())),
            HostFn::VecPopBack => {
                assert(ops@[0].tag_agrees() && ops@[0].typed_fits(f.params()[0]));
                Some(TypedModVec::VecPopBack(VecObj::checked(ops[0].get_word()).unwrap()))
            },
            HostFn::VecPopFront => {
                assert(ops@[0].tag_agrees() && ops@[0].typed_fits(f.params()[0]));
                Some(TypedModVec::VecPopFront(VecObj::checked(ops[0].get_word()).unwrap()))
            },
            HostFn::VecPushBack => {
                assert(ops@[0].tag_agrees() && ops@[0].typed_fits(f.params()[0]));
                Some(TypedModVec::VecPushBack(VecObj::checked(ops[0].get_word()).unwrap(), ops[1].get_word()))
            },
            HostFn::VecPushFront => {
                assert(ops@[0].tag_agrees() && ops@[0].typed_fits(f.params()[0]));
                Some(TypedModVec::VecPushFront(VecObj::checked(ops[0].get_word()).unwrap(), ops[1].get_word()))
            },
            HostFn::VecPut => {
                assert(ops@[0].tag_agrees() && ops@[0].typed_fits(f.params()[0]));
                Some(TypedModVec::VecPut(VecObj::checked(ops[0].get_word()).unwrap(), ops[1].get_u32(), ops[2].get_word()))
            },
            HostFn::VecSlice => {
                assert(ops@[0].tag_agrees() && ops@[0].typed_fits(f.params()[0]));
                Some(TypedModVec::VecSlice(VecObj::checked(ops[0].get_word()).unwrap(), ops[1].get_u32(), ops[2].get_u32()))
            },
            HostFn::VecUnpackToLinearMemory => {
                assert(ops@[0].tag_agrees() && ops@[0].typed_fits(f.params()[0]));
                Some(TypedModVec::VecUnpackToLinearMemory(VecObj::checked(ops[0].get_word()).unwrap(), ops[1].get_u32(), ops[2].get_u32()))
            },
            _ => None,
        }
    }
}

proof fn lemma_vec_inverse(m: TypedModVec)
    requires
        tags_agree(m.operands()),
    ensures
        m.opcode().module() == Module::Vec,
        typed_conforms(m.opcode().params(), m.operands()),
        TypedModVec::spec_from_parts(m.opcode(), m.operands()) == Some(m),
{
}

proof fn lemma_vec_realizes(f: HostFn, ops: Seq<Operand>)
    requires
        f.module() == Module::Vec,
        typed_conforms(f.params(), ops),
        tags_agree(ops),
    ensures
        TypedModVec::spec_from_parts(f, ops) matches Some(m) && m.opcode() == f && m.operands() == ops,
{
    if ops.len() > 0 {
        assert(ops[0].typed_fits(f.params()[0]));
        assert(ops[0].tag_agrees());
    }
    if ops.len() > 1 {
        assert(ops[1].typed_fits(f.params()[1]));
        assert(ops[1].tag_agrees());
    }
    if ops.len() > 2 {
        assert(ops[2].typed_fits(f.params()[2]));
        assert(ops[2].tag_agrees());
    }
    assert(TypedModVec::spec_from_parts(f, ops).unwrap().operands() =~= ops);
}

/// Every typed instruction calls a host function of its own module, with
/// one operand per parameter, each of the declared type; `Test` calls the
/// no-op `dummy0` with none.
pub proof fn lemma_typed_matches_surface(i: TypedFuzzInstruction)
    requires
        tags_agree(i.operands()),
    ensures
        i is Test <==> i.opcode() == HostFn::Dummy0,
        i.opcode().module() == i.module(),
        typed_conforms(i.opcode().params(), i.operands()),
        TypedFuzzInstruction::spec_from_parts(i.opcode(), i.operands()) == Some(i),
{
    match i {
        TypedFuzzInstruction::Address(m) => lemma_address_inverse(m),
        TypedFuzzInstruction::Buf(m) => lemma_buf_inverse(m),
        TypedFuzzInstruction::Call(m) => lemma_call_inverse(m),
        TypedFuzzInstruction::Context(m) => lemma_context_inverse(m),
        TypedFuzzInstruction::Crypto(m) => lemma_crypto_inverse(m),
        TypedFuzzInstruction::Int(m) => lemma_int_inverse(m),
        TypedFuzzInstruction::Ledger(m) => lemma_ledger_inverse(m),
        TypedFuzzInstruction::Maps(m) => lemma_map_inverse(m),
        TypedFuzzInstruction::Prng(m) => lemma_prng_inverse(m),
        TypedFuzzInstruction::Vec(m) => lemma_vec_inverse(m),
        TypedFuzzInstruction::Test => {},
    }
}

/// Two typed instructions that call the same host function with the same
/// operands are the same instruction: no host function has two variants.
pub proof fn lemma_typed_unique(i: TypedFuzzInstruction, j: TypedFuzzInstruction)
    requires
        i.opcode() == j.opcode(),
        i.operands() == j.operands(),
        tags_agree(i.operands()),
    ensures
        i == j,
{
    lemma_typed_matches_surface(i);
    lemma_typed_matches_surface(j);
}

/// Every host function of the surface has a typed instruction, for every
/// operand list that fits its parameters and whose shaped words carry their
/// shapes: the instruction calls that
/// function with exactly those operands.
pub proof fn lemma_typed_exists(f: HostFn, ops: Seq<Operand>)
    requires
        typed_conforms(f.params(), ops),
        tags_agree(ops),
    ensures
        TypedFuzzInstruction::spec_from_parts(f, ops) matches Some(i) && i.opcode() == f && i.operands() == ops,
{
    match f.module() {
        Module::Address => lemma_address_realizes(f, ops),
        Module::Buf => lemma_buf_realizes(f, ops),
        Module::Call => lemma_call_realizes(f, ops),
        Module::Context => lemma_context_realizes(f, ops),
        Module::Crypto => lemma_crypto_realizes(f, ops),
        Module::Int => lemma_int_realizes(f, ops),
        Module::Ledger => lemma_ledger_realizes(f, ops),
        Module::Maps => lemma_map_realizes(f, ops),
        Module::Prng => lemma_prng_realizes(f, ops),
        Module::Vec => lemma_vec_realizes(f, ops),
        Module::Test => {
            assert(f == HostFn::Dummy0);
            assert(ops =~= Seq::<Operand>::empty());
        },
    }
}

/// No typed instruction calls a host function with operands that do not fit
/// its parameters or whose shaped words lack their shapes.
pub proof fn lemma_typed_refuses(f: HostFn, ops: Seq<Operand>)
    requires
        !(typed_conforms(f.params(), ops) && tags_agree(ops)),
    ensures
        TypedFuzzInstruction::spec_from_parts(f, ops) is None,
{
}

} // verus!
