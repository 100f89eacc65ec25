//! The host function surface that the instruction catalogue mirrors: one
//! entry per host function, with its module, its name and its parameter
//! list in declaration order.

use crate::shape::Shape;
use vstd::prelude::*;

verus! {

/// The ledger protocol of the host interface whose functions are listed
/// here (its protocol-gated dummy, closed at this protocol, is left out).
pub const SURFACE_PROTOCOL: u32 = 23;

/// The number of host functions in the catalogue.
pub const HOST_FN_COUNT: u32 = 165;

/// The modules into which the host functions are grouped.
#[derive(Clone, Copy, Debug, PartialEq, Eq, Structural)]
pub enum Module {
    Address,
    Buf,
    Call,
    Context,
    Crypto,
    Int,
    Ledger,
    Maps,
    Prng,
    Vec,
    Test,
}

/// The declared type of one host function parameter.
#[derive(Clone, Copy, Debug, PartialEq, Eq, Structural)]
pub enum Param {
    /// Any value word.
    Any,
    /// A 32-bit unsigned number, passed as a word with the `U32Val` tag.
    U32Val,
    /// A native 64-bit unsigned number.
    U64,
    /// A native 64-bit signed number.
    I64,
    /// A storage duration, passed as its code.
    StorageType,
    /// A value word of the given shape.
    Shaped(Shape),
}

/// One host function of the surface.
#[derive(Clone, Copy, Debug, PartialEq, Eq, Structural)]
pub enum HostFn {
    AddressToStrkey,
    AuthorizeAsCurrContract,
    GetAddressExecutable,
    GetAddressFromMuxedAddress,
    GetIdFromMuxedAddress,
    RequireAuth,
    RequireAuthForArgs,
    StrkeyToAddress,
    BytesAppend,
    BytesBack,
    BytesCopyFromLinearMemory,
    BytesCopyToLinearMemory,
    BytesDel,
    BytesFront,
    BytesGet,
    BytesInsert,
    BytesLen,
    BytesNew,
    BytesNewFromLinearMemory,
    BytesPop,
    BytesPush,
    BytesPut,
    BytesSlice,
    BytesToString,
    DeserializeFromBytes,
    SerializeToBytes,
    StringCopyToLinearMemory,
    StringLen,
    StringNewFromLinearMemory,
    StringToBytes,
    SymbolCopyToLinearMemory,
    SymbolIndexInLinearMemory,
    SymbolLen,
    SymbolNewFromLinearMemory,
    Call,
    TryCall,
    ContractEvent,
    FailWithError,
    GetCurrentContractAddress,
    GetLedgerNetworkId,
    GetLedgerSequence,
    GetLedgerTimestamp,
    GetLedgerVersion,
    GetMaxLiveUntilLedger,
    LogFromLinearMemory,
    ObjCmp,
    Bls12381CheckG1IsInSubgroup,
    Bls12381CheckG2IsInSubgroup,
    Bls12381FrAdd,
    Bls12381FrInv,
    Bls12381FrMul,
    Bls12381FrPow,
    Bls12381FrSub,
    Bls12381G1Add,
    Bls12381G1Msm,
    Bls12381G1Mul,
    Bls12381G2Add,
    Bls12381G2Msm,
    Bls12381G2Mul,
    Bls12381HashToG1,
    Bls12381HashToG2,
    Bls12381MapFp2ToG2,
    Bls12381MapFpToG1,
    Bls12381MultiPairingCheck,
    ComputeHashKeccak256,
    ComputeHashSha256,
    RecoverKeyEcdsaSecp256k1,
    VerifySigEcdsaSecp256r1,
    VerifySigEd25519,
    DurationObjFromU64,
    DurationObjToU64,
    I256Add,
    I256Div,
    I256Mul,
    I256Pow,
    I256RemEuclid,
    I256Shl,
    I256Shr,
    I256Sub,
    I256ValFromBeBytes,
    I256ValToBeBytes,
    ObjFromI128Pieces,
    ObjFromI256Pieces,
    ObjFromI64,
    ObjFromU128Pieces,
    ObjFromU256Pieces,
    ObjFromU64,
    ObjToI128Hi64,
    ObjToI128Lo64,
    ObjToI256HiHi,
    ObjToI256HiLo,
    ObjToI256LoHi,
    ObjToI256LoLo,
    ObjToI64,
    ObjToU128Hi64,
    ObjToU128Lo64,
    ObjToU256HiHi,
    ObjToU256HiLo,
    ObjToU256LoHi,
    ObjToU256LoLo,
    ObjToU64,
    TimepointObjFromU64,
    TimepointObjToU64,
    U256Add,
    U256Div,
    U256Mul,
    U256Pow,
    U256RemEuclid,
    U256Shl,
    U256Shr,
    U256Sub,
    U256ValFromBeBytes,
    U256ValToBeBytes,
    CreateAssetContract,
    CreateContract,
    CreateContractWithConstructor,
    DelContractData,
    ExtendContractCodeTtl,
    ExtendContractDataTtl,
    ExtendContractInstanceAndCodeTtl,
    ExtendContractInstanceTtl,
    ExtendCurrentContractInstanceAndCodeTtl,
    GetAssetContractId,
    GetContractData,
    GetContractId,
    HasContractData,
    PutContractData,
    UpdateCurrentContractWasm,
    UploadWasm,
    MapDel,
    MapGet,
    MapHas,
    MapKeyByPos,
    MapKeys,
    MapLen,
    MapNew,
    MapNewFromLinearMemory,
    MapPut,
    MapUnpackToLinearMemory,
    MapValByPos,
    MapValues,
    PrngBytesNew,
    PrngReseed,
    PrngU64InInclusiveRange,
    PrngVecShuffle,
    VecAppend,
    VecBack,
    VecBinarySearch,
    VecDel,
    VecFirstIndexOf,
    VecFront,
    VecGet,
    VecInsert,
    VecLastIndexOf,
    VecLen,
    VecNew,
    VecNewFromLinearMemory,
    VecPopBack,
    VecPopFront,
    VecPushBack,
    VecPushFront,
    VecPut,
    VecSlice,
    VecUnpackToLinearMemory,
    Dummy0,
}

impl HostFn {
    /// The module the function belongs to.
    pub open spec fn module(self) -> Module {
        match self {
            HostFn::AddressToStrkey => Module::Address,
            HostFn::AuthorizeAsCurrContract => Module::Address,
            HostFn::GetAddressExecutable => Module::Address,
            HostFn::GetAddressFromMuxedAddress => Module::Address,
            HostFn::GetIdFromMuxedAddress => Module::Address,
            HostFn::RequireAuth => Module::Address,
            HostFn::RequireAuthForArgs => Module::Address,
            HostFn::StrkeyToAddress => Module::Address,
            HostFn::BytesAppend => Module::Buf,
            HostFn::BytesBack => Module::Buf,
            HostFn::BytesCopyFromLinearMemory => Module::Buf,
            HostFn::BytesCopyToLinearMemory => Module::Buf,
            HostFn::BytesDel => Module::Buf,
            HostFn::BytesFront => Module::Buf,
            HostFn::BytesGet => Module::Buf,
            HostFn::BytesInsert => Module::Buf,
            HostFn::BytesLen => Module::Buf,
            HostFn::BytesNew => Module::Buf,
            HostFn::BytesNewFromLinearMemory => Module::Buf,
            HostFn::BytesPop => Module::Buf,
            HostFn::BytesPush => Module::Buf,
            HostFn::BytesPut => Module::Buf,
            HostFn::BytesSlice => Module::Buf,
            HostFn::BytesToString => Module::Buf,
            HostFn::DeserializeFromBytes => Module::Buf,
            HostFn::SerializeToBytes => Module::Buf,
            HostFn::StringCopyToLinearMemory => Module::Buf,
            HostFn::StringLen => Module::Buf,
            HostFn::StringNewFromLinearMemory => Module::Buf,
            HostFn::StringToBytes => Module::Buf,
            HostFn::SymbolCopyToLinearMemory => Module::Buf,
            HostFn::SymbolIndexInLinearMemory => Module::Buf,
            HostFn::SymbolLen => Module::Buf,
            HostFn::SymbolNewFromLinearMemory => Module::Buf,
            HostFn::Call => Module::Call,
            HostFn::TryCall => Module::Call,
            HostFn::ContractEvent => Module::Context,
            HostFn::FailWithError => Module::Context,
            HostFn::GetCurrentContractAddress => Module::Context,
            HostFn::GetLedgerNetworkId => Module::Context,
            HostFn::GetLedgerSequence => Module::Context,
            HostFn::GetLedgerTimestamp => Module::Context,
            HostFn::GetLedgerVersion => Module::Context,
            HostFn::GetMaxLiveUntilLedger => Module::Context,
            HostFn::LogFromLinearMemory => Module::Context,
            HostFn::ObjCmp => Module::Context,
            HostFn::Bls12381CheckG1IsInSubgroup => Module::Crypto,
            HostFn::Bls12381CheckG2IsInSubgroup => Module::Crypto,
            HostFn::Bls12381FrAdd => Module::Crypto,
            HostFn::Bls12381FrInv => Module::Crypto,
            HostFn::Bls12381FrMul => Module::Crypto,
            HostFn::Bls12381FrPow => Module::Crypto,
            HostFn::Bls12381FrSub => Module::Crypto,
            HostFn::Bls12381G1Add => Module::Crypto,
            HostFn::Bls12381G1Msm => Module::Crypto,
            HostFn::Bls12381G1Mul => Module::Crypto,
            HostFn::Bls12381G2Add => Module::Crypto,
            HostFn::Bls12381G2Msm => Module::Crypto,
            HostFn::Bls12381G2Mul => Module::Crypto,
            HostFn::Bls12381HashToG1 => Module::Crypto,
            HostFn::Bls12381HashToG2 => Module::Crypto,
            HostFn::Bls12381MapFp2ToG2 => Module::Crypto,
            HostFn::Bls12381MapFpToG1 => Module::Crypto,
            HostFn::Bls12381MultiPairingCheck => Module::Crypto,
            HostFn::ComputeHashKeccak256 => Module::Crypto,
            HostFn::ComputeHashSha256 => Module::Crypto,
            HostFn::RecoverKeyEcdsaSecp256k1 => Module::Crypto,
            HostFn::VerifySigEcdsaSecp256r1 => Module::Crypto,
            HostFn::VerifySigEd25519 => Module::Crypto,
            HostFn::DurationObjFromU64 => Module::Int,
            HostFn::DurationObjToU64 => Module::Int,
            HostFn::I256Add => Module::Int,
            HostFn::I256Div => Module::Int,
            HostFn::I256Mul => Module::Int,
            HostFn::I256Pow => Module::Int,
            HostFn::I256RemEuclid => Module::Int,
            HostFn::I256Shl => Module::Int,
            HostFn::I256Shr => Module::Int,
            HostFn::I256Sub => Module::Int,
            HostFn::I256ValFromBeBytes => Module::Int,
            HostFn::I256ValToBeBytes => Module::Int,
            HostFn::ObjFromI128Pieces => Module::Int,
            HostFn::ObjFromI256Pieces => Module::Int,
            HostFn::ObjFromI64 => Module::Int,
            HostFn::ObjFromU128Pieces => Module::Int,
            HostFn::ObjFromU256Pieces => Module::Int,
            HostFn::ObjFromU64 => Module::Int,
            HostFn::ObjToI128Hi64 => Module::Int,
            HostFn::ObjToI128Lo64 => Module::Int,
            HostFn::ObjToI256HiHi => Module::Int,
            HostFn::ObjToI256HiLo => Module::Int,
            HostFn::ObjToI256LoHi => Module::Int,
            HostFn::ObjToI256LoLo => Module::Int,
            HostFn::ObjToI64 => Module::Int,
            HostFn::ObjToU128Hi64 => Module::Int,
            HostFn::ObjToU128Lo64 => Module::Int,
            HostFn::ObjToU256HiHi => Module::Int,
            HostFn::ObjToU256HiLo => Module::Int,
            HostFn::ObjToU256LoHi => Module::Int,
            HostFn::ObjToU256LoLo => Module::Int,
            HostFn::ObjToU64 => Module::Int,
            HostFn::TimepointObjFromU64 => Module::Int,
            HostFn::TimepointObjToU64 => Module::Int,
            HostFn::U256Add => Module::Int,
            HostFn::U256Div => Module::Int,
            HostFn::U256Mul => Module::Int,
            HostFn::U256Pow => Module::Int,
            HostFn::U256RemEuclid => Module::Int,
            HostFn::U256Shl => Module::Int,
            HostFn::U256Shr => Module::Int,
            HostFn::U256Sub => Module::Int,
            HostFn::U256ValFromBeBytes => Module::Int,
            HostFn::U256ValToBeBytes => Module::Int,
            HostFn::CreateAssetContract => Module::Ledger,
            HostFn::CreateContract => Module::Ledger,
            HostFn::CreateContractWithConstructor => Module::Ledger,
            HostFn::DelContractData => Module::Ledger,
            HostFn::ExtendContractCodeTtl => Module::Ledger,
            HostFn::ExtendContractDataTtl => Module::Ledger,
            HostFn::ExtendContractInstanceAndCodeTtl => Module::Ledger,
            HostFn::ExtendContractInstanceTtl => Module::Ledger,
            HostFn::ExtendCurrentContractInstanceAndCodeTtl => Module::Ledger,
            HostFn::GetAssetContractId => Module::Ledger,
            HostFn::GetContractData => Module::Ledger,
            HostFn::GetContractId => Module::Ledger,
            HostFn::HasContractData => Module::Ledger,
            HostFn::PutContractData => Module::Ledger,
            HostFn::UpdateCurrentContractWasm => Module::Ledger,
            HostFn::UploadWasm => Module::Ledger,
            HostFn::MapDel => Module::Maps,
            HostFn::MapGet => Module::Maps,
            HostFn::MapHas => Module::Maps,
            HostFn::MapKeyByPos => Module::Maps,
            HostFn::MapKeys => Module::Maps,
            HostFn::MapLen => Module::Maps,
            HostFn::MapNew => Module::Maps,
            HostFn::MapNewFromLinearMemory => Module::Maps,
            HostFn::MapPut => Module::Maps,
            HostFn::MapUnpackToLinearMemory => Module::Maps,
            HostFn::MapValByPos => Module::Maps,
            HostFn::MapValues => Module::Maps,
            HostFn::PrngBytesNew => Module::Prng,
            HostFn::PrngReseed => Module::Prng,
            HostFn::PrngU64InInclusiveRange => Module::Prng,
            HostFn::PrngVecShuffle => Module::Prng,
            HostFn::VecAppend => Module::Vec,
            HostFn::VecBack => Module::Vec,
            HostFn::VecBinarySearch => Module::Vec,
            HostFn::VecDel => Module::Vec,
            HostFn::VecFirstIndexOf => Module::Vec,
            HostFn::VecFront => Module::Vec,
            HostFn::VecGet => Module::Vec,
            HostFn::VecInsert => Module::Vec,
            HostFn::VecLastIndexOf => Module::Vec,
            HostFn::VecLen => Module::Vec,
            HostFn::VecNew => Module::Vec,
            HostFn::VecNewFromLinearMemory => Module::Vec,
            HostFn::VecPopBack => Module::Vec,
            HostFn::VecPopFront => Module::Vec,
            HostFn::VecPushBack => Module::Vec,
            HostFn::VecPushFront => Module::Vec,
            HostFn::VecPut => Module::Vec,
            HostFn::VecSlice => Module::Vec,
            HostFn::VecUnpackToLinearMemory => Module::Vec,
            HostFn::Dummy0 => Module::Test,
        }
    }

    /// The function's parameter types, in declaration order.
    pub open spec fn params(self) -> Seq<Param> {
        match self {
            HostFn::AddressToStrkey => seq![Param::Shaped(Shape::AddressObject)],
            HostFn::AuthorizeAsCurrContract => seq![Param::Shaped(Shape::VecObject)],
            HostFn::GetAddressExecutable => seq![Param::Shaped(Shape::AddressObject)],
            HostFn::GetAddressFromMuxedAddress => seq![Param::Shaped(Shape::MuxedAddressObject)],
            HostFn::GetIdFromMuxedAddress => seq![Param::Shaped(Shape::MuxedAddressObject)],
            HostFn::RequireAuth => seq![Param::Shaped(Shape::AddressObject)],
            HostFn::RequireAuthForArgs => seq![Param::Shaped(Shape::AddressObject), Param::Shaped(Shape::VecObject)],
            HostFn::StrkeyToAddress => seq![Param::Any],
            HostFn::BytesAppend => seq![Param::Shaped(Shape::BytesObject), Param::Shaped(Shape::BytesObject)],
            HostFn::BytesBack => seq![Param::Shaped(Shape::BytesObject)],
            HostFn::BytesCopyFromLinearMemory => seq![Param::Shaped(Shape::BytesObject), Param::U32Val, Param::U32Val, Param::U32Val],
            HostFn::BytesCopyToLinearMemory => seq![Param::Shaped(Shape::BytesObject), Param::U32Val, Param::U32Val, Param::U32Val],
            HostFn::BytesDel => seq![Param::Shaped(Shape::BytesObject), Param::U32Val],
            HostFn::BytesFront => seq![Param::Shaped(Shape::BytesObject)],
            HostFn::BytesGet => seq![Param::Shaped(Shape::BytesObject), Param::U32Val],
            HostFn::BytesInsert => seq![Param::Shaped(Shape::BytesObject), Param::U32Val, Param::U32Val],
            HostFn::BytesLen => seq![Param::Shaped(Shape::BytesObject)],
            HostFn::BytesNew => seq![],
            HostFn::BytesNewFromLinearMemory => seq![Param::U32Val, Param::U32Val],
            HostFn::BytesPop => seq![Param::Shaped(Shape::BytesObject)],
            HostFn::BytesPush => seq![Param::Shaped(Shape::BytesObject), Param::U32Val],
            HostFn::BytesPut => seq![Param::Shaped(Shape::BytesObject), Param::U32Val, Param::U32Val],
            HostFn::BytesSlice => seq![Param::Shaped(Shape::BytesObject), Param::U32Val, Param::U32Val],
            HostFn::BytesToString => seq![Param::Shaped(Shape::BytesObject)],
            HostFn::DeserializeFromBytes => seq![Param::Shaped(Shape::BytesObject)],
            HostFn::SerializeToBytes => seq![Param::Any],
            HostFn::StringCopyToLinearMemory => seq![Param::Shaped(Shape::StringObject), Param::U32Val, Param::U32Val, Param::U32Val],
            HostFn::StringLen => seq![Param::Shaped(Shape::StringObject)],
            HostFn::StringNewFromLinearMemory => seq![Param::U32Val, Param::U32Val],
            HostFn::StringToBytes => seq![Param::Shaped(Shape::StringObject)],
            HostFn::SymbolCopyToLinearMemory => seq![Param::Shaped(Shape::SymbolObject), Param::U32Val, Param::U32Val, Param::U32Val],
            HostFn::SymbolIndexInLinearMemory => seq![Param::Shaped(Shape::Symbol), Param::U32Val, Param::U32Val],
            HostFn::SymbolLen => seq![Param::Shaped(Shape::SymbolObject)],
            HostFn::SymbolNewFromLinearMemory => seq![Param::U32Val, Param::U32Val],
            HostFn::Call => seq![Param::Shaped(Shape::AddressObject), Param::Shaped(Shape::Symbol), Param::Shaped(Shape::VecObject)],
            HostFn::TryCall => seq![Param::Shaped(Shape::AddressObject), Param::Shaped(Shape::Symbol), Param::Shaped(Shape::VecObject)],
            HostFn::ContractEvent => seq![Param::Shaped(Shape::VecObject), Param::Any],
            HostFn::FailWithError => seq![Param::Shaped(Shape::Error)],
            HostFn::GetCurrentContractAddress => seq![],
            HostFn::GetLedgerNetworkId => seq![],
            HostFn::GetLedgerSequence => seq![],
            HostFn::GetLedgerTimestamp => seq![],
            HostFn::GetLedgerVersion => seq![],
            HostFn::GetMaxLiveUntilLedger => seq![],
            HostFn::LogFromLinearMemory => seq![Param::U32Val, Param::U32Val, Param::U32Val, Param::U32Val],
            HostFn::ObjCmp => seq![Param::Any, Param::Any],
            HostFn::Bls12381CheckG1IsInSubgroup => seq![Param::Shaped(Shape::BytesObject)],
            HostFn::Bls12381CheckG2IsInSubgroup => seq![Param::Shaped(Shape::BytesObject)],
            HostFn::Bls12381FrAdd => seq![Param::Shaped(Shape::U256Val), Param::Shaped(Shape::U256Val)],
            HostFn::Bls12381FrInv => seq![Param::Shaped(Shape::U256Val)],
            HostFn::Bls12381FrMul => seq![Param::Shaped(Shape::U256Val), Param::Shaped(Shape::U256Val)],
            HostFn::Bls12381FrPow => seq![Param::Shaped(Shape::U256Val), Param::Shaped(Shape::U64Val)],
            HostFn::Bls12381FrSub => seq![Param::Shaped(Shape::U256Val), Param::Shaped(Shape::U256Val)],
            HostFn::Bls12381G1Add => seq![Param::Shaped(Shape::BytesObject), Param::Shaped(Shape::BytesObject)],
            HostFn::Bls12381G1Msm => seq![Param::Shaped(Shape::VecObject), Param::Shaped(Shape::VecObject)],
            HostFn::Bls12381G1Mul => seq![Param::Shaped(Shape::BytesObject), Param::Shaped(Shape::U256Val)],
            HostFn::Bls12381G2Add => seq![Param::Shaped(Shape::BytesObject), Param::Shaped(Shape::BytesObject)],
            HostFn::Bls12381G2Msm => seq![Param::Shaped(Shape::VecObject), Param::Shaped(Shape::VecObject)],
            HostFn::Bls12381G2Mul => seq![Param::Shaped(Shape::BytesObject), Param::Shaped(Shape::U256Val)],
            HostFn::Bls12381HashToG1 => seq![Param::Shaped(Shape::BytesObject), Param::Shaped(Shape::BytesObject)],
            HostFn::Bls12381HashToG2 => seq![Param::Shaped(Shape::BytesObject), Param::Shaped(Shape::BytesObject)],
            HostFn::Bls12381MapFp2ToG2 => seq![Param::Shaped(Shape::BytesObject)],
            HostFn::Bls12381MapFpToG1 => seq![Param::Shaped(Shape::BytesObject)],
            HostFn::Bls12381MultiPairingCheck => seq![Param::Shaped(Shape::VecObject), Param::Shaped(Shape::VecObject)],
            HostFn::ComputeHashKeccak256 => seq![Param::Shaped(Shape::BytesObject)],
            HostFn::ComputeHashSha256 => seq![Param::Shaped(Shape::BytesObject)],
            HostFn::RecoverKeyEcdsaSecp256k1 => seq![Param::Shaped(Shape::BytesObject), Param::Shaped(Shape::BytesObject), Param::U32Val],
            HostFn::VerifySigEcdsaSecp256r1 => seq![Param::Shaped(Shape::BytesObject), Param::Shaped(Shape::BytesObject), Param::Shaped(Shape::BytesObject)],
            HostFn::VerifySigEd25519 => seq![Param::Shaped(Shape::BytesObject), Param::Shaped(Shape::BytesObject), Param::Shaped(Shape::BytesObject)],
            HostFn::DurationObjFromU64 => seq![Param::U64],
            HostFn::DurationObjToU64 => seq![Param::Shaped(Shape::DurationObject)],
            HostFn::I256Add => seq![Param::Shaped(Shape::I256Val), Param::Shaped(Shape::I256Val)],
            HostFn::I256Div => seq![Param::Shaped(Shape::I256Val), Param::Shaped(Shape::I256Val)],
            HostFn::I256Mul => seq![Param::Shaped(Shape::I256Val), Param::Shaped(Shape::I256Val)],
            HostFn::I256Pow => seq![Param::Shaped(Shape::I256Val), Param::U32Val],
            HostFn::I256RemEuclid => seq![Param::Shaped(Shape::I256Val), Param::Shaped(Shape::I256Val)],
            HostFn::I256Shl => seq![Param::Shaped(Shape::I256Val), Param::U32Val],
            HostFn::I256Shr => seq![Param::Shaped(Shape::I256Val), Param::U32Val],
            HostFn::I256Sub => seq![Param::Shaped(Shape::I256Val), Param::Shaped(Shape::I256Val)],
            HostFn::I256ValFromBeBytes => seq![Param::Shaped(Shape::BytesObject)],
            HostFn::I256ValToBeBytes => seq![Param::Shaped(Shape::I256Val)],
            HostFn::ObjFromI128Pieces => seq![Param::I64, Param::U64],
            HostFn::ObjFromI256Pieces => seq![Param::I64, Param::U64, Param::U64, Param::U64],
            HostFn::ObjFromI64 => seq![Param::I64],
            HostFn::ObjFromU128Pieces => seq![Param::U64, Param::U64],
            HostFn::ObjFromU256Pieces => seq![Param::U64, Param::U64, Param::U64, Param::U64],
            HostFn::ObjFromU64 => seq![Param::U64],
            HostFn::ObjToI128Hi64 => seq![Param::Shaped(Shape::I128Object)],
            HostFn::ObjToI128Lo64 => seq![Param::Shaped(Shape::I128Object)],
            HostFn::ObjToI256HiHi => seq![Param::Shaped(Shape::I256Object)],
            HostFn::ObjToI256HiLo => seq![Param::Shaped(Shape::I256Object)],
            HostFn::ObjToI256LoHi => seq![Param::Shaped(Shape::I256Object)],
            HostFn::ObjToI256LoLo => seq![Param::Shaped(Shape::I256Object)],
            HostFn::ObjToI64 => seq![Param::Shaped(Shape::I64Object)],
            HostFn::ObjToU128Hi64 => seq![Param::Shaped(Shape::U128Object)],
            HostFn::ObjToU128Lo64 => seq![Param::Shaped(Shape::U128Object)],
            HostFn::ObjToU256HiHi => seq![Param::Shaped(Shape::U256Object)],
            HostFn::ObjToU256HiLo => seq![Param::Shaped(Shape::U256Object)],
            HostFn::ObjToU256LoHi => seq![Param::Shaped(Shape::U256Object)],
            HostFn::ObjToU256LoLo => seq![Param::Shaped(Shape::U256Object)],
            HostFn::ObjToU64 => seq![Param::Shaped(Shape::U64Object)],
            HostFn::TimepointObjFromU64 => seq![Param::U64],
            HostFn::TimepointObjToU64 => seq![Param::Shaped(Shape::TimepointObject)],
            HostFn::U256Add => seq![Param::Shaped(Shape::U256Val), Param::Shaped(Shape::U256Val)],
            HostFn::U256Div => seq![Param::Shaped(Shape::U256Val), Param::Shaped(Shape::U256Val)],
            HostFn::U256Mul => seq![Param::Shaped(Shape::U256Val), Param::Shaped(Shape::U256Val)],
            HostFn::U256Pow => seq![Param::Shaped(Shape::U256Val), Param::U32Val],
            HostFn::U256RemEuclid => seq![Param::Shaped(Shape::U256Val), Param::Shaped(Shape::U256Val)],
            HostFn::U256Shl => seq![Param::Shaped(Shape::U256Val), Param::U32Val],
            HostFn::U256Shr => seq![Param::Shaped(Shape::U256Val), Param::U32Val],
            HostFn::U256Sub => seq![Param::Shaped(Shape::U256Val), Param::Shaped(Shape::U256Val)],
            HostFn::U256ValFromBeBytes => seq![Param::Shaped(Shape::BytesObject)],
            HostFn::U256ValToBeBytes => seq![Param::Shaped(Shape::U256Val)],
            HostFn::CreateAssetContract => seq![Param::Shaped(Shape::BytesObject)],
            HostFn::CreateContract => seq![Param::Shaped(Shape::AddressObject), Param::Shaped(Shape::BytesObject), Param::Shaped(Shape::BytesObject)],
            HostFn::CreateContractWithConstructor => seq![Param::Shaped(Shape::AddressObject), Param::Shaped(Shape::BytesObject), Param::Shaped(Shape::BytesObject), Param::Shaped(Shape::VecObject)],
            HostFn::DelContractData => seq![Param::Any, Param::StorageType],
            HostFn::ExtendContractCodeTtl => seq![Param::Shaped(Shape::AddressObject), Param::U32Val, Param::U32Val],
            HostFn::ExtendContractDataTtl => seq![Param::Any, Param::StorageType, Param::U32Val, Param::U32Val],
            HostFn::ExtendContractInstanceAndCodeTtl => seq![Param::Shaped(Shape::AddressObject), Param::U32Val, Param::U32Val],
            HostFn::ExtendContractInstanceTtl => seq![Param::Shaped(Shape::AddressObject), Param::U32Val, Param::U32Val],
            HostFn::ExtendCurrentContractInstanceAndCodeTtl => seq![Param::U32Val, Param::U32Val],
            HostFn::GetAssetContractId => seq![Param::Shaped(Shape::BytesObject)],
            HostFn::GetContractData => seq![Param::Any, Param::StorageType],
            HostFn::GetContractId => seq![Param::Shaped(Shape::AddressObject), Param::Shaped(Shape::BytesObject)],
            HostFn::HasContractData => seq![Param::Any, Param::StorageType],
            HostFn::PutContractData => seq![Param::Any, Param::Any, Param::StorageType],
            HostFn::UpdateCurrentContractWasm => seq![Param::Shaped(Shape::BytesObject)],
            HostFn::UploadWasm => seq![Param::Shaped(Shape::BytesObject)],
            HostFn::MapDel => seq![Param::Shaped(Shape::MapObject), Param::Any],
            HostFn::MapGet => seq![Param::Shaped(Shape::MapObject), Param::Any],
            HostFn::MapHas => seq![Param::Shaped(Shape::MapObject), Param::Any],
            HostFn::MapKeyByPos => seq![Param::Shaped(Shape::MapObject), Param::U32Val],
            HostFn::MapKeys => seq![Param::Shaped(Shape::MapObject)],
            HostFn::MapLen => seq![Param::Shaped(Shape::MapObject)],
            HostFn::MapNew => seq![],
            HostFn::MapNewFromLinearMemory => seq![Param::U32Val, Param::U32Val, Param::U32Val],
            HostFn::MapPut => seq![Param::Shaped(Shape::MapObject), Param::Any, Param::Any],
            HostFn::MapUnpackToLinearMemory => seq![Param::Shaped(Shape::MapObject), Param::U32Val, Param::U32Val, Param::U32Val],
            HostFn::MapValByPos => seq![Param::Shaped(Shape::MapObject), Param::U32Val],
            HostFn::MapValues => seq![Param::Shaped(Shape::MapObject)],
            HostFn::PrngBytesNew => seq![Param::U32Val],
            HostFn::PrngReseed => seq![Param::Shaped(Shape::BytesObject)],
            HostFn::PrngU64InInclusiveRange => seq![Param::U64, Param::U64],
            HostFn::PrngVecShuffle => seq![Param::Shaped(Shape::VecObject)],
            HostFn::VecAppend => seq![Param::Shaped(Shape::VecObject), Param::Shaped(Shape::VecObject)],
            HostFn::VecBack => seq![Param::Shaped(Shape::VecObject)],
            HostFn::VecBinarySearch => seq![Param::Shaped(Shape::VecObject), Param::Any],
            HostFn::VecDel => seq![Param::Shaped(Shape::VecObject), Param::U32Val],
            HostFn::VecFirstIndexOf => seq![Param::Shaped(Shape::VecObject), Param::Any],
            HostFn::VecFront => seq![Param::Shaped(Shape::VecObject)],
            HostFn::VecGet => seq![Param::Shaped(Shape::VecObject), Param::U32Val],
            HostFn::VecInsert => seq![Param::Shaped(Shape::VecObject), Param::U32Val, Param::Any],
            HostFn::VecLastIndexOf => seq![Param::Shaped(Shape::VecObject), Param::Any],
            HostFn::VecLen => seq![Param::Shaped(Shape::VecObject)],
            HostFn::VecNew => seq![],
            HostFn::VecNewFromLinearMemory => seq![Param::U32Val, Param::U32Val],
            HostFn::VecPopBack => seq![Param::Shaped(Shape::VecObject)],
            HostFn::VecPopFront => seq![Param::Shaped(Shape::VecObject)],
            HostFn::VecPushBack => seq![Param::Shaped(Shape::VecObject), Param::Any],
            HostFn::VecPushFront => seq![Param::Shaped(Shape::VecObject), Param::Any],
            HostFn::VecPut => seq![Param::Shaped(Shape::VecObject), Param::U32Val, Param::Any],
            HostFn::VecSlice => seq![Param::Shaped(Shape::VecObject), Param::U32Val, Param::U32Val],
            HostFn::VecUnpackToLinearMemory => seq![Param::Shaped(Shape::VecObject), Param::U32Val, Param::U32Val],
            HostFn::Dummy0 => seq![],
        }
    }

    /// The function's name in the host interface.
    pub open spec fn spec_name(self) -> &'static str {
        match self {
            HostFn::AddressToStrkey => "address_to_strkey",
            HostFn::AuthorizeAsCurrContract => "authorize_as_curr_contract",
            HostFn::GetAddressExecutable => "get_address_executable",
            HostFn::GetAddressFromMuxedAddress => "get_address_from_muxed_address",
            HostFn::GetIdFromMuxedAddress => "get_id_from_muxed_address",
            HostFn::RequireAuth => "require_auth",
            HostFn::RequireAuthForArgs => "require_auth_for_args",
            HostFn::StrkeyToAddress => "strkey_to_address",
            HostFn::BytesAppend => "bytes_append",
            HostFn::BytesBack => "bytes_back",
            HostFn::BytesCopyFromLinearMemory => "bytes_copy_from_linear_memory",
            HostFn::BytesCopyToLinearMemory => "bytes_copy_to_linear_memory",
            HostFn::BytesDel => "bytes_del",
            HostFn::BytesFront => "bytes_front",
            HostFn::BytesGet => "bytes_get",
            HostFn::BytesInsert => "bytes_insert",
            HostFn::BytesLen => "bytes_len",
            HostFn::BytesNew => "bytes_new",
            HostFn::BytesNewFromLinearMemory => "bytes_new_from_linear_memory",
            HostFn::BytesPop => "bytes_pop",
            HostFn::BytesPush => "bytes_push",
            HostFn::BytesPut => "bytes_put",
            HostFn::BytesSlice => "bytes_slice",
            HostFn::BytesToString => "bytes_to_string",
            HostFn::DeserializeFromBytes => "deserialize_from_bytes",
            HostFn::SerializeToBytes => "serialize_to_bytes",
            HostFn::StringCopyToLinearMemory => "string_copy_to_linear_memory",
            HostFn::StringLen => "string_len",
            HostFn::StringNewFromLinearMemory => "string_new_from_linear_memory",
            HostFn::StringToBytes => "string_to_bytes",
            HostFn::SymbolCopyToLinearMemory => "symbol_copy_to_linear_memory",
            HostFn::SymbolIndexInLinearMemory => "symbol_index_in_linear_memory",
            HostFn::SymbolLen => "symbol_len",
            HostFn::SymbolNewFromLinearMemory => "symbol_new_from_linear_memory",
            HostFn::Call => "call",
            HostFn::TryCall => "try_call",
            HostFn::ContractEvent => "contract_event",
            HostFn::FailWithError => "fail_with_error",
            HostFn::GetCurrentContractAddress => "get_current_contract_address",
            HostFn::GetLedgerNetworkId => "get_ledger_network_id",
            HostFn::GetLedgerSequence => "get_ledger_sequence",
            HostFn::GetLedgerTimestamp => "get_ledger_timestamp",
            HostFn::GetLedgerVersion => "get_ledger_version",
            HostFn::GetMaxLiveUntilLedger => "get_max_live_until_ledger",
            HostFn::LogFromLinearMemory => "log_from_linear_memory",
            HostFn::ObjCmp => "obj_cmp",
            HostFn::Bls12381CheckG1IsInSubgroup => "bls12_381_check_g1_is_in_subgroup",
            HostFn::Bls12381CheckG2IsInSubgroup => "bls12_381_check_g2_is_in_subgroup",
            HostFn::Bls12381FrAdd => "bls12_381_fr_add",
            HostFn::Bls12381FrInv => "bls12_381_fr_inv",
            HostFn::Bls12381FrMul => "bls12_381_fr_mul",
            HostFn::Bls12381FrPow => "bls12_381_fr_pow",
            HostFn::Bls12381FrSub => "bls12_381_fr_sub",
            HostFn::Bls12381G1Add => "bls12_381_g1_add",
            HostFn::Bls12381G1Msm => "bls12_381_g1_msm",
            HostFn::Bls12381G1Mul => "bls12_381_g1_mul",
            HostFn::Bls12381G2Add => "bls12_381_g2_add",
            HostFn::Bls12381G2Msm => "bls12_381_g2_msm",
            HostFn::Bls12381G2Mul => "bls12_381_g2_mul",
            HostFn::Bls12381HashToG1 => "bls12_381_hash_to_g1",
            HostFn::Bls12381HashToG2 => "bls12_381_hash_to_g2",
            HostFn::Bls12381MapFp2ToG2 => "bls12_381_map_fp2_to_g2",
            HostFn::Bls12381MapFpToG1 => "bls12_381_map_fp_to_g1",
            HostFn::Bls12381MultiPairingCheck => "bls12_381_multi_pairing_check",
            HostFn::ComputeHashKeccak256 => "compute_hash_keccak256",
            HostFn::ComputeHashSha256 => "compute_hash_sha256",
            HostFn::RecoverKeyEcdsaSecp256k1 => "recover_key_ecdsa_secp256k1",
            HostFn::VerifySigEcdsaSecp256r1 => "verify_sig_ecdsa_secp256r1",
            HostFn::VerifySigEd25519 => "verify_sig_ed25519",
            HostFn::DurationObjFromU64 => "duration_obj_from_u64",
            HostFn::DurationObjToU64 => "duration_obj_to_u64",
            HostFn::I256Add => "i256_add",
            HostFn::I256Div => "i256_div",
            HostFn::I256Mul => "i256_mul",
            HostFn::I256Pow => "i256_pow",
            HostFn::I256RemEuclid => "i256_rem_euclid",
            HostFn::I256Shl => "i256_shl",
            HostFn::I256Shr => "i256_shr",
            HostFn::I256Sub => "i256_sub",
            HostFn::I256ValFromBeBytes => "i256_val_from_be_bytes",
            HostFn::I256ValToBeBytes => "i256_val_to_be_bytes",
            HostFn::ObjFromI128Pieces => "obj_from_i128_pieces",
            HostFn::ObjFromI256Pieces => "obj_from_i256_pieces",
            HostFn::ObjFromI64 => "obj_from_i64",
            HostFn::ObjFromU128Pieces => "obj_from_u128_pieces",
            HostFn::ObjFromU256Pieces => "obj_from_u256_pieces",
            HostFn::ObjFromU64 => "obj_from_u64",
            HostFn::ObjToI128Hi64 => "obj_to_i128_hi64",
            HostFn::ObjToI128Lo64 => "obj_to_i128_lo64",
            HostFn::ObjToI256HiHi => "obj_to_i256_hi_hi",
            HostFn::ObjToI256HiLo => "obj_to_i256_hi_lo",
            HostFn::ObjToI256LoHi => "obj_to_i256_lo_hi",
            HostFn::ObjToI256LoLo => "obj_to_i256_lo_lo",
            HostFn::ObjToI64 => "obj_to_i64",
            HostFn::ObjToU128Hi64 => "obj_to_u128_hi64",
            HostFn::ObjToU128Lo64 => "obj_to_u128_lo64",
            HostFn::ObjToU256HiHi => "obj_to_u256_hi_hi",
            HostFn::ObjToU256HiLo => "obj_to_u256_hi_lo",
            HostFn::ObjToU256LoHi => "obj_to_u256_lo_hi",
            HostFn::ObjToU256LoLo => "obj_to_u256_lo_lo",
            HostFn::ObjToU64 => "obj_to_u64",
            HostFn::TimepointObjFromU64 => "timepoint_obj_from_u64",
            HostFn::TimepointObjToU64 => "timepoint_obj_to_u64",
            HostFn::U256Add => "u256_add",
            HostFn::U256Div => "u256_div",
            HostFn::U256Mul => "u256_mul",
            HostFn::U256Pow => "u256_pow",
            HostFn::U256RemEuclid => "u256_rem_euclid",
            HostFn::U256Shl => "u256_shl",
            HostFn::U256Shr => "u256_shr",
            HostFn::U256Sub => "u256_sub",
            HostFn::U256ValFromBeBytes => "u256_val_from_be_bytes",
            HostFn::U256ValToBeBytes => "u256_val_to_be_bytes",
            HostFn::CreateAssetContract => "create_asset_contract",
            HostFn::CreateContract => "create_contract",
            HostFn::CreateContractWithConstructor => "create_contract_with_constructor",
            HostFn::DelContractData => "del_contract_data",
            HostFn::ExtendContractCodeTtl => "extend_contract_code_ttl",
            HostFn::ExtendContractDataTtl => "extend_contract_data_ttl",
            HostFn::ExtendContractInstanceAndCodeTtl => "extend_contract_instance_and_code_ttl",
            HostFn::ExtendContractInstanceTtl => "extend_contract_instance_ttl",
            HostFn::ExtendCurrentContractInstanceAndCodeTtl => "extend_current_contract_instance_and_code_ttl",
            HostFn::GetAssetContractId => "get_asset_contract_id",
            HostFn::GetContractData => "get_contract_data",
            HostFn::GetContractId => "get_contract_id",
            HostFn::HasContractData => "has_contract_data",
            HostFn::PutContractData => "put_contract_data",
            HostFn::UpdateCurrentContractWasm => "update_current_contract_wasm",
            HostFn::UploadWasm => "upload_wasm",
            HostFn::MapDel => "map_del",
            HostFn::MapGet => "map_get",
            HostFn::MapHas => "map_has",
            HostFn::MapKeyByPos => "map_key_by_pos",
            HostFn::MapKeys => "map_keys",
            HostFn::MapLen => "map_len",
            HostFn::MapNew => "map_new",
            HostFn::MapNewFromLinearMemory => "map_new_from_linear_memory",
            HostFn::MapPut => "map_put",
            HostFn::MapUnpackToLinearMemory => "map_unpack_to_linear_memory",
            HostFn::MapValByPos => "map_val_by_pos",
            HostFn::MapValues => "map_values",
            HostFn::PrngBytesNew => "prng_bytes_new",
            HostFn::PrngReseed => "prng_reseed",
            HostFn::PrngU64InInclusiveRange => "prng_u64_in_inclusive_range",
            HostFn::PrngVecShuffle => "prng_vec_shuffle",
            HostFn::VecAppend => "vec_append",
            HostFn::VecBack => "vec_back",
            HostFn::VecBinarySearch => "vec_binary_search",
            HostFn::VecDel => "vec_del",
            HostFn::VecFirstIndexOf => "vec_first_index_of",
            HostFn::VecFront => "vec_front",
            HostFn::VecGet => "vec_get",
            HostFn::VecInsert => "vec_insert",
            HostFn::VecLastIndexOf => "vec_last_index_of",
            HostFn::VecLen => "vec_len",
            HostFn::VecNew => "vec_new",
            HostFn::VecNewFromLinearMemory => "vec_new_from_linear_memory",
            HostFn::VecPopBack => "vec_pop_back",
            HostFn::VecPopFront => "vec_pop_front",
            HostFn::VecPushBack => "vec_push_back",
            HostFn::VecPushFront => "vec_push_front",
            HostFn::VecPut => "vec_put",
            HostFn::VecSlice => "vec_slice",
            HostFn::VecUnpackToLinearMemory => "vec_unpack_to_linear_memory",
            HostFn::Dummy0 => "dummy0",
        }
    }

    /// The module the function belongs to.
    pub fn module_of(&self) -> (r: Module)
        ensures
            r == self.module(),
    {
        match self {
            HostFn::AddressToStrkey => Module::Address,
            HostFn::AuthorizeAsCurrContract => Module::Address,
            HostFn::GetAddressExecutable => Module::Address,
            HostFn::GetAddressFromMuxedAddress => Module::Address,
            HostFn::GetIdFromMuxedAddress => Module::Address,
            HostFn::RequireAuth => Module::Address,
            HostFn::RequireAuthForArgs => Module::Address,
            HostFn::StrkeyToAddress => Module::Address,
            HostFn::BytesAppend => Module::Buf,
            HostFn::BytesBack => Module::Buf,
            HostFn::BytesCopyFromLinearMemory => Module::Buf,
            HostFn::BytesCopyToLinearMemory => Module::Buf,
            HostFn::BytesDel => Module::Buf,
            HostFn::BytesFront => Module::Buf,
            HostFn::BytesGet => Module::Buf,
            HostFn::BytesInsert => Module::Buf,
            HostFn::BytesLen => Module::Buf,
            HostFn::BytesNew => Module::Buf,
            HostFn::BytesNewFromLinearMemory => Module::Buf,
            HostFn::BytesPop => Module::Buf,
            HostFn::BytesPush => Module::Buf,
            HostFn::BytesPut => Module::Buf,
            HostFn::BytesSlice => Module::Buf,
            HostFn::BytesToString => Module::Buf,
            HostFn::DeserializeFromBytes => Module::Buf,
            HostFn::SerializeToBytes => Module::Buf,
            HostFn::StringCopyToLinearMemory => Module::Buf,
            HostFn::StringLen => Module::Buf,
            HostFn::StringNewFromLinearMemory => Module::Buf,
            HostFn::StringToBytes => Module::Buf,
            HostFn::SymbolCopyToLinearMemory => Module::Buf,
            HostFn::SymbolIndexInLinearMemory => Module::Buf,
            HostFn::SymbolLen => Module::Buf,
            HostFn::SymbolNewFromLinearMemory => Module::Buf,
            HostFn::Call => Module::Call,
            HostFn::TryCall => Module::Call,
            HostFn::ContractEvent => Module::Context,
            HostFn::FailWithError => Module::Context,
            HostFn::GetCurrentContractAddress => Module::Context,
            HostFn::GetLedgerNetworkId => Module::Context,
            HostFn::GetLedgerSequence => Module::Context,
            HostFn::GetLedgerTimestamp => Module::Context,
            HostFn::GetLedgerVersion => Module::Context,
            HostFn::GetMaxLiveUntilLedger => Module::Context,
            HostFn::LogFromLinearMemory => Module::Context,
            HostFn::ObjCmp => Module::Context,
            HostFn::Bls12381CheckG1IsInSubgroup => Module::Crypto,
            HostFn::Bls12381CheckG2IsInSubgroup => Module::Crypto,
            HostFn::Bls12381FrAdd => Module::Crypto,
            HostFn::Bls12381FrInv => Module::Crypto,
            HostFn::Bls12381FrMul => Module::Crypto,
            HostFn::Bls12381FrPow => Module::Crypto,
            HostFn::Bls12381FrSub => Module::Crypto,
            HostFn::Bls12381G1Add => Module::Crypto,
            HostFn::Bls12381G1Msm => Module::Crypto,
            HostFn::Bls12381G1Mul => Module::Crypto,
            HostFn::Bls12381G2Add => Module::Crypto,
            HostFn::Bls12381G2Msm => Module::Crypto,
            HostFn::Bls12381G2Mul => Module::Crypto,
            HostFn::Bls12381HashToG1 => Module::Crypto,
            HostFn::Bls12381HashToG2 => Module::Crypto,
            HostFn::Bls12381MapFp2ToG2 => Module::Crypto,
            HostFn::Bls12381MapFpToG1 => Module::Crypto,
            HostFn::Bls12381MultiPairingCheck => Module::Crypto,
            HostFn::ComputeHashKeccak256 => Module::Crypto,
            HostFn::ComputeHashSha256 => Module::Crypto,
            HostFn::RecoverKeyEcdsaSecp256k1 => Module::Crypto,
            HostFn::VerifySigEcdsaSecp256r1 => Module::Crypto,
            HostFn::VerifySigEd25519 => Module::Crypto,
            HostFn::DurationObjFromU64 => Module::Int,
            HostFn::DurationObjToU64 => Module::Int,
            HostFn::I256Add => Module::Int,
            HostFn::I256Div => Module::Int,
            HostFn::I256Mul => Module::Int,
            HostFn::I256Pow => Module::Int,
            HostFn::I256RemEuclid => Module::Int,
            HostFn::I256Shl => Module::Int,
            HostFn::I256Shr => Module::Int,
            HostFn::I256Sub => Module::Int,
            HostFn::I256ValFromBeBytes => Module::Int,
            HostFn::I256ValToBeBytes => Module::Int,
            HostFn::ObjFromI128Pieces => Module::Int,
            HostFn::ObjFromI256Pieces => Module::Int,
            HostFn::ObjFromI64 => Module::Int,
            HostFn::ObjFromU128Pieces => Module::Int,
            HostFn::ObjFromU256Pieces => Module::Int,
            HostFn::ObjFromU64 => Module::Int,
            HostFn::ObjToI128Hi64 => Module::Int,
            HostFn::ObjToI128Lo64 => Module::Int,
            HostFn::ObjToI256HiHi => Module::Int,
            HostFn::ObjToI256HiLo => Module::Int,
            HostFn::ObjToI256LoHi => Module::Int,
            HostFn::ObjToI256LoLo => Module::Int,
            HostFn::ObjToI64 => Module::Int,
            HostFn::ObjToU128Hi64 => Module::Int,
            HostFn::ObjToU128Lo64 => Module::Int,
            HostFn::ObjToU256HiHi => Module::Int,
            HostFn::ObjToU256HiLo => Module::Int,
            HostFn::ObjToU256LoHi => Module::Int,
            HostFn::ObjToU256LoLo => Module::Int,
            HostFn::ObjToU64 => Module::Int,
            HostFn::TimepointObjFromU64 => Module::Int,
            HostFn::TimepointObjToU64 => Module::Int,
            HostFn::U256Add => Module::Int,
            HostFn::U256Div => Module::Int,
            HostFn::U256Mul => Module::Int,
            HostFn::U256Pow => Module::Int,
            HostFn::U256RemEuclid => Module::Int,
            HostFn::U256Shl => Module::Int,
            HostFn::U256Shr => Module::Int,
            HostFn::U256Sub => Module::Int,
            HostFn::U256ValFromBeBytes => Module::Int,
            HostFn::U256ValToBeBytes => Module::Int,
            HostFn::CreateAssetContract => Module::Ledger,
            HostFn::CreateContract => Module::Ledger,
            HostFn::CreateContractWithConstructor => Module::Ledger,
            HostFn::DelContractData => Module::Ledger,
            HostFn::ExtendContractCodeTtl => Module::Ledger,
            HostFn::ExtendContractDataTtl => Module::Ledger,
            HostFn::ExtendContractInstanceAndCodeTtl => Module::Ledger,
            HostFn::ExtendContractInstanceTtl => Module::Ledger,
            HostFn::ExtendCurrentContractInstanceAndCodeTtl => Module::Ledger,
            HostFn::GetAssetContractId => Module::Ledger,
            HostFn::GetContractData => Module::Ledger,
            HostFn::GetContractId => Module::Ledger,
            HostFn::HasContractData => Module::Ledger,
            HostFn::PutContractData => Module::Ledger,
            HostFn::UpdateCurrentContractWasm => Module::Ledger,
            HostFn::UploadWasm => Module::Ledger,
            HostFn::MapDel => Module::Maps,
            HostFn::MapGet => Module::Maps,
            HostFn::MapHas => Module::Maps,
            HostFn::MapKeyByPos => Module::Maps,
            HostFn::MapKeys => Module::Maps,
            HostFn::MapLen => Module::Maps,
            HostFn::MapNew => Module::Maps,
            HostFn::MapNewFromLinearMemory => Module::Maps,
            HostFn::MapPut => Module::Maps,
            HostFn::MapUnpackToLinearMemory => Module::Maps,
            HostFn::MapValByPos => Module::Maps,
            HostFn::MapValues => Module::Maps,
            HostFn::PrngBytesNew => Module::Prng,
            HostFn::PrngReseed => Module::Prng,
            HostFn::PrngU64InInclusiveRange => Module::Prng,
            HostFn::PrngVecShuffle => Module::Prng,
            HostFn::VecAppend => Module::Vec,
            HostFn::VecBack => Module::Vec,
            HostFn::VecBinarySearch => Module::Vec,
            HostFn::VecDel => Module::Vec,
            HostFn::VecFirstIndexOf => Module::Vec,
            HostFn::VecFront => Module::Vec,
            HostFn::VecGet => Module::Vec,
            HostFn::VecInsert => Module::Vec,
            HostFn::VecLastIndexOf => Module::Vec,
            HostFn::VecLen => Module::Vec,
            HostFn::VecNew => Module::Vec,
            HostFn::VecNewFromLinearMemory => Module::Vec,
            HostFn::VecPopBack => Module::Vec,
            HostFn::VecPopFront => Module::Vec,
            HostFn::VecPushBack => Module::Vec,
            HostFn::VecPushFront => Module::Vec,
            HostFn::VecPut => Module::Vec,
            HostFn::VecSlice => Module::Vec,
            HostFn::VecUnpackToLinearMemory => Module::Vec,
            HostFn::Dummy0 => Module::Test,
        }
    }

    /// The function's parameter types, in declaration order.
    pub fn param_list(&self) -> (r: Vec<Param>)
        ensures
            r@ == self.params(),
    {
        match self {
            HostFn::AddressToStrkey => vec![Param::Shaped(Shape::AddressObject)],
            HostFn::AuthorizeAsCurrContract => vec![Param::Shaped(Shape::VecObject)],
            HostFn::GetAddressExecutable => vec![Param::Shaped(Shape::AddressObject)],
            HostFn::GetAddressFromMuxedAddress => vec![Param::Shaped(Shape::MuxedAddressObject)],
            HostFn::GetIdFromMuxedAddress => vec![Param::Shaped(Shape::MuxedAddressObject)],
            HostFn::RequireAuth => vec![Param::Shaped(Shape::AddressObject)],
            HostFn::RequireAuthForArgs => vec![Param::Shaped(Shape::AddressObject), Param::Shaped(Shape::VecObject)],
            HostFn::StrkeyToAddress => vec![Param::Any],
            HostFn::BytesAppend => vec![Param::Shaped(Shape::BytesObject), Param::Shaped(Shape::BytesObject)],
            HostFn::BytesBack => vec![Param::Shaped(Shape::BytesObject)],
            HostFn::BytesCopyFromLinearMemory => vec![Param::Shaped(Shape::BytesObject), Param::U32Val, Param::U32Val, Param::U32Val],
            HostFn::BytesCopyToLinearMemory => vec![Param::Shaped(Shape::BytesObject), Param::U32Val, Param::U32Val, Param::U32Val],
            HostFn::BytesDel => vec![Param::Shaped(Shape::BytesObject), Param::U32Val],
            HostFn::BytesFront => vec![Param::Shaped(Shape::BytesObject)],
            HostFn::BytesGet => vec![Param::Shaped(Shape::BytesObject), Param::U32Val],
            HostFn::BytesInsert => vec![Param::Shaped(Shape::BytesObject), Param::U32Val, Param::U32Val],
            HostFn::BytesLen => vec![Param::Shaped(Shape::BytesObject)],
            HostFn::BytesNew => vec![],
            HostFn::BytesNewFromLinearMemory => vec![Param::U32Val, Param::U32Val],
            HostFn::BytesPop => vec![Param::Shaped(Shape::BytesObject)],
            HostFn::BytesPush => vec![Param::Shaped(Shape::BytesObject), Param::U32Val],
            HostFn::BytesPut => vec![Param::Shaped(Shape::BytesObject), Param::U32Val, Param::U32Val],
            HostFn::BytesSlice => vec![Param::Shaped(Shape::BytesObject), Param::U32Val, Param::U32Val],
            HostFn::BytesToString => vec![Param::Shaped(Shape::BytesObject)],
            HostFn::DeserializeFromBytes => vec![Param::Shaped(Shape::BytesObject)],
            HostFn::SerializeToBytes => vec![Param::Any],
            HostFn::StringCopyToLinearMemory => vec![Param::Shaped(Shape::StringObject), Param::U32Val, Param::U32Val, Param::U32Val],
            HostFn::StringLen => vec![Param::Shaped(Shape::StringObject)],
            HostFn::StringNewFromLinearMemory => vec![Param::U32Val, Param::U32Val],
            HostFn::StringToBytes => vec![Param::Shaped(Shape::StringObject)],
            HostFn::SymbolCopyToLinearMemory => vec![Param::Shaped(Shape::SymbolObject), Param::U32Val, Param::U32Val, Param::U32Val],
            HostFn::SymbolIndexInLinearMemory => vec![Param::Shaped(Shape::Symbol), Param::U32Val, Param::U32Val],
            HostFn::SymbolLen => vec![Param::Shaped(Shape::SymbolObject)],
            HostFn::SymbolNewFromLinearMemory => vec![Param::U32Val, Param::U32Val],
            HostFn::Call => vec![Param::Shaped(Shape::AddressObject), Param::Shaped(Shape::Symbol), Param::Shaped(Shape::VecObject)],
            HostFn::TryCall => vec![Param::Shaped(Shape::AddressObject), Param::Shaped(Shape::Symbol), Param::Shaped(Shape::VecObject)],
            HostFn::ContractEvent => vec![Param::Shaped(Shape::VecObject), Param::Any],
            HostFn::FailWithError => vec![Param::Shaped(Shape::Error)],
            HostFn::GetCurrentContractAddress => vec![],
            HostFn::GetLedgerNetworkId => vec![],
            HostFn::GetLedgerSequence => vec![],
            HostFn::GetLedgerTimestamp => vec![],
            HostFn::GetLedgerVersion => vec![],
            HostFn::GetMaxLiveUntilLedger => vec![],
            HostFn::LogFromLinearMemory => vec![Param::U32Val, Param::U32Val, Param::U32Val, Param::U32Val],
            HostFn::ObjCmp => vec![Param::Any, Param::Any],
            HostFn::Bls12381CheckG1IsInSubgroup => vec![Param::Shaped(Shape::BytesObject)],
            HostFn::Bls12381CheckG2IsInSubgroup => vec![Param::Shaped(Shape::BytesObject)],
            HostFn::Bls12381FrAdd => vec![Param::Shaped(Shape::U256Val), Param::Shaped(Shape::U256Val)],
            HostFn::Bls12381FrInv => vec![Param::Shaped(Shape::U256Val)],
            HostFn::Bls12381FrMul => vec![Param::Shaped(Shape::U256Val), Param::Shaped(Shape::U256Val)],
            HostFn::Bls12381FrPow => vec![Param::Shaped(Shape::U256Val), Param::Shaped(Shape::U64Val)],
            HostFn::Bls12381FrSub => vec![Param::Shaped(Shape::U256Val), Param::Shaped(Shape::U256Val)],
            HostFn::Bls12381G1Add => vec![Param::Shaped(Shape::BytesObject), Param::Shaped(Shape::BytesObject)],
            HostFn::Bls12381G1Msm => vec![Param::Shaped(Shape::VecObject), Param::Shaped(Shape::VecObject)],
            HostFn::Bls12381G1Mul => vec![Param::Shaped(Shape::BytesObject), Param::Shaped(Shape::U256Val)],
            HostFn::Bls12381G2Add => vec![Param::Shaped(Shape::BytesObject), Param::Shaped(Shape::BytesObject)],
            HostFn::Bls12381G2Msm => vec![Param::Shaped(Shape::VecObject), Param::Shaped(Shape::VecObject)],
            HostFn::Bls12381G2Mul => vec![Param::Shaped(Shape::BytesObject), Param::Shaped(Shape::U256Val)],
            HostFn::Bls12381HashToG1 => vec![Param::Shaped(Shape::BytesObject), Param::Shaped(Shape::BytesObject)],
            HostFn::Bls12381HashToG2 => vec![Param::Shaped(Shape::BytesObject), Param::Shaped(Shape::BytesObject)],
            HostFn::Bls12381MapFp2ToG2 => vec![Param::Shaped(Shape::BytesObject)],
            HostFn::Bls12381MapFpToG1 => vec![Param::Shaped(Shape::BytesObject)],
            HostFn::Bls12381MultiPairingCheck => vec![Param::Shaped(Shape::VecObject), Param::Shaped(Shape::VecObject)],
            HostFn::ComputeHashKeccak256 => vec![Param::Shaped(Shape::BytesObject)],
            HostFn::ComputeHashSha256 => vec![Param::Shaped(Shape::BytesObject)],
            HostFn::RecoverKeyEcdsaSecp256k1 => vec![Param::Shaped(Shape::BytesObject), Param::Shaped(Shape::BytesObject), Param::U32Val],
            HostFn::VerifySigEcdsaSecp256r1 => vec![Param::Shaped(Shape::BytesObject), Param::Shaped(Shape::BytesObject), Param::Shaped(Shape::BytesObject)],
            HostFn::VerifySigEd25519 => vec![Param::Shaped(Shape::BytesObject), Param::Shaped(Shape::BytesObject), Param::Shaped(Shape::BytesObject)],
            HostFn::DurationObjFromU64 => vec![Param::U64],
            HostFn::DurationObjToU64 => vec![Param::Shaped(Shape::DurationObject)],
            HostFn::I256Add => vec![Param::Shaped(Shape::I256Val), Param::Shaped(Shape::I256Val)],
            HostFn::I256Div => vec![Param::Shaped(Shape::I256Val), Param::Shaped(Shape::I256Val)],
            HostFn::I256Mul => vec![Param::Shaped(Shape::I256Val), Param::Shaped(Shape::I256Val)],
            HostFn::I256Pow => vec![Param::Shaped(Shape::I256Val), Param::U32Val],
            HostFn::I256RemEuclid => vec![Param::Shaped(Shape::I256Val), Param::Shaped(Shape::I256Val)],
            HostFn::I256Shl => vec![Param::Shaped(Shape::I256Val), Param::U32Val],
            HostFn::I256Shr => vec![Param::Shaped(Shape::I256Val), Param::U32Val],
            HostFn::I256Sub => vec![Param::Shaped(Shape::I256Val), Param::Shaped(Shape::I256Val)],
            HostFn::I256ValFromBeBytes => vec![Param::Shaped(Shape::BytesObject)],
            HostFn::I256ValToBeBytes => vec![Param::Shaped(Shape::I256Val)],
            HostFn::ObjFromI128Pieces => vec![Param::I64, Param::U64],
            HostFn::ObjFromI256Pieces => vec![Param::I64, Param::U64, Param::U64, Param::U64],
            HostFn::ObjFromI64 => vec![Param::I64],
            HostFn::ObjFromU128Pieces => vec![Param::U64, Param::U64],
            HostFn::ObjFromU256Pieces => vec![Param::U64, Param::U64, Param::U64, Param::U64],
            HostFn::ObjFromU64 => vec![Param::U64],
            HostFn::ObjToI128Hi64 => vec![Param::Shaped(Shape::I128Object)],
            HostFn::ObjToI128Lo64 => vec![Param::Shaped(Shape::I128Object)],
            HostFn::ObjToI256HiHi => vec![Param::Shaped(Shape::I256Object)],
            HostFn::ObjToI256HiLo => vec![Param::Shaped(Shape::I256Object)],
            HostFn::ObjToI256LoHi => vec![Param::Shaped(Shape::I256Object)],
            HostFn::ObjToI256LoLo => vec![Param::Shaped(Shape::I256Object)],
            HostFn::ObjToI64 => vec![Param::Shaped(Shape::I64Object)],
            HostFn::ObjToU128Hi64 => vec![Param::Shaped(Shape::U128Object)],
            HostFn::ObjToU128Lo64 => vec![Param::Shaped(Shape::U128Object)],
            HostFn::ObjToU256HiHi => vec![Param::Shaped(Shape::U256Object)],
            HostFn::ObjToU256HiLo => vec![Param::Shaped(Shape::U256Object)],
            HostFn::ObjToU256LoHi => vec![Param::Shaped(Shape::U256Object)],
            HostFn::ObjToU256LoLo => vec![Param::Shaped(Shape::U256Object)],
            HostFn::ObjToU64 => vec![Param::Shaped(Shape::U64Object)],
            HostFn::TimepointObjFromU64 => vec![Param::U64],
            HostFn::TimepointObjToU64 => vec![Param::Shaped(Shape::TimepointObject)],
            HostFn::U256Add => vec![Param::Shaped(Shape::U256Val), Param::Shaped(Shape::U256Val)],
            HostFn::U256Div => vec![Param::Shaped(Shape::U256Val), Param::Shaped(Shape::U256Val)],
            HostFn::U256Mul => vec![Param::Shaped(Shape::U256Val), Param::Shaped(Shape::U256Val)],
            HostFn::U256Pow => vec![Param::Shaped(Shape::U256Val), Param::U32Val],
            HostFn::U256RemEuclid => vec![Param::Shaped(Shape::U256Val), Param::Shaped(Shape::U256Val)],
            HostFn::U256Shl => vec![Param::Shaped(Shape::U256Val), Param::U32Val],
            HostFn::U256Shr => vec![Param::Shaped(Shape::U256Val), Param::U32Val],
            HostFn::U256Sub => vec![Param::Shaped(Shape::U256Val), Param::Shaped(Shape::U256Val)],
            HostFn::U256ValFromBeBytes => vec![Param::Shaped(Shape::BytesObject)],
            HostFn::U256ValToBeBytes => vec![Param::Shaped(Shape::U256Val)],
            HostFn::CreateAssetContract => vec![Param::Shaped(Shape::BytesObject)],
            HostFn::CreateContract => vec![Param::Shaped(Shape::AddressObject), Param::Shaped(Shape::BytesObject), Param::Shaped(Shape::BytesObject)],
            HostFn::CreateContractWithConstructor => vec![Param::Shaped(Shape::AddressObject), Param::Shaped(Shape::BytesObject), Param::Shaped(Shape::BytesObject), Param::Shaped(Shape::VecObject)],
            HostFn::DelContractData => vec![Param::Any, Param::StorageType],
            HostFn::ExtendContractCodeTtl => vec![Param::Shaped(Shape::AddressObject), Param::U32Val, Param::U32Val],
            HostFn::ExtendContractDataTtl => vec![Param::Any, Param::StorageType, Param::U32Val, Param::U32Val],
            HostFn::ExtendContractInstanceAndCodeTtl => vec![Param::Shaped(Shape::AddressObject), Param::U32Val, Param::U32Val],
            HostFn::ExtendContractInstanceTtl => vec![Param::Shaped(Shape::AddressObject), Param::U32Val, Param::U32Val],
            HostFn::ExtendCurrentContractInstanceAndCodeTtl => vec![Param::U32Val, Param::U32Val],
            HostFn::GetAssetContractId => vec![Param::Shaped(Shape::BytesObject)],
            HostFn::GetContractData => vec![Param::Any, Param::StorageType],
            HostFn::GetContractId => vec![Param::Shaped(Shape::AddressObject), Param::Shaped(Shape::BytesObject)],
            HostFn::HasContractData => vec![Param::Any, Param::StorageType],
            HostFn::PutContractData => vec![Param::Any, Param::Any, Param::StorageType],
            HostFn::UpdateCurrentContractWasm => vec![Param::Shaped(Shape::BytesObject)],
            HostFn::UploadWasm => vec![Param::Shaped(Shape::BytesObject)],
            HostFn::MapDel => vec![Param::Shaped(Shape::MapObject), Param::Any],
            HostFn::MapGet => vec![Param::Shaped(Shape::MapObject), Param::Any],
            HostFn::MapHas => vec![Param::Shaped(Shape::MapObject), Param::Any],
            HostFn::MapKeyByPos => vec![Param::Shaped(Shape::MapObject), Param::U32Val],
            HostFn::MapKeys => vec![Param::Shaped(Shape::MapObject)],
            HostFn::MapLen => vec![Param::Shaped(Shape::MapObject)],
            HostFn::MapNew => vec![],
            HostFn::MapNewFromLinearMemory => vec![Param::U32Val, Param::U32Val, Param::U32Val],
            HostFn::MapPut => vec![Param::Shaped(Shape::MapObject), Param::Any, Param::Any],
            HostFn::MapUnpackToLinearMemory => vec![Param::Shaped(Shape::MapObject), Param::U32Val, Param::U32Val, Param::U32Val],
            HostFn::MapValByPos => vec![Param::Shaped(Shape::MapObject), Param::U32Val],
            HostFn::MapValues => vec![Param::Shaped(Shape::MapObject)],
            HostFn::PrngBytesNew => vec![Param::U32Val],
            HostFn::PrngReseed => vec![Param::Shaped(Shape::BytesObject)],
            HostFn::PrngU64InInclusiveRange => vec![Param::U64, Param::U64],
            HostFn::PrngVecShuffle => vec![Param::Shaped(Shape::VecObject)],
            HostFn::VecAppend => vec![Param::Shaped(Shape::VecObject), Param::Shaped(Shape::VecObject)],
            HostFn::VecBack => vec![Param::Shaped(Shape::VecObject)],
            HostFn::VecBinarySearch => vec![Param::Shaped(Shape::VecObject), Param::Any],
            HostFn::VecDel => vec![Param::Shaped(Shape::VecObject), Param::U32Val],
            HostFn::VecFirstIndexOf => vec![Param::Shaped(Shape::VecObject), Param::Any],
            HostFn::VecFront => vec![Param::Shaped(Shape::VecObject)],
            HostFn::VecGet => vec![Param::Shaped(Shape::VecObject), Param::U32Val],
            HostFn::VecInsert => vec![Param::Shaped(Shape::VecObject), Param::U32Val, Param::Any],
            HostFn::VecLastIndexOf => vec![Param::Shaped(Shape::VecObject), Param::Any],
            HostFn::VecLen => vec![Param::Shaped(Shape::VecObject)],
            HostFn::VecNew => vec![],
            HostFn::VecNewFromLinearMemory => vec![Param::U32Val, Param::U32Val],
            HostFn::VecPopBack => vec![Param::Shaped(Shape::VecObject)],
            HostFn::VecPopFront => vec![Param::Shaped(Shape::VecObject)],
            HostFn::VecPushBack => vec![Param::Shaped(Shape::VecObject), Param::Any],
            HostFn::VecPushFront => vec![Param::Shaped(Shape::VecObject), Param::Any],
            HostFn::VecPut => vec![Param::Shaped(Shape::VecObject), Param::U32Val, Param::Any],
            HostFn::VecSlice => vec![Param::Shaped(Shape::VecObject), Param::U32Val, Param::U32Val],
            HostFn::VecUnpackToLinearMemory => vec![Param::Shaped(Shape::VecObject), Param::U32Val, Param::U32Val],
            HostFn::Dummy0 => vec![],
        }
    }

    /// The function's name in the host interface.
    pub fn name(&self) -> (r: &'static str)
        ensures
            r == self.spec_name(),
    {
        match self {
            HostFn::AddressToStrkey => "address_to_strkey",
            HostFn::AuthorizeAsCurrContract => "authorize_as_curr_contract",
            HostFn::GetAddressExecutable => "get_address_executable",
            HostFn::GetAddressFromMuxedAddress => "get_address_from_muxed_address",
            HostFn::GetIdFromMuxedAddress => "get_id_from_muxed_address",
            HostFn::RequireAuth => "require_auth",
            HostFn::RequireAuthForArgs => "require_auth_for_args",
            HostFn::StrkeyToAddress => "strkey_to_address",
            HostFn::BytesAppend => "bytes_append",
            HostFn::BytesBack => "bytes_back",
            HostFn::BytesCopyFromLinearMemory => "bytes_copy_from_linear_memory",
            HostFn::BytesCopyToLinearMemory => "bytes_copy_to_linear_memory",
            HostFn::BytesDel => "bytes_del",
            HostFn::BytesFront => "bytes_front",
            HostFn::BytesGet => "bytes_get",
            HostFn::BytesInsert => "bytes_insert",
            HostFn::BytesLen => "bytes_len",
            HostFn::BytesNew => "bytes_new",
            HostFn::BytesNewFromLinearMemory => "bytes_new_from_linear_memory",
            HostFn::BytesPop => "bytes_pop",
            HostFn::BytesPush => "bytes_push",
            HostFn::BytesPut => "bytes_put",
            HostFn::BytesSlice => "bytes_slice",
            HostFn::BytesToString => "bytes_to_string",
            HostFn::DeserializeFromBytes => "deserialize_from_bytes",
            HostFn::SerializeToBytes => "serialize_to_bytes",
            HostFn::StringCopyToLinearMemory => "string_copy_to_linear_memory",
            HostFn::StringLen => "string_len",
            HostFn::StringNewFromLinearMemory => "string_new_from_linear_memory",
            HostFn::StringToBytes => "string_to_bytes",
            HostFn::SymbolCopyToLinearMemory => "symbol_copy_to_linear_memory",
            HostFn::SymbolIndexInLinearMemory => "symbol_index_in_linear_memory",
            HostFn::SymbolLen => "symbol_len",
            HostFn::SymbolNewFromLinearMemory => "symbol_new_from_linear_memory",
            HostFn::Call => "call",
            HostFn::TryCall => "try_call",
            HostFn::ContractEvent => "contract_event",
            HostFn::FailWithError => "fail_with_error",
            HostFn::GetCurrentContractAddress => "get_current_contract_address",
            HostFn::GetLedgerNetworkId => "get_ledger_network_id",
            HostFn::GetLedgerSequence => "get_ledger_sequence",
            HostFn::GetLedgerTimestamp => "get_ledger_timestamp",
            HostFn::GetLedgerVersion => "get_ledger_version",
            HostFn::GetMaxLiveUntilLedger => "get_max_live_until_ledger",
            HostFn::LogFromLinearMemory => "log_from_linear_memory",
            HostFn::ObjCmp => "obj_cmp",
            HostFn::Bls12381CheckG1IsInSubgroup => "bls12_381_check_g1_is_in_subgroup",
            HostFn::Bls12381CheckG2IsInSubgroup => "bls12_381_check_g2_is_in_subgroup",
            HostFn::Bls12381FrAdd => "bls12_381_fr_add",
            HostFn::Bls12381FrInv => "bls12_381_fr_inv",
            HostFn::Bls12381FrMul => "bls12_381_fr_mul",
            HostFn::Bls12381FrPow => "bls12_381_fr_pow",
            HostFn::Bls12381FrSub => "bls12_381_fr_sub",
            HostFn::Bls12381G1Add => "bls12_381_g1_add",
            HostFn::Bls12381G1Msm => "bls12_381_g1_msm",
            HostFn::Bls12381G1Mul => "bls12_381_g1_mul",
            HostFn::Bls12381G2Add => "bls12_381_g2_add",
            HostFn::Bls12381G2Msm => "bls12_381_g2_msm",
            HostFn::Bls12381G2Mul => "bls12_381_g2_mul",
            HostFn::Bls12381HashToG1 => "bls12_381_hash_to_g1",
            HostFn::Bls12381HashToG2 => "bls12_381_hash_to_g2",
            HostFn::Bls12381MapFp2ToG2 => "bls12_381_map_fp2_to_g2",
            HostFn::Bls12381MapFpToG1 => "bls12_381_map_fp_to_g1",
            HostFn::Bls12381MultiPairingCheck => "bls12_381_multi_pairing_check",
            HostFn::ComputeHashKeccak256 => "compute_hash_keccak256",
            HostFn::ComputeHashSha256 => "compute_hash_sha256",
            HostFn::RecoverKeyEcdsaSecp256k1 => "recover_key_ecdsa_secp256k1",
            HostFn::VerifySigEcdsaSecp256r1 => "verify_sig_ecdsa_secp256r1",
            HostFn::VerifySigEd25519 => "verify_sig_ed25519",
            HostFn::DurationObjFromU64 => "duration_obj_from_u64",
            HostFn::DurationObjToU64 => "duration_obj_to_u64",
            HostFn::I256Add => "i256_add",
            HostFn::I256Div => "i256_div",
            HostFn::I256Mul => "i256_mul",
            HostFn::I256Pow => "i256_pow",
            HostFn::I256RemEuclid => "i256_rem_euclid",
            HostFn::I256Shl => "i256_shl",
            HostFn::I256Shr => "i256_shr",
            HostFn::I256Sub => "i256_sub",
            HostFn::I256ValFromBeBytes => "i256_val_from_be_bytes",
            HostFn::I256ValToBeBytes => "i256_val_to_be_bytes",
            HostFn::ObjFromI128Pieces => "obj_from_i128_pieces",
            HostFn::ObjFromI256Pieces => "obj_from_i256_pieces",
            HostFn::ObjFromI64 => "obj_from_i64",
            HostFn::ObjFromU128Pieces => "obj_from_u128_pieces",
            HostFn::ObjFromU256Pieces => "obj_from_u256_pieces",
            HostFn::ObjFromU64 => "obj_from_u64",
            HostFn::ObjToI128Hi64 => "obj_to_i128_hi64",
            HostFn::ObjToI128Lo64 => "obj_to_i128_lo64",
            HostFn::ObjToI256HiHi => "obj_to_i256_hi_hi",
            HostFn::ObjToI256HiLo => "obj_to_i256_hi_lo",
            HostFn::ObjToI256LoHi => "obj_to_i256_lo_hi",
            HostFn::ObjToI256LoLo => "obj_to_i256_lo_lo",
            HostFn::ObjToI64 => "obj_to_i64",
            HostFn::ObjToU128Hi64 => "obj_to_u128_hi64",
            HostFn::ObjToU128Lo64 => "obj_to_u128_lo64",
            HostFn::ObjToU256HiHi => "obj_to_u256_hi_hi",
            HostFn::ObjToU256HiLo => "obj_to_u256_hi_lo",
            HostFn::ObjToU256LoHi => "obj_to_u256_lo_hi",
            HostFn::ObjToU256LoLo => "obj_to_u256_lo_lo",
            HostFn::ObjToU64 => "obj_to_u64",
            HostFn::TimepointObjFromU64 => "timepoint_obj_from_u64",
            HostFn::TimepointObjToU64 => "timepoint_obj_to_u64",
            HostFn::U256Add => "u256_add",
            HostFn::U256Div => "u256_div",
            HostFn::U256Mul => "u256_mul",
            HostFn::U256Pow => "u256_pow",
            HostFn::U256RemEuclid => "u256_rem_euclid",
            HostFn::U256Shl => "u256_shl",
            HostFn::U256Shr => "u256_shr",
            HostFn::U256Sub => "u256_sub",
            HostFn::U256ValFromBeBytes => "u256_val_from_be_bytes",
            HostFn::U256ValToBeBytes => "u256_val_to_be_bytes",
            HostFn::CreateAssetContract => "create_asset_contract",
            HostFn::CreateContract => "create_contract",
            HostFn::CreateContractWithConstructor => "create_contract_with_constructor",
            HostFn::DelContractData => "del_contract_data",
            HostFn::ExtendContractCodeTtl => "extend_contract_code_ttl",
            HostFn::ExtendContractDataTtl => "extend_contract_data_ttl",
            HostFn::ExtendContractInstanceAndCodeTtl => "extend_contract_instance_and_code_ttl",
            HostFn::ExtendContractInstanceTtl => "extend_contract_instance_ttl",
            HostFn::ExtendCurrentContractInstanceAndCodeTtl => "extend_current_contract_instance_and_code_ttl",
            HostFn::GetAssetContractId => "get_asset_contract_id",
            HostFn::GetContractData => "get_contract_data",
            HostFn::GetContractId => "get_contract_id",
            HostFn::HasContractData => "has_contract_data",
            HostFn::PutContractData => "put_contract_data",
            HostFn::UpdateCurrentContractWasm => "update_current_contract_wasm",
            HostFn::UploadWasm => "upload_wasm",
            HostFn::MapDel => "map_del",
            HostFn::MapGet => "map_get",
            HostFn::MapHas => "map_has",
            HostFn::MapKeyByPos => "map_key_by_pos",
            HostFn::MapKeys => "map_keys",
            HostFn::MapLen => "map_len",
            HostFn::MapNew => "map_new",
            HostFn::MapNewFromLinearMemory => "map_new_from_linear_memory",
            HostFn::MapPut => "map_put",
            HostFn::MapUnpackToLinearMemory => "map_unpack_to_linear_memory",
            HostFn::MapValByPos => "map_val_by_pos",
            HostFn::MapValues => "map_values",
            HostFn::PrngBytesNew => "prng_bytes_new",
            HostFn::PrngReseed => "prng_reseed",
            HostFn::PrngU64InInclusiveRange => "prng_u64_in_inclusive_range",
            HostFn::PrngVecShuffle => "prng_vec_shuffle",
            HostFn::VecAppend => "vec_append",
            HostFn::VecBack => "vec_back",
            HostFn::VecBinarySearch => "vec_binary_search",
            HostFn::VecDel => "vec_del",
            HostFn::VecFirstIndexOf => "vec_first_index_of",
            HostFn::VecFront => "vec_front",
            HostFn::VecGet => "vec_get",
            HostFn::VecInsert => "vec_insert",
            HostFn::VecLastIndexOf => "vec_last_index_of",
            HostFn::VecLen => "vec_len",
            HostFn::VecNew => "vec_new",
            HostFn::VecNewFromLinearMemory => "vec_new_from_linear_memory",
            HostFn::VecPopBack => "vec_pop_back",
            HostFn::VecPopFront => "vec_pop_front",
            HostFn::VecPushBack => "vec_push_back",
            HostFn::VecPushFront => "vec_push_front",
            HostFn::VecPut => "vec_put",
            HostFn::VecSlice => "vec_slice",
            HostFn::VecUnpackToLinearMemory => "vec_unpack_to_linear_memory",
            HostFn::Dummy0 => "dummy0",
        }
    }

    /// The function's place in the catalogue.
    pub open spec fn index(self) -> nat {
        match self {
            HostFn::AddressToStrkey => 0,
            HostFn::AuthorizeAsCurrContract => 1,
            HostFn::GetAddressExecutable => 2,
            HostFn::GetAddressFromMuxedAddress => 3,
            HostFn::GetIdFromMuxedAddress => 4,
            HostFn::RequireAuth => 5,
            HostFn::RequireAuthForArgs => 6,
            HostFn::StrkeyToAddress => 7,
            HostFn::BytesAppend => 8,
            HostFn::BytesBack => 9,
            HostFn::BytesCopyFromLinearMemory => 10,
            HostFn::BytesCopyToLinearMemory => 11,
            HostFn::BytesDel => 12,
            HostFn::BytesFront => 13,
            HostFn::BytesGet => 14,
            HostFn::BytesInsert => 15,
            HostFn::BytesLen => 16,
            HostFn::BytesNew => 17,
            HostFn::BytesNewFromLinearMemory => 18,
            HostFn::BytesPop => 19,
            HostFn::BytesPush => 20,
            HostFn::BytesPut => 21,
            HostFn::BytesSlice => 22,
            HostFn::BytesToString => 23,
            HostFn::DeserializeFromBytes => 24,
            HostFn::SerializeToBytes => 25,
            HostFn::StringCopyToLinearMemory => 26,
            HostFn::StringLen => 27,
            HostFn::StringNewFromLinearMemory => 28,
            HostFn::StringToBytes => 29,
            HostFn::SymbolCopyToLinearMemory => 30,
            HostFn::SymbolIndexInLinearMemory => 31,
            HostFn::SymbolLen => 32,
            HostFn::SymbolNewFromLinearMemory => 33,
            HostFn::Call => 34,
            HostFn::TryCall => 35,
            HostFn::ContractEvent => 36,
            HostFn::FailWithError => 37,
            HostFn::GetCurrentContractAddress => 38,
            HostFn::GetLedgerNetworkId => 39,
            HostFn::GetLedgerSequence => 40,
            HostFn::GetLedgerTimestamp => 41,
            HostFn::GetLedgerVersion => 42,
            HostFn::GetMaxLiveUntilLedger => 43,
            HostFn::LogFromLinearMemory => 44,
            HostFn::ObjCmp => 45,
            HostFn::Bls12381CheckG1IsInSubgroup => 46,
            HostFn::Bls12381CheckG2IsInSubgroup => 47,
            HostFn::Bls12381FrAdd => 48,
            HostFn::Bls12381FrInv => 49,
            HostFn::Bls12381FrMul => 50,
            HostFn::Bls12381FrPow => 51,
            HostFn::Bls12381FrSub => 52,
            HostFn::Bls12381G1Add => 53,
            HostFn::Bls12381G1Msm => 54,
            HostFn::Bls12381G1Mul => 55,
            HostFn::Bls12381G2Add => 56,
            HostFn::Bls12381G2Msm => 57,
            HostFn::Bls12381G2Mul => 58,
            HostFn::Bls12381HashToG1 => 59,
            HostFn::Bls12381HashToG2 => 60,
            HostFn::Bls12381MapFp2ToG2 => 61,
            HostFn::Bls12381MapFpToG1 => 62,
            HostFn::Bls12381MultiPairingCheck => 63,
            HostFn::ComputeHashKeccak256 => 64,
            HostFn::ComputeHashSha256 => 65,
            HostFn::RecoverKeyEcdsaSecp256k1 => 66,
            HostFn::VerifySigEcdsaSecp256r1 => 67,
            HostFn::VerifySigEd25519 => 68,
            HostFn::DurationObjFromU64 => 69,
            HostFn::DurationObjToU64 => 70,
            HostFn::I256Add => 71,
            HostFn::I256Div => 72,
            HostFn::I256Mul => 73,
            HostFn::I256Pow => 74,
            HostFn::I256RemEuclid => 75,
            HostFn::I256Shl => 76,
            HostFn::I256Shr => 77,
            HostFn::I256Sub => 78,
            HostFn::I256ValFromBeBytes => 79,
            HostFn::I256ValToBeBytes => 80,
            HostFn::ObjFromI128Pieces => 81,
            HostFn::ObjFromI256Pieces => 82,
            HostFn::ObjFromI64 => 83,
            HostFn::ObjFromU128Pieces => 84,
            HostFn::ObjFromU256Pieces => 85,
            HostFn::ObjFromU64 => 86,
            HostFn::ObjToI128Hi64 => 87,
            HostFn::ObjToI128Lo64 => 88,
            HostFn::ObjToI256HiHi => 89,
            HostFn::ObjToI256HiLo => 90,
            HostFn::ObjToI256LoHi => 91,
            HostFn::ObjToI256LoLo => 92,
            HostFn::ObjToI64 => 93,
            HostFn::ObjToU128Hi64 => 94,
            HostFn::ObjToU128Lo64 => 95,
            HostFn::ObjToU256HiHi => 96,
            HostFn::ObjToU256HiLo => 97,
            HostFn::ObjToU256LoHi => 98,
            HostFn::ObjToU256LoLo => 99,
            HostFn::ObjToU64 => 100,
            HostFn::TimepointObjFromU64 => 101,
            HostFn::TimepointObjToU64 => 102,
            HostFn::U256Add => 103,
            HostFn::U256Div => 104,
            HostFn::U256Mul => 105,
            HostFn::U256Pow => 106,
            HostFn::U256RemEuclid => 107,
            HostFn::U256Shl => 108,
            HostFn::U256Shr => 109,
            HostFn::U256Sub => 110,
            HostFn::U256ValFromBeBytes => 111,
            HostFn::U256ValToBeBytes => 112,
            HostFn::CreateAssetContract => 113,
            HostFn::CreateContract => 114,
            HostFn::CreateContractWithConstructor => 115,
            HostFn::DelContractData => 116,
            HostFn::ExtendContractCodeTtl => 117,
            HostFn::ExtendContractDataTtl => 118,
            HostFn::ExtendContractInstanceAndCodeTtl => 119,
            HostFn::ExtendContractInstanceTtl => 120,
            HostFn::ExtendCurrentContractInstanceAndCodeTtl => 121,
            HostFn::GetAssetContractId => 122,
            HostFn::GetContractData => 123,
            HostFn::GetContractId => 124,
            HostFn::HasContractData => 125,
            HostFn::PutContractData => 126,
            HostFn::UpdateCurrentContractWasm => 127,
            HostFn::UploadWasm => 128,
            HostFn::MapDel => 129,
            HostFn::MapGet => 130,
            HostFn::MapHas => 131,
            HostFn::MapKeyByPos => 132,
            HostFn::MapKeys => 133,
            HostFn::MapLen => 134,
            HostFn::MapNew => 135,
            HostFn::MapNewFromLinearMemory => 136,
            HostFn::MapPut => 137,
            HostFn::MapUnpackToLinearMemory => 138,
            HostFn::MapValByPos => 139,
            HostFn::MapValues => 140,
            HostFn::PrngBytesNew => 141,
            HostFn::PrngReseed => 142,
            HostFn::PrngU64InInclusiveRange => 143,
            HostFn::PrngVecShuffle => 144,
            HostFn::VecAppend => 145,
            HostFn::VecBack => 146,
            HostFn::VecBinarySearch => 147,
            HostFn::VecDel => 148,
            HostFn::VecFirstIndexOf => 149,
            HostFn::VecFront => 150,
            HostFn::VecGet => 151,
            HostFn::VecInsert => 152,
            HostFn::VecLastIndexOf => 153,
            HostFn::VecLen => 154,
            HostFn::VecNew => 155,
            HostFn::VecNewFromLinearMemory => 156,
            HostFn::VecPopBack => 157,
            HostFn::VecPopFront => 158,
            HostFn::VecPushBack => 159,
            HostFn::VecPushFront => 160,
            HostFn::VecPut => 161,
            HostFn::VecSlice => 162,
            HostFn::VecUnpackToLinearMemory => 163,
            HostFn::Dummy0 => 164,
        }
    }

    /// The function at place `i` of the catalogue, if there is one.
    pub fn from_index(i: u32) -> (r: Option<HostFn>)
        ensures
            r is Some <==> i < HOST_FN_COUNT,
            r matches Some(f) ==> f.index() == i,
    {
        match i {
            0 => Some(HostFn::AddressToStrkey),
            1 => Some(HostFn::AuthorizeAsCurrContract),
            2 => Some(HostFn::GetAddressExecutable),
            3 => Some(HostFn::GetAddressFromMuxedAddress),
            4 => Some(HostFn::GetIdFromMuxedAddress),
            5 => Some(HostFn::RequireAuth),
            6 => Some(HostFn::RequireAuthForArgs),
            7 => Some(HostFn::StrkeyToAddress),
            8 => Some(HostFn::BytesAppend),
            9 => Some(HostFn::BytesBack),
            10 => Some(HostFn::BytesCopyFromLinearMemory),
            11 => Some(HostFn::BytesCopyToLinearMemory),
            12 => Some(HostFn::BytesDel),
            13 => Some(HostFn::BytesFront),
            14 => Some(HostFn::BytesGet),
            15 => Some(HostFn::BytesInsert),
            16 => Some(HostFn::BytesLen),
            17 => Some(HostFn::BytesNew),
            18 => Some(HostFn::BytesNewFromLinearMemory),
            19 => Some(HostFn::BytesPop),
            20 => Some(HostFn::BytesPush),
            21 => Some(HostFn::BytesPut),
            22 => Some(HostFn::BytesSlice),
            23 => Some(HostFn::BytesToString),
            24 => Some(HostFn::DeserializeFromBytes),
            25 => Some(HostFn::SerializeToBytes),
            26 => Some(HostFn::StringCopyToLinearMemory),
            27 => Some(HostFn::StringLen),
            28 => Some(HostFn::StringNewFromLinearMemory),
            29 => Some(HostFn::StringToBytes),
            30 => Some(HostFn::SymbolCopyToLinearMemory),
            31 => Some(HostFn::SymbolIndexInLinearMemory),
            32 => Some(HostFn::SymbolLen),
            33 => Some(HostFn::SymbolNewFromLinearMemory),
            34 => Some(HostFn::Call),
            35 => Some(HostFn::TryCall),
            36 => Some(HostFn::ContractEvent),
            37 => Some(HostFn::FailWithError),
            38 => Some(HostFn::GetCurrentContractAddress),
            39 => Some(HostFn::GetLedgerNetworkId),
            40 => Some(HostFn::GetLedgerSequence),
            41 => Some(HostFn::GetLedgerTimestamp),
            42 => Some(HostFn::GetLedgerVersion),
            43 => Some(HostFn::GetMaxLiveUntilLedger),
            44 => Some(HostFn::LogFromLinearMemory),
            45 => Some(HostFn::ObjCmp),
            46 => Some(HostFn::Bls12381CheckG1IsInSubgroup),
            47 => Some(HostFn::Bls12381CheckG2IsInSubgroup),
            48 => Some(HostFn::Bls12381FrAdd),
            49 => Some(HostFn::Bls12381FrInv),
            50 => Some(HostFn::Bls12381FrMul),
            51 => Some(HostFn::Bls12381FrPow),
            52 => Some(HostFn::Bls12381FrSub),
            53 => Some(HostFn::Bls12381G1Add),
            54 => Some(HostFn::Bls12381G1Msm),
            55 => Some(HostFn::Bls12381G1Mul),
            56 => Some(HostFn::Bls12381G2Add),
            57 => Some(HostFn::Bls12381G2Msm),
            58 => Some(HostFn::Bls12381G2Mul),
            59 => Some(HostFn::Bls12381HashToG1),
            60 => Some(HostFn::Bls12381HashToG2),
            61 => Some(HostFn::Bls12381MapFp2ToG2),
            62 => Some(HostFn::Bls12381MapFpToG1),
            63 => Some(HostFn::Bls12381MultiPairingCheck),
            64 => Some(HostFn::ComputeHashKeccak256),
            65 => Some(HostFn::ComputeHashSha256),
            66 => Some(HostFn::RecoverKeyEcdsaSecp256k1),
            67 => Some(HostFn::VerifySigEcdsaSecp256r1),
            68 => Some(HostFn::VerifySigEd25519),
            69 => Some(HostFn::DurationObjFromU64),
            70 => Some(HostFn::DurationObjToU64),
            71 => Some(HostFn::I256Add),
            72 => Some(HostFn::I256Div),
            73 => Some(HostFn::I256Mul),
            74 => Some(HostFn::I256Pow),
            75 => Some(HostFn::I256RemEuclid),
            76 => Some(HostFn::I256Shl),
            77 => Some(HostFn::I256Shr),
            78 => Some(HostFn::I256Sub),
            79 => Some(HostFn::I256ValFromBeBytes),
            80 => Some(HostFn::I256ValToBeBytes),
            81 => Some(HostFn::ObjFromI128Pieces),
            82 => Some(HostFn::ObjFromI256Pieces),
            83 => Some(HostFn::ObjFromI64),
            84 => Some(HostFn::ObjFromU128Pieces),
            85 => Some(HostFn::ObjFromU256Pieces),
            86 => Some(HostFn::ObjFromU64),
            87 => Some(HostFn::ObjToI128Hi64),
            88 => Some(HostFn::ObjToI128Lo64),
            89 => Some(HostFn::ObjToI256HiHi),
            90 => Some(HostFn::ObjToI256HiLo),
            91 => Some(HostFn::ObjToI256LoHi),
            92 => Some(HostFn::ObjToI256LoLo),
            93 => Some(HostFn::ObjToI64),
            94 => Some(HostFn::ObjToU128Hi64),
            95 => Some(HostFn::ObjToU128Lo64),
            96 => Some(HostFn::ObjToU256HiHi),
            97 => Some(HostFn::ObjToU256HiLo),
            98 => Some(HostFn::ObjToU256LoHi),
            99 => Some(HostFn::ObjToU256LoLo),
            100 => Some(HostFn::ObjToU64),
            101 => Some(HostFn::TimepointObjFromU64),
            102 => Some(HostFn::TimepointObjToU64),
            103 => Some(HostFn::U256Add),
            104 => Some(HostFn::U256Div),
            105 => Some(HostFn::U256Mul),
            106 => Some(HostFn::U256Pow),
            107 => Some(HostFn::U256RemEuclid),
            108 => Some(HostFn::U256Shl),
            109 => Some(HostFn::U256Shr),
            110 => Some(HostFn::U256Sub),
            111 => Some(HostFn::U256ValFromBeBytes),
            112 => Some(HostFn::U256ValToBeBytes),
            113 => Some(HostFn::CreateAssetContract),
            114 => Some(HostFn::CreateContract),
            115 => Some(HostFn::CreateContractWithConstructor),
            116 => Some(HostFn::DelContractData),
            117 => Some(HostFn::ExtendContractCodeTtl),
            118 => Some(HostFn::ExtendContractDataTtl),
            119 => Some(HostFn::ExtendContractInstanceAndCodeTtl),
            120 => Some(HostFn::ExtendContractInstanceTtl),
            121 => Some(HostFn::ExtendCurrentContractInstanceAndCodeTtl),
            122 => Some(HostFn::GetAssetContractId),
            123 => Some(HostFn::GetContractData),
            124 => Some(HostFn::GetContractId),
            125 => Some(HostFn::HasContractData),
            126 => Some(HostFn::PutContractData),
            127 => Some(HostFn::UpdateCurrentContractWasm),
            128 => Some(HostFn::UploadWasm),
            129 => Some(HostFn::MapDel),
            130 => Some(HostFn::MapGet),
            131 => Some(HostFn::MapHas),
            132 => Some(HostFn::MapKeyByPos),
            133 => Some(HostFn::MapKeys),
            134 => Some(HostFn::MapLen),
            135 => Some(HostFn::MapNew),
            136 => Some(HostFn::MapNewFromLinearMemory),
            137 => Some(HostFn::MapPut),
            138 => Some(HostFn::MapUnpackToLinearMemory),
            139 => Some(HostFn::MapValByPos),
            140 => Some(HostFn::MapValues),
            141 => Some(HostFn::PrngBytesNew),
            142 => Some(HostFn::PrngReseed),
            143 => Some(HostFn::PrngU64InInclusiveRange),
            144 => Some(HostFn::PrngVecShuffle),
            145 => Some(HostFn::VecAppend),
            146 => Some(HostFn::VecBack),
            147 => Some(HostFn::VecBinarySearch),
            148 => Some(HostFn::VecDel),
            149 => Some(HostFn::VecFirstIndexOf),
            150 => Some(HostFn::VecFront),
            151 => Some(HostFn::VecGet),
            152 => Some(HostFn::VecInsert),
            153 => Some(HostFn::VecLastIndexOf),
            154 => Some(HostFn::VecLen),
            155 => Some(HostFn::VecNew),
            156 => Some(HostFn::VecNewFromLinearMemory),
            157 => Some(HostFn::VecPopBack),
            158 => Some(HostFn::VecPopFront),
            159 => Some(HostFn::VecPushBack),
            160 => Some(HostFn::VecPushFront),
            161 => Some(HostFn::VecPut),
            162 => Some(HostFn::VecSlice),
            163 => Some(HostFn::VecUnpackToLinearMemory),
            164 => Some(HostFn::Dummy0),
            _ => None,
        }
    }
}

} // verus!
