use contract_for_fuzz::catalogue::HostFn;
use contract_for_fuzz::handle::{BytesObj, MapObj, VecObj};
use contract_for_fuzz::operand::{coerce_all, Operand, StorageType};
use contract_for_fuzz::outcome::{classify, Outcome, Verdict};
use contract_for_fuzz::raw::{RawFuzzInstruction, RawFuzzInstructionPrototype, RawModBuf, RawModInt, RawModLedger, RawModVec};
use contract_for_fuzz::shape::Shape;
use contract_for_fuzz::typed::{TypedFuzzInstruction, TypedFuzzInstructionPrototype, TypedModBuf, TypedModMap};
use contract_for_fuzz::word::FakeVal;
use contract_for_fuzz::{FuzzContract, FuzzInstruction};

const MAP_WORD: u64 = 0x0000_0002_0000_004c;
const VEC_WORD: u64 = 0x0000_0003_0000_004b;
const BYTES_WORD: u64 = 0x0000_0001_0000_0048;

#[test]
fn raw_bytes_len_on_integer_word_is_passed_as_is() {
    // a word tagged as a 32-bit integer, not as a byte buffer
    let word = 0x0000_0005_0000_0004u64;
    let i = RawFuzzInstruction::Buf(RawModBuf::BytesLen(FakeVal(word)));
    let c = i.host_call();
    assert_eq!(c.function, HostFn::BytesLen);
    assert_eq!(c.args, vec![word]);
}

#[test]
fn raw_u32_slots_get_the_u32_tag() {
    let i = RawFuzzInstruction::Buf(RawModBuf::BytesGet(FakeVal(BYTES_WORD), 7));
    let c = i.host_call();
    assert_eq!(c.function, HostFn::BytesGet);
    assert_eq!(c.args, vec![BYTES_WORD, 0x0000_0007_0000_0004]);
}

#[test]
fn native_numbers_are_passed_untagged() {
    let i = RawFuzzInstruction::Int(RawModInt::ObjFromI128Pieces(-1, 5));
    let c = i.host_call();
    assert_eq!(c.function, HostFn::ObjFromI128Pieces);
    assert_eq!(c.args, vec![u64::MAX, 5]);
    let j = RawFuzzInstruction::Int(RawModInt::ObjFromU64(u64::MAX));
    assert_eq!(j.host_call().args, vec![u64::MAX]);
}

#[test]
fn raw_storage_slot_takes_any_word() {
    let i = RawFuzzInstruction::Ledger(RawModLedger::HasContractData(FakeVal(9), FakeVal(77)));
    let c = i.host_call();
    assert_eq!(c.function, HostFn::HasContractData);
    assert_eq!(c.args, vec![9, 77]);
}

#[test]
fn test_marker_calls_the_no_op_function() {
    let c = RawFuzzInstruction::Test.host_call();
    assert_eq!(c.function, HostFn::Dummy0);
    assert!(c.args.is_empty());
    let c = TypedFuzzInstruction::Test.host_call();
    assert_eq!(c.function, HostFn::Dummy0);
    assert!(c.args.is_empty());
    let c = FuzzContract::dispatch(&FuzzInstruction::Raw(RawFuzzInstruction::Test));
    assert_eq!(c.function, HostFn::Dummy0);
    assert_eq!(HostFn::Dummy0.name(), "dummy0");
    let p = RawFuzzInstructionPrototype { function: HostFn::Dummy0, operands: vec![] };
    assert_eq!(p.to_guest(), Some(RawFuzzInstruction::Test));
    let p = TypedFuzzInstructionPrototype { function: HostFn::Dummy0, operands: vec![] };
    assert_eq!(p.to_guest(), Some(TypedFuzzInstruction::Test));
    let p = RawFuzzInstructionPrototype {
        function: HostFn::Dummy0,
        operands: vec![Operand::U32(1)],
    };
    assert_eq!(p.to_guest(), None);
}

#[test]
fn typed_map_get_passes_handle_and_key() {
    let map = MapObj::checked(FakeVal(MAP_WORD)).unwrap();
    let i = TypedFuzzInstruction::Maps(TypedModMap::MapGet(map, FakeVal(0x0000_0000_0000_0106)));
    let c = FuzzContract::dispatch(&FuzzInstruction::Typed(i));
    assert_eq!(c.function, HostFn::MapGet);
    assert_eq!(c.args, vec![MAP_WORD, 0x106]);
}

#[test]
fn typed_storage_is_passed_by_code() {
    let ops = vec![Operand::Word(FakeVal(5)), Operand::Storage(StorageType::Persistent)];
    let i = TypedFuzzInstructionPrototype { function: HostFn::GetContractData, operands: ops.clone() }.to_guest().unwrap();
    assert_eq!(i.host_call().args, vec![5, 1]);
    let ops = vec![Operand::Word(FakeVal(5)), Operand::Storage(StorageType::Instance)];
    let i = TypedFuzzInstructionPrototype { function: HostFn::DelContractData, operands: ops.clone() }.to_guest().unwrap();
    assert_eq!(i.host_call().args, vec![5, 2]);
}

#[test]
fn buffer_from_empty_memory_region() {
    let i = RawFuzzInstruction::Buf(RawModBuf::BytesNewFromLinearMemory(0, 0));
    let c = i.host_call();
    assert_eq!(c.function, HostFn::BytesNewFromLinearMemory);
    assert_eq!(c.args, vec![4, 4]);
    let t = TypedFuzzInstruction::Buf(TypedModBuf::BytesNewFromLinearMemory(0, 0));
    assert_eq!(t.host_call().args, vec![4, 4]);
}

#[test]
fn checked_handles_refuse_other_shapes() {
    assert!(MapObj::checked(FakeVal(VEC_WORD)).is_none());
    assert!(VecObj::checked(FakeVal(VEC_WORD)).is_some());
    assert!(BytesObj::checked(FakeVal(4)).is_none());
    assert_eq!(BytesObj::checked(FakeVal(BYTES_WORD)).unwrap().word(), FakeVal(BYTES_WORD));
}

#[test]
fn to_guest_builds_the_one_variant() {
    let ops = vec![Operand::Word(FakeVal(VEC_WORD)), Operand::U32(3), Operand::Word(FakeVal(11))];
    let i = RawFuzzInstructionPrototype { function: HostFn::VecPut, operands: ops.clone() }.to_guest().unwrap();
    assert_eq!(i, RawFuzzInstruction::Vec(RawModVec::VecPut(FakeVal(VEC_WORD), 3, FakeVal(11))));
    assert_eq!(i.host_fn(), HostFn::VecPut);
    assert_eq!(i.operand_list(), ops);
}

#[test]
fn to_guest_refuses_ill_fitting_operands() {
    // wrong count
    let ops = vec![Operand::Word(FakeVal(VEC_WORD))];
    assert!(RawFuzzInstructionPrototype { function: HostFn::VecPut, operands: ops.clone() }.to_guest().is_none());
    // a word where a 32-bit number is declared
    let ops = vec![Operand::Word(FakeVal(1)), Operand::Word(FakeVal(2))];
    assert!(RawFuzzInstructionPrototype { function: HostFn::VecGet, operands: ops.clone() }.to_guest().is_none());
    // the typed tier wants a shaped word with the right tag
    let ops = vec![Operand::Word(FakeVal(MAP_WORD))];
    assert!(TypedFuzzInstructionPrototype { function: HostFn::MapLen, operands: ops.clone() }.to_guest().is_none());
    let ops = vec![Operand::Shaped(Shape::MapObject, FakeVal(VEC_WORD))];
    assert!(TypedFuzzInstructionPrototype { function: HostFn::MapLen, operands: ops.clone() }.to_guest().is_none());
    let ops = vec![Operand::Shaped(Shape::MapObject, FakeVal(MAP_WORD))];
    let i = TypedFuzzInstructionPrototype { function: HostFn::MapLen, operands: ops.clone() }.to_guest().unwrap();
    assert_eq!(i.host_call().args, vec![MAP_WORD]);
}

#[test]
fn decoding_twice_gives_identical_instructions() {
    let ops = vec![
        Operand::Word(FakeVal(BYTES_WORD)),
        Operand::U32(1),
        Operand::U32(2),
        Operand::U32(3),
    ];
    let a = RawFuzzInstructionPrototype { function: HostFn::BytesCopyToLinearMemory, operands: ops.clone() }.to_guest();
    let b = RawFuzzInstructionPrototype { function: HostFn::BytesCopyToLinearMemory, operands: ops.clone() }.to_guest();
    assert_eq!(a, b);
    assert_eq!(a.unwrap().host_call().args, b.unwrap().host_call().args);
}

#[test]
fn coercion_of_each_operand_kind() {
    let ops = vec![
        Operand::Word(FakeVal(0xdead_beef)),
        Operand::U32(u32::MAX),
        Operand::U64(17),
        Operand::I64(-2),
        Operand::Storage(StorageType::Temporary),
        Operand::Shaped(Shape::BytesObject, FakeVal(BYTES_WORD)),
    ];
    assert_eq!(
        coerce_all(&ops),
        vec![0xdead_beef, 0xffff_ffff_0000_0004, 17, u64::MAX - 1, 0, BYTES_WORD]
    );
}

#[test]
fn only_a_fault_aborts() {
    assert_eq!(classify(Outcome::Returned, true), Verdict::Continue);
    assert_eq!(classify(Outcome::ErrorReturned, false), Verdict::Continue);
    assert_eq!(classify(Outcome::Faulted, true), Verdict::Abort { print_log: false });
    assert_eq!(classify(Outcome::Faulted, false), Verdict::Abort { print_log: true });
}
