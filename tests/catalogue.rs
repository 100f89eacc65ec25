use contract_for_fuzz::catalogue::{HostFn, Module, Param, SURFACE_PROTOCOL};
use contract_for_fuzz::operand::Operand;
use contract_for_fuzz::shape::Shape;

#[test]
fn surface_protocol_is_declared() {
    assert_eq!(SURFACE_PROTOCOL, 23);
}

#[test]
fn parameter_lists_follow_declaration_order() {
    assert_eq!(
        HostFn::BytesCopyToLinearMemory.param_list(),
        vec![Param::Shaped(Shape::BytesObject), Param::U32Val, Param::U32Val, Param::U32Val]
    );
    assert_eq!(
        HostFn::VecPut.param_list(),
        vec![Param::Shaped(Shape::VecObject), Param::U32Val, Param::Any]
    );
    assert_eq!(
        HostFn::PutContractData.param_list(),
        vec![Param::Any, Param::Any, Param::StorageType]
    );
    assert_eq!(
        HostFn::ObjFromI256Pieces.param_list(),
        vec![Param::I64, Param::U64, Param::U64, Param::U64]
    );
    assert_eq!(
        HostFn::Call.param_list(),
        vec![
            Param::Shaped(Shape::AddressObject),
            Param::Shaped(Shape::Symbol),
            Param::Shaped(Shape::VecObject)
        ]
    );
    assert!(HostFn::MapNew.param_list().is_empty());
}

#[test]
fn names_and_modules() {
    assert_eq!(HostFn::BytesLen.name(), "bytes_len");
    assert_eq!(HostFn::TryCall.name(), "try_call");
    assert_eq!(HostFn::ExtendContractDataTtl.name(), "extend_contract_data_ttl");
    assert_eq!(HostFn::BytesLen.module_of(), Module::Buf);
    assert_eq!(HostFn::MapGet.module_of(), Module::Maps);
    assert_eq!(HostFn::PrngVecShuffle.module_of(), Module::Prng);
    assert_eq!(HostFn::RequireAuth.module_of(), Module::Address);
    assert_eq!(HostFn::Dummy0.module_of(), Module::Test);
}

#[test]
fn shapes_read_the_tag_byte() {
    assert!(Shape::BytesObject.admits(contract_for_fuzz::word::FakeVal(72)));
    assert!(Shape::BytesObject.admits(contract_for_fuzz::word::FakeVal(0x0000_0005_0000_0048)));
    assert!(!Shape::BytesObject.admits(contract_for_fuzz::word::FakeVal(73)));
    assert!(Shape::Symbol.admits(contract_for_fuzz::word::FakeVal(14)));
    assert!(Shape::Symbol.admits(contract_for_fuzz::word::FakeVal(74)));
    assert!(!Shape::Symbol.admits(contract_for_fuzz::word::FakeVal(4)));
    assert!(Shape::U256Val.admits(contract_for_fuzz::word::FakeVal(12)));
    assert!(Shape::Error.admits(contract_for_fuzz::word::FakeVal(3)));
    // an undefined tag byte is read as a bad tag, which no shape takes
    assert!(!Shape::U64Object.admits(contract_for_fuzz::word::FakeVal(0x50)));
    assert!(!Shape::Error.admits(contract_for_fuzz::word::FakeVal(0x7f)));
}

fn raw_operand_for(p: &Param) -> Operand {
    match p {
        Param::U32Val => Operand::U32(1),
        Param::U64 => Operand::U64(2),
        Param::I64 => Operand::I64(-3),
        _ => Operand::Word(contract_for_fuzz::word::FakeVal(0x0000_0001_0000_0048)),
    }
}

#[test]
fn every_host_function_has_one_raw_variant() {
    let mut names = std::collections::HashSet::new();
    let mut n = 0u32;
    while let Some(f) = HostFn::from_index(n) {
        assert!(names.insert(f.name()));
        let params = f.param_list();
        let ops: Vec<_> = params.iter().map(raw_operand_for).collect();
        let i = contract_for_fuzz::raw::RawFuzzInstructionPrototype { function: f, operands: ops.clone() }.to_guest().unwrap();
        assert_eq!(i.host_fn(), f);
        assert_eq!(i.operand_list(), ops);
        let c = i.host_call();
        assert_eq!(c.function, f);
        assert_eq!(c.args.len(), params.len());
        n += 1;
    }
    assert_eq!(n, contract_for_fuzz::catalogue::HOST_FN_COUNT);
    assert_eq!(names.len(), 165);
    assert!(HostFn::from_index(165).is_none());
    assert_eq!(HostFn::from_index(164), Some(HostFn::Dummy0));
}

fn tag_code_of(s: Shape) -> u64 {
    match s {
        Shape::U64Object => 64,
        Shape::I64Object => 65,
        Shape::TimepointObject => 66,
        Shape::DurationObject => 67,
        Shape::U128Object => 68,
        Shape::I128Object => 69,
        Shape::U256Object => 70,
        Shape::I256Object => 71,
        Shape::BytesObject => 72,
        Shape::StringObject => 73,
        Shape::SymbolObject => 74,
        Shape::VecObject => 75,
        Shape::MapObject => 76,
        Shape::AddressObject => 77,
        Shape::MuxedAddressObject => 78,
        Shape::Symbol => 14,
        Shape::U64Val => 6,
        Shape::U256Val => 12,
        Shape::I256Val => 13,
        Shape::Error => 3,
    }
}

fn typed_operand_for(p: &Param) -> Operand {
    match p {
        Param::Any => Operand::Word(contract_for_fuzz::word::FakeVal(9)),
        Param::U32Val => Operand::U32(1),
        Param::U64 => Operand::U64(2),
        Param::I64 => Operand::I64(-3),
        Param::StorageType => Operand::Storage(contract_for_fuzz::operand::StorageType::Persistent),
        Param::Shaped(s) => Operand::Shaped(
            *s,
            contract_for_fuzz::word::FakeVal((5u64 << 32) | tag_code_of(*s)),
        ),
    }
}

#[test]
fn every_host_function_has_one_typed_variant() {
    let mut n = 0u32;
    while let Some(f) = HostFn::from_index(n) {
        let params = f.param_list();
        let ops: Vec<_> = params.iter().map(typed_operand_for).collect();
        let i = contract_for_fuzz::typed::TypedFuzzInstructionPrototype { function: f, operands: ops.clone() }.to_guest().unwrap();
        assert_eq!(i.host_fn(), f);
        assert_eq!(i.operand_list(), ops);
        let c = i.host_call();
        assert_eq!(c.function, f);
        assert_eq!(c.args.len(), params.len());
        n += 1;
    }
    assert_eq!(n, 165);
}
