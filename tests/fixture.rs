use contract_for_fuzz::catalogue::HostFn;
use contract_for_fuzz::fixture::{map_batch, vec_batch, TypedModMapPrototype, TypedModVecPrototype};
use contract_for_fuzz::handle::{MapObj, VecObj};
use contract_for_fuzz::typed::{TypedFuzzInstruction, TypedModVec};
use contract_for_fuzz::word::FakeVal;

const MAP_WORD: u64 = 0x0000_0002_0000_004c;
const VEC0_WORD: u64 = 0x0000_0003_0000_004b;
const VEC1_WORD: u64 = 0x0000_0004_0000_004b;

fn key(x: u64) -> FakeVal {
    // a small unsigned integer word
    FakeVal((x << 8) | 6)
}

#[test]
fn ten_sequence_instructions_share_one_fixture() {
    let v_0 = VecObj::checked(FakeVal(VEC0_WORD)).unwrap();
    let v_1 = VecObj::checked(FakeVal(VEC1_WORD)).unwrap();
    let tests = vec![
        TypedModVecPrototype::VecGet(0),
        TypedModVecPrototype::VecGet(9),
        TypedModVecPrototype::VecGet(10),
        TypedModVecPrototype::VecDel(u32::MAX),
        TypedModVecPrototype::VecPut(3, key(1)),
        TypedModVecPrototype::VecInsert(11, key(2)),
        TypedModVecPrototype::VecSlice(5, 2),
        TypedModVecPrototype::VecAppend,
        TypedModVecPrototype::VecLen,
        TypedModVecPrototype::VecNew,
    ];
    let batch = vec_batch(&tests, &v_0, &v_1);
    assert_eq!(batch.len(), 10);
    let mut with_fixture = 0;
    for (t, i) in tests.iter().zip(batch.iter()) {
        let c = i.host_call();
        if *t != TypedModVecPrototype::VecNew {
            assert_eq!(c.args[0], VEC0_WORD);
            with_fixture += 1;
        } else {
            assert!(c.args.is_empty());
        }
    }
    assert_eq!(with_fixture, 9);
    assert_eq!(batch[7], TypedFuzzInstruction::Vec(TypedModVec::VecAppend(v_0, v_1)));
    assert_eq!(batch[7].host_call().args, vec![VEC0_WORD, VEC1_WORD]);
    assert_eq!(batch[2].host_call().function, HostFn::VecGet);
    assert_eq!(batch[2].host_call().args, vec![VEC0_WORD, 0x0000_000a_0000_0004]);
}

#[test]
fn map_batch_passes_the_same_map_each_time() {
    let map = MapObj::checked(FakeVal(MAP_WORD)).unwrap();
    let tests = vec![
        TypedModMapPrototype::MapGet(key(1)),
        TypedModMapPrototype::MapPut(key(1), key(2)),
        TypedModMapPrototype::MapHas(key(1)),
        TypedModMapPrototype::MapDel(key(7)),
        TypedModMapPrototype::MapLen,
        TypedModMapPrototype::MapKeyByPos(4),
        TypedModMapPrototype::MapValByPos(0),
        TypedModMapPrototype::MapKeys,
        TypedModMapPrototype::MapValues,
        TypedModMapPrototype::MapNewFromLinearMemory(0, 0, 0),
    ];
    let batch = map_batch(&tests, &map);
    assert_eq!(batch.len(), 10);
    for i in batch.iter().take(9) {
        assert_eq!(i.host_call().args[0], MAP_WORD);
    }
    assert_eq!(batch[9].host_call().function, HostFn::MapNewFromLinearMemory);
    assert_eq!(batch[9].host_call().args, vec![4, 4, 4]);
    assert_eq!(batch[1].host_call().args, vec![MAP_WORD, key(1).0, key(2).0]);
    // building the batch again gives the same instructions
    assert_eq!(map_batch(&tests, &map), batch);
}
