//! Batches of typed instructions that share pre-built fixtures: one map,
//! or two sequences, made once per batch. Each instruction of a batch takes
//! the fixture's handle as it was handed in; nothing here changes it.

use crate::handle::{MapObj, VecObj};
use crate::operand::Operand;
use crate::shape::Shape;
use crate::typed::{TypedFuzzInstruction, TypedModMap, TypedModVec};
use crate::word::FakeVal;
use vstd::prelude::*;

verus! {

/// An instruction of the `map` module with its fixture slots left open.
#[derive(Clone, Copy, Debug, PartialEq, Eq)]
pub enum TypedModMapPrototype {
    MapDel(FakeVal),
    MapGet(FakeVal),
    MapHas(FakeVal),
    MapKeyByPos(u32),
    MapKeys,
    MapLen,
    MapNew,
    MapNewFromLinearMemory(u32, u32, u32),
    MapPut(FakeVal, FakeVal),
    MapUnpackToLinearMemory(u32, u32, u32),
    MapValByPos(u32),
    MapValues,
}

impl TypedModMapPrototype {
    /// The instruction with the fixtures in its open slots.
    pub open spec fn spec_to_guest(self, map: MapObj) -> TypedFuzzInstruction {
        TypedFuzzInstruction::Maps(
            match self {
                TypedModMapPrototype::MapDel(a0) => TypedModMap::MapDel(map, a0),
                TypedModMapPrototype::MapGet(a0) => TypedModMap::MapGet(map, a0),
                TypedModMapPrototype::MapHas(a0) => TypedModMap::MapHas(map, a0),
                TypedModMapPrototype::MapKeyByPos(a0) => TypedModMap::MapKeyByPos(map, a0),
                TypedModMapPrototype::MapKeys => TypedModMap::MapKeys(map),
                TypedModMapPrototype::MapLen => TypedModMap::MapLen(map),
                TypedModMapPrototype::MapNew => TypedModMap::MapNew,
                TypedModMapPrototype::MapNewFromLinearMemory(a0, a1, a2) => TypedModMap::MapNewFromLinearMemory(a0, a1, a2),
                TypedModMapPrototype::MapPut(a0, a1) => TypedModMap::MapPut(map, a0, a1),
                TypedModMapPrototype::MapUnpackToLinearMemory(a0, a1, a2) => TypedModMap::MapUnpackToLinearMemory(map, a0, a1, a2),
                TypedModMapPrototype::MapValByPos(a0) => TypedModMap::MapValByPos(map, a0),
                TypedModMapPrototype::MapValues => TypedModMap::MapValues(map),
            },
        )
    }

    /// How many fixtures the instruction takes, in its leading slots.
    pub open spec fn fixture_slots(self) -> nat {
        match self {
            TypedModMapPrototype::MapDel(..) => 1,
            TypedModMapPrototype::MapGet(..) => 1,
            TypedModMapPrototype::MapHas(..) => 1,
            TypedModMapPrototype::MapKeyByPos(..) => 1,
            TypedModMapPrototype::MapKeys => 1,
            TypedModMapPrototype::MapLen => 1,
            TypedModMapPrototype::MapNew => 0,
            TypedModMapPrototype::MapNewFromLinearMemory(..) => 0,
            TypedModMapPrototype::MapPut(..) => 1,
            TypedModMapPrototype::MapUnpackToLinearMemory(..) => 1,
            TypedModMapPrototype::MapValByPos(..) => 1,
            TypedModMapPrototype::MapValues => 1,
        }
    }

    /// The instruction with the fixtures in its open slots.
    pub fn to_guest(&self, map: &MapObj) -> (r: TypedFuzzInstruction)
        ensures
            r == self.spec_to_guest(*map),
    {
        TypedFuzzInstruction::Maps(
            match self {
                TypedModMapPrototype::MapDel(a0) => TypedModMap::MapDel(*map, *a0),
                TypedModMapPrototype::MapGet(a0) => TypedModMap::MapGet(*map, *a0),
                TypedModMapPrototype::MapHas(a0) => TypedModMap::MapHas(*map, *a0),
                TypedModMapPrototype::MapKeyByPos(a0) => TypedModMap::MapKeyByPos(*map, *a0),
                TypedModMapPrototype::MapKeys => TypedModMap::MapKeys(*map),
                TypedModMapPrototype::MapLen => TypedModMap::MapLen(*map),
                TypedModMapPrototype::MapNew => TypedModMap::MapNew,
                TypedModMapPrototype::MapNewFromLinearMemory(a0, a1, a2) => TypedModMap::MapNewFromLinearMemory(*a0, *a1, *a2),
                TypedModMapPrototype::MapPut(a0, a1) => TypedModMap::MapPut(*map, *a0, *a1),
                TypedModMapPrototype::MapUnpackToLinearMemory(a0, a1, a2) => TypedModMap::MapUnpackToLinearMemory(*map, *a0, *a1, *a2),
                TypedModMapPrototype::MapValByPos(a0) => TypedModMap::MapValByPos(*map, *a0),
                TypedModMapPrototype::MapValues => TypedModMap::MapValues(*map),
            },
        )
    }
}

/// An instruction of the `vec` module with its fixture slots left open.
#[derive(Clone, Copy, Debug, PartialEq, Eq)]
pub enum TypedModVecPrototype {
    VecAppend,
    VecBack,
    VecBinarySearch(FakeVal),
    VecDel(u32),
    VecFirstIndexOf(FakeVal),
    VecFront,
    VecGet(u32),
    VecInsert(u32, FakeVal),
    VecLastIndexOf(FakeVal),
    VecLen,
    VecNew,
    VecNewFromLinearMemory(u32, u32),
    VecPopBack,
    VecPopFront,
    VecPushBack(FakeVal),
    VecPushFront(FakeVal),
    VecPut(u32, FakeVal),
    VecSlice(u32, u32),
    VecUnpackToLinearMemory(u32, u32),
}

impl TypedModVecPrototype {
    /// The instruction with the fixtures in its open slots.
    pub open spec fn spec_to_guest(self, v_0: VecObj, v_1: VecObj) -> TypedFuzzInstruction {
        TypedFuzzInstruction::Vec(
            match self {
                TypedModVecPrototype::VecAppend => TypedModVec::VecAppend(v_0, v_1),
                TypedModVecPrototype::VecBack => TypedModVec::VecBack(v_0),
                TypedModVecPrototype::VecBinarySearch(a0) => TypedModVec::VecBinarySearch(v_0, a0),
                TypedModVecPrototype::VecDel(a0) => TypedModVec::VecDel(v_0, a0),
                TypedModVecPrototype::VecFirstIndexOf(a0) => TypedModVec::VecFirstIndexOf(v_0, a0),
                TypedModVecPrototype::VecFront => TypedModVec::VecFront(v_0),
                TypedModVecPrototype::VecGet(a0) => TypedModVec::VecGet(v_0, a0),
                TypedModVecPrototype::VecInsert(a0, a1) => TypedModVec::VecInsert(v_0, a0, a1),
                TypedModVecPrototype::VecLastIndexOf(a0) => TypedModVec::VecLastIndexOf(v_0, a0),
                TypedModVecPrototype::VecLen => TypedModVec::VecLen(v_0),
                TypedModVecPrototype::VecNew => TypedModVec::VecNew,
                TypedModVecPrototype::VecNewFromLinearMemory(a0, a1) => TypedModVec::VecNewFromLinearMemory(a0, a1),
                TypedModVecPrototype::VecPopBack => TypedModVec::VecPopBack(v_0),
                TypedModVecPrototype::VecPopFront => TypedModVec::VecPopFront(v_0),
                TypedModVecPrototype::VecPushBack(a0) => TypedModVec::VecPushBack(v_0, a0),
                TypedModVecPrototype::VecPushFront(a0) => TypedModVec::VecPushFront(v_0, a0),
                TypedModVecPrototype::VecPut(a0, a1) => TypedModVec::VecPut(v_0, a0, a1),
                TypedModVecPrototype::VecSlice(a0, a1) => TypedModVec::VecSlice(v_0, a0, a1),
                TypedModVecPrototype::VecUnpackToLinearMemory(a0, a1) => TypedModVec::VecUnpackToLinearMemory(v_0, a0, a1),
            },
        )
    }

    /// How many fixtures the instruction takes, in its leading slots.
    pub open spec fn fixture_slots(self) -> nat {
        match self {
            TypedModVecPrototype::VecAppend => 2,
            TypedModVecPrototype::VecBack => 1,
            TypedModVecPrototype::VecBinarySearch(..) => 1,
            TypedModVecPrototype::VecDel(..) => 1,
            TypedModVecPrototype::VecFirstIndexOf(..) => 1,
            TypedModVecPrototype::VecFront => 1,
            TypedModVecPrototype::VecGet(..) => 1,
            TypedModVecPrototype::VecInsert(..) => 1,
            TypedModVecPrototype::VecLastIndexOf(..) => 1,
            TypedModVecPrototype::VecLen => 1,
            TypedModVecPrototype::VecNew => 0,
            TypedModVecPrototype::VecNewFromLinearMemory(..) => 0,
            TypedModVecPrototype::VecPopBack => 1,
            TypedModVecPrototype::VecPopFront => 1,
            TypedModVecPrototype::VecPushBack(..) => 1,
            TypedModVecPrototype::VecPushFront(..) => 1,
            TypedModVecPrototype::VecPut(..) => 1,
            TypedModVecPrototype::VecSlice(..) => 1,
            TypedModVecPrototype::VecUnpackToLinearMemory(..) => 1,
        }
    }

    /// The instruction with the fixtures in its open slots.
    pub fn to_guest(&self, v_0: &VecObj, v_1: &VecObj) -> (r: TypedFuzzInstruction)
        ensures
            r == self.spec_to_guest(*v_0, *v_1),
    {
        TypedFuzzInstruction::Vec(
            match self {
                TypedModVecPrototype::VecAppend => TypedModVec::VecAppend(*v_0, *v_1),
                TypedModVecPrototype::VecBack => TypedModVec::VecBack(*v_0),
                TypedModVecPrototype::VecBinarySearch(a0) => TypedModVec::VecBinarySearch(*v_0, *a0),
                TypedModVecPrototype::VecDel(a0) => TypedModVec::VecDel(*v_0, *a0),
                TypedModVecPrototype::VecFirstIndexOf(a0) => TypedModVec::VecFirstIndexOf(*v_0, *a0),
                TypedModVecPrototype::VecFront => TypedModVec::VecFront(*v_0),
                TypedModVecPrototype::VecGet(a0) => TypedModVec::VecGet(*v_0, *a0),
                TypedModVecPrototype::VecInsert(a0, a1) => TypedModVec::VecInsert(*v_0, *a0, *a1),
                TypedModVecPrototype::VecLastIndexOf(a0) => TypedModVec::VecLastIndexOf(*v_0, *a0),
                TypedModVecPrototype::VecLen => TypedModVec::VecLen(*v_0),
                TypedModVecPrototype::VecNew => TypedModVec::VecNew,
                TypedModVecPrototype::VecNewFromLinearMemory(a0, a1) => TypedModVec::VecNewFromLinearMemory(*a0, *a1),
                TypedModVecPrototype::VecPopBack => TypedModVec::VecPopBack(*v_0),
                TypedModVecPrototype::VecPopFront => TypedModVec::VecPopFront(*v_0),
                TypedModVecPrototype::VecPushBack(a0) => TypedModVec::VecPushBack(*v_0, *a0),
                TypedModVecPrototype::VecPushFront(a0) => TypedModVec::VecPushFront(*v_0, *a0),
                TypedModVecPrototype::VecPut(a0, a1) => TypedModVec::VecPut(*v_0, *a0, *a1),
                TypedModVecPrototype::VecSlice(a0, a1) => TypedModVec::VecSlice(*v_0, *a0, *a1),
                TypedModVecPrototype::VecUnpackToLinearMemory(a0, a1) => TypedModVec::VecUnpackToLinearMemory(*v_0, *a0, *a1),
            },
        )
    }
}

/// The batch of instructions that share the map fixture `map`, one per
/// prototype, in order.
pub fn map_batch(tests: &Vec<TypedModMapPrototype>, map: &MapObj) -> (r: Vec<TypedFuzzInstruction>)
    ensures
        r@.len() == tests@.len(),
        forall|k: int| 0 <= k < r@.len() ==> r@[k] == #[trigger] tests@[k].spec_to_guest(*map),
{
    let mut r: Vec<TypedFuzzInstruction> = Vec::new();
    let mut k: usize = 0;
    while k < tests.len()
        invariant
            k <= tests@.len(),
            r@.len() == k,
            forall|j: int| 0 <= j < k ==> r@[j] == #[trigger] tests@[j].spec_to_guest(*map),
        decreases tests@.len() - k,
    {
        r.push(tests[k].to_guest(map));
        k = k + 1;
    }
    r
}

/// The batch of instructions that share the sequence fixtures `v_0` and
/// `v_1`, one per prototype, in order.
pub fn vec_batch(tests: &Vec<TypedModVecPrototype>, v_0: &VecObj, v_1: &VecObj) -> (r: Vec<
    TypedFuzzInstruction,
>)
    ensures
        r@.len() == tests@.len(),
        forall|k: int| 0 <= k < r@.len() ==> r@[k] == #[trigger] tests@[k].spec_to_guest(*v_0, *v_1),
{
    let mut r: Vec<TypedFuzzInstruction> = Vec::new();
    let mut k: usize = 0;
    while k < tests.len()
        invariant
            k <= tests@.len(),
            r@.len() == k,
            forall|j: int| 0 <= j < k ==> r@[j] == #[trigger] tests@[j].spec_to_guest(*v_0, *v_1),
        decreases tests@.len() - k,
    {
        r.push(tests[k].to_guest(v_0, v_1));
        k = k + 1;
    }
    r
}

/// Every instruction of a map batch that takes the fixture gets, in its
/// first slot, the very handle that the batch was built with: the host
/// receives the same fixture word for each of them.
pub proof fn lemma_map_batch_shares_fixture(
    tests: Seq<TypedModMapPrototype>,
    map: MapObj,
    batch: Seq<TypedFuzzInstruction>,
)
    requires
        batch.len() == tests.len(),
        forall|k: int| 0 <= k < batch.len() ==> batch[k] == #[trigger] tests[k].spec_to_guest(map),
    ensures
        forall|k: int|
            0 <= k < batch.len() && tests[k].fixture_slots() == 1 ==> (#[trigger] batch[k]).operands()[0]
                == Operand::Shaped(Shape::MapObject, FakeVal(map.spec_word())),
{
    assert forall|k: int|
        0 <= k < batch.len() && tests[k].fixture_slots() == 1 implies (#[trigger] batch[k]).operands()[0]
            == Operand::Shaped(Shape::MapObject, FakeVal(map.spec_word())) by {
        assert(batch[k] == tests[k].spec_to_guest(map));
    }
}

/// Every instruction of a sequence batch gets the first fixture's handle in
/// its first slot when it takes one fixture, and both handles, in order, in
/// its first two slots when it takes two.
pub proof fn lemma_vec_batch_shares_fixture(
    tests: Seq<TypedModVecPrototype>,
    v_0: VecObj,
    v_1: VecObj,
    batch: Seq<TypedFuzzInstruction>,
)
    requires
        batch.len() == tests.len(),
        forall|k: int| 0 <= k < batch.len() ==> batch[k] == #[trigger] tests[k].spec_to_guest(v_0, v_1),
    ensures
        forall|k: int|
            0 <= k < batch.len() && tests[k].fixture_slots() >= 1 ==> (#[trigger] batch[k]).operands()[0]
                == Operand::Shaped(Shape::VecObject, FakeVal(v_0.spec_word())),
        forall|k: int|
            0 <= k < batch.len() && tests[k].fixture_slots() == 2 ==> (#[trigger] batch[k]).operands()[1]
                == Operand::Shaped(Shape::VecObject, FakeVal(v_1.spec_word())),
{
    assert forall|k: int|
        0 <= k < batch.len() && tests[k].fixture_slots() >= 1 implies (#[trigger] batch[k]).operands()[0]
            == Operand::Shaped(Shape::VecObject, FakeVal(v_0.spec_word())) by {
        assert(batch[k] == tests[k].spec_to_guest(v_0, v_1));
    }
    assert forall|k: int|
        0 <= k < batch.len() && tests[k].fixture_slots() == 2 implies (#[trigger] batch[k]).operands()[1]
            == Operand::Shaped(Shape::VecObject, FakeVal(v_1.spec_word())) by {
        assert(batch[k] == tests[k].spec_to_guest(v_0, v_1));
    }
}

} // verus!
