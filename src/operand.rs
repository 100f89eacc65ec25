//! Operands and their coercion into the words that a host call receives.

use crate::catalogue::{HostFn, Param};
use crate::shape::Shape;
use crate::word::FakeVal;
use soroban_env_common::Val;
use vstd::prelude::*;

verus! {

/// The storage duration that ledger functions take.
#[derive(Clone, Copy, Debug, PartialEq, Eq, Structural)]
pub enum StorageType {
    Temporary,
    Persistent,
    Instance,
}

impl StorageType {
    /// The number by which the host interface passes the duration.
    pub open spec fn code(self) -> u64 {
        match self {
            StorageType::Temporary => 0,
            StorageType::Persistent => 1,
            StorageType::Instance => 2,
        }
    }
}

/// The word of a 32-bit number with the `U32Val` tag: the number in the
/// high half, the tag code 4 in the low byte.
pub open spec fn u32_word(x: u32) -> u64 {
    (x as int * 0x1_0000_0000 + 4) as u64
}

/// Relies on `Val::from(u32)`, which builds a `U32Val` from the number as
/// its major part, a zero minor part and the `U32Val` tag (4).
#[verifier::external_body]
fn u32_payload(x: u32) -> (r: u64)
    ensures
        r == u32_word(x),
{
    Val::from(x).get_payload()
}

/// One operand of an instruction, as it stands in the instruction's slot.
#[derive(Clone, Copy, Debug, PartialEq, Eq, Structural)]
pub enum Operand {
    /// A word passed as it is, whatever its tag.
    Word(FakeVal),
    /// A 32-bit number, passed with the `U32Val` tag.
    U32(u32),
    /// A native 64-bit unsigned number.
    U64(u64),
    /// A native 64-bit signed number.
    I64(i64),
    /// A storage duration.
    Storage(StorageType),
    /// A word that was checked to have the given shape.
    Shaped(Shape, FakeVal),
}

impl Operand {
    /// The word that the host receives for this operand.
    pub open spec fn word(self) -> u64 {
        match self {
            Operand::Word(w) => w.0,
            Operand::U32(x) => u32_word(x),
            Operand::U64(x) => x,
            Operand::I64(x) => x as u64,
            Operand::Storage(t) => t.code(),
            Operand::Shaped(_, w) => w.0,
        }
    }

    /// The word held by a `Word` or `Shaped` operand.
    pub open spec fn word_part(self) -> FakeVal {
        match self {
            Operand::Word(w) => w,
            Operand::Shaped(_, w) => w,
            _ => FakeVal(0),
        }
    }

    /// The number held by a `U32` operand.
    pub open spec fn u32_part(self) -> u32 {
        match self {
            Operand::U32(x) => x,
            _ => 0,
        }
    }

    /// The number held by a `U64` operand.
    pub open spec fn u64_part(self) -> u64 {
        match self {
            Operand::U64(x) => x,
            _ => 0,
        }
    }

    /// The number held by an `I64` operand.
    pub open spec fn i64_part(self) -> i64 {
        match self {
            Operand::I64(x) => x,
            _ => 0,
        }
    }

    /// The duration held by a `Storage` operand.
    pub open spec fn storage_part(self) -> StorageType {
        match self {
            Operand::Storage(t) => t,
            _ => StorageType::Temporary,
        }
    }

    /// Whether the raw tier may put this operand in a parameter of type
    /// `p`: a word for every parameter that is a value word, whatever its
    /// shape or duration, and the native number for a number parameter.
    pub open spec fn raw_fits(self, p: Param) -> bool {
        match p {
            Param::U32Val => self is U32,
            Param::U64 => self is U64,
            Param::I64 => self is I64,
            _ => self is Word,
        }
    }

    /// Whether the typed tier may put this operand in a parameter of type
    /// `p`: the operand has the declared type, a shaped word the declared
    /// shape.
    pub open spec fn typed_fits(self, p: Param) -> bool {
        match p {
            Param::Any => self is Word,
            Param::U32Val => self is U32,
            Param::U64 => self is U64,
            Param::I64 => self is I64,
            Param::StorageType => self is Storage,
            Param::Shaped(s) => self matches Operand::Shaped(t, _) && t == s,
        }
    }

    /// Whether a shaped word's tag has the shape it is labelled with.
    pub open spec fn tag_agrees(self) -> bool {
        match self {
            Operand::Shaped(s, w) => s.accepts(w.0),
            _ => true,
        }
    }

    /// The word that the host receives for this operand.
    pub fn to_word(&self) -> (r: u64)
        ensures
            r == self.word(),
    {
        match self {
            Operand::Word(w) => w.0,
            Operand::U32(x) => u32_payload(*x),
            Operand::U64(x) => *x,
            Operand::I64(x) => *x as u64,
            Operand::Storage(t) => match t {
                StorageType::Temporary => 0,
                StorageType::Persistent => 1,
                StorageType::Instance => 2,
            },
            Operand::Shaped(_, w) => w.0,
        }
    }

    /// The word held by a `Word` or `Shaped` operand.
    pub fn get_word(&self) -> (r: FakeVal)
        ensures
            r == self.word_part(),
    {
        match self {
            Operand::Word(w) => *w,
            Operand::Shaped(_, w) => *w,
            _ => FakeVal(0),
        }
    }

    /// The number held by a `U32` operand.
    pub fn get_u32(&self) -> (r: u32)
        ensures
            r == self.u32_part(),
    {
        match self {
            Operand::U32(x) => *x,
            _ => 0,
        }
    }

    /// The number held by a `U64` operand.
    pub fn get_u64(&self) -> (r: u64)
        ensures
            r == self.u64_part(),
    {
        match self {
            Operand::U64(x) => *x,
            _ => 0,
        }
    }

    /// The number held by an `I64` operand.
    pub fn get_i64(&self) -> (r: i64)
        ensures
            r == self.i64_part(),
    {
        match self {
            Operand::I64(x) => *x,
            _ => 0,
        }
    }

    /// The duration held by a `Storage` operand.
    pub fn get_storage(&self) -> (r: StorageType)
        ensures
            r == self.storage_part(),
    {
        match self {
            Operand::Storage(t) => *t,
            _ => StorageType::Temporary,
        }
    }

    /// Whether the raw tier may put this operand in a parameter of type `p`.
    pub fn fits_raw(&self, p: &Param) -> (r: bool)
        ensures
            r == self.raw_fits(*p),
    {
        match p {
            Param::U32Val => matches!(self, Operand::U32(_)),
            Param::U64 => matches!(self, Operand::U64(_)),
            Param::I64 => matches!(self, Operand::I64(_)),
            _ => matches!(self, Operand::Word(_)),
        }
    }

    /// Whether the typed tier may put this operand in a parameter of type
    /// `p`, with a shaped word's tag checked against its shape.
    pub fn fits_typed(&self, p: &Param) -> (r: bool)
        ensures
            r == (self.typed_fits(*p) && self.tag_agrees()),
    {
        match (p, self) {
            (Param::Any, Operand::Word(_)) => true,
            (Param::U32Val, Operand::U32(_)) => true,
            (Param::U64, Operand::U64(_)) => true,
            (Param::I64, Operand::I64(_)) => true,
            (Param::StorageType, Operand::Storage(_)) => true,
            (Param::Shaped(s), Operand::Shaped(t, w)) => *s == *t && t.admits(*w),
            _ => false,
        }
    }
}

/// The words that the host receives for a list of operands, in order.
pub open spec fn words_of(ops: Seq<Operand>) -> Seq<u64> {
    ops.map_values(|o: Operand| o.word())
}

/// Whether a raw operand list has one fitting operand per parameter.
pub open spec fn raw_conforms(ps: Seq<Param>, ops: Seq<Operand>) -> bool {
    &&& ops.len() == ps.len()
    &&& forall|k: int| 0 <= k < ops.len() ==> #[trigger] ops[k].raw_fits(ps[k])
}

/// Whether a typed operand list has one fitting operand per parameter.
pub open spec fn typed_conforms(ps: Seq<Param>, ops: Seq<Operand>) -> bool {
    &&& ops.len() == ps.len()
    &&& forall|k: int| 0 <= k < ops.len() ==> #[trigger] ops[k].typed_fits(ps[k])
}

/// Whether every shaped word in the list has the shape it is labelled with.
pub open spec fn tags_agree(ops: Seq<Operand>) -> bool {
    forall|k: int| 0 <= k < ops.len() ==> #[trigger] ops[k].tag_agrees()
}

/// Whether a raw operand list has one fitting operand per parameter.
pub fn conforms_raw(ps: &Vec<Param>, ops: &Vec<Operand>) -> (r: bool)
    ensures
        r == raw_conforms(ps@, ops@),
{
    if ps.len() != ops.len() {
        return false;
    }
    let mut k: usize = 0;
    while k < ops.len()
        invariant
            ps@.len() == ops@.len(),
            k <= ops@.len(),
            forall|j: int| 0 <= j < k ==> #[trigger] ops@[j].raw_fits(ps@[j]),
        decreases ops@.len() - k,
    {
        if !ops[k].fits_raw(&ps[k]) {
            return false;
        }
        k = k + 1;
    }
    true
}

/// Whether a typed operand list has one fitting operand per parameter,
/// each shaped word with a tag of its shape.
pub fn conforms_typed(ps: &Vec<Param>, ops: &Vec<Operand>) -> (r: bool)
    ensures
        r == (typed_conforms(ps@, ops@) && tags_agree(ops@)),
{
    if ps.len() != ops.len() {
        return false;
    }
    let mut k: usize = 0;
    while k < ops.len()
        invariant
            ps@.len() == ops@.len(),
            k <= ops@.len(),
            forall|j: int| 0 <= j < k ==> #[trigger] ops@[j].typed_fits(ps@[j]),
            forall|j: int| 0 <= j < k ==> #[trigger] ops@[j].tag_agrees(),
        decreases ops@.len() - k,
    {
        if !ops[k].fits_typed(&ps[k]) {
            return false;
        }
        k = k + 1;
    }
    true
}

/// A host call: the function, and the words it receives, in order.
pub struct HostCall {
    pub function: HostFn,
    pub args: Vec<u64>,
}

/// Coerces each operand, in order, into the word the host receives.
pub fn coerce_all(ops: &Vec<Operand>) -> (r: Vec<u64>)
    ensures
        r@ == words_of(ops@),
{
    let mut r: Vec<u64> = Vec::new();
    let mut k: usize = 0;
    while k < ops.len()
        invariant
            k <= ops@.len(),
            r@.len() == k,
            forall|j: int| 0 <= j < k ==> #[trigger] r@[j] == ops@[j].word(),
        decreases ops@.len() - k,
    {
        let x = ops[k].to_word();
        r.push(x);
        k = k + 1;
    }
    assert(r@ =~= words_of(ops@));
    r
}

} // verus!
