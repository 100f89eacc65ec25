//! Handles: value words that were checked to carry a given shape. The
//! checked constructor is the only way to make one, so an instruction of
//! the typed tier cannot hold a handle whose tag disagrees with its shape.

use crate::shape::Shape;
use crate::word::FakeVal;
use vstd::prelude::*;

verus! {

/// A word checked to carry the `U64Object` shape.
#[derive(Clone, Copy, Debug, PartialEq, Eq)]
pub struct U64Obj {
    word: u64,
}

impl U64Obj {
    #[verifier::type_invariant]
    spec fn shaped(self) -> bool {
        Shape::U64Object.accepts(self.word)
    }

    /// The handle's word.
    pub closed spec fn spec_word(self) -> u64 {
        self.word
    }

    /// The handle made of the word `w`.
    pub closed spec fn spec_new(w: u64) -> U64Obj {
        U64Obj { word: w }
    }

    /// The handle made of `w`, if `w` has the `U64Object` shape.
    pub open spec fn spec_checked(w: u64) -> Option<U64Obj> {
        if Shape::U64Object.accepts(w) {
            Some(Self::spec_new(w))
        } else {
            None
        }
    }

    /// The handle made of `w`, if `w` has the `U64Object` shape.
    pub fn checked(w: FakeVal) -> (r: Option<U64Obj>)
        ensures
            r == Self::spec_checked(w.0),
    {
        if Shape::U64Object.admits(w) {
            Some(U64Obj { word: w.0 })
        } else {
            None
        }
    }

    /// The handle's word, which has the `U64Object` shape.
    pub fn word(&self) -> (r: FakeVal)
        ensures
            r == FakeVal(self.spec_word()),
            Shape::U64Object.accepts(r.0),
    {
        proof {
            use_type_invariant(self);
        }
        FakeVal(self.word)
    }

    /// A handle made of a word holds that word.
    pub broadcast proof fn lemma_new_word(w: u64)
        ensures
            (#[trigger] Self::spec_new(w)).spec_word() == w,
    {
    }

    /// Checking a handle's word against the shape again gives back the
    /// same handle: the word carries the whole handle, bit for bit.
    pub proof fn lemma_checked_word(h: U64Obj)
        requires
            Shape::U64Object.accepts(h.spec_word()),
        ensures
            Self::spec_checked(h.spec_word()) == Some(h),
    {
    }

    /// A handle is the one made of its word.
    pub broadcast proof fn lemma_word_new(h: U64Obj)
        ensures
            Self::spec_new(#[trigger] h.spec_word()) == h,
    {
    }
}

/// A word checked to carry the `I64Object` shape.
#[derive(Clone, Copy, Debug, PartialEq, Eq)]
pub struct I64Obj {
    word: u64,
}

impl I64Obj {
    #[verifier::type_invariant]
    spec fn shaped(self) -> bool {
        Shape::I64Object.accepts(self.word)
    }

    /// The handle's word.
    pub closed spec fn spec_word(self) -> u64 {
        self.word
    }

    /// The handle made of the word `w`.
    pub closed spec fn spec_new(w: u64) -> I64Obj {
        I64Obj { word: w }
    }

    /// The handle made of `w`, if `w` has the `I64Object` shape.
    pub open spec fn spec_checked(w: u64) -> Option<I64Obj> {
        if Shape::I64Object.accepts(w) {
            Some(Self::spec_new(w))
        } else {
            None
        }
    }

    /// The handle made of `w`, if `w` has the `I64Object` shape.
    pub fn checked(w: FakeVal) -> (r: Option<I64Obj>)
        ensures
            r == Self::spec_checked(w.0),
    {
        if Shape::I64Object.admits(w) {
            Some(I64Obj { word: w.0 })
        } else {
            None
        }
    }

    /// The handle's word, which has the `I64Object` shape.
    pub fn word(&self) -> (r: FakeVal)
        ensures
            r == FakeVal(self.spec_word()),
            Shape::I64Object.accepts(r.0),
    {
        proof {
            use_type_invariant(self);
        }
        FakeVal(self.word)
    }

    /// A handle made of a word holds that word.
    pub broadcast proof fn lemma_new_word(w: u64)
        ensures
            (#[trigger] Self::spec_new(w)).spec_word() == w,
    {
    }

    /// Checking a handle's word against the shape again gives back the
    /// same handle: the word carries the whole handle, bit for bit.
    pub proof fn lemma_checked_word(h: I64Obj)
        requires
            Shape::I64Object.accepts(h.spec_word()),
        ensures
            Self::spec_checked(h.spec_word()) == Some(h),
    {
    }

    /// A handle is the one made of its word.
    pub broadcast proof fn lemma_word_new(h: I64Obj)
        ensures
            Self::spec_new(#[trigger] h.spec_word()) == h,
    {
    }
}

/// A word checked to carry the `TimepointObject` shape.
#[derive(Clone, Copy, Debug, PartialEq, Eq)]
pub struct TimepointObj {
    word: u64,
}

impl TimepointObj {
    #[verifier::type_invariant]
    spec fn shaped(self) -> bool {
        Shape::TimepointObject.accepts(self.word)
    }

    /// The handle's word.
    pub closed spec fn spec_word(self) -> u64 {
        self.word
    }

    /// The handle made of the word `w`.
    pub closed spec fn spec_new(w: u64) -> TimepointObj {
        TimepointObj { word: w }
    }

    /// The handle made of `w`, if `w` has the `TimepointObject` shape.
    pub open spec fn spec_checked(w: u64) -> Option<TimepointObj> {
        if Shape::TimepointObject.accepts(w) {
            Some(Self::spec_new(w))
        } else {
            None
        }
    }

    /// The handle made of `w`, if `w` has the `TimepointObject` shape.
    pub fn checked(w: FakeVal) -> (r: Option<TimepointObj>)
        ensures
            r == Self::spec_checked(w.0),
    {
        if Shape::TimepointObject.admits(w) {
            Some(TimepointObj { word: w.0 })
        } else {
            None
        }
    }

    /// The handle's word, which has the `TimepointObject` shape.
    pub fn word(&self) -> (r: FakeVal)
        ensures
            r == FakeVal(self.spec_word()),
            Shape::TimepointObject.accepts(r.0),
    {
        proof {
            use_type_invariant(self);
        }
        FakeVal(self.word)
    }

    /// A handle made of a word holds that word.
    pub broadcast proof fn lemma_new_word(w: u64)
        ensures
            (#[trigger] Self::spec_new(w)).spec_word() == w,
    {
    }

    /// Checking a handle's word against the shape again gives back the
    /// same handle: the word carries the whole handle, bit for bit.
    pub proof fn lemma_checked_word(h: TimepointObj)
        requires
            Shape::TimepointObject.accepts(h.spec_word()),
        ensures
            Self::spec_checked(h.spec_word()) == Some(h),
    {
    }

    /// A handle is the one made of its word.
    pub broadcast proof fn lemma_word_new(h: TimepointObj)
        ensures
            Self::spec_new(#[trigger] h.spec_word()) == h,
    {
    }
}

/// A word checked to carry the `DurationObject` shape.
#[derive(Clone, Copy, Debug, PartialEq, Eq)]
pub struct DurationObj {
    word: u64,
}

impl DurationObj {
    #[verifier::type_invariant]
    spec fn shaped(self) -> bool {
        Shape::DurationObject.accepts(self.word)
    }

    /// The handle's word.
    pub closed spec fn spec_word(self) -> u64 {
        self.word
    }

    /// The handle made of the word `w`.
    pub closed spec fn spec_new(w: u64) -> DurationObj {
        DurationObj { word: w }
    }

    /// The handle made of `w`, if `w` has the `DurationObject` shape.
    pub open spec fn spec_checked(w: u64) -> Option<DurationObj> {
        if Shape::DurationObject.accepts(w) {
            Some(Self::spec_new(w))
        } else {
            None
        }
    }

    /// The handle made of `w`, if `w` has the `DurationObject` shape.
    pub fn checked(w: FakeVal) -> (r: Option<DurationObj>)
        ensures
            r == Self::spec_checked(w.0),
    {
        if Shape::DurationObject.admits(w) {
            Some(DurationObj { word: w.0 })
        } else {
            None
        }
    }

    /// The handle's word, which has the `DurationObject` shape.
    pub fn word(&self) -> (r: FakeVal)
        ensures
            r == FakeVal(self.spec_word()),
            Shape::DurationObject.accepts(r.0),
    {
        proof {
            use_type_invariant(self);
        }
        FakeVal(self.word)
    }

    /// A handle made of a word holds that word.
    pub broadcast proof fn lemma_new_word(w: u64)
        ensures
            (#[trigger] Self::spec_new(w)).spec_word() == w,
    {
    }

    /// Checking a handle's word against the shape again gives back the
    /// same handle: the word carries the whole handle, bit for bit.
    pub proof fn lemma_checked_word(h: DurationObj)
        requires
            Shape::DurationObject.accepts(h.spec_word()),
        ensures
            Self::spec_checked(h.spec_word()) == Some(h),
    {
    }

    /// A handle is the one made of its word.
    pub broadcast proof fn lemma_word_new(h: DurationObj)
        ensures
            Self::spec_new(#[trigger] h.spec_word()) == h,
    {
    }
}

/// A word checked to carry the `U128Object` shape.
#[derive(Clone, Copy, Debug, PartialEq, Eq)]
pub struct U128Obj {
    word: u64,
}

impl U128Obj {
    #[verifier::type_invariant]
    spec fn shaped(self) -> bool {
        Shape::U128Object.accepts(self.word)
    }

    /// The handle's word.
    pub closed spec fn spec_word(self) -> u64 {
        self.word
    }

    /// The handle made of the word `w`.
    pub closed spec fn spec_new(w: u64) -> U128Obj {
        U128Obj { word: w }
    }

    /// The handle made of `w`, if `w` has the `U128Object` shape.
    pub open spec fn spec_checked(w: u64) -> Option<U128Obj> {
        if Shape::U128Object.accepts(w) {
            Some(Self::spec_new(w))
        } else {
            None
        }
    }

    /// The handle made of `w`, if `w` has the `U128Object` shape.
    pub fn checked(w: FakeVal) -> (r: Option<U128Obj>)
        ensures
            r == Self::spec_checked(w.0),
    {
        if Shape::U128Object.admits(w) {
            Some(U128Obj { word: w.0 })
        } else {
            None
        }
    }

    /// The handle's word, which has the `U128Object` shape.
    pub fn word(&self) -> (r: FakeVal)
        ensures
            r == FakeVal(self.spec_word()),
            Shape::U128Object.accepts(r.0),
    {
        proof {
            use_type_invariant(self);
        }
        FakeVal(self.word)
    }

    /// A handle made of a word holds that word.
    pub broadcast proof fn lemma_new_word(w: u64)
        ensures
            (#[trigger] Self::spec_new(w)).spec_word() == w,
    {
    }

    /// Checking a handle's word against the shape again gives back the
    /// same handle: the word carries the whole handle, bit for bit.
    pub proof fn lemma_checked_word(h: U128Obj)
        requires
            Shape::U128Object.accepts(h.spec_word()),
        ensures
            Self::spec_checked(h.spec_word()) == Some(h),
    {
    }

    /// A handle is the one made of its word.
    pub broadcast proof fn lemma_word_new(h: U128Obj)
        ensures
            Self::spec_new(#[trigger] h.spec_word()) == h,
    {
    }
}

/// A word checked to carry the `I128Object` shape.
#[derive(Clone, Copy, Debug, PartialEq, Eq)]
pub struct I128Obj {
    word: u64,
}

impl I128Obj {
    #[verifier::type_invariant]
    spec fn shaped(self) -> bool {
        Shape::I128Object.accepts(self.word)
    }

    /// The handle's word.
    pub closed spec fn spec_word(self) -> u64 {
        self.word
    }

    /// The handle made of the word `w`.
    pub closed spec fn spec_new(w: u64) -> I128Obj {
        I128Obj { word: w }
    }

    /// The handle made of `w`, if `w` has the `I128Object` shape.
    pub open spec fn spec_checked(w: u64) -> Option<I128Obj> {
        if Shape::I128Object.accepts(w) {
            Some(Self::spec_new(w))
        } else {
            None
        }
    }

    /// The handle made of `w`, if `w` has the `I128Object` shape.
    pub fn checked(w: FakeVal) -> (r: Option<I128Obj>)
        ensures
            r == Self::spec_checked(w.0),
    {
        if Shape::I128Object.admits(w) {
            Some(I128Obj { word: w.0 })
        } else {
            None
        }
    }

    /// The handle's word, which has the `I128Object` shape.
    pub fn word(&self) -> (r: FakeVal)
        ensures
            r == FakeVal(self.spec_word()),
            Shape::I128Object.accepts(r.0),
    {
        proof {
            use_type_invariant(self);
        }
        FakeVal(self.word)
    }

    /// A handle made of a word holds that word.
    pub broadcast proof fn lemma_new_word(w: u64)
        ensures
            (#[trigger] Self::spec_new(w)).spec_word() == w,
    {
    }

    /// Checking a handle's word against the shape again gives back the
    /// same handle: the word carries the whole handle, bit for bit.
    pub proof fn lemma_checked_word(h: I128Obj)
        requires
            Shape::I128Object.accepts(h.spec_word()),
        ensures
            Self::spec_checked(h.spec_word()) == Some(h),
    {
    }

    /// A handle is the one made of its word.
    pub broadcast proof fn lemma_word_new(h: I128Obj)
        ensures
            Self::spec_new(#[trigger] h.spec_word()) == h,
    {
    }
}

/// A word checked to carry the `U256Object` shape.
#[derive(Clone, Copy, Debug, PartialEq, Eq)]
pub struct U256Obj {
    word: u64,
}

impl U256Obj {
    #[verifier::type_invariant]
    spec fn shaped(self) -> bool {
        Shape::U256Object.accepts(self.word)
    }

    /// The handle's word.
    pub closed spec fn spec_word(self) -> u64 {
        self.word
    }

    /// The handle made of the word `w`.
    pub closed spec fn spec_new(w: u64) -> U256Obj {
        U256Obj { word: w }
    }

    /// The handle made of `w`, if `w` has the `U256Object` shape.
    pub open spec fn spec_checked(w: u64) -> Option<U256Obj> {
        if Shape::U256Object.accepts(w) {
            Some(Self::spec_new(w))
        } else {
            None
        }
    }

    /// The handle made of `w`, if `w` has the `U256Object` shape.
    pub fn checked(w: FakeVal) -> (r: Option<U256Obj>)
        ensures
            r == Self::spec_checked(w.0),
    {
        if Shape::U256Object.admits(w) {
            Some(U256Obj { word: w.0 })
        } else {
            None
        }
    }

    /// The handle's word, which has the `U256Object` shape.
    pub fn word(&self) -> (r: FakeVal)
        ensures
            r == FakeVal(self.spec_word()),
            Shape::U256Object.accepts(r.0),
    {
        proof {
            use_type_invariant(self);
        }
        FakeVal(self.word)
    }

    /// A handle made of a word holds that word.
    pub broadcast proof fn lemma_new_word(w: u64)
        ensures
            (#[trigger] Self::spec_new(w)).spec_word() == w,
    {
    }

    /// Checking a handle's word against the shape again gives back the
    /// same handle: the word carries the whole handle, bit for bit.
    pub proof fn lemma_checked_word(h: U256Obj)
        requires
            Shape::U256Object.accepts(h.spec_word()),
        ensures
            Self::spec_checked(h.spec_word()) == Some(h),
    {
    }

    /// A handle is the one made of its word.
    pub broadcast proof fn lemma_word_new(h: U256Obj)
        ensures
            Self::spec_new(#[trigger] h.spec_word()) == h,
    {
    }
}

/// A word checked to carry the `I256Object` shape.
#[derive(Clone, Copy, Debug, PartialEq, Eq)]
pub struct I256Obj {
    word: u64,
}

impl I256Obj {
    #[verifier::type_invariant]
    spec fn shaped(self) -> bool {
        Shape::I256Object.accepts(self.word)
    }

    /// The handle's word.
    pub closed spec fn spec_word(self) -> u64 {
        self.word
    }

    /// The handle made of the word `w`.
    pub closed spec fn spec_new(w: u64) -> I256Obj {
        I256Obj { word: w }
    }

    /// The handle made of `w`, if `w` has the `I256Object` shape.
    pub open spec fn spec_checked(w: u64) -> Option<I256Obj> {
        if Shape::I256Object.accepts(w) {
            Some(Self::spec_new(w))
        } else {
            None
        }
    }

    /// The handle made of `w`, if `w` has the `I256Object` shape.
    pub fn checked(w: FakeVal) -> (r: Option<I256Obj>)
        ensures
            r == Self::spec_checked(w.0),
    {
        if Shape::I256Object.admits(w) {
            Some(I256Obj { word: w.0 })
        } else {
            None
        }
    }

    /// The handle's word, which has the `I256Object` shape.
    pub fn word(&self) -> (r: FakeVal)
        ensures
            r == FakeVal(self.spec_word()),
            Shape::I256Object.accepts(r.0),
    {
        proof {
            use_type_invariant(self);
        }
        FakeVal(self.word)
    }

    /// A handle made of a word holds that word.
    pub broadcast proof fn lemma_new_word(w: u64)
        ensures
            (#[trigger] Self::spec_new(w)).spec_word() == w,
    {
    }

    /// Checking a handle's word against the shape again gives back the
    /// same handle: the word carries the whole handle, bit for bit.
    pub proof fn lemma_checked_word(h: I256Obj)
        requires
            Shape::I256Object.accepts(h.spec_word()),
        ensures
            Self::spec_checked(h.spec_word()) == Some(h),
    {
    }

    /// A handle is the one made of its word.
    pub broadcast proof fn lemma_word_new(h: I256Obj)
        ensures
            Self::spec_new(#[trigger] h.spec_word()) == h,
    {
    }
}

/// A word checked to carry the `BytesObject` shape.
#[derive(Clone, Copy, Debug, PartialEq, Eq)]
pub struct BytesObj {
    word: u64,
}

impl BytesObj {
    #[verifier::type_invariant]
    spec fn shaped(self) -> bool {
        Shape::BytesObject.accepts(self.word)
    }

    /// The handle's word.
    pub closed spec fn spec_word(self) -> u64 {
        self.word
    }

    /// The handle made of the word `w`.
    pub closed spec fn spec_new(w: u64) -> BytesObj {
        BytesObj { word: w }
    }

    /// The handle made of `w`, if `w` has the `BytesObject` shape.
    pub open spec fn spec_checked(w: u64) -> Option<BytesObj> {
        if Shape::BytesObject.accepts(w) {
            Some(Self::spec_new(w))
        } else {
            None
        }
    }

    /// The handle made of `w`, if `w` has the `BytesObject` shape.
    pub fn checked(w: FakeVal) -> (r: Option<BytesObj>)
        ensures
            r == Self::spec_checked(w.0),
    {
        if Shape::BytesObject.admits(w) {
            Some(BytesObj { word: w.0 })
        } else {
            None
        }
    }

    /// The handle's word, which has the `BytesObject` shape.
    pub fn word(&self) -> (r: FakeVal)
        ensures
            r == FakeVal(self.spec_word()),
            Shape::BytesObject.accepts(r.0),
    {
        proof {
            use_type_invariant(self);
        }
        FakeVal(self.word)
    }

    /// A handle made of a word holds that word.
    pub broadcast proof fn lemma_new_word(w: u64)
        ensures
            (#[trigger] Self::spec_new(w)).spec_word() == w,
    {
    }

    /// Checking a handle's word against the shape again gives back the
    /// same handle: the word carries the whole handle, bit for bit.
    pub proof fn lemma_checked_word(h: BytesObj)
        requires
            Shape::BytesObject.accepts(h.spec_word()),
        ensures
            Self::spec_checked(h.spec_word()) == Some(h),
    {
    }

    /// A handle is the one made of its word.
    pub broadcast proof fn lemma_word_new(h: BytesObj)
        ensures
            Self::spec_new(#[trigger] h.spec_word()) == h,
    {
    }
}

/// A word checked to carry the `StringObject` shape.
#[derive(Clone, Copy, Debug, PartialEq, Eq)]
pub struct StringObj {
    word: u64,
}

impl StringObj {
    #[verifier::type_invariant]
    spec fn shaped(self) -> bool {
        Shape::StringObject.accepts(self.word)
    }

    /// The handle's word.
    pub closed spec fn spec_word(self) -> u64 {
        self.word
    }

    /// The handle made of the word `w`.
    pub closed spec fn spec_new(w: u64) -> StringObj {
        StringObj { word: w }
    }

    /// The handle made of `w`, if `w` has the `StringObject` shape.
    pub open spec fn spec_checked(w: u64) -> Option<StringObj> {
        if Shape::StringObject.accepts(w) {
            Some(Self::spec_new(w))
        } else {
            None
        }
    }

    /// The handle made of `w`, if `w` has the `StringObject` shape.
    pub fn checked(w: FakeVal) -> (r: Option<StringObj>)
        ensures
            r == Self::spec_checked(w.0),
    {
        if Shape::StringObject.admits(w) {
            Some(StringObj { word: w.0 })
        } else {
            None
        }
    }

    /// The handle's word, which has the `StringObject` shape.
    pub fn word(&self) -> (r: FakeVal)
        ensures
            r == FakeVal(self.spec_word()),
            Shape::StringObject.accepts(r.0),
    {
        proof {
            use_type_invariant(self);
        }
        FakeVal(self.word)
    }

    /// A handle made of a word holds that word.
    pub broadcast proof fn lemma_new_word(w: u64)
        ensures
            (#[trigger] Self::spec_new(w)).spec_word() == w,
    {
    }

    /// Checking a handle's word against the shape again gives back the
    /// same handle: the word carries the whole handle, bit for bit.
    pub proof fn lemma_checked_word(h: StringObj)
        requires
            Shape::StringObject.accepts(h.spec_word()),
        ensures
            Self::spec_checked(h.spec_word()) == Some(h),
    {
    }

    /// A handle is the one made of its word.
    pub broadcast proof fn lemma_word_new(h: StringObj)
        ensures
            Self::spec_new(#[trigger] h.spec_word()) == h,
    {
    }
}

/// A word checked to carry the `SymbolObject` shape.
#[derive(Clone, Copy, Debug, PartialEq, Eq)]
pub struct SymbolObj {
    word: u64,
}

impl SymbolObj {
    #[verifier::type_invariant]
    spec fn shaped(self) -> bool {
        Shape::SymbolObject.accepts(self.word)
    }

    /// The handle's word.
    pub closed spec fn spec_word(self) -> u64 {
        self.word
    }

    /// The handle made of the word `w`.
    pub closed spec fn spec_new(w: u64) -> SymbolObj {
        SymbolObj { word: w }
    }

    /// The handle made of `w`, if `w` has the `SymbolObject` shape.
    pub open spec fn spec_checked(w: u64) -> Option<SymbolObj> {
        if Shape::SymbolObject.accepts(w) {
            Some(Self::spec_new(w))
        } else {
            None
        }
    }

    /// The handle made of `w`, if `w` has the `SymbolObject` shape.
    pub fn checked(w: FakeVal) -> (r: Option<SymbolObj>)
        ensures
            r == Self::spec_checked(w.0),
    {
        if Shape::SymbolObject.admits(w) {
            Some(SymbolObj { word: w.0 })
        } else {
            None
        }
    }

    /// The handle's word, which has the `SymbolObject` shape.
    pub fn word(&self) -> (r: FakeVal)
        ensures
            r == FakeVal(self.spec_word()),
            Shape::SymbolObject.accepts(r.0),
    {
        proof {
            use_type_invariant(self);
        }
        FakeVal(self.word)
    }

    /// A handle made of a word holds that word.
    pub broadcast proof fn lemma_new_word(w: u64)
        ensures
            (#[trigger] Self::spec_new(w)).spec_word() == w,
    {
    }

    /// Checking a handle's word against the shape again gives back the
    /// same handle: the word carries the whole handle, bit for bit.
    pub proof fn lemma_checked_word(h: SymbolObj)
        requires
            Shape::SymbolObject.accepts(h.spec_word()),
        ensures
            Self::spec_checked(h.spec_word()) == Some(h),
    {
    }

    /// A handle is the one made of its word.
    pub broadcast proof fn lemma_word_new(h: SymbolObj)
        ensures
            Self::spec_new(#[trigger] h.spec_word()) == h,
    {
    }
}

/// A word checked to carry the `VecObject` shape.
#[derive(Clone, Copy, Debug, PartialEq, Eq)]
pub struct VecObj {
    word: u64,
}

impl VecObj {
    #[verifier::type_invariant]
    spec fn shaped(self) -> bool {
        Shape::VecObject.accepts(self.word)
    }

    /// The handle's word.
    pub closed spec fn spec_word(self) -> u64 {
        self.word
    }

    /// The handle made of the word `w`.
    pub closed spec fn spec_new(w: u64) -> VecObj {
        VecObj { word: w }
    }

    /// The handle made of `w`, if `w` has the `VecObject` shape.
    pub open spec fn spec_checked(w: u64) -> Option<VecObj> {
        if Shape::VecObject.accepts(w) {
            Some(Self::spec_new(w))
        } else {
            None
        }
    }

    /// The handle made of `w`, if `w` has the `VecObject` shape.
    pub fn checked(w: FakeVal) -> (r: Option<VecObj>)
        ensures
            r == Self::spec_checked(w.0),
    {
        if Shape::VecObject.admits(w) {
            Some(VecObj { word: w.0 })
        } else {
            None
        }
    }

    /// The handle's word, which has the `VecObject` shape.
    pub fn word(&self) -> (r: FakeVal)
        ensures
            r == FakeVal(self.spec_word()),
            Shape::VecObject.accepts(r.0),
    {
        proof {
            use_type_invariant(self);
        }
        FakeVal(self.word)
    }

    /// A handle made of a word holds that word.
    pub broadcast proof fn lemma_new_word(w: u64)
        ensures
            (#[trigger] Self::spec_new(w)).spec_word() == w,
    {
    }

    /// Checking a handle's word against the shape again gives back the
    /// same handle: the word carries the whole handle, bit for bit.
    pub proof fn lemma_checked_word(h: VecObj)
        requires
            Shape::VecObject.accepts(h.spec_word()),
        ensures
            Self::spec_checked(h.spec_word()) == Some(h),
    {
    }

    /// A handle is the one made of its word.
    pub broadcast proof fn lemma_word_new(h: VecObj)
        ensures
            Self::spec_new(#[trigger] h.spec_word()) == h,
    {
    }
}

/// A word checked to carry the `MapObject` shape.
#[derive(Clone, Copy, Debug, PartialEq, Eq)]
pub struct MapObj {
    word: u64,
}

impl MapObj {
    #[verifier::type_invariant]
    spec fn shaped(self) -> bool {
        Shape::MapObject.accepts(self.word)
    }

    /// The handle's word.
    pub closed spec fn spec_word(self) -> u64 {
        self.word
    }

    /// The handle made of the word `w`.
    pub closed spec fn spec_new(w: u64) -> MapObj {
        MapObj { word: w }
    }

    /// The handle made of `w`, if `w` has the `MapObject` shape.
    pub open spec fn spec_checked(w: u64) -> Option<MapObj> {
        if Shape::MapObject.accepts(w) {
            Some(Self::spec_new(w))
        } else {
            None
        }
    }

    /// The handle made of `w`, if `w` has the `MapObject` shape.
    pub fn checked(w: FakeVal) -> (r: Option<MapObj>)
        ensures
            r == Self::spec_checked(w.0),
    {
        if Shape::MapObject.admits(w) {
            Some(MapObj { word: w.0 })
        } else {
            None
        }
    }

    /// The handle's word, which has the `MapObject` shape.
    pub fn word(&self) -> (r: FakeVal)
        ensures
            r == FakeVal(self.spec_word()),
            Shape::MapObject.accepts(r.0),
    {
        proof {
            use_type_invariant(self);
        }
        FakeVal(self.word)
    }

    /// A handle made of a word holds that word.
    pub broadcast proof fn lemma_new_word(w: u64)
        ensures
            (#[trigger] Self::spec_new(w)).spec_word() == w,
    {
    }

    /// Checking a handle's word against the shape again gives back the
    /// same handle: the word carries the whole handle, bit for bit.
    pub proof fn lemma_checked_word(h: MapObj)
        requires
            Shape::MapObject.accepts(h.spec_word()),
        ensures
            Self::spec_checked(h.spec_word()) == Some(h),
    {
    }

    /// A handle is the one made of its word.
    pub broadcast proof fn lemma_word_new(h: MapObj)
        ensures
            Self::spec_new(#[trigger] h.spec_word()) == h,
    {
    }
}

/// A word checked to carry the `AddressObject` shape.
#[derive(Clone, Copy, Debug, PartialEq, Eq)]
pub struct AddressObj {
    word: u64,
}

impl AddressObj {
    #[verifier::type_invariant]
    spec fn shaped(self) -> bool {
        Shape::AddressObject.accepts(self.word)
    }

    /// The handle's word.
    pub closed spec fn spec_word(self) -> u64 {
        self.word
    }

    /// The handle made of the word `w`.
    pub closed spec fn spec_new(w: u64) -> AddressObj {
        AddressObj { word: w }
    }

    /// The handle made of `w`, if `w` has the `AddressObject` shape.
    pub open spec fn spec_checked(w: u64) -> Option<AddressObj> {
        if Shape::AddressObject.accepts(w) {
            Some(Self::spec_new(w))
        } else {
            None
        }
    }

    /// The handle made of `w`, if `w` has the `AddressObject` shape.
    pub fn checked(w: FakeVal) -> (r: Option<AddressObj>)
        ensures
            r == Self::spec_checked(w.0),
    {
        if Shape::AddressObject.admits(w) {
            Some(AddressObj { word: w.0 })
        } else {
            None
        }
    }

    /// The handle's word, which has the `AddressObject` shape.
    pub fn word(&self) -> (r: FakeVal)
        ensures
            r == FakeVal(self.spec_word()),
            Shape::AddressObject.accepts(r.0),
    {
        proof {
            use_type_invariant(self);
        }
        FakeVal(self.word)
    }

    /// A handle made of a word holds that word.
    pub broadcast proof fn lemma_new_word(w: u64)
        ensures
            (#[trigger] Self::spec_new(w)).spec_word() == w,
    {
    }

    /// Checking a handle's word against the shape again gives back the
    /// same handle: the word carries the whole handle, bit for bit.
    pub proof fn lemma_checked_word(h: AddressObj)
        requires
            Shape::AddressObject.accepts(h.spec_word()),
        ensures
            Self::spec_checked(h.spec_word()) == Some(h),
    {
    }

    /// A handle is the one made of its word.
    pub broadcast proof fn lemma_word_new(h: AddressObj)
        ensures
            Self::spec_new(#[trigger] h.spec_word()) == h,
    {
    }
}

/// A word checked to carry the `MuxedAddressObject` shape.
#[derive(Clone, Copy, Debug, PartialEq, Eq)]
pub struct MuxedAddressObj {
    word: u64,
}

impl MuxedAddressObj {
    #[verifier::type_invariant]
    spec fn shaped(self) -> bool {
        Shape::MuxedAddressObject.accepts(self.word)
    }

    /// The handle's word.
    pub closed spec fn spec_word(self) -> u64 {
        self.word
    }

    /// The handle made of the word `w`.
    pub closed spec fn spec_new(w: u64) -> MuxedAddressObj {
        MuxedAddressObj { word: w }
    }

    /// The handle made of `w`, if `w` has the `MuxedAddressObject` shape.
    pub open spec fn spec_checked(w: u64) -> Option<MuxedAddressObj> {
        if Shape::MuxedAddressObject.accepts(w) {
            Some(Self::spec_new(w))
        } else {
            None
        }
    }

    /// The handle made of `w`, if `w` has the `MuxedAddressObject` shape.
    pub fn checked(w: FakeVal) -> (r: Option<MuxedAddressObj>)
        ensures
            r == Self::spec_checked(w.0),
    {
        if Shape::MuxedAddressObject.admits(w) {
            Some(MuxedAddressObj { word: w.0 })
        } else {
            None
        }
    }

    /// The handle's word, which has the `MuxedAddressObject` shape.
    pub fn word(&self) -> (r: FakeVal)
        ensures
            r == FakeVal(self.spec_word()),
            Shape::MuxedAddressObject.accepts(r.0),
    {
        proof {
            use_type_invariant(self);
        }
        FakeVal(self.word)
    }

    /// A handle made of a word holds that word.
    pub broadcast proof fn lemma_new_word(w: u64)
        ensures
            (#[trigger] Self::spec_new(w)).spec_word() == w,
    {
    }

    /// Checking a handle's word against the shape again gives back the
    /// same handle: the word carries the whole handle, bit for bit.
    pub proof fn lemma_checked_word(h: MuxedAddressObj)
        requires
            Shape::MuxedAddressObject.accepts(h.spec_word()),
        ensures
            Self::spec_checked(h.spec_word()) == Some(h),
    {
    }

    /// A handle is the one made of its word.
    pub broadcast proof fn lemma_word_new(h: MuxedAddressObj)
        ensures
            Self::spec_new(#[trigger] h.spec_word()) == h,
    {
    }
}

/// A word checked to carry the `Symbol` shape.
#[derive(Clone, Copy, Debug, PartialEq, Eq)]
pub struct SymbolWord {
    word: u64,
}

impl SymbolWord {
    #[verifier::type_invariant]
    spec fn shaped(self) -> bool {
        Shape::Symbol.accepts(self.word)
    }

    /// The handle's word.
    pub closed spec fn spec_word(self) -> u64 {
        self.word
    }

    /// The handle made of the word `w`.
    pub closed spec fn spec_new(w: u64) -> SymbolWord {
        SymbolWord { word: w }
    }

    /// The handle made of `w`, if `w` has the `Symbol` shape.
    pub open spec fn spec_checked(w: u64) -> Option<SymbolWord> {
        if Shape::Symbol.accepts(w) {
            Some(Self::spec_new(w))
        } else {
            None
        }
    }

    /// The handle made of `w`, if `w` has the `Symbol` shape.
    pub fn checked(w: FakeVal) -> (r: Option<SymbolWord>)
        ensures
            r == Self::spec_checked(w.0),
    {
        if Shape::Symbol.admits(w) {
            Some(SymbolWord { word: w.0 })
        } else {
            None
        }
    }

    /// The handle's word, which has the `Symbol` shape.
    pub fn word(&self) -> (r: FakeVal)
        ensures
            r == FakeVal(self.spec_word()),
            Shape::Symbol.accepts(r.0),
    {
        proof {
            use_type_invariant(self);
        }
        FakeVal(self.word)
    }

    /// A handle made of a word holds that word.
    pub broadcast proof fn lemma_new_word(w: u64)
        ensures
            (#[trigger] Self::spec_new(w)).spec_word() == w,
    {
    }

    /// Checking a handle's word against the shape again gives back the
    /// same handle: the word carries the whole handle, bit for bit.
    pub proof fn lemma_checked_word(h: SymbolWord)
        requires
            Shape::Symbol.accepts(h.spec_word()),
        ensures
            Self::spec_checked(h.spec_word()) == Some(h),
    {
    }

    /// A handle is the one made of its word.
    pub broadcast proof fn lemma_word_new(h: SymbolWord)
        ensures
            Self::spec_new(#[trigger] h.spec_word()) == h,
    {
    }
}

/// A word checked to carry the `U64Val` shape.
#[derive(Clone, Copy, Debug, PartialEq, Eq)]
pub struct U64Word {
    word: u64,
}

impl U64Word {
    #[verifier::type_invariant]
    spec fn shaped(self) -> bool {
        Shape::U64Val.accepts(self.word)
    }

    /// The handle's word.
    pub closed spec fn spec_word(self) -> u64 {
        self.word
    }

    /// The handle made of the word `w`.
    pub closed spec fn spec_new(w: u64) -> U64Word {
        U64Word { word: w }
    }

    /// The handle made of `w`, if `w` has the `U64Val` shape.
    pub open spec fn spec_checked(w: u64) -> Option<U64Word> {
        if Shape::U64Val.accepts(w) {
            Some(Self::spec_new(w))
        } else {
            None
        }
    }

    /// The handle made of `w`, if `w` has the `U64Val` shape.
    pub fn checked(w: FakeVal) -> (r: Option<U64Word>)
        ensures
            r == Self::spec_checked(w.0),
    {
        if Shape::U64Val.admits(w) {
            Some(U64Word { word: w.0 })
        } else {
            None
        }
    }

    /// The handle's word, which has the `U64Val` shape.
    pub fn word(&self) -> (r: FakeVal)
        ensures
            r == FakeVal(self.spec_word()),
            Shape::U64Val.accepts(r.0),
    {
        proof {
            use_type_invariant(self);
        }
        FakeVal(self.word)
    }

    /// A handle made of a word holds that word.
    pub broadcast proof fn lemma_new_word(w: u64)
        ensures
            (#[trigger] Self::spec_new(w)).spec_word() == w,
    {
    }

    /// Checking a handle's word against the shape again gives back the
    /// same handle: the word carries the whole handle, bit for bit.
    pub proof fn lemma_checked_word(h: U64Word)
        requires
            Shape::U64Val.accepts(h.spec_word()),
        ensures
            Self::spec_checked(h.spec_word()) == Some(h),
    {
    }

    /// A handle is the one made of its word.
    pub broadcast proof fn lemma_word_new(h: U64Word)
        ensures
            Self::spec_new(#[trigger] h.spec_word()) == h,
    {
    }
}

/// A word checked to carry the `U256Val` shape.
#[derive(Clone, Copy, Debug, PartialEq, Eq)]
pub struct U256Word {
    word: u64,
}

impl U256Word {
    #[verifier::type_invariant]
    spec fn shaped(self) -> bool {
        Shape::U256Val.accepts(self.word)
    }

    /// The handle's word.
    pub closed spec fn spec_word(self) -> u64 {
        self.word
    }

    /// The handle made of the word `w`.
    pub closed spec fn spec_new(w: u64) -> U256Word {
        U256Word { word: w }
    }

    /// The handle made of `w`, if `w` has the `U256Val` shape.
    pub open spec fn spec_checked(w: u64) -> Option<U256Word> {
        if Shape::U256Val.accepts(w) {
            Some(Self::spec_new(w))
        } else {
            None
        }
    }

    /// The handle made of `w`, if `w` has the `U256Val` shape.
    pub fn checked(w: FakeVal) -> (r: Option<U256Word>)
        ensures
            r == Self::spec_checked(w.0),
    {
        if Shape::U256Val.admits(w) {
            Some(U256Word { word: w.0 })
        } else {
            None
        }
    }

    /// The handle's word, which has the `U256Val` shape.
    pub fn word(&self) -> (r: FakeVal)
        ensures
            r == FakeVal(self.spec_word()),
            Shape::U256Val.accepts(r.0),
    {
        proof {
            use_type_invariant(self);
        }
        FakeVal(self.word)
    }

    /// A handle made of a word holds that word.
    pub broadcast proof fn lemma_new_word(w: u64)
        ensures
            (#[trigger] Self::spec_new(w)).spec_word() == w,
    {
    }

    /// Checking a handle's word against the shape again gives back the
    /// same handle: the word carries the whole handle, bit for bit.
    pub proof fn lemma_checked_word(h: U256Word)
        requires
            Shape::U256Val.accepts(h.spec_word()),
        ensures
            Self::spec_checked(h.spec_word()) == Some(h),
    {
    }

    /// A handle is the one made of its word.
    pub broadcast proof fn lemma_word_new(h: U256Word)
        ensures
            Self::spec_new(#[trigger] h.spec_word()) == h,
    {
    }
}

/// A word checked to carry the `I256Val` shape.
#[derive(Clone, Copy, Debug, PartialEq, Eq)]
pub struct I256Word {
    word: u64,
}

impl I256Word {
    #[verifier::type_invariant]
    spec fn shaped(self) -> bool {
        Shape::I256Val.accepts(self.word)
    }

    /// The handle's word.
    pub closed spec fn spec_word(self) -> u64 {
        self.word
    }

    /// The handle made of the word `w`.
    pub closed spec fn spec_new(w: u64) -> I256Word {
        I256Word { word: w }
    }

    /// The handle made of `w`, if `w` has the `I256Val` shape.
    pub open spec fn spec_checked(w: u64) -> Option<I256Word> {
        if Shape::I256Val.accepts(w) {
            Some(Self::spec_new(w))
        } else {
            None
        }
    }

    /// The handle made of `w`, if `w` has the `I256Val` shape.
    pub fn checked(w: FakeVal) -> (r: Option<I256Word>)
        ensures
            r == Self::spec_checked(w.0),
    {
        if Shape::I256Val.admits(w) {
            Some(I256Word { word: w.0 })
        } else {
            None
        }
    }

    /// The handle's word, which has the `I256Val` shape.
    pub fn word(&self) -> (r: FakeVal)
        ensures
            r == FakeVal(self.spec_word()),
            Shape::I256Val.accepts(r.0),
    {
        proof {
            use_type_invariant(self);
        }
        FakeVal(self.word)
    }

    /// A handle made of a word holds that word.
    pub broadcast proof fn lemma_new_word(w: u64)
        ensures
            (#[trigger] Self::spec_new(w)).spec_word() == w,
    {
    }

    /// Checking a handle's word against the shape again gives back the
    /// same handle: the word carries the whole handle, bit for bit.
    pub proof fn lemma_checked_word(h: I256Word)
        requires
            Shape::I256Val.accepts(h.spec_word()),
        ensures
            Self::spec_checked(h.spec_word()) == Some(h),
    {
    }

    /// A handle is the one made of its word.
    pub broadcast proof fn lemma_word_new(h: I256Word)
        ensures
            Self::spec_new(#[trigger] h.spec_word()) == h,
    {
    }
}

/// A word checked to carry the `Error` shape.
#[derive(Clone, Copy, Debug, PartialEq, Eq)]
pub struct ErrorWord {
    word: u64,
}

impl ErrorWord {
    #[verifier::type_invariant]
    spec fn shaped(self) -> bool {
        Shape::Error.accepts(self.word)
    }

    /// The handle's word.
    pub closed spec fn spec_word(self) -> u64 {
        self.word
    }

    /// The handle made of the word `w`.
    pub closed spec fn spec_new(w: u64) -> ErrorWord {
        ErrorWord { word: w }
    }

    /// The handle made of `w`, if `w` has the `Error` shape.
    pub open spec fn spec_checked(w: u64) -> Option<ErrorWord> {
        if Shape::Error.accepts(w) {
            Some(Self::spec_new(w))
        } else {
            None
        }
    }

    /// The handle made of `w`, if `w` has the `Error` shape.
    pub fn checked(w: FakeVal) -> (r: Option<ErrorWord>)
        ensures
            r == Self::spec_checked(w.0),
    {
        if Shape::Error.admits(w) {
            Some(ErrorWord { word: w.0 })
        } else {
            None
        }
    }

    /// The handle's word, which has the `Error` shape.
    pub fn word(&self) -> (r: FakeVal)
        ensures
            r == FakeVal(self.spec_word()),
            Shape::Error.accepts(r.0),
    {
        proof {
            use_type_invariant(self);
        }
        FakeVal(self.word)
    }

    /// A handle made of a word holds that word.
    pub broadcast proof fn lemma_new_word(w: u64)
        ensures
            (#[trigger] Self::spec_new(w)).spec_word() == w,
    {
    }

    /// Checking a handle's word against the shape again gives back the
    /// same handle: the word carries the whole handle, bit for bit.
    pub proof fn lemma_checked_word(h: ErrorWord)
        requires
            Shape::Error.accepts(h.spec_word()),
        ensures
            Self::spec_checked(h.spec_word()) == Some(h),
    {
    }

    /// A handle is the one made of its word.
    pub broadcast proof fn lemma_word_new(h: ErrorWord)
        ensures
            Self::spec_new(#[trigger] h.spec_word()) == h,
    {
    }
}

/// How handles relate to their words.
pub broadcast group handle_laws {
    U64Obj::lemma_new_word,
    U64Obj::lemma_word_new,
    I64Obj::lemma_new_word,
    I64Obj::lemma_word_new,
    TimepointObj::lemma_new_word,
    TimepointObj::lemma_word_new,
    DurationObj::lemma_new_word,
    DurationObj::lemma_word_new,
    U128Obj::lemma_new_word,
    U128Obj::lemma_word_new,
    I128Obj::lemma_new_word,
    I128Obj::lemma_word_new,
    U256Obj::lemma_new_word,
    U256Obj::lemma_word_new,
    I256Obj::lemma_new_word,
    I256Obj::lemma_word_new,
    BytesObj::lemma_new_word,
    BytesObj::lemma_word_new,
    StringObj::lemma_new_word,
    StringObj::lemma_word_new,
    SymbolObj::lemma_new_word,
    SymbolObj::lemma_word_new,
    VecObj::lemma_new_word,
    VecObj::lemma_word_new,
    MapObj::lemma_new_word,
    MapObj::lemma_word_new,
    AddressObj::lemma_new_word,
    AddressObj::lemma_word_new,
    MuxedAddressObj::lemma_new_word,
    MuxedAddressObj::lemma_word_new,
    SymbolWord::lemma_new_word,
    SymbolWord::lemma_word_new,
    U64Word::lemma_new_word,
    U64Word::lemma_word_new,
    U256Word::lemma_new_word,
    U256Word::lemma_word_new,
    I256Word::lemma_new_word,
    I256Word::lemma_word_new,
    ErrorWord::lemma_new_word,
    ErrorWord::lemma_word_new,
}

} // verus!
