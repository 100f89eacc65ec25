//! Shapes: the kinds of value word that a host function parameter can
//! demand, and the check of a word's tag against them.

use crate::word::FakeVal;
use soroban_env_common::Val;
use vstd::prelude::*;

verus! {

/// The tag code that the host reads from a word: its low byte when that
/// byte names a defined tag, and the code of a bad tag (0x7f) otherwise.
pub open spec fn tag_of(w: u64) -> u8 {
    let b = (w % 256) as u8;
    if b < 15 || (63 < b && b < 79) {
        b
    } else {
        0x7f
    }
}

/// Relies on `Val::get_tag`: the tag of a word is its low byte when that
/// byte is a defined tag code (below 15, or between 63 and 79 exclusive),
/// and `Tag::Bad` (0x7f) otherwise.
#[verifier::external_body]
fn tag_code(w: u64) -> (r: u8)
    ensures
        r == tag_of(w),
{
    Val::from_payload(w).get_tag() as u8
}

/// The shape that a host function declares for a parameter that is a
/// value word but not an arbitrary one.
#[derive(Clone, Copy, Debug, PartialEq, Eq, Structural)]
pub enum Shape {
    U64Object,
    I64Object,
    TimepointObject,
    DurationObject,
    U128Object,
    I128Object,
    U256Object,
    I256Object,
    BytesObject,
    StringObject,
    SymbolObject,
    VecObject,
    MapObject,
    AddressObject,
    MuxedAddressObject,
    Symbol,
    U64Val,
    U256Val,
    I256Val,
    Error,
}

impl Shape {
    /// Whether a word with this tag code has the shape: object shapes take
    /// one object tag; a shape that is small-or-object takes either tag.
    pub open spec fn admits_tag(self, t: u8) -> bool {
        match self {
            Shape::U64Object => t == 64,
            Shape::I64Object => t == 65,
            Shape::TimepointObject => t == 66,
            Shape::DurationObject => t == 67,
            Shape::U128Object => t == 68,
            Shape::I128Object => t == 69,
            Shape::U256Object => t == 70,
            Shape::I256Object => t == 71,
            Shape::BytesObject => t == 72,
            Shape::StringObject => t == 73,
            Shape::SymbolObject => t == 74,
            Shape::VecObject => t == 75,
            Shape::MapObject => t == 76,
            Shape::AddressObject => t == 77,
            Shape::MuxedAddressObject => t == 78,
            Shape::Symbol => t == 14 || t == 74,
            Shape::U64Val => t == 6 || t == 64,
            Shape::U256Val => t == 12 || t == 70,
            Shape::I256Val => t == 13 || t == 71,
            Shape::Error => t == 3,
        }
    }

    /// Whether the word has this shape, as the host checks it from the tag.
    pub open spec fn accepts(self, w: u64) -> bool {
        self.admits_tag(tag_of(w))
    }

    /// Checks the word's tag against this shape.
    pub fn admits(&self, w: FakeVal) -> (r: bool)
        ensures
            r == self.accepts(w.0),
    {
        let t = tag_code(w.0);
        match self {
            Shape::U64Object => t == 64,
            Shape::I64Object => t == 65,
            Shape::TimepointObject => t == 66,
            Shape::DurationObject => t == 67,
            Shape::U128Object => t == 68,
            Shape::I128Object => t == 69,
            Shape::U256Object => t == 70,
            Shape::I256Object => t == 71,
            Shape::BytesObject => t == 72,
            Shape::StringObject => t == 73,
            Shape::SymbolObject => t == 74,
            Shape::VecObject => t == 75,
            Shape::MapObject => t == 76,
            Shape::AddressObject => t == 77,
            Shape::MuxedAddressObject => t == 78,
            Shape::Symbol => t == 14 || t == 74,
            Shape::U64Val => t == 6 || t == 64,
            Shape::U256Val => t == 12 || t == 70,
            Shape::I256Val => t == 13 || t == 71,
            Shape::Error => t == 3,
        }
    }
}

} // verus!
