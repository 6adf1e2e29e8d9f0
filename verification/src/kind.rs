//! The vocabulary of wire-level primitive kinds.

use vstd::prelude::*;

verus! {

/// Number of kinds in [`KindTag`].
pub const KIND_COUNT: usize = 8;

/// The primitive representation that a decoded value carries on the wire.
#[derive(Clone, Copy, Debug, PartialEq, Eq, Hash, Structural)]
pub enum KindTag {
    Null,
    Boolean,
    Int32,
    Int64,
    Float,
    Double,
    String,
    Bytes,
}

impl KindTag {
    /// Position of the kind in the declaration of [`KindTag`].
    pub open spec fn spec_ordinal(self) -> nat {
        match self {
            KindTag::Null => 0,
            KindTag::Boolean => 1,
            KindTag::Int32 => 2,
            KindTag::Int64 => 3,
            KindTag::Float => 4,
            KindTag::Double => 5,
            KindTag::String => 6,
            KindTag::Bytes => 7,
        }
    }

    /// Position of the kind in the declaration of [`KindTag`], usable as an
    /// index into a table with one slot per kind.
    pub fn ordinal(self) -> (i: usize)
        ensures
            i == self.spec_ordinal(),
            i < KIND_COUNT,
    {
        match self {
            KindTag::Null => 0,
            KindTag::Boolean => 1,
            KindTag::Int32 => 2,
            KindTag::Int64 => 3,
            KindTag::Float => 4,
            KindTag::Double => 5,
            KindTag::String => 6,
            KindTag::Bytes => 7,
        }
    }
}

} // verus!
