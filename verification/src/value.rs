//! Dynamically tagged primitive values, as a schema-driven decoder emits them.

use crate::kind::KindTag;
use vstd::prelude::*;

verus! {

/// One decoded primitive together with the tag of its wire representation.
///
/// The two floating-point kinds carry their payload as the IEEE 754 bit
/// pattern, so that a payload is held exactly as it was decoded.
#[derive(Clone, Debug, PartialEq, Eq)]
pub enum RawValue {
    Null,
    Boolean(bool),
    Int32(i32),
    Int64(i64),
    Float(u32),
    Double(u64),
    String(String),
    Bytes(Vec<u8>),
}

impl RawValue {
    /// The tag that the decoder attached to the value.
    pub open spec fn spec_kind(&self) -> KindTag {
        match self {
            RawValue::Null => KindTag::Null,
            RawValue::Boolean(_) => KindTag::Boolean,
            RawValue::Int32(_) => KindTag::Int32,
            RawValue::Int64(_) => KindTag::Int64,
            RawValue::Float(_) => KindTag::Float,
            RawValue::Double(_) => KindTag::Double,
            RawValue::String(_) => KindTag::String,
            RawValue::Bytes(_) => KindTag::Bytes,
        }
    }

    /// The tag that the decoder attached to the value. The payload plays no
    /// part in it.
    #[verifier::when_used_as_spec(spec_kind)]
    pub fn kind(&self) -> (tag: KindTag)
        ensures
            tag == self.spec_kind(),
    {
        match self {
            RawValue::Null => KindTag::Null,
            RawValue::Boolean(_) => KindTag::Boolean,
            RawValue::Int32(_) => KindTag::Int32,
            RawValue::Int64(_) => KindTag::Int64,
            RawValue::Float(_) => KindTag::Float,
            RawValue::Double(_) => KindTag::Double,
            RawValue::String(_) => KindTag::String,
            RawValue::Bytes(_) => KindTag::Bytes,
        }
    }
}

} // verus!
