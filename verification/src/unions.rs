//! A union of a 32-bit integer, a 64-bit integer and a boolean, as a sum type.

use crate::kind::KindTag;
use crate::resolver::{resolution, DecodeError, ResolvedUnion};
use crate::schema::UnionSchema;
use crate::value::RawValue;
use vstd::pervasive::unreached;
use vstd::prelude::*;

verus! {

/// A value of the unnamed union `[int, long, boolean]`.
#[derive(Clone, Copy, Debug, PartialEq, Eq)]
pub enum UnionIntLongBool {
    Int(i32),
    Long(i64),
    Bool(bool),
}

impl UnionIntLongBool {
    /// The kinds that the variants declare, in declaration order.
    pub open spec fn declared() -> Seq<KindTag> {
        seq![KindTag::Int32, KindTag::Int64, KindTag::Boolean]
    }

    /// The variant for the kind of a decoded value, around its payload;
    /// nothing for a value of any other kind.
    pub open spec fn spec_from_raw(raw: RawValue) -> Option<UnionIntLongBool> {
        match raw {
            RawValue::Int32(v) => Some(UnionIntLongBool::Int(v)),
            RawValue::Int64(v) => Some(UnionIntLongBool::Long(v)),
            RawValue::Boolean(b) => Some(UnionIntLongBool::Bool(b)),
            _ => None,
        }
    }

    /// The variant at the position that a resolution against
    /// [`Self::declared`] found, around the payload; nothing where position
    /// and payload do not belong to one variant.
    pub open spec fn spec_from_resolved(resolved: ResolvedUnion) -> Option<UnionIntLongBool> {
        match resolved.payload {
            RawValue::Int32(v) if resolved.variant == 0 => Some(UnionIntLongBool::Int(v)),
            RawValue::Int64(v) if resolved.variant == 1 => Some(UnionIntLongBool::Long(v)),
            RawValue::Boolean(b) if resolved.variant == 2 => Some(UnionIntLongBool::Bool(b)),
            _ => None,
        }
    }

    /// The decoded value that a variant stands for.
    pub open spec fn spec_to_raw(self) -> RawValue {
        match self {
            UnionIntLongBool::Int(v) => RawValue::Int32(v),
            UnionIntLongBool::Long(v) => RawValue::Int64(v),
            UnionIntLongBool::Bool(b) => RawValue::Boolean(b),
        }
    }

    /// The kinds that the variants declare, in declaration order.
    pub fn declared_kinds() -> (kinds: Vec<KindTag>)
        ensures
            kinds@ == Self::declared(),
    {
        let mut kinds: Vec<KindTag> = Vec::new();
        kinds.push(KindTag::Int32);
        kinds.push(KindTag::Int64);
        kinds.push(KindTag::Boolean);
        kinds
    }

    /// The schema of the union.
    pub fn schema() -> (schema: UnionSchema)
        ensures
            schema@ == Self::declared(),
    {
        match UnionSchema::build(Self::declared_kinds()) {
            Ok(schema) => schema,
            Err(_) => unreached(),
        }
    }

    /// What a visitor of decoded values is told to expect.
    pub fn expecting() -> (text: &'static str)
        ensures
            text@ == "a UnionIntLongBool"@,
    {
        "a UnionIntLongBool"
    }

    /// Resolves a decoded value by the tag it carries: a 32-bit integer is an
    /// `Int`, a 64-bit integer a `Long` however small its value, a boolean a
    /// `Bool`. A value of any other kind is refused.
    pub fn from_raw(raw: RawValue) -> (res: Result<UnionIntLongBool, DecodeError>)
        ensures
            match res {
                Ok(value) => Self::spec_from_raw(raw) == Some(value),
                Err(DecodeError::UnexpectedKind { found, allowed }) => {
                    &&& Self::spec_from_raw(raw) is None
                    &&& found == raw.kind()
                    &&& allowed@ == Self::declared()
                },
            },
    {
        match raw {
            RawValue::Int32(v) => Ok(UnionIntLongBool::Int(v)),
            RawValue::Int64(v) => Ok(UnionIntLongBool::Long(v)),
            RawValue::Boolean(b) => Ok(UnionIntLongBool::Bool(b)),
            other => Err(
                DecodeError::UnexpectedKind {
                    found: other.kind(),
                    allowed: Self::declared_kinds(),
                },
            ),
        }
    }

    /// Turns a value that was resolved against [`Self::schema`] into the
    /// variant it belongs to.
    pub fn from_resolved(resolved: ResolvedUnion) -> (value: Option<UnionIntLongBool>)
        ensures
            value == Self::spec_from_resolved(resolved),
    {
        match resolved.payload {
            RawValue::Int32(v) if resolved.variant == 0 => Some(UnionIntLongBool::Int(v)),
            RawValue::Int64(v) if resolved.variant == 1 => Some(UnionIntLongBool::Long(v)),
            RawValue::Boolean(b) if resolved.variant == 2 => Some(UnionIntLongBool::Bool(b)),
            _ => None,
        }
    }

    /// The decoded value that the variant stands for, with the payload as it
    /// is held.
    #[verifier::when_used_as_spec(spec_to_raw)]
    pub fn to_raw(self) -> (raw: RawValue)
        ensures
            raw == self.spec_to_raw(),
    {
        match self {
            UnionIntLongBool::Int(v) => RawValue::Int32(v),
            UnionIntLongBool::Long(v) => RawValue::Int64(v),
            UnionIntLongBool::Bool(b) => RawValue::Boolean(b),
        }
    }
}

/// The variant that [`UnionIntLongBool::spec_from_raw`] picks by the tag is
/// the one that a resolution against the declared kinds leads to, and a value
/// has a variant exactly when the union declares its kind.
pub proof fn lemma_from_raw_is_resolution(raw: RawValue)
    ensures
        UnionIntLongBool::spec_from_raw(raw) is Some <==> UnionIntLongBool::declared().contains(
            raw.kind(),
        ),
        UnionIntLongBool::spec_from_raw(raw) == match resolution(
            UnionIntLongBool::declared(),
            raw,
        ) {
            Some(resolved) => UnionIntLongBool::spec_from_resolved(resolved),
            None => None,
        },
{
    let kinds = UnionIntLongBool::declared();
    kinds.index_of_first_ensures(raw.kind());
    assert(kinds[0] == KindTag::Int32 && kinds[1] == KindTag::Int64 && kinds[2]
        == KindTag::Boolean);
}

/// No coercion on the way in or out: a variant stands for the very value it
/// was resolved from, and a value that a variant stands for resolves to that
/// variant again.
pub proof fn lemma_round_trip(raw: RawValue, value: UnionIntLongBool)
    ensures
        UnionIntLongBool::spec_from_raw(raw) == Some(value) ==> value.to_raw() == raw,
        UnionIntLongBool::spec_from_raw(value.to_raw()) == Some(value),
{
}

} // verus!
