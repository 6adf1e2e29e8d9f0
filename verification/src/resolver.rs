//! Exact-kind dispatch: from the tag of a decoded value to the variant that
//! was declared for that tag.
//!
//! The variant is found by the identity of the tag. It is never found by
//! offering the payload to each variant in declaration order and taking the
//! first that accepts it: a 64-bit integer that happens to fit in 32 bits
//! would pass as the narrower variant, and nothing would report it.

use crate::kind::KindTag;
use crate::schema::UnionSchema;
use crate::value::RawValue;
use vstd::prelude::*;
use vstd::slice::slice_to_vec;

verus! {

/// A union value with its one active variant.
#[derive(Clone, Debug, PartialEq, Eq)]
pub struct ResolvedUnion {
    /// Position of the active variant in the declaration order of the schema.
    pub variant: usize,
    /// The decoded value, as the decoder handed it over.
    pub payload: RawValue,
}

/// Why a decoded value is not a value of the union.
#[derive(Clone, Debug, PartialEq, Eq)]
pub enum DecodeError {
    /// The value carries a kind that no variant of the union declares.
    UnexpectedKind {
        /// The kind that the value carries.
        found: KindTag,
        /// The kinds that the schema declares, in declaration order.
        allowed: Vec<KindTag>,
    },
}

/// The value of the union with the declared `kinds` that a decoded value
/// resolves to: the first variant that declares the value's kind, around the
/// value itself; nothing, when no variant declares that kind.
pub open spec fn resolution(kinds: Seq<KindTag>, raw: RawValue) -> Option<ResolvedUnion> {
    match kinds.index_of_first(raw.kind()) {
        Some(i) => Some(ResolvedUnion { variant: i as usize, payload: raw }),
        None => None,
    }
}

/// Resolution is total over the declared kinds and fails for every other:
/// a value resolves exactly when a variant declares its kind, and then to a
/// variant that declares it, around the value as it came.
pub proof fn lemma_resolution_total(kinds: Seq<KindTag>, raw: RawValue)
    requires
        kinds.len() <= usize::MAX,
    ensures
        resolution(kinds, raw) is Some <==> kinds.contains(raw.kind()),
        resolution(kinds, raw) matches Some(resolved) ==> {
            &&& resolved.payload == raw
            &&& resolved.variant < kinds.len()
            &&& kinds[resolved.variant as int] == raw.kind()
        },
{
    kinds.index_of_first_ensures(raw.kind());
}

/// Exactness. A value whose kind is declared exactly once, at position `i`,
/// resolves to the variant at `i`, and what the resolved value gives back is
/// the value that came in.
pub proof fn lemma_exactness(kinds: Seq<KindTag>, raw: RawValue, i: int)
    requires
        kinds.len() <= usize::MAX,
        0 <= i < kinds.len(),
        forall|j: int| 0 <= j < kinds.len() ==> (kinds[j] == raw.kind() <==> j == i),
    ensures
        resolution(kinds, raw) == Some(ResolvedUnion { variant: i as usize, payload: raw }),
        resolution(kinds, raw).unwrap().into_raw() == raw,
{
    assert(kinds[i] == raw.kind());
    kinds.index_of_first_ensures(raw.kind());
}

/// The tag decides, the payload does not: two values that carry the same tag
/// resolve to the same variant, or neither resolves.
pub proof fn lemma_kind_decides(kinds: Seq<KindTag>, a: RawValue, b: RawValue)
    requires
        a.kind() == b.kind(),
    ensures
        resolution(kinds, a) is Some <==> resolution(kinds, b) is Some,
        resolution(kinds, a) matches Some(x) ==> x.variant == resolution(kinds, b).unwrap().variant,
{
}

impl ResolvedUnion {
    /// The decoded value that the active variant holds.
    pub open spec fn spec_into_raw(self) -> RawValue {
        self.payload
    }

    /// Gives back the decoded value that the active variant holds.
    #[verifier::when_used_as_spec(spec_into_raw)]
    pub fn into_raw(self) -> (raw: RawValue)
        ensures
            raw == self.spec_into_raw(),
    {
        self.payload
    }

    /// The kind that the active variant was declared for.
    pub fn kind(&self) -> (tag: KindTag)
        ensures
            tag == self.payload.kind(),
    {
        self.payload.kind()
    }
}

/// Resolves a decoded value against a schema by the tag it carries.
///
/// Where a variant declares the tag, the value goes into that variant as it
/// is. Where none does, the value is refused with the tag that was found and
/// the kinds that the schema allows. The payload is not looked at.
pub fn resolve(schema: &UnionSchema, raw: RawValue) -> (res: Result<ResolvedUnion, DecodeError>)
    ensures
        match res {
            Ok(resolved) => resolution(schema@, raw) == Some(resolved),
            Err(DecodeError::UnexpectedKind { found, allowed }) => {
                &&& resolution(schema@, raw) is None
                &&& found == raw.kind()
                &&& allowed@ == schema@
            },
        },
{
    let found = raw.kind();
    match schema.lookup(found) {
        Some(variant) => Ok(ResolvedUnion { variant, payload: raw }),
        None => Err(DecodeError::UnexpectedKind { found, allowed: slice_to_vec(schema.kinds()) }),
    }
}

} // verus!
