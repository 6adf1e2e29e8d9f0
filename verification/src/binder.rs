//! Optional union fields: the null branch of a union stands for "no value".

use crate::kind::KindTag;
use crate::resolver::{resolution, resolve, DecodeError, ResolvedUnion};
use crate::schema::UnionSchema;
use crate::value::RawValue;
use vstd::prelude::*;

verus! {

/// Whether a decoded value fills an optional field of the union with the
/// declared `kinds`: null always does, any other value where a variant
/// declares its kind.
pub open spec fn binds(kinds: Seq<KindTag>, raw: RawValue) -> bool {
    raw is Null || resolution(kinds, raw) is Some
}

/// What an optional field of the union with the declared `kinds` holds after
/// a decoded value was bound to it: nothing for null, else the resolved value.
pub open spec fn binding(kinds: Seq<KindTag>, raw: RawValue) -> Option<ResolvedUnion> {
    if raw is Null {
        None
    } else {
        resolution(kinds, raw)
    }
}

/// Binds a decoded value to an optional field of a union type.
///
/// A value tagged null gives `None`, whatever the schema declares, and never
/// an error. Any other value is resolved against the schema. A field that is
/// absent from the encoded record never arrives here: the record decoder
/// fills it with the default of the field's type.
pub fn bind(schema: &UnionSchema, raw: RawValue) -> (res: Result<
    Option<ResolvedUnion>,
    DecodeError,
>)
    ensures
        raw is Null ==> res matches Ok(None),
        match res {
            Ok(bound) => binds(schema@, raw) && bound == binding(schema@, raw),
            Err(DecodeError::UnexpectedKind { found, allowed }) => {
                &&& !binds(schema@, raw)
                &&& found == raw.kind()
                &&& allowed@ == schema@
            },
        },
{
    match raw {
        RawValue::Null => Ok(None),
        populated => match resolve(schema, populated) {
            Ok(resolved) => Ok(Some(resolved)),
            Err(e) => Err(e),
        },
    }
}

} // verus!
