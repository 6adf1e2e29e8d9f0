//! A record with one optional union field.

use crate::resolver::DecodeError;
use crate::unions::UnionIntLongBool;
use crate::value::RawValue;
use vstd::prelude::*;

verus! {

/// A record whose one field, `a`, is null or a value of the union
/// `[int, long, boolean]`.
#[derive(Clone, Debug, PartialEq)]
pub struct Event {
    pub a: Option<UnionIntLongBool>,
}

impl Default for Event {
    /// The record that a decoder puts in place of one whose field is absent
    /// from the encoded payload: the field holds no value.
    fn default() -> (event: Event)
        ensures
            event.a is None,
    {
        Event { a: None }
    }
}

impl Event {
    /// Binds the decoded value of field `a`.
    ///
    /// Null gives a record without a value and never an error. Any other
    /// value goes into the variant that was declared for its kind, and is
    /// refused where the union declares no such kind.
    pub fn from_field(a: RawValue) -> (res: Result<Event, DecodeError>)
        ensures
            a is Null ==> (res matches Ok(event) && event.a is None),
            match res {
                Ok(event) => {
                    &&& a is Null || event.a is Some
                    &&& event.a == UnionIntLongBool::spec_from_raw(a)
                },
                Err(DecodeError::UnexpectedKind { found, allowed }) => {
                    &&& !(a is Null)
                    &&& UnionIntLongBool::spec_from_raw(a) is None
                    &&& found == a.kind()
                    &&& allowed@ == UnionIntLongBool::declared()
                },
            },
    {
        match a {
            RawValue::Null => Ok(Event { a: None }),
            populated => match UnionIntLongBool::from_raw(populated) {
                Ok(value) => Ok(Event { a: Some(value) }),
                Err(e) => Err(e),
            },
        }
    }
}

} // verus!
