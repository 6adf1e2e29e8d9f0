//! Exact-kind resolution of union values.
//!
//! A schema-driven decoder hands over dynamically tagged primitive values. A
//! union field may carry any one of several primitive kinds, and the value has
//! to end up in the one variant of a sum type that was declared for its kind.
//! Resolution goes by the tag the decoder attached to the value and by nothing
//! else: the payload is never inspected to guess a variant, and it is never
//! narrowed, widened or otherwise coerced on the way.
//!
//! Beside the resolver the crate holds [`series::Series`], a small record in
//! the form in which it is handed to bindings of other languages.

pub mod binder;
pub mod event;
pub mod kind;
pub mod resolver;
pub mod schema;
pub mod series;
pub mod unions;
pub mod value;
