//! Families of types: a tag type that produces one concrete member type for each scope, and a
//! wrapper that ties a member value back to the family it came from.

pub mod any;
pub mod tag;
pub mod utils;

use vstd::prelude::*;

verus! {

/// Family pattern family interface.
///
/// A family is a tag type without data. For each scope `'a` it names the concrete type that
/// it produces, `Member<'a>`. The tag is a `'static` type, so that its identity can be queried
/// at run time even when its members borrow data only for a limited scope.
pub trait Family: Sized + 'static {
    type Member<'a>: Member<Self>;
}

/// Family pattern member interface.
///
/// Borne by each type that some family `F` produces for some scope. It adds no operations.
/// `F` is meant to be a `Family`; the bound is left to `Family::Member`, which requires this
/// trait of every member type.
pub trait Member<F> {

}

} // verus!
