//! A ready-made family for a single type without borrowed data.

use std::marker::PhantomData;
use vstd::prelude::*;

use crate::{Family, Member};

verus! {

/// Family tag whose member, at every scope, is `MemberT<T>`. It holds no data.
pub struct FamilyT<T>(PhantomData<T>);

/// The member of `FamilyT<T>`: a plain wrapper around a `T`.
pub struct MemberT<T>(pub T);

impl<T: 'static> Family for FamilyT<T> {
    type Member<'a> = MemberT<T>;
}

impl<T: 'static> Member<FamilyT<T>> for MemberT<T> {

}

} // verus!
