//! Identification and recovery of family members whose family is hidden behind an interface.
//!
//! Identity is keyed on the family tag alone, never on the scope: the tag is `'static` while
//! its members need not be. A recovered member keeps the scope `'a` of the value it came from,
//! so borrowed data inside it can never outlive the scope it was borrowed for.

use std::any::{Any, TypeId};
use vstd::prelude::*;

use crate::Family;

verus! {

#[verifier::external_type_specification]
#[verifier::external_body]
pub struct ExTypeId(TypeId);

/// Relies on `std::any::TypeId::of`: the process-wide identity token of a `'static` type.
pub assume_specification<T: ?Sized + 'static>[ TypeId::of::<T> ]() -> TypeId;

/// Marker newtype for a specific family's member.
///
/// Since a value can be a member of several families, this wrapper picks exactly one of them
/// for dynamic identification.
pub struct FamilyMember<'a, F>(pub F::Member<'a>) where F: Family;

/// The identity on members of `G`, at every scope.
fn same_member<'b, G>(m: FamilyMember<'b, G>) -> (r: FamilyMember<'b, G>) where G: Family
    ensures
        r == m,
{
    m
}

/// The identity on slots of members of `G`, at every scope.
fn same_slot<'b, 'd, G>(slot: &'d mut Option<FamilyMember<'b, G>>) -> (r: &'d mut Option<
    FamilyMember<'b, G>,
>) where G: Family
    ensures
        *r == *old(slot),
        *final(slot) == *final(r),
{
    slot
}

/// Relies on `Box<dyn Any>::downcast`: a boxed `'static` value comes back under the type that is
/// asked for only when that is its own type, and otherwise comes back unchanged. The boxed value
/// is the identity function on members of `G`; it is taken back as a function from members of
/// `G` to members of `F`, which is its own type exactly when `F` and `G` are the same family.
#[verifier::external_body]
fn recast_member<'a, G, F>(m: FamilyMember<'a, G>) -> (r: Result<
    FamilyMember<'a, F>,
    FamilyMember<'a, G>,
>) where G: Family, F: Family
    ensures
        r matches Err(back) ==> back == m,
{
    let same: for<'b> fn(FamilyMember<'b, G>) -> FamilyMember<'b, G> = same_member::<G>;
    let boxed: Box<dyn Any> = Box::new(same);
    match boxed.downcast::<for<'b> fn(FamilyMember<'b, G>) -> FamilyMember<'b, F>>() {
        Ok(cast) => Ok((*cast)(m)),
        Err(_) => Err(m),
    }
}

/// Relies on `<dyn Any>::downcast_ref`: a `'static` value is seen under the type that is asked
/// for only when that is its own type. The value is the identity function on slots of `G`; it is
/// taken as a function from slots of `G` to slots of `F`, which is its own type exactly when `F`
/// and `G` are the same family. When it is not, the slot is left alone.
#[verifier::external_body]
fn recast_slot<'a, 'c, G, F>(slot: &'c mut Option<FamilyMember<'a, G>>) -> (r: Option<
    &'c mut Option<FamilyMember<'a, F>>,
>) where G: Family, F: Family
    ensures
        r is None ==> *final(slot) == *old(slot),
{
    let same: for<'b, 'd> fn(&'d mut Option<FamilyMember<'b, G>>) -> &'d mut Option<
        FamilyMember<'b, G>,
    > = same_slot::<G>;
    let any: &dyn Any = &same;
    match any.downcast_ref::<
        for<'b, 'd> fn(&'d mut Option<FamilyMember<'b, G>>) -> &'d mut Option<FamilyMember<'b, F>>,
    >() {
        Some(cast) => Some(cast(slot)),
        None => None,
    }
}

/// Dynamic identification of a `FamilyMember` held by value.
///
/// Code that is generic over `AnyMember` sees neither the family nor the member type of the
/// value; it can ask for the family's identity and claim the value back for a family of its
/// choice.
pub trait AnyMember<'a>: Sized {
    /// Get the `TypeId` of the family this is a member of.
    fn family_id(&self) -> TypeId;

    /// Take back a boxed member as a member of `F`, keeping its scope.
    ///
    /// Succeeds only when `F` is the family that the member was wrapped for. The box is consumed
    /// either way: on a mismatch the member is dropped with it.
    fn downcast<F>(self: Box<Self>) -> Option<Box<FamilyMember<'a, F>>> where F: Family;

    /// Take back a boxed member as a member of `F`, keeping its scope, or hand the box back.
    ///
    /// Succeeds only when `F` is the family that the member was wrapped for. On a mismatch the
    /// box comes back unchanged, so it can be claimed again for another family.
    fn try_downcast<F>(self: Box<Self>) -> (r: Result<Box<FamilyMember<'a, F>>, Box<Self>>) where
        F: Family,
        ensures
            r matches Err(back) ==> back == self,
    ;
}

impl<'a, G> AnyMember<'a> for FamilyMember<'a, G> where G: Family {
    fn family_id(&self) -> TypeId {
        TypeId::of::<G>()
    }

    fn downcast<F>(self: Box<Self>) -> Option<Box<FamilyMember<'a, F>>> where F: Family {
        match self.try_downcast::<F>() {
            Ok(m) => Some(m),
            Err(_) => None,
        }
    }

    fn try_downcast<F>(self: Box<Self>) -> (r: Result<Box<FamilyMember<'a, F>>, Box<Self>>) where
        F: Family,
     {
        if TypeId::of::<F>() != self.family_id() {
            return Err(self);
        }
        match recast_member::<G, F>(*self) {
            Ok(m) => Ok(Box::new(m)),
            Err(back) => Err(Box::new(back)),
        }
    }
}

/// Dynamic identification of an optional slot that holds a `FamilyMember`.
///
/// Code that is generic over `AnyOption` sees neither the family nor the member type of the
/// slot; it can ask for the family's identity and borrow the slot as a slot of a family of its
/// choice.
pub trait AnyOption<'a>: Sized {
    /// Get the `TypeId` of the family this is a member of.
    fn family_id(&self) -> TypeId;

    /// Borrow the slot as a slot of members of `F`, keeping its scope.
    ///
    /// Succeeds only when `F` is the family of the slot's member type. On a mismatch the slot
    /// is left untouched, so it can be claimed again for another family.
    fn downcast<'c, F>(&'c mut self) -> (r: Option<&'c mut Option<FamilyMember<'a, F>>>) where
        F: Family,
        ensures
            r is None ==> *final(self) == *old(self),
    ;
}

impl<'a, G> AnyOption<'a> for Option<FamilyMember<'a, G>> where G: Family {
    fn family_id(&self) -> TypeId {
        TypeId::of::<G>()
    }

    fn downcast<'c, F>(&'c mut self) -> (r: Option<&'c mut Option<FamilyMember<'a, F>>>) where
        F: Family,
     {
        if TypeId::of::<F>() != self.family_id() {
            return None;
        }
        recast_slot::<G, F>(self)
    }
}

} // verus!
