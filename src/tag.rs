//! Where the family of a derived `Member` implementation comes from.
//!
//! A type with no lifetime parameter is its own family tag. A type with one lifetime
//! parameter gets a new tag type, named after it with the suffix `F`, whose member at scope
//! `'a` is the type at `'a`. A type with more lifetime parameters has no family: families have
//! exactly one scope parameter.

use vstd::prelude::*;

verus! {

/// The family tag that a derived `Member` implementation uses.
pub enum FamilyTag {
    /// The type has no lifetime parameter and is its own family tag.
    Itself,
    /// The type has one lifetime parameter: a new tag type of this name is declared.
    Generated(String),
}

/// Why no family can be derived for a type.
#[derive(Debug, PartialEq, Eq, Structural)]
pub enum TagError {
    /// The type declares more than one lifetime parameter.
    TooManyLifetimes,
}

/// The name of the tag type generated for a type named `ident`.
pub open spec fn generated_name(ident: Seq<char>) -> Seq<char> {
    ident + seq!['F']
}

/// The family tag for a type named `ident` that declares `lifetimes` lifetime parameters.
pub fn family_tag(ident: &str, lifetimes: usize) -> (r: Result<FamilyTag, TagError>)
    ensures
        lifetimes == 0 <==> r matches Ok(FamilyTag::Itself),
        lifetimes == 1 <==> (r matches Ok(FamilyTag::Generated(name)) && name@ == generated_name(
            ident@,
        )),
        lifetimes > 1 <==> r == Err::<FamilyTag, TagError>(TagError::TooManyLifetimes),
{
    if lifetimes == 0 {
        Ok(FamilyTag::Itself)
    } else if lifetimes == 1 {
        let name = ident.to_owned().concat("F");
        proof {
            reveal_strlit("F");
        }
        assert(name@ == generated_name(ident@));
        Ok(FamilyTag::Generated(name))
    } else {
        Err(TagError::TooManyLifetimes)
    }
}

} // verus!
