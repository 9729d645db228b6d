//! The text of the two implementations. Both compare or hash
//! `::std::mem::discriminant(self)` alone, so the payloads are never read and
//! no bound is asked of the type's parameters.

use vstd::prelude::*;
use crate::descriptor::{
    Capability, Diagnostic, Generics, SumDescriptor, TypeDescriptor, invalid_shape_message, is_sum,
    validate,
};

verus! {

/// The fully qualified path of the trait implemented for `cap`.
pub open spec fn trait_path(cap: Capability) -> Seq<char> {
    match cap {
        Capability::Hash => "::core::hash::Hash"@,
        Capability::PartialEq => "::core::cmp::PartialEq"@,
    }
}

/// The body of the implementation for `cap`, braces included.
pub open spec fn impl_body(cap: Capability) -> Seq<char> {
    match cap {
        Capability::Hash => "{ fn hash<H: ::std::hash::Hasher>(&self, state: &mut H) { ::std::mem::discriminant(self).hash(state); } }"@,
        Capability::PartialEq => "{ fn eq(&self, other: &Self) -> bool { ::std::mem::discriminant(self) == ::std::mem::discriminant(other) } }"@,
    }
}

/// `impl <params> <trait> for <ident> <args> <where clause>`: the generic
/// signature is copied as it stands in the type's definition.
pub open spec fn impl_header(cap: Capability, ident: Seq<char>, g: Generics) -> Seq<char> {
    "impl "@ + g.impl_params@ + " "@ + trait_path(cap) + " for "@ + ident + " "@ + g.type_args@
        + " "@ + g.where_clause@
}

/// The whole implementation of `cap` for the type `ident` with generics `g`.
pub open spec fn impl_text(cap: Capability, ident: Seq<char>, g: Generics) -> Seq<char> {
    impl_header(cap, ident, g) + " "@ + impl_body(cap)
}

/// What a derivation of `cap` produces for `d`: the implementation for an
/// enum with at least one variant, the diagnostic for anything else.
pub open spec fn derivation_outcome(cap: Capability, d: TypeDescriptor, r: Result<String, Diagnostic>) -> bool {
    &&& r is Ok <==> is_sum(d)
    &&& r matches Ok(code) ==> code@ == impl_text(cap, d.ident@, d.generics)
    &&& r matches Err(e) ==> e.message@ == invalid_shape_message(cap)
}

fn trait_path_str(cap: Capability) -> (r: &'static str)
    ensures
        r@ == trait_path(cap),
{
    match cap {
        Capability::Hash => "::core::hash::Hash",
        Capability::PartialEq => "::core::cmp::PartialEq",
    }
}

fn impl_body_str(cap: Capability) -> (r: &'static str)
    ensures
        r@ == impl_body(cap),
{
    match cap {
        Capability::Hash => "{ fn hash<H: ::std::hash::Hasher>(&self, state: &mut H) { ::std::mem::discriminant(self).hash(state); } }",
        Capability::PartialEq => "{ fn eq(&self, other: &Self) -> bool { ::std::mem::discriminant(self) == ::std::mem::discriminant(other) } }",
    }
}

fn emit(cap: Capability, d: &SumDescriptor) -> (r: String)
    ensures
        r@ == impl_text(cap, d.ident@, d.generics),
{
    let mut code = String::from_str("impl ");
    code.append(d.generics.impl_params.as_str());
    code.append(" ");
    code.append(trait_path_str(cap));
    code.append(" for ");
    code.append(d.ident.as_str());
    code.append(" ");
    code.append(d.generics.type_args.as_str());
    code.append(" ");
    code.append(d.generics.where_clause.as_str());
    code.append(" ");
    code.append(impl_body_str(cap));
    code
}

/// The `Hash` implementation for an enum: it feeds the hasher the
/// discriminant of the value and nothing else.
pub fn emit_hash(d: &SumDescriptor) -> (r: String)
    ensures
        r@ == impl_text(Capability::Hash, d.ident@, d.generics),
{
    emit(Capability::Hash, d)
}

/// The `PartialEq` implementation for an enum: two values are equal exactly
/// when their discriminants are.
pub fn emit_eq(d: &SumDescriptor) -> (r: String)
    ensures
        r@ == impl_text(Capability::PartialEq, d.ident@, d.generics),
{
    emit(Capability::PartialEq, d)
}

/// Derives `Hash` for a definition: checks its shape, then writes the
/// implementation.
pub fn hash_derivation(d: TypeDescriptor) -> (r: Result<String, Diagnostic>)
    ensures
        derivation_outcome(Capability::Hash, d, r),
{
    match validate(d, Capability::Hash) {
        Ok(s) => Ok(emit_hash(&s)),
        Err(e) => Err(e),
    }
}

/// Derives `PartialEq` for a definition: checks its shape, then writes the
/// implementation.
pub fn partial_eq_derivation(d: TypeDescriptor) -> (r: Result<String, Diagnostic>)
    ensures
        derivation_outcome(Capability::PartialEq, d, r),
{
    match validate(d, Capability::PartialEq) {
        Ok(s) => Ok(emit_eq(&s)),
        Err(e) => Err(e),
    }
}

} // verus!
