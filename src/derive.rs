//! The two entry points on token streams: they parse the definition with
//! `syn`, model it as a [`TypeDescriptor`], run the derivation, and hand back
//! either the implementation or a `compile_error!` invocation.

use vstd::prelude::*;
use proc_macro2::{Span, TokenStream};
use quote::ToTokens;
use syn::{Data, DeriveInput};
use crate::descriptor::{Capability, Diagnostic, Generics, Shape, TypeDescriptor, invalid_shape_message};
use crate::emit::{derivation_outcome, hash_derivation, impl_text, partial_eq_derivation};

verus! {

#[verifier::external_type_specification]
#[verifier::external_body]
pub struct ExTokenStream(proc_macro2::TokenStream);

#[verifier::external_type_specification]
#[verifier::external_body]
pub struct ExDeriveInput(syn::DeriveInput);

#[verifier::external_type_specification]
#[verifier::external_body]
pub struct ExError(syn::Error);

/// What syn::parse2 makes of `tokens` as a struct, enum or union definition.
pub uninterp spec fn parsed_definition(tokens: TokenStream) -> Result<DeriveInput, syn::Error>;

/// The name of the type that `input` defines, as its identifier prints.
pub uninterp spec fn definition_ident(input: DeriveInput) -> Seq<char>;

/// The generic signature of `input`, as syn::Generics::split_for_impl prints it.
pub uninterp spec fn generics_of(input: DeriveInput) -> Generics;

/// The names of the variants of `input`, in order, where it defines an enum;
/// `None` for a struct or a union.
pub uninterp spec fn enum_variants(input: DeriveInput) -> Option<Seq<Seq<char>>>;

/// The message that a syn::Error carries.
pub uninterp spec fn error_message(e: syn::Error) -> Seq<char>;

/// `t` is a `compile_error!` invocation that reports `message`, and nothing
/// else.
pub uninterp spec fn reports(t: TokenStream, message: Seq<char>) -> bool;

/// `code` lexes as Rust tokens.
pub uninterp spec fn lexable(code: Seq<char>) -> bool;

/// `t` is what lexing `code` gives.
pub uninterp spec fn lexes_to(code: Seq<char>, t: TokenStream) -> bool;

/// Relies on syn::parse2: parses the tokens of a struct, enum or union
/// definition, or reports why they are not one.
#[verifier::external_body]
fn parse_definition(tokens: TokenStream) -> (r: Result<DeriveInput, syn::Error>)
    ensures
        r == parsed_definition(tokens),
{
    syn::parse2::<DeriveInput>(tokens)
}

/// Relies on proc_macro2::Ident's to_string: the name of the defined type.
#[verifier::external_body]
fn definition_name(input: &DeriveInput) -> (r: String)
    ensures
        r@ == definition_ident(*input),
{
    input.ident.to_string()
}

/// Relies on syn::Generics::split_for_impl, printed through quote::ToTokens:
/// the parameters with their bounds, the arguments that name the type, and
/// the `where` clause.
#[verifier::external_body]
fn split_generics(input: &DeriveInput) -> (r: Generics)
    ensures
        r == generics_of(*input),
{
    let (impl_params, type_args, where_clause) = input.generics.split_for_impl();
    Generics {
        impl_params: impl_params.to_token_stream().to_string(),
        type_args: type_args.to_token_stream().to_string(),
        where_clause: where_clause.to_token_stream().to_string(),
    }
}

/// Relies on syn::Data: the names of the variants, in order, where the
/// definition is an enum, and `None` for a struct or a union.
#[verifier::external_body]
fn variant_names(input: &DeriveInput) -> (r: Option<Vec<String>>)
    ensures
        r is Some <==> enum_variants(*input) is Some,
        r matches Some(names) ==> enum_variants(*input) == Some(names.deep_view()),
{
    match &input.data {
        Data::Enum(e) => Some(e.variants.iter().map(|v| v.ident.to_string()).collect()),
        Data::Struct(_) => None,
        Data::Union(_) => None,
    }
}

/// Relies on syn::Error::new: an error with `message`, placed at the site of
/// the derive.
#[verifier::external_body]
fn error_at_call_site(message: &String) -> (r: syn::Error)
    ensures
        error_message(r) == message@,
{
    syn::Error::new(Span::call_site(), message)
}

/// Relies on syn::Error::into_compile_error: a `compile_error!` invocation
/// that reports `e`.
#[verifier::external_body]
fn error_tokens(e: syn::Error) -> (r: TokenStream)
    ensures
        reports(r, error_message(e)),
{
    e.into_compile_error()
}

/// Relies on proc_macro2's FromStr for TokenStream, with a lexing failure
/// turned into a syn::Error by its From impl.
#[verifier::external_body]
fn tokenize(code: &String) -> (r: Result<TokenStream, syn::Error>)
    ensures
        r is Ok <==> lexable(code@),
        r matches Ok(t) ==> lexes_to(code@, t),
{
    code.parse::<TokenStream>().map_err(syn::Error::from)
}

/// The definitions a derivation accepts: enums with at least one variant.
pub open spec fn accepted(input: DeriveInput) -> bool {
    enum_variants(input) matches Some(names) && names.len() > 0
}

/// What a derivation of `cap` returns on `input`: the parse error where the
/// tokens are no definition; the implementation, copying the type's name and
/// generic signature, for an enum with variants; the diagnostic that rejects
/// the shape for anything else.
pub open spec fn derived_tokens(cap: Capability, input: TokenStream, r: TokenStream) -> bool {
    match parsed_definition(input) {
        Err(e) => reports(r, error_message(e)),
        Ok(item) => {
            let code = impl_text(cap, definition_ident(item), generics_of(item));
            if accepted(item) {
                lexable(code) ==> lexes_to(code, r)
            } else {
                reports(r, invalid_shape_message(cap))
            }
        },
    }
}

/// The plain model of a parsed definition.
pub fn describe(input: &DeriveInput) -> (r: TypeDescriptor)
    ensures
        r.ident@ == definition_ident(*input),
        r.generics == generics_of(*input),
        r.shape is Sum <==> enum_variants(*input) is Some,
        r.shape matches Shape::Sum { variants } ==> enum_variants(*input) == Some(
            variants.deep_view(),
        ),
{
    let shape = match variant_names(input) {
        Some(variants) => Shape::Sum { variants },
        None => Shape::Other,
    };
    TypeDescriptor { ident: definition_name(input), generics: split_generics(input), shape }
}

/// Runs the derivation of `cap` on a definition.
pub fn expand(d: TypeDescriptor, cap: Capability) -> (r: Result<String, Diagnostic>)
    ensures
        derivation_outcome(cap, d, r),
{
    match cap {
        Capability::Hash => hash_derivation(d),
        Capability::PartialEq => partial_eq_derivation(d),
    }
}

fn derive(input: TokenStream, cap: Capability) -> (r: TokenStream)
    ensures
        derived_tokens(cap, input, r),
{
    match parse_definition(input) {
        Err(e) => error_tokens(e),
        Ok(item) => match expand(describe(&item), cap) {
            Ok(code) => match tokenize(&code) {
                Ok(tokens) => tokens,
                Err(e) => error_tokens(e),
            },
            Err(diagnostic) => error_tokens(error_at_call_site(&diagnostic.message)),
        },
    }
}

/// Derives a `Hash` implementation that relies solely on an enum's
/// discriminant, rather than its contents. On a struct, a union or an enum
/// without variants, or on tokens that are no type definition, it returns a
/// `compile_error!` invocation instead.
pub fn derive_hash(input: TokenStream) -> (r: TokenStream)
    ensures
        derived_tokens(Capability::Hash, input, r),
{
    derive(input, Capability::Hash)
}

/// Derives a `PartialEq` implementation that relies solely on an enum's
/// discriminant, rather than its contents. On a struct, a union or an enum
/// without variants, or on tokens that are no type definition, it returns a
/// `compile_error!` invocation instead.
pub fn derive_partial_eq(input: TokenStream) -> (r: TokenStream)
    ensures
        derived_tokens(Capability::PartialEq, input, r),
{
    derive(input, Capability::PartialEq)
}

} // verus!
