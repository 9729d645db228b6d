//! The plain model of a type definition handed to a derivation, and the check
//! that it is an enum.

use vstd::prelude::*;

verus! {

/// The capability a derivation implements.
#[derive(Clone, Copy, Debug, PartialEq, Eq, Structural)]
pub enum Capability {
    Hash,
    PartialEq,
}

/// The generic signature of a type, as source text.
///
/// `impl_params` is the parameter list with its bounds (`<T: Debug>`),
/// `type_args` the list that names the type (`<T>`), and `where_clause` the
/// whole `where` clause; each is empty where the type has none.
pub struct Generics {
    pub impl_params: String,
    pub type_args: String,
    pub where_clause: String,
}

/// What kind of type a definition introduces.
pub enum Shape {
    /// An enum, with the names of its variants in declaration order.
    Sum { variants: Vec<String> },
    /// A struct or a union.
    Other,
}

/// A type definition: its name, its generic signature and its shape.
pub struct TypeDescriptor {
    pub ident: String,
    pub generics: Generics,
    pub shape: Shape,
}

/// A type definition known to be an enum with at least one variant.
pub struct SumDescriptor {
    pub ident: String,
    pub generics: Generics,
    pub variants: Vec<String>,
}

/// The error reported in place of generated code when a definition is not an
/// enum. The host shows it at the site of the derive.
pub struct Diagnostic {
    pub message: String,
}

/// The path of the trait, as the message names it.
pub open spec fn trait_name(cap: Capability) -> Seq<char> {
    match cap {
        Capability::Hash => "Hash"@,
        Capability::PartialEq => "PartialEq"@,
    }
}

/// The message that rejects a definition that is not an enum: it names the
/// refused derivation and points at the built-in one.
pub open spec fn invalid_shape_message(cap: Capability) -> Seq<char> {
    "Cannot derive discriminant "@ + trait_name(cap)
        + " for non-enum types. Did you mean to use the built-in "@ + trait_name(cap)
        + " trait?"@
}

/// An enum with at least one variant: the only shape the derivations accept.
/// A type with no variants at all has no discriminant to compare or hash.
pub open spec fn is_sum(d: TypeDescriptor) -> bool {
    d.shape matches Shape::Sum { variants } && variants@.len() > 0
}

fn trait_name_str(cap: Capability) -> (r: &'static str)
    ensures
        r@ == trait_name(cap),
{
    match cap {
        Capability::Hash => "Hash",
        Capability::PartialEq => "PartialEq",
    }
}

/// Builds the diagnostic that rejects a definition for `cap`.
pub fn invalid_shape(cap: Capability) -> (r: Diagnostic)
    ensures
        r.message@ == invalid_shape_message(cap),
{
    let name = trait_name_str(cap);
    let mut message = String::from_str("Cannot derive discriminant ");
    message.append(name);
    message.append(" for non-enum types. Did you mean to use the built-in ");
    message.append(name);
    message.append(" trait?");
    Diagnostic { message }
}

/// Accepts an enum with at least one variant, unchanged but for its shape,
/// and rejects anything else with the diagnostic for `cap`.
pub fn validate(d: TypeDescriptor, cap: Capability) -> (r: Result<SumDescriptor, Diagnostic>)
    ensures
        r is Ok <==> is_sum(d),
        r matches Ok(s) ==> s.ident == d.ident && s.generics == d.generics && d.shape
            == (Shape::Sum { variants: s.variants }),
        r matches Err(e) ==> e.message@ == invalid_shape_message(cap),
{
    match d.shape {
        Shape::Sum { variants } => {
            if variants.len() > 0 {
                Ok(SumDescriptor { ident: d.ident, generics: d.generics, variants })
            } else {
                Err(invalid_shape(cap))
            }
        },
        Shape::Other => Err(invalid_shape(cap)),
    }
}

} // verus!
