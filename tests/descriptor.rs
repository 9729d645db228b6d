use discrimenum::derive::{describe, expand};
use discrimenum::descriptor::{
    invalid_shape, validate, Capability, Generics, Shape, TypeDescriptor,
};
use discrimenum::emit::{emit_eq, emit_hash, hash_derivation, partial_eq_derivation};

fn plain_generics() -> Generics {
    Generics { impl_params: String::new(), type_args: String::new(), where_clause: String::new() }
}

fn descriptor(shape: Shape) -> TypeDescriptor {
    TypeDescriptor { ident: "T".to_string(), generics: plain_generics(), shape }
}

fn two_variants() -> Shape {
    Shape::Sum { variants: vec!["A".to_string(), "B".to_string()] }
}

#[test]
fn describe_reads_name_generics_and_variants() {
    let input: syn::DeriveInput =
        syn::parse_str("enum Tree<K: Ord, V> where V: Clone { Leaf, Node(K, V), Many { items: Vec<V> } }").unwrap();
    let d = describe(&input);
    assert_eq!(d.ident, "Tree");
    assert_eq!(d.generics.impl_params.replace(' ', ""), "<K:Ord,V>");
    assert_eq!(d.generics.type_args.replace(' ', ""), "<K,V>");
    assert_eq!(d.generics.where_clause.replace(' ', ""), "whereV:Clone");
    match d.shape {
        Shape::Sum { variants } => assert_eq!(variants, vec!["Leaf", "Node", "Many"]),
        Shape::Other => panic!("an enum is a sum type"),
    }
}

#[test]
fn describe_marks_struct_and_union_as_other() {
    let s: syn::DeriveInput = syn::parse_str("struct P { x: i32 }").unwrap();
    assert!(matches!(describe(&s).shape, Shape::Other));
    let u: syn::DeriveInput = syn::parse_str("union U { a: u8 }").unwrap();
    assert!(matches!(describe(&u).shape, Shape::Other));
    let plain: syn::DeriveInput = syn::parse_str("struct Unit;").unwrap();
    let d = describe(&plain);
    assert_eq!(d.ident, "Unit");
    assert_eq!(d.generics.impl_params, "");
    assert_eq!(d.generics.where_clause, "");
}

#[test]
fn validate_keeps_the_enum() {
    let s = validate(descriptor(two_variants()), Capability::Hash).ok().unwrap();
    assert_eq!(s.ident, "T");
    assert_eq!(s.variants, vec!["A", "B"]);
}

#[test]
fn validate_rejects_other_shapes() {
    let e = validate(descriptor(Shape::Other), Capability::PartialEq).err().unwrap();
    assert_eq!(
        e.message,
        "Cannot derive discriminant PartialEq for non-enum types. Did you mean to use the built-in PartialEq trait?"
    );
}

#[test]
fn invalid_shape_names_the_trait() {
    assert_eq!(
        invalid_shape(Capability::Hash).message,
        "Cannot derive discriminant Hash for non-enum types. Did you mean to use the built-in Hash trait?"
    );
}

#[test]
fn emitted_text_is_exact() {
    let g = Generics {
        impl_params: "<X>".to_string(),
        type_args: "<X>".to_string(),
        where_clause: "where X: Copy".to_string(),
    };
    let s = validate(
        TypeDescriptor { ident: "T".to_string(), generics: g, shape: two_variants() },
        Capability::Hash,
    )
    .ok()
    .unwrap();
    assert_eq!(
        emit_hash(&s),
        "impl <X> ::core::hash::Hash for T <X> where X: Copy { fn hash<H: ::std::hash::Hasher>(&self, state: &mut H) { ::std::mem::discriminant(self).hash(state); } }"
    );
    assert_eq!(
        emit_eq(&s),
        "impl <X> ::core::cmp::PartialEq for T <X> where X: Copy { fn eq(&self, other: &Self) -> bool { ::std::mem::discriminant(self) == ::std::mem::discriminant(other) } }"
    );
}

#[test]
fn derivations_on_descriptors() {
    let code = hash_derivation(descriptor(two_variants())).ok().unwrap();
    assert!(code.starts_with("impl  ::core::hash::Hash for T "));
    let code = partial_eq_derivation(descriptor(two_variants())).ok().unwrap();
    assert!(code.starts_with("impl  ::core::cmp::PartialEq for T "));
    assert!(hash_derivation(descriptor(Shape::Other)).is_err());
    let e = expand(descriptor(Shape::Other), Capability::Hash).err().unwrap();
    assert!(e.message.contains("built-in Hash trait"));
    let code = expand(descriptor(two_variants()), Capability::PartialEq).ok().unwrap();
    assert!(code.contains("::core::cmp::PartialEq for T"));
}

#[test]
fn validate_rejects_enum_without_variants() {
    let e = validate(descriptor(Shape::Sum { variants: vec![] }), Capability::Hash).err().unwrap();
    assert_eq!(
        e.message,
        "Cannot derive discriminant Hash for non-enum types. Did you mean to use the built-in Hash trait?"
    );
    assert!(partial_eq_derivation(descriptor(Shape::Sum { variants: vec![] })).is_err());
}
