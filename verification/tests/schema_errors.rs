use const_gen_derive::driver::impl_macro;
use const_gen_derive::schema::{Container, Field, FieldShape, SchemaError, TypeSchema, Variant};

fn field(name: Option<&str>, ty: &str) -> Field {
    Field { attrs: Vec::new(), vis: String::new(), ident: name.map(String::from), ty: String::from(ty) }
}

fn schema(name: &str, data: Container) -> TypeSchema {
    TypeSchema {
        attrs: Vec::new(),
        vis: String::new(),
        ident: String::from(name),
        generics: String::new(),
        data,
    }
}

fn error_of(s: &TypeSchema) -> Option<SchemaError> {
    match impl_macro(s) {
        Ok(_) => None,
        Err(e) => Some(e),
    }
}

#[test]
fn overlay_without_fields_is_refused() {
    let s = schema("U", Container::Overlay(Vec::new()));
    assert_eq!(error_of(&s), Some(SchemaError::EmptyOverlay));
    assert_eq!(s.violation(), Some(SchemaError::EmptyOverlay));
}

#[test]
fn overlay_with_an_unnamed_member_is_refused() {
    let s = schema("U", Container::Overlay(vec![field(Some("x"), "u32"), field(None, "f32")]));
    assert_eq!(error_of(&s), Some(SchemaError::MissingFieldName));
}

#[test]
fn overlay_with_a_repeated_member_is_refused() {
    let s = schema("U", Container::Overlay(vec![field(Some("x"), "u32"), field(Some("x"), "f32")]));
    assert_eq!(error_of(&s), Some(SchemaError::DuplicateFieldName));
}

#[test]
fn named_field_without_name_is_refused() {
    let s = schema(
        "P",
        Container::Aggregate(FieldShape::Named(vec![field(Some("a"), "i32"), field(None, "i32")])),
    );
    assert_eq!(error_of(&s), Some(SchemaError::MissingFieldName));
}

#[test]
fn positional_field_with_name_is_refused() {
    let s = schema(
        "P",
        Container::Aggregate(FieldShape::Positional(vec![field(None, "i32"), field(Some("b"), "i32")])),
    );
    assert_eq!(error_of(&s), Some(SchemaError::UnexpectedFieldName));
}

#[test]
fn repeated_field_name_is_refused() {
    let s = schema(
        "P",
        Container::Aggregate(FieldShape::Named(vec![
            field(Some("a"), "i32"),
            field(Some("b"), "i32"),
            field(Some("a"), "u8"),
        ])),
    );
    assert_eq!(error_of(&s), Some(SchemaError::DuplicateFieldName));
}

#[test]
fn missing_name_is_reported_before_a_repeated_one() {
    let s = schema(
        "P",
        Container::Aggregate(FieldShape::Named(vec![
            field(Some("a"), "i32"),
            field(Some("a"), "i32"),
            field(None, "u8"),
        ])),
    );
    assert_eq!(error_of(&s), Some(SchemaError::MissingFieldName));
}

#[test]
fn two_unnamed_fields_of_a_named_shape_miss_their_names() {
    let s = schema(
        "P",
        Container::Aggregate(FieldShape::Named(vec![field(None, "i32"), field(None, "i32")])),
    );
    assert_eq!(error_of(&s), Some(SchemaError::MissingFieldName));
}

#[test]
fn the_first_ill_formed_variant_decides_the_error() {
    let s = schema(
        "E",
        Container::TaggedUnion(vec![
            Variant { attrs: Vec::new(), ident: String::from("Fine"), fields: FieldShape::Unit },
            Variant {
                attrs: Vec::new(),
                ident: String::from("Named"),
                fields: FieldShape::Positional(vec![field(Some("x"), "u8")]),
            },
            Variant {
                attrs: Vec::new(),
                ident: String::from("Twice"),
                fields: FieldShape::Named(vec![field(Some("x"), "u8"), field(Some("x"), "u8")]),
            },
        ]),
    );
    assert_eq!(error_of(&s), Some(SchemaError::UnexpectedFieldName));
}

#[test]
fn same_name_in_two_variants_is_accepted() {
    let s = schema(
        "E",
        Container::TaggedUnion(vec![
            Variant {
                attrs: Vec::new(),
                ident: String::from("A"),
                fields: FieldShape::Named(vec![field(Some("x"), "u8")]),
            },
            Variant {
                attrs: Vec::new(),
                ident: String::from("B"),
                fields: FieldShape::Named(vec![field(Some("x"), "u8")]),
            },
        ]),
    );
    assert_eq!(error_of(&s), None);
}

#[test]
fn tagged_union_without_variants_compiles() {
    let s = schema("Never", Container::TaggedUnion(Vec::new()));
    let compiled = impl_macro(&s).unwrap();
    assert_eq!(compiled.definition_text("", "", &Vec::new()), "enum Never{  }");
}

#[test]
fn a_name_that_starts_like_a_placeholder_is_accepted() {
    let s = schema(
        "P",
        Container::Aggregate(FieldShape::Named(vec![field(Some("idnt0"), "i32")])),
    );
    assert_eq!(error_of(&s), None);
}
