use const_gen_derive::schema::{Attribute, Container, Field, FieldShape, TypeSchema, Variant};

fn field(name: Option<&str>, ty: &str) -> Field {
    Field { attrs: Vec::new(), vis: String::new(), ident: name.map(String::from), ty: String::from(ty) }
}

#[test]
fn field_name_is_its_identifier() {
    assert_eq!(field(Some("width"), "u32").name(), "width");
}

#[test]
fn field_without_identifier_has_an_empty_name() {
    assert_eq!(field(None, "u32").name(), "");
}

#[test]
fn attribute_is_recognised_by_its_exact_name() {
    let attr = Attribute { path: String::from("inherit_doc"), text: String::from("#[inherit_doc]") };
    assert!(attr.is_ident("inherit_doc"));
    assert!(!attr.is_ident("inherit_docs"));
    assert!(!attr.is_ident("doc"));
    assert!(!attr.is_ident(""));
}

#[test]
fn well_formed_schemas_have_no_violation() {
    let record = TypeSchema {
        attrs: Vec::new(),
        vis: String::new(),
        ident: String::from("Point"),
        generics: String::new(),
        data: Container::Aggregate(FieldShape::Named(vec![field(Some("a"), "i32"), field(Some("b"), "i32")])),
    };
    assert_eq!(record.violation(), None);
    let union_of = TypeSchema {
        attrs: Vec::new(),
        vis: String::new(),
        ident: String::from("Shape"),
        generics: String::new(),
        data: Container::TaggedUnion(vec![
            Variant { attrs: Vec::new(), ident: String::from("Empty"), fields: FieldShape::Unit },
            Variant {
                attrs: Vec::new(),
                ident: String::from("Pair"),
                fields: FieldShape::Positional(vec![field(None, "u8"), field(None, "u8")]),
            },
        ]),
    };
    assert_eq!(union_of.violation(), None);
    assert_eq!(FieldShape::Unit.violation(), None);
}
