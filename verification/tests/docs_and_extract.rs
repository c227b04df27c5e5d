use const_gen_derive::docs::{
    get_docs, get_inner_docs, resolve_inheritance, DocumentationInheritance, DOC, DOC_ATTR,
    INNER_DOC_ATTR,
};
use const_gen_derive::extract::{
    extract, get_field_docs, get_field_idents, get_field_types, get_field_visibilities,
};
use const_gen_derive::schema::{Attribute, Field, FieldShape};

fn attr(path: &str, text: &str) -> Attribute {
    Attribute { path: String::from(path), text: String::from(text) }
}

fn some(text: &str) -> Option<String> {
    Some(String::from(text))
}

#[test]
fn marker_names() {
    assert_eq!(DOC_ATTR, "inherit_doc");
    assert_eq!(INNER_DOC_ATTR, "inherit_docs");
    assert_eq!(DOC, "doc");
}

#[test]
fn type_without_marker_keeps_nothing() {
    let attrs = vec![attr("doc", "one"), attr("derive", "#[derive(Debug)]")];
    assert_eq!(get_docs(&attrs), (None, false));
    assert_eq!(get_docs(&Vec::new()), (None, false));
}

#[test]
fn type_with_own_marker_keeps_its_first_documentation() {
    let attrs = vec![attr("inherit_doc", ""), attr("doc", "one"), attr("doc", "two")];
    assert_eq!(get_docs(&attrs), (some("one"), false));
}

#[test]
fn type_with_all_scopes_marker_keeps_and_passes_on() {
    let attrs = vec![attr("doc", "one"), attr("inherit_docs", "")];
    assert_eq!(get_docs(&attrs), (some("one"), true));
}

#[test]
fn all_scopes_marker_counts_wherever_it_stands() {
    let attrs = vec![attr("inherit_doc", ""), attr("inherit_docs", ""), attr("doc", "one")];
    assert_eq!(get_docs(&attrs), (some("one"), true));
    let attrs = vec![attr("inherit_docs", ""), attr("inherit_doc", "")];
    assert_eq!(get_docs(&attrs), (None, true));
}

#[test]
fn marker_without_documentation_keeps_nothing() {
    assert_eq!(get_docs(&vec![attr("inherit_doc", "")]), (None, false));
    assert_eq!(get_inner_docs(&vec![attr("inherit_doc", "")], true), None);
}

#[test]
fn scope_keeps_its_own_documentation_under_an_inheriting_type() {
    assert_eq!(get_inner_docs(&vec![attr("doc", "mine"), attr("doc", "more")], true), some("mine"));
    assert_eq!(get_inner_docs(&vec![attr("other", "x")], true), None);
    assert_eq!(get_inner_docs(&Vec::new(), true), None);
}

#[test]
fn scope_needs_its_own_marker_otherwise() {
    assert_eq!(get_inner_docs(&vec![attr("doc", "mine")], false), None);
    assert_eq!(get_inner_docs(&vec![attr("doc", "mine"), attr("inherit_doc", "")], false), some("mine"));
}

#[test]
fn all_scopes_marker_on_a_field_is_not_its_own_marker() {
    assert_eq!(get_inner_docs(&vec![attr("doc", "mine"), attr("inherit_docs", "")], false), None);
}

fn fields() -> Vec<Field> {
    vec![
        Field {
            attrs: vec![attr("doc", "first")],
            vis: String::from("pub"),
            ident: some("a"),
            ty: String::from("A"),
        },
        Field {
            attrs: vec![attr("doc", "second"), attr("inherit_doc", "")],
            vis: String::new(),
            ident: None,
            ty: String::from("B"),
        },
    ]
}

#[test]
fn extractors_project_in_declaration_order() {
    let f = fields();
    assert_eq!(get_field_visibilities(&f), vec!["pub", ""]);
    assert_eq!(get_field_idents(&f), vec![&some("a"), &None]);
    assert_eq!(get_field_types(&f), vec!["A", "B"]);
    assert_eq!(get_field_docs(&f, false), vec![None, some("second")]);
    assert_eq!(get_field_docs(&f, true), vec![some("first"), some("second")]);
}

#[test]
fn extractors_of_no_fields_are_empty() {
    let f: Vec<Field> = Vec::new();
    assert!(get_field_visibilities(&f).is_empty());
    assert!(get_field_idents(&f).is_empty());
    assert!(get_field_types(&f).is_empty());
    assert!(get_field_docs(&f, true).is_empty());
}

#[test]
fn extract_of_a_unit_shape_is_empty() {
    let (names, visibilities, types, docs) = extract(&FieldShape::Unit, true);
    assert!(names.is_empty());
    assert!(visibilities.is_empty());
    assert!(types.is_empty());
    assert!(docs.is_empty());
}

#[test]
fn extract_of_a_positional_shape_has_no_names() {
    let shape = FieldShape::Positional(vec![
        Field { attrs: Vec::new(), vis: String::new(), ident: None, ty: String::from("A") },
        Field { attrs: Vec::new(), vis: String::new(), ident: None, ty: String::from("B") },
    ]);
    let (names, visibilities, types, docs) = extract(&shape, false);
    assert_eq!(names, vec![&None, &None]);
    assert_eq!(visibilities, vec!["", ""]);
    assert_eq!(types, vec!["A", "B"]);
    assert_eq!(docs, vec![None, None]);
}

#[test]
fn inheritance_of_a_type_has_three_states() {
    assert_eq!(resolve_inheritance(&Vec::new()), DocumentationInheritance::Off);
    assert_eq!(resolve_inheritance(&vec![attr("doc", "one")]), DocumentationInheritance::Off);
    assert_eq!(
        resolve_inheritance(&vec![attr("doc", "one"), attr("inherit_doc", "")]),
        DocumentationInheritance::InheritSelf
    );
    assert_eq!(
        resolve_inheritance(&vec![attr("inherit_docs", "")]),
        DocumentationInheritance::InheritAll
    );
    assert_eq!(
        resolve_inheritance(&vec![attr("inherit_doc", ""), attr("inherit_docs", "")]),
        DocumentationInheritance::InheritAll
    );
}
