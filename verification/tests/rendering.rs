use const_gen_derive::definition::{
    enum_def_handler, enum_variant_def_handler, struct_def_handler, union_def_handler,
};
use const_gen_derive::driver::{impl_macro, Compiled, Instance, ValueRenderer};
use const_gen_derive::schema::{Attribute, Container, Field, FieldShape, TypeSchema, Variant};
use const_gen_derive::template::{Binding, Piece, Symbol, Template};
use const_gen_derive::value::{
    enum_val_handler, placeholder_ident, struct_val_handler, union_val_handler, ShapeKind,
};

fn named(name: &str, ty: &str) -> Field {
    Field { attrs: Vec::new(), vis: String::new(), ident: Some(String::from(name)), ty: String::from(ty) }
}

fn positional(ty: &str) -> Field {
    Field { attrs: Vec::new(), vis: String::new(), ident: None, ty: String::from(ty) }
}

fn schema(name: &str, data: Container) -> TypeSchema {
    TypeSchema {
        attrs: Vec::new(),
        vis: String::new(),
        ident: String::from(name),
        generics: String::new(),
        data,
    }
}

fn type_is(reference: &str, name: &str) -> Binding {
    Binding { symbol: Symbol::Type(String::from(reference)), text: String::from(name) }
}

fn texts(values: &[&str]) -> Vec<String> {
    values.iter().map(|v| String::from(*v)).collect()
}

fn instance(variant: usize, values: &[&str]) -> Instance {
    Instance { variant, values: texts(values) }
}

fn hole_names(template: &Template) -> Vec<String> {
    let mut names = Vec::new();
    for piece in &template.pieces {
        if let Piece::Hole(symbol) = piece {
            names.push(match symbol {
                Symbol::Type(s) => format!("type {}", s),
                Symbol::Member(s) => format!("member {}", s),
                Symbol::Index(i) => format!("index {}", i),
                Symbol::Bound(s) => format!("bound {}", s),
            });
        }
    }
    names
}

fn symbol_names(symbols: &[Symbol]) -> Vec<String> {
    symbols
        .iter()
        .map(|symbol| match symbol {
            Symbol::Type(s) => format!("type {}", s),
            Symbol::Member(s) => format!("member {}", s),
            Symbol::Index(i) => format!("index {}", i),
            Symbol::Bound(s) => format!("bound {}", s),
        })
        .collect()
}

fn point() -> Compiled {
    let s = schema(
        "Point",
        Container::Aggregate(FieldShape::Named(vec![named("a", "IntType"), named("b", "IntType")])),
    );
    impl_macro(&s).unwrap()
}

fn shape() -> TypeSchema {
    schema(
        "Shape",
        Container::TaggedUnion(vec![
            Variant { attrs: Vec::new(), ident: String::from("Empty"), fields: FieldShape::Unit },
            Variant {
                attrs: Vec::new(),
                ident: String::from("Circle"),
                fields: FieldShape::Positional(vec![positional("f64")]),
            },
            Variant {
                attrs: Vec::new(),
                ident: String::from("Rect"),
                fields: FieldShape::Named(vec![named("w", "f64"), named("h", "f64")]),
            },
        ]),
    )
}

#[test]
fn point_value_text() {
    let compiled = point();
    let value = instance(0, &["3", "4"]);
    assert!(compiled.accepts(&value));
    assert_eq!(compiled.value_text(&value), "Point { a: 3, b: 4, }");
}

#[test]
fn point_definition_text() {
    let compiled = point();
    let types = vec![type_is("IntType", "i32")];
    assert!(compiled.definition.resolved_by(&types));
    assert_eq!(compiled.definition_text("", "pub", &types), "pub struct Point{ a: i32, b: i32, }");
}

#[test]
fn point_canonical_name() {
    assert_eq!(point().canonical_name(), "Point");
}

#[test]
fn definition_without_visibility_has_no_leading_gap() {
    let types = vec![type_is("IntType", "i32")];
    assert_eq!(point().definition_text("", "", &types), "struct Point{ a: i32, b: i32, }");
}

#[test]
fn definition_behind_attributes_of_the_caller() {
    let types = vec![type_is("IntType", "i32")];
    assert_eq!(
        point().definition_text("#[derive(Debug)]", "pub(crate)", &types),
        "#[derive(Debug)] pub(crate) struct Point{ a: i32, b: i32, }"
    );
}

#[test]
fn compiling_twice_gives_the_same_text() {
    let first = point();
    let second = point();
    let value = instance(0, &["3", "4"]);
    let types = vec![type_is("IntType", "i32")];
    assert_eq!(first.value_text(&value), second.value_text(&value));
    assert_eq!(first.value_text(&value), first.value_text(&value));
    assert_eq!(first.definition_text("", "pub", &types), second.definition_text("", "pub", &types));
    assert_eq!(first.canonical_name(), second.canonical_name());
}

#[test]
fn unit_variant_value_text() {
    let compiled = impl_macro(&shape()).unwrap();
    assert_eq!(compiled.value_text(&instance(0, &[])), "Shape::Empty");
}

#[test]
fn unit_variant_definition_fragment() {
    let t = enum_variant_def_handler(&Vec::new(), "Empty", &FieldShape::Unit, false);
    assert_eq!(t.render(&Vec::new()), "Empty,");
}

#[test]
fn positional_variant_value_text() {
    let compiled = impl_macro(&shape()).unwrap();
    assert_eq!(compiled.value_text(&instance(1, &["1.5"])), "Shape::Circle(1.5,)");
}

#[test]
fn named_variant_value_text() {
    let compiled = impl_macro(&shape()).unwrap();
    assert_eq!(compiled.value_text(&instance(2, &["2", "3"])), "Shape::Rect{w:2,h:3,}");
}

#[test]
fn tagged_union_definition_text() {
    let compiled = impl_macro(&shape()).unwrap();
    let types = vec![type_is("f64", "f64")];
    assert_eq!(
        compiled.definition_text("", "pub", &types),
        "pub enum Shape{ Empty,Circle(f64,),Rect{w:f64,h:f64,}, }"
    );
}

#[test]
fn tagged_union_definition_keeps_variant_order() {
    let variants = vec![
        Variant { attrs: Vec::new(), ident: String::from("C"), fields: FieldShape::Unit },
        Variant { attrs: Vec::new(), ident: String::from("A"), fields: FieldShape::Unit },
        Variant { attrs: Vec::new(), ident: String::from("B"), fields: FieldShape::Unit },
    ];
    let t = enum_def_handler("Letter", "", &variants, false);
    assert_eq!(t.render(&Vec::new()), "enum Letter{ C,A,B, }");
}

#[test]
fn instance_of_a_missing_variant_is_not_accepted() {
    let compiled = impl_macro(&shape()).unwrap();
    assert!(!compiled.accepts(&instance(3, &[])));
    assert!(!compiled.accepts(&instance(1, &[])));
    assert!(!compiled.accepts(&instance(0, &["1"])));
    assert!(compiled.accepts(&instance(2, &["1", "2"])));
}

#[test]
fn positional_record_texts() {
    let s = schema(
        "Pair",
        Container::Aggregate(FieldShape::Positional(vec![positional("A"), positional("B")])),
    );
    let compiled = impl_macro(&s).unwrap();
    assert_eq!(compiled.value_text(&instance(0, &["3", "4"])), "Pair(3,4,)");
    let types = vec![type_is("A", "i32"), type_is("B", "i64")];
    assert_eq!(compiled.definition_text("", "", &types), "struct Pair(i32,i64,);");
}

#[test]
fn unit_record_texts() {
    let s = schema("Marker", Container::Aggregate(FieldShape::Unit));
    let compiled = impl_macro(&s).unwrap();
    assert_eq!(compiled.value_text(&instance(0, &[])), "Marker");
    assert_eq!(compiled.definition_text("", "pub", &Vec::new()), "pub struct Marker;");
}

#[test]
fn record_without_fields_keeps_its_braces() {
    let s = schema("Nothing", Container::Aggregate(FieldShape::Named(Vec::new())));
    let compiled = impl_macro(&s).unwrap();
    assert_eq!(compiled.value_text(&instance(0, &[])), "Nothing { }");
    assert_eq!(compiled.definition_text("", "", &Vec::new()), "struct Nothing{ }");
    let t = schema("Tuple", Container::Aggregate(FieldShape::Positional(Vec::new())));
    let compiled = impl_macro(&t).unwrap();
    assert_eq!(compiled.value_text(&instance(0, &[])), "Tuple()");
    assert_eq!(compiled.definition_text("", "", &Vec::new()), "struct Tuple();");
}

#[test]
fn generics_follow_the_name() {
    let mut s = schema(
        "Wrapper",
        Container::Aggregate(FieldShape::Named(vec![named("inner", "T")])),
    );
    s.generics = String::from("<T>");
    let compiled = impl_macro(&s).unwrap();
    let types = vec![type_is("T", "u8")];
    assert_eq!(compiled.definition_text("", "pub", &types), "pub struct Wrapper<T>{ inner: u8, }");
    assert_eq!(compiled.canonical_name(), "Wrapper");
    assert_eq!(compiled.value_text(&instance(0, &["7"])), "Wrapper { inner: 7, }");
}

#[test]
fn field_visibility_stands_before_the_field() {
    let mut a = named("a", "i32");
    a.vis = String::from("pub");
    let t = struct_def_handler("P", "", &FieldShape::Named(vec![a, named("b", "i32")]), false);
    let types = vec![type_is("i32", "i32")];
    assert_eq!(t.render(&types), "struct P{ pub a: i32, b: i32, }");
}

#[test]
fn named_fields_keep_declaration_order() {
    let fields = FieldShape::Named(vec![named("c", "C"), named("a", "A"), named("b", "B")]);
    let r = struct_val_handler("T", &fields);
    assert_eq!(symbol_names(&r.binders), vec!["member c", "member a", "member b"]);
    assert_eq!(hole_names(&r.template), vec!["member c", "member a", "member b"]);
    assert_eq!(r.render(&texts(&["1", "2", "3"])), "T { c: 1, a: 2, b: 3, }");
    let d = struct_def_handler("T", "", &fields, false);
    assert_eq!(hole_names(&d), vec!["type C", "type A", "type B"]);
    let types = vec![type_is("A", "x"), type_is("B", "y"), type_is("C", "z")];
    assert_eq!(d.render(&types), "struct T{ c: z, a: x, b: y, }");
}

#[test]
fn positional_record_refers_to_positions() {
    let fields = FieldShape::Positional(vec![positional("A"), positional("B"), positional("C")]);
    let r = struct_val_handler("T", &fields);
    assert_eq!(symbol_names(&r.binders), vec!["index 0", "index 1", "index 2"]);
    assert_eq!(hole_names(&r.template), vec!["index 0", "index 1", "index 2"]);
}

#[test]
fn placeholders_bind_and_render_the_same_sequence() {
    for n in [0usize, 1, 2, 3, 11, 25] {
        let fields = FieldShape::Positional((0..n).map(|_| positional("T")).collect());
        let arm = enum_val_handler("E", "V", &fields);
        let expected: Vec<String> = (0..n).map(|i| format!("bound idnt{}", i)).collect();
        assert_eq!(symbol_names(&arm.renderer.binders), expected);
        assert_eq!(hole_names(&arm.renderer.template), expected);
        assert_eq!(arm.kind, ShapeKind::Positional);
        assert_eq!(arm.variant, "V");
    }
}

#[test]
fn placeholder_counter_starts_again_for_each_shape() {
    let first = enum_val_handler("E", "A", &FieldShape::Positional(vec![positional("T"), positional("T")]));
    let second = enum_val_handler("E", "B", &FieldShape::Positional(vec![positional("T")]));
    assert_eq!(symbol_names(&first.renderer.binders), vec!["bound idnt0", "bound idnt1"]);
    assert_eq!(symbol_names(&second.renderer.binders), vec!["bound idnt0"]);
}

#[test]
fn placeholder_identifiers() {
    assert_eq!(placeholder_ident(0), "idnt0");
    assert_eq!(placeholder_ident(9), "idnt9");
    assert_eq!(placeholder_ident(10), "idnt10");
    assert_eq!(placeholder_ident(4096), "idnt4096");
}

#[test]
fn positional_arm_renders_each_value_at_its_position() {
    let fields = FieldShape::Positional((0..12).map(|_| positional("T")).collect());
    let arm = enum_val_handler("E", "V", &fields);
    let values: Vec<String> = (0..12).map(|i| format!("v{}", i)).collect();
    assert_eq!(arm.renderer.render(&values), "E::V(v0,v1,v2,v3,v4,v5,v6,v7,v8,v9,v10,v11,)");
}

#[test]
fn named_arm_binds_the_field_names() {
    let fields = FieldShape::Named(vec![named("w", "f64"), named("h", "f64")]);
    let arm = enum_val_handler("Shape", "Rect", &fields);
    assert_eq!(arm.kind, ShapeKind::Named);
    assert_eq!(symbol_names(&arm.renderer.binders), vec!["bound w", "bound h"]);
    assert_eq!(hole_names(&arm.renderer.template), vec!["bound w", "bound h"]);
    let unit = enum_val_handler("Shape", "Empty", &FieldShape::Unit);
    assert_eq!(unit.kind, ShapeKind::Unit);
    assert!(unit.renderer.binders.is_empty());
    assert!(unit.renderer.accepts(&Vec::new()));
    assert!(!unit.renderer.accepts(&texts(&["1"])));
}

fn overlay() -> TypeSchema {
    let mut x = named("x", "X");
    x.vis = String::from("pub");
    schema("Bits", Container::Overlay(vec![x, named("y", "Y"), named("z", "Z")]))
}

#[test]
fn overlay_definition_lists_every_member() {
    let compiled = impl_macro(&overlay()).unwrap();
    assert_eq!(hole_names(&compiled.definition), vec!["type X", "type Y", "type Z"]);
    let types = vec![type_is("X", "u32"), type_is("Y", "f32"), type_is("Z", "[u8; 4]")];
    assert_eq!(
        compiled.definition_text("", "pub", &types),
        "pub union Bits{ pub x: u32, y: f32, z: [u8; 4], }"
    );
}

#[test]
fn overlay_value_refers_to_the_first_member_only() {
    let compiled = impl_macro(&overlay()).unwrap();
    match &compiled.value {
        ValueRenderer::Direct(r) => {
            assert_eq!(symbol_names(&r.binders), vec!["member x"]);
            assert_eq!(hole_names(&r.template), vec!["member x"]);
        },
        ValueRenderer::Dispatch(_) => panic!("an overlay renders directly"),
    }
    assert_eq!(compiled.value_text(&instance(0, &["7"])), "pub Bits { x: 7}");
    assert_eq!(compiled.value_text(&instance(2, &["7"])), "pub Bits { x: 7}");
    assert!(!compiled.accepts(&instance(0, &["7", "8", "9"])));
}

#[test]
fn overlay_value_without_visibility() {
    let r = union_val_handler("", "Bits", "x");
    assert_eq!(r.render(&texts(&["1"])), "Bits { x: 1}");
}

#[test]
fn overlay_definition_of_one_member() {
    let t = union_def_handler("One", "<T>", &vec![named("only", "T")], false);
    assert_eq!(t.render(&vec![type_is("T", "u8")]), "union One<T>{ only: u8, }");
}

fn doc(text: &str) -> Attribute {
    Attribute { path: String::from("doc"), text: String::from(text) }
}

fn marker(name: &str) -> Attribute {
    Attribute { path: String::from(name), text: format!("#[{}]", name) }
}

#[test]
fn all_scopes_marker_lets_each_field_keep_its_own_documentation() {
    let mut a = named("a", "i32");
    a.attrs = vec![doc("#[doc = \" first\"]")];
    let b = named("b", "i32");
    let s = TypeSchema {
        attrs: vec![doc("#[doc = \" of the type\"]"), marker("inherit_docs")],
        vis: String::new(),
        ident: String::from("P"),
        generics: String::new(),
        data: Container::Aggregate(FieldShape::Named(vec![a, b])),
    };
    let compiled = impl_macro(&s).unwrap();
    let types = vec![type_is("i32", "i32")];
    assert_eq!(
        compiled.definition_text("", "pub", &types),
        "#[doc = \" of the type\"] pub struct P{ #[doc = \" first\"] a: i32, b: i32, }"
    );
}

#[test]
fn without_markers_no_documentation_is_kept() {
    let mut a = named("a", "i32");
    a.attrs = vec![doc("#[doc = \" first\"]")];
    let s = TypeSchema {
        attrs: vec![doc("#[doc = \" of the type\"]")],
        vis: String::new(),
        ident: String::from("P"),
        generics: String::new(),
        data: Container::Aggregate(FieldShape::Named(vec![a])),
    };
    let compiled = impl_macro(&s).unwrap();
    assert_eq!(compiled.definition_text("", "", &vec![type_is("i32", "i32")]), "struct P{ a: i32, }");
}

#[test]
fn own_marker_keeps_the_documentation_of_that_scope_only() {
    let mut a = named("a", "i32");
    a.attrs = vec![marker("inherit_doc"), doc("#[doc = \" first\"]")];
    let mut b = named("b", "i32");
    b.attrs = vec![doc("#[doc = \" second\"]")];
    let s = TypeSchema {
        attrs: vec![doc("#[doc = \" of the type\"]"), marker("inherit_doc")],
        vis: String::new(),
        ident: String::from("P"),
        generics: String::new(),
        data: Container::Aggregate(FieldShape::Named(vec![a, b])),
    };
    let compiled = impl_macro(&s).unwrap();
    assert_eq!(
        compiled.definition_text("#[repr(C)]", "", &vec![type_is("i32", "i32")]),
        "#[repr(C)]#[doc = \" of the type\"] struct P{ #[doc = \" first\"] a: i32, b: i32, }"
    );
}

#[test]
fn variant_documentation_stands_before_the_variant() {
    let attrs = vec![doc("#[doc = \" nothing\"]"), marker("inherit_doc")];
    let t = enum_variant_def_handler(&attrs, "Empty", &FieldShape::Unit, false);
    assert_eq!(t.render(&Vec::new()), "#[doc = \" nothing\"] Empty,");
    let inherited = enum_variant_def_handler(
        &vec![doc("#[doc = \" round\"]")],
        "Circle",
        &FieldShape::Positional(vec![positional("f64")]),
        true,
    );
    assert_eq!(inherited.render(&vec![type_is("f64", "f64")]), "#[doc = \" round\"] Circle(f64,),");
    let named_variant = enum_variant_def_handler(
        &Vec::new(),
        "Rect",
        &FieldShape::Named(vec![named("w", "f64"), named("h", "f64")]),
        true,
    );
    assert_eq!(named_variant.render(&vec![type_is("f64", "f64")]), "Rect{w:f64,h:f64,},");
}

#[test]
fn nested_types_delegate_to_what_they_were_compiled_to() {
    let inner = point();
    let outer = impl_macro(&schema(
        "Line",
        Container::Aggregate(FieldShape::Named(vec![named("from", "Point"), named("to", "Point")])),
    ))
    .unwrap();
    let from = inner.value_text(&instance(0, &["0", "0"]));
    let to = inner.value_text(&instance(0, &["3", "4"]));
    let line = Instance { variant: 0, values: vec![from, to] };
    assert_eq!(
        outer.value_text(&line),
        "Line { from: Point { a: 0, b: 0, }, to: Point { a: 3, b: 4, }, }"
    );
    let types = vec![Binding { symbol: Symbol::Type(String::from("Point")), text: inner.canonical_name() }];
    assert_eq!(outer.definition_text("", "pub", &types), "pub struct Line{ from: Point, to: Point, }");
}

#[test]
fn a_type_that_refers_to_itself_has_a_finite_definition() {
    let list = impl_macro(&schema(
        "List",
        Container::TaggedUnion(vec![
            Variant { attrs: Vec::new(), ident: String::from("Nil"), fields: FieldShape::Unit },
            Variant {
                attrs: Vec::new(),
                ident: String::from("Cons"),
                fields: FieldShape::Positional(vec![positional("i32"), positional("List")]),
            },
        ]),
    ))
    .unwrap();
    let types = vec![
        type_is("i32", "i32"),
        Binding { symbol: Symbol::Type(String::from("List")), text: list.canonical_name() },
    ];
    assert_eq!(list.definition_text("", "", &types), "enum List{ Nil,Cons(i32,List,), }");
}
