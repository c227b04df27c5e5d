//! General properties of the compiler, each proved from the definitions that
//! the contracts of the functions use.

use vstd::prelude::*;
use crate::definition::{field_label, field_lines};
use crate::docs::{first_doc, has_attr, inherits_all, inner_doc, is_first_doc, DOC, INNER_DOC_ATTR};
use crate::driver::{compile, Instance, ValueRendererView};
use crate::rendered::{
    field_declarations, lemma_indices_distinct, lemma_members_distinct,
    lemma_overlay_value_text, lemma_placeholders_distinct, named_values, overlay_value_text,
    packed_fields, packed_values,
};
use crate::schema::{
    schema_violation, shape_violation, AttributeView, FieldShapeView, FieldView, TypeSchema,
    TypeSchemaView,
};
use crate::template::{
    distinct, holes, lemma_framed_holes, lemma_holes_concat, lemma_line_holes, BindingView,
    PieceView, SymbolView,
};
use crate::text::{lead, or_empty};
use crate::value::{
    aggregate_renderer, lemma_member_holes, lemma_overlay_renderer_wf,
    lemma_variant_renderer_wf, member_pieces, placeholder, placeholder_symbols, variant_arm,
    variant_renderer,
};

verus! {

/// Compiling is a function of what a schema holds. Two schemas that hold the
/// same are refused alike, and where they compile, every instance and every
/// definition comes out as the same text from both.
pub proof fn lemma_deterministic(
    first: TypeSchema,
    second: TypeSchema,
    x: Instance,
    y: Instance,
    attrs: Seq<char>,
    vis: Seq<char>,
    types: Seq<BindingView>,
)
    requires
        first@ == second@,
        x@ == y@,
    ensures
        schema_violation(first@) == schema_violation(second@),
        compile(first@) == compile(second@),
        compile(first@).value_text(x@) == compile(second@).value_text(y@),
        compile(first@).definition_text(attrs, vis, types) == compile(second@).definition_text(
            attrs,
            vis,
            types,
        ),
{
}

/// For a positional variant with any number of fields, the identifiers that
/// the arm's pattern binds and the identifiers that its constructor refers to
/// are the same sequence in the same order: the placeholders of the
/// positions, counted from zero.
pub proof fn lemma_round_trip_naming(name: Seq<char>, var: Seq<char>, fields: Seq<FieldView>)
    ensures
        variant_arm(name, var, FieldShapeView::Positional(fields)).renderer.binders
            == placeholder_symbols(fields.len()),
        holes(variant_arm(name, var, FieldShapeView::Positional(fields)).renderer.template)
            == placeholder_symbols(fields.len()),
        forall|i: int|
            0 <= i < fields.len() ==> #[trigger] placeholder_symbols(fields.len())[i]
                == SymbolView::Bound(placeholder(i as nat)),
{
    lemma_variant_renderer_wf(name, var, FieldShapeView::Positional(fields));
}

/// Within one well-formed shape every field has an identifier of its own:
/// its name in a named shape, its position in a positional record and its
/// placeholder in a positional variant.
pub proof fn lemma_unique_identifiers(name: Seq<char>, var: Seq<char>, shape: FieldShapeView)
    requires
        shape_violation(shape) is None,
    ensures
        distinct(aggregate_renderer(name, shape).binders),
        distinct(variant_renderer(name, var, shape).binders),
{
    match shape {
        FieldShapeView::Named(fields) => {
            lemma_members_distinct(fields);
        },
        FieldShapeView::Positional(fields) => {
            lemma_indices_distinct(fields.len());
            lemma_placeholders_distinct(fields.len());
        },
        FieldShapeView::Unit => {},
    }
}

/// The element types that the first `n` field lines refer to.
pub open spec fn type_symbols(fields: Seq<FieldView>, n: nat) -> Seq<SymbolView> {
    Seq::new(n, |i: int| SymbolView::Type(fields[i].ty))
}

/// The holes of the field lines are the fields' element types, in
/// declaration order.
pub proof fn lemma_field_lines_holes(fields: Seq<FieldView>, inherit_all: bool, n: nat)
    ensures
        holes(field_lines(fields, inherit_all, n)) == type_symbols(fields, n),
    decreases n,
{
    if n == 0 {
        assert(holes(field_lines(fields, inherit_all, n)) =~= type_symbols(fields, n));
    } else {
        let line = seq![
            PieceView::Text(field_label(fields[n - 1], inherit_all)),
            PieceView::Hole(SymbolView::Type(fields[n - 1].ty)),
            PieceView::Text(", "@),
        ];
        lemma_field_lines_holes(fields, inherit_all, (n - 1) as nat);
        lemma_holes_concat(field_lines(fields, inherit_all, (n - 1) as nat), line);
        lemma_line_holes(line[0], line[1], line[2]);
        assert(line =~= seq![line[0], line[1], line[2]]);
        assert(holes(field_lines(fields, inherit_all, n)) =~= type_symbols(fields, n));
    }
}

/// Named fields keep their declaration order. The templates of both sides
/// refer to the fields one by one in that order, and in both texts the line
/// of each field stands directly behind the lines of the fields declared
/// before it.
pub proof fn lemma_declaration_order(
    name: Seq<char>,
    fields: Seq<FieldView>,
    inherit_all: bool,
    values: Seq<Seq<char>>,
    types: Seq<BindingView>,
    k: nat,
)
    requires
        k < fields.len(),
    ensures
        holes(aggregate_renderer(name, FieldShapeView::Named(fields)).template)[k as int]
            == SymbolView::Member(fields[k as int].name()),
        holes(field_lines(fields, inherit_all, fields.len()))[k as int] == SymbolView::Type(
            fields[k as int].ty,
        ),
        named_values(fields, values, (k + 1) as nat).is_prefix_of(
            named_values(fields, values, fields.len()),
        ),
        field_declarations(fields, inherit_all, types, (k + 1) as nat).is_prefix_of(
            field_declarations(fields, inherit_all, types, fields.len()),
        ),
{
    lemma_member_holes(fields, fields.len());
    lemma_framed_holes(
        PieceView::Text(name + " { "@),
        member_pieces(fields, fields.len()),
        PieceView::Text("}"@),
    );
    lemma_field_lines_holes(fields, inherit_all, fields.len());
    lemma_named_values_grow(fields, values, (k + 1) as nat, fields.len());
    lemma_field_declarations_grow(fields, inherit_all, types, (k + 1) as nat, fields.len());
}

/// The named fields of a variant keep their declaration order as well: the
/// arm binds and shows them one by one in that order, and in both texts the
/// item of each field stands directly behind the items of the fields declared
/// before it.
pub proof fn lemma_variant_declaration_order(
    name: Seq<char>,
    var: Seq<char>,
    fields: Seq<FieldView>,
    values: Seq<Seq<char>>,
    types: Seq<BindingView>,
    k: nat,
)
    requires
        k < fields.len(),
    ensures
        variant_renderer(name, var, FieldShapeView::Named(fields)).binders[k as int]
            == SymbolView::Bound(fields[k as int].name()),
        holes(variant_renderer(name, var, FieldShapeView::Named(fields)).template)[k as int]
            == SymbolView::Bound(fields[k as int].name()),
        packed_values(fields, values, (k + 1) as nat).is_prefix_of(
            packed_values(fields, values, fields.len()),
        ),
        packed_fields(fields, types, (k + 1) as nat).is_prefix_of(
            packed_fields(fields, types, fields.len()),
        ),
{
    lemma_variant_renderer_wf(name, var, FieldShapeView::Named(fields));
    lemma_packed_values_grow(fields, values, (k + 1) as nat, fields.len());
    lemma_packed_fields_grow(fields, types, (k + 1) as nat, fields.len());
}

/// The value items of the first `k` fields open those of the first `n`.
pub proof fn lemma_packed_values_grow(
    fields: Seq<FieldView>,
    values: Seq<Seq<char>>,
    k: nat,
    n: nat,
)
    requires
        k <= n,
    ensures
        packed_values(fields, values, k).is_prefix_of(packed_values(fields, values, n)),
    decreases n,
{
    if k < n {
        lemma_packed_values_grow(fields, values, k, (n - 1) as nat);
    }
}

/// The declaration items of the first `k` fields open those of the first
/// `n`.
pub proof fn lemma_packed_fields_grow(
    fields: Seq<FieldView>,
    types: Seq<BindingView>,
    k: nat,
    n: nat,
)
    requires
        k <= n,
    ensures
        packed_fields(fields, types, k).is_prefix_of(packed_fields(fields, types, n)),
    decreases n,
{
    if k < n {
        lemma_packed_fields_grow(fields, types, k, (n - 1) as nat);
    }
}

/// The value lines of the first `k` fields open those of the first `n`.
pub proof fn lemma_named_values_grow(
    fields: Seq<FieldView>,
    values: Seq<Seq<char>>,
    k: nat,
    n: nat,
)
    requires
        k <= n,
    ensures
        named_values(fields, values, k).is_prefix_of(named_values(fields, values, n)),
    decreases n,
{
    if k < n {
        lemma_named_values_grow(fields, values, k, (n - 1) as nat);
    }
}

/// The declaration lines of the first `k` fields open those of the first `n`.
pub proof fn lemma_field_declarations_grow(
    fields: Seq<FieldView>,
    inherit_all: bool,
    types: Seq<BindingView>,
    k: nat,
    n: nat,
)
    requires
        k <= n,
    ensures
        field_declarations(fields, inherit_all, types, k).is_prefix_of(
            field_declarations(fields, inherit_all, types, n),
        ),
    decreases n,
{
    if k < n {
        lemma_field_declarations_grow(fields, inherit_all, types, k, (n - 1) as nat);
    }
}

/// An overlay is rendered unevenly. Its definition refers to every member,
/// in declaration order. Its value binds the first member alone and refers to
/// nothing else, so the value text is that of the first member's value.
pub proof fn lemma_overlay_asymmetry(schema: TypeSchemaView, values: Seq<Seq<char>>)
    requires
        schema.data is Overlay,
        schema_violation(schema) is None,
        values.len() == 1,
    ensures
        ({
            let fields = schema.data->Overlay_0;
            let first = fields[0];
            &&& holes(compile(schema).definition) == type_symbols(fields, fields.len())
            &&& compile(schema).value matches ValueRendererView::Direct(r) && r.binders == seq![
                SymbolView::Member(first.name()),
            ] && holes(r.template) == r.binders && r.text(values) == overlay_value_text(
                first.vis,
                schema.ident,
                first.name(),
                values[0],
            )
        }),
{
    let fields = schema.data->Overlay_0;
    let inherit_all = inherits_all(schema.attrs);
    lemma_field_lines_holes(fields, inherit_all, fields.len());
    lemma_framed_holes(
        PieceView::Text("union "@ + schema.ident + schema.generics + "{ "@),
        field_lines(fields, inherit_all, fields.len()),
        PieceView::Text("}"@),
    );
    lemma_overlay_renderer_wf(fields[0].vis, schema.ident, fields[0].name());
    lemma_overlay_value_text(fields[0].vis, schema.ident, fields[0].name(), values);
}

/// A list of attributes without documentation yields none.
pub proof fn lemma_no_doc(attrs: Seq<AttributeView>)
    requires
        !has_attr(attrs, DOC@),
    ensures
        first_doc(attrs) is None,
{
    if exists|i: int| is_first_doc(attrs, i) {
        let c = choose|i: int| is_first_doc(attrs, i);
        assert(attrs[c].path == DOC@);
    }
}

/// Under a type that carries `inherit_docs`, a field or a variant keeps its
/// own first documentation attribute, whatever else it carries, and one
/// without documentation keeps none. The outcome reads the scope's own
/// attributes only: no text of the type reaches its fields.
pub proof fn lemma_inheritance_propagation(
    type_attrs: Seq<AttributeView>,
    field: FieldView,
)
    requires
        has_attr(type_attrs, INNER_DOC_ATTR@),
    ensures
        inner_doc(field.attrs, inherits_all(type_attrs)) == first_doc(field.attrs),
        !has_attr(field.attrs, DOC@) ==> inner_doc(field.attrs, inherits_all(type_attrs)) is None,
        field_label(field, inherits_all(type_attrs)) == lead(or_empty(first_doc(field.attrs)))
            + lead(field.vis) + field.name() + ": "@,
{
    if !has_attr(field.attrs, DOC@) {
        lemma_no_doc(field.attrs);
    }
}

} // verus!
