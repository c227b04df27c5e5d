//! What the rendered text is, stated directly over a schema, and the proof
//! that a compiled schema produces exactly that text.
//!
//! The templates refer to fields through symbols. The theorems here say that
//! this indirection is faithful: in the text of a well-formed schema every
//! field shows its own value, and its own element type's name, at its own
//! place in declaration order.

use vstd::prelude::*;
use crate::definition::{
    aggregate_definition, field_label, field_lines, type_items, variant_definition,
    variant_definitions, variant_field_items,
};
use crate::docs::{inherits_all, inner_doc, type_doc};
use crate::driver::{compile, definition, InstanceView};
use crate::schema::{
    all_named, distinct_names, schema_violation, shape_violation, variants_violation,
    AttributeView, ContainerView, FieldShapeView, FieldView, TypeSchemaView, VariantView,
};
use crate::template::{
    bind, distinct, lemma_lookup_own, lemma_render_concat, lemma_render_framed,
    lemma_render_pair, lemma_render_single, lemma_render_triple, lookup, render, BindingView,
    PieceView, SymbolView,
};
use crate::text::{decimal, lead, lemma_decimal_injective, or_empty, spaced};
use crate::value::{
    aggregate_renderer, bound_pieces, bound_symbols, index_pieces, index_symbols, member_pieces,
    member_symbols, overlay_renderer, placeholder, placeholder_pieces, placeholder_symbols,
    variant_renderer,
};

verus! {

/// `name: value, ` for each of the first `n` fields.
pub open spec fn named_values(fields: Seq<FieldView>, values: Seq<Seq<char>>, n: nat) -> Seq<char>
    decreases n,
{
    if n == 0 {
        Seq::empty()
    } else {
        named_values(fields, values, (n - 1) as nat) + fields[n - 1].name() + ": "@ + values[n - 1]
            + ", "@
    }
}

/// `value,` for each of the first `n` values.
pub open spec fn listed_values(values: Seq<Seq<char>>, n: nat) -> Seq<char>
    decreases n,
{
    if n == 0 {
        Seq::empty()
    } else {
        listed_values(values, (n - 1) as nat) + values[n - 1] + ","@
    }
}

/// `name:value,` for each of the first `n` fields.
pub open spec fn packed_values(
    fields: Seq<FieldView>,
    values: Seq<Seq<char>>,
    n: nat,
) -> Seq<char>
    decreases n,
{
    if n == 0 {
        Seq::empty()
    } else {
        packed_values(fields, values, (n - 1) as nat) + fields[n - 1].name() + ":"@ + values[n - 1]
            + ","@
    }
}

/// The value text of a record: `Name { a: 1, b: 2, }`, `Name(1,2,)` or
/// `Name`.
pub open spec fn aggregate_value_text(
    name: Seq<char>,
    shape: FieldShapeView,
    values: Seq<Seq<char>>,
) -> Seq<char> {
    match shape {
        FieldShapeView::Named(fields) => name + " { "@ + named_values(
            fields,
            values,
            fields.len(),
        ) + "}"@,
        FieldShapeView::Positional(fields) => name + "("@ + listed_values(values, fields.len())
            + ")"@,
        FieldShapeView::Unit => name,
    }
}

/// The value text of a variant: `Name::Var{a:1,b:2,}`, `Name::Var(1,2,)` or
/// `Name::Var`.
pub open spec fn variant_value_text(
    name: Seq<char>,
    var: Seq<char>,
    shape: FieldShapeView,
    values: Seq<Seq<char>>,
) -> Seq<char> {
    match shape {
        FieldShapeView::Named(fields) => name + "::"@ + var + "{"@ + packed_values(
            fields,
            values,
            fields.len(),
        ) + "}"@,
        FieldShapeView::Positional(fields) => name + "::"@ + var + "("@ + listed_values(
            values,
            fields.len(),
        ) + ")"@,
        FieldShapeView::Unit => name + "::"@ + var,
    }
}

/// The value text of an overlay, through its member `ident`.
pub open spec fn overlay_value_text(
    vis: Seq<char>,
    name: Seq<char>,
    ident: Seq<char>,
    value: Seq<char>,
) -> Seq<char> {
    lead(vis) + name + " { "@ + ident + ": "@ + value + "}"@
}

/// The value text of an instance of a schema.
pub open spec fn value_text(schema: TypeSchemaView, instance: InstanceView) -> Seq<char> {
    match schema.data {
        ContainerView::Aggregate(shape) => aggregate_value_text(
            schema.ident,
            shape,
            instance.values,
        ),
        ContainerView::TaggedUnion(variants) => variant_value_text(
            schema.ident,
            variants[instance.variant].ident,
            variants[instance.variant].fields,
            instance.values,
        ),
        ContainerView::Overlay(fields) => overlay_value_text(
            fields[0].vis,
            schema.ident,
            fields[0].name(),
            instance.values[0],
        ),
    }
}

/// The name that the element type behind `ty` reports; empty where `types`
/// does not bind it.
pub open spec fn element_name(types: Seq<BindingView>, ty: Seq<char>) -> Seq<char> {
    or_empty(lookup(types, SymbolView::Type(ty)))
}

/// `<doc> <vis> name: Type, ` for each of the first `n` fields.
pub open spec fn field_declarations(
    fields: Seq<FieldView>,
    inherit_all: bool,
    types: Seq<BindingView>,
    n: nat,
) -> Seq<char>
    decreases n,
{
    if n == 0 {
        Seq::empty()
    } else {
        field_declarations(fields, inherit_all, types, (n - 1) as nat) + field_label(
            fields[n - 1],
            inherit_all,
        ) + element_name(types, fields[n - 1].ty) + ", "@
    }
}

/// `Type,` for each of the first `n` fields.
pub open spec fn listed_types(fields: Seq<FieldView>, types: Seq<BindingView>, n: nat) -> Seq<char>
    decreases n,
{
    if n == 0 {
        Seq::empty()
    } else {
        listed_types(fields, types, (n - 1) as nat) + element_name(types, fields[n - 1].ty) + ","@
    }
}

/// `name:Type,` for each of the first `n` fields.
pub open spec fn packed_fields(
    fields: Seq<FieldView>,
    types: Seq<BindingView>,
    n: nat,
) -> Seq<char>
    decreases n,
{
    if n == 0 {
        Seq::empty()
    } else {
        packed_fields(fields, types, (n - 1) as nat) + fields[n - 1].name() + ":"@ + element_name(
            types,
            fields[n - 1].ty,
        ) + ","@
    }
}

/// The declaration of a record.
pub open spec fn aggregate_declaration(
    name: Seq<char>,
    generics: Seq<char>,
    shape: FieldShapeView,
    inherit_all: bool,
    types: Seq<BindingView>,
) -> Seq<char> {
    match shape {
        FieldShapeView::Named(fields) => "struct "@ + name + generics + "{ "@ + field_declarations(
            fields,
            inherit_all,
            types,
            fields.len(),
        ) + "}"@,
        FieldShapeView::Positional(fields) => "struct "@ + name + generics + "("@ + listed_types(
            fields,
            types,
            fields.len(),
        ) + ");"@,
        FieldShapeView::Unit => "struct "@ + name + generics + ";"@,
    }
}

/// The declaration of one variant, with its closing comma.
pub open spec fn variant_declaration(
    attrs: Seq<AttributeView>,
    var: Seq<char>,
    shape: FieldShapeView,
    inherit_all: bool,
    types: Seq<BindingView>,
) -> Seq<char> {
    let doc = lead(or_empty(inner_doc(attrs, inherit_all)));
    match shape {
        FieldShapeView::Named(fields) => doc + var + "{"@ + packed_fields(
            fields,
            types,
            fields.len(),
        ) + "},"@,
        FieldShapeView::Positional(fields) => doc + var + "("@ + listed_types(
            fields,
            types,
            fields.len(),
        ) + "),"@,
        FieldShapeView::Unit => doc + var + ","@,
    }
}

/// The declarations of the first `n` variants, one behind the other.
pub open spec fn variant_declarations(
    variants: Seq<VariantView>,
    inherit_all: bool,
    types: Seq<BindingView>,
    n: nat,
) -> Seq<char>
    decreases n,
{
    if n == 0 {
        Seq::empty()
    } else {
        variant_declarations(variants, inherit_all, types, (n - 1) as nat) + variant_declaration(
            variants[n - 1].attrs,
            variants[n - 1].ident,
            variants[n - 1].fields,
            inherit_all,
            types,
        )
    }
}

/// The declaration of a schema, without what stands before it.
pub open spec fn declaration(schema: TypeSchemaView, types: Seq<BindingView>) -> Seq<char> {
    let inherit_all = inherits_all(schema.attrs);
    match schema.data {
        ContainerView::Aggregate(shape) => aggregate_declaration(
            schema.ident,
            schema.generics,
            shape,
            inherit_all,
            types,
        ),
        ContainerView::TaggedUnion(variants) => "enum "@ + schema.ident + schema.generics + "{ "@
            + variant_declarations(variants, inherit_all, types, variants.len()) + " }"@,
        ContainerView::Overlay(fields) => "union "@ + schema.ident + schema.generics + "{ "@
            + field_declarations(fields, inherit_all, types, fields.len()) + "}"@,
    }
}

/// The definition text of a schema: the caller's attributes and the type's
/// own documentation, the caller's visibility, and the declaration.
pub open spec fn definition_text(
    schema: TypeSchemaView,
    attrs: Seq<char>,
    vis: Seq<char>,
    types: Seq<BindingView>,
) -> Seq<char> {
    spaced(attrs + or_empty(type_doc(schema.attrs)), spaced(vis, declaration(schema, types)))
}

/// Distinct names make distinct members.
pub proof fn lemma_members_distinct(fields: Seq<FieldView>)
    requires
        all_named(fields),
        distinct_names(fields),
    ensures
        distinct(member_symbols(fields, fields.len())),
        distinct(bound_symbols(fields, fields.len())),
{
    let members = member_symbols(fields, fields.len());
    let bound = bound_symbols(fields, fields.len());
    assert forall|i: int, j: int| 0 <= i < j < fields.len() implies members[i] != members[j]
        && bound[i] != bound[j] by {
        assert(fields[i].ident is Some);
        assert(fields[j].ident is Some);
        assert(fields[i].ident != fields[j].ident);
    }
}

/// Positions are distinct.
pub proof fn lemma_indices_distinct(n: nat)
    ensures
        distinct(index_symbols(n)),
{
}

/// Placeholders of different positions differ.
pub proof fn lemma_placeholder_injective(i: nat, j: nat)
    requires
        placeholder(i) == placeholder(j),
    ensures
        i == j,
{
    let prefix = crate::value::PLACEHOLDER_PREFIX@;
    assert((prefix + decimal(i)).subrange(prefix.len() as int, (prefix + decimal(i)).len() as int)
        =~= decimal(i));
    assert((prefix + decimal(j)).subrange(prefix.len() as int, (prefix + decimal(j)).len() as int)
        =~= decimal(j));
    assert(decimal(i).len() == decimal(j).len()) by {
        assert((prefix + decimal(i)).len() == (prefix + decimal(j)).len());
    }
    lemma_decimal_injective(i, j);
}

/// The placeholders of one shape are distinct.
pub proof fn lemma_placeholders_distinct(n: nat)
    ensures
        distinct(placeholder_symbols(n)),
{
    let symbols = placeholder_symbols(n);
    assert forall|i: int, j: int| 0 <= i < j < n implies symbols[i] != symbols[j] by {
        if placeholder(i as nat) == placeholder(j as nat) {
            lemma_placeholder_injective(i as nat, j as nat);
        }
    }
}

proof fn lemma_member_pieces_text(
    fields: Seq<FieldView>,
    values: Seq<Seq<char>>,
    env: Seq<BindingView>,
    n: nat,
)
    requires
        forall|k: int|
            0 <= k < n ==> lookup(env, SymbolView::Member(#[trigger] fields[k].name())) == Some(
                values[k],
            ),
    ensures
        render(member_pieces(fields, n), env) == named_values(fields, values, n),
    decreases n,
{
    if n > 0 {
        let f = fields[n - 1];
        let a = PieceView::Text(f.name() + ": "@);
        let b = PieceView::Hole(SymbolView::Member(f.name()));
        let c = PieceView::Text(", "@);
        lemma_member_pieces_text(fields, values, env, (n - 1) as nat);
        lemma_render_concat(member_pieces(fields, (n - 1) as nat), seq![a, b, c], env);
        lemma_render_triple(a, b, c, env);
        assert(render(member_pieces(fields, n), env) =~= named_values(fields, values, n));
    }
}

proof fn lemma_bound_pieces_text(
    fields: Seq<FieldView>,
    values: Seq<Seq<char>>,
    env: Seq<BindingView>,
    n: nat,
)
    requires
        forall|k: int|
            0 <= k < n ==> lookup(env, SymbolView::Bound(#[trigger] fields[k].name())) == Some(
                values[k],
            ),
    ensures
        render(bound_pieces(fields, n), env) == packed_values(fields, values, n),
    decreases n,
{
    if n > 0 {
        let f = fields[n - 1];
        let a = PieceView::Text(f.name() + ":"@);
        let b = PieceView::Hole(SymbolView::Bound(f.name()));
        let c = PieceView::Text(","@);
        lemma_bound_pieces_text(fields, values, env, (n - 1) as nat);
        lemma_render_concat(bound_pieces(fields, (n - 1) as nat), seq![a, b, c], env);
        lemma_render_triple(a, b, c, env);
        assert(render(bound_pieces(fields, n), env) =~= packed_values(fields, values, n));
    }
}

proof fn lemma_index_pieces_text(values: Seq<Seq<char>>, env: Seq<BindingView>, n: nat)
    requires
        forall|k: int|
            0 <= k < n ==> #[trigger] lookup(env, SymbolView::Index(k)) == Some(values[k]),
    ensures
        render(index_pieces(n), env) == listed_values(values, n),
    decreases n,
{
    if n > 0 {
        let a = PieceView::Hole(SymbolView::Index(n - 1));
        let b = PieceView::Text(","@);
        lemma_index_pieces_text(values, env, (n - 1) as nat);
        lemma_render_concat(index_pieces((n - 1) as nat), seq![a, b], env);
        lemma_render_pair(a, b, env);
        assert(render(index_pieces(n), env) =~= listed_values(values, n));
    }
}

proof fn lemma_placeholder_pieces_text(values: Seq<Seq<char>>, env: Seq<BindingView>, n: nat)
    requires
        forall|k: int|
            0 <= k < n ==> lookup(env, SymbolView::Bound(#[trigger] placeholder(k as nat))) == Some(
                values[k],
            ),
    ensures
        render(placeholder_pieces(n), env) == listed_values(values, n),
    decreases n,
{
    if n > 0 {
        let a = PieceView::Hole(SymbolView::Bound(placeholder((n - 1) as nat)));
        let b = PieceView::Text(","@);
        lemma_placeholder_pieces_text(values, env, (n - 1) as nat);
        lemma_render_concat(placeholder_pieces((n - 1) as nat), seq![a, b], env);
        lemma_render_pair(a, b, env);
        assert(lookup(env, SymbolView::Bound(placeholder((n - 1) as nat))) == Some(values[n - 1]));
        assert(render(placeholder_pieces(n), env) =~= listed_values(values, n));
    }
}

/// A record renders each field's own value at its own place.
pub proof fn lemma_aggregate_value_text(
    name: Seq<char>,
    shape: FieldShapeView,
    values: Seq<Seq<char>>,
)
    requires
        shape_violation(shape) is None,
        values.len() == shape.fields().len(),
    ensures
        aggregate_renderer(name, shape).text(values) == aggregate_value_text(name, shape, values),
{
    let r = aggregate_renderer(name, shape);
    let env = bind(r.binders, values);
    match shape {
        FieldShapeView::Named(fields) => {
            let n = fields.len();
            lemma_members_distinct(fields);
            assert forall|k: int| 0 <= k < n implies lookup(
                env,
                SymbolView::Member(#[trigger] fields[k].name()),
            ) == Some(values[k]) by {
                lemma_lookup_own(r.binders, values, k);
            }
            lemma_member_pieces_text(fields, values, env, n);
            lemma_render_framed(name + " { "@, member_pieces(fields, n), "}"@, env);
        },
        FieldShapeView::Positional(fields) => {
            let n = fields.len();
            lemma_indices_distinct(n);
            assert forall|k: int| 0 <= k < n implies #[trigger] lookup(env, SymbolView::Index(k))
                == Some(values[k]) by {
                lemma_lookup_own(r.binders, values, k);
            }
            lemma_index_pieces_text(values, env, n);
            lemma_render_framed(name + "("@, index_pieces(n), ")"@, env);
        },
        FieldShapeView::Unit => {
            lemma_render_single(PieceView::Text(name), env);
        },
    }
}

/// The arm of a variant renders each field's own value at its own place:
/// what the pattern binds to a name is what the constructor shows under it.
pub proof fn lemma_variant_value_text(
    name: Seq<char>,
    var: Seq<char>,
    shape: FieldShapeView,
    values: Seq<Seq<char>>,
)
    requires
        shape_violation(shape) is None,
        values.len() == shape.fields().len(),
    ensures
        variant_renderer(name, var, shape).text(values) == variant_value_text(
            name,
            var,
            shape,
            values,
        ),
{
    let r = variant_renderer(name, var, shape);
    let env = bind(r.binders, values);
    match shape {
        FieldShapeView::Named(fields) => {
            let n = fields.len();
            lemma_members_distinct(fields);
            assert forall|k: int| 0 <= k < n implies lookup(
                env,
                SymbolView::Bound(#[trigger] fields[k].name()),
            ) == Some(values[k]) by {
                lemma_lookup_own(r.binders, values, k);
            }
            lemma_bound_pieces_text(fields, values, env, n);
            lemma_render_framed(name + "::"@ + var + "{"@, bound_pieces(fields, n), "}"@, env);
        },
        FieldShapeView::Positional(fields) => {
            let n = fields.len();
            lemma_placeholders_distinct(n);
            assert forall|k: int| 0 <= k < n implies lookup(
                env,
                SymbolView::Bound(#[trigger] placeholder(k as nat)),
            ) == Some(values[k]) by {
                lemma_lookup_own(r.binders, values, k);
            }
            lemma_placeholder_pieces_text(values, env, n);
            lemma_render_framed(name + "::"@ + var + "("@, placeholder_pieces(n), ")"@, env);
        },
        FieldShapeView::Unit => {
            lemma_render_single(PieceView::Text(name + "::"@ + var), env);
        },
    }
}

/// An overlay renders the value of its one bound member.
pub proof fn lemma_overlay_value_text(
    vis: Seq<char>,
    name: Seq<char>,
    ident: Seq<char>,
    values: Seq<Seq<char>>,
)
    requires
        values.len() == 1,
    ensures
        overlay_renderer(vis, name, ident).text(values) == overlay_value_text(
            vis,
            name,
            ident,
            values[0],
        ),
{
    let r = overlay_renderer(vis, name, ident);
    let env = bind(r.binders, values);
    lemma_lookup_own(r.binders, values, 0);
    lemma_render_triple(r.template[0], r.template[1], r.template[2], env);
    assert(r.template =~= seq![r.template[0], r.template[1], r.template[2]]);
}

/// A variant that lies within a well-formed prefix is well formed.
pub proof fn lemma_variant_well_formed(variants: Seq<VariantView>, n: nat, i: int)
    requires
        variants_violation(variants, n) is None,
        0 <= i < n,
    ensures
        shape_violation(variants[i].fields) is None,
    decreases n,
{
    if i < n - 1 {
        lemma_variant_well_formed(variants, (n - 1) as nat, i);
    }
}

/// What a compiled schema renders for an instance is the value text of the
/// schema: every field shows its own value, in declaration order.
pub proof fn lemma_value_text(schema: TypeSchemaView, instance: InstanceView)
    requires
        schema_violation(schema) is None,
        compile(schema).value.accepts(instance),
    ensures
        compile(schema).value_text(instance) == value_text(schema, instance),
{
    match schema.data {
        ContainerView::Aggregate(shape) => {
            lemma_aggregate_value_text(schema.ident, shape, instance.values);
        },
        ContainerView::TaggedUnion(variants) => {
            let v = variants[instance.variant];
            lemma_variant_well_formed(variants, variants.len(), instance.variant);
            lemma_variant_value_text(schema.ident, v.ident, v.fields, instance.values);
        },
        ContainerView::Overlay(fields) => {
            lemma_overlay_value_text(
                fields[0].vis,
                schema.ident,
                fields[0].name(),
                instance.values,
            );
        },
    }
}

proof fn lemma_field_lines_text(
    fields: Seq<FieldView>,
    inherit_all: bool,
    types: Seq<BindingView>,
    n: nat,
)
    ensures
        render(field_lines(fields, inherit_all, n), types) == field_declarations(
            fields,
            inherit_all,
            types,
            n,
        ),
    decreases n,
{
    if n > 0 {
        let f = fields[n - 1];
        let a = PieceView::Text(field_label(f, inherit_all));
        let b = PieceView::Hole(SymbolView::Type(f.ty));
        let c = PieceView::Text(", "@);
        lemma_field_lines_text(fields, inherit_all, types, (n - 1) as nat);
        lemma_render_concat(field_lines(fields, inherit_all, (n - 1) as nat), seq![a, b, c], types);
        lemma_render_triple(a, b, c, types);
        assert(render(field_lines(fields, inherit_all, n), types) =~= field_declarations(
            fields,
            inherit_all,
            types,
            n,
        ));
    }
}

proof fn lemma_type_items_text(fields: Seq<FieldView>, types: Seq<BindingView>, n: nat)
    ensures
        render(type_items(fields, n), types) == listed_types(fields, types, n),
    decreases n,
{
    if n > 0 {
        let f = fields[n - 1];
        let a = PieceView::Hole(SymbolView::Type(f.ty));
        let b = PieceView::Text(","@);
        lemma_type_items_text(fields, types, (n - 1) as nat);
        lemma_render_concat(type_items(fields, (n - 1) as nat), seq![a, b], types);
        lemma_render_pair(a, b, types);
        assert(render(type_items(fields, n), types) =~= listed_types(fields, types, n));
    }
}

proof fn lemma_variant_field_items_text(fields: Seq<FieldView>, types: Seq<BindingView>, n: nat)
    ensures
        render(variant_field_items(fields, n), types) == packed_fields(fields, types, n),
    decreases n,
{
    if n > 0 {
        let f = fields[n - 1];
        let a = PieceView::Text(f.name() + ":"@);
        let b = PieceView::Hole(SymbolView::Type(f.ty));
        let c = PieceView::Text(","@);
        lemma_variant_field_items_text(fields, types, (n - 1) as nat);
        lemma_render_concat(variant_field_items(fields, (n - 1) as nat), seq![a, b, c], types);
        lemma_render_triple(a, b, c, types);
        assert(render(variant_field_items(fields, n), types) =~= packed_fields(fields, types, n));
    }
}

/// The declaration of a record names each field's own element type at its
/// own place.
pub proof fn lemma_aggregate_declaration(
    name: Seq<char>,
    generics: Seq<char>,
    shape: FieldShapeView,
    inherit_all: bool,
    types: Seq<BindingView>,
)
    ensures
        render(aggregate_definition(name, generics, shape, inherit_all), types)
            == aggregate_declaration(name, generics, shape, inherit_all, types),
{
    match shape {
        FieldShapeView::Named(fields) => {
            lemma_field_lines_text(fields, inherit_all, types, fields.len());
            lemma_render_framed(
                "struct "@ + name + generics + "{ "@,
                field_lines(fields, inherit_all, fields.len()),
                "}"@,
                types,
            );
        },
        FieldShapeView::Positional(fields) => {
            lemma_type_items_text(fields, types, fields.len());
            lemma_render_framed(
                "struct "@ + name + generics + "("@,
                type_items(fields, fields.len()),
                ");"@,
                types,
            );
        },
        FieldShapeView::Unit => {
            lemma_render_single(PieceView::Text("struct "@ + name + generics + ";"@), types);
        },
    }
}

/// The declaration of a variant names each field's own element type at its
/// own place.
pub proof fn lemma_variant_declaration(
    attrs: Seq<AttributeView>,
    var: Seq<char>,
    shape: FieldShapeView,
    inherit_all: bool,
    types: Seq<BindingView>,
)
    ensures
        render(variant_definition(attrs, var, shape, inherit_all), types) == variant_declaration(
            attrs,
            var,
            shape,
            inherit_all,
            types,
        ),
{
    let doc = lead(or_empty(inner_doc(attrs, inherit_all)));
    match shape {
        FieldShapeView::Named(fields) => {
            lemma_variant_field_items_text(fields, types, fields.len());
            lemma_render_framed(
                doc + var + "{"@,
                variant_field_items(fields, fields.len()),
                "},"@,
                types,
            );
        },
        FieldShapeView::Positional(fields) => {
            lemma_type_items_text(fields, types, fields.len());
            lemma_render_framed(doc + var + "("@, type_items(fields, fields.len()), "),"@, types);
        },
        FieldShapeView::Unit => {
            lemma_render_single(PieceView::Text(doc + var + ","@), types);
        },
    }
}

proof fn lemma_variant_definitions_text(
    variants: Seq<VariantView>,
    inherit_all: bool,
    types: Seq<BindingView>,
    n: nat,
)
    ensures
        render(variant_definitions(variants, inherit_all, n), types) == variant_declarations(
            variants,
            inherit_all,
            types,
            n,
        ),
    decreases n,
{
    if n > 0 {
        let v = variants[n - 1];
        lemma_variant_definitions_text(variants, inherit_all, types, (n - 1) as nat);
        lemma_variant_declaration(v.attrs, v.ident, v.fields, inherit_all, types);
        lemma_render_concat(
            variant_definitions(variants, inherit_all, (n - 1) as nat),
            variant_definition(v.attrs, v.ident, v.fields, inherit_all),
            types,
        );
    }
}

/// What a compiled schema renders as definition is the definition text of
/// the schema: every field and variant at its own place, in declaration
/// order, each with the name of its own element type.
pub proof fn lemma_definition_text(
    schema: TypeSchemaView,
    attrs: Seq<char>,
    vis: Seq<char>,
    types: Seq<BindingView>,
)
    ensures
        compile(schema).definition_text(attrs, vis, types) == definition_text(
            schema,
            attrs,
            vis,
            types,
        ),
{
    let inherit_all = inherits_all(schema.attrs);
    match schema.data {
        ContainerView::Aggregate(shape) => {
            lemma_aggregate_declaration(schema.ident, schema.generics, shape, inherit_all, types);
        },
        ContainerView::TaggedUnion(variants) => {
            lemma_variant_definitions_text(variants, inherit_all, types, variants.len());
            lemma_render_framed(
                "enum "@ + schema.ident + schema.generics + "{ "@,
                variant_definitions(variants, inherit_all, variants.len()),
                " }"@,
                types,
            );
        },
        ContainerView::Overlay(fields) => {
            lemma_field_lines_text(fields, inherit_all, types, fields.len());
            lemma_render_framed(
                "union "@ + schema.ident + schema.generics + "{ "@,
                field_lines(fields, inherit_all, fields.len()),
                "}"@,
                types,
            );
        },
    }
}

} // verus!
