//! The definition side: templates that render the declaration of a type.
//!
//! A field contributes the name of its element type through a hole: the body
//! of another type is never copied in, so a type that refers to itself still
//! has a finite definition. Documentation and visibility stand before a field
//! only where there is any: an absent one leaves no gap.

use vstd::prelude::*;
use crate::docs::{get_inner_docs, inner_doc};
use crate::extract::{
    borrowed_opts_view, borrowed_texts_view, docs, get_field_docs, get_field_idents,
    get_field_types, get_field_visibilities, idents, opts_view, types, visibilities,
};
use crate::schema::{
    attrs_view, fields_view, variants_view, Attribute, AttributeView, Field, FieldShape,
    FieldShapeView, FieldView, Variant, VariantView,
};
use crate::template::{PieceView, Symbol, SymbolView, Template};
use crate::text::{lead, or_empty, push_lead, text_or_empty};

verus! {

/// The declaration line of one field of a record or an overlay, up to its
/// type: `<doc> <vis> name: `.
pub open spec fn field_label(field: FieldView, inherit_all: bool) -> Seq<char> {
    lead(or_empty(inner_doc(field.attrs, inherit_all))) + lead(field.vis) + field.name() + ": "@
}

/// `<doc> <vis> name: <type>, ` for each of the first `n` fields.
pub open spec fn field_lines(fields: Seq<FieldView>, inherit_all: bool, n: nat) -> Seq<PieceView>
    decreases n,
{
    if n == 0 {
        Seq::empty()
    } else {
        field_lines(fields, inherit_all, (n - 1) as nat) + seq![
            PieceView::Text(field_label(fields[n - 1], inherit_all)),
            PieceView::Hole(SymbolView::Type(fields[n - 1].ty)),
            PieceView::Text(", "@),
        ]
    }
}

/// `<type>,` for each of the first `n` fields.
pub open spec fn type_items(fields: Seq<FieldView>, n: nat) -> Seq<PieceView>
    decreases n,
{
    if n == 0 {
        Seq::empty()
    } else {
        type_items(fields, (n - 1) as nat) + seq![
            PieceView::Hole(SymbolView::Type(fields[n - 1].ty)),
            PieceView::Text(","@),
        ]
    }
}

/// `name:<type>,` for each of the first `n` fields of a variant.
pub open spec fn variant_field_items(fields: Seq<FieldView>, n: nat) -> Seq<PieceView>
    decreases n,
{
    if n == 0 {
        Seq::empty()
    } else {
        variant_field_items(fields, (n - 1) as nat) + seq![
            PieceView::Text(fields[n - 1].name() + ":"@),
            PieceView::Hole(SymbolView::Type(fields[n - 1].ty)),
            PieceView::Text(","@),
        ]
    }
}

/// The declaration of a record: `struct Name<G>{ a: A, b: B, }`,
/// `struct Name<G>(A,B,);` or `struct Name<G>;`.
pub open spec fn aggregate_definition(
    name: Seq<char>,
    generics: Seq<char>,
    shape: FieldShapeView,
    inherit_all: bool,
) -> Seq<PieceView> {
    match shape {
        FieldShapeView::Named(fields) => seq![
            PieceView::Text("struct "@ + name + generics + "{ "@),
        ] + field_lines(fields, inherit_all, fields.len()) + seq![PieceView::Text("}"@)],
        FieldShapeView::Positional(fields) => seq![
            PieceView::Text("struct "@ + name + generics + "("@),
        ] + type_items(fields, fields.len()) + seq![PieceView::Text(");"@)],
        FieldShapeView::Unit => seq![PieceView::Text("struct "@ + name + generics + ";"@)],
    }
}

/// The declaration of one variant, with its closing comma: `<doc> Var{a:A,},`,
/// `<doc> Var(A,),` or `<doc> Var,`.
pub open spec fn variant_definition(
    attrs: Seq<AttributeView>,
    var: Seq<char>,
    shape: FieldShapeView,
    inherit_all: bool,
) -> Seq<PieceView> {
    let doc = lead(or_empty(inner_doc(attrs, inherit_all)));
    match shape {
        FieldShapeView::Named(fields) => seq![PieceView::Text(doc + var + "{"@)]
            + variant_field_items(fields, fields.len()) + seq![PieceView::Text("},"@)],
        FieldShapeView::Positional(fields) => seq![PieceView::Text(doc + var + "("@)] + type_items(
            fields,
            fields.len(),
        ) + seq![PieceView::Text("),"@)],
        FieldShapeView::Unit => seq![PieceView::Text(doc + var + ","@)],
    }
}

/// The declarations of the first `n` variants, one behind the other in
/// declaration order.
pub open spec fn variant_definitions(
    variants: Seq<VariantView>,
    inherit_all: bool,
    n: nat,
) -> Seq<PieceView>
    decreases n,
{
    if n == 0 {
        Seq::empty()
    } else {
        variant_definitions(variants, inherit_all, (n - 1) as nat) + variant_definition(
            variants[n - 1].attrs,
            variants[n - 1].ident,
            variants[n - 1].fields,
            inherit_all,
        )
    }
}

/// The declaration of a tagged union: `enum Name<G>{ <variants> }`.
pub open spec fn tagged_union_definition(
    name: Seq<char>,
    generics: Seq<char>,
    variants: Seq<VariantView>,
    inherit_all: bool,
) -> Seq<PieceView> {
    seq![PieceView::Text("enum "@ + name + generics + "{ "@)] + variant_definitions(
        variants,
        inherit_all,
        variants.len(),
    ) + seq![PieceView::Text(" }"@)]
}

/// The declaration of an overlay: `union Name<G>{ a: A, b: B, }`, with every
/// member.
pub open spec fn overlay_definition(
    name: Seq<char>,
    generics: Seq<char>,
    fields: Seq<FieldView>,
    inherit_all: bool,
) -> Seq<PieceView> {
    seq![PieceView::Text("union "@ + name + generics + "{ "@)] + field_lines(
        fields,
        inherit_all,
        fields.len(),
    ) + seq![PieceView::Text("}"@)]
}

fn push_field_lines(template: &mut Template, fields: &Vec<Field>, inner_doc_attr: bool)
    ensures
        final(template)@ == old(template)@ + field_lines(
            fields_view(fields@),
            inner_doc_attr,
            fields@.len(),
        ),
{
    let all_vis = get_field_visibilities(fields);
    let names = get_field_idents(fields);
    let references = get_field_types(fields);
    let kept = get_field_docs(fields, inner_doc_attr);
    let ghost view = fields_view(fields@);
    let ghost start = template@;
    assert(template@ =~= start + field_lines(view, inner_doc_attr, 0));
    let mut i: usize = 0;
    while i < fields.len()
        invariant
            i <= fields.len(),
            view == fields_view(fields@),
            all_vis@.len() == fields@.len(),
            names@.len() == fields@.len(),
            references@.len() == fields@.len(),
            kept@.len() == fields@.len(),
            borrowed_texts_view(all_vis@) == visibilities(view),
            borrowed_opts_view(names@) == idents(view),
            borrowed_texts_view(references@) == types(view),
            opts_view(kept@) == docs(view, inner_doc_attr),
            template@ == start + field_lines(view, inner_doc_attr, i as nat),
        decreases fields.len() - i,
    {
        proof {
            assert(borrowed_texts_view(all_vis@)[i as int] == visibilities(view)[i as int]);
            assert(borrowed_opts_view(names@)[i as int] == idents(view)[i as int]);
            assert(borrowed_texts_view(references@)[i as int] == types(view)[i as int]);
            assert(opts_view(kept@)[i as int] == docs(view, inner_doc_attr)[i as int]);
        }
        let mut label = String::new();
        push_lead(&mut label, text_or_empty(&kept[i]));
        push_lead(&mut label, all_vis[i].as_str());
        label.append(text_or_empty(names[i]));
        label.append(": ");
        assert(label@ =~= field_label(view[i as int], inner_doc_attr));
        template.push_text(label);
        template.push_hole(Symbol::Type(references[i].clone()));
        template.push_text(String::from_str(", "));
        assert(template@ =~= start + field_lines(view, inner_doc_attr, (i + 1) as nat));
        i += 1;
    }
}

fn push_type_items(template: &mut Template, fields: &Vec<Field>)
    ensures
        final(template)@ == old(template)@ + type_items(fields_view(fields@), fields@.len()),
{
    let references = get_field_types(fields);
    let ghost view = fields_view(fields@);
    let ghost start = template@;
    assert(template@ =~= start + type_items(view, 0));
    let mut i: usize = 0;
    while i < fields.len()
        invariant
            i <= fields.len(),
            view == fields_view(fields@),
            references@.len() == fields@.len(),
            borrowed_texts_view(references@) == types(view),
            template@ == start + type_items(view, i as nat),
        decreases fields.len() - i,
    {
        proof {
            assert(borrowed_texts_view(references@)[i as int] == types(view)[i as int]);
        }
        template.push_hole(Symbol::Type(references[i].clone()));
        template.push_text(String::from_str(","));
        assert(template@ =~= start + type_items(view, (i + 1) as nat));
        i += 1;
    }
}

fn push_variant_field_items(template: &mut Template, fields: &Vec<Field>)
    ensures
        final(template)@ == old(template)@ + variant_field_items(
            fields_view(fields@),
            fields@.len(),
        ),
{
    let names = get_field_idents(fields);
    let references = get_field_types(fields);
    let ghost view = fields_view(fields@);
    let ghost start = template@;
    assert(template@ =~= start + variant_field_items(view, 0));
    let mut i: usize = 0;
    while i < fields.len()
        invariant
            i <= fields.len(),
            view == fields_view(fields@),
            names@.len() == fields@.len(),
            references@.len() == fields@.len(),
            borrowed_opts_view(names@) == idents(view),
            borrowed_texts_view(references@) == types(view),
            template@ == start + variant_field_items(view, i as nat),
        decreases fields.len() - i,
    {
        proof {
            assert(borrowed_opts_view(names@)[i as int] == idents(view)[i as int]);
            assert(borrowed_texts_view(references@)[i as int] == types(view)[i as int]);
        }
        let mut label = String::from_str(text_or_empty(names[i]));
        label.append(":");
        template.push_text(label);
        template.push_hole(Symbol::Type(references[i].clone()));
        template.push_text(String::from_str(","));
        assert(template@ =~= start + variant_field_items(view, (i + 1) as nat));
        i += 1;
    }
}

/// Generate the declaration of a record.
pub fn struct_def_handler(
    name: &str,
    generics: &str,
    fields: &FieldShape,
    inner_doc_attr: bool,
) -> (t: Template)
    ensures
        t@ == aggregate_definition(name@, generics@, fields@, inner_doc_attr),
{
    let mut head = String::from_str("struct ");
    head.append(name);
    head.append(generics);
    let mut template = Template::new();
    match fields {
        FieldShape::Named(f) => {
            head.append("{ ");
            template.push_text(head);
            push_field_lines(&mut template, f, inner_doc_attr);
            template.push_text(String::from_str("}"));
            proof {
                assert(fields_view(f@).len() == f@.len());
                assert(template@ =~= aggregate_definition(
                    name@,
                    generics@,
                    fields@,
                    inner_doc_attr,
                ));
            }
        },
        FieldShape::Positional(f) => {
            head.append("(");
            template.push_text(head);
            push_type_items(&mut template, f);
            template.push_text(String::from_str(");"));
            proof {
                assert(fields_view(f@).len() == f@.len());
                assert(template@ =~= aggregate_definition(
                    name@,
                    generics@,
                    fields@,
                    inner_doc_attr,
                ));
            }
        },
        FieldShape::Unit => {
            head.append(";");
            template.push_text(head);
            proof {
                assert(template@ =~= aggregate_definition(
                    name@,
                    generics@,
                    fields@,
                    inner_doc_attr,
                ));
            }
        },
    }
    template
}

/// Generate the declaration of one variant of a tagged union.
pub fn enum_variant_def_handler(
    attributes: &Vec<Attribute>,
    var_name: &str,
    fields: &FieldShape,
    inner_doc_attr: bool,
) -> (t: Template)
    ensures
        t@ == variant_definition(attrs_view(attributes@), var_name@, fields@, inner_doc_attr),
{
    let doc_attr = get_inner_docs(attributes, inner_doc_attr);
    let mut head = String::new();
    push_lead(&mut head, text_or_empty(&doc_attr));
    head.append(var_name);
    let ghost doc = lead(or_empty(inner_doc(attrs_view(attributes@), inner_doc_attr)));
    assert(head@ =~= doc + var_name@);
    let mut template = Template::new();
    match fields {
        FieldShape::Named(f) => {
            head.append("{");
            template.push_text(head);
            push_variant_field_items(&mut template, f);
            template.push_text(String::from_str("},"));
            proof {
                assert(fields_view(f@).len() == f@.len());
                assert(template@ =~= variant_definition(
                    attrs_view(attributes@),
                    var_name@,
                    fields@,
                    inner_doc_attr,
                ));
            }
        },
        FieldShape::Positional(f) => {
            head.append("(");
            template.push_text(head);
            push_type_items(&mut template, f);
            template.push_text(String::from_str("),"));
            proof {
                assert(fields_view(f@).len() == f@.len());
                assert(template@ =~= variant_definition(
                    attrs_view(attributes@),
                    var_name@,
                    fields@,
                    inner_doc_attr,
                ));
            }
        },
        FieldShape::Unit => {
            head.append(",");
            template.push_text(head);
            proof {
                assert(template@ =~= variant_definition(
                    attrs_view(attributes@),
                    var_name@,
                    fields@,
                    inner_doc_attr,
                ));
            }
        },
    }
    template
}

/// Generate the declaration of a tagged union.
pub fn enum_def_handler(
    name: &str,
    generics: &str,
    variants: &Vec<Variant>,
    inner_doc_attr: bool,
) -> (t: Template)
    ensures
        t@ == tagged_union_definition(
            name@,
            generics@,
            variants_view(variants@),
            inner_doc_attr,
        ),
{
    let mut head = String::from_str("enum ");
    head.append(name);
    head.append(generics);
    head.append("{ ");
    let mut template = Template::new();
    template.push_text(head);
    let ghost view = variants_view(variants@);
    let ghost start = template@;
    assert(template@ =~= start + variant_definitions(view, inner_doc_attr, 0));
    let mut i: usize = 0;
    while i < variants.len()
        invariant
            i <= variants.len(),
            view == variants_view(variants@),
            template@ == start + variant_definitions(view, inner_doc_attr, i as nat),
        decreases variants.len() - i,
    {
        let v = &variants[i];
        let arm = enum_variant_def_handler(&v.attrs, v.ident.as_str(), &v.fields, inner_doc_attr);
        assert(view[i as int] == v@);
        template.extend(arm);
        assert(template@ =~= start + variant_definitions(view, inner_doc_attr, (i + 1) as nat));
        i += 1;
    }
    template.push_text(String::from_str(" }"));
    proof {
        assert(view.len() == variants@.len());
        assert(template@ =~= tagged_union_definition(name@, generics@, view, inner_doc_attr));
    }
    template
}

/// Generate the declaration of an overlay: every member is listed.
pub fn union_def_handler(
    name: &str,
    generics: &str,
    fields: &Vec<Field>,
    inner_doc_attr: bool,
) -> (t: Template)
    ensures
        t@ == overlay_definition(name@, generics@, fields_view(fields@), inner_doc_attr),
{
    let mut head = String::from_str("union ");
    head.append(name);
    head.append(generics);
    head.append("{ ");
    let mut template = Template::new();
    template.push_text(head);
    push_field_lines(&mut template, fields, inner_doc_attr);
    template.push_text(String::from_str("}"));
    proof {
        assert(fields_view(fields@).len() == fields@.len());
        assert(template@ =~= overlay_definition(
            name@,
            generics@,
            fields_view(fields@),
            inner_doc_attr,
        ));
    }
    template
}

} // verus!
