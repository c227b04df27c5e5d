//! Projections of a list of fields: one parallel list for each thing the
//! renderers read, in declaration order.

use vstd::prelude::*;
use crate::docs::{get_inner_docs, inner_doc};
use crate::schema::{fields_view, Field, FieldShape, FieldView};
use crate::text::opt_view;

verus! {

/// The fields' visibilities.
pub open spec fn visibilities(fields: Seq<FieldView>) -> Seq<Seq<char>> {
    Seq::new(fields.len(), |i: int| fields[i].vis)
}

/// The fields' names as the schema holds them: none for a positional field.
pub open spec fn idents(fields: Seq<FieldView>) -> Seq<Option<Seq<char>>> {
    Seq::new(fields.len(), |i: int| fields[i].ident)
}

/// The fields' element-type references.
pub open spec fn types(fields: Seq<FieldView>) -> Seq<Seq<char>> {
    Seq::new(fields.len(), |i: int| fields[i].ty)
}

/// The documentation that each field keeps.
pub open spec fn docs(fields: Seq<FieldView>, inherit_all: bool) -> Seq<Option<Seq<char>>> {
    Seq::new(fields.len(), |i: int| inner_doc(fields[i].attrs, inherit_all))
}

/// The views of a list of borrowed texts.
pub open spec fn borrowed_texts_view(texts: Seq<&String>) -> Seq<Seq<char>> {
    Seq::new(texts.len(), |i: int| texts[i]@)
}

/// The views of a list of borrowed optional texts.
pub open spec fn borrowed_opts_view(texts: Seq<&Option<String>>) -> Seq<Option<Seq<char>>> {
    Seq::new(texts.len(), |i: int| opt_view(*texts[i]))
}

/// The views of a list of optional texts.
pub open spec fn opts_view(texts: Seq<Option<String>>) -> Seq<Option<Seq<char>>> {
    Seq::new(texts.len(), |i: int| opt_view(texts[i]))
}

/// Get the visibilities of the fields.
pub fn get_field_visibilities(fields: &Vec<Field>) -> (r: Vec<&String>)
    ensures
        r@.len() == fields@.len(),
        borrowed_texts_view(r@) == visibilities(fields_view(fields@)),
{
    let mut r: Vec<&String> = Vec::new();
    let mut i: usize = 0;
    while i < fields.len()
        invariant
            i <= fields.len(),
            r@.len() == i,
            forall|k: int| 0 <= k < i ==> (#[trigger] r@[k])@ == fields@[k].vis@,
        decreases fields.len() - i,
    {
        r.push(&fields[i].vis);
        i += 1;
    }
    assert(borrowed_texts_view(r@) =~= visibilities(fields_view(fields@)));
    r
}

/// Get the names of the fields.
pub fn get_field_idents(fields: &Vec<Field>) -> (r: Vec<&Option<String>>)
    ensures
        r@.len() == fields@.len(),
        borrowed_opts_view(r@) == idents(fields_view(fields@)),
{
    let mut r: Vec<&Option<String>> = Vec::new();
    let mut i: usize = 0;
    while i < fields.len()
        invariant
            i <= fields.len(),
            r@.len() == i,
            forall|k: int| 0 <= k < i ==> opt_view(*#[trigger] r@[k]) == opt_view(fields@[k].ident),
        decreases fields.len() - i,
    {
        r.push(&fields[i].ident);
        i += 1;
    }
    assert(borrowed_opts_view(r@) =~= idents(fields_view(fields@)));
    r
}

/// Get the element-type references of the fields.
pub fn get_field_types(fields: &Vec<Field>) -> (r: Vec<&String>)
    ensures
        r@.len() == fields@.len(),
        borrowed_texts_view(r@) == types(fields_view(fields@)),
{
    let mut r: Vec<&String> = Vec::new();
    let mut i: usize = 0;
    while i < fields.len()
        invariant
            i <= fields.len(),
            r@.len() == i,
            forall|k: int| 0 <= k < i ==> (#[trigger] r@[k])@ == fields@[k].ty@,
        decreases fields.len() - i,
    {
        r.push(&fields[i].ty);
        i += 1;
    }
    assert(borrowed_texts_view(r@) =~= types(fields_view(fields@)));
    r
}

/// Get the documentation that each field keeps.
pub fn get_field_docs(fields: &Vec<Field>, inner_doc_attr: bool) -> (r: Vec<Option<String>>)
    ensures
        r@.len() == fields@.len(),
        opts_view(r@) == docs(fields_view(fields@), inner_doc_attr),
{
    let mut r: Vec<Option<String>> = Vec::new();
    let mut i: usize = 0;
    while i < fields.len()
        invariant
            i <= fields.len(),
            r@.len() == i,
            forall|k: int|
                0 <= k < i ==> opt_view(#[trigger] r@[k]) == inner_doc(
                    fields_view(fields@)[k].attrs,
                    inner_doc_attr,
                ),
        decreases fields.len() - i,
    {
        let doc = get_inner_docs(&fields[i].attrs, inner_doc_attr);
        r.push(doc);
        i += 1;
    }
    assert(opts_view(r@) =~= docs(fields_view(fields@), inner_doc_attr));
    r
}

/// Projects the fields of a shape into four parallel lists, in declaration
/// order: names, visibilities, element-type references and kept
/// documentation. A unit shape yields four empty lists. The names are those
/// that the schema holds, so a positional field has none here.
pub fn extract(fields: &FieldShape, inner_doc_attr: bool) -> (r: (
    Vec<&Option<String>>,
    Vec<&String>,
    Vec<&String>,
    Vec<Option<String>>,
))
    ensures
        borrowed_opts_view(r.0@) == idents(fields@.fields()),
        borrowed_texts_view(r.1@) == visibilities(fields@.fields()),
        borrowed_texts_view(r.2@) == types(fields@.fields()),
        opts_view(r.3@) == docs(fields@.fields(), inner_doc_attr),
{
    match fields {
        FieldShape::Named(f) => (
            get_field_idents(f),
            get_field_visibilities(f),
            get_field_types(f),
            get_field_docs(f, inner_doc_attr),
        ),
        FieldShape::Positional(f) => (
            get_field_idents(f),
            get_field_visibilities(f),
            get_field_types(f),
            get_field_docs(f, inner_doc_attr),
        ),
        FieldShape::Unit => {
            let r: (Vec<&Option<String>>, Vec<&String>, Vec<&String>, Vec<Option<String>>) = (
                Vec::new(),
                Vec::new(),
                Vec::new(),
                Vec::new(),
            );
            let ghost none = fields@.fields();
            assert(borrowed_opts_view(r.0@) =~= idents(none));
            assert(borrowed_texts_view(r.1@) =~= visibilities(none));
            assert(borrowed_texts_view(r.2@) =~= types(none));
            assert(opts_view(r.3@) =~= docs(none, inner_doc_attr));
            r
        },
    }
}

} // verus!
