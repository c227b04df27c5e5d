//! Which documentation a scope carries into the rendered definition.
//!
//! Two marker attributes are recognised. `inherit_doc` on a type, a field or a
//! variant lets that scope keep its own documentation. `inherit_docs` on a
//! type does the same for the type and for every field and variant below it.
//! A scope only ever keeps its own documentation: the marker on the type
//! copies no text of the type onto its fields.

use vstd::prelude::*;
use crate::schema::{attrs_view, Attribute, AttributeView};
use crate::text::opt_view;

verus! {

/// The marker that lets one scope keep its documentation.
pub const DOC_ATTR: &'static str = "inherit_doc";

/// The marker that lets a type and every scope below it keep their
/// documentation.
pub const INNER_DOC_ATTR: &'static str = "inherit_docs";

/// The name of a documentation attribute.
pub const DOC: &'static str = "doc";

/// How a scope inherits documentation.
#[derive(Clone, Copy, Debug, PartialEq, Eq, Structural)]
pub enum DocumentationInheritance {
    /// Nothing is kept.
    Off,
    /// The scope keeps its own documentation.
    InheritSelf,
    /// The scope keeps its own documentation, and every scope below it keeps
    /// its own as well.
    InheritAll,
}

/// Some attribute of the list has the name `name`.
pub open spec fn has_attr(attrs: Seq<AttributeView>, name: Seq<char>) -> bool {
    exists|i: int| 0 <= i < attrs.len() && (#[trigger] attrs[i]).path == name
}

/// `i` is the position of the first documentation attribute.
pub open spec fn is_first_doc(attrs: Seq<AttributeView>, i: int) -> bool {
    &&& 0 <= i < attrs.len()
    &&& attrs[i].path == DOC@
    &&& forall|j: int| 0 <= j < i ==> (#[trigger] attrs[j]).path != DOC@
}

/// The text of the first documentation attribute, if there is one.
pub open spec fn first_doc(attrs: Seq<AttributeView>) -> Option<Seq<char>> {
    if exists|i: int| is_first_doc(attrs, i) {
        Some(attrs[choose|i: int| is_first_doc(attrs, i)].text)
    } else {
        None
    }
}

/// How a type with this list of attributes inherits: `inherit_docs` counts
/// wherever it stands among them.
pub open spec fn inheritance(attrs: Seq<AttributeView>) -> DocumentationInheritance {
    if has_attr(attrs, INNER_DOC_ATTR@) {
        DocumentationInheritance::InheritAll
    } else if has_attr(attrs, DOC_ATTR@) {
        DocumentationInheritance::InheritSelf
    } else {
        DocumentationInheritance::Off
    }
}

/// A type with this list of attributes passes inheritance on to every field
/// and variant.
pub open spec fn inherits_all(attrs: Seq<AttributeView>) -> bool {
    has_attr(attrs, INNER_DOC_ATTR@)
}

/// The documentation that a type keeps: its first documentation attribute
/// where it carries either marker.
pub open spec fn type_doc(attrs: Seq<AttributeView>) -> Option<Seq<char>> {
    if has_attr(attrs, DOC_ATTR@) || has_attr(attrs, INNER_DOC_ATTR@) {
        first_doc(attrs)
    } else {
        None
    }
}

/// The documentation that a field or a variant keeps: its own first
/// documentation attribute, where the type passes inheritance on or the scope
/// carries `inherit_doc` itself.
pub open spec fn inner_doc(attrs: Seq<AttributeView>, inherit_all: bool) -> Option<Seq<char>> {
    if inherit_all || has_attr(attrs, DOC_ATTR@) {
        first_doc(attrs)
    } else {
        None
    }
}

/// The first documentation attribute decides what `first_doc` is.
pub proof fn lemma_first_doc(attrs: Seq<AttributeView>, i: int)
    requires
        is_first_doc(attrs, i),
    ensures
        first_doc(attrs) == Some(attrs[i].text),
{
    let c = choose|k: int| is_first_doc(attrs, k);
    assert(is_first_doc(attrs, c));
    if c < i {
        assert(attrs[c].path != DOC@);
    }
    if i < c {
        assert(attrs[i].path != DOC@);
    }
}

fn first_doc_of(attrs: &Vec<Attribute>) -> (r: Option<String>)
    ensures
        opt_view(r) == first_doc(attrs_view(attrs@)),
{
    let ghost view = attrs_view(attrs@);
    let mut i: usize = 0;
    while i < attrs.len()
        invariant
            i <= attrs.len(),
            view == attrs_view(attrs@),
            forall|j: int| 0 <= j < i ==> (#[trigger] view[j]).path != DOC@,
        decreases attrs.len() - i,
    {
        if attrs[i].is_ident(DOC) {
            proof {
                lemma_first_doc(view, i as int);
            }
            return Some(attrs[i].text.clone());
        }
        i += 1;
    }
    proof {
        if exists|k: int| is_first_doc(view, k) {
            let c = choose|k: int| is_first_doc(view, k);
            assert(view[c].path != DOC@);
        }
    }
    None
}

fn carries(attrs: &Vec<Attribute>, name: &str) -> (b: bool)
    ensures
        b == has_attr(attrs_view(attrs@), name@),
{
    let ghost view = attrs_view(attrs@);
    let mut i: usize = 0;
    while i < attrs.len()
        invariant
            i <= attrs.len(),
            view == attrs_view(attrs@),
            forall|j: int| 0 <= j < i ==> (#[trigger] view[j]).path != name@,
        decreases attrs.len() - i,
    {
        if attrs[i].is_ident(name) {
            assert(view[i as int].path == name@);
            return true;
        }
        i += 1;
    }
    false
}

/// Resolves how a type with these attributes inherits documentation.
pub fn resolve_inheritance(attrs: &Vec<Attribute>) -> (r: DocumentationInheritance)
    ensures
        r == inheritance(attrs_view(attrs@)),
{
    let ghost view = attrs_view(attrs@);
    let mut doc_attr = false;
    let mut inner_doc_attr = false;
    let mut i: usize = 0;
    while i < attrs.len()
        invariant
            i <= attrs.len(),
            view == attrs_view(attrs@),
            doc_attr == (exists|j: int| 0 <= j < i && (#[trigger] view[j]).path == DOC_ATTR@),
            inner_doc_attr == (exists|j: int|
                0 <= j < i && (#[trigger] view[j]).path == INNER_DOC_ATTR@),
        decreases attrs.len() - i,
    {
        if attrs[i].is_ident(INNER_DOC_ATTR) {
            assert(view[i as int].path == INNER_DOC_ATTR@);
            inner_doc_attr = true;
        }
        if attrs[i].is_ident(DOC_ATTR) {
            assert(view[i as int].path == DOC_ATTR@);
            doc_attr = true;
        }
        i += 1;
    }
    if inner_doc_attr {
        DocumentationInheritance::InheritAll
    } else if doc_attr {
        DocumentationInheritance::InheritSelf
    } else {
        DocumentationInheritance::Off
    }
}

/// Resolves the documentation of a type from its attributes: the text that
/// the type keeps, and whether its fields and variants inherit as well.
pub fn get_docs(attrs: &Vec<Attribute>) -> (r: (Option<String>, bool))
    ensures
        opt_view(r.0) == type_doc(attrs_view(attrs@)),
        r.1 == inherits_all(attrs_view(attrs@)),
{
    match resolve_inheritance(attrs) {
        DocumentationInheritance::Off => (None, false),
        DocumentationInheritance::InheritSelf => (first_doc_of(attrs), false),
        DocumentationInheritance::InheritAll => (first_doc_of(attrs), true),
    }
}

/// Resolves the documentation of a field or a variant from its own
/// attributes and from what the type passes on.
pub fn get_inner_docs(attrs: &Vec<Attribute>, inner_doc_attr: bool) -> (r: Option<String>)
    ensures
        opt_view(r) == inner_doc(attrs_view(attrs@), inner_doc_attr),
{
    if inner_doc_attr || carries(attrs, DOC_ATTR) {
        first_doc_of(attrs)
    } else {
        None
    }
}

} // verus!
