//! The schema of one declared type: its container kind, its fields and
//! variants, and the attributes attached to each of them.

use vstd::prelude::*;
use crate::text::{opt_view, or_empty, text_or_empty};

verus! {

/// One attribute attached to a type, a field or a variant.
///
/// `path` is the attribute's name (`doc`, `inherit_doc`, ...); `text` is the
/// whole attribute as it is written in a declaration.
#[derive(Debug)]
pub struct Attribute {
    pub path: String,
    pub text: String,
}

/// What an attribute holds, as plain text.
pub struct AttributeView {
    pub path: Seq<char>,
    pub text: Seq<char>,
}

impl View for Attribute {
    type V = AttributeView;

    open spec fn view(&self) -> AttributeView {
        AttributeView { path: self.path@, text: self.text@ }
    }
}

/// The views of a list of attributes, in order.
pub open spec fn attrs_view(attrs: Seq<Attribute>) -> Seq<AttributeView> {
    attrs.map_values(|a: Attribute| a@)
}

/// One field: its attributes, visibility, optional name and the reference to
/// its element type.
#[derive(Debug)]
pub struct Field {
    pub attrs: Vec<Attribute>,
    pub vis: String,
    pub ident: Option<String>,
    pub ty: String,
}

/// What a field holds, as plain text.
pub struct FieldView {
    pub attrs: Seq<AttributeView>,
    pub vis: Seq<char>,
    pub ident: Option<Seq<char>>,
    pub ty: Seq<char>,
}

impl View for Field {
    type V = FieldView;

    open spec fn view(&self) -> FieldView {
        FieldView {
            attrs: attrs_view(self.attrs@),
            vis: self.vis@,
            ident: opt_view(self.ident),
            ty: self.ty@,
        }
    }
}

impl FieldView {
    /// The field's name as text; empty where it has none.
    pub open spec fn name(self) -> Seq<char> {
        or_empty(self.ident)
    }
}

/// The views of a list of fields, in declaration order.
pub open spec fn fields_view(fields: Seq<Field>) -> Seq<FieldView> {
    fields.map_values(|f: Field| f@)
}

/// The three structural kinds of a field list.
#[derive(Debug)]
pub enum FieldShape {
    Named(Vec<Field>),
    Positional(Vec<Field>),
    Unit,
}

/// What a shape holds.
pub enum FieldShapeView {
    Named(Seq<FieldView>),
    Positional(Seq<FieldView>),
    Unit,
}

impl View for FieldShape {
    type V = FieldShapeView;

    open spec fn view(&self) -> FieldShapeView {
        match self {
            FieldShape::Named(fields) => FieldShapeView::Named(fields_view(fields@)),
            FieldShape::Positional(fields) => FieldShapeView::Positional(fields_view(fields@)),
            FieldShape::Unit => FieldShapeView::Unit,
        }
    }
}

impl FieldShapeView {
    /// The shape's fields; none for a unit shape.
    pub open spec fn fields(self) -> Seq<FieldView> {
        match self {
            FieldShapeView::Named(fields) => fields,
            FieldShapeView::Positional(fields) => fields,
            FieldShapeView::Unit => Seq::empty(),
        }
    }
}

/// One variant of a tagged union.
#[derive(Debug)]
pub struct Variant {
    pub attrs: Vec<Attribute>,
    pub ident: String,
    pub fields: FieldShape,
}

/// What a variant holds.
pub struct VariantView {
    pub attrs: Seq<AttributeView>,
    pub ident: Seq<char>,
    pub fields: FieldShapeView,
}

impl View for Variant {
    type V = VariantView;

    open spec fn view(&self) -> VariantView {
        VariantView { attrs: attrs_view(self.attrs@), ident: self.ident@, fields: self.fields@ }
    }
}

/// The views of a list of variants, in declaration order.
pub open spec fn variants_view(variants: Seq<Variant>) -> Seq<VariantView> {
    variants.map_values(|v: Variant| v@)
}

/// The three container kinds.
#[derive(Debug)]
pub enum Container {
    /// A record with a single field shape.
    Aggregate(FieldShape),
    /// An ordered list of variants, each with its own shape.
    TaggedUnion(Vec<Variant>),
    /// Named fields that share one storage; the first stands for the value.
    Overlay(Vec<Field>),
}

/// What a container holds.
pub enum ContainerView {
    Aggregate(FieldShapeView),
    TaggedUnion(Seq<VariantView>),
    Overlay(Seq<FieldView>),
}

impl View for Container {
    type V = ContainerView;

    open spec fn view(&self) -> ContainerView {
        match self {
            Container::Aggregate(shape) => ContainerView::Aggregate(shape@),
            Container::TaggedUnion(variants) => ContainerView::TaggedUnion(
                variants_view(variants@),
            ),
            Container::Overlay(fields) => ContainerView::Overlay(fields_view(fields@)),
        }
    }
}

/// A declared type. `vis` and `generics` are kept as the text they were
/// written as.
#[derive(Debug)]
pub struct TypeSchema {
    pub attrs: Vec<Attribute>,
    pub vis: String,
    pub ident: String,
    pub generics: String,
    pub data: Container,
}

/// What a schema holds: the model that contracts speak of.
pub struct TypeSchemaView {
    pub attrs: Seq<AttributeView>,
    pub vis: Seq<char>,
    pub ident: Seq<char>,
    pub generics: Seq<char>,
    pub data: ContainerView,
}

impl View for TypeSchema {
    type V = TypeSchemaView;

    open spec fn view(&self) -> TypeSchemaView {
        TypeSchemaView {
            attrs: attrs_view(self.attrs@),
            vis: self.vis@,
            ident: self.ident@,
            generics: self.generics@,
            data: self.data@,
        }
    }
}

/// Why a schema cannot be compiled.
#[derive(Clone, Copy, Debug, PartialEq, Eq, Structural)]
pub enum SchemaError {
    /// An overlay without any field.
    EmptyOverlay,
    /// A field of a named shape, or of an overlay, without a name.
    MissingFieldName,
    /// A field of a positional shape that carries a name.
    UnexpectedFieldName,
    /// Two fields of one shape with the same name.
    DuplicateFieldName,
}

/// Every field has a name.
pub open spec fn all_named(fields: Seq<FieldView>) -> bool {
    forall|i: int| 0 <= i < fields.len() ==> (#[trigger] fields[i]).ident is Some
}

/// No field has a name.
pub open spec fn all_anonymous(fields: Seq<FieldView>) -> bool {
    forall|i: int| 0 <= i < fields.len() ==> (#[trigger] fields[i]).ident is None
}

/// No two fields share a name.
pub open spec fn distinct_names(fields: Seq<FieldView>) -> bool {
    forall|i: int, j: int|
        0 <= i < j < fields.len() ==> (#[trigger] fields[i]).ident != (#[trigger] fields[j]).ident
}

/// What is wrong with a list of named fields: a missing name is reported
/// before a repeated one.
pub open spec fn named_violation(fields: Seq<FieldView>) -> Option<SchemaError> {
    if !all_named(fields) {
        Some(SchemaError::MissingFieldName)
    } else if !distinct_names(fields) {
        Some(SchemaError::DuplicateFieldName)
    } else {
        None
    }
}

/// What is wrong with one shape, if anything.
pub open spec fn shape_violation(shape: FieldShapeView) -> Option<SchemaError> {
    match shape {
        FieldShapeView::Named(fields) => named_violation(fields),
        FieldShapeView::Positional(fields) => if all_anonymous(fields) {
            None
        } else {
            Some(SchemaError::UnexpectedFieldName)
        },
        FieldShapeView::Unit => None,
    }
}

/// The violation of the first ill-formed variant among the first `n`.
pub open spec fn variants_violation(variants: Seq<VariantView>, n: nat) -> Option<SchemaError>
    decreases n,
{
    if n == 0 {
        None
    } else {
        match variants_violation(variants, (n - 1) as nat) {
            Some(e) => Some(e),
            None => shape_violation(variants[n - 1].fields),
        }
    }
}

/// What is wrong with a schema, if anything. A schema without violation is
/// well formed: an overlay has a field, named fields have distinct names and
/// positional fields have none.
pub open spec fn schema_violation(schema: TypeSchemaView) -> Option<SchemaError> {
    match schema.data {
        ContainerView::Aggregate(shape) => shape_violation(shape),
        ContainerView::TaggedUnion(variants) => variants_violation(variants, variants.len()),
        ContainerView::Overlay(fields) => if fields.len() == 0 {
            Some(SchemaError::EmptyOverlay)
        } else {
            named_violation(fields)
        },
    }
}

/// A violation among the first `n` variants is still the one reported for
/// any longer prefix.
pub proof fn lemma_variants_violation_stays(variants: Seq<VariantView>, n: nat, m: nat)
    requires
        n <= m,
        variants_violation(variants, n) is Some,
    ensures
        variants_violation(variants, m) == variants_violation(variants, n),
    decreases m,
{
    if n < m {
        lemma_variants_violation_stays(variants, n, (m - 1) as nat);
    }
}

impl Attribute {
    /// Whether the attribute's name is `name`.
    pub fn is_ident(&self, name: &str) -> (b: bool)
        ensures
            b == (self@.path == name@),
    {
        let wanted = String::from_str(name);
        self.path == wanted
    }
}

impl Field {
    /// The field's name as text; empty where it has none.
    pub fn name(&self) -> (s: &str)
        ensures
            s@ == self@.name(),
    {
        text_or_empty(&self.ident)
    }

    fn same_name(&self, other: &Field) -> (b: bool)
        ensures
            b == (self@.ident == other@.ident),
    {
        match (&self.ident, &other.ident) {
            (Some(a), Some(b)) => *a == *b,
            (None, None) => true,
            _ => false,
        }
    }
}

fn check_all_named(fields: &Vec<Field>) -> (b: bool)
    ensures
        b == all_named(fields_view(fields@)),
{
    let mut i: usize = 0;
    while i < fields.len()
        invariant
            i <= fields.len(),
            forall|k: int| 0 <= k < i ==> (#[trigger] fields_view(fields@)[k]).ident is Some,
        decreases fields.len() - i,
    {
        if fields[i].ident.is_none() {
            assert(fields_view(fields@)[i as int].ident is None);
            return false;
        }
        i += 1;
    }
    true
}

fn check_all_anonymous(fields: &Vec<Field>) -> (b: bool)
    ensures
        b == all_anonymous(fields_view(fields@)),
{
    let mut i: usize = 0;
    while i < fields.len()
        invariant
            i <= fields.len(),
            forall|k: int| 0 <= k < i ==> (#[trigger] fields_view(fields@)[k]).ident is None,
        decreases fields.len() - i,
    {
        if fields[i].ident.is_some() {
            assert(fields_view(fields@)[i as int].ident is Some);
            return false;
        }
        i += 1;
    }
    true
}

fn check_distinct_names(fields: &Vec<Field>) -> (b: bool)
    ensures
        b == distinct_names(fields_view(fields@)),
{
    let ghost view = fields_view(fields@);
    let mut j: usize = 0;
    while j < fields.len()
        invariant
            j <= fields.len(),
            view == fields_view(fields@),
            forall|a: int, b: int|
                0 <= a < b < j ==> (#[trigger] view[a]).ident != (#[trigger] view[b]).ident,
        decreases fields.len() - j,
    {
        let mut i: usize = 0;
        while i < j
            invariant
                i <= j < fields.len(),
                view == fields_view(fields@),
                forall|a: int| 0 <= a < i ==> (#[trigger] view[a]).ident != view[j as int].ident,
            decreases j - i,
        {
            if fields[i].same_name(&fields[j]) {
                assert(view[i as int].ident == view[j as int].ident);
                return false;
            }
            i += 1;
        }
        j += 1;
    }
    true
}

fn check_named(fields: &Vec<Field>) -> (r: Option<SchemaError>)
    ensures
        r == named_violation(fields_view(fields@)),
{
    if !check_all_named(fields) {
        Some(SchemaError::MissingFieldName)
    } else if !check_distinct_names(fields) {
        Some(SchemaError::DuplicateFieldName)
    } else {
        None
    }
}

impl FieldShape {
    /// Checks one shape.
    pub fn violation(&self) -> (r: Option<SchemaError>)
        ensures
            r == shape_violation(self@),
    {
        match self {
            FieldShape::Named(fields) => check_named(fields),
            FieldShape::Positional(fields) => if check_all_anonymous(fields) {
                None
            } else {
                Some(SchemaError::UnexpectedFieldName)
            },
            FieldShape::Unit => None,
        }
    }
}

fn check_variants(variants: &Vec<Variant>) -> (r: Option<SchemaError>)
    ensures
        r == variants_violation(variants_view(variants@), variants@.len()),
{
    let ghost view = variants_view(variants@);
    let mut i: usize = 0;
    while i < variants.len()
        invariant
            i <= variants.len(),
            view == variants_view(variants@),
            variants_violation(view, i as nat) is None,
        decreases variants.len() - i,
    {
        let found = variants[i].fields.violation();
        assert(view[i as int].fields == variants[i as int].fields@);
        if found.is_some() {
            proof {
                assert(variants_violation(view, (i + 1) as nat) == found);
                lemma_variants_violation_stays(view, (i + 1) as nat, view.len());
            }
            return found;
        }
        i += 1;
    }
    None
}

impl TypeSchema {
    /// Checks the whole schema; `None` means that it is well formed.
    pub fn violation(&self) -> (r: Option<SchemaError>)
        ensures
            r == schema_violation(self@),
    {
        match &self.data {
            Container::Aggregate(shape) => shape.violation(),
            Container::TaggedUnion(variants) => check_variants(variants),
            Container::Overlay(fields) => if fields.len() == 0 {
                Some(SchemaError::EmptyOverlay)
            } else {
                check_named(fields)
            },
        }
    }
}

} // verus!
