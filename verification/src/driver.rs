//! The driver: compiles one schema into the producers of its type name, its
//! value text and its definition text.
//!
//! A schema is checked once, when it is compiled. Producing text from what
//! was compiled cannot fail.

use vstd::prelude::*;
use crate::definition::{
    aggregate_definition, enum_def_handler, overlay_definition, struct_def_handler,
    tagged_union_definition, union_def_handler,
};
use crate::docs::{get_docs, inherits_all, type_doc};
use crate::extract::{
    borrowed_opts_view, borrowed_texts_view, get_field_idents, get_field_visibilities, idents,
    visibilities,
};
use crate::rendered::{definition_text, lemma_definition_text, lemma_value_text, value_text};
use crate::schema::{
    fields_view, schema_violation, variants_view, Container, ContainerView, SchemaError,
    TypeSchema, TypeSchemaView, Variant, VariantView,
};
use crate::template::{
    bindings_view, render, resolved, texts_view, Binding, BindingView, PieceView, Template,
};
use crate::text::{or_empty, push_lead, spaced, text_or_empty};
use crate::value::{
    aggregate_renderer, arms_view, enum_val_handler, overlay_renderer, struct_val_handler,
    union_val_handler, variant_arm, Arm, ArmView, Renderer, RendererView,
};

verus! {

/// How a compiled type renders a value: directly, or by dispatch on the
/// active variant.
#[derive(Debug)]
pub enum ValueRenderer {
    Direct(Renderer),
    Dispatch(Vec<Arm>),
}

/// What a value renderer holds.
pub enum ValueRendererView {
    Direct(RendererView),
    Dispatch(Seq<ArmView>),
}

impl View for ValueRenderer {
    type V = ValueRendererView;

    open spec fn view(&self) -> ValueRendererView {
        match self {
            ValueRenderer::Direct(r) => ValueRendererView::Direct(r@),
            ValueRenderer::Dispatch(arms) => ValueRendererView::Dispatch(arms_view(arms@)),
        }
    }
}

/// A value of a compiled type, as far as rendering needs it: which variant is
/// active, and the text of each field's value in declaration order. A record
/// has a single shape and ignores `variant`; so does an overlay, whose only
/// value is that of its first member.
#[derive(Debug)]
pub struct Instance {
    pub variant: usize,
    pub values: Vec<String>,
}

/// What an instance holds.
pub struct InstanceView {
    pub variant: int,
    pub values: Seq<Seq<char>>,
}

impl View for Instance {
    type V = InstanceView;

    open spec fn view(&self) -> InstanceView {
        InstanceView { variant: self.variant as int, values: texts_view(self.values@) }
    }
}

impl ValueRendererView {
    /// Every renderer refers to the symbols that it binds.
    pub open spec fn wf(self) -> bool {
        match self {
            ValueRendererView::Direct(r) => r.wf(),
            ValueRendererView::Dispatch(arms) => forall|i: int|
                0 <= i < arms.len() ==> (#[trigger] arms[i]).renderer.wf(),
        }
    }

    /// The instance names a variant that exists and has one value for each
    /// field of the shape that renders it.
    pub open spec fn accepts(self, instance: InstanceView) -> bool {
        match self {
            ValueRendererView::Direct(r) => instance.values.len() == r.binders.len(),
            ValueRendererView::Dispatch(arms) => {
                &&& 0 <= instance.variant < arms.len()
                &&& instance.values.len() == arms[instance.variant].renderer.binders.len()
            },
        }
    }

    /// The text of an instance.
    pub open spec fn text(self, instance: InstanceView) -> Seq<char> {
        match self {
            ValueRendererView::Direct(r) => r.text(instance.values),
            ValueRendererView::Dispatch(arms) => arms[instance.variant].renderer.text(
                instance.values,
            ),
        }
    }
}

/// What compiling a schema yields.
#[derive(Debug)]
pub struct Compiled {
    /// The name under which other types refer to this one.
    pub name: String,
    /// The documentation that the type keeps; empty where it keeps none.
    pub doc: String,
    /// The declaration, without what the caller puts before it.
    pub definition: Template,
    /// The constructor expression.
    pub value: ValueRenderer,
}

/// What a compiled type holds.
pub struct CompiledView {
    pub name: Seq<char>,
    pub doc: Seq<char>,
    pub definition: Seq<PieceView>,
    pub value: ValueRendererView,
}

impl View for Compiled {
    type V = CompiledView;

    open spec fn view(&self) -> CompiledView {
        CompiledView {
            name: self.name@,
            doc: self.doc@,
            definition: self.definition@,
            value: self.value@,
        }
    }
}

impl CompiledView {
    /// The value renderers refer to the symbols that they bind.
    pub open spec fn wf(self) -> bool {
        self.value.wf()
    }

    /// The value text of an instance.
    pub open spec fn value_text(self, instance: InstanceView) -> Seq<char> {
        self.value.text(instance)
    }

    /// The definition text: the caller's attributes and the type's own
    /// documentation, the caller's visibility, and the declaration with each
    /// element type's name filled in. An absent part leaves no gap.
    pub open spec fn definition_text(
        self,
        attrs: Seq<char>,
        vis: Seq<char>,
        types: Seq<BindingView>,
    ) -> Seq<char> {
        spaced(attrs + self.doc, spaced(vis, render(self.definition, types)))
    }
}

/// The dispatch arms of a tagged union, one for each variant in declaration
/// order.
pub open spec fn variant_arms(name: Seq<char>, variants: Seq<VariantView>) -> Seq<ArmView> {
    Seq::new(
        variants.len(),
        |i: int| variant_arm(name, variants[i].ident, variants[i].fields),
    )
}

/// How a schema renders a value. An overlay renders through its first member.
pub open spec fn value_renderer(schema: TypeSchemaView) -> ValueRendererView {
    match schema.data {
        ContainerView::Aggregate(shape) => ValueRendererView::Direct(
            aggregate_renderer(schema.ident, shape),
        ),
        ContainerView::TaggedUnion(variants) => ValueRendererView::Dispatch(
            variant_arms(schema.ident, variants),
        ),
        ContainerView::Overlay(fields) => ValueRendererView::Direct(
            overlay_renderer(fields[0].vis, schema.ident, fields[0].name()),
        ),
    }
}

/// The declaration of a schema.
pub open spec fn definition(schema: TypeSchemaView) -> Seq<PieceView> {
    let inherit_all = inherits_all(schema.attrs);
    match schema.data {
        ContainerView::Aggregate(shape) => aggregate_definition(
            schema.ident,
            schema.generics,
            shape,
            inherit_all,
        ),
        ContainerView::TaggedUnion(variants) => tagged_union_definition(
            schema.ident,
            schema.generics,
            variants,
            inherit_all,
        ),
        ContainerView::Overlay(fields) => overlay_definition(
            schema.ident,
            schema.generics,
            fields,
            inherit_all,
        ),
    }
}

/// What a well-formed schema compiles to.
pub open spec fn compile(schema: TypeSchemaView) -> CompiledView {
    CompiledView {
        name: schema.ident,
        doc: or_empty(type_doc(schema.attrs)),
        definition: definition(schema),
        value: value_renderer(schema),
    }
}

fn variant_arms_of(name: &str, variants: &Vec<Variant>) -> (arms: Vec<Arm>)
    ensures
        arms_view(arms@) == variant_arms(name@, variants_view(variants@)),
        ValueRendererView::Dispatch(arms_view(arms@)).wf(),
{
    let mut arms: Vec<Arm> = Vec::new();
    let mut i: usize = 0;
    while i < variants.len()
        invariant
            i <= variants.len(),
            arms@.len() == i,
            forall|k: int|
                0 <= k < i ==> (#[trigger] arms@[k])@ == variant_arm(
                    name@,
                    variants@[k]@.ident,
                    variants@[k]@.fields,
                ) && arms@[k]@.renderer.wf(),
        decreases variants.len() - i,
    {
        let v = &variants[i];
        arms.push(enum_val_handler(name, v.ident.as_str(), &v.fields));
        i += 1;
    }
    assert(arms_view(arms@) =~= variant_arms(name@, variants_view(variants@)));
    arms
}

/// Compiles a schema.
///
/// An ill-formed schema is refused, with the violation that
/// [`schema_violation`] names, before anything is rendered. A well-formed one
/// yields the type's name, the documentation that the type keeps, the
/// template of its declaration and the renderer of its values. What these
/// render is the value text and the definition text of the schema.
pub fn impl_macro(ast: &TypeSchema) -> (r: Result<Compiled, SchemaError>)
    ensures
        match r {
            Ok(c) => {
                &&& schema_violation(ast@) is None
                &&& c@ == compile(ast@)
                &&& c@.wf()
                &&& forall|instance: InstanceView|
                    c@.value.accepts(instance) ==> (#[trigger] c@.value_text(instance))
                        == value_text(ast@, instance)
                &&& forall|attrs: Seq<char>, vis: Seq<char>, types: Seq<BindingView>|
                    (#[trigger] c@.definition_text(attrs, vis, types)) == definition_text(
                        ast@,
                        attrs,
                        vis,
                        types,
                    )
            },
            Err(e) => schema_violation(ast@) == Some(e),
        },
{
    match ast.violation() {
        Some(e) => {
            return Err(e);
        },
        None => {},
    }
    let name = ast.ident.as_str();
    let generics = ast.generics.as_str();
    let val_impl = match &ast.data {
        Container::Aggregate(fields) => ValueRenderer::Direct(struct_val_handler(name, fields)),
        Container::TaggedUnion(variants) => ValueRenderer::Dispatch(
            variant_arms_of(name, variants),
        ),
        Container::Overlay(fields) => {
            let all_vis = get_field_visibilities(fields);
            let all_idents = get_field_idents(fields);
            proof {
                let view = fields_view(fields@);
                assert(borrowed_texts_view(all_vis@)[0] == visibilities(view)[0]);
                assert(borrowed_opts_view(all_idents@)[0] == idents(view)[0]);
            }
            let vis = all_vis[0];
            let ident = text_or_empty(all_idents[0]);
            ValueRenderer::Direct(union_val_handler(vis.as_str(), name, ident))
        },
    };
    let (doc_attr, inner_doc_attr) = get_docs(&ast.attrs);
    let def_impl = match &ast.data {
        Container::Aggregate(fields) => struct_def_handler(name, generics, fields, inner_doc_attr),
        Container::TaggedUnion(variants) => enum_def_handler(
            name,
            generics,
            variants,
            inner_doc_attr,
        ),
        Container::Overlay(fields) => union_def_handler(name, generics, fields, inner_doc_attr),
    };
    let doc = String::from_str(text_or_empty(&doc_attr));
    proof {
        let c = compile(ast@);
        assert forall|instance: InstanceView| c.value.accepts(instance) implies (
        #[trigger] c.value_text(instance)) == value_text(ast@, instance) by {
            lemma_value_text(ast@, instance);
        }
        assert forall|attrs: Seq<char>, vis: Seq<char>, types: Seq<BindingView>|
            (#[trigger] c.definition_text(attrs, vis, types)) == definition_text(
                ast@,
                attrs,
                vis,
                types,
            ) by {
            lemma_definition_text(ast@, attrs, vis, types);
        }
    }
    Ok(Compiled { name: ast.ident.clone(), doc, definition: def_impl, value: val_impl })
}

impl Compiled {
    /// The name under which other types refer to this one when it is the
    /// element type of a field.
    pub fn canonical_name(&self) -> (name: String)
        ensures
            name@ == self@.name,
    {
        self.name.clone()
    }

    /// Whether `instance` is a value of this type: it names a variant that
    /// exists and holds one value for each field.
    pub fn accepts(&self, instance: &Instance) -> (b: bool)
        ensures
            b == self@.value.accepts(instance@),
    {
        match &self.value {
            ValueRenderer::Direct(r) => r.accepts(&instance.values),
            ValueRenderer::Dispatch(arms) => {
                if instance.variant < arms.len() {
                    let ghost at = instance.variant as int;
                    assert(arms_view(arms@)[at] == arms@[at]@);
                    arms[instance.variant].renderer.accepts(&instance.values)
                } else {
                    false
                }
            },
        }
    }

    /// Renders an instance as the expression that constructs it.
    pub fn value_text(&self, instance: &Instance) -> (text: String)
        requires
            self@.wf(),
            self@.value.accepts(instance@),
        ensures
            text@ == self@.value_text(instance@),
    {
        match &self.value {
            ValueRenderer::Direct(r) => r.render(&instance.values),
            ValueRenderer::Dispatch(arms) => {
                let ghost at = instance.variant as int;
                assert(arms_view(arms@)[at] == arms@[at]@);
                arms[instance.variant].renderer.render(&instance.values)
            },
        }
    }

    /// Renders the declaration behind the caller's attributes and visibility.
    /// `types` binds each referenced element type to the name it reports.
    pub fn definition_text(&self, attrs: &str, vis: &str, types: &Vec<Binding>) -> (text: String)
        requires
            resolved(self@.definition, bindings_view(types@)),
        ensures
            text@ == self@.definition_text(attrs@, vis@, bindings_view(types@)),
    {
        let mut definition = String::from_str(attrs);
        definition.append(self.doc.as_str());
        let body = self.definition.render(types);
        let mut text = String::new();
        push_lead(&mut text, definition.as_str());
        push_lead(&mut text, vis);
        text.append(body.as_str());
        assert(text@ =~= self@.definition_text(attrs@, vis@, bindings_view(types@)));
        text
    }
}

} // verus!
