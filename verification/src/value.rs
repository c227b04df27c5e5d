//! The value side: templates that render an instance of a type as the
//! expression that constructs it.
//!
//! A renderer lists the symbols through which the fields of an instance are
//! reached, in declaration order, next to the template that refers to them.
//! For a variant of a tagged union the symbols are the identifiers that the
//! variant's pattern binds: the field names of a named shape, and for a
//! positional shape the placeholders `idnt0`, `idnt1`, ... counted from zero
//! for each shape.

use vstd::prelude::*;
use crate::extract::{borrowed_opts_view, get_field_idents, idents};
use crate::schema::{fields_view, FieldShape, FieldShapeView, FieldView};
use crate::template::{
    bind, bind_all, holes, lemma_bound_resolved, lemma_framed_holes, lemma_holes_concat,
    lemma_holes_single, lemma_line_holes, lemma_pair_holes, push_symbol, render, symbols_view,
    texts_view, PieceView, Symbol, SymbolView, Template,
};
use crate::text::{
    decimal, decimal_text, is_digit, is_letter, lead, lemma_decimal_digits, push_lead,
    text_or_empty,
};

verus! {

/// The prefix of every placeholder. It is fixed: no caller chooses it.
pub const PLACEHOLDER_PREFIX: &'static str = "idnt";

/// The placeholder of the positional field at position `i`.
pub open spec fn placeholder(i: nat) -> Seq<char> {
    PLACEHOLDER_PREFIX@ + decimal(i)
}

/// A letter followed by letters, digits and underscores.
pub open spec fn is_plain_ident(text: Seq<char>) -> bool {
    &&& text.len() > 0
    &&& is_letter(text[0])
    &&& forall|k: int|
        0 < k < text.len() ==> is_letter(#[trigger] text[k]) || is_digit(text[k]) || text[k] == '_'
}

/// Makes an identifier with `syn::Ident::new`, at the call-site span, and
/// hands back its text.
///
/// `Ident::new` panics on text that is no identifier. A letter followed by
/// letters, digits and underscores is one, and the identifier made from it
/// prints as that same text. Nothing else is claimed.
#[verifier::external_body]
fn new_ident(text: &str) -> (ident: String)
    requires
        is_plain_ident(text@),
    ensures
        ident@ == text@,
{
    syn::Ident::new(text, proc_macro2::Span::call_site()).to_string()
}

/// Every placeholder is an identifier.
pub proof fn lemma_placeholder_is_ident(i: nat)
    ensures
        is_plain_ident(placeholder(i)),
{
    reveal_strlit("idnt");
    lemma_decimal_digits(i);
    let text = placeholder(i);
    assert(text[0] == 'i');
    assert forall|k: int| 0 < k < text.len() implies is_letter(#[trigger] text[k]) || is_digit(
        text[k],
    ) || text[k] == '_' by {
        if k >= 4 {
            assert(text[k] == decimal(i)[k - 4]);
        }
    }
}

/// Synthesizes the placeholder identifier of position `i`.
pub fn placeholder_ident(i: usize) -> (ident: String)
    ensures
        ident@ == placeholder(i as nat),
{
    let mut text = String::from_str(PLACEHOLDER_PREFIX);
    let number = decimal_text(i);
    text.append(number.as_str());
    proof {
        lemma_placeholder_is_ident(i as nat);
    }
    new_ident(text.as_str())
}

/// The symbols that reach an instance's fields, and the template that
/// renders the instance through them.
#[derive(Debug)]
pub struct Renderer {
    pub binders: Vec<Symbol>,
    pub template: Template,
}

/// What a renderer holds.
pub struct RendererView {
    pub binders: Seq<SymbolView>,
    pub template: Seq<PieceView>,
}

impl View for Renderer {
    type V = RendererView;

    open spec fn view(&self) -> RendererView {
        RendererView { binders: symbols_view(self.binders@), template: self.template@ }
    }
}

impl RendererView {
    /// The template refers to the bound symbols, each once and in the order
    /// in which they are bound.
    pub open spec fn wf(self) -> bool {
        holes(self.template) == self.binders
    }

    /// The text for the given field values: `values[i]` is bound to the
    /// symbol at position `i`.
    pub open spec fn text(self, values: Seq<Seq<char>>) -> Seq<char> {
        render(self.template, bind(self.binders, values))
    }
}

/// The structural kind of a shape.
#[derive(Clone, Copy, Debug, PartialEq, Eq, Structural)]
pub enum ShapeKind {
    Named,
    Positional,
    Unit,
}

/// The kind of a shape.
pub open spec fn kind_of(shape: FieldShapeView) -> ShapeKind {
    match shape {
        FieldShapeView::Named(_) => ShapeKind::Named,
        FieldShapeView::Positional(_) => ShapeKind::Positional,
        FieldShapeView::Unit => ShapeKind::Unit,
    }
}

/// One arm of the dispatch over a tagged union: the variant it matches, the
/// kind of pattern, the identifiers that the pattern binds and the template of
/// the constructor.
#[derive(Debug)]
pub struct Arm {
    pub variant: String,
    pub kind: ShapeKind,
    pub renderer: Renderer,
}

/// What an arm holds.
pub struct ArmView {
    pub variant: Seq<char>,
    pub kind: ShapeKind,
    pub renderer: RendererView,
}

impl View for Arm {
    type V = ArmView;

    open spec fn view(&self) -> ArmView {
        ArmView { variant: self.variant@, kind: self.kind, renderer: self.renderer@ }
    }
}

/// The views of a list of arms, in order.
pub open spec fn arms_view(arms: Seq<Arm>) -> Seq<ArmView> {
    arms.map_values(|a: Arm| a@)
}

/// The members of the first `n` named fields.
pub open spec fn member_symbols(fields: Seq<FieldView>, n: nat) -> Seq<SymbolView> {
    Seq::new(n, |i: int| SymbolView::Member(fields[i].name()))
}

/// `name: <value>, ` for each of the first `n` named fields.
pub open spec fn member_pieces(fields: Seq<FieldView>, n: nat) -> Seq<PieceView>
    decreases n,
{
    if n == 0 {
        Seq::empty()
    } else {
        member_pieces(fields, (n - 1) as nat) + seq![
            PieceView::Text(fields[n - 1].name() + ": "@),
            PieceView::Hole(SymbolView::Member(fields[n - 1].name())),
            PieceView::Text(", "@),
        ]
    }
}

/// The first `n` positional members.
pub open spec fn index_symbols(n: nat) -> Seq<SymbolView> {
    Seq::new(n, |i: int| SymbolView::Index(i))
}

/// `<value>,` for each of the first `n` positional members.
pub open spec fn index_pieces(n: nat) -> Seq<PieceView>
    decreases n,
{
    if n == 0 {
        Seq::empty()
    } else {
        index_pieces((n - 1) as nat) + seq![
            PieceView::Hole(SymbolView::Index(n - 1)),
            PieceView::Text(","@),
        ]
    }
}

/// The identifiers that the pattern of a named variant binds: the names of
/// its first `n` fields.
pub open spec fn bound_symbols(fields: Seq<FieldView>, n: nat) -> Seq<SymbolView> {
    Seq::new(n, |i: int| SymbolView::Bound(fields[i].name()))
}

/// `name:<value>,` for each of the first `n` fields of a named variant.
pub open spec fn bound_pieces(fields: Seq<FieldView>, n: nat) -> Seq<PieceView>
    decreases n,
{
    if n == 0 {
        Seq::empty()
    } else {
        bound_pieces(fields, (n - 1) as nat) + seq![
            PieceView::Text(fields[n - 1].name() + ":"@),
            PieceView::Hole(SymbolView::Bound(fields[n - 1].name())),
            PieceView::Text(","@),
        ]
    }
}

/// The first `n` placeholders, counted from zero.
pub open spec fn placeholder_symbols(n: nat) -> Seq<SymbolView> {
    Seq::new(n, |i: int| SymbolView::Bound(placeholder(i as nat)))
}

/// `<value>,` for each of the first `n` placeholders.
pub open spec fn placeholder_pieces(n: nat) -> Seq<PieceView>
    decreases n,
{
    if n == 0 {
        Seq::empty()
    } else {
        placeholder_pieces((n - 1) as nat) + seq![
            PieceView::Hole(SymbolView::Bound(placeholder((n - 1) as nat))),
            PieceView::Text(","@),
        ]
    }
}

/// How an aggregate named `name` renders a value: `Name { a: .., b: .., }`,
/// `Name(..,..,)` or the bare `Name`.
pub open spec fn aggregate_renderer(name: Seq<char>, shape: FieldShapeView) -> RendererView {
    match shape {
        FieldShapeView::Named(fields) => RendererView {
            binders: member_symbols(fields, fields.len()),
            template: seq![PieceView::Text(name + " { "@)] + member_pieces(fields, fields.len())
                + seq![PieceView::Text("}"@)],
        },
        FieldShapeView::Positional(fields) => RendererView {
            binders: index_symbols(fields.len()),
            template: seq![PieceView::Text(name + "("@)] + index_pieces(fields.len()) + seq![
                PieceView::Text(")"@),
            ],
        },
        FieldShapeView::Unit => RendererView {
            binders: Seq::empty(),
            template: seq![PieceView::Text(name)],
        },
    }
}

/// How the variant `var` of the tagged union `name` renders a value:
/// `Name::Var{a:..,b:..,}`, `Name::Var(..,..,)` or the bare `Name::Var`.
pub open spec fn variant_renderer(
    name: Seq<char>,
    var: Seq<char>,
    shape: FieldShapeView,
) -> RendererView {
    match shape {
        FieldShapeView::Named(fields) => RendererView {
            binders: bound_symbols(fields, fields.len()),
            template: seq![PieceView::Text(name + "::"@ + var + "{"@)] + bound_pieces(
                fields,
                fields.len(),
            ) + seq![PieceView::Text("}"@)],
        },
        FieldShapeView::Positional(fields) => RendererView {
            binders: placeholder_symbols(fields.len()),
            template: seq![PieceView::Text(name + "::"@ + var + "("@)] + placeholder_pieces(
                fields.len(),
            ) + seq![PieceView::Text(")"@)],
        },
        FieldShapeView::Unit => RendererView {
            binders: Seq::empty(),
            template: seq![PieceView::Text(name + "::"@ + var)],
        },
    }
}

/// The dispatch arm of the variant `var` of the tagged union `name`.
pub open spec fn variant_arm(name: Seq<char>, var: Seq<char>, shape: FieldShapeView) -> ArmView {
    ArmView { variant: var, kind: kind_of(shape), renderer: variant_renderer(name, var, shape) }
}

/// How an overlay named `name` renders a value: through the one member
/// `ident`, behind that member's visibility.
pub open spec fn overlay_renderer(
    vis: Seq<char>,
    name: Seq<char>,
    ident: Seq<char>,
) -> RendererView {
    RendererView {
        binders: seq![SymbolView::Member(ident)],
        template: seq![
            PieceView::Text(lead(vis) + name + " { "@ + ident + ": "@),
            PieceView::Hole(SymbolView::Member(ident)),
            PieceView::Text("}"@),
        ],
    }
}

/// The holes of the member pieces are the members, in declaration order.
pub proof fn lemma_member_holes(fields: Seq<FieldView>, n: nat)
    ensures
        holes(member_pieces(fields, n)) == member_symbols(fields, n),
    decreases n,
{
    if n == 0 {
        assert(holes(member_pieces(fields, n)) =~= member_symbols(fields, n));
    } else {
        let line = seq![
            PieceView::Text(fields[n - 1].name() + ": "@),
            PieceView::Hole(SymbolView::Member(fields[n - 1].name())),
            PieceView::Text(", "@),
        ];
        lemma_member_holes(fields, (n - 1) as nat);
        lemma_holes_concat(member_pieces(fields, (n - 1) as nat), line);
        lemma_line_holes(line[0], line[1], line[2]);
        assert(line =~= seq![line[0], line[1], line[2]]);
        assert(holes(member_pieces(fields, n)) =~= member_symbols(fields, n));
    }
}

/// The holes of the index pieces are the positions, in order.
pub proof fn lemma_index_holes(n: nat)
    ensures
        holes(index_pieces(n)) == index_symbols(n),
    decreases n,
{
    if n == 0 {
        assert(holes(index_pieces(n)) =~= index_symbols(n));
    } else {
        let line = seq![PieceView::Hole(SymbolView::Index(n - 1)), PieceView::Text(","@)];
        lemma_index_holes((n - 1) as nat);
        lemma_holes_concat(index_pieces((n - 1) as nat), line);
        lemma_pair_holes(line[0], line[1]);
        assert(line =~= seq![line[0], line[1]]);
        assert(holes(index_pieces(n)) =~= index_symbols(n));
    }
}

/// The holes of the bound pieces are the field names, in declaration order.
pub proof fn lemma_bound_holes(fields: Seq<FieldView>, n: nat)
    ensures
        holes(bound_pieces(fields, n)) == bound_symbols(fields, n),
    decreases n,
{
    if n == 0 {
        assert(holes(bound_pieces(fields, n)) =~= bound_symbols(fields, n));
    } else {
        let line = seq![
            PieceView::Text(fields[n - 1].name() + ":"@),
            PieceView::Hole(SymbolView::Bound(fields[n - 1].name())),
            PieceView::Text(","@),
        ];
        lemma_bound_holes(fields, (n - 1) as nat);
        lemma_holes_concat(bound_pieces(fields, (n - 1) as nat), line);
        lemma_line_holes(line[0], line[1], line[2]);
        assert(line =~= seq![line[0], line[1], line[2]]);
        assert(holes(bound_pieces(fields, n)) =~= bound_symbols(fields, n));
    }
}

/// The holes of the placeholder pieces are the placeholders, in order.
pub proof fn lemma_placeholder_holes(n: nat)
    ensures
        holes(placeholder_pieces(n)) == placeholder_symbols(n),
    decreases n,
{
    if n == 0 {
        assert(holes(placeholder_pieces(n)) =~= placeholder_symbols(n));
    } else {
        let line = seq![
            PieceView::Hole(SymbolView::Bound(placeholder((n - 1) as nat))),
            PieceView::Text(","@),
        ];
        lemma_placeholder_holes((n - 1) as nat);
        lemma_holes_concat(placeholder_pieces((n - 1) as nat), line);
        lemma_pair_holes(line[0], line[1]);
        assert(line =~= seq![line[0], line[1]]);
        assert(holes(placeholder_pieces(n)) =~= placeholder_symbols(n));
    }
}

/// The renderer of an aggregate refers to the symbols that it binds, in
/// declaration order.
pub proof fn lemma_aggregate_renderer_wf(name: Seq<char>, shape: FieldShapeView)
    ensures
        aggregate_renderer(name, shape).wf(),
{
    match shape {
        FieldShapeView::Named(fields) => {
            lemma_member_holes(fields, fields.len());
            lemma_framed_holes(
                PieceView::Text(name + " { "@),
                member_pieces(fields, fields.len()),
                PieceView::Text("}"@),
            );
        },
        FieldShapeView::Positional(fields) => {
            lemma_index_holes(fields.len());
            lemma_framed_holes(
                PieceView::Text(name + "("@),
                index_pieces(fields.len()),
                PieceView::Text(")"@),
            );
        },
        FieldShapeView::Unit => {
            lemma_holes_single(PieceView::Text(name));
        },
    }
}

/// The constructor of a variant arm refers to the identifiers that the arm's
/// pattern binds: the same sequence, in the same order.
pub proof fn lemma_variant_renderer_wf(name: Seq<char>, var: Seq<char>, shape: FieldShapeView)
    ensures
        variant_renderer(name, var, shape).wf(),
{
    match shape {
        FieldShapeView::Named(fields) => {
            lemma_bound_holes(fields, fields.len());
            lemma_framed_holes(
                PieceView::Text(name + "::"@ + var + "{"@),
                bound_pieces(fields, fields.len()),
                PieceView::Text("}"@),
            );
        },
        FieldShapeView::Positional(fields) => {
            lemma_placeholder_holes(fields.len());
            lemma_framed_holes(
                PieceView::Text(name + "::"@ + var + "("@),
                placeholder_pieces(fields.len()),
                PieceView::Text(")"@),
            );
        },
        FieldShapeView::Unit => {
            lemma_holes_single(PieceView::Text(name + "::"@ + var));
        },
    }
}

/// The renderer of an overlay binds one member and refers to it alone.
pub proof fn lemma_overlay_renderer_wf(vis: Seq<char>, name: Seq<char>, ident: Seq<char>)
    ensures
        overlay_renderer(vis, name, ident).wf(),
{
    lemma_line_holes(
        PieceView::Text(lead(vis) + name + " { "@ + ident + ": "@),
        PieceView::Hole(SymbolView::Member(ident)),
        PieceView::Text("}"@),
    );
}

impl Renderer {
    /// Whether `values` holds one text for each bound symbol.
    pub fn accepts(&self, values: &Vec<String>) -> (b: bool)
        ensures
            b == (values@.len() == self@.binders.len()),
    {
        values.len() == self.binders.len()
    }

    /// Renders the instance whose field values have the given texts, in
    /// declaration order.
    pub fn render(&self, values: &Vec<String>) -> (text: String)
        requires
            self@.wf(),
            values@.len() == self@.binders.len(),
        ensures
            text@ == self@.text(texts_view(values@)),
    {
        let env = bind_all(&self.binders, values);
        proof {
            lemma_bound_resolved(self@.template, self@.binders, texts_view(values@));
        }
        self.template.render(&env)
    }
}

/// Generate the constructor of an aggregate.
pub fn struct_val_handler(name: &str, fields: &FieldShape) -> (r: Renderer)
    ensures
        r@ == aggregate_renderer(name@, fields@),
        r@.wf(),
{
    let mut binders: Vec<Symbol> = Vec::new();
    let mut template = Template::new();
    match fields {
        FieldShape::Named(f) => {
            let names = get_field_idents(f);
            let ghost view = fields_view(f@);
            let mut head = String::from_str(name);
            head.append(" { ");
            template.push_text(head);
            let ghost start = template@;
            let mut i: usize = 0;
            while i < names.len()
                invariant
                    i <= names.len(),
                    names@.len() == f@.len(),
                    view == fields_view(f@),
                    borrowed_opts_view(names@) == idents(view),
                    template@ == start + member_pieces(view, i as nat),
                    symbols_view(binders@) == member_symbols(view, i as nat),
                decreases names.len() - i,
            {
                let ident = text_or_empty(names[i]);
                assert(ident@ == view[i as int].name()) by {
                    assert(borrowed_opts_view(names@)[i as int]
                        == idents(view)[i as int]);
                }
                let mut label = String::from_str(ident);
                label.append(": ");
                template.push_text(label);
                template.push_hole(Symbol::Member(String::from_str(ident)));
                template.push_text(String::from_str(", "));
                push_symbol(&mut binders, Symbol::Member(String::from_str(ident)));
                proof {
                    assert(template@ =~= start + member_pieces(view, (i + 1) as nat));
                    assert(symbols_view(binders@) =~= member_symbols(view, (i + 1) as nat));
                }
                i += 1;
            }
            template.push_text(String::from_str("}"));
            proof {
                assert(start =~= seq![PieceView::Text(name@ + " { "@)]);
                assert(template@ =~= aggregate_renderer(name@, fields@).template);
            }
        },
        FieldShape::Positional(f) => {
            let mut head = String::from_str(name);
            head.append("(");
            template.push_text(head);
            let ghost start = template@;
            let mut counter: usize = 0;
            while counter < f.len()
                invariant
                    counter <= f.len(),
                    template@ == start + index_pieces(counter as nat),
                    symbols_view(binders@) == index_symbols(counter as nat),
                decreases f.len() - counter,
            {
                template.push_hole(Symbol::Index(counter));
                template.push_text(String::from_str(","));
                push_symbol(&mut binders, Symbol::Index(counter));
                proof {
                    assert(template@ =~= start + index_pieces((counter + 1) as nat));
                    assert(symbols_view(binders@) =~= index_symbols((counter + 1) as nat));
                }
                counter += 1;
            }
            template.push_text(String::from_str(")"));
            proof {
                assert(start =~= seq![PieceView::Text(name@ + "("@)]);
                assert(fields_view(f@).len() == f@.len());
                assert(template@ =~= aggregate_renderer(name@, fields@).template);
            }
        },
        FieldShape::Unit => {
            template.push_text(String::from_str(name));
            proof {
                assert(template@ =~= aggregate_renderer(name@, fields@).template);
                assert(symbols_view(binders@) =~= aggregate_renderer(name@, fields@).binders);
            }
        },
    }
    proof {
        lemma_aggregate_renderer_wf(name@, fields@);
    }
    Renderer { binders, template }
}

/// Generate the dispatch arm of one variant of a tagged union: the
/// constructor first, then the pattern that binds what the constructor
/// refers to.
pub fn enum_val_handler(name: &str, var_name: &str, fields: &FieldShape) -> (arm: Arm)
    ensures
        arm@ == variant_arm(name@, var_name@, fields@),
        arm@.renderer.wf(),
{
    let mut head = String::from_str(name);
    head.append("::");
    head.append(var_name);
    let mut constructor = Template::new();
    match fields {
        FieldShape::Named(f) => {
            let names = get_field_idents(f);
            let ghost view = fields_view(f@);
            head.append("{");
            constructor.push_text(head);
            let ghost start = constructor@;
            let mut i: usize = 0;
            while i < names.len()
                invariant
                    i <= names.len(),
                    names@.len() == f@.len(),
                    view == fields_view(f@),
                    borrowed_opts_view(names@) == idents(view),
                    constructor@ == start + bound_pieces(view, i as nat),
                decreases names.len() - i,
            {
                let ident = text_or_empty(names[i]);
                assert(ident@ == view[i as int].name()) by {
                    assert(borrowed_opts_view(names@)[i as int]
                        == idents(view)[i as int]);
                }
                let mut label = String::from_str(ident);
                label.append(":");
                constructor.push_text(label);
                constructor.push_hole(Symbol::Bound(String::from_str(ident)));
                constructor.push_text(String::from_str(","));
                proof {
                    assert(constructor@ =~= start + bound_pieces(view, (i + 1) as nat));
                }
                i += 1;
            }
            constructor.push_text(String::from_str("}"));
            proof {
                assert(start =~= seq![PieceView::Text(name@ + "::"@ + var_name@ + "{"@)]);
                assert(constructor@ =~= variant_renderer(name@, var_name@, fields@).template);
            }
        },
        FieldShape::Positional(f) => {
            head.append("(");
            constructor.push_text(head);
            let ghost start = constructor@;
            let mut counter: usize = 0;
            while counter < f.len()
                invariant
                    counter <= f.len(),
                    constructor@ == start + placeholder_pieces(counter as nat),
                decreases f.len() - counter,
            {
                let new_ident = placeholder_ident(counter);
                constructor.push_hole(Symbol::Bound(new_ident));
                constructor.push_text(String::from_str(","));
                proof {
                    assert(constructor@ =~= start + placeholder_pieces((counter + 1) as nat));
                }
                counter += 1;
            }
            constructor.push_text(String::from_str(")"));
            proof {
                assert(start =~= seq![PieceView::Text(name@ + "::"@ + var_name@ + "("@)]);
                assert(fields_view(f@).len() == f@.len());
                assert(constructor@ =~= variant_renderer(name@, var_name@, fields@).template);
            }
        },
        FieldShape::Unit => {
            constructor.push_text(head);
            proof {
                assert(constructor@ =~= variant_renderer(name@, var_name@, fields@).template);
            }
        },
    }
    let mut new_idents: Vec<Symbol> = Vec::new();
    let kind = match fields {
        FieldShape::Named(f) => {
            let names = get_field_idents(f);
            let ghost view = fields_view(f@);
            let mut i: usize = 0;
            while i < names.len()
                invariant
                    i <= names.len(),
                    names@.len() == f@.len(),
                    view == fields_view(f@),
                    borrowed_opts_view(names@) == idents(view),
                    symbols_view(new_idents@) == bound_symbols(view, i as nat),
                decreases names.len() - i,
            {
                let ident = text_or_empty(names[i]);
                assert(ident@ == view[i as int].name()) by {
                    assert(borrowed_opts_view(names@)[i as int]
                        == idents(view)[i as int]);
                }
                push_symbol(&mut new_idents, Symbol::Bound(String::from_str(ident)));
                proof {
                    assert(symbols_view(new_idents@) =~= bound_symbols(view, (i + 1) as nat));
                }
                i += 1;
            }
            ShapeKind::Named
        },
        FieldShape::Positional(f) => {
            let mut counter: usize = 0;
            while counter < f.len()
                invariant
                    counter <= f.len(),
                    symbols_view(new_idents@) == placeholder_symbols(counter as nat),
                decreases f.len() - counter,
            {
                let new_ident = placeholder_ident(counter);
                push_symbol(&mut new_idents, Symbol::Bound(new_ident));
                proof {
                    assert(symbols_view(new_idents@) =~= placeholder_symbols(
                        (counter + 1) as nat,
                    ));
                }
                counter += 1;
            }
            proof {
                assert(fields_view(f@).len() == f@.len());
            }
            ShapeKind::Positional
        },
        FieldShape::Unit => {
            proof {
                assert(symbols_view(new_idents@) =~= Seq::<SymbolView>::empty());
            }
            ShapeKind::Unit
        },
    };
    proof {
        lemma_variant_renderer_wf(name@, var_name@, fields@);
    }
    Arm {
        variant: String::from_str(var_name),
        kind,
        renderer: Renderer { binders: new_idents, template: constructor },
    }
}

/// Generate the constructor of an overlay. It renders the value through the
/// member `ident` alone, whichever member was written last.
pub fn union_val_handler(vis: &str, name: &str, ident: &str) -> (r: Renderer)
    ensures
        r@ == overlay_renderer(vis@, name@, ident@),
        r@.wf(),
{
    let mut head = String::new();
    push_lead(&mut head, vis);
    head.append(name);
    head.append(" { ");
    head.append(ident);
    head.append(": ");
    assert(head@ =~= lead(vis@) + name@ + " { "@ + ident@ + ": "@);
    let mut template = Template::new();
    template.push_text(head);
    template.push_hole(Symbol::Member(String::from_str(ident)));
    template.push_text(String::from_str("}"));
    let mut binders: Vec<Symbol> = Vec::new();
    push_symbol(&mut binders, Symbol::Member(String::from_str(ident)));
    proof {
        assert(template@ =~= overlay_renderer(vis@, name@, ident@).template);
        assert(symbols_view(binders@) =~= overlay_renderer(vis@, name@, ident@).binders);
        lemma_overlay_renderer_wf(vis@, name@, ident@);
    }
    Renderer { binders, template }
}

} // verus!
