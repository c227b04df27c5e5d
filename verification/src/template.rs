//! Templates: literal text with holes, and the bindings that fill them.
//!
//! A hole names a symbol. When text is produced each hole is replaced by the
//! text that the first binding of its symbol carries.

use vstd::prelude::*;

verus! {

/// What a hole stands for.
#[derive(Debug)]
pub enum Symbol {
    /// The type name that the element type behind this reference reports.
    Type(String),
    /// The value of the named member of the instance.
    Member(String),
    /// The value of the positional member at this declaration position.
    Index(usize),
    /// The value bound to this identifier by the pattern of a variant arm.
    Bound(String),
}

/// What a symbol holds.
pub enum SymbolView {
    Type(Seq<char>),
    Member(Seq<char>),
    Index(int),
    Bound(Seq<char>),
}

impl View for Symbol {
    type V = SymbolView;

    open spec fn view(&self) -> SymbolView {
        match self {
            Symbol::Type(s) => SymbolView::Type(s@),
            Symbol::Member(s) => SymbolView::Member(s@),
            Symbol::Index(i) => SymbolView::Index(*i as int),
            Symbol::Bound(s) => SymbolView::Bound(s@),
        }
    }
}

/// The views of a list of symbols, in order.
pub open spec fn symbols_view(symbols: Seq<Symbol>) -> Seq<SymbolView> {
    symbols.map_values(|s: Symbol| s@)
}

/// One piece of a template.
#[derive(Debug)]
pub enum Piece {
    Text(String),
    Hole(Symbol),
}

/// What a piece holds.
pub enum PieceView {
    Text(Seq<char>),
    Hole(SymbolView),
}

impl View for Piece {
    type V = PieceView;

    open spec fn view(&self) -> PieceView {
        match self {
            Piece::Text(s) => PieceView::Text(s@),
            Piece::Hole(s) => PieceView::Hole(s@),
        }
    }
}

/// The views of a list of pieces, in order.
pub open spec fn pieces_view(pieces: Seq<Piece>) -> Seq<PieceView> {
    pieces.map_values(|p: Piece| p@)
}

/// A sequence of pieces. Its view is the sequence of their views.
#[derive(Debug)]
pub struct Template {
    pub pieces: Vec<Piece>,
}

impl View for Template {
    type V = Seq<PieceView>;

    open spec fn view(&self) -> Seq<PieceView> {
        pieces_view(self.pieces@)
    }
}

/// The text that stands in for one symbol.
#[derive(Debug)]
pub struct Binding {
    pub symbol: Symbol,
    pub text: String,
}

/// What a binding holds.
pub struct BindingView {
    pub symbol: SymbolView,
    pub text: Seq<char>,
}

impl View for Binding {
    type V = BindingView;

    open spec fn view(&self) -> BindingView {
        BindingView { symbol: self.symbol@, text: self.text@ }
    }
}

/// The views of a list of bindings, in order.
pub open spec fn bindings_view(bindings: Seq<Binding>) -> Seq<BindingView> {
    bindings.map_values(|b: Binding| b@)
}

/// The views of a list of texts, in order.
pub open spec fn texts_view(texts: Seq<String>) -> Seq<Seq<char>> {
    texts.map_values(|s: String| s@)
}

/// `i` is the position of the first binding of `symbol`.
pub open spec fn is_first_binding(env: Seq<BindingView>, symbol: SymbolView, i: int) -> bool {
    &&& 0 <= i < env.len()
    &&& env[i].symbol == symbol
    &&& forall|j: int| 0 <= j < i ==> (#[trigger] env[j]).symbol != symbol
}

/// The text of the first binding of `symbol`, if it is bound at all.
pub open spec fn lookup(env: Seq<BindingView>, symbol: SymbolView) -> Option<Seq<char>> {
    if exists|i: int| is_first_binding(env, symbol, i) {
        Some(env[choose|i: int| is_first_binding(env, symbol, i)].text)
    } else {
        None
    }
}

/// Every hole of the template is bound.
pub open spec fn resolved(template: Seq<PieceView>, env: Seq<BindingView>) -> bool {
    forall|i: int|
        0 <= i < template.len() ==> (#[trigger] template[i] matches PieceView::Hole(s) ==> lookup(
            env,
            s,
        ) is Some)
}

/// What one piece contributes: its own text, or the text bound to its symbol.
pub open spec fn piece_text(piece: PieceView, env: Seq<BindingView>) -> Seq<char> {
    match piece {
        PieceView::Text(t) => t,
        PieceView::Hole(s) => match lookup(env, s) {
            Some(t) => t,
            None => Seq::empty(),
        },
    }
}

/// The text of a template under bindings: the pieces' texts, in order.
pub open spec fn render(template: Seq<PieceView>, env: Seq<BindingView>) -> Seq<char>
    decreases template.len(),
{
    if template.len() == 0 {
        Seq::empty()
    } else {
        render(template.drop_last(), env) + piece_text(template.last(), env)
    }
}

/// The symbols of the template's holes, in order.
pub open spec fn holes(template: Seq<PieceView>) -> Seq<SymbolView>
    decreases template.len(),
{
    if template.len() == 0 {
        Seq::empty()
    } else {
        match template.last() {
            PieceView::Text(_) => holes(template.drop_last()),
            PieceView::Hole(s) => holes(template.drop_last()).push(s),
        }
    }
}

/// Each symbol bound to the text at its own position.
pub open spec fn bind(symbols: Seq<SymbolView>, texts: Seq<Seq<char>>) -> Seq<BindingView> {
    Seq::new(symbols.len(), |i: int| BindingView { symbol: symbols[i], text: texts[i] })
}

/// No symbol occurs twice.
pub open spec fn distinct(symbols: Seq<SymbolView>) -> bool {
    forall|i: int, j: int| 0 <= i < j < symbols.len() ==> symbols[i] != symbols[j]
}

/// The first binding of a symbol decides what is looked up.
pub proof fn lemma_lookup_first(env: Seq<BindingView>, symbol: SymbolView, i: int)
    requires
        is_first_binding(env, symbol, i),
    ensures
        lookup(env, symbol) == Some(env[i].text),
{
    let c = choose|k: int| is_first_binding(env, symbol, k);
    assert(is_first_binding(env, symbol, c));
    if c < i {
        assert(env[c].symbol != symbol);
    }
    if i < c {
        assert(env[i].symbol != symbol);
    }
}

/// A symbol that no binding carries is not found.
pub proof fn lemma_lookup_unbound(env: Seq<BindingView>, symbol: SymbolView)
    requires
        forall|j: int| 0 <= j < env.len() ==> (#[trigger] env[j]).symbol != symbol,
    ensures
        lookup(env, symbol) is None,
{
    if exists|i: int| is_first_binding(env, symbol, i) {
        let c = choose|k: int| is_first_binding(env, symbol, k);
        assert(env[c].symbol != symbol);
    }
}

/// Among distinct symbols, each one finds the text at its own position.
pub proof fn lemma_lookup_own(symbols: Seq<SymbolView>, texts: Seq<Seq<char>>, k: int)
    requires
        distinct(symbols),
        0 <= k < symbols.len(),
    ensures
        lookup(bind(symbols, texts), symbols[k]) == Some(texts[k]),
{
    let env = bind(symbols, texts);
    assert forall|j: int| 0 <= j < k implies (#[trigger] env[j]).symbol != symbols[k] by {
        assert(symbols[j] != symbols[k]);
    }
    assert(is_first_binding(env, symbols[k], k));
    lemma_lookup_first(env, symbols[k], k);
}

/// Rendering distributes over concatenation.
pub proof fn lemma_render_concat(a: Seq<PieceView>, b: Seq<PieceView>, env: Seq<BindingView>)
    ensures
        render(a + b, env) == render(a, env) + render(b, env),
    decreases b.len(),
{
    if b.len() == 0 {
        assert(a + b =~= a);
        assert(render(a, env) + render(b, env) =~= render(a, env));
    } else {
        assert((a + b).drop_last() =~= a + b.drop_last());
        assert((a + b).last() == b.last());
        lemma_render_concat(a, b.drop_last(), env);
        assert(render(a + b, env) =~= render(a, env) + render(b, env));
    }
}

/// A template without pieces renders as nothing.
pub proof fn lemma_render_empty(env: Seq<BindingView>)
    ensures
        render(Seq::<PieceView>::empty(), env) == Seq::<char>::empty(),
{
}

/// A single piece renders as its own text.
pub proof fn lemma_render_single(piece: PieceView, env: Seq<BindingView>)
    ensures
        render(seq![piece], env) == piece_text(piece, env),
{
    let t = seq![piece];
    assert(t.drop_last() =~= Seq::<PieceView>::empty());
    assert(t.last() == piece);
    lemma_render_empty(env);
    assert(Seq::<char>::empty() + piece_text(piece, env) =~= piece_text(piece, env));
}

/// Two pieces render as their texts, one behind the other.
pub proof fn lemma_render_pair(a: PieceView, b: PieceView, env: Seq<BindingView>)
    ensures
        render(seq![a, b], env) == piece_text(a, env) + piece_text(b, env),
{
    lemma_render_single(a, env);
    lemma_render_single(b, env);
    lemma_render_concat(seq![a], seq![b], env);
    assert(seq![a] + seq![b] =~= seq![a, b]);
}

/// Three pieces render as their texts, one behind the other.
pub proof fn lemma_render_triple(a: PieceView, b: PieceView, c: PieceView, env: Seq<BindingView>)
    ensures
        render(seq![a, b, c], env) == piece_text(a, env) + piece_text(b, env) + piece_text(c, env),
{
    lemma_render_pair(a, b, env);
    lemma_render_single(c, env);
    lemma_render_concat(seq![a, b], seq![c], env);
    assert(seq![a, b] + seq![c] =~= seq![a, b, c]);
}

/// Pieces between two texts render as the first text, the pieces' text and
/// the last text.
pub proof fn lemma_render_framed(
    head: Seq<char>,
    body: Seq<PieceView>,
    tail: Seq<char>,
    env: Seq<BindingView>,
)
    ensures
        render(seq![PieceView::Text(head)] + body + seq![PieceView::Text(tail)], env) == head
            + render(body, env) + tail,
{
    lemma_render_single(PieceView::Text(head), env);
    lemma_render_single(PieceView::Text(tail), env);
    lemma_render_concat(seq![PieceView::Text(head)], body, env);
    lemma_render_concat(seq![PieceView::Text(head)] + body, seq![PieceView::Text(tail)], env);
}

/// The holes of a concatenation are the holes of its parts, in order.
pub proof fn lemma_holes_concat(a: Seq<PieceView>, b: Seq<PieceView>)
    ensures
        holes(a + b) == holes(a) + holes(b),
    decreases b.len(),
{
    if b.len() == 0 {
        assert(a + b =~= a);
        assert(holes(a) + holes(b) =~= holes(a));
    } else {
        assert((a + b).drop_last() =~= a + b.drop_last());
        assert((a + b).last() == b.last());
        lemma_holes_concat(a, b.drop_last());
        assert(holes(a + b) =~= holes(a) + holes(b));
    }
}

/// A symbol that some binding carries is found.
pub proof fn lemma_lookup_bound(env: Seq<BindingView>, symbol: SymbolView, j: int)
    requires
        0 <= j < env.len(),
        env[j].symbol == symbol,
    ensures
        lookup(env, symbol) is Some,
    decreases j,
{
    if exists|i: int| 0 <= i < j && (#[trigger] env[i]).symbol == symbol {
        let i = choose|i: int| 0 <= i < j && (#[trigger] env[i]).symbol == symbol;
        lemma_lookup_bound(env, symbol, i);
    } else {
        assert(is_first_binding(env, symbol, j));
    }
}

/// The symbol of each hole is listed among the template's holes.
pub proof fn lemma_hole_listed(template: Seq<PieceView>, i: int)
    requires
        0 <= i < template.len(),
        template[i] is Hole,
    ensures
        holes(template).contains(template[i]->Hole_0),
    decreases template.len(),
{
    let rest = template.drop_last();
    if i == template.len() - 1 {
        let listed = holes(rest).push(template[i]->Hole_0);
        assert(listed[listed.len() - 1] == template[i]->Hole_0);
    } else {
        lemma_hole_listed(rest, i);
        let k = choose|k: int| 0 <= k < holes(rest).len() && holes(rest)[k] == rest[i]->Hole_0;
        match template.last() {
            PieceView::Text(_) => {},
            PieceView::Hole(s) => {
                assert(holes(rest).push(s)[k] == rest[i]->Hole_0);
            },
        }
    }
}

/// A template whose holes are the bound symbols is resolved by any texts
/// bound to them.
pub proof fn lemma_bound_resolved(
    template: Seq<PieceView>,
    symbols: Seq<SymbolView>,
    texts: Seq<Seq<char>>,
)
    requires
        holes(template) == symbols,
    ensures
        resolved(template, bind(symbols, texts)),
{
    let env = bind(symbols, texts);
    assert forall|i: int| 0 <= i < template.len() implies (#[trigger] template[i]
        matches PieceView::Hole(s) ==> lookup(env, s) is Some) by {
        if template[i] is Hole {
            lemma_hole_listed(template, i);
            let s = template[i]->Hole_0;
            let k = choose|k: int| 0 <= k < symbols.len() && symbols[k] == s;
            assert(env[k].symbol == s);
            lemma_lookup_bound(env, s, k);
        }
    }
}

impl Symbol {
    /// Whether two symbols are the same one.
    pub fn same(&self, other: &Symbol) -> (b: bool)
        ensures
            b == (self@ == other@),
    {
        match (self, other) {
            (Symbol::Type(a), Symbol::Type(b)) => *a == *b,
            (Symbol::Member(a), Symbol::Member(b)) => *a == *b,
            (Symbol::Index(a), Symbol::Index(b)) => *a == *b,
            (Symbol::Bound(a), Symbol::Bound(b)) => *a == *b,
            _ => false,
        }
    }

    /// A copy of the symbol.
    pub fn duplicate(&self) -> (s: Symbol)
        ensures
            s@ == self@,
    {
        match self {
            Symbol::Type(a) => Symbol::Type(a.clone()),
            Symbol::Member(a) => Symbol::Member(a.clone()),
            Symbol::Index(a) => Symbol::Index(*a),
            Symbol::Bound(a) => Symbol::Bound(a.clone()),
        }
    }
}

impl Template {
    /// The empty template.
    pub fn new() -> (t: Template)
        ensures
            t@ == Seq::<PieceView>::empty(),
    {
        let t = Template { pieces: Vec::new() };
        assert(t@ =~= Seq::<PieceView>::empty());
        t
    }

    /// Appends literal text.
    pub fn push_text(&mut self, text: String)
        ensures
            final(self)@ == old(self)@.push(PieceView::Text(text@)),
    {
        self.pieces.push(Piece::Text(text));
        assert(self@ =~= old(self)@.push(PieceView::Text(text@)));
    }

    /// Appends a hole for `symbol`.
    pub fn push_hole(&mut self, symbol: Symbol)
        ensures
            final(self)@ == old(self)@.push(PieceView::Hole(symbol@)),
    {
        self.pieces.push(Piece::Hole(symbol));
        assert(self@ =~= old(self)@.push(PieceView::Hole(symbol@)));
    }

    /// Appends all pieces of `other`, in order.
    pub fn extend(&mut self, other: Template)
        ensures
            final(self)@ == old(self)@ + other@,
    {
        let mut other = other;
        let ghost added = other@;
        self.pieces.append(&mut other.pieces);
        assert(self@ =~= old(self)@ + added);
    }

    /// Whether every hole of the template is bound in `env`.
    pub fn resolved_by(&self, env: &Vec<Binding>) -> (b: bool)
        ensures
            b == resolved(self@, bindings_view(env@)),
    {
        let mut i: usize = 0;
        while i < self.pieces.len()
            invariant
                i <= self.pieces.len(),
                forall|k: int|
                    0 <= k < i ==> (#[trigger] self@[k] matches PieceView::Hole(s) ==> lookup(
                        bindings_view(env@),
                        s,
                    ) is Some),
            decreases self.pieces.len() - i,
        {
            match &self.pieces[i] {
                Piece::Text(_) => {},
                Piece::Hole(symbol) => {
                    if find(env, symbol).is_none() {
                        assert(self@[i as int] == PieceView::Hole(symbol@));
                        return false;
                    }
                },
            }
            i += 1;
        }
        true
    }

    /// Produces the template's text: each hole replaced by the text bound to
    /// its symbol.
    pub fn render(&self, env: &Vec<Binding>) -> (text: String)
        requires
            resolved(self@, bindings_view(env@)),
        ensures
            text@ == render(self@, bindings_view(env@)),
    {
        let ghost bound = bindings_view(env@);
        let mut text = String::new();
        let mut i: usize = 0;
        while i < self.pieces.len()
            invariant
                i <= self.pieces.len(),
                bound == bindings_view(env@),
                resolved(self@, bound),
                text@ == render(self@.take(i as int), bound),
            decreases self.pieces.len() - i,
        {
            proof {
                assert(self@.take(i + 1).drop_last() =~= self@.take(i as int));
                assert(self@.take(i + 1).last() == self@[i as int]);
            }
            match &self.pieces[i] {
                Piece::Text(t) => {
                    text.append(t.as_str());
                },
                Piece::Hole(symbol) => {
                    assert(self@[i as int] == PieceView::Hole(symbol@));
                    let k = find(env, symbol).unwrap();
                    text.append(env[k].text.as_str());
                },
            }
            i += 1;
        }
        assert(self@.take(i as int) =~= self@);
        text
    }
}

/// The position of the first binding of `symbol`.
pub fn find(env: &Vec<Binding>, symbol: &Symbol) -> (r: Option<usize>)
    ensures
        match r {
            Some(i) => is_first_binding(bindings_view(env@), symbol@, i as int) && lookup(
                bindings_view(env@),
                symbol@,
            ) == Some(env@[i as int].text@),
            None => lookup(bindings_view(env@), symbol@) is None,
        },
{
    let ghost bound = bindings_view(env@);
    let mut i: usize = 0;
    while i < env.len()
        invariant
            i <= env.len(),
            bound == bindings_view(env@),
            forall|j: int| 0 <= j < i ==> (#[trigger] bound[j]).symbol != symbol@,
        decreases env.len() - i,
    {
        if env[i].symbol.same(symbol) {
            proof {
                assert(bound[i as int].symbol == symbol@);
                lemma_lookup_first(bound, symbol@, i as int);
            }
            return Some(i);
        }
        i += 1;
    }
    proof {
        lemma_lookup_unbound(bound, symbol@);
    }
    None
}

/// Appends a symbol to a list of symbols.
pub fn push_symbol(symbols: &mut Vec<Symbol>, symbol: Symbol)
    ensures
        symbols_view(final(symbols)@) == symbols_view(old(symbols)@).push(symbol@),
{
    symbols.push(symbol);
    assert(symbols_view(symbols@) =~= symbols_view(old(symbols)@).push(symbol@));
}

/// A template without pieces has no holes.
pub proof fn lemma_holes_empty()
    ensures
        holes(Seq::<PieceView>::empty()) == Seq::<SymbolView>::empty(),
{
}

/// The holes of a single piece.
pub proof fn lemma_holes_single(piece: PieceView)
    ensures
        holes(seq![piece]) == match piece {
            PieceView::Text(_) => Seq::<SymbolView>::empty(),
            PieceView::Hole(s) => seq![s],
        },
{
    let t = seq![piece];
    assert(t.drop_last() =~= Seq::<PieceView>::empty());
    assert(t.last() == piece);
    lemma_holes_empty();
    match piece {
        PieceView::Text(_) => {},
        PieceView::Hole(s) => {
            assert(Seq::<SymbolView>::empty().push(s) =~= seq![s]);
        },
    }
}

/// The holes of three pieces of which only the middle one is a hole.
pub proof fn lemma_line_holes(a: PieceView, b: PieceView, c: PieceView)
    requires
        a is Text,
        b is Hole,
        c is Text,
    ensures
        holes(seq![a, b, c]) == seq![b->Hole_0],
{
    lemma_holes_single(a);
    lemma_holes_single(b);
    lemma_holes_single(c);
    lemma_holes_concat(seq![a], seq![b]);
    lemma_holes_concat(seq![a] + seq![b], seq![c]);
    assert(seq![a] + seq![b] + seq![c] =~= seq![a, b, c]);
    assert(holes(seq![a]) + holes(seq![b]) + holes(seq![c]) =~= seq![b->Hole_0]);
}

/// The holes of a hole followed by text.
pub proof fn lemma_pair_holes(a: PieceView, b: PieceView)
    requires
        a is Hole,
        b is Text,
    ensures
        holes(seq![a, b]) == seq![a->Hole_0],
{
    lemma_holes_single(a);
    lemma_holes_single(b);
    lemma_holes_concat(seq![a], seq![b]);
    assert(seq![a] + seq![b] =~= seq![a, b]);
    assert(holes(seq![a]) + holes(seq![b]) =~= seq![a->Hole_0]);
}

/// The holes of pieces between two texts are the holes of the pieces.
pub proof fn lemma_framed_holes(head: PieceView, body: Seq<PieceView>, tail: PieceView)
    requires
        head is Text,
        tail is Text,
    ensures
        holes(seq![head] + body + seq![tail]) == holes(body),
{
    lemma_holes_concat(seq![head] + body, seq![tail]);
    lemma_holes_concat(seq![head], body);
    lemma_holes_single(head);
    lemma_holes_single(tail);
    assert(holes(seq![head] + body + seq![tail]) =~= holes(body));
}

/// Binds each symbol to the text at its own position.
pub fn bind_all(symbols: &Vec<Symbol>, texts: &Vec<String>) -> (env: Vec<Binding>)
    requires
        symbols@.len() == texts@.len(),
    ensures
        bindings_view(env@) == bind(symbols_view(symbols@), texts_view(texts@)),
{
    let mut env: Vec<Binding> = Vec::new();
    let mut i: usize = 0;
    while i < symbols.len()
        invariant
            i <= symbols.len(),
            symbols@.len() == texts@.len(),
            env@.len() == i,
            forall|k: int|
                0 <= k < i ==> (#[trigger] env@[k])@ == (BindingView {
                    symbol: symbols@[k]@,
                    text: texts@[k]@,
                }),
        decreases symbols.len() - i,
    {
        env.push(Binding { symbol: symbols[i].duplicate(), text: texts[i].clone() });
        i += 1;
    }
    assert(bindings_view(env@) =~= bind(symbols_view(symbols@), texts_view(texts@)));
    env
}

} // verus!
