use const_gen_derive::template::{bind_all, find, push_symbol, Binding, Piece, Symbol, Template};
use const_gen_derive::text::{decimal_text, push_lead, text_or_empty};

fn bound(name: &str, text: &str) -> Binding {
    Binding { symbol: Symbol::Bound(String::from(name)), text: String::from(text) }
}

#[test]
fn decimal_of_small_and_large_numbers() {
    assert_eq!(decimal_text(0), "0");
    assert_eq!(decimal_text(7), "7");
    assert_eq!(decimal_text(10), "10");
    assert_eq!(decimal_text(109), "109");
    assert_eq!(decimal_text(12345), "12345");
    assert_eq!(decimal_text(usize::MAX), format!("{}", usize::MAX));
}

#[test]
fn lead_of_an_empty_prefix_is_empty() {
    let mut out = String::from("x");
    push_lead(&mut out, "");
    assert_eq!(out, "x");
    push_lead(&mut out, "pub");
    assert_eq!(out, "xpub ");
}

#[test]
fn absent_text_is_empty() {
    assert_eq!(text_or_empty(&None), "");
    assert_eq!(text_or_empty(&Some(String::from("a"))), "a");
    assert_eq!(text_or_empty(&Some(String::new())), "");
}

#[test]
fn symbols_are_compared_by_kind_and_content() {
    let a = Symbol::Member(String::from("x"));
    assert!(a.same(&Symbol::Member(String::from("x"))));
    assert!(!a.same(&Symbol::Bound(String::from("x"))));
    assert!(!a.same(&Symbol::Type(String::from("x"))));
    assert!(!a.same(&Symbol::Member(String::from("y"))));
    assert!(Symbol::Index(3).same(&Symbol::Index(3)));
    assert!(!Symbol::Index(3).same(&Symbol::Index(4)));
    assert!(a.duplicate().same(&a));
    assert!(Symbol::Index(9).duplicate().same(&Symbol::Index(9)));
}

#[test]
fn the_first_binding_of_a_symbol_wins() {
    let env = vec![bound("a", "1"), bound("b", "2"), bound("a", "3")];
    assert_eq!(find(&env, &Symbol::Bound(String::from("a"))), Some(0));
    assert_eq!(find(&env, &Symbol::Bound(String::from("b"))), Some(1));
    assert_eq!(find(&env, &Symbol::Bound(String::from("c"))), None);
    assert_eq!(find(&env, &Symbol::Member(String::from("a"))), None);
    let mut t = Template::new();
    t.push_hole(Symbol::Bound(String::from("a")));
    assert_eq!(t.render(&env), "1");
}

#[test]
fn template_renders_its_pieces_in_order() {
    let mut t = Template::new();
    assert_eq!(t.render(&Vec::new()), "");
    t.push_text(String::from("<"));
    t.push_hole(Symbol::Bound(String::from("b")));
    t.push_text(String::from("|"));
    t.push_hole(Symbol::Bound(String::from("a")));
    let mut tail = Template::new();
    tail.push_text(String::from(">"));
    tail.push_hole(Symbol::Bound(String::from("b")));
    t.extend(tail);
    assert_eq!(t.pieces.len(), 6);
    let env = vec![bound("a", "1"), bound("b", "2")];
    assert!(t.resolved_by(&env));
    assert_eq!(t.render(&env), "<2|1>2");
}

#[test]
fn template_with_an_unbound_hole_is_not_resolved() {
    let mut t = Template::new();
    t.push_text(String::from("x"));
    assert!(t.resolved_by(&Vec::new()));
    t.push_hole(Symbol::Type(String::from("T")));
    assert!(!t.resolved_by(&Vec::new()));
    assert!(!t.resolved_by(&vec![bound("T", "u8")]));
    let types = vec![Binding { symbol: Symbol::Type(String::from("T")), text: String::from("u8") }];
    assert!(t.resolved_by(&types));
}

#[test]
fn bind_all_pairs_symbols_and_texts_by_position() {
    let mut symbols = Vec::new();
    push_symbol(&mut symbols, Symbol::Index(0));
    push_symbol(&mut symbols, Symbol::Index(1));
    let env = bind_all(&symbols, &vec![String::from("x"), String::from("y")]);
    assert_eq!(env.len(), 2);
    assert!(env[0].symbol.same(&Symbol::Index(0)));
    assert_eq!(env[0].text, "x");
    assert!(env[1].symbol.same(&Symbol::Index(1)));
    assert_eq!(env[1].text, "y");
    match &env[1].symbol {
        Symbol::Index(i) => assert_eq!(*i, 1),
        _ => panic!("a position was bound"),
    }
    let t = Template { pieces: vec![Piece::Hole(Symbol::Index(1)), Piece::Hole(Symbol::Index(0))] };
    assert_eq!(t.render(&env), "yx");
}
