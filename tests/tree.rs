use maud_ast::ast::{Attr, AttrType, Block, ElementBody, Markup, MatchArm, NamedAttr, Special, Toggler};
use maud_ast::span::SpanRange;
use maud_ast::tokens::{Token, TokenRun};

fn src(start: usize, end: usize) -> SpanRange {
    SpanRange::Source { start, end }
}

fn run(tokens: &[(&str, usize, usize)]) -> TokenRun {
    TokenRun {
        tokens: tokens
            .iter()
            .map(|&(text, start, end)| Token { text: text.to_string(), span: src(start, end) })
            .collect(),
    }
}

fn symbol(text: &str, start: usize, end: usize) -> Markup {
    Markup::Symbol { symbol: run(&[(text, start, end)]) }
}

fn encloses(outer: SpanRange, inner: SpanRange) -> bool {
    match (outer, inner) {
        (_, SpanRange::CallSite) => true,
        (SpanRange::Source { start: s1, end: e1 }, SpanRange::Source { start: s2, end: e2 }) => {
            s1 <= s2 && e2 <= e1
        }
        _ => false,
    }
}

// `div .foo #bar =>`: the element keeps its attributes, and a parse error
// stands for the malformed one.
#[test]
fn malformed_attribute_becomes_parse_error() {
    let error = Markup::ParseError { span: src(14, 16) };
    let element = Markup::Element {
        name: run(&[("div", 0, 3)]),
        attrs: vec![
            Attr::Class { dot_span: src(4, 5), name: symbol("foo", 5, 8), toggler: None },
            Attr::Id { hash_span: src(9, 10), name: symbol("bar", 10, 13) },
            Attr::Id { hash_span: SpanRange::CallSite, name: error },
        ],
        body: ElementBody::Void { semi_span: src(16, 16) },
    };
    let Markup::Element { attrs, .. } = &element else { panic!("not an element") };
    let error_span = attrs[2].span();
    assert_eq!(error_span, src(14, 16));
    assert_eq!(element.span(), src(0, 16));
    assert_ne!(error_span, element.span());
    assert!(encloses(element.span(), error_span));
    assert_eq!(attrs[0].span(), src(4, 8));
    assert_eq!(attrs[1].span(), src(9, 13));
}

// `{ "a" "b" }`: the block's span covers both braces.
#[test]
fn block_span_covers_braces() {
    let block = Block {
        markups: vec![
            Markup::Literal { content: "a".to_string(), span: src(2, 5) },
            Markup::Literal { content: "b".to_string(), span: src(6, 9) },
        ],
        outer_span: src(0, 11),
    };
    let children = block.markups[0].span().join_range(block.markups[1].span());
    assert_eq!(children, src(2, 9));
    assert_eq!(block.span(), src(0, 11));
    let markup = Markup::Block(block);
    assert_eq!(markup.span(), src(0, 11));
    assert_ne!(markup.span(), children);
}

// `.foo[cond]`: the class's span runs from the dot to the closing bracket.
#[test]
fn toggler_extends_class_span() {
    let plain = Attr::Class { dot_span: src(0, 1), name: symbol("foo", 1, 4), toggler: None };
    let toggled = Attr::Class {
        dot_span: src(0, 1),
        name: symbol("foo", 1, 4),
        toggler: Some(Toggler { cond: run(&[("cond", 5, 9)]), cond_span: src(4, 10) }),
    };
    assert_eq!(plain.span(), src(0, 4));
    assert_eq!(toggled.span(), src(0, 10));
    assert!(encloses(toggled.span(), plain.span()));
    assert_ne!(toggled.span(), plain.span());
}

#[test]
fn empty_attr_type_without_toggler_has_no_span() {
    assert_eq!(AttrType::Empty { toggler: None }.span(), None);
}

#[test]
fn other_attr_types_have_a_span() {
    let toggler = || Toggler { cond: run(&[("x", 3, 4)]), cond_span: src(2, 5) };
    assert_eq!(AttrType::Empty { toggler: Some(toggler()) }.span(), Some(src(2, 5)));
    assert_eq!(AttrType::Optional { toggler: toggler() }.span(), Some(src(2, 5)));
    assert_eq!(AttrType::Event { ty: run(&[("Click", 7, 12)]) }.span(), Some(src(7, 12)));
    assert_eq!(
        AttrType::Normal { value: Markup::Literal { content: "v".to_string(), span: src(6, 9) } }
            .span(),
        Some(src(6, 9))
    );
}

#[test]
fn named_attr_without_value_span_is_its_name() {
    let named = NamedAttr {
        name: run(&[("checked", 10, 17)]),
        attr_type: AttrType::Empty { toggler: None },
    };
    assert_eq!(named.span(), src(10, 17));
    let attr = Attr::Named { named_attr: named };
    assert_eq!(attr.span(), src(10, 17));
    let value = Attr::Value {
        name: run(&[("checked", 10, 17)]),
        attr_type: AttrType::Empty { toggler: None },
    };
    assert_eq!(value.span(), src(10, 17));
}

#[test]
fn named_attr_with_value_joins_name_and_value() {
    let named = NamedAttr {
        name: run(&[("title", 0, 5)]),
        attr_type: AttrType::Normal {
            value: Markup::Literal { content: "t".to_string(), span: src(6, 9) },
        },
    };
    assert_eq!(named.span(), src(0, 9));
}

#[test]
fn event_attr_joins_name_and_type() {
    let attr = Attr::Event { name: run(&[("on", 0, 2), ("click", 2, 7)]), ty: run(&[("Msg", 8, 11)]) };
    assert_eq!(attr.span(), src(0, 11));
}

#[test]
fn element_with_block_body_spans_name_to_closing_brace() {
    let element = Markup::Element {
        name: run(&[("p", 0, 1)]),
        attrs: Vec::new(),
        body: ElementBody::Block {
            block: Block {
                markups: vec![Markup::Literal { content: "x".to_string(), span: src(4, 7) }],
                outer_span: src(2, 9),
            },
        },
    };
    assert_eq!(element.span(), src(0, 9));
}

#[test]
fn special_chain_spans_first_keyword_to_last_body() {
    let segment = |at: usize, body_start: usize, body_end: usize| Special {
        at_span: src(at, at + 1),
        head: run(&[("if", at + 1, at + 3)]),
        body: Block { markups: Vec::new(), outer_span: src(body_start, body_end) },
    };
    let first = segment(0, 10, 20);
    assert_eq!(first.span(), src(0, 20));
    let chain = Markup::Special { segments: vec![first, segment(21, 30, 40), segment(41, 50, 60)] };
    assert_eq!(chain.span(), src(0, 60));
    let Markup::Special { segments } = &chain else { panic!("not a chain") };
    assert!(encloses(chain.span(), segments[1].span()));
    assert_eq!(Markup::Special { segments: Vec::new() }.span(), SpanRange::CallSite);
}

#[test]
fn match_spans_keyword_to_arms() {
    let markup = Markup::Match {
        at_span: src(0, 1),
        head: run(&[("match", 1, 6), ("x", 7, 8)]),
        arms: vec![MatchArm {
            head: run(&[("_", 11, 12)]),
            body: Block { markups: Vec::new(), outer_span: src(16, 18) },
        }],
        arms_span: src(9, 20),
    };
    assert_eq!(markup.span(), src(0, 20));
}

#[test]
fn token_run_variants_use_their_run() {
    assert_eq!(symbol("nbsp", 3, 7).span(), src(3, 7));
    assert_eq!(Markup::Patrial { body: run(&[("a", 1, 2), ("b", 5, 6)]) }.span(), src(1, 6));
    assert_eq!(Markup::Builder { tokens: run(&[("c", 8, 9)]) }.span(), src(8, 9));
    assert_eq!(Markup::Builder { tokens: run(&[]) }.span(), SpanRange::CallSite);
}

#[test]
fn captured_spans_are_returned_as_recorded() {
    assert_eq!(Markup::ParseError { span: SpanRange::CallSite }.span(), SpanRange::CallSite);
    assert_eq!(
        Markup::Splice { expr: run(&[("x", 1, 2)]), outer_span: src(0, 3) }.span(),
        src(0, 3)
    );
    assert_eq!(Markup::Literal { content: "hi".to_string(), span: src(4, 8) }.span(), src(4, 8));
}

#[test]
fn let_joins_keyword_and_binding() {
    let markup = Markup::Let { at_span: src(0, 1), tokens: run(&[("let", 1, 4), ("x", 5, 6)]) };
    assert_eq!(markup.span(), src(0, 6));
}

#[test]
fn id_attr_joins_hash_and_name() {
    let attr = Attr::Id { hash_span: src(3, 4), name: symbol("main", 4, 8) };
    assert_eq!(attr.span(), src(3, 8));
}
