use flint_codegen::ast::{mangle, BinOp};
use flint_codegen::parser::operators::get_operator_precedence;
use flint_codegen::parser::utils::{whitespace, Span};

#[test]
fn precedence_orders_operator_classes() {
    let p = |op: BinOp| get_operator_precedence(&op);
    assert!(p(BinOp::Dot) > p(BinOp::Power));
    assert!(p(BinOp::Power) > p(BinOp::Times));
    assert_eq!(p(BinOp::Times), p(BinOp::Percent));
    assert!(p(BinOp::Times) > p(BinOp::Plus));
    assert_eq!(p(BinOp::Plus), p(BinOp::OverflowingMinus));
    assert!(p(BinOp::Plus) > p(BinOp::LessThan));
    assert!(p(BinOp::LessThan) > p(BinOp::And));
    assert!(p(BinOp::And) > p(BinOp::Or));
    assert!(p(BinOp::Or) > p(BinOp::Equal));
    assert_eq!(p(BinOp::Equal), p(BinOp::DivideEqual));
}

#[test]
fn mangling_keeps_names_apart() {
    assert_eq!(mangle("count"), "_count");
    assert_ne!(mangle("a"), mangle("_a"));
}

#[test]
fn skipping_whitespace_twice_skips_nothing_more() {
    let (once, _) = whitespace(Span::new("  // c\n  x y"));
    let offset = once.offset;
    let (twice, _) = whitespace(once);
    assert_eq!(twice.offset, offset);
    assert_eq!(twice.fragment(), "x y");
}
