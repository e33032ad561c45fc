use tagless::expr::{tagless_ast, Display, Eval, Interp};
use tagless::text::int_to_text;

#[test]
fn eval_sample_is_eleven() {
    assert_eq!(tagless_ast::<Eval>().0, 11);
}

#[test]
fn eval_builders() {
    assert_eq!(Eval::add(Eval::integer(40), Eval::integer(2)), 42);
    assert_eq!(Eval::if_stmt(Eval::bool(true), 1, 2), 1);
    assert_eq!(Eval::if_stmt(false, 1, 2), 2);
    assert!(!Eval::if_bool(true, false, true));
    assert_eq!(Eval::ast(Eval::integer(-5)).0, -5);
}

#[test]
fn display_sample() {
    assert_eq!(
        tagless_ast::<Display>(),
        "if (if (false) then { false } else { true }) then { (10) + (1) } else { -1 }"
    );
}

#[test]
fn display_builders() {
    assert_eq!(Display::bool(true), "true");
    assert_eq!(Display::integer(0), "0");
    assert_eq!(Display::integer(-2147483648), "-2147483648");
    assert_eq!(Display::integer(2147483647), "2147483647");
    assert_eq!(
        Display::add(Display::integer(3), Display::integer(-4)),
        "(3) + (-4)"
    );
    assert_eq!(
        Display::if_bool(Display::bool(true), Display::bool(false), Display::bool(true)),
        "if (true) then { false } else { true }"
    );
}

#[test]
fn decimal_text() {
    assert_eq!(int_to_text(1203), "1203");
    assert_eq!(int_to_text(-90), "-90");
    assert_eq!(int_to_text(7), "7");
}
