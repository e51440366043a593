use sexp::Atom;
use sexp::Sexp;
use uire::ast::Expr;
use uire::parse::Datum;
use uire::parse::my_parse;
use uire::parse::parse_main;

#[test]
fn test_parse() {
    assert_eq!(
        sexp::parse("(+ 1 2)").unwrap(),
        Sexp::List(vec![
            Sexp::Atom(Atom::S("+".into())),
            Sexp::Atom(Atom::I(1)),
            Sexp::Atom(Atom::I(2)),
        ])
    );

    assert_eq!(parse_main("5".to_string()), Some(Expr::Num(5)));
    assert_eq!(parse_main("true".to_string()), Some(Expr::Bool(true)));
    assert_eq!(
        parse_main("x".to_string()),
        Some(Expr::Varref { name: String::from("x") })
    );

    // Compound forms are not handled and come out as the stub.
    assert_eq!(parse_main("(+ 1 2)".to_string()), Some(Expr::Num(-1)));
}

#[test]
fn parse_main_reads_atoms() {
    assert_eq!(parse_main("42".to_string()), Some(Expr::Num(42)));
    assert_eq!(parse_main("-3".to_string()), Some(Expr::Num(-3)));
    assert_eq!(parse_main("false".to_string()), Some(Expr::Bool(false)));
    assert_eq!(
        parse_main("foo".to_string()),
        Some(Expr::Varref { name: String::from("foo") })
    );
}

#[test]
fn parse_main_rejects_malformed_text() {
    assert_eq!(parse_main("(".to_string()), None);
    assert_eq!(parse_main("(a b".to_string()), None);
}

#[test]
fn parse_main_stubs_non_symbol_non_integer() {
    // A float atom is neither an integer nor a symbol.
    assert_eq!(parse_main("3.5".to_string()), Some(Expr::Num(-1)));
}

#[test]
fn my_parse_maps_data_to_expressions() {
    assert_eq!(my_parse(Datum::Int(7)), Expr::Num(7));
    assert_eq!(my_parse(Datum::Sym(String::from("true"))), Expr::Bool(true));
    assert_eq!(my_parse(Datum::Sym(String::from("false"))), Expr::Bool(false));
    assert_eq!(
        my_parse(Datum::Sym(String::from("truth"))),
        Expr::Varref { name: String::from("truth") }
    );
    assert_eq!(my_parse(Datum::Other), Expr::Num(-1));
}
