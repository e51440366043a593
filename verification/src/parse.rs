//! Textual input: from an s-expression string to an expression.
//!
//! Parsing proper is done by the `sexp` crate and is deliberately shallow
//! here: only integer atoms and symbol atoms become meaningful expressions;
//! compound forms are not handled and come out as the stub `Num(-1)`.  The
//! crate's parser is deterministic text processing, so its outcome is given
//! a name, `parsed_datum`, and everything after the call is verified against
//! that name.

use vstd::prelude::*;
use vstd::string::StringExecFns;

use crate::ast::Expr;
use crate::ast::SpecExpr;

verus! {

/// What the evaluator's front end reads out of one parsed s-expression: an
/// integer atom, a symbol atom, or anything else (a float atom or a list).
#[derive(Debug, PartialEq)]
pub enum Datum {
    Int(i64),
    Sym(String),
    Other,
}

/// The mathematical model of a datum.
pub ghost enum SpecDatum {
    Int(int),
    Sym(Seq<char>),
    Other,
}

/// The model of a datum.
pub open spec fn datum_view(d: Datum) -> SpecDatum {
    match d {
        Datum::Int(n) => SpecDatum::Int(n as int),
        Datum::Sym(s) => SpecDatum::Sym(s@),
        Datum::Other => SpecDatum::Other,
    }
}

impl View for Datum {
    type V = SpecDatum;

    open spec fn view(&self) -> SpecDatum {
        datum_view(*self)
    }
}

/// What parsing a given text comes to: `None` where the text is not one
/// well-formed s-expression, otherwise the datum read from it.  The parser
/// reads nothing but the text, so this is a function of the text alone.
pub uninterp spec fn parsed_datum(s: Seq<char>) -> Option<SpecDatum>;

/// Relies on `sexp::parse`, which parses one s-expression from a string and
/// reads nothing but that string: an integer atom comes back as `Int`, a
/// symbol atom as `Sym`, any other well-formed s-expression (a float atom or
/// a list) as `Other`, and a string that does not parse as `None`.
#[verifier::external_body]
fn parse_wrapper(raw: &str) -> (res: Option<Datum>)
    ensures
        match res {
            Some(d) => parsed_datum(raw@) == Some(d@),
            None => parsed_datum(raw@) is None,
        },
{
    match sexp::parse(raw) {
        Ok(sexp::Sexp::Atom(sexp::Atom::I(n))) => Some(Datum::Int(n)),
        Ok(sexp::Sexp::Atom(sexp::Atom::S(s))) => Some(Datum::Sym(s)),
        Ok(sexp::Sexp::Atom(sexp::Atom::F(_))) => Some(Datum::Other),
        Ok(sexp::Sexp::List(_)) => Some(Datum::Other),
        Err(_) => None,
    }
}

/// The expression one datum stands for.
pub open spec fn datum_to_expr(d: SpecDatum) -> SpecExpr {
    match d {
        SpecDatum::Int(n) => SpecExpr::Num(n),
        SpecDatum::Sym(s) => if s == "true"@ {
            SpecExpr::Bool(true)
        } else if s == "false"@ {
            SpecExpr::Bool(false)
        } else {
            SpecExpr::Varref { name: s }
        },
        SpecDatum::Other => SpecExpr::Num(-1),
    }
}

/// The expression a datum stands for: an integer atom is a number literal,
/// the symbols `true` and `false` are boolean literals, any other symbol is
/// a variable reference, and anything else is the stub `Num(-1)`.
pub fn my_parse(d: Datum) -> (res: Expr)
    ensures
        res@ == datum_to_expr(d@),
{
    match d {
        Datum::Int(n) => Expr::Num(n),
        Datum::Sym(s) => {
            if s == String::from_str("true") {
                Expr::Bool(true)
            } else if s == String::from_str("false") {
                Expr::Bool(false)
            } else {
                Expr::Varref { name: s }
            }
        },
        Datum::Other => Expr::Num(-1),
    }
}

/// An expression parsed from text: `None` where the text is not one
/// well-formed s-expression, otherwise exactly the expression its datum
/// stands for.
pub fn parse_main(raw: String) -> (res: Option<Expr>)
    ensures
        match parsed_datum(raw@) {
            Some(d) => res is Some && res->0@ == datum_to_expr(d),
            None => res is None,
        },
{
    match parse_wrapper(raw.as_str()) {
        Some(d) => Some(my_parse(d)),
        None => None,
    }
}

} // verus!
