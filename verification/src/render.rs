//! The presentation layer: an evaluation result as text.
//!
//! A number renders as decimal digits, a boolean as `true`/`false`, a
//! closure as the token `#<procedure>`, and an error as the prefix `UIRE: `
//! followed by a message for its kind.  The layer never re-interprets a
//! result, it only formats it.

use vstd::prelude::*;
use vstd::string::StringExecFns;

use crate::ast::Env;
use crate::ast::EvalError;
use crate::ast::Expr;
use crate::ast::SpecErr;
use crate::ast::SpecValue;
use crate::ast::Value;
use crate::ast::expr_view;
use crate::ast::result_view;
use crate::eval::interp;
use crate::laws::lemma_op_literals;
use crate::semantics::spec_eval;

verus! {

/// The character of one decimal digit.
pub open spec fn digit_char(d: int) -> char {
    if d == 0 {
        '0'
    } else if d == 1 {
        '1'
    } else if d == 2 {
        '2'
    } else if d == 3 {
        '3'
    } else if d == 4 {
        '4'
    } else if d == 5 {
        '5'
    } else if d == 6 {
        '6'
    } else if d == 7 {
        '7'
    } else if d == 8 {
        '8'
    } else {
        '9'
    }
}

/// The decimal digits of a natural number, most significant first.
pub open spec fn dec_digits(n: nat) -> Seq<char>
    decreases n,
{
    if n < 10 {
        seq![digit_char(n as int)]
    } else {
        dec_digits(n / 10) + seq![digit_char((n % 10) as int)]
    }
}

/// An integer as decimal text: a minus sign for a negative value, then the
/// digits of its magnitude.
pub open spec fn int_text(n: int) -> Seq<char> {
    if n < 0 {
        seq!['-'] + dec_digits((-n) as nat)
    } else {
        dec_digits(n as nat)
    }
}

/// The message rendered for an error.
pub open spec fn err_text(e: SpecErr) -> Seq<char> {
    match e {
        SpecErr::UndefinedVariable(n) => "undefined variable "@ + n,
        SpecErr::TypeError(m) => m,
        SpecErr::UnknownOperator(op) => "unknown operator "@ + op,
        SpecErr::NotCallable => "tried to call a non-function as a function"@,
        SpecErr::ArityMismatch(expected, actual) => "incorrect number of arguments: expected "@
            + dec_digits(expected as nat) + ", got "@ + dec_digits(actual as nat),
        SpecErr::DivisionByZero => "division by zero"@,
        SpecErr::ArithmeticOverflow => "arithmetic overflow"@,
        SpecErr::RecursionLimit => "recursion limit exceeded"@,
    }
}

/// The text rendered for an evaluation result.
pub open spec fn render_result(r: Result<SpecValue, SpecErr>) -> Seq<char> {
    match r {
        Ok(SpecValue::Num(n)) => int_text(n),
        Ok(SpecValue::Bool(b)) => if b {
            "true"@
        } else {
            "false"@
        },
        Ok(SpecValue::Closure { .. }) => "#<procedure>"@,
        Err(e) => "UIRE: "@ + err_text(e),
    }
}

/// One decimal digit as a string.
fn digit_str(d: u64) -> (res: String)
    requires
        d < 10,
    ensures
        res@ == seq![digit_char(d as int)],
{
    if d == 0 {
        let s = String::from_str("0");
        proof {
            reveal_strlit("0");
            assert(s@ =~= seq![digit_char(0)]);
        }
        s
    } else if d == 1 {
        let s = String::from_str("1");
        proof {
            reveal_strlit("1");
            assert(s@ =~= seq![digit_char(1)]);
        }
        s
    } else if d == 2 {
        let s = String::from_str("2");
        proof {
            reveal_strlit("2");
            assert(s@ =~= seq![digit_char(2)]);
        }
        s
    } else if d == 3 {
        let s = String::from_str("3");
        proof {
            reveal_strlit("3");
            assert(s@ =~= seq![digit_char(3)]);
        }
        s
    } else if d == 4 {
        let s = String::from_str("4");
        proof {
            reveal_strlit("4");
            assert(s@ =~= seq![digit_char(4)]);
        }
        s
    } else if d == 5 {
        let s = String::from_str("5");
        proof {
            reveal_strlit("5");
            assert(s@ =~= seq![digit_char(5)]);
        }
        s
    } else if d == 6 {
        let s = String::from_str("6");
        proof {
            reveal_strlit("6");
            assert(s@ =~= seq![digit_char(6)]);
        }
        s
    } else if d == 7 {
        let s = String::from_str("7");
        proof {
            reveal_strlit("7");
            assert(s@ =~= seq![digit_char(7)]);
        }
        s
    } else if d == 8 {
        let s = String::from_str("8");
        proof {
            reveal_strlit("8");
            assert(s@ =~= seq![digit_char(8)]);
        }
        s
    } else {
        let s = String::from_str("9");
        proof {
            reveal_strlit("9");
            assert(s@ =~= seq![digit_char(9)]);
        }
        s
    }
}

/// A natural number as decimal text.
pub fn u64_to_string(n: u64) -> (res: String)
    ensures
        res@ == dec_digits(n as nat),
    decreases n,
{
    if n < 10 {
        digit_str(n)
    } else {
        let hi = u64_to_string(n / 10);
        let lo = digit_str(n % 10);
        hi.concat(lo.as_str())
    }
}

/// An integer as decimal text.
pub fn num_to_string(n: i64) -> (res: String)
    ensures
        res@ == int_text(n as int),
{
    if n >= 0 {
        u64_to_string(n as u64)
    } else {
        let m: u64 = ((-(n + 1)) as u64) + 1;
        proof {
            assert(m as nat == -(n as int));
        }
        let sign = String::from_str("-");
        proof {
            reveal_strlit("-");
            assert(sign@ =~= seq!['-']);
        }
        sign.concat(u64_to_string(m).as_str())
    }
}

/// The message for an error, one line of human-readable text.
pub fn error_message(e: &EvalError) -> (res: String)
    ensures
        res@ == err_text(e@),
{
    match e {
        EvalError::UndefinedVariable(n) => String::from_str("undefined variable ").concat(
            n.as_str(),
        ),
        EvalError::TypeError(m) => m.clone(),
        EvalError::UnknownOperator(op) => String::from_str("unknown operator ").concat(
            op.as_str(),
        ),
        EvalError::NotCallable => String::from_str(
            "tried to call a non-function as a function",
        ),
        EvalError::ArityMismatch(expected, actual) => String::from_str(
            "incorrect number of arguments: expected ",
        ).concat(u64_to_string(*expected as u64).as_str()).concat(", got ").concat(
            u64_to_string(*actual as u64).as_str(),
        ),
        EvalError::DivisionByZero => String::from_str("division by zero"),
        EvalError::ArithmeticOverflow => String::from_str("arithmetic overflow"),
        EvalError::RecursionLimit => String::from_str("recursion limit exceeded"),
    }
}

/// An evaluation result as text.
pub fn serialize(val: Result<Value, EvalError>) -> (res: String)
    ensures
        res@ == render_result(result_view(val)),
{
    match val {
        Ok(Value::Num(n)) => num_to_string(n),
        Ok(Value::Bool(b)) => if b {
            String::from_str("true")
        } else {
            String::from_str("false")
        },
        Ok(Value::Closure { .. }) => String::from_str("#<procedure>"),
        Err(e) => String::from_str("UIRE: ").concat(error_message(&e).as_str()),
    }
}

/// A demonstration, checked by proof rather than by running: a handful of
/// arithmetic and conditional programs evaluate and render to exactly the
/// texts documented here.
pub fn test_serialize() {
    let env = Env::new();
    // {* 20 5} renders as "100"
    let s1 = serialize(
        interp(
            &Expr::Binop {
                op: String::from_str("*"),
                l: Box::new(Expr::Num(20)),
                r: Box::new(Expr::Num(5)),
            },
            &env,
            10,
        ),
    );
    proof {
        lemma_op_literals();
        reveal_with_fuel(expr_view, 3);
        reveal_with_fuel(spec_eval, 3);
        reveal_with_fuel(dec_digits, 3);
        reveal_strlit("100");
        assert(s1@ =~= "100"@);
    }
    // {+ 11 7} renders as "18"
    let s2 = serialize(
        interp(
            &Expr::Binop {
                op: String::from_str("+"),
                l: Box::new(Expr::Num(11)),
                r: Box::new(Expr::Num(7)),
            },
            &env,
            10,
        ),
    );
    proof {
        lemma_op_literals();
        reveal_with_fuel(expr_view, 3);
        reveal_with_fuel(spec_eval, 3);
        reveal_with_fuel(dec_digits, 2);
        reveal_strlit("18");
        assert(s2@ =~= "18"@);
    }
    // {- 11 {/ 20 4}} renders as "6"
    let s3 = serialize(
        interp(
            &Expr::Binop {
                op: String::from_str("-"),
                l: Box::new(Expr::Num(11)),
                r: Box::new(
                    Expr::Binop {
                        op: String::from_str("/"),
                        l: Box::new(Expr::Num(20)),
                        r: Box::new(Expr::Num(4)),
                    },
                ),
            },
            &env,
            10,
        ),
    );
    proof {
        lemma_op_literals();
        reveal_with_fuel(expr_view, 4);
        reveal_with_fuel(spec_eval, 4);
        reveal_with_fuel(dec_digits, 2);
        reveal_strlit("6");
        assert(s3@ =~= "6"@);
    }
    // {<= 200 10} renders as "false"
    let s4 = serialize(
        interp(
            &Expr::Binop {
                op: String::from_str("<="),
                l: Box::new(Expr::Num(200)),
                r: Box::new(Expr::Num(10)),
            },
            &env,
            10,
        ),
    );
    proof {
        lemma_op_literals();
        reveal_with_fuel(expr_view, 3);
        reveal_with_fuel(spec_eval, 3);
        assert(s4@ == "false"@);
    }
    // {if {<= 200 10} 200 10} renders as "10"
    let s5 = serialize(
        interp(
            &Expr::If {
                c: Box::new(
                    Expr::Binop {
                        op: String::from_str("<="),
                        l: Box::new(Expr::Num(200)),
                        r: Box::new(Expr::Num(10)),
                    },
                ),
                t: Box::new(Expr::Num(200)),
                f: Box::new(Expr::Num(10)),
            },
            &env,
            10,
        ),
    );
    proof {
        lemma_op_literals();
        reveal_with_fuel(expr_view, 4);
        reveal_with_fuel(spec_eval, 4);
        reveal_with_fuel(dec_digits, 2);
        reveal_strlit("10");
        assert(s5@ =~= "10"@);
    }
    // {if {<= 10 100} {/ 20 4} 10} renders as "5"
    let s6 = serialize(
        interp(
            &Expr::If {
                c: Box::new(
                    Expr::Binop {
                        op: String::from_str("<="),
                        l: Box::new(Expr::Num(10)),
                        r: Box::new(Expr::Num(100)),
                    },
                ),
                t: Box::new(
                    Expr::Binop {
                        op: String::from_str("/"),
                        l: Box::new(Expr::Num(20)),
                        r: Box::new(Expr::Num(4)),
                    },
                ),
                f: Box::new(Expr::Num(10)),
            },
            &env,
            10,
        ),
    );
    proof {
        lemma_op_literals();
        reveal_with_fuel(expr_view, 4);
        reveal_with_fuel(spec_eval, 4);
        reveal_with_fuel(dec_digits, 2);
        reveal_strlit("5");
        assert(s6@ =~= "5"@);
    }
}

} // verus!
