use uire::ast::Env;
use uire::ast::EvalError;
use uire::ast::Expr;
use uire::ast::Value;
use uire::eval::eval_binop;
use uire::eval::interp;

const FUEL: u64 = 1000;

fn binop(op: &str, l: Expr, r: Expr) -> Expr {
    Expr::Binop { op: String::from(op), l: Box::new(l), r: Box::new(r) }
}

#[test]
fn sample_ast() {
    // This is the AST for
    // {{lam {x}
    //        {if {<= x 5}
    //            true
    //            1}}
    //  4}
    let prog: Expr = Expr::App {
        fun: Box::new(Expr::Fundef {
            params: vec![String::from("x")],
            body: Box::new(Expr::If {
                c: Box::new(Expr::Binop {
                    op: String::from("<="),
                    l: Box::new(Expr::Varref { name: String::from("x") }),
                    r: Box::new(Expr::Num(5)),
                }),
                t: Box::new(Expr::Bool(true)),
                f: Box::new(Expr::Num(1)),
            }),
        }),
        args: vec![Expr::Num(4)],
    };
    assert_eq!(interp(&prog, &Env::new(), FUEL), Ok(Value::Bool(true)));
}

#[test]
fn test_prims() {
    assert_eq!(interp(&Expr::Num(5), &Env::new(), FUEL), Ok(Value::Num(5)));
    assert_eq!(interp(&Expr::Bool(true), &Env::new(), FUEL), Ok(Value::Bool(true)));
}

#[test]
fn arithmetic_exact() {
    let env = Env::new();
    assert_eq!(interp(&binop("+", Expr::Num(11), Expr::Num(7)), &env, FUEL), Ok(Value::Num(18)));
    assert_eq!(interp(&binop("-", Expr::Num(3), Expr::Num(10)), &env, FUEL), Ok(Value::Num(-7)));
    assert_eq!(interp(&binop("*", Expr::Num(20), Expr::Num(5)), &env, FUEL), Ok(Value::Num(100)));
    assert_eq!(interp(&binop("/", Expr::Num(20), Expr::Num(4)), &env, FUEL), Ok(Value::Num(5)));
    assert_eq!(interp(&binop("<=", Expr::Num(3), Expr::Num(3)), &env, FUEL), Ok(Value::Bool(true)));
    assert_eq!(
        interp(&binop("<=", Expr::Num(200), Expr::Num(10)), &env, FUEL),
        Ok(Value::Bool(false))
    );
}

#[test]
fn division_truncates_toward_zero() {
    let env = Env::new();
    assert_eq!(interp(&binop("/", Expr::Num(7), Expr::Num(2)), &env, FUEL), Ok(Value::Num(3)));
    assert_eq!(interp(&binop("/", Expr::Num(-7), Expr::Num(2)), &env, FUEL), Ok(Value::Num(-3)));
    assert_eq!(interp(&binop("/", Expr::Num(7), Expr::Num(-2)), &env, FUEL), Ok(Value::Num(-3)));
    assert_eq!(interp(&binop("/", Expr::Num(-7), Expr::Num(-2)), &env, FUEL), Ok(Value::Num(3)));
}

#[test]
fn condition_false_takes_else_branch() {
    let prog = Expr::If {
        c: Box::new(binop("<=", Expr::Num(200), Expr::Num(10))),
        t: Box::new(Expr::Num(200)),
        f: Box::new(Expr::Num(10)),
    };
    assert_eq!(interp(&prog, &Env::new(), FUEL), Ok(Value::Num(10)));
}

#[test]
fn nested_division_feeds_outer_add() {
    let prog = binop("+", Expr::Num(11), binop("/", Expr::Num(20), Expr::Num(4)));
    assert_eq!(interp(&prog, &Env::new(), FUEL), Ok(Value::Num(16)));
}

#[test]
fn unbound_variable_fails() {
    let prog = Expr::Varref { name: String::from("x") };
    assert_eq!(
        interp(&prog, &Env::new(), FUEL),
        Err(EvalError::UndefinedVariable(String::from("x")))
    );
}

fn bool_or_one(arg: i64) -> Result<Value, EvalError> {
    // {{lam {x} {if {<= x 5} true 1}} arg}
    let prog = Expr::App {
        fun: Box::new(Expr::Fundef {
            params: vec![String::from("x")],
            body: Box::new(Expr::If {
                c: Box::new(binop(
                    "<=",
                    Expr::Varref { name: String::from("x") },
                    Expr::Num(5),
                )),
                t: Box::new(Expr::Bool(true)),
                f: Box::new(Expr::Num(1)),
            }),
        }),
        args: vec![Expr::Num(arg)],
    };
    interp(&prog, &Env::new(), FUEL)
}

#[test]
fn application_binds_argument() {
    assert_eq!(bool_or_one(4), Ok(Value::Bool(true)));
    assert_eq!(bool_or_one(6), Ok(Value::Num(1)));
}

#[test]
fn arity_mismatch_fails() {
    let prog = Expr::App {
        fun: Box::new(Expr::Fundef {
            params: vec![String::from("x")],
            body: Box::new(Expr::Varref { name: String::from("x") }),
        }),
        args: vec![Expr::Num(1), Expr::Num(2)],
    };
    assert_eq!(interp(&prog, &Env::new(), FUEL), Err(EvalError::ArityMismatch(1, 2)));
}

#[test]
fn applying_non_closure_fails() {
    let prog = Expr::App { fun: Box::new(Expr::Num(7)), args: vec![] };
    assert_eq!(interp(&prog, &Env::new(), FUEL), Err(EvalError::NotCallable));
}

#[test]
fn equal_compares_structurally() {
    let env = Env::new();
    assert_eq!(
        interp(&binop("equal?", Expr::Num(4), Expr::Num(4)), &env, FUEL),
        Ok(Value::Bool(true))
    );
    assert_eq!(
        interp(&binop("equal?", Expr::Num(4), Expr::Num(5)), &env, FUEL),
        Ok(Value::Bool(false))
    );
    // Mismatched kinds compare as false, never as a type error.
    assert_eq!(
        interp(&binop("equal?", Expr::Bool(true), Expr::Num(1)), &env, FUEL),
        Ok(Value::Bool(false))
    );
    // Two closures from identical function literals are structurally equal.
    let lam = || Expr::Fundef {
        params: vec![String::from("x")],
        body: Box::new(Expr::Varref { name: String::from("x") }),
    };
    assert_eq!(interp(&binop("equal?", lam(), lam()), &env, FUEL), Ok(Value::Bool(true)));
}

#[test]
fn equal_ignores_environment_layout() {
    // Two captured environments with different binding lists but the same
    // mapping: a shadowed entry changes nothing.
    let body = || Expr::Varref { name: String::from("x") };
    let shadowed = Env {
        entries: vec![
            (String::from("x"), Value::Num(1)),
            (String::from("x"), Value::Num(2)),
        ],
    };
    let plain = Env { entries: vec![(String::from("x"), Value::Num(2))] };
    let c1 = Value::Closure { params: vec![String::from("y")], body: body(), env: shadowed };
    let c2 = Value::Closure { params: vec![String::from("y")], body: body(), env: plain };
    assert_eq!(eval_binop(String::from("equal?"), c1, c2), Ok(Value::Bool(true)));
}

#[test]
fn literal_ignores_environment() {
    let env = Env::new().extend(
        &vec![String::from("x")],
        &vec![Value::Num(1)],
    );
    assert_eq!(interp(&Expr::Num(5), &env, FUEL), Ok(Value::Num(5)));
    assert_eq!(interp(&Expr::Num(5), &Env::new(), 0), Ok(Value::Num(5)));
    assert_eq!(interp(&Expr::Bool(false), &env, FUEL), Ok(Value::Bool(false)));
}

#[test]
fn duplicate_parameters_last_binding_wins() {
    let prog = Expr::App {
        fun: Box::new(Expr::Fundef {
            params: vec![String::from("x"), String::from("x")],
            body: Box::new(Expr::Varref { name: String::from("x") }),
        }),
        args: vec![Expr::Num(1), Expr::Num(2)],
    };
    assert_eq!(interp(&prog, &Env::new(), FUEL), Ok(Value::Num(2)));
}

#[test]
fn closures_scope_lexically() {
    // {{{lam {x} {lam {y} x}} 10} 20} is 10: the inner closure sees the x
    // captured at its definition, not anything at the call site.
    let inner = Expr::Fundef {
        params: vec![String::from("y")],
        body: Box::new(Expr::Varref { name: String::from("x") }),
    };
    let outer = Expr::Fundef { params: vec![String::from("x")], body: Box::new(inner) };
    let prog = Expr::App {
        fun: Box::new(Expr::App { fun: Box::new(outer), args: vec![Expr::Num(10)] }),
        args: vec![Expr::Num(20)],
    };
    assert_eq!(interp(&prog, &Env::new(), FUEL), Ok(Value::Num(10)));
}

#[test]
fn wrong_operand_kind_fails() {
    let env = Env::new();
    assert_eq!(
        interp(&binop("+", Expr::Bool(true), Expr::Num(1)), &env, FUEL),
        Err(EvalError::TypeError(String::from("operands must be numbers")))
    );
}

#[test]
fn non_boolean_condition_fails() {
    let prog = Expr::If {
        c: Box::new(Expr::Num(1)),
        t: Box::new(Expr::Num(2)),
        f: Box::new(Expr::Num(3)),
    };
    assert_eq!(
        interp(&prog, &Env::new(), FUEL),
        Err(EvalError::TypeError(String::from("condition must be boolean")))
    );
}

#[test]
fn unknown_operator_fails() {
    let env = Env::new();
    assert_eq!(
        interp(&binop("%", Expr::Num(1), Expr::Num(2)), &env, FUEL),
        Err(EvalError::UnknownOperator(String::from("%")))
    );
}

#[test]
fn division_by_zero_fails() {
    let env = Env::new();
    assert_eq!(
        interp(&binop("/", Expr::Num(1), Expr::Num(0)), &env, FUEL),
        Err(EvalError::DivisionByZero)
    );
}

#[test]
fn overflow_fails() {
    let env = Env::new();
    assert_eq!(
        interp(&binop("+", Expr::Num(i64::MAX), Expr::Num(1)), &env, FUEL),
        Err(EvalError::ArithmeticOverflow)
    );
    assert_eq!(
        interp(&binop("/", Expr::Num(i64::MIN), Expr::Num(-1)), &env, FUEL),
        Err(EvalError::ArithmeticOverflow)
    );
}

#[test]
fn runaway_recursion_hits_the_limit() {
    // {{lam {x} {x x}} {lam {x} {x x}}} reduces forever; the budget runs out.
    let omega = || Expr::Fundef {
        params: vec![String::from("x")],
        body: Box::new(Expr::App {
            fun: Box::new(Expr::Varref { name: String::from("x") }),
            args: vec![Expr::Varref { name: String::from("x") }],
        }),
    };
    let prog = Expr::App { fun: Box::new(omega()), args: vec![omega()] };
    assert_eq!(interp(&prog, &Env::new(), 25), Err(EvalError::RecursionLimit));
}

#[test]
fn shadowing_resolves_to_latest_binding() {
    let base = Env::new().extend(&vec![String::from("x")], &vec![Value::Num(1)]);
    let shadowing = base.extend(&vec![String::from("x")], &vec![Value::Num(2)]);
    let prog = Expr::Varref { name: String::from("x") };
    assert_eq!(interp(&prog, &base, FUEL), Ok(Value::Num(1)));
    assert_eq!(interp(&prog, &shadowing, FUEL), Ok(Value::Num(2)));
}
