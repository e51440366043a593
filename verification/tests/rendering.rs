use uire::ast::Env;
use uire::ast::EvalError;
use uire::ast::Expr;
use uire::ast::Value;
use uire::eval::interp;
use uire::render::error_message;
use uire::render::num_to_string;
use uire::render::serialize;
use uire::render::u64_to_string;

const FUEL: u64 = 1000;

fn binop(op: &str, l: Expr, r: Expr) -> Expr {
    Expr::Binop { op: String::from(op), l: Box::new(l), r: Box::new(r) }
}

#[test]
fn numbers_render_as_decimal_text() {
    assert_eq!(serialize(Ok(Value::Num(-7))), "-7");
    assert_eq!(serialize(Ok(Value::Num(0))), "0");
    assert_eq!(serialize(Ok(Value::Num(12345))), "12345");
    assert_eq!(serialize(Ok(Value::Num(i64::MAX))), "9223372036854775807");
    assert_eq!(serialize(Ok(Value::Num(i64::MIN))), "-9223372036854775808");
}

#[test]
fn booleans_render_as_words() {
    assert_eq!(serialize(Ok(Value::Bool(true))), "true");
    assert_eq!(serialize(Ok(Value::Bool(false))), "false");
}

#[test]
fn closures_render_as_the_procedure_token() {
    let c = Value::Closure {
        params: vec![String::from("x")],
        body: Expr::Num(1),
        env: Env::new(),
    };
    assert_eq!(serialize(Ok(c)), "#<procedure>");
}

#[test]
fn errors_render_with_the_prefix() {
    assert_eq!(
        serialize(Err(EvalError::UndefinedVariable(String::from("x")))),
        "UIRE: undefined variable x"
    );
    assert_eq!(serialize(Err(EvalError::DivisionByZero)), "UIRE: division by zero");
    assert_eq!(
        serialize(Err(EvalError::TypeError(String::from("operands must be numbers")))),
        "UIRE: operands must be numbers"
    );
    assert_eq!(
        serialize(Err(EvalError::ArityMismatch(1, 2))),
        "UIRE: incorrect number of arguments: expected 1, got 2"
    );
    assert_eq!(
        serialize(Err(EvalError::UnknownOperator(String::from("%")))),
        "UIRE: unknown operator %"
    );
    assert_eq!(serialize(Err(EvalError::NotCallable)),
        "UIRE: tried to call a non-function as a function");
    assert_eq!(serialize(Err(EvalError::ArithmeticOverflow)), "UIRE: arithmetic overflow");
    assert_eq!(serialize(Err(EvalError::RecursionLimit)), "UIRE: recursion limit exceeded");
}

#[test]
fn error_message_matches_serialize() {
    let e = EvalError::UndefinedVariable(String::from("y"));
    assert_eq!(error_message(&e), "undefined variable y");
}

#[test]
fn digits_render_exactly() {
    assert_eq!(u64_to_string(0), "0");
    assert_eq!(u64_to_string(907), "907");
    assert_eq!(num_to_string(-120), "-120");
    assert_eq!(num_to_string(54), "54");
}

#[test]
fn evaluated_programs_render_as_documented() {
    let env = Env::new();
    assert_eq!(serialize(interp(&binop("*", Expr::Num(20), Expr::Num(5)), &env, FUEL)), "100");
    assert_eq!(serialize(interp(&binop("+", Expr::Num(11), Expr::Num(7)), &env, FUEL)), "18");
    assert_eq!(
        serialize(interp(
            &binop("-", Expr::Num(11), binop("/", Expr::Num(20), Expr::Num(4))),
            &env,
            FUEL
        )),
        "6"
    );
    assert_eq!(
        serialize(interp(&binop("<=", Expr::Num(200), Expr::Num(10)), &env, FUEL)),
        "false"
    );
    let if_false = Expr::If {
        c: Box::new(binop("<=", Expr::Num(200), Expr::Num(10))),
        t: Box::new(Expr::Num(200)),
        f: Box::new(Expr::Num(10)),
    };
    assert_eq!(serialize(interp(&if_false, &env, FUEL)), "10");
    let if_true = Expr::If {
        c: Box::new(binop("<=", Expr::Num(10), Expr::Num(100))),
        t: Box::new(binop("/", Expr::Num(20), Expr::Num(4))),
        f: Box::new(Expr::Num(10)),
    };
    assert_eq!(serialize(interp(&if_true, &env, FUEL)), "5");
}

#[test]
fn demonstration_function_runs() {
    uire::render::test_serialize();
}
