//! The evaluator: the recursive descent over an expression, proved equal to
//! the reference semantics `spec_eval` for every input and every recursion
//! budget.

use vstd::prelude::*;
use vstd::string::StringExecFns;

use crate::ast::Env;
use crate::ast::EvalError;
use crate::ast::Expr;
use crate::ast::Value;
use crate::ast::exprs_view;
use crate::ast::lemma_exprs_view;
use crate::ast::result_view;
use crate::ast::values_view;
use crate::env::clone_expr;
use crate::env::clone_names;
use crate::env::clone_value;
use crate::equality::value_eq;
use crate::semantics::Outcome;
use crate::semantics::lemma_eval_args_fail;
use crate::semantics::lemma_eval_args_vals;
use crate::semantics::outcome_as_result;
use crate::semantics::spec_eval;
use crate::semantics::spec_eval_binop;

verus! {

/// A binary operator applied to two evaluated operands.
///
/// `equal?` is structural equality between any two value kinds and never
/// fails.  `+`, `-`, `*`, `/` and `<=` demand two numbers; division by zero
/// and results outside the integer representation are recoverable errors.
/// Any other operator symbol is unknown.
pub fn eval_binop(op: String, l: Value, r: Value) -> (res: Result<Value, EvalError>)
    ensures
        result_view(res) == outcome_as_result(spec_eval_binop(op@, l@, r@)),
{
    if op == String::from_str("equal?") {
        return Ok(Value::Bool(value_eq(&l, &r)));
    }
    let is_add = op == String::from_str("+");
    let is_sub = op == String::from_str("-");
    let is_mul = op == String::from_str("*");
    let is_div = op == String::from_str("/");
    let is_le = op == String::from_str("<=");
    if is_add || is_sub || is_mul || is_div || is_le {
        match (&l, &r) {
            (Value::Num(a), Value::Num(b)) => {
                if is_le {
                    Ok(Value::Bool(*a <= *b))
                } else if is_div {
                    if *b == 0 {
                        Err(EvalError::DivisionByZero)
                    } else {
                        match a.checked_div(*b) {
                            Some(q) => Ok(Value::Num(q)),
                            None => Err(EvalError::ArithmeticOverflow),
                        }
                    }
                } else if is_add {
                    match a.checked_add(*b) {
                        Some(x) => Ok(Value::Num(x)),
                        None => Err(EvalError::ArithmeticOverflow),
                    }
                } else if is_sub {
                    match a.checked_sub(*b) {
                        Some(x) => Ok(Value::Num(x)),
                        None => Err(EvalError::ArithmeticOverflow),
                    }
                } else {
                    match a.checked_mul(*b) {
                        Some(x) => Ok(Value::Num(x)),
                        None => Err(EvalError::ArithmeticOverflow),
                    }
                }
            },
            _ => Err(EvalError::TypeError(String::from_str("operands must be numbers"))),
        }
    } else {
        Err(EvalError::UnknownOperator(op))
    }
}

/// The evaluator.  The result is exactly what the reference semantics gives
/// for the expression, the environment and the recursion budget: a value, a
/// typed error, or `RecursionLimit` where the budget runs out.  `fuel` is
/// spent only on closure application, so any budget at least the application
/// nesting depth of the run is enough.
#[verifier::loop_isolation(false)]
pub fn interp(exp: &Expr, env: &Env, fuel: u64) -> (res: Result<Value, EvalError>)
    ensures
        result_view(res) == outcome_as_result(spec_eval(exp@, env@, fuel as nat)),
    decreases fuel, exp,
{
    match exp {
        Expr::Bool(b) => Ok(Value::Bool(*b)),
        Expr::Num(n) => Ok(Value::Num(*n)),
        Expr::Binop { op, l, r } => {
            let lv = match interp(&**l, env, fuel) {
                Ok(v) => v,
                Err(e) => return Err(e),
            };
            let rv = match interp(&**r, env, fuel) {
                Ok(v) => v,
                Err(e) => return Err(e),
            };
            eval_binop(op.clone(), lv, rv)
        },
        Expr::If { c, t, f } => {
            let cv = match interp(&**c, env, fuel) {
                Ok(v) => v,
                Err(e) => return Err(e),
            };
            match cv {
                Value::Bool(true) => interp(&**t, env, fuel),
                Value::Bool(false) => interp(&**f, env, fuel),
                _ => Err(EvalError::TypeError(String::from_str("condition must be boolean"))),
            }
        },
        Expr::Varref { name } => match env.lookup(name) {
            Some(v) => Ok(clone_value(v)),
            None => Err(EvalError::UndefinedVariable(name.clone())),
        },
        Expr::Fundef { params, body } => Ok(
            Value::Closure {
                params: clone_names(params),
                body: clone_expr(&**body),
                env: env.duplicate(),
            },
        ),
        Expr::App { fun, args } => {
            let fv = match interp(&**fun, env, fuel) {
                Ok(v) => v,
                Err(e) => return Err(e),
            };
            match fv {
                Value::Closure { params, body, env: cenv } => {
                    proof {
                        lemma_exprs_view(args@);
                    }
                    let mut vals: Vec<Value> = Vec::new();
                    let n = args.len();
                    let mut i: usize = 0;
                    while i < n
                        invariant
                            i <= n,
                            vals@.len() == i,
                            forall|j: int|
                                0 <= j < i ==> spec_eval(
                                    exprs_view(args@)[j],
                                    env@,
                                    fuel as nat,
                                ) == Outcome::Val(values_view(vals@)[j]),
                        decreases n - i,
                    {
                        let ghost prev = vals@;
                        match interp(&args[i], env, fuel) {
                            Ok(v) => {
                                vals.push(v);
                                proof {
                                    assert(forall|j: int|
                                        0 <= j < i ==> values_view(vals@)[j] == values_view(
                                            prev,
                                        )[j]);
                                }
                            },
                            Err(e) => {
                                proof {
                                    lemma_eval_args_fail(
                                        exprs_view(args@),
                                        env@,
                                        fuel as nat,
                                        i as int,
                                        values_view(vals@),
                                    );
                                }
                                return Err(e);
                            },
                        }
                        i = i + 1;
                    }
                    proof {
                        lemma_eval_args_vals(
                            exprs_view(args@),
                            env@,
                            fuel as nat,
                            values_view(vals@),
                        );
                    }
                    if params.len() != vals.len() {
                        return Err(EvalError::ArityMismatch(params.len(), vals.len()));
                    }
                    if fuel == 0 {
                        return Err(EvalError::RecursionLimit);
                    }
                    let new_env = cenv.extend(&params, &vals);
                    interp(&body, &new_env, fuel - 1)
                },
                _ => Err(EvalError::NotCallable),
            }
        },
    }
}

} // verus!
