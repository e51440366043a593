//! Laws of the semantics, stated and proved once and for all inputs.
//!
//! Each law is a public proof function over the reference semantics
//! `spec_eval`, the same spec the evaluator's own contract speaks of.

use vstd::prelude::*;

use crate::ast::SpecErr;
use crate::ast::SpecExpr;
use crate::ast::SpecValue;
use crate::semantics::ArgsOutcome;
use crate::semantics::Outcome;
use crate::semantics::div_trunc;
use crate::semantics::fits_num;
use crate::semantics::spec_eval;
use crate::semantics::spec_eval_args;
use crate::semantics::spec_eval_binop;

verus! {

/// The operator symbols are pairwise distinct texts.
pub(crate) proof fn lemma_op_literals()
    ensures
        "+"@ != "equal?"@,
        "-"@ != "equal?"@,
        "*"@ != "equal?"@,
        "/"@ != "equal?"@,
        "<="@ != "equal?"@,
        "+"@ != "<="@,
        "+"@ != "/"@,
        "-"@ != "<="@,
        "-"@ != "/"@,
        "*"@ != "<="@,
        "*"@ != "/"@,
        "/"@ != "<="@,
        "+"@ != "-"@,
        "+"@ != "*"@,
        "-"@ != "*"@,
{
    reveal_strlit("equal?");
    reveal_strlit("+");
    reveal_strlit("-");
    reveal_strlit("*");
    reveal_strlit("/");
    reveal_strlit("<=");
    assert("equal?"@.len() == 6);
    assert("+"@.len() == 1);
    assert("-"@.len() == 1);
    assert("*"@.len() == 1);
    assert("/"@.len() == 1);
    assert("<="@.len() == 2);
    assert("+"@[0] == '+');
    assert("-"@[0] == '-');
    assert("*"@[0] == '*');
    assert("/"@[0] == '/');
}

/// Adding two integer literals yields the literal of their sum, in any
/// environment and under any recursion budget, whenever the sum fits the
/// integer representation.
pub proof fn lemma_binop_add(a: int, b: int, env: Map<Seq<char>, SpecValue>, fuel: nat)
    requires
        fits_num(a),
        fits_num(b),
        fits_num(a + b),
    ensures
        spec_eval(
            SpecExpr::Binop {
                op: "+"@,
                l: Box::new(SpecExpr::Num(a)),
                r: Box::new(SpecExpr::Num(b)),
            },
            env,
            fuel,
        ) == Outcome::Val(SpecValue::Num(a + b)),
{
    lemma_op_literals();
    reveal_with_fuel(spec_eval, 2);
}

/// Subtracting two integer literals yields the literal of their difference,
/// whenever the difference fits the integer representation.
pub proof fn lemma_binop_sub(a: int, b: int, env: Map<Seq<char>, SpecValue>, fuel: nat)
    requires
        fits_num(a),
        fits_num(b),
        fits_num(a - b),
    ensures
        spec_eval(
            SpecExpr::Binop {
                op: "-"@,
                l: Box::new(SpecExpr::Num(a)),
                r: Box::new(SpecExpr::Num(b)),
            },
            env,
            fuel,
        ) == Outcome::Val(SpecValue::Num(a - b)),
{
    lemma_op_literals();
    reveal_with_fuel(spec_eval, 2);
}

/// Multiplying two integer literals yields the literal of their product,
/// whenever the product fits the integer representation.
pub proof fn lemma_binop_mul(a: int, b: int, env: Map<Seq<char>, SpecValue>, fuel: nat)
    requires
        fits_num(a),
        fits_num(b),
        fits_num(a * b),
    ensures
        spec_eval(
            SpecExpr::Binop {
                op: "*"@,
                l: Box::new(SpecExpr::Num(a)),
                r: Box::new(SpecExpr::Num(b)),
            },
            env,
            fuel,
        ) == Outcome::Val(SpecValue::Num(a * b)),
{
    lemma_op_literals();
    reveal_with_fuel(spec_eval, 2);
}

/// Dividing two integer literals yields the literal of their truncating
/// quotient, for a non-zero divisor and a quotient that fits the integer
/// representation (everything but the smallest integer divided by minus
/// one).
pub proof fn lemma_binop_div(a: int, b: int, env: Map<Seq<char>, SpecValue>, fuel: nat)
    requires
        fits_num(a),
        fits_num(b),
        b != 0,
        fits_num(div_trunc(a, b)),
    ensures
        spec_eval(
            SpecExpr::Binop {
                op: "/"@,
                l: Box::new(SpecExpr::Num(a)),
                r: Box::new(SpecExpr::Num(b)),
            },
            env,
            fuel,
        ) == Outcome::Val(SpecValue::Num(div_trunc(a, b))),
{
    lemma_op_literals();
    reveal_with_fuel(spec_eval, 2);
}

/// Comparing two integer literals with `<=` yields the boolean of the
/// comparison, always.
pub proof fn lemma_binop_le(a: int, b: int, env: Map<Seq<char>, SpecValue>, fuel: nat)
    requires
        fits_num(a),
        fits_num(b),
    ensures
        spec_eval(
            SpecExpr::Binop {
                op: "<="@,
                l: Box::new(SpecExpr::Num(a)),
                r: Box::new(SpecExpr::Num(b)),
            },
            env,
            fuel,
        ) == Outcome::Val(SpecValue::Bool(a <= b)),
{
    lemma_op_literals();
    reveal_with_fuel(spec_eval, 2);
}

/// Applying a closure to the wrong number of arguments fails with
/// `ArityMismatch(expected, actual)`, whatever the closure and the
/// arguments' values.
pub proof fn lemma_app_arity_mismatch(
    fun: SpecExpr,
    args: Seq<SpecExpr>,
    env: Map<Seq<char>, SpecValue>,
    fuel: nat,
    params: Seq<Seq<char>>,
    body: SpecExpr,
    cenv: Map<Seq<char>, SpecValue>,
    vals: Seq<SpecValue>,
)
    requires
        spec_eval(fun, env, fuel) == Outcome::Val(
            SpecValue::Closure { params, body, env: cenv },
        ),
        spec_eval_args(args, env, fuel) == ArgsOutcome::Vals(vals),
        params.len() != vals.len(),
    ensures
        spec_eval(SpecExpr::App { fun: Box::new(fun), args }, env, fuel) == Outcome::Fail(
            SpecErr::ArityMismatch(params.len() as int, vals.len() as int),
        ),
{
    reveal_with_fuel(spec_eval, 1);
}

/// Applying a value that is not a closure fails with `NotCallable`, whatever
/// the value and the arguments.
pub proof fn lemma_app_not_callable(
    fun: SpecExpr,
    args: Seq<SpecExpr>,
    env: Map<Seq<char>, SpecValue>,
    fuel: nat,
    v: SpecValue,
)
    requires
        spec_eval(fun, env, fuel) == Outcome::Val(v),
        !(v is Closure),
    ensures
        spec_eval(SpecExpr::App { fun: Box::new(fun), args }, env, fuel) == Outcome::Fail(
            SpecErr::NotCallable,
        ),
{
    reveal_with_fuel(spec_eval, 1);
}

/// `equal?` yields `true` on two structurally equal values of any kind and
/// `false` on different values or different kinds; it never fails.
pub proof fn lemma_equal_structural(l: SpecValue, r: SpecValue)
    ensures
        spec_eval_binop("equal?"@, l, r) == Outcome::Val(SpecValue::Bool(l == r)),
        !(spec_eval_binop("equal?"@, l, r) is Fail),
{
}

/// A literal evaluates to its value whatever the environment and whatever
/// the recursion budget: for literals both are irrelevant.
pub proof fn lemma_literal_independent(
    e: SpecExpr,
    env1: Map<Seq<char>, SpecValue>,
    env2: Map<Seq<char>, SpecValue>,
    fuel1: nat,
    fuel2: nat,
)
    requires
        e is Bool || e is Num,
    ensures
        spec_eval(e, env1, fuel1) == spec_eval(e, env2, fuel2),
        spec_eval(e, env1, fuel1) is Val,
{
}

} // verus!
