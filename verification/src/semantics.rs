//! The reference semantics: a total, fuel-indexed evaluation function over
//! the mathematical models of expressions, environments and values.
//!
//! `spec_eval` is what the executable evaluator is proved against.  Fuel
//! bounds the depth of closure applications only; the structural descent
//! into sub-expressions costs none.  An evaluation that does not finish
//! within the given budget is the outcome `NoFuel`, which the executable
//! evaluator reports as `EvalError::RecursionLimit`.

use vstd::prelude::*;

use crate::ast::SpecErr;
use crate::ast::SpecExpr;
use crate::ast::SpecValue;

verus! {

/// What evaluating one expression can come to: a value, a typed error, or
/// exhaustion of the recursion budget.
pub ghost enum Outcome {
    Val(SpecValue),
    Fail(SpecErr),
    NoFuel,
}

/// What evaluating a sequence of argument expressions can come to.
pub ghost enum ArgsOutcome {
    Vals(Seq<SpecValue>),
    Fail(SpecErr),
    NoFuel,
}

/// An outcome as the evaluator's result type: the budget running out is
/// reported as the `RecursionLimit` error.
pub open spec fn outcome_as_result(o: Outcome) -> Result<SpecValue, SpecErr> {
    match o {
        Outcome::Val(v) => Ok(v),
        Outcome::Fail(e) => Err(e),
        Outcome::NoFuel => Err(SpecErr::RecursionLimit),
    }
}

/// Whether `x` fits the evaluator's integer representation.
pub open spec fn fits_num(x: int) -> bool {
    i64::MIN <= x <= i64::MAX
}

/// Truncating integer division: the quotient is rounded towards zero, as the
/// machine division of the evaluator rounds.  (Meaningful for `b != 0`.)
pub open spec fn div_trunc(a: int, b: int) -> int {
    if a == 0 {
        0
    } else if a > 0 && b > 0 {
        a / b
    } else if a < 0 && b < 0 {
        (a * -1) / (b * -1)
    } else if a < 0 {
        ((a * -1) / b) * -1
    } else {
        (a / (b * -1)) * -1
    }
}

/// Whether `op` is one of the operators restricted to numbers.
pub open spec fn is_numeric_op(op: Seq<char>) -> bool {
    op == "+"@ || op == "-"@ || op == "*"@ || op == "/"@ || op == "<="@
}

/// A numeric operator applied to two integers.  Arithmetic results must fit
/// the integer representation; division by zero is a recoverable error.
pub open spec fn spec_num_binop(op: Seq<char>, a: int, b: int) -> Outcome {
    if op == "<="@ {
        Outcome::Val(SpecValue::Bool(a <= b))
    } else if op == "/"@ {
        if b == 0 {
            Outcome::Fail(SpecErr::DivisionByZero)
        } else if fits_num(div_trunc(a, b)) {
            Outcome::Val(SpecValue::Num(div_trunc(a, b)))
        } else {
            Outcome::Fail(SpecErr::ArithmeticOverflow)
        }
    } else {
        let x = if op == "+"@ {
            a + b
        } else if op == "-"@ {
            a - b
        } else {
            a * b
        };
        if fits_num(x) {
            Outcome::Val(SpecValue::Num(x))
        } else {
            Outcome::Fail(SpecErr::ArithmeticOverflow)
        }
    }
}

/// Dispatch of a binary operator over two evaluated operands.
///
/// `equal?` is structural equality between any two value kinds and never
/// fails; the numeric operators demand two numbers; any other operator
/// symbol is unknown.
pub open spec fn spec_eval_binop(op: Seq<char>, l: SpecValue, r: SpecValue) -> Outcome {
    if op == "equal?"@ {
        Outcome::Val(SpecValue::Bool(l == r))
    } else if is_numeric_op(op) {
        match (l, r) {
            (SpecValue::Num(a), SpecValue::Num(b)) => spec_num_binop(op, a, b),
            _ => Outcome::Fail(SpecErr::TypeError("operands must be numbers"@)),
        }
    } else {
        Outcome::Fail(SpecErr::UnknownOperator(op))
    }
}

/// A closure's captured environment extended with one binding per parameter,
/// in parameter order, so that a later binding of a duplicate name shadows
/// an earlier one.  (Meaningful for equally long sequences.)
pub open spec fn spec_extend(
    base: Map<Seq<char>, SpecValue>,
    params: Seq<Seq<char>>,
    vals: Seq<SpecValue>,
) -> Map<Seq<char>, SpecValue>
    decreases params.len(),
{
    if params.len() == 0 {
        base
    } else {
        spec_extend(base, params.drop_last(), vals.drop_last()).insert(
            params.last(),
            vals.last(),
        )
    }
}

/// The semantic function: one expression against one environment.
///
/// Evaluation is a left-to-right, depth-first descent; the first failure
/// terminates the whole evaluation.  Application evaluates the function
/// position, requires a closure, evaluates every argument against the
/// caller's environment, requires matching arity, and then evaluates the
/// closure's body in its captured environment extended with the argument
/// bindings — spending one unit of fuel.
pub open spec fn spec_eval(e: SpecExpr, env: Map<Seq<char>, SpecValue>, fuel: nat) -> Outcome
    decreases fuel, e,
{
    match e {
        SpecExpr::Bool(b) => Outcome::Val(SpecValue::Bool(b)),
        SpecExpr::Num(n) => Outcome::Val(SpecValue::Num(n)),
        SpecExpr::Binop { op, l, r } => match spec_eval(*l, env, fuel) {
            Outcome::Val(lv) => match spec_eval(*r, env, fuel) {
                Outcome::Val(rv) => spec_eval_binop(op, lv, rv),
                o => o,
            },
            o => o,
        },
        SpecExpr::If { c, t, f } => match spec_eval(*c, env, fuel) {
            Outcome::Val(SpecValue::Bool(b)) => if b {
                spec_eval(*t, env, fuel)
            } else {
                spec_eval(*f, env, fuel)
            },
            Outcome::Val(_) => Outcome::Fail(SpecErr::TypeError("condition must be boolean"@)),
            o => o,
        },
        SpecExpr::Varref { name } => if env.contains_key(name) {
            Outcome::Val(env[name])
        } else {
            Outcome::Fail(SpecErr::UndefinedVariable(name))
        },
        SpecExpr::Fundef { params, body } => Outcome::Val(
            SpecValue::Closure { params, body: *body, env },
        ),
        SpecExpr::App { fun, args } => match spec_eval(*fun, env, fuel) {
            Outcome::Val(SpecValue::Closure { params, body, env: cenv }) => {
                match spec_eval_args(args, env, fuel) {
                    ArgsOutcome::Vals(vals) => if params.len() != vals.len() {
                        Outcome::Fail(
                            SpecErr::ArityMismatch(params.len() as int, vals.len() as int),
                        )
                    } else if fuel == 0 {
                        Outcome::NoFuel
                    } else {
                        spec_eval(body, spec_extend(cenv, params, vals), (fuel - 1) as nat)
                    },
                    ArgsOutcome::Fail(err) => Outcome::Fail(err),
                    ArgsOutcome::NoFuel => Outcome::NoFuel,
                }
            },
            Outcome::Val(_) => Outcome::Fail(SpecErr::NotCallable),
            o => o,
        },
    }
}

/// The semantic function over a sequence of argument expressions, in order,
/// short-circuiting on the first failure.
pub open spec fn spec_eval_args(
    args: Seq<SpecExpr>,
    env: Map<Seq<char>, SpecValue>,
    fuel: nat,
) -> ArgsOutcome
    decreases fuel, args,
{
    if args.len() == 0 {
        ArgsOutcome::Vals(Seq::empty())
    } else {
        match spec_eval(args[0], env, fuel) {
            Outcome::Val(v) => match spec_eval_args(args.drop_first(), env, fuel) {
                ArgsOutcome::Vals(vs) => ArgsOutcome::Vals(seq![v] + vs),
                o => o,
            },
            Outcome::Fail(err) => ArgsOutcome::Fail(err),
            Outcome::NoFuel => ArgsOutcome::NoFuel,
        }
    }
}

/// If every argument before position `i` evaluates to a value and the
/// argument at `i` does not, evaluating the sequence comes to the outcome at
/// `i`: the first failure wins.
pub proof fn lemma_eval_args_fail(
    s: Seq<SpecExpr>,
    env: Map<Seq<char>, SpecValue>,
    fuel: nat,
    i: int,
    vs: Seq<SpecValue>,
)
    requires
        0 <= i < s.len(),
        i <= vs.len(),
        forall|j: int| 0 <= j < i ==> spec_eval(s[j], env, fuel) == Outcome::Val(vs[j]),
        !(spec_eval(s[i], env, fuel) is Val),
    ensures
        spec_eval_args(s, env, fuel) == (match spec_eval(s[i], env, fuel) {
            Outcome::Fail(err) => ArgsOutcome::Fail(err),
            _ => ArgsOutcome::NoFuel,
        }),
    decreases i,
{
    if i > 0 {
        assert(forall|j: int| 0 <= j < i - 1 ==> s.drop_first()[j] == s[j + 1]);
        lemma_eval_args_fail(s.drop_first(), env, fuel, i - 1, vs.drop_first());
    }
}

/// If every argument evaluates to a value, evaluating the sequence comes to
/// exactly those values, in order.
pub proof fn lemma_eval_args_vals(
    s: Seq<SpecExpr>,
    env: Map<Seq<char>, SpecValue>,
    fuel: nat,
    vs: Seq<SpecValue>,
)
    requires
        s.len() == vs.len(),
        forall|j: int| 0 <= j < s.len() ==> spec_eval(s[j], env, fuel) == Outcome::Val(vs[j]),
    ensures
        spec_eval_args(s, env, fuel) == ArgsOutcome::Vals(vs),
    decreases s.len(),
{
    if s.len() == 0 {
        assert(vs =~= Seq::<SpecValue>::empty());
    } else {
        assert(forall|j: int| 0 <= j < s.len() - 1 ==> s.drop_first()[j] == s[j + 1]);
        lemma_eval_args_vals(s.drop_first(), env, fuel, vs.drop_first());
        assert(seq![vs[0]] + vs.drop_first() =~= vs);
    }
}

} // verus!
