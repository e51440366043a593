//! Abstract syntax, runtime values, environments and errors, together with
//! their mathematical models.
//!
//! Each executable type has a ghost counterpart over `int`, `Seq` and `Map`,
//! reached through `View`; every contract in the crate speaks of these models.

use vstd::prelude::*;

verus! {

/// An expression of the language, built by a producer (a parser or direct
/// construction) and only ever read by the evaluator.
#[derive(Debug, PartialEq)]
pub enum Expr {
    /// A boolean literal.
    Bool(bool),
    /// An integer literal.
    Num(i64),
    /// Application of a binary operator to two sub-expressions.
    Binop { op: String, l: Box<Expr>, r: Box<Expr> },
    /// A conditional; only the taken branch is evaluated.
    If { c: Box<Expr>, t: Box<Expr>, f: Box<Expr> },
    /// A variable reference, resolved against the active environment.
    Varref { name: String },
    /// Function application; `fun` must evaluate to a closure.
    App { fun: Box<Expr>, args: Vec<Expr> },
    /// A function literal: a fixed-arity parameter list and one body
    /// expression.  Parameter names need not be distinct.
    Fundef { params: Vec<String>, body: Box<Expr> },
}

/// The mathematical model of an expression.
pub ghost enum SpecExpr {
    Bool(bool),
    Num(int),
    Binop { op: Seq<char>, l: Box<SpecExpr>, r: Box<SpecExpr> },
    If { c: Box<SpecExpr>, t: Box<SpecExpr>, f: Box<SpecExpr> },
    Varref { name: Seq<char> },
    App { fun: Box<SpecExpr>, args: Seq<SpecExpr> },
    Fundef { params: Seq<Seq<char>>, body: Box<SpecExpr> },
}

/// The model of an expression: literals keep their value, strings become
/// character sequences, and integers widen to `int`.
pub open spec fn expr_view(e: Expr) -> SpecExpr
    decreases e,
{
    match e {
        Expr::Bool(b) => SpecExpr::Bool(b),
        Expr::Num(n) => SpecExpr::Num(n as int),
        Expr::Binop { op, l, r } => SpecExpr::Binop {
            op: op@,
            l: Box::new(expr_view(*l)),
            r: Box::new(expr_view(*r)),
        },
        Expr::If { c, t, f } => SpecExpr::If {
            c: Box::new(expr_view(*c)),
            t: Box::new(expr_view(*t)),
            f: Box::new(expr_view(*f)),
        },
        Expr::Varref { name } => SpecExpr::Varref { name: name@ },
        Expr::App { fun, args } => SpecExpr::App {
            fun: Box::new(expr_view(*fun)),
            args: exprs_view(args@),
        },
        Expr::Fundef { params, body } => SpecExpr::Fundef {
            params: params.deep_view(),
            body: Box::new(expr_view(*body)),
        },
    }
}

/// The models of a sequence of expressions, elementwise.
pub open spec fn exprs_view(s: Seq<Expr>) -> Seq<SpecExpr>
    decreases s,
{
    if s.len() == 0 {
        Seq::empty()
    } else {
        seq![expr_view(s[0])] + exprs_view(s.drop_first())
    }
}

impl View for Expr {
    type V = SpecExpr;

    open spec fn view(&self) -> SpecExpr {
        expr_view(*self)
    }
}

/// `exprs_view` maps `expr_view` over the sequence, index by index.
pub proof fn lemma_exprs_view(s: Seq<Expr>)
    ensures
        exprs_view(s).len() == s.len(),
        forall|i: int| 0 <= i < s.len() ==> exprs_view(s)[i] == expr_view(s[i]),
    decreases s.len(),
{
    if s.len() > 0 {
        lemma_exprs_view(s.drop_first());
    }
}

/// A runtime value: the result of evaluating an expression.
#[derive(Debug, PartialEq)]
pub enum Value {
    /// A boolean.
    Bool(bool),
    /// An integer.
    Num(i64),
    /// A function value: its parameter list and body, paired with the
    /// environment that was active where the function literal was evaluated.
    /// Capturing that environment is what gives the language lexical scoping.
    Closure { params: Vec<String>, body: Expr, env: Env },
}

/// An environment: a mapping from variable name to value.  It is never
/// mutated in place; application extends a closure's captured environment
/// into a fresh one, so environments captured earlier are unaffected.
///
/// The entries are kept as a list of bindings in which a later binding of a
/// name shadows an earlier one; the model is the induced `Map`.
#[derive(Debug, PartialEq)]
pub struct Env {
    pub entries: Vec<(String, Value)>,
}

/// The mathematical model of a runtime value.
pub ghost enum SpecValue {
    Bool(bool),
    Num(int),
    Closure { params: Seq<Seq<char>>, body: SpecExpr, env: Map<Seq<char>, SpecValue> },
}

/// The model of a value.
pub open spec fn value_view(v: Value) -> SpecValue
    decreases v,
{
    match v {
        Value::Bool(b) => SpecValue::Bool(b),
        Value::Num(n) => SpecValue::Num(n as int),
        Value::Closure { params, body, env } => SpecValue::Closure {
            params: params.deep_view(),
            body: expr_view(body),
            env: env_entries_view(env.entries@),
        },
    }
}

/// The models of a sequence of values, elementwise.
pub open spec fn values_view(s: Seq<Value>) -> Seq<SpecValue> {
    Seq::new(s.len(), |i: int| value_view(s[i]))
}

/// The map induced by a list of bindings: each entry is laid over the ones
/// before it, so a later binding of a name shadows an earlier one.
pub open spec fn env_entries_view(s: Seq<(String, Value)>) -> Map<Seq<char>, SpecValue>
    decreases s,
{
    if s.len() == 0 {
        Map::empty()
    } else {
        env_entries_view(s.drop_last()).insert(s.last().0@, value_view(s.last().1))
    }
}

impl View for Value {
    type V = SpecValue;

    open spec fn view(&self) -> SpecValue {
        value_view(*self)
    }
}

impl View for Env {
    type V = Map<Seq<char>, SpecValue>;

    open spec fn view(&self) -> Map<Seq<char>, SpecValue> {
        env_entries_view(self.entries@)
    }
}

/// An evaluation error.  Every error aborts the enclosing evaluation and is
/// returned verbatim to the top-level caller; there is no local recovery.
#[derive(Debug, PartialEq)]
pub enum EvalError {
    /// A variable was not bound in the active environment.
    UndefinedVariable(String),
    /// An operand or a condition had the wrong value kind.
    TypeError(String),
    /// The operator symbol of a binary operation is not recognized.
    UnknownOperator(String),
    /// The target of an application is not a closure.
    NotCallable,
    /// The argument count of an application does not match the closure's
    /// parameter count: `ArityMismatch(expected, actual)`.
    ArityMismatch(usize, usize),
    /// The right operand of a division is zero.
    DivisionByZero,
    /// An arithmetic result does not fit the integer representation.
    ArithmeticOverflow,
    /// The recursion budget given to the evaluator ran out before the
    /// expression was fully reduced.
    RecursionLimit,
}

/// The mathematical model of an evaluation error.
pub ghost enum SpecErr {
    UndefinedVariable(Seq<char>),
    TypeError(Seq<char>),
    UnknownOperator(Seq<char>),
    NotCallable,
    ArityMismatch(int, int),
    DivisionByZero,
    ArithmeticOverflow,
    RecursionLimit,
}

/// The model of an error.
pub open spec fn err_view(e: EvalError) -> SpecErr {
    match e {
        EvalError::UndefinedVariable(n) => SpecErr::UndefinedVariable(n@),
        EvalError::TypeError(m) => SpecErr::TypeError(m@),
        EvalError::UnknownOperator(op) => SpecErr::UnknownOperator(op@),
        EvalError::NotCallable => SpecErr::NotCallable,
        EvalError::ArityMismatch(expected, actual) => SpecErr::ArityMismatch(
            expected as int,
            actual as int,
        ),
        EvalError::DivisionByZero => SpecErr::DivisionByZero,
        EvalError::ArithmeticOverflow => SpecErr::ArithmeticOverflow,
        EvalError::RecursionLimit => SpecErr::RecursionLimit,
    }
}

impl View for EvalError {
    type V = SpecErr;

    open spec fn view(&self) -> SpecErr {
        err_view(*self)
    }
}

/// The model of an evaluation result.
pub open spec fn result_view(r: Result<Value, EvalError>) -> Result<SpecValue, SpecErr> {
    match r {
        Ok(v) => Ok(value_view(v)),
        Err(e) => Err(err_view(e)),
    }
}

} // verus!
