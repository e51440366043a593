//! Environment operations and deep copies.
//!
//! An environment is a list of bindings whose model is a `Map`; the lemmas
//! here relate a search over the list to a lookup in the map.  Values are
//! immutable and may be shared between environments, so handing a value out
//! or capturing an environment copies it; the copies are proved equal to the
//! originals at the level of the models.

use vstd::prelude::*;

use crate::ast::Env;
use crate::ast::Expr;
use crate::ast::SpecValue;
use crate::ast::Value;
use crate::ast::env_entries_view;
use crate::ast::exprs_view;
use crate::ast::lemma_exprs_view;
use crate::ast::value_view;
use crate::ast::values_view;
use crate::semantics::spec_extend;

verus! {

/// If entry `i` is the last binding of its name, the map holds its value at
/// that name.
pub proof fn lemma_env_lookup_found(s: Seq<(String, Value)>, i: int)
    requires
        0 <= i < s.len(),
        forall|j: int| i < j < s.len() ==> s[j].0@ != s[i].0@,
    ensures
        env_entries_view(s).contains_key(s[i].0@),
        env_entries_view(s)[s[i].0@] == value_view(s[i].1),
    decreases s.len(),
{
    if i < s.len() - 1 {
        assert(s.drop_last()[i] == s[i]);
        lemma_env_lookup_found(s.drop_last(), i);
    }
}

/// A name bound by no entry is not in the map.
pub proof fn lemma_env_lookup_absent(s: Seq<(String, Value)>, name: Seq<char>)
    requires
        forall|j: int| 0 <= j < s.len() ==> s[j].0@ != name,
    ensures
        !env_entries_view(s).contains_key(name),
    decreases s.len(),
{
    if s.len() > 0 {
        lemma_env_lookup_absent(s.drop_last(), name);
    }
}

/// Entry lists equal at the level of the models induce the same map.
pub proof fn lemma_env_view_congruent(a: Seq<(String, Value)>, b: Seq<(String, Value)>)
    requires
        a.len() == b.len(),
        forall|i: int|
            0 <= i < a.len() ==> a[i].0@ == b[i].0@ && value_view(a[i].1) == value_view(b[i].1),
    ensures
        env_entries_view(a) == env_entries_view(b),
    decreases a.len(),
{
    if a.len() > 0 {
        assert(forall|i: int|
            0 <= i < a.len() - 1 ==> a.drop_last()[i] == a[i] && b.drop_last()[i] == b[i]);
        lemma_env_view_congruent(a.drop_last(), b.drop_last());
    }
}

impl Env {
    /// The empty environment, the usual starting point of an evaluation.
    pub fn new() -> (res: Env)
        ensures
            res@ == Map::<Seq<char>, SpecValue>::empty(),
    {
        Env { entries: Vec::new() }
    }

    /// The value bound to `name`, if any: the latest binding wins.
    pub fn lookup<'a>(&'a self, name: &String) -> (res: Option<&'a Value>)
        ensures
            match res {
                Some(v) => self@.contains_key(name@) && v@ == self@[name@],
                None => !self@.contains_key(name@),
            },
    {
        lookup_entries(&self.entries, name)
    }

    /// A copy of this environment, equal to it at the level of the models.
    /// A function literal captures the defining environment this way.
    pub fn duplicate(&self) -> (res: Env)
        ensures
            res@ == self@,
    {
        Env { entries: clone_entries(&self.entries) }
    }

    /// This environment extended with one binding per parameter, in
    /// parameter order, producing a fresh environment: `self` is unchanged,
    /// so closures that captured it are unaffected.
    pub fn extend(&self, params: &Vec<String>, vals: &Vec<Value>) -> (res: Env)
        requires
            params@.len() == vals@.len(),
        ensures
            res@ == spec_extend(self@, params.deep_view(), values_view(vals@)),
    {
        let ghost p = params.deep_view();
        let ghost v = values_view(vals@);
        let mut entries = clone_entries(&self.entries);
        let n = params.len();
        let mut i: usize = 0;
        while i < n
            invariant
                i <= n,
                n == params@.len(),
                n == vals@.len(),
                p == params.deep_view(),
                v == values_view(vals@),
                env_entries_view(entries@) == spec_extend(self@, p.take(i as int), v.take(i as int)),
            decreases n - i,
        {
            let ghost before = entries@;
            let name = params[i].clone();
            let val = clone_value(&vals[i]);
            entries.push((name, val));
            proof {
                assert(entries@.drop_last() =~= before);
                assert(entries@.last() == (name, val));
                assert(name@ == p[i as int]);
                assert(val@ == v[i as int]);
                assert(env_entries_view(entries@) == env_entries_view(before).insert(
                    name@,
                    value_view(val),
                ));
                assert(p.take(i + 1).drop_last() =~= p.take(i as int));
                assert(v.take(i + 1).drop_last() =~= v.take(i as int));
                assert(p.take(i + 1).last() == p[i as int]);
                assert(v.take(i + 1).last() == v[i as int]);
            }
            i = i + 1;
        }
        proof {
            assert(p.take(n as int) =~= p);
            assert(v.take(n as int) =~= v);
        }
        Env { entries }
    }
}

/// The value the map induced by a binding list holds at `name`, if any,
/// found by scanning the list from its latest entry back.
pub(crate) fn lookup_entries<'a>(s: &'a Vec<(String, Value)>, name: &String) -> (res: Option<
    &'a Value,
>)
    ensures
        match res {
            Some(v) => env_entries_view(s@).contains_key(name@) && v@ == env_entries_view(
                s@,
            )[name@],
            None => !env_entries_view(s@).contains_key(name@),
        },
{
    let n = s.len();
    let mut j = n;
    while j > 0
        invariant
            j <= n,
            n == s@.len(),
            forall|m: int| j <= m < n ==> s@[m].0@ != name@,
        decreases j,
    {
        j = j - 1;
        let pair = &s[j];
        if pair.0 == *name {
            proof {
                lemma_env_lookup_found(s@, j as int);
            }
            return Some(&pair.1);
        }
    }
    proof {
        lemma_env_lookup_absent(s@, name@);
    }
    None
}

/// A copy of a binding list, equal to the original at the level of the
/// models.
fn clone_entries(s: &Vec<(String, Value)>) -> (res: Vec<(String, Value)>)
    ensures
        res@.len() == s@.len(),
        forall|i: int|
            0 <= i < s@.len() ==> res@[i].0@ == s@[i].0@ && value_view(res@[i].1) == value_view(
                s@[i].1,
            ),
        env_entries_view(res@) == env_entries_view(s@),
    decreases s,
{
    let mut out: Vec<(String, Value)> = Vec::new();
    let n = s.len();
    let mut i: usize = 0;
    while i < n
        invariant
            i <= n,
            n == s@.len(),
            out@.len() == i,
            forall|j: int|
                0 <= j < i ==> out@[j].0@ == s@[j].0@ && value_view(out@[j].1) == value_view(
                    s@[j].1,
                ),
        decreases n - i,
    {
        let pair = &s[i];
        let name = pair.0.clone();
        let val = clone_value(&pair.1);
        out.push((name, val));
        i = i + 1;
    }
    proof {
        lemma_env_view_congruent(out@, s@);
    }
    out
}

/// A copy of an expression, equal to the original at the level of the
/// models.
#[verifier::loop_isolation(false)]
pub fn clone_expr(e: &Expr) -> (res: Expr)
    ensures
        res@ == e@,
    decreases e,
{
    match e {
        Expr::Bool(b) => Expr::Bool(*b),
        Expr::Num(n) => Expr::Num(*n),
        Expr::Binop { op, l, r } => Expr::Binop {
            op: op.clone(),
            l: Box::new(clone_expr(&**l)),
            r: Box::new(clone_expr(&**r)),
        },
        Expr::If { c, t, f } => Expr::If {
            c: Box::new(clone_expr(&**c)),
            t: Box::new(clone_expr(&**t)),
            f: Box::new(clone_expr(&**f)),
        },
        Expr::Varref { name } => Expr::Varref { name: name.clone() },
        Expr::App { fun, args } => {
            let cfun = Box::new(clone_expr(&**fun));
            let mut cargs: Vec<Expr> = Vec::new();
            let n = args.len();
            let mut i: usize = 0;
            while i < n
                invariant
                    i <= n,
                    n == args@.len(),
                    cargs@.len() == i,
                    forall|j: int| 0 <= j < i ==> cargs@[j]@ == args@[j]@,
                decreases n - i,
            {
                cargs.push(clone_expr(&args[i]));
                i = i + 1;
            }
            proof {
                lemma_exprs_view(cargs@);
                lemma_exprs_view(args@);
                assert(exprs_view(cargs@) =~= exprs_view(args@));
            }
            Expr::App { fun: cfun, args: cargs }
        },
        Expr::Fundef { params, body } => Expr::Fundef {
            params: clone_names(params),
            body: Box::new(clone_expr(&**body)),
        },
    }
}

/// A copy of a parameter list, equal to the original.
pub(crate) fn clone_names(names: &Vec<String>) -> (res: Vec<String>)
    ensures
        res@ == names@,
        res.deep_view() == names.deep_view(),
{
    let mut out: Vec<String> = Vec::new();
    let n = names.len();
    let mut i: usize = 0;
    while i < n
        invariant
            i <= n,
            n == names@.len(),
            out@.len() == i,
            forall|j: int| 0 <= j < i ==> out@[j] == names@[j],
        decreases n - i,
    {
        out.push(names[i].clone());
        i = i + 1;
    }
    proof {
        assert(out@ =~= names@);
        assert(out.deep_view() =~= names.deep_view());
    }
    out
}

/// A copy of a value, equal to the original at the level of the models.
/// Handing a bound value out of an environment copies it this way.
pub fn clone_value(v: &Value) -> (res: Value)
    ensures
        res@ == v@,
    decreases v,
{
    match v {
        Value::Bool(b) => Value::Bool(*b),
        Value::Num(n) => Value::Num(*n),
        Value::Closure { params, body, env } => Value::Closure {
            params: clone_names(params),
            body: clone_expr(body),
            env: Env { entries: clone_entries(&env.entries) },
        },
    }
}

} // verus!
