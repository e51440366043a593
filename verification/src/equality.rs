//! Structural equality between runtime values, the meaning of the `equal?`
//! operator.
//!
//! Two values are structurally equal exactly when their mathematical models
//! are equal.  For closures this includes the captured environments, compared
//! as mappings: the binding lists may differ in layout (order of distinct
//! names, shadowed entries) and still induce the same map.

use vstd::prelude::*;

use crate::ast::Expr;
use crate::ast::Value;
use crate::ast::env_entries_view;
use crate::ast::exprs_view;
use crate::ast::lemma_exprs_view;
use crate::ast::value_view;
use crate::env::lemma_env_lookup_found;
use crate::env::lookup_entries;

verus! {

/// Entry `i` is the latest binding of its name in the list: the binding the
/// induced map holds.
pub open spec fn is_last_binding(s: Seq<(String, Value)>, i: int) -> bool {
    forall|j: int| i < j < s.len() ==> s[j].0@ != s[i].0@
}

/// Every name the induced map holds has a latest binding in the list.
pub proof fn lemma_env_dom_last_binding(s: Seq<(String, Value)>, k: Seq<char>)
    requires
        env_entries_view(s).contains_key(k),
    ensures
        exists|i: int| 0 <= i < s.len() && s[i].0@ == k && is_last_binding(s, i),
    decreases s.len(),
{
    if s.len() > 0 {
        if s.last().0@ == k {
            assert(is_last_binding(s, s.len() - 1));
        } else {
            lemma_env_dom_last_binding(s.drop_last(), k);
            let i = choose|i: int|
                0 <= i < s.drop_last().len() && s.drop_last()[i].0@ == k && is_last_binding(
                    s.drop_last(),
                    i,
                );
            assert(s.drop_last()[i] == s[i]);
            assert(forall|j: int| i < j < s.len() - 1 ==> s.drop_last()[j] == s[j]);
            assert(is_last_binding(s, i));
        }
    }
}

/// Whether entry `i` is the latest binding of its name.
fn is_last_binding_exec(s: &Vec<(String, Value)>, i: usize) -> (res: bool)
    requires
        i < s@.len(),
    ensures
        res == is_last_binding(s@, i as int),
{
    let n = s.len();
    let mut j = i + 1;
    while j < n
        invariant
            i < j <= n,
            n == s@.len(),
            forall|m: int| i < m < j ==> s@[m].0@ != s@[i as int].0@,
        decreases n - j,
    {
        if s[j].0 == s[i].0 {
            return false;
        }
        j = j + 1;
    }
    true
}

/// Whether two parameter lists are the same names in the same order.
fn names_eq(a: &Vec<String>, b: &Vec<String>) -> (res: bool)
    ensures
        res == (a.deep_view() == b.deep_view()),
{
    let n = a.len();
    if n != b.len() {
        assert(a.deep_view().len() != b.deep_view().len());
        return false;
    }
    let mut i: usize = 0;
    while i < n
        invariant
            i <= n,
            n == a@.len(),
            n == b@.len(),
            forall|j: int| 0 <= j < i ==> a@[j]@ == b@[j]@,
        decreases n - i,
    {
        if !(a[i] == b[i]) {
            assert(a.deep_view()[i as int] != b.deep_view()[i as int]);
            return false;
        }
        i = i + 1;
    }
    assert(a.deep_view() =~= b.deep_view());
    true
}

/// Whether two expressions are structurally equal: equal at the level of the
/// models.
#[verifier::loop_isolation(false)]
pub fn expr_eq(a: &Expr, b: &Expr) -> (res: bool)
    ensures
        res == (a@ == b@),
    decreases a,
{
    match (a, b) {
        (Expr::Bool(x), Expr::Bool(y)) => *x == *y,
        (Expr::Num(x), Expr::Num(y)) => *x == *y,
        (
            Expr::Binop { op: op1, l: l1, r: r1 },
            Expr::Binop { op: op2, l: l2, r: r2 },
        ) => *op1 == *op2 && expr_eq(&**l1, &**l2) && expr_eq(&**r1, &**r2),
        (Expr::If { c: c1, t: t1, f: f1 }, Expr::If { c: c2, t: t2, f: f2 }) => expr_eq(
            &**c1,
            &**c2,
        ) && expr_eq(&**t1, &**t2) && expr_eq(&**f1, &**f2),
        (Expr::Varref { name: n1 }, Expr::Varref { name: n2 }) => *n1 == *n2,
        (Expr::App { fun: fun1, args: args1 }, Expr::App { fun: fun2, args: args2 }) => {
            if !expr_eq(&**fun1, &**fun2) {
                return false;
            }
            let n = args1.len();
            if n != args2.len() {
                proof {
                    lemma_exprs_view(args1@);
                    lemma_exprs_view(args2@);
                }
                return false;
            }
            let mut i: usize = 0;
            while i < n
                invariant
                    i <= n,
                    forall|j: int| 0 <= j < i ==> args1@[j]@ == args2@[j]@,
                decreases n - i,
            {
                if !expr_eq(&args1[i], &args2[i]) {
                    proof {
                        lemma_exprs_view(args1@);
                        lemma_exprs_view(args2@);
                        assert(exprs_view(args1@)[i as int] != exprs_view(args2@)[i as int]);
                    }
                    return false;
                }
                i = i + 1;
            }
            proof {
                lemma_exprs_view(args1@);
                lemma_exprs_view(args2@);
                assert(exprs_view(args1@) =~= exprs_view(args2@));
            }
            true
        },
        (
            Expr::Fundef { params: p1, body: b1 },
            Expr::Fundef { params: p2, body: b2 },
        ) => names_eq(p1, p2) && expr_eq(&**b1, &**b2),
        _ => false,
    }
}

/// Whether two binding lists induce the same mapping from name to value.
#[verifier::loop_isolation(false)]
fn env_entries_eq(x: &Vec<(String, Value)>, y: &Vec<(String, Value)>) -> (res: bool)
    ensures
        res == (env_entries_view(x@) == env_entries_view(y@)),
    decreases x, 1int,
{
    let ghost vx = env_entries_view(x@);
    let ghost vy = env_entries_view(y@);
    let nx = x.len();
    let mut i: usize = 0;
    while i < nx
        invariant
            i <= nx,
            nx == x@.len(),
            forall|m: int|
                0 <= m < i && is_last_binding(x@, m) ==> vy.contains_key(#[trigger] x@[m].0@)
                    && vy[x@[m].0@] == value_view(x@[m].1),
        decreases nx - i,
    {
        if is_last_binding_exec(x, i) {
            proof {
                lemma_env_lookup_found(x@, i as int);
            }
            match lookup_entries(y, &x[i].0) {
                Some(w) => {
                    if !value_eq(&x[i].1, w) {
                        assert(vx[x@[i as int].0@] != vy[x@[i as int].0@]);
                        return false;
                    }
                },
                None => {
                    assert(vx.contains_key(x@[i as int].0@) && !vy.contains_key(
                        x@[i as int].0@,
                    ));
                    return false;
                },
            }
        }
        i = i + 1;
    }
    let ny = y.len();
    let mut j: usize = 0;
    while j < ny
        invariant
            j <= ny,
            ny == y@.len(),
            forall|m: int|
                0 <= m < j && is_last_binding(y@, m) ==> vx.contains_key(#[trigger] y@[m].0@),
        decreases ny - j,
    {
        if is_last_binding_exec(y, j) {
            proof {
                lemma_env_lookup_found(y@, j as int);
            }
            match lookup_entries(x, &y[j].0) {
                Some(_) => {},
                None => {
                    assert(vy.contains_key(y@[j as int].0@) && !vx.contains_key(
                        y@[j as int].0@,
                    ));
                    return false;
                },
            }
        }
        j = j + 1;
    }
    proof {
        assert forall|k: Seq<char>| #[trigger] vx.dom().contains(k) implies vy.dom().contains(k)
            && vx[k] == vy[k] by {
            lemma_env_dom_last_binding(x@, k);
            let m = choose|m: int|
                0 <= m < x@.len() && x@[m].0@ == k && is_last_binding(x@, m);
            lemma_env_lookup_found(x@, m);
        }
        assert forall|k: Seq<char>| #[trigger] vy.dom().contains(k) implies vx.dom().contains(
            k,
        ) by {
            lemma_env_dom_last_binding(y@, k);
            let m = choose|m: int|
                0 <= m < y@.len() && y@[m].0@ == k && is_last_binding(y@, m);
            assert(vx.contains_key(y@[m].0@));
        }
        assert(vx.dom() =~= vy.dom());
        assert(vx =~= vy);
    }
    true
}

/// Whether two runtime values are structurally equal.  This is total over
/// all value kinds: values of different kinds are unequal, never an error.
#[verifier::loop_isolation(false)]
pub fn value_eq(a: &Value, b: &Value) -> (res: bool)
    ensures
        res == (a@ == b@),
    decreases a, 0int,
{
    match (a, b) {
        (Value::Bool(x), Value::Bool(y)) => *x == *y,
        (Value::Num(x), Value::Num(y)) => *x == *y,
        (
            Value::Closure { params: p1, body: b1, env: e1 },
            Value::Closure { params: p2, body: b2, env: e2 },
        ) => names_eq(p1, p2) && expr_eq(b1, b2) && env_entries_eq(&e1.entries, &e2.entries),
        _ => false,
    }
}

} // verus!
