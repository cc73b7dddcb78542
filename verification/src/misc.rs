//! Elementwise vector arithmetic, parametric in the scalar operation.
//!
//! Binary operations over two vectors check that the operand lengths match
//! and report `ParameterLengthMismatch` otherwise; operations between a
//! vector and a scalar always succeed. Every operation allocates a fresh
//! output vector and never mutates its inputs.

use vstd::prelude::*;

use crate::ProximalOptimizerErr;

verus! {

/// `r` is an elementwise combination of `a` and `b`: same length, and each
/// `r[i]` is a possible result of `op(a[i], b[i])`.
pub open spec fn zip_rel<T, F: Fn(T, T) -> T>(op: F, a: Seq<T>, b: Seq<T>, r: Seq<T>) -> bool {
    &&& a.len() == b.len()
    &&& r.len() == a.len()
    &&& forall|i: int| 0 <= i < a.len() ==> call_ensures(op, (a[i], b[i]), #[trigger] r[i])
}

/// Combines two vectors elementwise with `op`, allocating a new vector.
///
/// Fails with `ParameterLengthMismatch` exactly when the operand lengths
/// differ. Instantiated with scalar addition or subtraction this is the
/// checked elementwise add or subtract.
pub fn vec_zip<T: Copy, F: Fn(T, T) -> T>(a: &Vec<T>, b: &Vec<T>, op: F) -> (r: Result<
    Vec<T>,
    ProximalOptimizerErr,
>)
    requires
        forall|x: T, y: T| #[trigger] call_requires(op, (x, y)),
    ensures
        a@.len() == b@.len() ==> r is Ok && zip_rel(op, a@, b@, r->Ok_0@),
        a@.len() != b@.len() ==> r is Err && r->Err_0 == ProximalOptimizerErr::ParameterLengthMismatch,
{
    if a.len() != b.len() {
        return Err(ProximalOptimizerErr::ParameterLengthMismatch);
    }
    let n = a.len();
    let mut out: Vec<T> = Vec::new();
    let mut i: usize = 0;
    while i < n
        invariant
            forall|x: T, y: T| #[trigger] call_requires(op, (x, y)),
            n == a@.len(),
            n == b@.len(),
            i <= n,
            out@.len() == i,
            forall|j: int| 0 <= j < i ==> call_ensures(op, (a@[j], b@[j]), #[trigger] out@[j]),
        decreases n - i,
    {
        let v = op(a[i], b[i]);
        out.push(v);
        i += 1;
    }
    Ok(out)
}

/// Combines two vectors of equal length elementwise with `op`, allocating a
/// new vector. Unlike [`vec_zip`] there is no recoverable error: the caller
/// guarantees equal lengths. Instantiated with scalar multiplication this is
/// the elementwise product.
pub fn vec_zip_exact<T: Copy, F: Fn(T, T) -> T>(a: &Vec<T>, b: &Vec<T>, op: F) -> (r: Vec<T>)
    requires
        a@.len() == b@.len(),
        forall|x: T, y: T| #[trigger] call_requires(op, (x, y)),
    ensures
        zip_rel(op, a@, b@, r@),
{
    let n = a.len();
    let mut out: Vec<T> = Vec::new();
    let mut i: usize = 0;
    while i < n
        invariant
            forall|x: T, y: T| #[trigger] call_requires(op, (x, y)),
            n == a@.len(),
            n == b@.len(),
            i <= n,
            out@.len() == i,
            forall|j: int| 0 <= j < i ==> call_ensures(op, (a@[j], b@[j]), #[trigger] out@[j]),
        decreases n - i,
    {
        let v = op(a[i], b[i]);
        out.push(v);
        i += 1;
    }
    out
}

/// `r` is `x` combined elementwise with the scalar `s`: same length, and
/// each `r[i]` is a possible result of `op(x[i], s)`.
pub open spec fn scalar_rel<T, F: Fn(T, T) -> T>(op: F, x: Seq<T>, s: T, r: Seq<T>) -> bool {
    &&& r.len() == x.len()
    &&& forall|i: int| 0 <= i < x.len() ==> call_ensures(op, (x[i], s), #[trigger] r[i])
}

/// Applies `op` between every element of `x` and the scalar `s`, allocating
/// a new vector; always succeeds. Instantiated with scalar subtraction,
/// multiplication or maximum this is the vector-scalar subtract, scale or
/// clamp-from-below.
pub fn vec_scalar<T: Copy, F: Fn(T, T) -> T>(x: &Vec<T>, s: T, op: F) -> (r: Vec<T>)
    requires
        forall|u: T, v: T| #[trigger] call_requires(op, (u, v)),
    ensures
        scalar_rel(op, x@, s, r@),
{
    let n = x.len();
    let mut out: Vec<T> = Vec::new();
    let mut i: usize = 0;
    while i < n
        invariant
            forall|u: T, v: T| #[trigger] call_requires(op, (u, v)),
            n == x@.len(),
            i <= n,
            out@.len() == i,
            forall|j: int| 0 <= j < i ==> call_ensures(op, (x@[j], s), #[trigger] out@[j]),
        decreases n - i,
    {
        let v = op(x[i], s);
        out.push(v);
        i += 1;
    }
    out
}

/// Round trip: when the scalar subtraction exactly undoes the scalar
/// addition — whatever `plus` may return for `(u, v)`, handing that result
/// and `v` to `minus` gives back exactly `u` — then the elementwise round
/// trip `sub(add(a, b), b)` recovers `a` exactly, for all equal-length
/// vectors. Over scalars whose addition rounds, the law holds up to that
/// rounding instead.
pub proof fn lemma_sub_add_round_trip<T, FA: Fn(T, T) -> T, FS: Fn(T, T) -> T>(
    plus: FA,
    minus: FS,
    a: Seq<T>,
    b: Seq<T>,
    s: Seq<T>,
    r: Seq<T>,
)
    requires
        forall|u: T, v: T, w: T, x: T|
            #![trigger call_ensures(plus, (u, v), w), call_ensures(minus, (w, v), x)]
            call_ensures(plus, (u, v), w) && call_ensures(minus, (w, v), x) ==> x == u,
        zip_rel(plus, a, b, s),
        zip_rel(minus, s, b, r),
    ensures
        r == a,
{
    assert forall|i: int| 0 <= i < a.len() implies r[i] == a[i] by {
        assert(call_ensures(plus, (a[i], b[i]), s[i]));
        assert(call_ensures(minus, (s[i], b[i]), r[i]));
    }
    assert(r =~= a);
}

/// A freshly allocated copy of `v`.
pub fn vec_copy<T: Copy>(v: &Vec<T>) -> (r: Vec<T>)
    ensures
        r@ == v@,
{
    let n = v.len();
    let mut out: Vec<T> = Vec::new();
    let mut i: usize = 0;
    while i < n
        invariant
            n == v@.len(),
            i <= n,
            out@ == v@.subrange(0, i as int),
        decreases n - i,
    {
        out.push(v[i]);
        i += 1;
    }
    proof {
        assert(out@ == v@);
    }
    out
}

/// A freshly allocated vector of `n` copies of `val`.
pub fn vec_fill<T: Copy>(n: usize, val: T) -> (r: Vec<T>)
    ensures
        r@ == Seq::new(n as nat, |i: int| val),
{
    let mut out: Vec<T> = Vec::new();
    let mut i: usize = 0;
    while i < n
        invariant
            i <= n,
            out@ == Seq::new(i as nat, |j: int| val),
        decreases n - i,
    {
        out.push(val);
        proof {
            assert(out@ == Seq::new((i + 1) as nat, |j: int| val));
        }
        i += 1;
    }
    out
}

/// `r` is a possible value of the running sum, seeded with `zero`, of the
/// elementwise products of the first `n` elements of `a` and `b`: there is a
/// chain `zero = acc_0, acc_1, ..., acc_n = r` where each `acc_{k+1}` is a
/// possible result of `plus(acc_k, mul(a[k], b[k]))`.
pub open spec fn product_sum_rel<T, FM: Fn(T, T) -> T, FA: Fn(T, T) -> T>(
    mul: FM,
    plus: FA,
    a: Seq<T>,
    b: Seq<T>,
    zero: T,
    n: int,
    r: T,
) -> bool
    decreases n,
{
    if n <= 0 {
        r == zero
    } else {
        exists|acc: T, p: T|
            {
                &&& product_sum_rel(mul, plus, a, b, zero, n - 1, acc)
                &&& call_ensures(mul, (a[n - 1], b[n - 1]), p)
                &&& #[trigger] call_ensures(plus, (acc, p), r)
            }
    }
}

/// Sum of elementwise products of `a` and `b`, seeded with `zero` and folded
/// left to right with `plus`. Fails with `ParameterLengthMismatch` exactly
/// when the operand lengths differ.
pub fn vec_inner_prod<T: Copy, FM: Fn(T, T) -> T, FA: Fn(T, T) -> T>(
    a: &Vec<T>,
    b: &Vec<T>,
    zero: T,
    times: FM,
    plus: FA,
) -> (r: Result<T, ProximalOptimizerErr>)
    requires
        forall|x: T, y: T| #[trigger] call_requires(times, (x, y)),
        forall|x: T, y: T| #[trigger] call_requires(plus, (x, y)),
    ensures
        a@.len() == b@.len() ==> r is Ok && product_sum_rel(
            times,
            plus,
            a@,
            b@,
            zero,
            a@.len() as int,
            r->Ok_0,
        ),
        a@.len() != b@.len() ==> r is Err && r->Err_0 == ProximalOptimizerErr::ParameterLengthMismatch,
{
    if a.len() != b.len() {
        return Err(ProximalOptimizerErr::ParameterLengthMismatch);
    }
    let n = a.len();
    let mut sum = zero;
    let mut i: usize = 0;
    while i < n
        invariant
            forall|x: T, y: T| #[trigger] call_requires(times, (x, y)),
            forall|x: T, y: T| #[trigger] call_requires(plus, (x, y)),
            n == a@.len(),
            n == b@.len(),
            i <= n,
            product_sum_rel(times, plus, a@, b@, zero, i as int, sum),
        decreases n - i,
    {
        let p = times(a[i], b[i]);
        let next = plus(sum, p);
        proof {
            assert(product_sum_rel(times, plus, a@, b@, zero, i + 1, next));
        }
        sum = next;
        i += 1;
    }
    Ok(sum)
}

} // verus!
