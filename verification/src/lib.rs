//! Numerical optimization over fixed-length vectors: a Proximal Gradient
//! Method driver with optional Nesterov acceleration and relaxation, and a
//! derivative-free coordinate hill-climbing optimizer with adaptive
//! per-dimension step sizes.
//!
//! The library is parametric in the scalar type: every arithmetic primitive
//! and every comparison is supplied by the caller as a closure, and each
//! contract pins the result down in terms of the postconditions of those
//! closures. A caller instantiates the scalar type with its numeric type of
//! choice and ordinary arithmetic closures.

use vstd::prelude::*;

pub mod climb;
pub mod misc;
pub mod utils;

use crate::misc::{scalar_rel, vec_scalar, vec_zip, vec_zip_exact, vec_fill, vec_copy, zip_rel,
    product_sum_rel};
use crate::utils::{l2sq, NesterovStepper};

verus! {

/// A failure reported to the caller by an optimization routine.
#[derive(Copy, Clone, Debug, PartialEq, Eq, Structural)]
pub enum ProximalOptimizerErr {
    /// The length of a parameter vector does not match the number of
    /// parameters the routine was configured with, or two operand vectors
    /// of a binary arithmetic operation differ in length.
    ParameterLengthMismatch,
    /// The objective's value at the starting position could not be compared
    /// with itself (a not-a-number-like output).
    StartUnorderable,
    /// The candidate solution is no better than the starting position, and
    /// may actually be worse.
    SolutionNoBetter,
}

/// `xt` is a possible Nesterov extrapolation of `x` away from `x_prev` with
/// multiplier `om`: `xt = x + om * (x - x_prev)`, elementwise through the
/// caller's scalar operations.
pub open spec fn extrapolation_rel<T, FS: Fn(T, T) -> T, FM: Fn(T, T) -> T, FA: Fn(T, T) -> T>(
    minus: FS,
    times: FM,
    plus: FA,
    om: T,
    x: Seq<T>,
    x_prev: Seq<T>,
    xt: Seq<T>,
) -> bool {
    exists|d: Seq<T>, d2: Seq<T>|
        {
            &&& #[trigger] zip_rel(minus, x, x_prev, d)
            &&& scalar_rel(times, d, om, d2)
            &&& #[trigger] zip_rel(plus, x, d2, xt)
        }
}

/// The extrapolated point for one iteration: `x` itself when the momentum
/// multiplier is not positive, and `x + om * (x - x_prev)` otherwise.
///
/// When the multiplier is not positive the result is exactly the current
/// point — no arithmetic is performed at all. A length mismatch between `x`
/// and `x_prev` is reported as `ParameterLengthMismatch`, and only arises
/// when extrapolation is actually attempted.
pub fn extrapolate<T: Copy, FS: Fn(T, T) -> T + Copy, FM: Fn(T, T) -> T + Copy, FA: Fn(
    T,
    T,
) -> T + Copy>(
    x: &Vec<T>,
    x_prev: &Vec<T>,
    om: T,
    om_pos: bool,
    minus: FS,
    times: FM,
    plus: FA,
) -> (r: Result<Vec<T>, ProximalOptimizerErr>)
    requires
        forall|u: T, v: T| #[trigger] call_requires(minus, (u, v)),
        forall|u: T, v: T| #[trigger] call_requires(times, (u, v)),
        forall|u: T, v: T| #[trigger] call_requires(plus, (u, v)),
    ensures
        !om_pos ==> r is Ok && r->Ok_0@ == x@,
        om_pos && x@.len() == x_prev@.len() ==> r is Ok && extrapolation_rel(
            minus,
            times,
            plus,
            om,
            x@,
            x_prev@,
            r->Ok_0@,
        ),
        om_pos && x@.len() != x_prev@.len() ==> r is Err,
        r is Err ==> r->Err_0 == ProximalOptimizerErr::ParameterLengthMismatch,
{
    if om_pos {
        let d = match vec_zip(x, x_prev, minus) {
            Ok(v) => v,
            Err(e) => {
                return Err(e);
            },
        };
        let d2 = vec_scalar(&d, om, times);
        let xt = vec_zip_exact(x, &d2, plus);
        proof {
            assert(extrapolation_rel(minus, times, plus, om, x@, x_prev@, xt@));
        }
        Ok(xt)
    } else {
        Ok(vec_copy(x))
    }
}

/// `flag` is a possible outcome of the fixed-point convergence test between
/// an iterate `x` and its predecessor `x_prev`: the squared norm of
/// `x - x_prev` compared, with the caller's ordering, against
/// `e_rel^2` times the squared norm of `x`.
pub open spec fn convergence_rel<
    T,
    FS: Fn(T, T) -> T,
    FM: Fn(T, T) -> T,
    FA: Fn(T, T) -> T,
    FL: Fn(T, T) -> bool,
>(
    minus: FS,
    times: FM,
    plus: FA,
    le: FL,
    zero: T,
    e_rel: T,
    x: Seq<T>,
    x_prev: Seq<T>,
    flag: bool,
) -> bool {
    exists|d: Seq<T>, left: T, xsq: T, m1: T, right: T|
        {
            &&& #[trigger] zip_rel(minus, x, x_prev, d)
            &&& #[trigger] product_sum_rel(times, plus, d, d, zero, d.len() as int, left)
            &&& #[trigger] product_sum_rel(times, plus, x, x, zero, x.len() as int, xsq)
            &&& #[trigger] call_ensures(times, (xsq, e_rel), m1)
            &&& #[trigger] call_ensures(times, (m1, e_rel), right)
            &&& call_ensures(le, (left, right), flag)
        }
}

/// The fixed-point convergence test: whether the squared norm of
/// `x - x_prev` is at most `e_rel^2` times the squared norm of `x`, under
/// the caller's ordering `le`. The returned flag is true if and only if the
/// comparison accepted the bound. Fails with `ParameterLengthMismatch`
/// exactly when the two iterates differ in length.
pub fn converged_test<
    T: Copy,
    FS: Fn(T, T) -> T + Copy,
    FM: Fn(T, T) -> T + Copy,
    FA: Fn(T, T) -> T + Copy,
    FL: Fn(T, T) -> bool,
>(
    x: &Vec<T>,
    x_prev: &Vec<T>,
    e_rel: T,
    zero: T,
    minus: FS,
    times: FM,
    plus: FA,
    le: FL,
) -> (r: Result<bool, ProximalOptimizerErr>)
    requires
        forall|u: T, v: T| #[trigger] call_requires(minus, (u, v)),
        forall|u: T, v: T| #[trigger] call_requires(times, (u, v)),
        forall|u: T, v: T| #[trigger] call_requires(plus, (u, v)),
        forall|u: T, v: T| #[trigger] call_requires(le, (u, v)),
    ensures
        x@.len() == x_prev@.len() ==> r is Ok && convergence_rel(
            minus,
            times,
            plus,
            le,
            zero,
            e_rel,
            x@,
            x_prev@,
            r->Ok_0,
        ),
        x@.len() != x_prev@.len() ==> r is Err && r->Err_0
            == ProximalOptimizerErr::ParameterLengthMismatch,
{
    let d = match vec_zip(x, x_prev, minus) {
        Ok(v) => v,
        Err(e) => {
            return Err(e);
        },
    };
    let left = l2sq(&d, zero, times, plus);
    let xsq = l2sq(x, zero, times, plus);
    let m1 = times(xsq, e_rel);
    let right = times(m1, e_rel);
    let flag = le(left, right);
    proof {
        assert(convergence_rel(minus, times, plus, le, zero, e_rel, x@, x_prev@, flag));
    }
    Ok(flag)
}

/// `raw` is a possible output of the caller's proximal function applied to
/// the point `xt` with the per-dimension step sizes `step`.
pub open spec fn prox_step_rel<T, FP: Fn(&Vec<T>, &Vec<T>) -> Vec<T>>(
    prox: FP,
    step: Seq<T>,
    xt: Seq<T>,
    raw: Seq<T>,
) -> bool {
    exists|a: &Vec<T>, s: &Vec<T>, out: Vec<T>|
        {
            &&& a@ == xt
            &&& s@ == step
            &&& out@ == raw
            &&& #[trigger] call_ensures(prox, (a, s), out)
        }
}

/// `xr` is a possible relaxed update of the proximal output `raw` away from
/// the previous iterate `x_prev` with relaxation factor `rv`:
/// `xr = raw + (rv - 1) * (raw - x_prev)`, elementwise through the caller's
/// scalar operations.
pub open spec fn relax_rel<T, FS: Fn(T, T) -> T, FM: Fn(T, T) -> T, FA: Fn(T, T) -> T>(
    minus: FS,
    times: FM,
    plus: FA,
    rv: T,
    one: T,
    raw: Seq<T>,
    x_prev: Seq<T>,
    xr: Seq<T>,
) -> bool {
    exists|rm1: T, d: Seq<T>, d2: Seq<T>|
        {
            &&& #[trigger] call_ensures(minus, (rv, one), rm1)
            &&& #[trigger] zip_rel(minus, raw, x_prev, d)
            &&& scalar_rel(times, d, rm1, d2)
            &&& #[trigger] zip_rel(plus, raw, d2, xr)
        }
}

/// The iterate `x` was produced from its predecessor `x_prev` by one
/// proximal step: some extrapolated point was handed to the caller's
/// proximal function with the step sizes `step`, and `x` is its output,
/// relaxed around `x_prev` when a relaxation factor is configured.
pub open spec fn pgm_step_rel<
    T,
    FP: Fn(&Vec<T>, &Vec<T>) -> Vec<T>,
    FS: Fn(T, T) -> T,
    FM: Fn(T, T) -> T,
    FA: Fn(T, T) -> T,
>(
    prox: FP,
    minus: FS,
    times: FM,
    plus: FA,
    step: Seq<T>,
    relax: Option<T>,
    one: T,
    x_prev: Seq<T>,
    x: Seq<T>,
) -> bool {
    exists|xt: Seq<T>, raw: Seq<T>|
        {
            &&& #[trigger] prox_step_rel(prox, step, xt, raw)
            &&& match relax {
                Option::None => x == raw,
                Option::Some(rv) => relax_rel(minus, times, plus, rv, one, raw, x_prev, x),
            }
        }
}

/// What the Proximal Gradient Method promises of a successful result
/// `res = (x, converged, error)`: there is a predecessor iterate `x_prev`
/// such that `error` is the last update `x - x_prev`; and, whenever at
/// least one iteration ran, `converged` is an outcome of the fixed-point
/// convergence test between `x` and `x_prev`, and `x` was produced from
/// `x_prev` by one proximal step.
pub open spec fn pgm_ok_rel<
    T,
    FP: Fn(&Vec<T>, &Vec<T>) -> Vec<T>,
    FS: Fn(T, T) -> T,
    FM: Fn(T, T) -> T,
    FA: Fn(T, T) -> T,
    FL: Fn(T, T) -> bool,
>(
    prox: FP,
    minus: FS,
    times: FM,
    plus: FA,
    le: FL,
    step: Seq<T>,
    relax: Option<T>,
    zero: T,
    one: T,
    e_rel: T,
    max_iter: usize,
    res: (Vec<T>, bool, Vec<T>),
) -> bool {
    exists|x_prev: Seq<T>|
        {
            &&& #[trigger] zip_rel(minus, res.0@, x_prev, res.2@)
            &&& max_iter > 0 ==> {
                &&& convergence_rel(minus, times, plus, le, zero, e_rel, res.0@, x_prev, res.1)
                &&& pgm_step_rel(prox, minus, times, plus, step, relax, one, x_prev, res.0@)
            }
        }
}

/// One full iteration of the Proximal Gradient Method, relating the state
/// before the iteration — previous iterate `x_before`, current iterate
/// `x_cur`, momentum `t_cur` — to the state after it: there are a momentum
/// multiplier `om` produced by the stepper (`advance` applied to `t_cur`
/// when accelerated, the zero scalar otherwise), a positivity verdict for
/// it, an extrapolated point (the current iterate itself unless the
/// multiplier is positive), a proximal output for that point, an optional
/// relaxation folding the displacement back into the iterate, and a
/// convergence verdict `flag` between the new and the current iterate.
pub open spec fn pgm_iter_rel<
    T,
    FP: Fn(&Vec<T>, &Vec<T>) -> Vec<T>,
    FS: Fn(T, T) -> T,
    FM: Fn(T, T) -> T,
    FA: Fn(T, T) -> T,
    FL: Fn(T, T) -> bool,
    FPos: Fn(T) -> bool,
    FAdv: Fn(T) -> (T, T),
>(
    prox: FP,
    minus: FS,
    times: FM,
    plus: FA,
    le: FL,
    is_pos: FPos,
    advance: FAdv,
    accelerated: bool,
    step: Seq<T>,
    relax: Option<T>,
    zero: T,
    one: T,
    e_rel: T,
    x_before: Seq<T>,
    x_cur: Seq<T>,
    t_cur: T,
    x_next: Seq<T>,
    t_next: T,
    flag: bool,
) -> bool {
    exists|om: T, om_pos: bool, xt: Seq<T>, raw: Seq<T>|
        {
            &&& if accelerated {
                call_ensures(advance, (t_cur,), (t_next, om))
            } else {
                om == zero && t_next == t_cur
            }
            &&& #[trigger] call_ensures(is_pos, (om,), om_pos)
            &&& if om_pos {
                extrapolation_rel(minus, times, plus, om, x_cur, x_before, xt)
            } else {
                xt == x_cur
            }
            &&& #[trigger] prox_step_rel(prox, step, xt, raw)
            &&& match relax {
                Option::None => x_next == raw,
                Option::Some(rv) => relax_rel(minus, times, plus, rv, one, raw, x_cur, x_next),
            }
            &&& convergence_rel(minus, times, plus, le, zero, e_rel, x_next, x_cur, flag)
        }
}

/// The complete behaviour of a successful Proximal Gradient Method run
/// `res = (x, converged, error)` from `start`: there is a trace of iterates
/// `xs` (opening with the all-zero previous iterate and the start), of
/// momentum values `ts` (opening with the unit scalar), and of convergence
/// verdicts `flags`, one per iteration run, such that consecutive states
/// are related by [`pgm_iter_rel`]; no iteration before the last converged;
/// at most `max_iter` iterations ran, and exactly `max_iter` unless the run
/// converged; `converged` is the last verdict; `x` is the last iterate; and
/// `error` is the last update `x - x_prev`.
pub open spec fn pgm_trace_rel<
    T,
    FP: Fn(&Vec<T>, &Vec<T>) -> Vec<T>,
    FS: Fn(T, T) -> T,
    FM: Fn(T, T) -> T,
    FA: Fn(T, T) -> T,
    FL: Fn(T, T) -> bool,
    FPos: Fn(T) -> bool,
    FAdv: Fn(T) -> (T, T),
>(
    prox: FP,
    minus: FS,
    times: FM,
    plus: FA,
    le: FL,
    is_pos: FPos,
    advance: FAdv,
    accelerated: bool,
    step: Seq<T>,
    relax: Option<T>,
    zero: T,
    one: T,
    e_rel: T,
    start: Seq<T>,
    max_iter: usize,
    res: (Vec<T>, bool, Vec<T>),
) -> bool {
    exists|xs: Seq<Seq<T>>, ts: Seq<T>, flags: Seq<bool>|
        #![trigger xs.len(), ts.len(), flags.len()]
        {
            &&& xs.len() == flags.len() + 2
            &&& ts.len() == flags.len() + 1
            &&& xs[0] == Seq::new(start.len(), |i: int| zero)
            &&& xs[1] == start
            &&& ts[0] == one
            &&& forall|j: int|
                0 <= j < flags.len() ==> #[trigger] pgm_iter_rel(
                    prox,
                    minus,
                    times,
                    plus,
                    le,
                    is_pos,
                    advance,
                    accelerated,
                    step,
                    relax,
                    zero,
                    one,
                    e_rel,
                    xs[j],
                    xs[j + 1],
                    ts[j],
                    xs[j + 2],
                    ts[j + 1],
                    flags[j],
                )
            &&& forall|j: int| 0 <= j < flags.len() - 1 ==> !(#[trigger] flags[j])
            &&& flags.len() <= max_iter
            &&& res.1 == (flags.len() > 0 && flags.last())
            &&& (res.1 || flags.len() == max_iter)
            &&& res.0@ == xs.last()
            &&& zip_rel(minus, xs.last(), xs[xs.len() - 2], res.2@)
        }
}

/// Proximal Gradient Method.
///
/// Starting from `start_x`, iterates up to `max_iter` times: query the
/// Nesterov stepper for the momentum multiplier omega (always the zero
/// scalar when `accelerated` is false); extrapolate the current iterate when
/// omega is positive; apply the caller's proximal function `prox_f` with the
/// per-dimension step sizes `step_f`; fold the relaxed update
/// `(relax - 1) * (X - X_prev)` back into the iterate when a relaxation
/// factor is configured; and stop as soon as the fixed-point convergence
/// test accepts (squared norm of the update at most `e_rel^2` times the
/// squared norm of the iterate).
///
/// The scalar arithmetic is supplied by the caller: `zero` and `one` are the
/// additive and multiplicative units, `minus`, `times` and `plus` the
/// elementwise operations, `le` the ordering used by the convergence test,
/// `is_pos` the strict positivity test for omega, and `advance` the Nesterov
/// momentum update (see [`NesterovStepper::omega`]). A relaxation factor
/// must lie strictly between 0 and 1.5; that is a caller obligation on the
/// supplied scalars which the routine cannot itself test.
///
/// Returns the final iterate, the convergence flag, and the last update
/// `X - X_prev`. The only recoverable failure is `ParameterLengthMismatch`,
/// reported when vectors of differing lengths meet in the arithmetic —
/// non-convergence within `max_iter` is not an error.
pub fn pgm<
    T: Copy,
    FP: Fn(&Vec<T>, &Vec<T>) -> Vec<T>,
    FS: Fn(T, T) -> T + Copy,
    FM: Fn(T, T) -> T + Copy,
    FA: Fn(T, T) -> T + Copy,
    FL: Fn(T, T) -> bool + Copy,
    FPos: Fn(T) -> bool + Copy,
    FAdv: Fn(T) -> (T, T) + Copy,
>(
    start_x: &Vec<T>,
    prox_f: FP,
    step_f: &Vec<T>,
    accelerated: bool,
    relax: Option<T>,
    e_rel: T,
    max_iter: usize,
    zero: T,
    one: T,
    minus: FS,
    times: FM,
    plus: FA,
    le: FL,
    is_pos: FPos,
    advance: FAdv,
) -> (r: Result<(Vec<T>, bool, Vec<T>), ProximalOptimizerErr>)
    requires
        forall|a: &Vec<T>, s: &Vec<T>| #[trigger] call_requires(prox_f, (a, s)),
        forall|u: T, v: T| #[trigger] call_requires(minus, (u, v)),
        forall|u: T, v: T| #[trigger] call_requires(times, (u, v)),
        forall|u: T, v: T| #[trigger] call_requires(plus, (u, v)),
        forall|u: T, v: T| #[trigger] call_requires(le, (u, v)),
        forall|u: T| #[trigger] call_requires(is_pos, (u,)),
        forall|u: T| #[trigger] call_requires(advance, (u,)),
    ensures
        r is Err ==> r->Err_0 == ProximalOptimizerErr::ParameterLengthMismatch,
        max_iter == 0 ==> r is Ok && r->Ok_0.0@ == start_x@ && !r->Ok_0.1,
        r is Ok ==> pgm_ok_rel(
            prox_f,
            minus,
            times,
            plus,
            le,
            step_f@,
            relax,
            zero,
            one,
            e_rel,
            max_iter,
            r->Ok_0,
        ),
        r is Ok ==> pgm_trace_rel(
            prox_f,
            minus,
            times,
            plus,
            le,
            is_pos,
            advance,
            accelerated,
            step_f@,
            relax,
            zero,
            one,
            e_rel,
            start_x@,
            max_iter,
            r->Ok_0,
        ),
{
    let mut stepper = NesterovStepper::new(accelerated, one, zero);
    let mut x = vec_copy(start_x);
    let mut x_prev = vec_fill(start_x.len(), zero);
    let mut it: usize = 0;
    let mut converged: bool = false;
    let ghost zeros = Seq::new(start_x@.len(), |i: int| zero);
    let ghost mut xs: Seq<Seq<T>> = seq![zeros, start_x@];
    let ghost mut ts: Seq<T> = seq![one];
    let ghost mut flags: Seq<bool> = Seq::empty();
    while it < max_iter && !converged
        invariant
            forall|a: &Vec<T>, s: &Vec<T>| #[trigger] call_requires(prox_f, (a, s)),
            forall|u: T, v: T| #[trigger] call_requires(minus, (u, v)),
            forall|u: T, v: T| #[trigger] call_requires(times, (u, v)),
            forall|u: T, v: T| #[trigger] call_requires(plus, (u, v)),
            forall|u: T, v: T| #[trigger] call_requires(le, (u, v)),
            forall|u: T| #[trigger] call_requires(is_pos, (u,)),
            forall|u: T| #[trigger] call_requires(advance, (u,)),
            it <= max_iter,
            converged ==> it > 0,
            it == 0 && !converged ==> x@ == start_x@ && x_prev@ == Seq::new(
                start_x@.len(),
                |j: int| zero,
            ),
            xs.len() == it + 2,
            ts.len() == it + 1,
            flags.len() == it,
            xs[0] == Seq::new(start_x@.len(), |i: int| zero),
            xs[1] == start_x@,
            ts[0] == one,
            x@ == xs.last(),
            x_prev@ == xs[xs.len() - 2],
            stepper.momentum() == ts.last(),
            stepper.is_accelerated() == accelerated,
            stepper.zero_value() == zero,
            converged == (flags.len() > 0 && flags.last()),
            forall|j: int| 0 <= j < flags.len() - 1 ==> !(#[trigger] flags[j]),
            forall|j: int|
                0 <= j < flags.len() ==> #[trigger] pgm_iter_rel(
                    prox_f,
                    minus,
                    times,
                    plus,
                    le,
                    is_pos,
                    advance,
                    accelerated,
                    step_f@,
                    relax,
                    zero,
                    one,
                    e_rel,
                    xs[j],
                    xs[j + 1],
                    ts[j],
                    xs[j + 2],
                    ts[j + 1],
                    flags[j],
                ),
            it > 0 || converged ==> {
                &&& convergence_rel(minus, times, plus, le, zero, e_rel, x@, x_prev@, converged)
                &&& pgm_step_rel(
                    prox_f,
                    minus,
                    times,
                    plus,
                    step_f@,
                    relax,
                    one,
                    x_prev@,
                    x@,
                )
            },
        decreases max_iter - it,
    {
        let ghost x_before = x_prev@;
        let ghost x_cur = x@;
        let ghost t_before = stepper.momentum();
        let om = stepper.omega(advance);
        let om_pos = is_pos(om);
        let x_tilde = match extrapolate(&x, &x_prev, om, om_pos, minus, times, plus) {
            Ok(v) => v,
            Err(e) => {
                return Err(e);
            },
        };
        x_prev = x;
        x = prox_f(&x_tilde, step_f);
        let ghost raw_seq = x@;
        proof {
            assert(prox_step_rel(prox_f, step_f@, x_tilde@, raw_seq));
        }
        if let Some(rv) = relax {
            let rm1 = minus(rv, one);
            let d = match vec_zip(&x, &x_prev, minus) {
                Ok(v) => v,
                Err(e) => {
                    return Err(e);
                },
            };
            let d2 = vec_scalar(&d, rm1, times);
            let xr = vec_zip_exact(&x, &d2, plus);
            proof {
                assert(relax_rel(minus, times, plus, rv, one, raw_seq, x_prev@, xr@));
            }
            x = xr;
        }
        proof {
            assert(pgm_step_rel(prox_f, minus, times, plus, step_f@, relax, one, x_prev@, x@));
        }
        converged = match converged_test(&x, &x_prev, e_rel, zero, minus, times, plus, le) {
            Ok(b) => b,
            Err(e) => {
                return Err(e);
            },
        };
        proof {
            assert(pgm_iter_rel(
                prox_f,
                minus,
                times,
                plus,
                le,
                is_pos,
                advance,
                accelerated,
                step_f@,
                relax,
                zero,
                one,
                e_rel,
                x_before,
                x_cur,
                t_before,
                x@,
                stepper.momentum(),
                converged,
            ));
            xs = xs.push(x@);
            ts = ts.push(stepper.momentum());
            flags = flags.push(converged);
        }
        it += 1;
    }
    let error = match vec_zip(&x, &x_prev, minus) {
        Ok(v) => v,
        Err(e) => {
            return Err(e);
        },
    };
    let result = (x, converged, error);
    proof {
        assert(zip_rel(minus, result.0@, x_prev@, result.2@));
        if max_iter > 0 {
            assert(convergence_rel(
                minus,
                times,
                plus,
                le,
                zero,
                e_rel,
                result.0@,
                x_prev@,
                result.1,
            ));
            assert(pgm_step_rel(
                prox_f,
                minus,
                times,
                plus,
                step_f@,
                relax,
                one,
                x_prev@,
                result.0@,
            ));
        }
        assert(pgm_ok_rel(
            prox_f,
            minus,
            times,
            plus,
            le,
            step_f@,
            relax,
            zero,
            one,
            e_rel,
            max_iter,
            result,
        ));
        assert(pgm_trace_rel(
            prox_f,
            minus,
            times,
            plus,
            le,
            is_pos,
            advance,
            accelerated,
            step_f@,
            relax,
            zero,
            one,
            e_rel,
            start_x@,
            max_iter,
            result,
        ));
    }
    Ok(result)
}

} // verus!
