//! The Nesterov momentum generator and the squared Euclidean norm.

use vstd::prelude::*;

use crate::misc::product_sum_rel;

verus! {

/// Generates the Nesterov acceleration multiplier omega for each iteration
/// of an optimization loop.
///
/// The stepper owns a single momentum scalar `t`. When acceleration is
/// enabled, each call to [`NesterovStepper::omega`] advances `t` and returns
/// the multiplier computed from the old momentum; when acceleration is
/// disabled, every call returns the designated zero scalar and the momentum
/// is never touched. The state is owned by one optimization run and must not
/// be shared or reset across independent runs.
pub struct NesterovStepper<T> {
    t: T,
    zero: T,
    accelerated: bool,
}

impl<T: Copy> NesterovStepper<T> {
    /// The current momentum scalar.
    pub closed spec fn momentum(self) -> T {
        self.t
    }

    /// The scalar returned by every call when acceleration is disabled.
    pub closed spec fn zero_value(self) -> T {
        self.zero
    }

    /// Whether acceleration is enabled.
    pub closed spec fn is_accelerated(self) -> bool {
        self.accelerated
    }

    /// A fresh stepper with the momentum at its starting value `one`.
    pub fn new(accelerated: bool, one: T, zero: T) -> (s: NesterovStepper<T>)
        ensures
            s.is_accelerated() == accelerated,
            s.momentum() == one,
            s.zero_value() == zero,
    {
        NesterovStepper { t: one, zero, accelerated }
    }

    /// Returns the acceleration multiplier omega for the current iteration.
    ///
    /// With acceleration disabled this returns the zero scalar on every
    /// call, arbitrarily many times, and the state is left untouched. With
    /// acceleration enabled, `advance` maps the current momentum `t` to the
    /// pair `(t', omega)` — for the Nesterov sequence,
    /// `t' = (1 + sqrt(4*t^2 + 1)) / 2` and `omega = (t - 1) / t'` — the
    /// momentum becomes `t'`, and `omega` is returned.
    pub fn omega<F: Fn(T) -> (T, T)>(&mut self, advance: F) -> (om: T)
        requires
            forall|u: T| #[trigger] call_requires(advance, (u,)),
        ensures
            !old(self).is_accelerated() ==> *final(self) == *old(self) && om == old(
                self,
            ).zero_value(),
            old(self).is_accelerated() ==> {
                &&& call_ensures(advance, (old(self).momentum(),), (final(self).momentum(), om))
                &&& final(self).is_accelerated() == old(self).is_accelerated()
                &&& final(self).zero_value() == old(self).zero_value()
            },
    {
        if self.accelerated {
            let (t_next, om) = advance(self.t);
            self.t = t_next;
            om
        } else {
            self.zero
        }
    }
}

/// Sum of the squares of the elements of `x`, seeded with `zero`: the
/// squared Euclidean norm when instantiated with ordinary multiplication
/// and addition.
pub fn l2sq<T: Copy, FM: Fn(T, T) -> T, FA: Fn(T, T) -> T>(
    x: &Vec<T>,
    zero: T,
    times: FM,
    plus: FA,
) -> (r: T)
    requires
        forall|u: T, v: T| #[trigger] call_requires(times, (u, v)),
        forall|u: T, v: T| #[trigger] call_requires(plus, (u, v)),
    ensures
        product_sum_rel(times, plus, x@, x@, zero, x@.len() as int, r),
{
    let n = x.len();
    let mut sum = zero;
    let mut i: usize = 0;
    while i < n
        invariant
            forall|u: T, v: T| #[trigger] call_requires(times, (u, v)),
            forall|u: T, v: T| #[trigger] call_requires(plus, (u, v)),
            n == x@.len(),
            i <= n,
            product_sum_rel(times, plus, x@, x@, zero, i as int, sum),
        decreases n - i,
    {
        let p = times(x[i], x[i]);
        let next = plus(sum, p);
        proof {
            assert(product_sum_rel(times, plus, x@, x@, zero, i + 1, next));
        }
        sum = next;
        i += 1;
    }
    sum
}

} // verus!
