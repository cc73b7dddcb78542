//! Derivative-free coordinate hill-climbing with adaptive per-dimension
//! step sizes.
//!
//! The optimizer holds, for each input dimension, a signed step size
//! together with an expansion and a compression ratio. Each iteration it
//! perturbs every dimension independently — all trials are made against the
//! same unperturbed base position — and accepts, rejects or reverses each
//! dimension's step according to how the objective's value at the trial
//! point compares to the value at the base position. Fitness values are
//! only ever inspected through a caller-supplied partial-order query, so an
//! unorderable (not-a-number-like) fitness is handled explicitly rather
//! than silently.

use vstd::prelude::*;

use crate::ProximalOptimizerErr;
use crate::misc::{vec_copy, vec_fill};

verus! {

/// The outcome of a partial-order query between two fitness values.
#[derive(Copy, Clone, Debug, PartialEq, Eq, Structural)]
pub enum FitOrdering {
    /// The first value is strictly less than the second.
    Less,
    /// The two values are equal.
    Equal,
    /// The first value is strictly greater than the second.
    Greater,
    /// The two values cannot be ordered (a not-a-number-like result).
    Incomparable,
}

/// What one dimension's trial does to its position and step size.
#[derive(Copy, Clone, Debug, PartialEq, Eq, Structural)]
pub enum StepAction {
    /// The trial point is strictly better: move to it and multiply the step
    /// by the expansion ratio, keeping its direction.
    Accept,
    /// The trial point is exactly as good: stay and multiply the step by
    /// the compression ratio, keeping its sign.
    Shrink,
    /// The trial point is strictly worse or incomparable: stay, negate the
    /// step's sign and multiply its magnitude by the compression ratio.
    FlipShrink,
}

/// Whether `c`, the comparison of a trial fitness against the base fitness,
/// is a strict improvement in the configured direction.
pub open spec fn is_strict_improvement(c: FitOrdering, maximize: bool) -> bool {
    if maximize {
        c is Greater
    } else {
        c is Less
    }
}

/// The acceptance rule of the hill climber, as a function of the comparison
/// outcome and the search direction.
pub open spec fn spec_step_action(c: FitOrdering, maximize: bool) -> StepAction {
    if is_strict_improvement(c, maximize) {
        StepAction::Accept
    } else if c is Equal {
        StepAction::Shrink
    } else {
        StepAction::FlipShrink
    }
}

/// Decides what a dimension's trial does, from the comparison of the trial
/// fitness against the base fitness (`c`) and the search direction: a
/// strict improvement is accepted and the step expanded; an exact tie
/// shrinks the step without turning it; anything worse — or an unorderable
/// comparison, which is treated exactly like worse — reverses the step's
/// direction and shrinks it.
pub fn step_action(c: FitOrdering, maximize: bool) -> (a: StepAction)
    ensures
        a == spec_step_action(c, maximize),
{
    match c {
        FitOrdering::Greater => if maximize {
            StepAction::Accept
        } else {
            StepAction::FlipShrink
        },
        FitOrdering::Less => if maximize {
            StepAction::FlipShrink
        } else {
            StepAction::Accept
        },
        FitOrdering::Equal => StepAction::Shrink,
        FitOrdering::Incomparable => StepAction::FlipShrink,
    }
}

/// A coordinate hill-climbing optimizer over a fixed number of dimensions.
///
/// Per dimension it holds the current signed step size, the expansion ratio
/// applied after an accepted move (typically above one) and the compression
/// ratio applied after a rejected or tied move (typically below one). All
/// three are mutated destructively across iterations of a search, so one
/// instance must not be driven by more than one logical caller at a time.
pub struct HillClimbOptimizer<T> {
    params: usize,
    iterations: usize,
    maximize: bool,
    steps: Vec<T>,
    expansions: Vec<T>,
    compressions: Vec<T>,
}

impl<T: Copy> HillClimbOptimizer<T> {
    /// The fixed number of dimensions, set at construction.
    pub closed spec fn param_count(self) -> usize {
        self.params
    }

    /// The iteration budget: the search always runs exactly this many
    /// iterations.
    pub closed spec fn iteration_count(self) -> usize {
        self.iterations
    }

    /// Whether the search maximizes (rather than minimizes) the objective.
    pub closed spec fn is_maximize(self) -> bool {
        self.maximize
    }

    /// The current signed step size of each dimension.
    pub closed spec fn step_sizes(self) -> Seq<T> {
        self.steps@
    }

    /// The expansion ratio of each dimension.
    pub closed spec fn expansion_ratios(self) -> Seq<T> {
        self.expansions@
    }

    /// The compression ratio of each dimension.
    pub closed spec fn compression_ratios(self) -> Seq<T> {
        self.compressions@
    }

    /// Each dimension has its triple of adaptive parameters.
    pub open spec fn wf(self) -> bool {
        &&& self.step_sizes().len() == self.param_count()
        &&& self.expansion_ratios().len() == self.param_count()
        &&& self.compression_ratios().len() == self.param_count()
    }

    /// A fresh optimizer over `param_count` dimensions that runs
    /// `iterations` iterations and minimizes. Every dimension starts with
    /// the same signed step size `initial_step`, expansion ratio
    /// `expansion` and compression ratio `compression`.
    pub fn new(
        param_count: usize,
        iterations: usize,
        initial_step: T,
        expansion: T,
        compression: T,
    ) -> (s: HillClimbOptimizer<T>)
        ensures
            s.wf(),
            s.param_count() == param_count,
            s.iteration_count() == iterations,
            !s.is_maximize(),
            s.step_sizes() == Seq::new(param_count as nat, |i: int| initial_step),
            s.expansion_ratios() == Seq::new(param_count as nat, |i: int| expansion),
            s.compression_ratios() == Seq::new(param_count as nat, |i: int| compression),
    {
        HillClimbOptimizer {
            params: param_count,
            iterations,
            maximize: false,
            steps: vec_fill(param_count, initial_step),
            expansions: vec_fill(param_count, expansion),
            compressions: vec_fill(param_count, compression),
        }
    }

    /// Sets the iteration budget.
    pub fn set_iterations(&mut self, iterations: usize)
        ensures
            final(self).iteration_count() == iterations,
            final(self).param_count() == old(self).param_count(),
            final(self).is_maximize() == old(self).is_maximize(),
            final(self).step_sizes() == old(self).step_sizes(),
            final(self).expansion_ratios() == old(self).expansion_ratios(),
            final(self).compression_ratios() == old(self).compression_ratios(),
    {
        self.iterations = iterations;
    }

    /// Sets the search direction: maximize when `maximize` is true,
    /// minimize otherwise.
    pub fn set_maximize(&mut self, maximize: bool)
        ensures
            final(self).is_maximize() == maximize,
            final(self).param_count() == old(self).param_count(),
            final(self).iteration_count() == old(self).iteration_count(),
            final(self).step_sizes() == old(self).step_sizes(),
            final(self).expansion_ratios() == old(self).expansion_ratios(),
            final(self).compression_ratios() == old(self).compression_ratios(),
    {
        self.maximize = maximize;
    }

    /// Sets every dimension's step size to `step`.
    pub fn set_step_size(&mut self, step: T)
        ensures
            final(self).step_sizes() == Seq::new(old(self).param_count() as nat, |i: int| step),
            final(self).param_count() == old(self).param_count(),
            final(self).iteration_count() == old(self).iteration_count(),
            final(self).is_maximize() == old(self).is_maximize(),
            final(self).expansion_ratios() == old(self).expansion_ratios(),
            final(self).compression_ratios() == old(self).compression_ratios(),
    {
        self.steps = vec_fill(self.params, step);
    }

    /// Sets each dimension's step size from `steps`, one value per
    /// dimension. Fails with `ParameterLengthMismatch` exactly when the
    /// supplied length differs from the dimension count, leaving the
    /// optimizer unchanged.
    pub fn set_step_sizes(&mut self, steps: &Vec<T>) -> (r: Result<(), ProximalOptimizerErr>)
        ensures
            steps@.len() == old(self).param_count() ==> r is Ok && final(self).step_sizes()
                == steps@,
            steps@.len() != old(self).param_count() ==> r is Err && r->Err_0
                == ProximalOptimizerErr::ParameterLengthMismatch && final(self).step_sizes()
                == old(self).step_sizes(),
            final(self).param_count() == old(self).param_count(),
            final(self).iteration_count() == old(self).iteration_count(),
            final(self).is_maximize() == old(self).is_maximize(),
            final(self).expansion_ratios() == old(self).expansion_ratios(),
            final(self).compression_ratios() == old(self).compression_ratios(),
    {
        if steps.len() != self.params {
            return Err(ProximalOptimizerErr::ParameterLengthMismatch);
        }
        self.steps = vec_copy(steps);
        Ok(())
    }

    /// Sets every dimension's expansion ratio to `expansion`.
    pub fn set_expansion(&mut self, expansion: T)
        ensures
            final(self).expansion_ratios() == Seq::new(
                old(self).param_count() as nat,
                |i: int| expansion,
            ),
            final(self).param_count() == old(self).param_count(),
            final(self).iteration_count() == old(self).iteration_count(),
            final(self).is_maximize() == old(self).is_maximize(),
            final(self).step_sizes() == old(self).step_sizes(),
            final(self).compression_ratios() == old(self).compression_ratios(),
    {
        self.expansions = vec_fill(self.params, expansion);
    }

    /// Sets each dimension's expansion ratio from `expansions`, one value
    /// per dimension. Fails with `ParameterLengthMismatch` exactly when the
    /// supplied length differs from the dimension count, leaving the
    /// optimizer unchanged.
    pub fn set_expansions(&mut self, expansions: &Vec<T>) -> (r: Result<
        (),
        ProximalOptimizerErr,
    >)
        ensures
            expansions@.len() == old(self).param_count() ==> r is Ok && final(self).expansion_ratios() == expansions@,
            expansions@.len() != old(self).param_count() ==> r is Err && r->Err_0
                == ProximalOptimizerErr::ParameterLengthMismatch && final(self).expansion_ratios()
                == old(self).expansion_ratios(),
            final(self).param_count() == old(self).param_count(),
            final(self).iteration_count() == old(self).iteration_count(),
            final(self).is_maximize() == old(self).is_maximize(),
            final(self).step_sizes() == old(self).step_sizes(),
            final(self).compression_ratios() == old(self).compression_ratios(),
    {
        if expansions.len() != self.params {
            return Err(ProximalOptimizerErr::ParameterLengthMismatch);
        }
        self.expansions = vec_copy(expansions);
        Ok(())
    }

    /// Sets every dimension's compression ratio to `compression`.
    pub fn set_compression(&mut self, compression: T)
        ensures
            final(self).compression_ratios() == Seq::new(
                old(self).param_count() as nat,
                |i: int| compression,
            ),
            final(self).param_count() == old(self).param_count(),
            final(self).iteration_count() == old(self).iteration_count(),
            final(self).is_maximize() == old(self).is_maximize(),
            final(self).step_sizes() == old(self).step_sizes(),
            final(self).expansion_ratios() == old(self).expansion_ratios(),
    {
        self.compressions = vec_fill(self.params, compression);
    }

    /// Sets each dimension's compression ratio from `compressions`, one
    /// value per dimension. Fails with `ParameterLengthMismatch` exactly
    /// when the supplied length differs from the dimension count, leaving
    /// the optimizer unchanged.
    pub fn set_compressions(&mut self, compressions: &Vec<T>) -> (r: Result<
        (),
        ProximalOptimizerErr,
    >)
        ensures
            compressions@.len() == old(self).param_count() ==> r is Ok && final(self).compression_ratios() == compressions@,
            compressions@.len() != old(self).param_count() ==> r is Err && r->Err_0
                == ProximalOptimizerErr::ParameterLengthMismatch && final(self).compression_ratios() == old(self).compression_ratios(),
            final(self).param_count() == old(self).param_count(),
            final(self).iteration_count() == old(self).iteration_count(),
            final(self).is_maximize() == old(self).is_maximize(),
            final(self).step_sizes() == old(self).step_sizes(),
            final(self).expansion_ratios() == old(self).expansion_ratios(),
    {
        if compressions.len() != self.params {
            return Err(ProximalOptimizerErr::ParameterLengthMismatch);
        }
        self.compressions = vec_copy(compressions);
        Ok(())
    }
}

/// `f` is a possible value of the caller's objective at the position `x`.
pub open spec fn evaluates_to<T, Fit, FO: Fn(&Vec<T>) -> Fit>(
    objective: FO,
    x: Seq<T>,
    f: Fit,
) -> bool {
    exists|v: &Vec<T>| v@ == x && #[trigger] call_ensures(objective, (v,), f)
}

/// `c` is a possible outcome of the caller's partial-order query between
/// the fitness values `a` and `b`.
pub open spec fn compares_as<Fit, FC: Fn(&Fit, &Fit) -> FitOrdering>(
    compare: FC,
    a: Fit,
    b: Fit,
    c: FitOrdering,
) -> bool {
    exists|ra: &Fit, rb: &Fit| *ra == a && *rb == b && #[trigger] call_ensures(compare, (ra, rb), c)
}

/// The position `result` is strictly better than the start position in the
/// configured direction: the objective evaluates at both, and the
/// comparison of the final fitness against the starting fitness is a
/// strict improvement.
pub open spec fn improved_over_start<T, Fit, FO: Fn(&Vec<T>) -> Fit, FC: Fn(&Fit, &Fit) -> FitOrdering>(
    objective: FO,
    compare: FC,
    maximize: bool,
    start: Seq<T>,
    result: Vec<T>,
) -> bool {
    exists|sf: Fit, ff: Fit, c: FitOrdering|
        {
            &&& #[trigger] evaluates_to(objective, start, sf)
            &&& #[trigger] evaluates_to(objective, result@, ff)
            &&& #[trigger] compares_as(compare, ff, sf, c)
            &&& is_strict_improvement(c, maximize)
        }
}

/// The position `fin` failed to improve strictly over the start position in
/// the configured direction.
pub open spec fn no_improvement_over_start<
    T,
    Fit,
    FO: Fn(&Vec<T>) -> Fit,
    FC: Fn(&Fit, &Fit) -> FitOrdering,
>(
    objective: FO,
    compare: FC,
    maximize: bool,
    start: Seq<T>,
    fin: Seq<T>,
) -> bool {
    exists|sf: Fit, ff: Fit, c: FitOrdering|
        {
            &&& #[trigger] evaluates_to(objective, start, sf)
            &&& #[trigger] evaluates_to(objective, fin, ff)
            &&& #[trigger] compares_as(compare, ff, sf, c)
            &&& !is_strict_improvement(c, maximize)
        }
}

/// One dimension's trial within one iteration of the hill climber, relating
/// the position and step sizes before the trial (`cur_in`, `steps_in`) to
/// those after it: dimension `i` of the iteration's base position `base` is
/// perturbed by its current step, the objective is evaluated at the
/// perturbed base, the comparison against the base fitness `base_fit` is
/// turned into a decision by [`spec_step_action`], and the decision either
/// accepts the trial value into the position and expands the step, or keeps
/// the position and shrinks the step with or without reversing its sign.
pub open spec fn dim_trial_rel<
    T,
    Fit,
    FO: Fn(&Vec<T>) -> Fit,
    FC: Fn(&Fit, &Fit) -> FitOrdering,
    FA: Fn(T, T) -> T,
    FM: Fn(T, T) -> T,
    FN: Fn(T) -> T,
>(
    objective: FO,
    compare: FC,
    plus: FA,
    times: FM,
    neg: FN,
    maximize: bool,
    base: Seq<T>,
    base_fit: Fit,
    expansions: Seq<T>,
    compressions: Seq<T>,
    i: int,
    cur_in: Seq<T>,
    steps_in: Seq<T>,
    cur_out: Seq<T>,
    steps_out: Seq<T>,
) -> bool {
    exists|trial: T, tf: Fit, c: FitOrdering|
        {
            &&& #[trigger] call_ensures(plus, (base[i], steps_in[i]), trial)
            &&& evaluates_to(objective, base.update(i, trial), tf)
            &&& #[trigger] compares_as(compare, tf, base_fit, c)
            &&& match spec_step_action(c, maximize) {
                StepAction::Accept => {
                    &&& cur_out == cur_in.update(i, trial)
                    &&& exists|g: T|
                        #[trigger] call_ensures(times, (steps_in[i], expansions[i]), g)
                            && steps_out == steps_in.update(i, g)
                },
                StepAction::Shrink => {
                    &&& cur_out == cur_in
                    &&& exists|g: T|
                        #[trigger] call_ensures(times, (steps_in[i], compressions[i]), g)
                            && steps_out == steps_in.update(i, g)
                },
                StepAction::FlipShrink => {
                    &&& cur_out == cur_in
                    &&& exists|g: T, ng: T|
                        #[trigger] call_ensures(times, (steps_in[i], compressions[i]), g)
                            && #[trigger] call_ensures(neg, (g,), ng) && steps_out
                            == steps_in.update(i, ng)
                },
            }
        }
}

/// The first `i` dimensions of one iteration's sweep, chained: starting
/// from position `cur0` and step sizes `steps0`, the trials of dimensions
/// `0 .. i` — all made against the same base position `base` and base
/// fitness `base_fit` — lead to `cur` and `steps`.
pub open spec fn sweep_rel<
    T,
    Fit,
    FO: Fn(&Vec<T>) -> Fit,
    FC: Fn(&Fit, &Fit) -> FitOrdering,
    FA: Fn(T, T) -> T,
    FM: Fn(T, T) -> T,
    FN: Fn(T) -> T,
>(
    objective: FO,
    compare: FC,
    plus: FA,
    times: FM,
    neg: FN,
    maximize: bool,
    base: Seq<T>,
    base_fit: Fit,
    expansions: Seq<T>,
    compressions: Seq<T>,
    i: int,
    cur0: Seq<T>,
    steps0: Seq<T>,
    cur: Seq<T>,
    steps: Seq<T>,
) -> bool
    decreases i,
{
    if i <= 0 {
        cur == cur0 && steps == steps0
    } else {
        exists|cur_mid: Seq<T>, steps_mid: Seq<T>|
            {
                &&& sweep_rel(
                    objective,
                    compare,
                    plus,
                    times,
                    neg,
                    maximize,
                    base,
                    base_fit,
                    expansions,
                    compressions,
                    i - 1,
                    cur0,
                    steps0,
                    cur_mid,
                    steps_mid,
                )
                &&& #[trigger] dim_trial_rel(
                    objective,
                    compare,
                    plus,
                    times,
                    neg,
                    maximize,
                    base,
                    base_fit,
                    expansions,
                    compressions,
                    i - 1,
                    cur_mid,
                    steps_mid,
                    cur,
                    steps,
                )
            }
    }
}

/// One full iteration of the hill climber over `dims` dimensions: the
/// objective is evaluated at the iteration's base position `cur_in`, and
/// the sweep of all dimensions against that base leads from
/// (`cur_in`, `steps_in`) to (`cur_out`, `steps_out`).
pub open spec fn climb_iter_rel<
    T,
    Fit,
    FO: Fn(&Vec<T>) -> Fit,
    FC: Fn(&Fit, &Fit) -> FitOrdering,
    FA: Fn(T, T) -> T,
    FM: Fn(T, T) -> T,
    FN: Fn(T) -> T,
>(
    objective: FO,
    compare: FC,
    plus: FA,
    times: FM,
    neg: FN,
    maximize: bool,
    dims: int,
    expansions: Seq<T>,
    compressions: Seq<T>,
    cur_in: Seq<T>,
    steps_in: Seq<T>,
    cur_out: Seq<T>,
    steps_out: Seq<T>,
) -> bool {
    exists|base_fit: Fit|
        {
            &&& #[trigger] evaluates_to(objective, cur_in, base_fit)
            &&& sweep_rel(
                objective,
                compare,
                plus,
                times,
                neg,
                maximize,
                cur_in,
                base_fit,
                expansions,
                compressions,
                dims,
                cur_in,
                steps_in,
                cur_out,
                steps_out,
            )
        }
}

/// The complete behaviour of one hill-climbing run: a trace of positions
/// `curs` and step-size vectors `stepss`, one entry per iteration boundary,
/// opens with the start position and the configured step sizes, chains
/// every iteration by [`climb_iter_rel`], and ends at the final position
/// `fin` with the final step sizes `steps_fin`.
pub open spec fn climb_trace_rel<
    T,
    Fit,
    FO: Fn(&Vec<T>) -> Fit,
    FC: Fn(&Fit, &Fit) -> FitOrdering,
    FA: Fn(T, T) -> T,
    FM: Fn(T, T) -> T,
    FN: Fn(T) -> T,
>(
    objective: FO,
    compare: FC,
    plus: FA,
    times: FM,
    neg: FN,
    maximize: bool,
    dims: int,
    iterations: int,
    expansions: Seq<T>,
    compressions: Seq<T>,
    start: Seq<T>,
    steps0: Seq<T>,
    fin: Seq<T>,
    steps_fin: Seq<T>,
) -> bool {
    exists|curs: Seq<Seq<T>>, stepss: Seq<Seq<T>>|
        #![trigger curs.len(), stepss.len()]
        {
            &&& curs.len() == iterations + 1
            &&& stepss.len() == iterations + 1
            &&& curs[0] == start
            &&& stepss[0] == steps0
            &&& forall|j: int|
                0 <= j < iterations ==> #[trigger] climb_iter_rel(
                    objective,
                    compare,
                    plus,
                    times,
                    neg,
                    maximize,
                    dims,
                    expansions,
                    compressions,
                    curs[j],
                    stepss[j],
                    curs[j + 1],
                    stepss[j + 1],
                )
            &&& fin == curs.last()
            &&& steps_fin == stepss.last()
        }
}

impl<T: Copy> HillClimbOptimizer<T> {
    /// Runs the coordinate hill-climbing search from `start`.
    ///
    /// Each of the `iteration_count()` iterations evaluates the objective at
    /// the current position and then perturbs every dimension independently
    /// by its signed step size — every trial within one iteration is made
    /// against the same unperturbed base position. A strictly better trial
    /// moves that dimension and multiplies its step by the expansion ratio;
    /// an exact tie shrinks the step by the compression ratio; a worse or
    /// unorderable trial reverses the step's direction and shrinks it. The
    /// search always runs the full iteration budget; there is no early
    /// exit.
    ///
    /// Fitness values are inspected only through `compare`, the caller's
    /// partial-order query; `plus`, `times` and `neg` supply the scalar
    /// arithmetic for perturbing positions and adapting step sizes.
    ///
    /// Fails with `ParameterLengthMismatch` exactly when `start` does not
    /// have `param_count()` elements; with `StartUnorderable` when the
    /// objective's value at `start` is incomparable with itself (checked
    /// before any iteration runs); and with `SolutionNoBetter` when the
    /// final position is not strictly better than the start in the
    /// configured direction — the computed position is then discarded.
    pub fn optimize<
        Fit,
        FO: Fn(&Vec<T>) -> Fit,
        FC: Fn(&Fit, &Fit) -> FitOrdering,
        FA: Fn(T, T) -> T + Copy,
        FM: Fn(T, T) -> T + Copy,
        FN: Fn(T) -> T + Copy,
    >(
        &mut self,
        start: &Vec<T>,
        objective: FO,
        compare: FC,
        plus: FA,
        times: FM,
        neg: FN,
    ) -> (r: Result<Vec<T>, ProximalOptimizerErr>)
        requires
            old(self).wf(),
            forall|v: &Vec<T>| #[trigger] call_requires(objective, (v,)),
            forall|a: &Fit, b: &Fit| #[trigger] call_requires(compare, (a, b)),
            forall|u: T, v: T| #[trigger] call_requires(plus, (u, v)),
            forall|u: T, v: T| #[trigger] call_requires(times, (u, v)),
            forall|u: T| #[trigger] call_requires(neg, (u,)),
        ensures
            final(self).wf(),
            final(self).param_count() == old(self).param_count(),
            final(self).iteration_count() == old(self).iteration_count(),
            final(self).is_maximize() == old(self).is_maximize(),
            final(self).expansion_ratios() == old(self).expansion_ratios(),
            final(self).compression_ratios() == old(self).compression_ratios(),
            r is Err && r->Err_0 == ProximalOptimizerErr::ParameterLengthMismatch <==> start@.len()
                != old(self).param_count(),
            r is Err && r->Err_0 != ProximalOptimizerErr::SolutionNoBetter ==> final(self).step_sizes()
                == old(self).step_sizes(),
            r is Err && r->Err_0 == ProximalOptimizerErr::StartUnorderable ==> exists|sf: Fit|
                #[trigger] evaluates_to(objective, start@, sf) && compares_as(
                    compare,
                    sf,
                    sf,
                    FitOrdering::Incomparable,
                ),
            r is Err && r->Err_0 == ProximalOptimizerErr::SolutionNoBetter ==> exists|fin: Seq<T>|
                {
                    &&& #[trigger] no_improvement_over_start(
                        objective,
                        compare,
                        old(self).is_maximize(),
                        start@,
                        fin,
                    )
                    &&& climb_trace_rel(
                        objective,
                        compare,
                        plus,
                        times,
                        neg,
                        old(self).is_maximize(),
                        old(self).param_count() as int,
                        old(self).iteration_count() as int,
                        old(self).expansion_ratios(),
                        old(self).compression_ratios(),
                        start@,
                        old(self).step_sizes(),
                        fin,
                        final(self).step_sizes(),
                    )
                },
            r is Ok ==> r->Ok_0@.len() == start@.len() && improved_over_start(
                objective,
                compare,
                old(self).is_maximize(),
                start@,
                r->Ok_0,
            ),
            r is Ok ==> climb_trace_rel(
                objective,
                compare,
                plus,
                times,
                neg,
                old(self).is_maximize(),
                old(self).param_count() as int,
                old(self).iteration_count() as int,
                old(self).expansion_ratios(),
                old(self).compression_ratios(),
                start@,
                old(self).step_sizes(),
                r->Ok_0@,
                final(self).step_sizes(),
            ),
    {
        if start.len() != self.params {
            return Err(ProximalOptimizerErr::ParameterLengthMismatch);
        }
        let start_fit = objective(start);
        let c0 = compare(&start_fit, &start_fit);
        match c0 {
            FitOrdering::Incomparable => {
                proof {
                    assert(evaluates_to(objective, start@, start_fit));
                    assert(compares_as(compare, start_fit, start_fit, FitOrdering::Incomparable));
                }
                return Err(ProximalOptimizerErr::StartUnorderable);
            },
            _ => {},
        }
        let n = self.params;
        let budget = self.iterations;
        let mut current = vec_copy(start);
        let mut iter: usize = 0;
        let ghost mut curs: Seq<Seq<T>> = seq![start@];
        let ghost mut stepss: Seq<Seq<T>> = seq![self.steps@];
        while iter < budget
            invariant
                forall|v: &Vec<T>| #[trigger] call_requires(objective, (v,)),
                forall|a: &Fit, b: &Fit| #[trigger] call_requires(compare, (a, b)),
                forall|u: T, v: T| #[trigger] call_requires(plus, (u, v)),
                forall|u: T, v: T| #[trigger] call_requires(times, (u, v)),
                forall|u: T| #[trigger] call_requires(neg, (u,)),
                self.wf(),
                n == self.param_count(),
                self.param_count() == old(self).param_count(),
                self.iteration_count() == old(self).iteration_count(),
                self.is_maximize() == old(self).is_maximize(),
                self.expansion_ratios() == old(self).expansion_ratios(),
                self.compression_ratios() == old(self).compression_ratios(),
                current@.len() == n,
                budget == old(self).iteration_count(),
                iter <= budget,
                curs.len() == iter + 1,
                stepss.len() == iter + 1,
                curs[0] == start@,
                stepss[0] == old(self).step_sizes(),
                current@ == curs.last(),
                self.step_sizes() == stepss.last(),
                forall|j: int|
                    0 <= j < iter ==> #[trigger] climb_iter_rel(
                        objective,
                        compare,
                        plus,
                        times,
                        neg,
                        old(self).is_maximize(),
                        n as int,
                        old(self).expansion_ratios(),
                        old(self).compression_ratios(),
                        curs[j],
                        stepss[j],
                        curs[j + 1],
                        stepss[j + 1],
                    ),
            decreases budget - iter,
        {
            let current_fit = objective(&current);
            let ghost base_cur = current@;
            let ghost base_steps = self.steps@;
            let mut candidate = vec_copy(&current);
            let mut i: usize = 0;
            while i < n
                invariant
                    forall|v: &Vec<T>| #[trigger] call_requires(objective, (v,)),
                    forall|a: &Fit, b: &Fit| #[trigger] call_requires(compare, (a, b)),
                    forall|u: T, v: T| #[trigger] call_requires(plus, (u, v)),
                    forall|u: T, v: T| #[trigger] call_requires(times, (u, v)),
                    forall|u: T| #[trigger] call_requires(neg, (u,)),
                    self.wf(),
                    n == self.param_count(),
                    self.param_count() == old(self).param_count(),
                    self.iteration_count() == old(self).iteration_count(),
                    self.is_maximize() == old(self).is_maximize(),
                    self.expansion_ratios() == old(self).expansion_ratios(),
                    self.compression_ratios() == old(self).compression_ratios(),
                    current@.len() == n,
                    candidate@.len() == n,
                    i <= n,
                    candidate@ == base_cur,
                    sweep_rel(
                        objective,
                        compare,
                        plus,
                        times,
                        neg,
                        old(self).is_maximize(),
                        base_cur,
                        current_fit,
                        old(self).expansion_ratios(),
                        old(self).compression_ratios(),
                        i as int,
                        base_cur,
                        base_steps,
                        current@,
                        self.step_sizes(),
                    ),
                decreases n - i,
            {
                let ghost cur_in = current@;
                let ghost steps_in = self.steps@;
                let prev = candidate[i];
                let trial = plus(prev, self.steps[i]);
                candidate.set(i, trial);
                let trial_fit = objective(&candidate);
                let c = compare(&trial_fit, &current_fit);
                proof {
                    assert(call_ensures(plus, (base_cur[i as int], steps_in[i as int]), trial));
                    assert(candidate@ == base_cur.update(i as int, trial));
                    assert(evaluates_to(objective, base_cur.update(i as int, trial), trial_fit));
                    assert(compares_as(compare, trial_fit, current_fit, c));
                }
                match step_action(c, self.maximize) {
                    StepAction::Accept => {
                        current.set(i, trial);
                        let grown = times(self.steps[i], self.expansions[i]);
                        self.steps.set(i, grown);
                        proof {
                            assert(call_ensures(
                                times,
                                (steps_in[i as int], old(self).expansion_ratios()[i as int]),
                                grown,
                            ));
                            assert(current@ == cur_in.update(i as int, trial));
                            assert(self.step_sizes() == steps_in.update(i as int, grown));
                        }
                    },
                    StepAction::Shrink => {
                        let shrunk = times(self.steps[i], self.compressions[i]);
                        self.steps.set(i, shrunk);
                        proof {
                            assert(call_ensures(
                                times,
                                (steps_in[i as int], old(self).compression_ratios()[i as int]),
                                shrunk,
                            ));
                            assert(current@ == cur_in);
                            assert(self.step_sizes() == steps_in.update(i as int, shrunk));
                        }
                    },
                    StepAction::FlipShrink => {
                        let shrunk = times(self.steps[i], self.compressions[i]);
                        let reversed = neg(shrunk);
                        self.steps.set(i, reversed);
                        proof {
                            assert(call_ensures(
                                times,
                                (steps_in[i as int], old(self).compression_ratios()[i as int]),
                                shrunk,
                            ));
                            assert(call_ensures(neg, (shrunk,), reversed));
                            assert(current@ == cur_in);
                            assert(self.step_sizes() == steps_in.update(i as int, reversed));
                        }
                    },
                }
                candidate.set(i, prev);
                proof {
                    assert(candidate@ =~= base_cur);
                    assert(dim_trial_rel(
                        objective,
                        compare,
                        plus,
                        times,
                        neg,
                        old(self).is_maximize(),
                        base_cur,
                        current_fit,
                        old(self).expansion_ratios(),
                        old(self).compression_ratios(),
                        (i as int + 1) - 1,
                        cur_in,
                        steps_in,
                        current@,
                        self.step_sizes(),
                    ));
                    assert(dim_trial_rel(
                        objective,
                        compare,
                        plus,
                        times,
                        neg,
                        old(self).is_maximize(),
                        base_cur,
                        current_fit,
                        old(self).expansion_ratios(),
                        old(self).compression_ratios(),
                        i as int,
                        cur_in,
                        steps_in,
                        current@,
                        self.step_sizes(),
                    ));
                    assert(sweep_rel(
                        objective,
                        compare,
                        plus,
                        times,
                        neg,
                        old(self).is_maximize(),
                        base_cur,
                        current_fit,
                        old(self).expansion_ratios(),
                        old(self).compression_ratios(),
                        i as int + 1,
                        base_cur,
                        base_steps,
                        current@,
                        self.step_sizes(),
                    ));
                }
                i += 1;
            }
            proof {
                assert(evaluates_to(objective, base_cur, current_fit));
                assert(sweep_rel(
                    objective,
                    compare,
                    plus,
                    times,
                    neg,
                    old(self).is_maximize(),
                    base_cur,
                    current_fit,
                    old(self).expansion_ratios(),
                    old(self).compression_ratios(),
                    n as int,
                    base_cur,
                    base_steps,
                    current@,
                    self.step_sizes(),
                ));
                assert(climb_iter_rel(
                    objective,
                    compare,
                    plus,
                    times,
                    neg,
                    old(self).is_maximize(),
                    n as int,
                    old(self).expansion_ratios(),
                    old(self).compression_ratios(),
                    base_cur,
                    base_steps,
                    current@,
                    self.step_sizes(),
                ));
                curs = curs.push(current@);
                stepss = stepss.push(self.steps@);
            }
            iter += 1;
        }
        let final_fit = objective(&current);
        let cf = compare(&final_fit, &start_fit);
        let better = match cf {
            FitOrdering::Greater => self.maximize,
            FitOrdering::Less => !self.maximize,
            _ => false,
        };
        proof {
            assert(evaluates_to(objective, start@, start_fit));
            assert(evaluates_to(objective, current@, final_fit));
            assert(compares_as(compare, final_fit, start_fit, cf));
        }
        proof {
            assert(climb_trace_rel(
                objective,
                compare,
                plus,
                times,
                neg,
                old(self).is_maximize(),
                old(self).param_count() as int,
                old(self).iteration_count() as int,
                old(self).expansion_ratios(),
                old(self).compression_ratios(),
                start@,
                old(self).step_sizes(),
                current@,
                self.step_sizes(),
            ));
        }
        if better {
            proof {
                assert(improved_over_start(
                    objective,
                    compare,
                    old(self).is_maximize(),
                    start@,
                    current,
                ));
            }
            Ok(current)
        } else {
            proof {
                assert(no_improvement_over_start(
                    objective,
                    compare,
                    old(self).is_maximize(),
                    start@,
                    current@,
                ));
            }
            Err(ProximalOptimizerErr::SolutionNoBetter)
        }
    }
}

} // verus!
