use crate::error::ConfigError;
use crate::ramp::{Bound, Ramp};
use vstd::prelude::*;

verus! {

/// One monotone segment of the one-cycle schedule. It covers the steps after
/// the previous phase's `end_step` (after step 0 for the first phase) up to
/// and including its own `end_step`.
#[derive(Clone, Copy, Debug, PartialEq, Eq, Structural)]
pub struct Phase {
    pub end_step: usize,
    pub start_lr: Bound,
    pub end_lr: Bound,
    pub start_momentum: Bound,
    pub end_momentum: Bound,
}

/// `tenths / 10` rounded to the nearest integer, halves away from zero.
pub open spec fn round_tenths(tenths: int) -> int {
    if tenths >= 0 {
        (tenths + 5) / 10
    } else {
        -((5 - tenths) / 10)
    }
}

/// Last step of the warmup phase: three tenths of the budget, less one,
/// rounded.
pub open spec fn warmup_end(total_steps: int) -> int {
    round_tenths(3 * total_steps - 10)
}

/// The budget leaves room for a warmup phase and an annealing phase of at
/// least one step each.
pub open spec fn enough_steps(total_steps: int) -> bool {
    1 <= warmup_end(total_steps) < total_steps - 1
}

/// The step at which phase `i` starts.
pub open spec fn phase_start(phases: Seq<Phase>, i: int) -> int {
    if i == 0 {
        0
    } else {
        phases[i - 1].end_step as int
    }
}

/// Phase `i` is the first one that has not ended before `step`.
pub open spec fn is_active(phases: Seq<Phase>, step: int, i: int) -> bool {
    &&& 0 <= i < phases.len()
    &&& step <= phases[i].end_step
    &&& forall|j: int| 0 <= j < i ==> phases[j].end_step < step
}

/// Every phase has ended before `step`.
pub open spec fn all_ended(phases: Seq<Phase>, step: int) -> bool {
    forall|j: int| 0 <= j < phases.len() ==> phases[j].end_step < step
}

/// A warmup phase followed by an annealing phase, each at least one step
/// long, with momentum running against the learning rate in both.
pub open spec fn well_formed(phases: Seq<Phase>) -> bool {
    &&& phases.len() == 2
    &&& 1 <= phases[0].end_step < phases[1].end_step
    &&& phases[0].start_lr == Bound::Min
    &&& phases[0].end_lr == Bound::Max
    &&& phases[1].start_lr == Bound::Max
    &&& phases[1].end_lr == Bound::Min
    &&& forall|i: int|
        0 <= i < 2 ==> #[trigger] phases[i].start_momentum == phases[i].start_lr.flipped()
            && phases[i].end_momentum == phases[i].end_lr.flipped()
}

/// `phases` is the one-cycle partition of a budget of `total_steps` steps.
pub open spec fn partitions(phases: Seq<Phase>, total_steps: int) -> bool {
    &&& well_formed(phases)
    &&& phases[0].end_step == warmup_end(total_steps)
    &&& phases[1].end_step == total_steps - 1
}

/// The learning rate at `step` if phase `i` is the active one.
pub open spec fn lr_ramp(phases: Seq<Phase>, i: int, step: int) -> Ramp {
    Ramp {
        from: phases[i].start_lr,
        to: phases[i].end_lr,
        elapsed: (step - phase_start(phases, i)) as usize,
        span: (phases[i].end_step - phase_start(phases, i)) as usize,
    }
}

/// The momentum at `step` if phase `i` is the active one.
pub open spec fn momentum_ramp(phases: Seq<Phase>, i: int, step: int) -> Ramp {
    Ramp {
        from: phases[i].start_momentum,
        to: phases[i].end_momentum,
        elapsed: (step - phase_start(phases, i)) as usize,
        span: (phases[i].end_step - phase_start(phases, i)) as usize,
    }
}

/// `step`, held at the last step of the schedule once the budget is used up.
pub open spec fn clamped(phases: Seq<Phase>, step: int) -> int {
    if step <= phases[1].end_step {
        step
    } else {
        phases[1].end_step as int
    }
}

/// Index of the phase that decides the values at `step`.
pub open spec fn phase_at(phases: Seq<Phase>, step: int) -> int {
    if step <= phases[0].end_step {
        0
    } else {
        1
    }
}

/// The learning rate of a two-phase schedule after `step` steps.
pub open spec fn lr_at(phases: Seq<Phase>, step: int) -> Ramp {
    lr_ramp(phases, phase_at(phases, step), clamped(phases, step))
}

/// The momentum of a two-phase schedule after `step` steps.
pub open spec fn momentum_at(phases: Seq<Phase>, step: int) -> Ramp {
    momentum_ramp(phases, phase_at(phases, step), clamped(phases, step))
}

/// Splits a budget of `total_steps` steps into the warmup phase, which takes
/// the learning rate from its minimum to its maximum, and the annealing phase,
/// which takes it back. Momentum runs the other way in both.
pub fn build_phases(total_steps: usize) -> (r: Result<Vec<Phase>, ConfigError>)
    ensures
        r is Ok <==> enough_steps(total_steps as int),
        r is Ok <==> total_steps >= 5,
        r matches Ok(phases) ==> partitions(phases@, total_steps as int),
        r matches Err(e) ==> (e == ConfigError::ZeroSteps <==> total_steps == 0),
{
    if total_steps == 0 {
        return Err(ConfigError::ZeroSteps);
    }
    if total_steps < 4 {
        return Err(ConfigError::TooFewSteps);
    }
    let tens: usize = total_steps / 10;
    let units: usize = total_steps % 10;
    let first_end: usize = 3 * tens + (3 * units + 5) / 10 - 1;
    let last_end: usize = total_steps - 1;
    if first_end < 1 || first_end >= last_end {
        return Err(ConfigError::TooFewSteps);
    }
    let mut phases: Vec<Phase> = Vec::new();
    phases.push(
        Phase {
            end_step: first_end,
            start_lr: Bound::Min,
            end_lr: Bound::Max,
            start_momentum: Bound::Min.opposite(),
            end_momentum: Bound::Max.opposite(),
        },
    );
    phases.push(
        Phase {
            end_step: last_end,
            start_lr: Bound::Max,
            end_lr: Bound::Min,
            start_momentum: Bound::Max.opposite(),
            end_momentum: Bound::Min.opposite(),
        },
    );
    Ok(phases)
}

/// Scans the phases in order for the first one that has not ended before
/// `step_num`, and returns its index with the step at which it starts.
pub fn find_phase(phases: &Vec<Phase>, step_num: usize) -> (r: Option<(usize, usize)>)
    ensures
        match r {
            Some((i, start)) => is_active(phases@, step_num as int, i as int) && start
                == phase_start(phases@, i as int),
            None => all_ended(phases@, step_num as int),
        },
{
    let mut start_step: usize = 0;
    let mut i: usize = 0;
    while i < phases.len()
        invariant
            i <= phases.len(),
            start_step == phase_start(phases@, i as int),
            forall|j: int| 0 <= j < i ==> phases@[j].end_step < step_num,
        decreases phases.len() - i,
    {
        if step_num <= phases[i].end_step {
            return Some((i, start_step));
        }
        start_step = phases[i].end_step;
        i += 1;
    }
    None
}

/// What a `OneCycle` schedule holds, as plain values.
pub struct OneCycleState {
    pub step_num: int,
    pub phases: Seq<Phase>,
    pub lr: Ramp,
    pub momentum: Ramp,
}

impl OneCycleState {
    /// The phases are well formed, the counter has not passed the last step,
    /// which leaves it room for one more, and the cached values are those
    /// that belong to the counter.
    pub open spec fn valid(self) -> bool {
        &&& well_formed(self.phases)
        &&& self.phases[1].end_step < usize::MAX
        &&& 0 <= self.step_num <= self.phases[1].end_step
        &&& self.lr == lr_at(self.phases, self.step_num)
        &&& self.momentum == momentum_at(self.phases, self.step_num)
    }

    /// The state after one more step: the counter advances and the values
    /// follow it, until the last step is reached; from then on nothing
    /// changes.
    pub open spec fn advanced(self) -> OneCycleState {
        let next = clamped(self.phases, self.step_num + 1);
        OneCycleState {
            step_num: next,
            phases: self.phases,
            lr: lr_at(self.phases, next),
            momentum: momentum_at(self.phases, next),
        }
    }
}

/// The one-cycle schedule: the learning rate climbs from its minimum to its
/// maximum over the first three tenths of the step budget and falls back over
/// the rest, while momentum falls and climbs.
///
/// Once the last step of the budget has been taken, further calls of `step`
/// change nothing: the counter stops and both values stay on the endpoints of
/// the annealing phase.
#[derive(Debug)]
pub struct OneCycle {
    current: Current,
    phases: Vec<Phase>,
}

/// The part of a schedule that a step replaces as a whole.
#[derive(Clone, Copy, Debug)]
struct Current {
    lr: Ramp,
    momentum: Ramp,
    step_num: usize,
}

impl View for OneCycle {
    type V = OneCycleState;

    closed spec fn view(&self) -> OneCycleState {
        OneCycleState {
            step_num: self.current.step_num as int,
            phases: self.phases@,
            lr: self.current.lr,
            momentum: self.current.momentum,
        }
    }
}

impl OneCycle {
    #[verifier::type_invariant]
    spec fn holds_valid_state(self) -> bool {
        self@.valid()
    }

    /// Builds the schedule for a budget of `total_steps` steps. It starts at
    /// step 0 with the learning rate on its minimum and momentum on its
    /// maximum. Budgets under five steps cannot hold both phases and are
    /// refused.
    pub fn new(total_steps: usize) -> (r: Result<OneCycle, ConfigError>)
        ensures
            r is Ok <==> enough_steps(total_steps as int),
            r is Ok <==> total_steps >= 5,
            r matches Ok(s) ==> {
                &&& s@.valid()
                &&& partitions(s@.phases, total_steps as int)
                &&& s@.step_num == 0
                &&& s@.lr.rests_on(Bound::Min)
                &&& s@.momentum.rests_on(Bound::Max)
            },
            r matches Err(e) ==> (e == ConfigError::ZeroSteps <==> total_steps == 0),
    {
        match build_phases(total_steps) {
            Ok(phases) => {
                let first = phases[0];
                let current = Current {
                    lr: Ramp {
                        from: first.start_lr,
                        to: first.end_lr,
                        elapsed: 0,
                        span: first.end_step,
                    },
                    momentum: Ramp {
                        from: first.start_momentum,
                        to: first.end_momentum,
                        elapsed: 0,
                        span: first.end_step,
                    },
                    step_num: 0,
                };
                Ok(OneCycle { current, phases })
            },
            Err(e) => Err(e),
        }
    }

    /// Advances the schedule by one step and returns the learning rate and the
    /// momentum that the caller has to apply.
    pub fn step(&mut self) -> (r: (Ramp, Ramp))
        ensures
            final(self)@ == old(self)@.advanced(),
            final(self)@.valid(),
            r.0 == final(self)@.lr,
            r.1 == final(self)@.momentum,
            r.0.in_range(),
            r.1.in_range(),
            r.1.mirrors(r.0),
    {
        proof {
            use_type_invariant(&*self);
        }
        let next: usize = self.current.step_num + 1;
        match find_phase(&self.phases, next) {
            Some((i, start_step)) => {
                let phase = self.phases[i];
                self.current = Current {
                    lr: Ramp {
                        from: phase.start_lr,
                        to: phase.end_lr,
                        elapsed: next - start_step,
                        span: phase.end_step - start_step,
                    },
                    momentum: Ramp {
                        from: phase.start_momentum,
                        to: phase.end_momentum,
                        elapsed: next - start_step,
                        span: phase.end_step - start_step,
                    },
                    step_num: next,
                };
            },
            None => {},
        }
        (self.current.lr, self.current.momentum)
    }

    /// The learning rate computed by the last step.
    pub fn get_lr(&self) -> (r: Ramp)
        ensures
            r == self@.lr,
            self@.valid(),
    {
        proof {
            use_type_invariant(self);
        }
        self.current.lr
    }

    /// The momentum computed by the last step.
    pub fn get_momentum(&self) -> (r: Ramp)
        ensures
            r == self@.momentum,
            self@.valid(),
    {
        proof {
            use_type_invariant(self);
        }
        self.current.momentum
    }

    /// How many steps have been taken.
    pub fn step_num(&self) -> (r: usize)
        ensures
            r == self@.step_num,
            self@.valid(),
    {
        proof {
            use_type_invariant(self);
        }
        self.current.step_num
    }
}

/// At every step both values lie between their bounds: the fraction along the
/// active ramp is defined and in `[0, 1]`.
pub proof fn lemma_within_bounds(phases: Seq<Phase>, step: int)
    requires
        well_formed(phases),
        0 <= step,
    ensures
        lr_at(phases, step).in_range(),
        momentum_at(phases, step).in_range(),
{
}

/// At every step momentum mirrors the learning rate: it is as far below its
/// maximum as the learning rate is above its minimum, so it moves the
/// opposite way from the phase's start.
pub proof fn lemma_momentum_mirrors_lr(phases: Seq<Phase>, step: int)
    requires
        well_formed(phases),
        0 <= step,
    ensures
        momentum_at(phases, step).mirrors(lr_at(phases, step)),
        momentum_at(phases, step).from == lr_at(phases, step).from.flipped(),
        momentum_at(phases, step).to == lr_at(phases, step).to.flipped(),
{
}

/// Within the warmup phase the learning rate never falls from one step to a
/// later one.
pub proof fn lemma_lr_rises_in_warmup(phases: Seq<Phase>, earlier: int, later: int)
    requires
        well_formed(phases),
        0 <= earlier <= later <= phases[0].end_step,
    ensures
        lr_at(phases, earlier).at_most(lr_at(phases, later)),
{
    let span = phases[0].end_step as int;
    assert(earlier * span <= later * span) by (nonlinear_arith)
        requires
            earlier <= later,
            0 < span,
    ;
}

/// From the end of the warmup phase on, the learning rate never rises from one
/// step to a later one.
pub proof fn lemma_lr_falls_in_annealing(phases: Seq<Phase>, earlier: int, later: int)
    requires
        well_formed(phases),
        phases[0].end_step <= earlier <= later,
    ensures
        lr_at(phases, later).at_most(lr_at(phases, earlier)),
{
    let a = lr_at(phases, earlier);
    let b = lr_at(phases, later);
    lemma_within_bounds(phases, earlier);
    lemma_within_bounds(phases, later);
    if earlier == phases[0].end_step {
        assert(a.height() == a.span);
        assert(b.height() <= b.span);
        assert(b.height() * a.span <= a.span * b.span) by (nonlinear_arith)
            requires
                b.height() <= b.span,
                0 < a.span,
        ;
    } else {
        assert(a.span == b.span);
        assert(b.height() <= a.height());
        assert(b.height() * a.span <= a.height() * a.span) by (nonlinear_arith)
            requires
                b.height() <= a.height(),
                0 < a.span,
        ;
    }
}

/// While the budget lasts, the phase that decides the values is the first one
/// that has not ended before the step.
pub proof fn lemma_deciding_phase_is_active(phases: Seq<Phase>, step: int)
    requires
        well_formed(phases),
        0 <= step <= phases[1].end_step,
    ensures
        is_active(phases, step, phase_at(phases, step)),
{
}

/// From four steps on, taking one off the rounded three tenths of the budget
/// gives the same warmup end as rounding after taking one off.
pub proof fn lemma_warmup_end_by_rounding_first(total_steps: int)
    requires
        4 <= total_steps,
    ensures
        warmup_end(total_steps) == round_tenths(3 * total_steps) - 1,
{
}

/// A budget is large enough exactly when it has at least five steps.
pub proof fn lemma_enough_from_five(total_steps: int)
    ensures
        enough_steps(total_steps) <==> total_steps >= 5,
{
}

} // verus!
