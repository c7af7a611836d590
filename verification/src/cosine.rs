use crate::error::ConfigError;
use crate::ramp::{turn_position, Angle};
use vstd::prelude::*;

verus! {

/// The cosine-annealing schedule: the learning rate follows half a cosine wave
/// from its base value at step 0 down to its floor at step `max_step`, and
/// keeps following the wave if stepped further, so it repeats every
/// `2 * max_step` steps.
#[derive(Debug)]
pub struct CosineAnnealing {
    max_step: usize,
    step_num: usize,
}

/// What a `CosineAnnealing` schedule holds, as plain values.
pub struct CosineState {
    pub max_step: int,
    pub step_num: int,
}

impl CosineState {
    pub open spec fn valid(self) -> bool {
        0 < self.max_step && 0 <= self.step_num
    }

    /// The angle whose cosine gives the learning rate: `step_num / max_step`
    /// half turns.
    pub open spec fn angle(self) -> Angle {
        Angle { num: self.step_num as usize, den: self.max_step as usize }
    }
}

impl View for CosineAnnealing {
    type V = CosineState;

    closed spec fn view(&self) -> CosineState {
        CosineState { max_step: self.max_step as int, step_num: self.step_num as int }
    }
}

impl CosineAnnealing {
    #[verifier::type_invariant]
    spec fn holds_valid_state(self) -> bool {
        self@.valid()
    }

    /// Builds the schedule that reaches its floor after `max_step` steps. It
    /// starts at step 0, on the base learning rate.
    pub fn new(max_step: usize) -> (r: Result<CosineAnnealing, ConfigError>)
        ensures
            r is Ok <==> max_step > 0,
            r matches Ok(s) ==> s@.valid() && s@.max_step == max_step && s@.step_num == 0,
            r matches Err(e) ==> e == ConfigError::ZeroSteps,
    {
        if max_step == 0 {
            Err(ConfigError::ZeroSteps)
        } else {
            Ok(CosineAnnealing { max_step, step_num: 0 })
        }
    }

    /// Advances the schedule by one step and returns the angle of the cosine
    /// that gives the new learning rate.
    pub fn step(&mut self) -> (r: Angle)
        requires
            old(self)@.step_num < usize::MAX,
        ensures
            final(self)@.valid(),
            final(self)@.max_step == old(self)@.max_step,
            final(self)@.step_num == old(self)@.step_num + 1,
            r == final(self)@.angle(),
    {
        proof {
            use_type_invariant(&*self);
        }
        self.step_num = self.step_num + 1;
        Angle { num: self.step_num, den: self.max_step }
    }

    /// The angle of the cosine that gives the current learning rate.
    pub fn get_lr(&self) -> (r: Angle)
        ensures
            r == self@.angle(),
            self@.valid(),
    {
        proof {
            use_type_invariant(self);
        }
        Angle { num: self.step_num, den: self.max_step }
    }

    /// How many steps have been taken.
    pub fn step_num(&self) -> (r: usize)
        ensures
            r == self@.step_num,
    {
        self.step_num
    }
}

/// The schedule repeats with period `2 * max_step`: the angle after
/// `step + 2 * max_step` steps falls on the same position of the turn as the
/// angle after `step` steps.
pub proof fn lemma_period(step: int, max_step: int)
    requires
        0 <= step,
        0 < max_step,
    ensures
        turn_position(step + 2 * max_step, max_step) == turn_position(step, max_step),
{
    vstd::arithmetic::div_mod::lemma_mod_add_multiples_vanish(step, 2 * max_step);
}

} // verus!
