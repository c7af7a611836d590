use vstd::prelude::*;

verus! {

/// Which of the two bounds fixed at construction an endpoint of a ramp sits on:
/// the minimum (the maximum divided by the divisor) or the maximum.
#[derive(Clone, Copy, Debug, PartialEq, Eq, Structural)]
pub enum Bound {
    Min,
    Max,
}

impl Bound {
    /// The other bound.
    pub open spec fn flipped(self) -> Bound {
        match self {
            Bound::Min => Bound::Max,
            Bound::Max => Bound::Min,
        }
    }

    /// The other bound.
    pub fn opposite(self) -> (r: Bound)
        ensures
            r == self.flipped(),
    {
        match self {
            Bound::Min => Bound::Max,
            Bound::Max => Bound::Min,
        }
    }
}

/// A point on a cosine ramp: the value that lies the fraction
/// `elapsed / span` of the way from the bound `from` to the bound `to`, eased
/// by half a cosine wave.
#[derive(Clone, Copy, Debug, PartialEq, Eq, Structural)]
pub struct Ramp {
    pub from: Bound,
    pub to: Bound,
    pub elapsed: usize,
    pub span: usize,
}

impl Ramp {
    /// The fraction is well defined and lies in `[0, 1]`, so the value lies
    /// between the two endpoints.
    pub open spec fn in_range(self) -> bool {
        0 < self.span && self.elapsed <= self.span
    }

    /// Numerator, over `span`, of how far the point is from the minimum
    /// towards the maximum before easing. The eased value grows with this
    /// fraction: 0 is the minimum, 1 the maximum.
    pub open spec fn height(self) -> int {
        match (self.from, self.to) {
            (Bound::Min, Bound::Max) => self.elapsed as int,
            (Bound::Max, Bound::Min) => self.span - self.elapsed,
            (Bound::Min, Bound::Min) => 0,
            (Bound::Max, Bound::Max) => self.span as int,
        }
    }

    /// `self` is no higher than `other`, as fractions compared exactly.
    pub open spec fn at_most(self, other: Ramp) -> bool {
        self.height() * other.span <= other.height() * self.span
    }

    /// `self` and `other` mirror each other about the midpoint between the
    /// bounds: their heights add up to one.
    pub open spec fn mirrors(self, other: Ramp) -> bool {
        &&& self.span == other.span
        &&& self.height() + other.height() == self.span
    }

    /// The point sits exactly on the bound `b`.
    pub open spec fn rests_on(self, b: Bound) -> bool {
        self.in_range() && match b {
            Bound::Min => self.height() == 0,
            Bound::Max => self.height() == self.span,
        }
    }

}

/// A ramp starts exactly on its first bound and ends exactly on its second.
pub proof fn lemma_ramp_endpoints(ramp: Ramp)
    requires
        0 < ramp.span,
    ensures
        ramp.elapsed == 0 ==> ramp.rests_on(ramp.from),
        ramp.elapsed == ramp.span ==> ramp.rests_on(ramp.to),
{
}

/// Where `num / den` half turns fall within one full turn, in units of
/// `1 / den` half turns.
pub open spec fn turn_position(num: int, den: int) -> int
    recommends
        den > 0,
{
    num % (2 * den)
}

/// An angle of `num / den` half turns, the argument of the annealing cosine.
#[derive(Clone, Copy, Debug, PartialEq, Eq, Structural)]
pub struct Angle {
    pub num: usize,
    pub den: usize,
}

impl Angle {
    /// Where the angle falls within one full turn, in units of `1 / den` half
    /// turns. The cosine depends on the angle through this position alone.
    pub open spec fn position(self) -> int
        recommends
            self.den > 0,
    {
        turn_position(self.num as int, self.den as int)
    }
}

} // verus!
