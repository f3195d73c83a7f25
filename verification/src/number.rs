//! Double-precision numbers held by their IEEE 754 bit patterns, and the
//! order among them. Amounts and exchange rates travel through the library
//! in this form; arithmetic on them and their decimal notation belong to the
//! host.

use vstd::prelude::*;

verus! {

/// The weight of the sign bit of a bit pattern.
pub const SIGN_BIT: u64 = 0x8000_0000_0000_0000;

/// The magnitude of the infinities. A larger magnitude is not a number.
pub const INFINITY_MAGNITUDE: u64 = 0x7FF0_0000_0000_0000;

/// A double-precision number, identified by its bit pattern. Two values are
/// equal when their bits are, so the two zeros differ as values although
/// they rank alike.
#[derive(Clone, Copy, Debug, PartialEq, Eq, Structural)]
pub struct Number {
    pub bits: u64,
}

impl Number {
    /// The number with the given bit pattern.
    pub fn from_bits(bits: u64) -> (number: Number)
        ensures
            number.bits == bits,
    {
        Number { bits }
    }

    /// The bit pattern of this number.
    pub fn to_bits(&self) -> (bits: u64)
        ensures
            bits == self.bits,
    {
        self.bits
    }

    /// The number one.
    pub open spec fn spec_one() -> Number {
        Number { bits: 0x3FF0_0000_0000_0000 }
    }

    /// The number one.
    #[verifier::when_used_as_spec(spec_one)]
    pub fn one() -> (number: Number)
        ensures
            number == Number::spec_one(),
    {
        Number { bits: 0x3FF0_0000_0000_0000 }
    }

    /// The least finite number.
    pub open spec fn spec_lowest() -> Number {
        Number { bits: 0xFFEF_FFFF_FFFF_FFFF }
    }

    /// The least finite number.
    #[verifier::when_used_as_spec(spec_lowest)]
    pub fn lowest() -> (number: Number)
        ensures
            number == Number::spec_lowest(),
    {
        Number { bits: 0xFFEF_FFFF_FFFF_FFFF }
    }

    /// The greatest finite number.
    pub open spec fn spec_highest() -> Number {
        Number { bits: 0x7FEF_FFFF_FFFF_FFFF }
    }

    /// The greatest finite number.
    #[verifier::when_used_as_spec(spec_highest)]
    pub fn highest() -> (number: Number)
        ensures
            number == Number::spec_highest(),
    {
        Number { bits: 0x7FEF_FFFF_FFFF_FFFF }
    }

    /// Whether the sign bit is set.
    pub open spec fn is_negative(self) -> bool {
        self.bits >= SIGN_BIT
    }

    /// The bit pattern without its sign bit.
    pub open spec fn magnitude(self) -> int {
        if self.bits >= SIGN_BIT {
            self.bits - SIGN_BIT
        } else {
            self.bits as int
        }
    }

    /// Whether the bit pattern stands for no number at all.
    pub open spec fn is_nan(self) -> bool {
        self.magnitude() > INFINITY_MAGNITUDE
    }

    /// Whether the number is neither infinite nor not-a-number.
    pub open spec fn is_finite(self) -> bool {
        self.magnitude() < INFINITY_MAGNITUDE
    }

    /// The place of a number in the numeric order: of two numbers the
    /// smaller has the smaller rank, and the two zeros share rank zero.
    pub open spec fn rank(self) -> int {
        if self.is_negative() {
            -self.magnitude()
        } else {
            self.magnitude()
        }
    }

    /// The larger of two numbers. Where one is not a number the other is
    /// taken; of two that rank alike, `self`.
    pub open spec fn spec_larger(self, other: Number) -> Number {
        if self.is_nan() {
            other
        } else if other.is_nan() {
            self
        } else if self.rank() < other.rank() {
            other
        } else {
            self
        }
    }

    /// The smaller of two numbers. Where one is not a number the other is
    /// taken; of two that rank alike, `self`.
    pub open spec fn spec_smaller(self, other: Number) -> Number {
        if self.is_nan() {
            other
        } else if other.is_nan() {
            self
        } else if other.rank() < self.rank() {
            other
        } else {
            self
        }
    }

    /// Whether the bit pattern stands for no number at all.
    pub fn not_a_number(&self) -> (nan: bool)
        ensures
            nan == self.is_nan(),
    {
        let magnitude: u64 = if self.bits >= SIGN_BIT {
            self.bits - SIGN_BIT
        } else {
            self.bits
        };
        magnitude > INFINITY_MAGNITUDE
    }

    /// Whether `self` is less than `other` in the numeric order. A value
    /// that is not a number is neither less nor greater than anything.
    pub fn less_than(&self, other: &Number) -> (less: bool)
        ensures
            less == (!self.is_nan() && !other.is_nan() && self.rank() < other.rank()),
    {
        if self.not_a_number() || other.not_a_number() {
            return false;
        }
        let mine_negative = self.bits >= SIGN_BIT;
        let theirs_negative = other.bits >= SIGN_BIT;
        if mine_negative && theirs_negative {
            // Among negative numbers the larger magnitude is the smaller number.
            self.bits > other.bits
        } else if mine_negative {
            // A negative number is below a positive one, unless both are zero.
            self.bits > SIGN_BIT || other.bits > 0
        } else if theirs_negative {
            false
        } else {
            self.bits < other.bits
        }
    }

    /// The larger of two numbers.
    pub fn larger(self, other: Number) -> (chosen: Number)
        ensures
            chosen == self.spec_larger(other),
    {
        if self.not_a_number() {
            other
        } else if self.less_than(&other) {
            other
        } else {
            self
        }
    }

    /// The smaller of two numbers.
    pub fn smaller(self, other: Number) -> (chosen: Number)
        ensures
            chosen == self.spec_smaller(other),
    {
        if self.not_a_number() {
            other
        } else if other.less_than(&self) {
            other
        } else {
            self
        }
    }
}

/// The largest of a series: the least finite number, made larger by each
/// member in turn.
pub open spec fn series_max(series: Seq<Number>) -> Number
    decreases series.len(),
{
    if series.len() == 0 {
        Number::spec_lowest()
    } else {
        series_max(series.drop_last()).spec_larger(series.last())
    }
}

/// The smallest of a series: the greatest finite number, made smaller by
/// each member in turn.
pub open spec fn series_min(series: Seq<Number>) -> Number
    decreases series.len(),
{
    if series.len() == 0 {
        Number::spec_highest()
    } else {
        series_min(series.drop_last()).spec_smaller(series.last())
    }
}

/// Whether every member of the series is a finite number.
pub open spec fn all_finite(series: Seq<Number>) -> bool {
    forall|i: int| 0 <= i < series.len() ==> (#[trigger] series[i]).is_finite()
}

/// The largest of a series of finite numbers is finite and ranks at least
/// as high as each member; where the series has a member, it is one of them.
pub proof fn lemma_series_max(series: Seq<Number>)
    requires
        all_finite(series),
    ensures
        series_max(series).is_finite(),
        forall|i: int| 0 <= i < series.len() ==> (#[trigger] series[i]).rank() <= series_max(series).rank(),
        series.len() > 0 ==> series.contains(series_max(series)),
    decreases series.len(),
{
    if series.len() > 0 {
        let front = series.drop_last();
        assert forall|i: int| 0 <= i < front.len() implies (#[trigger] front[i]).is_finite() by {
            assert(front[i] == series[i]);
        }
        lemma_series_max(front);
        let best = series_max(front);
        let last = series.last();
        assert(last == series[series.len() - 1]);
        assert(last.is_finite());
        assert forall|i: int| 0 <= i < series.len() implies (#[trigger] series[i]).rank() <= series_max(
            series,
        ).rank() by {
            if i < front.len() {
                assert(front[i] == series[i]);
            }
        }
        if series_max(series) == last {
        } else {
            assert(series_max(series) == best);
            if front.len() > 0 {
                let at = choose|at: int| 0 <= at < front.len() && front[at] == best;
                assert(series[at] == best);
            } else {
                // Every finite number ranks at least as high as the least one.
                assert(last.rank() >= Number::spec_lowest().rank());
                assert(last.rank() == Number::spec_lowest().rank());
                assert(last.bits == Number::spec_lowest().bits);
            }
        }
    }
}

/// The smallest of a series of finite numbers is finite and ranks at most
/// as high as each member; where the series has a member, it is one of them.
pub proof fn lemma_series_min(series: Seq<Number>)
    requires
        all_finite(series),
    ensures
        series_min(series).is_finite(),
        forall|i: int| 0 <= i < series.len() ==> series_min(series).rank() <= (#[trigger] series[i]).rank(),
        series.len() > 0 ==> series.contains(series_min(series)),
    decreases series.len(),
{
    if series.len() > 0 {
        let front = series.drop_last();
        assert forall|i: int| 0 <= i < front.len() implies (#[trigger] front[i]).is_finite() by {
            assert(front[i] == series[i]);
        }
        lemma_series_min(front);
        let best = series_min(front);
        let last = series.last();
        assert(last == series[series.len() - 1]);
        assert(last.is_finite());
        assert forall|i: int| 0 <= i < series.len() implies series_min(series).rank() <= (
        #[trigger] series[i]).rank() by {
            if i < front.len() {
                assert(front[i] == series[i]);
            }
        }
        if series_min(series) == last {
        } else {
            assert(series_min(series) == best);
            if front.len() > 0 {
                let at = choose|at: int| 0 <= at < front.len() && front[at] == best;
                assert(series[at] == best);
            } else {
                assert(last.rank() <= Number::spec_highest().rank());
                assert(last.rank() == Number::spec_highest().rank());
                assert(last.bits == Number::spec_highest().bits);
            }
        }
    }
}

/// The largest and the smallest of a series, each found in one pass.
pub fn series_extremes(series: &Vec<Number>) -> (extremes: (Number, Number))
    ensures
        extremes.0 == series_min(series@),
        extremes.1 == series_max(series@),
{
    let mut lowest = Number::highest();
    let mut highest = Number::lowest();
    let mut at: usize = 0;
    assert(series@.take(0) =~= Seq::<Number>::empty());
    while at < series.len()
        invariant
            at <= series.len(),
            lowest == series_min(series@.take(at as int)),
            highest == series_max(series@.take(at as int)),
        decreases series.len() - at,
    {
        proof {
            let longer = series@.take(at + 1);
            assert(longer.drop_last() =~= series@.take(at as int));
            assert(longer.last() == series@[at as int]);
        }
        lowest = lowest.smaller(series[at]);
        highest = highest.larger(series[at]);
        at += 1;
    }
    assert(series@.take(series.len() as int) =~= series@);
    (lowest, highest)
}

} // verus!
