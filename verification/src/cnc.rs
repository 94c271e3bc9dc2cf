//! The reduction of measurements to corrections: batches per machine, the
//! trimmed mean of a full batch, and the tool offset that follows from it.
//!
//! Every length is an integer number of ten-thousandths. The rate of a tool
//! is a number of ten-thousandths too, so that 10000 is the factor one.
use vstd::prelude::*;
use std::collections::HashMap;
use vstd::std_specs::iter::IteratorSpec;
use crate::clock::now_micros;
use crate::fwlib::{
    offset_read_start, simulated_offset, write_start, ControllerSession, FocasClient, OffsetStep,
    WriteStep, ODBTOFS,
};
use crate::gauge::{measurement_of, GaugeResponse, GaugeResponseView};
use crate::{OffsetLog, PendingWrite};

verus! {

broadcast use vstd::std_specs::hash::group_hash_axioms;

/// The number of controller units in one unit of length, and the value of a
/// rate that stands for the factor one.
pub const OFFSET_SCALE: i32 = 10000;

/// The quotient `n / d` rounded to the nearest integer, a tie away from zero.
pub open spec fn round_half_away(n: int, d: int) -> int
    recommends
        d > 0,
{
    if n >= 0 {
        (2 * n + d) / (2 * d)
    } else {
        -((2 * (-n) + d) / (2 * d))
    }
}

/// The rounded quotient is nearest to the exact one: it is off by at most a
/// half, and where it is off by a half it is the one farther from zero.
pub proof fn round_half_away_is_nearest(n: int, d: int)
    requires
        d > 0,
    ensures
        ({
            let q: int = round_half_away(n, d);
            &&& -d <= 2 * (n - q * d) <= d
            &&& n >= 0 ==> 2 * (n - q * d) != d
            &&& n < 0 ==> 2 * (n - q * d) != -d
            &&& n >= 0 ==> q >= 0
            &&& n <= 0 ==> q <= 0
        }),
{
    if n >= 0 {
        let a: int = 2 * n + d;
        let b: int = 2 * d;
        let q: int = a / b;
        assert(a == b * q + a % b && 0 <= a % b < b && q >= 0) by (nonlinear_arith)
            requires
                a >= 0,
                b > 0,
                q == a / b,
        ;
        assert(b * q == 2 * (q * d)) by (nonlinear_arith)
            requires
                b == 2 * d,
        ;
        if n == 0 {
            assert(q == 0) by (nonlinear_arith)
                requires
                    q >= 0,
                    d > 0,
                    2 * (q * d) <= d,
            ;
        }
    } else {
        let a: int = 2 * (-n) + d;
        let b: int = 2 * d;
        let q: int = a / b;
        assert(a == b * q + a % b && 0 <= a % b < b && q >= 0) by (nonlinear_arith)
            requires
                a >= 0,
                b > 0,
                q == a / b,
        ;
        assert(b * q == 2 * (q * d) && (-q) * d == -(q * d)) by (nonlinear_arith)
            requires
                b == 2 * d,
        ;
    }
}

/// A rounded quotient lies between any two integers that the exact quotient
/// lies between.
pub proof fn round_half_away_within(n: int, d: int, lo: int, hi: int)
    requires
        d > 0,
        lo * d <= n <= hi * d,
    ensures
        lo <= round_half_away(n, d) <= hi,
{
    let q: int = round_half_away(n, d);
    round_half_away_is_nearest(n, d);
    assert(lo <= q) by (nonlinear_arith)
        requires
            d > 0,
            lo * d <= n,
            -d <= 2 * (n - q * d) <= d,
            n >= 0 ==> 2 * (n - q * d) != d,
            n >= 0 ==> q >= 0,
            n < 0 ==> 2 * (n - q * d) != -d,
    {
        if q < lo {
            assert((lo - q) * d >= d);
        }
    }
    assert(q <= hi) by (nonlinear_arith)
        requires
            d > 0,
            n <= hi * d,
            -d <= 2 * (n - q * d) <= d,
            n >= 0 ==> 2 * (n - q * d) != d,
            n <= 0 ==> q <= 0,
            n < 0 ==> 2 * (n - q * d) != -d,
    {
        if q > hi {
            assert((q - hi) * d >= d);
        }
    }
}

fn div_round(n: i128, d: i128) -> (q: i128)
    requires
        0 < d <= 0x1_0000_0000_0000_0000,
        -0x1_0000_0000_0000_0000_0000_0000 <= n <= 0x1_0000_0000_0000_0000_0000_0000,
    ensures
        q == round_half_away(n as int, d as int),
{
    if n >= 0 {
        (2 * n + d) / (2 * d)
    } else {
        -((2 * (-n) + d) / (2 * d))
    }
}

/// The sum of the samples.
pub open spec fn sum(s: Seq<i32>) -> int
    decreases s.len(),
{
    if s.len() == 0 {
        0
    } else {
        sum(s.drop_last()) + s.last()
    }
}

/// The least of the samples, 0 where there is none.
pub open spec fn lowest(s: Seq<i32>) -> int
    decreases s.len(),
{
    if s.len() == 0 {
        0
    } else if s.len() == 1 {
        s[0] as int
    } else if s.last() < lowest(s.drop_last()) {
        s.last() as int
    } else {
        lowest(s.drop_last())
    }
}

/// The greatest of the samples, 0 where there is none.
pub open spec fn highest(s: Seq<i32>) -> int
    decreases s.len(),
{
    if s.len() == 0 {
        0
    } else if s.len() == 1 {
        s[0] as int
    } else if s.last() > highest(s.drop_last()) {
        s.last() as int
    } else {
        highest(s.drop_last())
    }
}

/// The number of samples that the trimmed mean is taken over: all but two
/// where there are more than two, all of them otherwise.
pub open spec fn trimmed_count(s: Seq<i32>) -> int {
    if s.len() > 2 {
        s.len() - 2
    } else {
        s.len() as int
    }
}

/// The sum that the trimmed mean is taken over: where there are more than
/// two samples, one least and one greatest sample are left out, however
/// many samples share those values.
pub open spec fn trimmed_total(s: Seq<i32>) -> int {
    if s.len() > 2 {
        sum(s) - lowest(s) - highest(s)
    } else {
        sum(s)
    }
}

/// The trimmed mean of at least one sample, rounded to a whole
/// ten-thousandth, a tie away from zero.
pub open spec fn trimmed_mean_of(s: Seq<i32>) -> int
    recommends
        s.len() >= 1,
{
    round_half_away(trimmed_total(s), trimmed_count(s))
}

/// The least and the greatest sample are samples, every sample lies between
/// them, and so does every mean: the sum of all, and the sum without one
/// least and one greatest.
pub proof fn extremes_bound_the_samples(s: Seq<i32>)
    requires
        s.len() >= 1,
    ensures
        exists|i: int| 0 <= i < s.len() && s[i] == lowest(s),
        exists|i: int| 0 <= i < s.len() && s[i] == highest(s),
        forall|i: int| 0 <= i < s.len() ==> lowest(s) <= #[trigger] s[i] <= highest(s),
        s.len() * lowest(s) <= sum(s) <= s.len() * highest(s),
        s.len() >= 2 ==> (s.len() - 2) * lowest(s) <= sum(s) - lowest(s) - highest(s) <= (s.len()
            - 2) * highest(s),
    decreases s.len(),
{
    if s.len() == 1 {
        assert(s[0] == lowest(s) && s[0] == highest(s));
        assert(sum(s.drop_last()) == 0);
    } else {
        let t = s.drop_last();
        let x: int = s.last() as int;
        extremes_bound_the_samples(t);
        let n: int = t.len() as int;
        let lo: int = lowest(t);
        let hi: int = highest(t);
        let i_lo: int = choose|i: int| 0 <= i < t.len() && t[i] == lowest(t);
        let i_hi: int = choose|i: int| 0 <= i < t.len() && t[i] == highest(t);
        assert(s[i_lo] == t[i_lo] && s[i_hi] == t[i_hi]);
        assert(s[s.len() - 1] == x);
        assert forall|i: int| 0 <= i < s.len() implies lowest(s) <= #[trigger] s[i] <= highest(
            s,
        ) by {
            if i < t.len() {
                assert(s[i] == t[i]);
            }
        }
        assert((n + 1) * lowest(s) <= sum(s) <= (n + 1) * highest(s)) by (nonlinear_arith)
            requires
                n >= 1,
                n * lo <= sum(t) <= n * hi,
                sum(s) == sum(t) + x,
                lowest(s) <= lo,
                lowest(s) <= x,
                highest(s) >= hi,
                highest(s) >= x,
        ;
        if n >= 2 {
            assert((n - 1) * lowest(s) <= sum(s) - lowest(s) - highest(s) <= (n - 1) * highest(s))
                by (nonlinear_arith)
                requires
                    n >= 2,
                    lo <= hi,
                    (n - 2) * lo <= sum(t) - lo - hi <= (n - 2) * hi,
                    sum(s) == sum(t) + x,
                    lowest(s) == (if x < lo {
                        x
                    } else {
                        lo
                    }),
                    highest(s) == (if x > hi {
                        x
                    } else {
                        hi
                    }),
            ;
        } else {
            assert(sum(t.drop_last()) == 0);
        }
    }
}

/// The trimmed mean lies between the least and the greatest sample.
pub proof fn trimmed_mean_within_samples(s: Seq<i32>)
    requires
        s.len() >= 1,
    ensures
        lowest(s) <= trimmed_mean_of(s) <= highest(s),
        i32::MIN <= trimmed_mean_of(s) <= i32::MAX,
{
    extremes_bound_the_samples(s);
    let d: int = trimmed_count(s);
    assert(lowest(s) * d == d * lowest(s)) by (nonlinear_arith);
    assert(highest(s) * d == d * highest(s)) by (nonlinear_arith);
    round_half_away_within(trimmed_total(s), d, lowest(s), highest(s));
}

/// Leaving one sample out lowers the sum by that sample.
pub proof fn sum_without(s: Seq<i32>, i: int)
    requires
        0 <= i < s.len(),
    ensures
        sum(s.remove(i)) == sum(s) - s[i],
    decreases s.len(),
{
    if i == s.len() - 1 {
        assert(s.remove(i) =~= s.drop_last());
    } else {
        assert(s.remove(i).drop_last() =~= s.drop_last().remove(i));
        sum_without(s.drop_last(), i);
    }
}

/// With more than two samples the trimmed mean leaves out exactly two of
/// them: one that has the least value and one, at another place, that has
/// the greatest. Every other sample counts, also those that share the least
/// or the greatest value.
pub proof fn trimming_drops_one_of_each_extreme(s: Seq<i32>)
    requires
        s.len() > 2,
    ensures
        exists|i: int, j: int|
            {
                &&& 0 <= i < j < s.len()
                &&& (s[i] == lowest(s) && s[j] == highest(s)) || (s[i] == highest(s) && s[j]
                    == lowest(s))
                &&& #[trigger] sum(s.remove(j).remove(i)) == trimmed_total(s)
                &&& s.remove(j).remove(i).len() == trimmed_count(s)
            },
{
    extremes_bound_the_samples(s);
    let i_lo: int = choose|i: int| 0 <= i < s.len() && s[i] == lowest(s);
    let i_hi: int = choose|i: int| 0 <= i < s.len() && s[i] == highest(s);
    if i_lo < i_hi {
        sum_without(s, i_hi);
        sum_without(s.remove(i_hi), i_lo);
    } else if i_hi < i_lo {
        sum_without(s, i_lo);
        sum_without(s.remove(i_lo), i_hi);
    } else {
        // The least sample is the greatest: all samples are equal.
        let other: int = if i_lo == 0 {
            1
        } else {
            0
        };
        if other < i_lo {
            sum_without(s, i_lo);
            sum_without(s.remove(i_lo), other);
        } else {
            sum_without(s, other);
            sum_without(s.remove(other), i_lo);
        }
    }
}

proof fn held_by_both(s: Seq<i32>, t: Seq<i32>, v: i32)
    requires
        s.to_multiset() == t.to_multiset(),
        s.contains(v),
    ensures
        t.contains(v),
{
    s.to_multiset_ensures();
    t.to_multiset_ensures();
    assert(s.to_multiset().count(v) > 0);
    assert(t.to_multiset().count(v) > 0);
}

/// The sum, the least and the greatest sample do not hang on the order of
/// the samples, and so neither does the trimmed mean: two queues that hold
/// the same samples, each as often as the other, have the same mean.
pub proof fn order_of_samples_does_not_matter(s: Seq<i32>, t: Seq<i32>)
    requires
        s.to_multiset() == t.to_multiset(),
    ensures
        s.len() == t.len(),
        sum(s) == sum(t),
        lowest(s) == lowest(t),
        highest(s) == highest(t),
        trimmed_mean_of(s) == trimmed_mean_of(t),
    decreases s.len(),
{
    s.to_multiset_ensures();
    t.to_multiset_ensures();
    if s.len() > 0 {
        let x: i32 = s.last();
        assert(s[s.len() - 1] == x);
        assert(s.contains(x));
        held_by_both(s, t, x);
        let j: int = choose|j: int| 0 <= j < t.len() && t[j] == x;
        assert(s.drop_last() =~= s.remove(s.len() - 1));
        assert(s.drop_last().to_multiset() =~= t.remove(j).to_multiset());
        order_of_samples_does_not_matter(s.drop_last(), t.remove(j));
        sum_without(t, j);
        extremes_bound_the_samples(s);
        extremes_bound_the_samples(t);
        let s_lo: int = choose|i: int| 0 <= i < s.len() && s[i] == lowest(s);
        let s_hi: int = choose|i: int| 0 <= i < s.len() && s[i] == highest(s);
        let t_lo: int = choose|i: int| 0 <= i < t.len() && t[i] == lowest(t);
        let t_hi: int = choose|i: int| 0 <= i < t.len() && t[i] == highest(t);
        assert(s.contains(s[s_lo]) && s.contains(s[s_hi]));
        assert(t.contains(t[t_lo]) && t.contains(t[t_hi]));
        held_by_both(s, t, s[s_lo]);
        held_by_both(s, t, s[s_hi]);
        held_by_both(t, s, t[t_lo]);
        held_by_both(t, s, t[t_hi]);
        let a: int = choose|i: int| 0 <= i < t.len() && t[i] == s[s_lo];
        let b: int = choose|i: int| 0 <= i < t.len() && t[i] == s[s_hi];
        let c: int = choose|i: int| 0 <= i < s.len() && s[i] == t[t_lo];
        let d: int = choose|i: int| 0 <= i < s.len() && s[i] == t[t_hi];
        assert(lowest(t) <= t[a] && t[b] <= highest(t));
        assert(lowest(s) <= s[c] && s[d] <= highest(s));
    }
}

/// The trimmed mean of the samples, or nothing where there is no sample:
/// with more than two samples the mean of all but one least and one greatest
/// sample, with one or two the mean of all.
pub fn trimmed_mean(samples: &Vec<i32>) -> (mean: Option<i32>)
    ensures
        samples@.len() == 0 ==> mean is None,
        samples@.len() >= 1 ==> mean == Some(trimmed_mean_of(samples@) as i32),
        samples@.len() >= 1 ==> i32::MIN <= trimmed_mean_of(samples@) <= i32::MAX,
{
    let len: usize = samples.len();
    if len == 0 {
        return None;
    }
    let mut total: i128 = samples[0] as i128;
    let mut lo: i32 = samples[0];
    let mut hi: i32 = samples[0];
    let mut i: usize = 1;
    assert(sum(samples@.take(1).drop_last()) == 0);
    while i < len
        invariant
            1 <= i <= len,
            len == samples@.len(),
            total == sum(samples@.take(i as int)),
            lo == lowest(samples@.take(i as int)),
            hi == highest(samples@.take(i as int)),
            -0x8000_0000 * i <= total <= 0x8000_0000 * i,
        decreases len - i,
    {
        let x: i32 = samples[i];
        assert(samples@.take(i + 1).drop_last() =~= samples@.take(i as int));
        total = total + x as i128;
        if x < lo {
            lo = x;
        }
        if x > hi {
            hi = x;
        }
        i = i + 1;
    }
    proof {
        assert(samples@.take(len as int) =~= samples@);
        trimmed_mean_within_samples(samples@);
    }
    let mean: i128 = if len > 2 {
        div_round(total - lo as i128 - hi as i128, (len - 2) as i128)
    } else {
        div_round(total, len as i128)
    };
    Some(mean as i32)
}

/// The batch threshold of a machine for which none is configured.
pub const DEFAULT_BATCH_SIZE: usize = 5;

/// The greatest batch threshold that an operator may set.
pub const MAX_BATCH_SIZE: usize = 30;

/// One tool of a machine: its calibration, and what the last full batch
/// gave for it.
#[derive(Debug, Clone, Copy, PartialEq, Eq, Structural)]
pub struct ToolData {
    pub machine_id: u16,
    pub tool_num: i16,
    /// The size that the part should have.
    pub basic_size: i32,
    /// What the operator adds to every correction.
    pub manual_offset: i32,
    /// The factor on the correction, in ten-thousandths.
    pub offset_rate: i32,
    /// Whether corrections are written for this tool.
    pub active: bool,
    /// The trimmed mean of the last full batch.
    pub avg_gauge: Option<i32>,
    /// The correction that follows from `avg_gauge` and the calibration.
    pub final_offset: Option<i64>,
}

/// The correction in controller units: size minus measurement plus manual
/// offset, times the rate, rounded to the nearest unit, a tie away from zero.
pub open spec fn correction(basic_size: int, avg: int, manual_offset: int, offset_rate: int) -> int {
    round_half_away((basic_size - avg + manual_offset) * offset_rate, OFFSET_SCALE as int)
}

/// The nearest value that a controller takes.
pub open spec fn clamp_i32(v: int) -> int {
    if v < i32::MIN {
        i32::MIN as int
    } else if v > i32::MAX {
        i32::MAX as int
    } else {
        v
    }
}

/// A correction of 32-bit calibration values fits in 64 bits.
pub proof fn correction_fits(basic_size: i32, avg: i32, manual_offset: i32, offset_rate: i32)
    ensures
        i64::MIN <= correction(
            basic_size as int,
            avg as int,
            manual_offset as int,
            offset_rate as int,
        ) <= i64::MAX,
{
    let d: int = basic_size - avg + manual_offset;
    let r: int = offset_rate as int;
    let n: int = d * r;
    assert(-0x3_0000_0000 * 0x8000_0000 <= n <= 0x3_0000_0000 * 0x8000_0000) by (nonlinear_arith)
        requires
            n == d * r,
            -0x3_0000_0000 <= d <= 0x3_0000_0000,
            -0x8000_0000 <= r <= 0x8000_0000,
    ;
    round_half_away_is_nearest(n, OFFSET_SCALE as int);
}

impl ToolData {
    /// The correction that the tool's calibration gives for its last mean,
    /// where it has one.
    pub open spec fn correction_due(self) -> Option<i64> {
        match self.avg_gauge {
            Some(avg) => Some(
                correction(
                    self.basic_size as int,
                    avg as int,
                    self.manual_offset as int,
                    self.offset_rate as int,
                ) as i64,
            ),
            None => None,
        }
    }

    /// The tool after a full batch with the trimmed mean `avg`: the mean is
    /// recorded, and the correction is derived from it.
    pub open spec fn calibrated(self, avg: i32) -> ToolData {
        let measured = ToolData { avg_gauge: Some(avg), ..self };
        ToolData { final_offset: measured.correction_due(), ..measured }
    }

    /// What is written for the tool: its machine, its number and its
    /// correction in controller units, unless the tool is inactive or has no
    /// mean yet.
    pub open spec fn emission(self) -> Option<(u16, i16, i32)> {
        match self.correction_due() {
            Some(offset) if self.active => Some(
                (self.machine_id, self.tool_num, clamp_i32(offset as int) as i32),
            ),
            _ => None,
        }
    }

    /// Whether the recorded correction is the one that follows from the
    /// recorded mean and the calibration.
    pub open spec fn consistent(self) -> bool {
        self.final_offset == self.correction_due()
    }

    /// The tool with the settings that are given, each of the others as it
    /// was, and the correction derived anew.
    pub open spec fn with_settings(
        self,
        basic_size: Option<i32>,
        manual_offset: Option<i32>,
        offset_rate: Option<i32>,
        active: Option<bool>,
        tool_num: Option<i16>,
    ) -> ToolData {
        let set = ToolData {
            basic_size: basic_size.unwrap_or(self.basic_size),
            manual_offset: manual_offset.unwrap_or(self.manual_offset),
            offset_rate: offset_rate.unwrap_or(self.offset_rate),
            active: active.unwrap_or(self.active),
            tool_num: tool_num.unwrap_or(self.tool_num),
            ..self
        };
        ToolData { final_offset: set.correction_due(), ..set }
    }

    /// A tool with the given calibration and last mean, and the correction
    /// that follows from them.
    pub fn new(
        machine_id: u16,
        tool_num: i16,
        basic_size: i32,
        manual_offset: i32,
        offset_rate: i32,
        active: bool,
        avg_gauge: Option<i32>,
    ) -> (tool: Self)
        ensures
            tool.machine_id == machine_id,
            tool.tool_num == tool_num,
            tool.basic_size == basic_size,
            tool.manual_offset == manual_offset,
            tool.offset_rate == offset_rate,
            tool.active == active,
            tool.avg_gauge == avg_gauge,
            tool.consistent(),
    {
        let mut tool = ToolData {
            machine_id,
            tool_num,
            basic_size,
            manual_offset,
            offset_rate,
            active,
            avg_gauge,
            final_offset: None,
        };
        tool.final_offset = tool.get_final_offset();
        tool
    }

    /// Changes the settings that are given, and derives the correction anew
    /// from the last mean.
    pub fn apply_settings(
        &mut self,
        basic_size: Option<i32>,
        manual_offset: Option<i32>,
        offset_rate: Option<i32>,
        active: Option<bool>,
        tool_num: Option<i16>,
    )
        ensures
            *final(self) == old(self).with_settings(
                basic_size,
                manual_offset,
                offset_rate,
                active,
                tool_num,
            ),
            final(self).consistent(),
    {
        if let Some(v) = basic_size {
            self.basic_size = v;
        }
        if let Some(v) = manual_offset {
            self.manual_offset = v;
        }
        if let Some(v) = offset_rate {
            self.offset_rate = v;
        }
        if let Some(v) = active {
            self.active = v;
        }
        if let Some(v) = tool_num {
            self.tool_num = v;
        }
        self.final_offset = self.get_final_offset();
    }

    /// The correction for the last mean, in controller units. A tool without
    /// a mean has none.
    pub fn get_final_offset(&self) -> (offset: Option<i64>)
        ensures
            offset == self.correction_due(),
            self.avg_gauge matches Some(avg) ==> offset == Some(
                correction(
                    self.basic_size as int,
                    avg as int,
                    self.manual_offset as int,
                    self.offset_rate as int,
                ) as i64,
            ) && i64::MIN <= correction(
                self.basic_size as int,
                avg as int,
                self.manual_offset as int,
                self.offset_rate as int,
            ) <= i64::MAX,
    {
        match self.avg_gauge {
            Some(avg_gauge) => {
                let diff: i128 = self.basic_size as i128 - avg_gauge as i128
                    + self.manual_offset as i128;
                let rate: i128 = self.offset_rate as i128;
                assert(-0x3_0000_0000 * 0x8000_0000 <= diff * rate <= 0x3_0000_0000
                    * 0x8000_0000) by (nonlinear_arith)
                    requires
                        -0x3_0000_0000 <= diff <= 0x3_0000_0000,
                        -0x8000_0000 <= rate <= 0x8000_0000,
                ;
                let scaled: i128 = div_round(diff * rate, OFFSET_SCALE as i128);
                proof {
                    correction_fits(
                        self.basic_size,
                        avg_gauge,
                        self.manual_offset,
                        self.offset_rate,
                    );
                }
                Some(scaled as i64)
            },
            None => None,
        }
    }

    /// The correction for the last mean as the controller takes it: the
    /// value of `get_final_offset`, held to the range of 32 bits.
    pub fn get_final_offset_as_i32(&self) -> (offset: Option<i32>)
        ensures
            offset == match self.correction_due() {
                Some(v) => Some(clamp_i32(v as int) as i32),
                None => None::<i32>,
            },
    {
        match self.get_final_offset() {
            Some(offset) => {
                if offset < i32::MIN as i64 {
                    Some(i32::MIN)
                } else if offset > i32::MAX as i64 {
                    Some(i32::MAX)
                } else {
                    Some(offset as i32)
                }
            },
            None => None,
        }
    }
}

/// Why no batch could be taken for a machine.
#[derive(Debug, Clone, Copy, PartialEq, Eq, Structural)]
pub enum BatchError {
    /// No controller is known for the machine.
    NoClient { machine_id: u16 },
    /// No tools are configured for the machine.
    NoToolData { machine_id: u16 },
}

/// What a machine's two tools give to write, the upper tool first.
pub type Emissions = (Option<(u16, i16, i32)>, Option<(u16, i16, i32)>);

/// What an attempt to take a batch leaves and gives.
pub struct Extraction {
    /// The samples that stay queued for the machine.
    pub queue: Seq<i32>,
    /// The machine's tools afterwards, where it has any.
    pub tools: Option<(ToolData, ToolData)>,
    /// What is to be written, or why the batch was lost.
    pub result: Result<Emissions, BatchError>,
}

/// Whether a queue is a full batch: it has reached the threshold, and holds
/// at least one sample.
pub open spec fn batch_full(queue: Seq<i32>, threshold: int) -> bool {
    queue.len() >= 1 && queue.len() >= threshold
}

/// The outcome of an attempt to take a batch for machine `key`. `client` is
/// whether the machine's controller may start an operation, and nothing
/// where no controller is known.
///
/// - Without a controller the queue is dropped, and that is an error.
/// - While the controller is busy or unreachable nothing is taken.
/// - Below the threshold nothing is taken.
/// - A full batch is taken whole. Its trimmed mean is recorded on both
///   tools, and each active tool gives its correction. Without tools the
///   batch is lost, and that is an error.
pub open spec fn extraction(
    key: u16,
    queue: Seq<i32>,
    client: Option<bool>,
    threshold: int,
    tools: Option<(ToolData, ToolData)>,
) -> Extraction {
    match client {
        None => Extraction {
            queue: Seq::<i32>::empty(),
            tools,
            result: Err(BatchError::NoClient { machine_id: key }),
        },
        Some(available) => {
            if !available || !batch_full(queue, threshold) {
                Extraction { queue, tools, result: Ok((None, None)) }
            } else {
                match tools {
                    None => Extraction {
                        queue: Seq::<i32>::empty(),
                        tools,
                        result: Err(BatchError::NoToolData { machine_id: key }),
                    },
                    Some((upper, lower)) => {
                        let avg: i32 = trimmed_mean_of(queue) as i32;
                        Extraction {
                            queue: Seq::<i32>::empty(),
                            tools: Some((upper.calibrated(avg), lower.calibrated(avg))),
                            result: Ok(
                                (
                                    upper.calibrated(avg).emission(),
                                    lower.calibrated(avg).emission(),
                                ),
                            ),
                        }
                    },
                }
            }
        },
    }
}

/// Whether the controller of machine `key` may start an operation, and
/// nothing where the table has no controller for it.
pub open spec fn client_available(handle_table: Map<u16, FocasClient>, key: u16) -> Option<bool> {
    if handle_table.contains_key(key) {
        Some(handle_table[key]@.available())
    } else {
        None
    }
}

/// The batch threshold of machine `key`.
pub open spec fn threshold_of(batch_size: Map<u16, usize>, key: u16) -> int {
    if batch_size.contains_key(key) {
        batch_size[key] as int
    } else {
        DEFAULT_BATCH_SIZE as int
    }
}

/// The tools of machine `key`, where it has any.
pub open spec fn tools_of(tool_data: Map<u16, (ToolData, ToolData)>, key: u16) -> Option<
    (ToolData, ToolData),
> {
    if tool_data.contains_key(key) {
        Some(tool_data[key])
    } else {
        None
    }
}

/// The tool table after an attempt that left `tools` for machine `key`.
pub open spec fn tools_put(
    tool_data: Map<u16, (ToolData, ToolData)>,
    key: u16,
    tools: Option<(ToolData, ToolData)>,
) -> Map<u16, (ToolData, ToolData)> {
    match tools {
        Some(t) => tool_data.insert(key, t),
        None => tool_data,
    }
}

/// The samples that wait for each machine, in the order in which they came.
#[derive(Debug)]
pub struct GaugeBatches {
    batches: HashMap<u16, Vec<i32>>,
}

impl View for GaugeBatches {
    type V = Map<u16, Seq<i32>>;

    /// The queue of every machine. A machine for which nothing waits has the
    /// empty queue.
    closed spec fn view(&self) -> Map<u16, Seq<i32>> {
        Map::total(
            |k: u16|
                if self.batches@.contains_key(k) {
                    self.batches@[k]@
                } else {
                    Seq::<i32>::empty()
                },
        )
    }
}

impl GaugeBatches {
    /// Batches in which nothing waits.
    pub fn new() -> (batches: Self)
        ensures
            batches@ == Map::<u16, Seq<i32>>::total(|k: u16| Seq::<i32>::empty()),
    {
        GaugeBatches { batches: HashMap::new() }
    }

    /// Queues one sample for a machine, behind those that wait already.
    pub fn insert(&mut self, machine_id: u16, point: i32)
        ensures
            final(self)@ == old(self)@.insert(machine_id, old(self)@[machine_id].push(point)),
    {
        let mut queue: Vec<i32> = match self.batches.remove(&machine_id) {
            Some(queue) => queue,
            None => Vec::new(),
        };
        queue.push(point);
        self.batches.insert(machine_id, queue);
    }

    /// The number of samples that wait for a machine.
    pub fn pending(&self, machine_id: u16) -> (n: usize)
        ensures
            n == self@[machine_id].len(),
    {
        match self.batches.get(&machine_id) {
            Some(queue) => queue.len(),
            None => 0,
        }
    }

    /// Tries to take a batch for machine `key`; see `extraction` for the
    /// cases. The queue of no other machine changes, nor the tools of any
    /// other machine.
    pub fn check_and_extract(
        &mut self,
        key: u16,
        handle_table: &HashMap<u16, FocasClient>,
        tool_data: &mut HashMap<u16, (ToolData, ToolData)>,
        batch_size: &HashMap<u16, usize>,
    ) -> (r: Result<Emissions, BatchError>)
        ensures
            r == extraction(
                key,
                old(self)@[key],
                client_available(handle_table@, key),
                threshold_of(batch_size@, key),
                tools_of(old(tool_data)@, key),
            ).result,
            final(self)@ == old(self)@.insert(
                key,
                extraction(
                    key,
                    old(self)@[key],
                    client_available(handle_table@, key),
                    threshold_of(batch_size@, key),
                    tools_of(old(tool_data)@, key),
                ).queue,
            ),
            final(tool_data)@ == tools_put(
                old(tool_data)@,
                key,
                extraction(
                    key,
                    old(self)@[key],
                    client_available(handle_table@, key),
                    threshold_of(batch_size@, key),
                    tools_of(old(tool_data)@, key),
                ).tools,
            ),
    {
        match handle_table.get(&key) {
            Some(handle) => {
                if !handle.is_connected() || handle.is_busy() {
                    assert(tool_data@ =~= tools_put(
                        old(tool_data)@,
                        key,
                        tools_of(old(tool_data)@, key),
                    ));
                    return Ok((None, None));
                }
            },
            None => {
                self.batches.remove(&key);
                assert(tool_data@ =~= tools_put(
                    old(tool_data)@,
                    key,
                    tools_of(old(tool_data)@, key),
                ));
                return Err(BatchError::NoClient { machine_id: key });
            },
        }
        let batches: Vec<i32> = match self.batches.remove(&key) {
            Some(queue) => queue,
            None => Vec::new(),
        };
        let threshold: usize = match batch_size.get(&key) {
            Some(n) => *n,
            None => DEFAULT_BATCH_SIZE,
        };
        if batches.len() >= threshold && batches.len() >= 1 {
            let avg_point: i32 = match trimmed_mean(&batches) {
                Some(avg) => avg,
                None => 0,
            };
            match tool_data.remove(&key) {
                Some((tool_upper, tool_lower)) => {
                    let mut tool_upper = tool_upper;
                    let mut tool_lower = tool_lower;
                    tool_upper.avg_gauge = Some(avg_point);
                    tool_lower.avg_gauge = Some(avg_point);
                    tool_upper.final_offset = tool_upper.get_final_offset();
                    tool_lower.final_offset = tool_lower.get_final_offset();
                    let upper = if tool_upper.active {
                        match tool_upper.get_final_offset_as_i32() {
                            Some(offset) => Some((tool_upper.machine_id, tool_upper.tool_num, offset)),
                            None => None,
                        }
                    } else {
                        None
                    };
                    let lower = if tool_lower.active {
                        match tool_lower.get_final_offset_as_i32() {
                            Some(offset) => Some((tool_lower.machine_id, tool_lower.tool_num, offset)),
                            None => None,
                        }
                    } else {
                        None
                    };
                    tool_data.insert(key, (tool_upper, tool_lower));
                    Ok((upper, lower))
                },
                None => Err(BatchError::NoToolData { machine_id: key }),
            }
        } else {
            self.batches.insert(key, batches);
            assert(tool_data@ =~= tools_put(
                old(tool_data)@,
                key,
                tools_of(old(tool_data)@, key),
            ));
            Ok((None, None))
        }
    }
}

/// Whether `order` is a walk through the machines of a table: each of them
/// once, in some order.
pub open spec fn is_walk<V>(order: Seq<u16>, table: Map<u16, V>) -> bool {
    order.no_duplicates() && order.to_set() == table.dom()
}

pub(crate) fn machine_ids<V>(handle_table: &HashMap<u16, V>) -> (keys: Vec<u16>)
    ensures
        is_walk(keys@, handle_table@),
{
    let mut keys: Vec<u16> = Vec::new();
    let ghost order: Seq<u16> = handle_table.keys().remaining().unref();
    proof {
        vstd::std_specs::hash::axiom_spec_keys_iter(handle_table);
        let refs = handle_table.keys().remaining();
        assert(order.no_duplicates()) by {
            assert forall|i: int, j: int|
                0 <= i < order.len() && 0 <= j < order.len() && i != j implies order[i]
                != order[j] by {
                assert(refs[i] != refs[j]);
            }
        }
    }
    for key in it: handle_table.keys()
        invariant
            it.seq().unref() == order,
            keys@.len() == it.index(),
            forall|j: int| 0 <= j < keys@.len() ==> keys@[j] == order[j],
    {
        keys.push(*key);
    }
    assert(keys@ =~= order);
    keys
}

/// The queues and the tools of all machines.
pub struct BatchState {
    pub queues: Map<u16, Seq<i32>>,
    pub tools: Map<u16, (ToolData, ToolData)>,
}

/// The outcome of an attempt to take a batch for machine `key` in a state.
pub open spec fn attempt(
    state: BatchState,
    key: u16,
    handle_table: Map<u16, FocasClient>,
    batch_size: Map<u16, usize>,
) -> Extraction {
    extraction(
        key,
        state.queues[key],
        client_available(handle_table, key),
        threshold_of(batch_size, key),
        tools_of(state.tools, key),
    )
}

/// The state after an attempt to take a batch for machine `key`.
pub open spec fn extract_one(
    state: BatchState,
    key: u16,
    handle_table: Map<u16, FocasClient>,
    batch_size: Map<u16, usize>,
) -> BatchState {
    let out = attempt(state, key, handle_table, batch_size);
    BatchState {
        queues: state.queues.insert(key, out.queue),
        tools: tools_put(state.tools, key, out.tools),
    }
}

/// The corrections that a machine's tools give, the upper tool first.
pub open spec fn emitted(e: Emissions) -> Seq<(u16, i16, i32)> {
    (match e.0 {
        Some(upper) => seq![upper],
        None => Seq::<(u16, i16, i32)>::empty(),
    }) + (match e.1 {
        Some(lower) => seq![lower],
        None => Seq::<(u16, i16, i32)>::empty(),
    })
}

/// The corrections that one attempt gives: those of the machine's tools, and
/// none after an error.
pub open spec fn writes_of(result: Result<Emissions, BatchError>) -> Seq<(u16, i16, i32)> {
    match result {
        Ok(e) => emitted(e),
        Err(_) => Seq::<(u16, i16, i32)>::empty(),
    }
}

/// The error that one attempt gives, if it gives one.
pub open spec fn errors_of(result: Result<Emissions, BatchError>) -> Seq<BatchError> {
    match result {
        Ok(_) => Seq::<BatchError>::empty(),
        Err(e) => seq![e],
    }
}

/// The state after attempts for the machines of `order`, one after the
/// other. An error of one machine does not end the walk.
pub open spec fn extract_each(
    order: Seq<u16>,
    state: BatchState,
    handle_table: Map<u16, FocasClient>,
    batch_size: Map<u16, usize>,
) -> BatchState
    decreases order.len(),
{
    if order.len() == 0 {
        state
    } else {
        extract_one(
            extract_each(order.drop_last(), state, handle_table, batch_size),
            order.last(),
            handle_table,
            batch_size,
        )
    }
}

/// The corrections of the machines of `order`, in that order: for each
/// machine those of its own attempt on `state`.
pub open spec fn writes_along(
    order: Seq<u16>,
    state: BatchState,
    handle_table: Map<u16, FocasClient>,
    batch_size: Map<u16, usize>,
) -> Seq<(u16, i16, i32)>
    decreases order.len(),
{
    if order.len() == 0 {
        Seq::<(u16, i16, i32)>::empty()
    } else {
        writes_along(order.drop_last(), state, handle_table, batch_size) + writes_of(
            attempt(state, order.last(), handle_table, batch_size).result,
        )
    }
}

/// The errors of the machines of `order`, in that order: for each machine
/// that of its own attempt on `state`, if that is an error.
pub open spec fn errors_along(
    order: Seq<u16>,
    state: BatchState,
    handle_table: Map<u16, FocasClient>,
    batch_size: Map<u16, usize>,
) -> Seq<BatchError>
    decreases order.len(),
{
    if order.len() == 0 {
        Seq::<BatchError>::empty()
    } else {
        errors_along(order.drop_last(), state, handle_table, batch_size) + errors_of(
            attempt(state, order.last(), handle_table, batch_size).result,
        )
    }
}

/// The queue and the tools of machine `key`.
pub open spec fn machine_state(state: BatchState, key: u16) -> (
    Seq<i32>,
    Option<(ToolData, ToolData)>,
) {
    (state.queues[key], tools_of(state.tools, key))
}

/// What a walk leaves for machine `key`: what one attempt on the state
/// before the walk leaves, if the walk comes by the machine, and what was
/// there before, if it does not.
pub open spec fn left_for(
    key: u16,
    visited: bool,
    state: BatchState,
    handle_table: Map<u16, FocasClient>,
    batch_size: Map<u16, usize>,
) -> (Seq<i32>, Option<(ToolData, ToolData)>) {
    if visited {
        let out = attempt(state, key, handle_table, batch_size);
        (out.queue, out.tools)
    } else {
        machine_state(state, key)
    }
}

proof fn last_is_new(order: Seq<u16>)
    requires
        order.no_duplicates(),
        order.len() > 0,
    ensures
        order.drop_last().no_duplicates(),
        !order.drop_last().contains(order.last()),
        forall|key: u16|
            #[trigger] order.contains(key) <==> order.drop_last().contains(key) || key
                == order.last(),
{
    let rest = order.drop_last();
    if rest.contains(order.last()) {
        let i: int = choose|i: int| 0 <= i < rest.len() && rest[i] == order.last();
        assert(order[i] == order[order.len() - 1]);
    }
    assert forall|key: u16|
        #[trigger] order.contains(key) <==> rest.contains(key) || key == order.last() by {
        if rest.contains(key) {
            let i: int = choose|i: int| 0 <= i < rest.len() && rest[i] == key;
            assert(order[i] == key);
        }
        if order.contains(key) {
            let i: int = choose|i: int| 0 <= i < order.len() && order[i] == key;
            if i < rest.len() {
                assert(rest[i] == key);
            }
        }
        assert(order[order.len() - 1] == order.last());
    }
}

/// The machines of a walk do not touch each other: after a walk that comes
/// by every machine once, each machine's queue and tools are what one
/// attempt for that machine alone leaves, in whatever order the walk went
/// and whatever became of the other machines.
pub proof fn walk_treats_each_machine_alone(
    order: Seq<u16>,
    state: BatchState,
    handle_table: Map<u16, FocasClient>,
    batch_size: Map<u16, usize>,
)
    requires
        order.no_duplicates(),
    ensures
        forall|key: u16|
            #[trigger] machine_state(extract_each(order, state, handle_table, batch_size), key)
                == left_for(key, order.contains(key), state, handle_table, batch_size),
    decreases order.len(),
{
    if order.len() > 0 {
        let rest = order.drop_last();
        let before = extract_each(rest, state, handle_table, batch_size);
        let after = extract_each(order, state, handle_table, batch_size);
        last_is_new(order);
        walk_treats_each_machine_alone(rest, state, handle_table, batch_size);
        assert forall|key: u16| #[trigger]
            machine_state(after, key) == left_for(
                key,
                order.contains(key),
                state,
                handle_table,
                batch_size,
            ) by {
            assert(machine_state(before, key) == left_for(
                key,
                rest.contains(key),
                state,
                handle_table,
                batch_size,
            ));
            assert(machine_state(before, order.last()) == left_for(
                order.last(),
                rest.contains(order.last()),
                state,
                handle_table,
                batch_size,
            ));
        }
    }
}

/// Whether a list holds the corrections and another the errors of the
/// machines of a walk: each correction and each error comes from the
/// attempt of one machine of the walk, and none of them is missing.
pub open spec fn walk_reports(
    order: Seq<u16>,
    writes: Seq<(u16, i16, i32)>,
    errors: Seq<BatchError>,
    state: BatchState,
    handle_table: Map<u16, FocasClient>,
    batch_size: Map<u16, usize>,
) -> bool {
    &&& forall|key: u16, w: (u16, i16, i32)|
        order.contains(key) && #[trigger] writes_of(
            attempt(state, key, handle_table, batch_size).result,
        ).contains(w) ==> writes.contains(w)
    &&& forall|key: u16|
        order.contains(key) && (#[trigger] attempt(
            state,
            key,
            handle_table,
            batch_size,
        )).result is Err ==> errors.contains(
            attempt(state, key, handle_table, batch_size).result->Err_0,
        )
    &&& forall|w: (u16, i16, i32)| #[trigger]
        writes.contains(w) ==> exists|key: u16|
            order.contains(key) && #[trigger] writes_of(
                attempt(state, key, handle_table, batch_size).result,
            ).contains(w)
    &&& forall|e: BatchError| #[trigger]
        errors.contains(e) ==> exists|key: u16|
            order.contains(key) && (#[trigger] attempt(
                state,
                key,
                handle_table,
                batch_size,
            )).result == Err::<Emissions, BatchError>(e)
}

/// No machine's outcome is lost on a walk: the corrections of every machine
/// whose attempt succeeds are among the corrections of the walk, the error
/// of every machine whose attempt fails is among its errors, and nothing
/// else is among them. So the failure of one machine costs no other machine
/// its corrections.
pub proof fn walk_loses_no_outcome(
    order: Seq<u16>,
    state: BatchState,
    handle_table: Map<u16, FocasClient>,
    batch_size: Map<u16, usize>,
)
    ensures
        walk_reports(
            order,
            writes_along(order, state, handle_table, batch_size),
            errors_along(order, state, handle_table, batch_size),
            state,
            handle_table,
            batch_size,
        ),
    decreases order.len(),
{
    let writes = writes_along(order, state, handle_table, batch_size);
    let errors = errors_along(order, state, handle_table, batch_size);
    if order.len() > 0 {
        let rest = order.drop_last();
        let last: u16 = order.last();
        let out = attempt(state, last, handle_table, batch_size).result;
        let rest_writes = writes_along(rest, state, handle_table, batch_size);
        let rest_errors = errors_along(rest, state, handle_table, batch_size);
        walk_loses_no_outcome(rest, state, handle_table, batch_size);
        assert(order[order.len() - 1] == last);
        assert forall|key: u16| rest.contains(key) implies order.contains(key) by {
            let i: int = choose|i: int| 0 <= i < rest.len() && rest[i] == key;
            assert(order[i] == key);
        }
        assert forall|key: u16| order.contains(key) implies rest.contains(key) || key == last by {
            let i: int = choose|i: int| 0 <= i < order.len() && order[i] == key;
            if i < rest.len() {
                assert(rest[i] == key);
            }
        }
        assert forall|w: (u16, i16, i32)| rest_writes.contains(w) implies writes.contains(w) by {
            let i: int = choose|i: int| 0 <= i < rest_writes.len() && rest_writes[i] == w;
            assert(writes[i] == w);
        }
        assert forall|w: (u16, i16, i32)| writes_of(out).contains(w) implies writes.contains(
            w,
        ) by {
            let i: int = choose|i: int| 0 <= i < writes_of(out).len() && writes_of(out)[i] == w;
            assert(writes[rest_writes.len() + i] == w);
        }
        assert forall|w: (u16, i16, i32)| writes.contains(w) implies rest_writes.contains(w)
            || writes_of(out).contains(w) by {
            let i: int = choose|i: int| 0 <= i < writes.len() && writes[i] == w;
            if i < rest_writes.len() {
                assert(rest_writes[i] == w);
            } else {
                assert(writes_of(out)[i - rest_writes.len()] == w);
            }
        }
        assert forall|e: BatchError| rest_errors.contains(e) implies errors.contains(e) by {
            let i: int = choose|i: int| 0 <= i < rest_errors.len() && rest_errors[i] == e;
            assert(errors[i] == e);
        }
        assert forall|e: BatchError| errors_of(out).contains(e) implies errors.contains(e) by {
            let i: int = choose|i: int| 0 <= i < errors_of(out).len() && errors_of(out)[i] == e;
            assert(errors[rest_errors.len() + i] == e);
        }
        assert forall|e: BatchError| errors.contains(e) implies rest_errors.contains(e)
            || errors_of(out).contains(e) by {
            let i: int = choose|i: int| 0 <= i < errors.len() && errors[i] == e;
            if i < rest_errors.len() {
                assert(rest_errors[i] == e);
            } else {
                assert(errors_of(out)[i - rest_errors.len()] == e);
            }
        }
        if out is Err {
            assert(errors_of(out)[0] == out->Err_0);
        }
        assert forall|e: BatchError| errors_of(out).contains(e) implies out == Err::<
            Emissions,
            BatchError,
        >(e) by {
            let i: int = choose|i: int| 0 <= i < errors_of(out).len() && errors_of(out)[i] == e;
            assert(errors_of(out)[i] == e);
        }
    }
}

impl GaugeBatches {
    /// Tries to take a batch for every machine that has a controller, one
    /// machine after the other in the order in which the table hands them
    /// out. The result is the corrections of the machines whose attempt
    /// succeeded, and beside them the errors of the machines whose attempt
    /// failed, both in that order. Every machine is attempted, whatever
    /// became of the others: each machine's queue and tools are afterwards
    /// what its own attempt leaves.
    pub fn extract_all(
        &mut self,
        handle_table: &HashMap<u16, FocasClient>,
        tool_data: &mut HashMap<u16, (ToolData, ToolData)>,
        batch_size: &HashMap<u16, usize>,
    ) -> (r: (Vec<(u16, i16, i32)>, Vec<BatchError>))
        ensures
            forall|key: u16|
                #[trigger] machine_state(
                    BatchState { queues: final(self)@, tools: final(tool_data)@ },
                    key,
                ) == left_for(
                    key,
                    handle_table@.contains_key(key),
                    BatchState { queues: old(self)@, tools: old(tool_data)@ },
                    handle_table@,
                    batch_size@,
                ),
            exists|order: Seq<u16>|
                {
                    &&& is_walk(order, handle_table@)
                    &&& r.0@ == #[trigger] writes_along(
                        order,
                        BatchState { queues: old(self)@, tools: old(tool_data)@ },
                        handle_table@,
                        batch_size@,
                    )
                    &&& r.1@ == errors_along(
                        order,
                        BatchState { queues: old(self)@, tools: old(tool_data)@ },
                        handle_table@,
                        batch_size@,
                    )
                    &&& walk_reports(
                        order,
                        r.0@,
                        r.1@,
                        BatchState { queues: old(self)@, tools: old(tool_data)@ },
                        handle_table@,
                        batch_size@,
                    )
                },
    {
        let keys: Vec<u16> = machine_ids(handle_table);
        let ghost start = BatchState { queues: old(self)@, tools: old(tool_data)@ };
        let mut writes: Vec<(u16, i16, i32)> = Vec::new();
        let mut errors: Vec<BatchError> = Vec::new();
        let mut i: usize = 0;
        while i < keys.len()
            invariant
                i <= keys@.len(),
                is_walk(keys@, handle_table@),
                start == (BatchState { queues: old(self)@, tools: old(tool_data)@ }),
                extract_each(keys@.take(i as int), start, handle_table@, batch_size@) == (
                    BatchState { queues: self@, tools: tool_data@ }),
                writes@ == writes_along(keys@.take(i as int), start, handle_table@, batch_size@),
                errors@ == errors_along(keys@.take(i as int), start, handle_table@, batch_size@),
            decreases keys@.len() - i,
        {
            let key: u16 = keys[i];
            let ghost done = keys@.take(i as int);
            let ghost next = keys@.take(i + 1);
            let ghost old_writes = writes@;
            let ghost old_errors = errors@;
            proof {
                assert(next.drop_last() =~= done);
                assert(next.last() == key);
                assert(next.no_duplicates());
                last_is_new(next);
                walk_treats_each_machine_alone(done, start, handle_table@, batch_size@);
                assert(machine_state(BatchState { queues: self@, tools: tool_data@ }, key)
                    == left_for(key, done.contains(key), start, handle_table@, batch_size@));
            }
            match self.check_and_extract(key, handle_table, tool_data, batch_size) {
                Ok((upper, lower)) => {
                    if let Some(upper) = upper {
                        writes.push(upper);
                    }
                    if let Some(lower) = lower {
                        writes.push(lower);
                    }
                    assert(writes@ =~= old_writes + emitted((upper, lower)));
                    assert(errors@ =~= old_errors + Seq::<BatchError>::empty());
                },
                Err(e) => {
                    errors.push(e);
                    assert(errors@ =~= old_errors + seq![e]);
                    assert(writes@ =~= old_writes + Seq::<(u16, i16, i32)>::empty());
                },
            }
            i = i + 1;
        }
        proof {
            assert(keys@.take(i as int) =~= keys@);
            walk_treats_each_machine_alone(keys@, start, handle_table@, batch_size@);
            walk_loses_no_outcome(keys@, start, handle_table@, batch_size@);
            let after = BatchState { queues: self@, tools: tool_data@ };
            assert forall|key: u16| #[trigger]
                machine_state(after, key) == left_for(
                    key,
                    handle_table@.contains_key(key),
                    start,
                    handle_table@,
                    batch_size@,
                ) by {
                assert(keys@.to_set().contains(key) == handle_table@.dom().contains(key));
                assert(machine_state(
                    extract_each(keys@, start, handle_table@, batch_size@),
                    key,
                ) == left_for(key, keys@.contains(key), start, handle_table@, batch_size@));
            }
        }
        (writes, errors)
    }
}

/// Every machine has a queue, be it the empty one.
pub proof fn every_machine_has_a_queue(batches: &GaugeBatches)
    ensures
        forall|key: u16| #[trigger] batches@.contains_key(key),
{
}

/// The recorded correction of a tool is never set by hand: after a full
/// batch it is the one that follows from the new mean and the calibration.
pub proof fn calibrated_is_consistent(tool: ToolData, avg: i32)
    ensures
        tool.calibrated(avg).consistent(),
        tool.calibrated(avg).avg_gauge == Some(avg),
        tool.calibrated(avg).emission() is Some <==> tool.active,
{
}

/// Below the threshold nothing is taken: the attempt gives nothing to
/// write, every sample stays queued, and the tools stay as they are. This
/// holds whatever the controller's state.
pub proof fn below_threshold_keeps_samples(
    key: u16,
    queue: Seq<i32>,
    available: bool,
    threshold: int,
    tools: Option<(ToolData, ToolData)>,
)
    requires
        queue.len() < threshold,
    ensures
        extraction(key, queue, Some(available), threshold, tools) == (Extraction {
            queue,
            tools,
            result: Ok((None, None)),
        }),
{
}

/// While the controller is busy or unreachable nothing is taken, however
/// many samples wait: samples that cannot be applied are not used up.
pub proof fn unavailable_controller_keeps_samples(
    key: u16,
    queue: Seq<i32>,
    threshold: int,
    tools: Option<(ToolData, ToolData)>,
)
    ensures
        extraction(key, queue, Some(false), threshold, tools) == (Extraction {
            queue,
            tools,
            result: Ok((None, None)),
        }),
{
}

/// After an attempt with an available controller the queue is at rest: it
/// is empty, or shorter than the threshold. A full batch is taken whole.
pub proof fn queue_rests_below_threshold(
    key: u16,
    queue: Seq<i32>,
    threshold: int,
    tools: Option<(ToolData, ToolData)>,
)
    ensures
        ({
            let rest = extraction(key, queue, Some(true), threshold, tools).queue;
            &&& rest.len() == 0 || rest.len() < threshold
            &&& batch_full(queue, threshold) ==> rest.len() == 0
            &&& !batch_full(queue, threshold) ==> rest == queue
        }),
{
}

/// A batch is taken once. After a full batch was taken, a further attempt
/// gives nothing to write, and changes nothing, until the samples that have
/// come since make a full batch again.
pub proof fn no_second_extraction(
    key: u16,
    queue: Seq<i32>,
    threshold: int,
    tools: (ToolData, ToolData),
    more: Seq<i32>,
    available: bool,
    later_threshold: int,
)
    requires
        batch_full(queue, threshold),
        !batch_full(more, later_threshold),
    ensures
        ({
            let first = extraction(key, queue, Some(true), threshold, Some(tools));
            &&& first.result is Ok
            &&& first.queue == Seq::<i32>::empty()
            &&& extraction(
                key,
                first.queue + more,
                Some(available),
                later_threshold,
                first.tools,
            ) == (Extraction { queue: first.queue + more, tools: first.tools, result: Ok((None, None)) })
        }),
{
    let first = extraction(key, queue, Some(true), threshold, Some(tools));
    assert(first.queue + more =~= more);
}

/// Whether two controller tables hold the same sessions but for machine
/// `key`, which both know.
pub open spec fn same_but(
    before: Map<u16, FocasClient>,
    after: Map<u16, FocasClient>,
    key: u16,
) -> bool {
    &&& before.contains_key(key)
    &&& after.dom() == before.dom()
    &&& forall|k: u16| k != key && before.contains_key(k) ==> #[trigger] after[k] == before[k]
}

/// Whether a write has ended, and how: a write that is done has succeeded,
/// one that was refused has failed, and any other is still in flight.
pub open spec fn write_outcome(step: WriteStep) -> Option<bool> {
    match step {
        WriteStep::Done => Some(true),
        WriteStep::Refused => Some(false),
        _ => None,
    }
}

/// Asks the controller of a machine for the offset that it holds for a
/// tool, which is where the write of a correction starts. Without a
/// controller for the machine that is an error, and nothing changes.
/// Otherwise the result is the step of `FocasClient::rdtofs` on the
/// machine's session.
pub fn read_offset_of(
    handle_table: &mut HashMap<u16, FocasClient>,
    machine_id: u16,
    tool_num: i16,
) -> (r: Result<OffsetStep, BatchError>)
    ensures
        !old(handle_table)@.contains_key(machine_id) ==> r == Err::<OffsetStep, BatchError>(
            BatchError::NoClient { machine_id },
        ) && final(handle_table)@ == old(handle_table)@,
        old(handle_table)@.contains_key(machine_id) ==> same_but(
            old(handle_table)@,
            final(handle_table)@,
            machine_id,
        ) && (final(handle_table)@[machine_id]@, r.unwrap()) == offset_read_start(
            old(handle_table)@[machine_id]@,
            tool_num,
            0,
        ) && r is Ok,
{
    match handle_table.remove(&machine_id) {
        Some(client) => {
            let mut client = client;
            let step = client.rdtofs(tool_num, 0);
            handle_table.insert(machine_id, client);
            Ok(step)
        },
        None => Err(BatchError::NoClient { machine_id }),
    }
}

/// Plans the write of a correction from the offset `current` that the
/// controller holds, and asks the controller for the write of the new
/// offset. Without a controller for the machine that is an error, and
/// nothing changes. Otherwise the result is the plan, and the step of
/// `FocasClient::wrtofs` on the machine's session.
pub fn write_offset_to_cnc(
    handle_table: &mut HashMap<u16, FocasClient>,
    machine_id: u16,
    tool_num: i16,
    current: i32,
    offset_diff: i32,
) -> (r: Result<(PendingWrite, WriteStep), BatchError>)
    requires
        i32::MIN <= current + offset_diff <= i32::MAX,
    ensures
        !old(handle_table)@.contains_key(machine_id) ==> r == Err::<
            (PendingWrite, WriteStep),
            BatchError,
        >(BatchError::NoClient { machine_id }) && final(handle_table)@ == old(handle_table)@,
        old(handle_table)@.contains_key(machine_id) ==> same_but(
            old(handle_table)@,
            final(handle_table)@,
            machine_id,
        ) && r is Ok && r.unwrap().0 == (PendingWrite {
            machine_id,
            tool_num,
            old_value: current,
            change_amount: offset_diff,
            new_value: (current + offset_diff) as i32,
        }) && (final(handle_table)@[machine_id]@, r.unwrap().1) == write_start(
            old(handle_table)@[machine_id]@,
            tool_num,
            0,
            (current + offset_diff) as i32,
        ),
{
    match handle_table.remove(&machine_id) {
        Some(client) => {
            let mut client = client;
            let plan = PendingWrite::plan(machine_id, tool_num, current, offset_diff);
            let step = client.wrtofs(tool_num, 0, plan.new_value);
            handle_table.insert(machine_id, client);
            Ok((plan, step))
        },
        None => Err(BatchError::NoClient { machine_id }),
    }
}

/// The record of a write at the step it has come to, made at `timestamp`:
/// one record when the write has ended, with its outcome, and none while it
/// is in flight.
pub open spec fn concluded(plan: PendingWrite, step: WriteStep, timestamp: i64) -> Option<
    OffsetLog,
> {
    match write_outcome(step) {
        Some(success) => Some(
            OffsetLog {
                timestamp,
                machine_id: plan.machine_id,
                tool_num: plan.tool_num,
                old_value: plan.old_value,
                change_amount: plan.change_amount,
                new_value: plan.new_value,
                success,
            },
        ),
        None => None,
    }
}

/// The record of a write at the step it has come to, made at `timestamp`.
pub fn conclude_write_at(plan: &PendingWrite, step: WriteStep, timestamp: i64) -> (log: Option<
    OffsetLog,
>)
    ensures
        log == concluded(*plan, step, timestamp),
{
    match step {
        WriteStep::Done => Some(plan.record_at(timestamp, true)),
        WriteStep::Refused => Some(plan.record_at(timestamp, false)),
        _ => None,
    }
}

/// The record of a write at the step it has come to, made now: the record
/// of `conclude_write_at` for whatever the clock says.
pub fn conclude_write(plan: &PendingWrite, step: WriteStep) -> (log: Option<OffsetLog>)
    ensures
        log is Some <==> write_outcome(step) is Some,
        log matches Some(l) ==> log == concluded(*plan, step, l.timestamp),
{
    conclude_write_at(plan, step, now_micros())
}

/// On a simulated controller that may start an operation, the write of a
/// correction ends at once and succeeds: the controller then holds the
/// offset it held before plus the correction, and every other offset as
/// before. The write has exactly one record, which says that it succeeded,
/// with the old offset, the correction and the new offset.
pub proof fn simulated_write_completes(
    s: ControllerSession,
    machine_id: u16,
    tool_num: i16,
    offset_diff: i32,
    timestamp: i64,
)
    requires
        s.available(),
        s.dummy is Some,
        i32::MIN <= simulated_offset(s, tool_num) + offset_diff <= i32::MAX,
    ensures
        ({
            let current: i32 = simulated_offset(s, tool_num);
            let new_value: i32 = (current + offset_diff) as i32;
            let read = offset_read_start(s, tool_num, 0);
            let written = write_start(read.0, tool_num, 0, new_value);
            let plan = PendingWrite {
                machine_id,
                tool_num,
                old_value: current,
                change_amount: offset_diff,
                new_value,
            };
            &&& read == (
                s,
                OffsetStep::Value { tofs: ODBTOFS { datano: tool_num, ofs_type: 0, data: current } },
            )
            &&& written.1 == WriteStep::Done
            &&& simulated_offset(written.0, tool_num) == new_value
            &&& forall|other: i16|
                other != tool_num ==> #[trigger] simulated_offset(written.0, other)
                    == simulated_offset(s, other)
            &&& written.0.available()
            &&& concluded(plan, written.1, timestamp) == Some(
                OffsetLog {
                    timestamp,
                    machine_id,
                    tool_num,
                    old_value: current,
                    change_amount: offset_diff,
                    new_value,
                    success: true,
                },
            )
        }),
{
}

/// A write has one record when it has ended and none before: the record of
/// a write that is done says that it succeeded, the record of one that was
/// refused says that it failed, and every record holds the offset read, the
/// correction and their sum as the plan has them.
pub proof fn ended_write_has_one_record(plan: PendingWrite, step: WriteStep, timestamp: i64)
    ensures
        concluded(plan, step, timestamp) is Some <==> step == WriteStep::Done || step
            == WriteStep::Refused,
        concluded(plan, step, timestamp) matches Some(log) ==> {
            &&& log.success == (step == WriteStep::Done)
            &&& log.machine_id == plan.machine_id
            &&& log.tool_num == plan.tool_num
            &&& log.old_value == plan.old_value
            &&& log.change_amount == plan.change_amount
            &&& log.new_value == plan.new_value
        },
{
}

/// A full batch of a machine whose controller may start an operation gives
/// one correction for each active tool, and none for an inactive one.
pub proof fn full_batch_gives_one_write_per_active_tool(
    key: u16,
    queue: Seq<i32>,
    threshold: int,
    tools: (ToolData, ToolData),
)
    requires
        batch_full(queue, threshold),
    ensures
        ({
            let out = extraction(key, queue, Some(true), threshold, Some(tools));
            &&& out.result matches Ok(e)
            &&& e.0 is Some <==> tools.0.active
            &&& e.1 is Some <==> tools.1.active
            &&& e.0 matches Some(w) ==> w.0 == tools.0.machine_id && w.1 == tools.0.tool_num
            &&& e.1 matches Some(w) ==> w.0 == tools.1.machine_id && w.1 == tools.1.tool_num
            &&& emitted(e).len() == (if tools.0.active {
                1int
            } else {
                0int
            }) + (if tools.1.active {
                1int
            } else {
                0int
            })
        }),
{
}

/// The key under which the last offset of a machine's tool is kept.
pub open spec fn tool_key(machine_id: u16, tool_num: i16) -> u32 {
    (machine_id * 65536 + (tool_num + 32768)) as u32
}

/// What a sweep over the controllers records of one tool: a change, if the
/// offset now differs from the one that was seen last. A first sight is no
/// change.
pub open spec fn change_seen(
    last: Option<i32>,
    timestamp: i64,
    machine_id: u16,
    tool_num: i16,
    current: i32,
) -> Option<OffsetLog> {
    match last {
        Some(last) if last != current => Some(
            OffsetLog {
                timestamp,
                machine_id,
                tool_num,
                old_value: last,
                change_amount: (current - last) as i32,
                new_value: current,
                success: true,
            },
        ),
        _ => None,
    }
}

/// Remembers the offset that each tool's controller held when it was read
/// last, so that a change made at the controller itself is noticed.
#[derive(Debug)]
pub struct OffsetWatcher {
    last_offsets: HashMap<u32, i32>,
}

impl View for OffsetWatcher {
    type V = Map<(u16, i16), i32>;

    /// The offset seen last for each machine and tool that was seen.
    closed spec fn view(&self) -> Map<(u16, i16), i32> {
        Map::new(
            |k: (u16, i16)| self.last_offsets@.contains_key(tool_key(k.0, k.1)),
            |k: (u16, i16)| self.last_offsets@[tool_key(k.0, k.1)],
        )
    }
}

fn key_of(machine_id: u16, tool_num: i16) -> (key: u32)
    ensures
        key == tool_key(machine_id, tool_num),
        forall|m: u16, t: i16| tool_key(m, t) == key ==> m == machine_id && t == tool_num,
{
    machine_id as u32 * 65536 + (tool_num as i32 + 32768) as u32
}

impl OffsetWatcher {
    /// A watcher that has seen nothing yet.
    pub fn new() -> (watcher: Self)
        ensures
            watcher@ == Map::<(u16, i16), i32>::empty(),
    {
        OffsetWatcher { last_offsets: HashMap::new() }
    }

    /// The offset that was seen last for a tool, if it was seen.
    pub fn last_offset(&self, machine_id: u16, tool_num: i16) -> (last: Option<i32>)
        ensures
            last == if self@.contains_key((machine_id, tool_num)) {
                Some(self@[(machine_id, tool_num)])
            } else {
                None::<i32>
            },
    {
        let key: u32 = key_of(machine_id, tool_num);
        match self.last_offsets.get(&key) {
            Some(v) => Some(*v),
            None => None,
        }
    }

    /// Takes the offset `current` that a tool's controller holds, read at
    /// `timestamp`. The result is the record of a change, if the offset
    /// differs from the one seen last; the offset is remembered either way.
    /// The change must fit the record.
    pub fn observe_at(
        &mut self,
        timestamp: i64,
        machine_id: u16,
        tool_num: i16,
        current: i32,
    ) -> (log: Option<OffsetLog>)
        requires
            old(self)@.contains_key((machine_id, tool_num)) ==> i32::MIN <= current - old(self)@[(machine_id, tool_num)] <= i32::MAX,
        ensures
            final(self)@ == old(self)@.insert((machine_id, tool_num), current),
            log == change_seen(
                if old(self)@.contains_key((machine_id, tool_num)) {
                    Some(old(self)@[(machine_id, tool_num)])
                } else {
                    None::<i32>
                },
                timestamp,
                machine_id,
                tool_num,
                current,
            ),
    {
        let key: u32 = key_of(machine_id, tool_num);
        let last: Option<i32> = self.last_offset(machine_id, tool_num);
        self.last_offsets.insert(key, current);
        match last {
            Some(last) => {
                if current != last {
                    Some(
                        OffsetLog {
                            timestamp,
                            machine_id,
                            tool_num,
                            old_value: last,
                            change_amount: current - last,
                            new_value: current,
                            success: true,
                        },
                    )
                } else {
                    None
                }
            },
            None => None,
        }
    }

    /// `observe_at` for a reading made now: whatever the clock says, the
    /// record is the one of `observe_at` for that time.
    pub fn observe(&mut self, machine_id: u16, tool_num: i16, current: i32) -> (log: Option<
        OffsetLog,
    >)
        requires
            old(self)@.contains_key((machine_id, tool_num)) ==> i32::MIN <= current - old(self)@[(machine_id, tool_num)] <= i32::MAX,
        ensures
            final(self)@ == old(self)@.insert((machine_id, tool_num), current),
            log is Some <==> old(self)@.contains_key((machine_id, tool_num)) && old(self)@[(machine_id, tool_num)] != current,
            log matches Some(l) ==> Some(l) == change_seen(
                Some(old(self)@[(machine_id, tool_num)]),
                l.timestamp,
                machine_id,
                tool_num,
                current,
            ),
    {
        self.observe_at(now_micros(), machine_id, tool_num, current)
    }
}

/// The queues after the measurement of a published response has been
/// queued. The measurement of a machine without a controller is not queued,
/// and a response without a measurement queues nothing.
pub open spec fn queued(
    queues: Map<u16, Seq<i32>>,
    handle_table: Map<u16, FocasClient>,
    response: GaugeResponseView,
) -> Map<u16, Seq<i32>> {
    match measurement_of(response) {
        Some(m) if handle_table.contains_key(m.source_line_id) => queues.insert(
            m.source_line_id,
            queues[m.source_line_id].push(m.raw_value),
        ),
        _ => queues,
    }
}

/// The error of a published response whose measurement is of a machine
/// without a controller: the measurement is discarded.
pub open spec fn discarded(handle_table: Map<u16, FocasClient>, response: GaugeResponseView) -> Seq<
    BatchError,
> {
    match measurement_of(response) {
        Some(m) if !handle_table.contains_key(m.source_line_id) => seq![
            BatchError::NoClient { machine_id: m.source_line_id },
        ],
        _ => Seq::<BatchError>::empty(),
    }
}

impl GaugeBatches {
    /// Takes a published response. Its measurement is queued for its
    /// machine, if the machine has a controller, and is discarded with an
    /// error otherwise. Then a batch is tried for every machine that has a
    /// controller, as `extract_all` does. The result is what is to be
    /// written, and the errors to report: that of a discarded measurement
    /// first, then those of the machines whose attempt failed. Nothing
    /// changes for a machine without a controller.
    pub fn on_response(
        &mut self,
        response: &GaugeResponse,
        handle_table: &HashMap<u16, FocasClient>,
        tool_data: &mut HashMap<u16, (ToolData, ToolData)>,
        batch_size: &HashMap<u16, usize>,
    ) -> (r: (Vec<(u16, i16, i32)>, Vec<BatchError>))
        ensures
            forall|key: u16|
                #[trigger] machine_state(
                    BatchState { queues: final(self)@, tools: final(tool_data)@ },
                    key,
                ) == left_for(
                    key,
                    handle_table@.contains_key(key),
                    BatchState {
                        queues: queued(old(self)@, handle_table@, response@),
                        tools: old(tool_data)@,
                    },
                    handle_table@,
                    batch_size@,
                ),
            forall|key: u16|
                !handle_table@.contains_key(key) ==> #[trigger] machine_state(
                    BatchState { queues: final(self)@, tools: final(tool_data)@ },
                    key,
                ) == machine_state(
                    BatchState { queues: old(self)@, tools: old(tool_data)@ },
                    key,
                ),
            exists|order: Seq<u16>|
                {
                    &&& is_walk(order, handle_table@)
                    &&& r.0@ == #[trigger] writes_along(
                        order,
                        BatchState {
                            queues: queued(old(self)@, handle_table@, response@),
                            tools: old(tool_data)@,
                        },
                        handle_table@,
                        batch_size@,
                    )
                    &&& r.1@ == discarded(handle_table@, response@) + errors_along(
                        order,
                        BatchState {
                            queues: queued(old(self)@, handle_table@, response@),
                            tools: old(tool_data)@,
                        },
                        handle_table@,
                        batch_size@,
                    )
                    &&& walk_reports(
                        order,
                        r.0@,
                        errors_along(
                            order,
                            BatchState {
                                queues: queued(old(self)@, handle_table@, response@),
                                tools: old(tool_data)@,
                            },
                            handle_table@,
                            batch_size@,
                        ),
                        BatchState {
                            queues: queued(old(self)@, handle_table@, response@),
                            tools: old(tool_data)@,
                        },
                        handle_table@,
                        batch_size@,
                    )
                },
    {
        let mut errors: Vec<BatchError> = Vec::new();
        match response.measurement() {
            Some(m) => {
                if handle_table.contains_key(&m.source_line_id) {
                    self.insert(m.source_line_id, m.raw_value);
                } else {
                    errors.push(BatchError::NoClient { machine_id: m.source_line_id });
                }
            },
            None => {},
        }
        assert(self@ == queued(old(self)@, handle_table@, response@));
        assert(errors@ =~= discarded(handle_table@, response@));
        let (writes, mut failed) = self.extract_all(handle_table, tool_data, batch_size);
        errors.append(&mut failed);
        (writes, errors)
    }
}

} // verus!
