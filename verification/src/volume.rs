//! Raw channel-volume model: an ordered sequence of per-channel levels in
//! the protocol's integer volume units, with the clamping arithmetic used
//! when a relative step is applied.

use vstd::prelude::*;

verus! {

/// The protocol's "100%" reference level.
pub const VOLUME_NORM: u32 = 0x10000;

/// The largest level the protocol accepts for a single channel.
pub const VOLUME_MAX: u32 = 0x7FFFFFFF;

/// The largest number of channels a sink can carry.
pub const CHANNELS_MAX: usize = 32;

/// Per-channel volume levels of one sink, in raw protocol units.
pub struct ChannelLevels {
    levels: Vec<u32>,
}

impl View for ChannelLevels {
    type V = Seq<u32>;

    closed spec fn view(&self) -> Seq<u32> {
        self.levels@
    }
}

/// The highest level a single channel may reach once an optional cap is
/// taken into account: the protocol maximum, lowered to the cap if one is
/// given and lies below it.
pub open spec fn upper_limit(cap: Option<u32>) -> int {
    match cap {
        Some(c) => if c < VOLUME_MAX { c as int } else { VOLUME_MAX as int },
        None => VOLUME_MAX as int,
    }
}

/// One channel level after a relative step, clamped into `[0, upper]`.
pub open spec fn spec_clamped(v: u32, step: int, upper: int) -> int {
    if v + step < 0 {
        0
    } else if v + step > upper {
        upper
    } else {
        v + step
    }
}

/// Sum of a sequence of levels.
pub open spec fn spec_sum(s: Seq<u32>) -> int
    decreases s.len(),
{
    if s.len() == 0 {
        0
    } else {
        spec_sum(s.drop_last()) + s.last()
    }
}

/// Arithmetic mean of a sequence of levels (zero for an empty sequence).
pub open spec fn spec_avg(s: Seq<u32>) -> int {
    if s.len() == 0 {
        0
    } else {
        spec_sum(s) / s.len() as int
    }
}

proof fn lemma_sum_take_succ(s: Seq<u32>, i: int)
    requires
        0 <= i < s.len(),
    ensures
        spec_sum(s.take(i + 1)) == spec_sum(s.take(i)) + s[i],
{
    let t = s.take(i + 1);
    assert(t.drop_last() =~= s.take(i));
}

proof fn lemma_sum_bounds(s: Seq<u32>, bound: int)
    requires
        forall|i: int| 0 <= i < s.len() ==> s[i] <= bound,
        bound >= 0,
    ensures
        0 <= spec_sum(s) <= s.len() * bound,
    decreases s.len(),
{
    if s.len() > 0 {
        lemma_sum_bounds(s.drop_last(), bound);
        assert(spec_sum(s) <= s.len() * bound) by (nonlinear_arith)
            requires
                spec_sum(s) == spec_sum(s.drop_last()) + s.last(),
                spec_sum(s.drop_last()) <= (s.len() - 1) * bound,
                s.last() <= bound,
                s.len() >= 1,
        ;
    }
}

impl ChannelLevels {
    /// Whether a sequence of raw levels is one the protocol can
    /// represent: at least one channel, no more than the protocol allows,
    /// and every level within the protocol maximum.
    pub open spec fn acceptable(levels: Seq<u32>) -> bool {
        &&& 1 <= levels.len() <= CHANNELS_MAX
        &&& forall|i: int| 0 <= i < levels.len() ==> levels[i] <= VOLUME_MAX
    }

    /// A well-formed value holds levels the protocol can represent.
    pub open spec fn wf(&self) -> bool {
        Self::acceptable(self@)
    }

    /// Builds a value from raw levels, rejecting anything the protocol
    /// could not represent.
    pub fn from_levels(levels: Vec<u32>) -> (r: Option<ChannelLevels>)
        ensures
            match r {
                Some(c) => c.wf() && c@ == levels@,
                None => !Self::acceptable(levels@),
            },
            Self::acceptable(levels@) ==> r is Some,
    {
        if levels.len() < 1 || levels.len() > CHANNELS_MAX {
            return None;
        }
        let mut i: usize = 0;
        while i < levels.len()
            invariant
                0 <= i <= levels.len(),
                forall|j: int| 0 <= j < i ==> levels@[j] <= VOLUME_MAX,
            decreases levels.len() - i,
        {
            if levels[i] > VOLUME_MAX {
                return None;
            }
            i += 1;
        }
        Some(ChannelLevels { levels })
    }

    /// Number of channels.
    pub fn channel_count(&self) -> (r: usize)
        ensures
            r == self@.len(),
    {
        self.levels.len()
    }

    /// The level of one channel.
    pub fn level(&self, i: usize) -> (r: u32)
        requires
            i < self@.len(),
        ensures
            r == self@[i as int],
    {
        self.levels[i]
    }

    /// An independent copy of the same levels.
    pub fn duplicate(&self) -> (r: ChannelLevels)
        ensures
            r@ == self@,
    {
        let mut out: Vec<u32> = Vec::new();
        let mut i: usize = 0;
        while i < self.levels.len()
            invariant
                0 <= i <= self.levels.len(),
                out@ =~= self.levels@.take(i as int),
            decreases self.levels.len() - i,
        {
            out.push(self.levels[i]);
            i += 1;
        }
        assert(out@ =~= self.levels@);
        ChannelLevels { levels: out }
    }

    /// Applies a relative step to every channel, clamping each new level to
    /// `[0, upper_limit(cap)]`.
    pub fn apply_step(&self, step: i32, cap: Option<u32>) -> (r: ChannelLevels)
        requires
            self.wf(),
        ensures
            r.wf(),
            r@.len() == self@.len(),
            forall|i: int| 0 <= i < self@.len()
                ==> r@[i] == spec_clamped(self@[i], step as int, upper_limit(cap)),
    {
        let upper: u32 = match cap {
            Some(c) => if c < VOLUME_MAX { c } else { VOLUME_MAX },
            None => VOLUME_MAX,
        };
        let mut out: Vec<u32> = Vec::new();
        let mut i: usize = 0;
        while i < self.levels.len()
            invariant
                0 <= i <= self.levels.len(),
                self.wf(),
                upper == upper_limit(cap),
                out@.len() == i,
                forall|j: int| 0 <= j < i
                    ==> out@[j] == spec_clamped(self@[j], step as int, upper_limit(cap)),
            decreases self.levels.len() - i,
        {
            let v: i64 = self.levels[i] as i64 + step as i64;
            let nv: u32 = if v < 0 {
                0
            } else if v > upper as i64 {
                upper
            } else {
                v as u32
            };
            out.push(nv);
            i += 1;
        }
        ChannelLevels { levels: out }
    }

    /// Arithmetic mean of the channel levels in raw units.
    pub fn avg(&self) -> (r: u32)
        requires
            self.wf(),
        ensures
            r == spec_avg(self@),
            r <= VOLUME_MAX,
    {
        let mut total: u64 = 0;
        let mut i: usize = 0;
        while i < self.levels.len()
            invariant
                0 <= i <= self.levels.len(),
                self.wf(),
                total == spec_sum(self@.take(i as int)),
                total <= i * VOLUME_MAX,
            decreases self.levels.len() - i,
        {
            proof {
                lemma_sum_take_succ(self@, i as int);
                assert((i + 1) * (VOLUME_MAX as int) == i * (VOLUME_MAX as int) + VOLUME_MAX)
                    by (nonlinear_arith);
            }
            total = total + self.levels[i] as u64;
            i += 1;
        }
        proof {
            assert(self@.take(self@.len() as int) =~= self@);
            lemma_sum_bounds(self@, VOLUME_MAX as int);
        }
        let n: u64 = self.levels.len() as u64;
        let r: u64 = total / n;
        proof {
            assert(total / n <= VOLUME_MAX) by (nonlinear_arith)
                requires
                    0 < n,
                    total <= n * VOLUME_MAX,
            ;
        }
        r as u32
    }
}

/// For every starting level, step and cap, a stepped level never falls
/// below zero and never exceeds the protocol maximum, nor the cap when one
/// is given.
pub proof fn lemma_apply_step_bounds(levels: Seq<u32>, step: int, cap: Option<u32>)
    ensures
        forall|i: int| 0 <= i < levels.len()
            ==> 0 <= spec_clamped(levels[i], step, upper_limit(cap)),
        forall|i: int| 0 <= i < levels.len()
            ==> spec_clamped(levels[i], step, upper_limit(cap)) <= VOLUME_MAX,
        forall|i: int| 0 <= i < levels.len() && cap is Some
            ==> spec_clamped(levels[i], step, upper_limit(cap)) <= cap->0,
{
}

/// Stepping by `step` and then by `-step` returns every channel to its
/// original level, provided neither application hits a clamp boundary:
/// every starting level lies within the upper limit and every stepped
/// level stays inside `[0, upper_limit(cap)]`.
pub proof fn lemma_step_round_trip(levels: Seq<u32>, step: int, cap: Option<u32>)
    requires
        forall|i: int| 0 <= i < levels.len() ==> levels[i] <= upper_limit(cap),
        forall|i: int| 0 <= i < levels.len() ==> 0 <= #[trigger] (levels[i] + step) <= upper_limit(cap),
    ensures
        forall|i: int| 0 <= i < levels.len()
            ==> spec_clamped(
                spec_clamped(levels[i], step, upper_limit(cap)) as u32,
                -step,
                upper_limit(cap),
            ) == levels[i],
{
}

} // verus!
