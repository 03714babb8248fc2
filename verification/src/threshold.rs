//! Severity levels and the evaluation of readings against threshold bands.

use vstd::prelude::*;
use crate::scalar::Scalar;
use crate::text::str_eq;

verus! {

/// Health of one metric or of a whole plant, ordered `Normal < Warn < Critical`.
#[derive(Debug, Clone, Copy, PartialEq, Eq, PartialOrd, Ord, Structural)]
pub enum Severity {
    Normal,
    Warn,
    Critical,
}

impl Severity {
    /// Position of the level in the order, from 0 for `Normal`.
    pub open spec fn rank(self) -> nat {
        match self {
            Severity::Normal => 0,
            Severity::Warn => 1,
            Severity::Critical => 2,
        }
    }

    /// The canonical name of the level.
    pub open spec fn name(self) -> Seq<char> {
        match self {
            Severity::Normal => "NORMAL"@,
            Severity::Warn => "WARN"@,
            Severity::Critical => "CRITICAL"@,
        }
    }

    /// The level that a stored name stands for: any text other than the
    /// names of `Warn` and `Critical` reads as `Normal`.
    pub open spec fn parse(s: Seq<char>) -> Severity {
        if s == "WARN"@ {
            Severity::Warn
        } else if s == "CRITICAL"@ {
            Severity::Critical
        } else {
            Severity::Normal
        }
    }

    /// The more severe of two levels.
    pub open spec fn join(self, other: Severity) -> Severity {
        if other.rank() > self.rank() {
            other
        } else {
            self
        }
    }

    /// True when `self` is strictly more severe than `other`.
    pub fn exceeds(self, other: Severity) -> (r: bool)
        ensures
            r == (self.rank() > other.rank()),
    {
        match (self, other) {
            (Severity::Warn, Severity::Normal) => true,
            (Severity::Critical, Severity::Normal) => true,
            (Severity::Critical, Severity::Warn) => true,
            _ => false,
        }
    }

    /// The canonical name: `"NORMAL"`, `"WARN"` or `"CRITICAL"`.
    pub fn as_str(self) -> (s: &'static str)
        ensures
            s@ == self.name(),
    {
        match self {
            Severity::Normal => "NORMAL",
            Severity::Warn => "WARN",
            Severity::Critical => "CRITICAL",
        }
    }

    /// Reads a level from its name; unknown text reads as `Normal`.
    pub fn from_str(s: &str) -> (sev: Severity)
        ensures
            sev == Severity::parse(s@),
    {
        if str_eq(s, "WARN") {
            Severity::Warn
        } else if str_eq(s, "CRITICAL") {
            Severity::Critical
        } else {
            Severity::Normal
        }
    }

    /// The canonical name as an owned string.
    pub fn to_text(self) -> (s: String)
        ensures
            s@ == self.name(),
    {
        self.as_str().to_owned()
    }
}

/// The three names are pairwise different, so a name read back gives the
/// level it was written from.
pub proof fn lemma_parse_name(sev: Severity)
    ensures
        Severity::parse(sev.name()) == sev,
{
    reveal_strlit("NORMAL");
    reveal_strlit("WARN");
    reveal_strlit("CRITICAL");
    assert("NORMAL"@.len() == 6);
    assert("WARN"@.len() == 4);
    assert("CRITICAL"@.len() == 8);
}

/// The bounds of one metric: a warn band inside a critical band, each side
/// optional.
#[derive(Debug, Clone)]
pub struct MetricThreshold {
    pub metric: String,
    pub warn_min: Option<Scalar>,
    pub warn_max: Option<Scalar>,
    pub crit_min: Option<Scalar>,
    pub crit_max: Option<Scalar>,
}

/// The four bounds of a threshold, without the metric's name.
pub struct Band {
    pub warn_min: Option<Scalar>,
    pub warn_max: Option<Scalar>,
    pub crit_min: Option<Scalar>,
    pub crit_max: Option<Scalar>,
}

/// True when the bound is present and `value` is strictly under it.
pub open spec fn under(value: Scalar, bound: Option<Scalar>) -> bool {
    bound is Some && value.is_below(bound->0)
}

/// True when the bound is present and `value` is strictly over it.
pub open spec fn over(value: Scalar, bound: Option<Scalar>) -> bool {
    bound is Some && value.is_above(bound->0)
}

impl Band {
    /// The severity of `value`: critical outside the critical band, else warn
    /// outside the warn band, else normal. A value on a bound is inside.
    pub open spec fn severity_of(self, value: Scalar) -> Severity {
        if under(value, self.crit_min) || over(value, self.crit_max) {
            Severity::Critical
        } else if under(value, self.warn_min) || over(value, self.warn_max) {
            Severity::Warn
        } else {
            Severity::Normal
        }
    }

    /// All four bounds present, with
    /// `crit_min <= warn_min <= warn_max <= crit_max`.
    pub open spec fn fully_nested(self) -> bool {
        &&& self.crit_min is Some
        &&& self.warn_min is Some
        &&& self.warn_max is Some
        &&& self.crit_max is Some
        &&& self.crit_min->0.at_most(self.warn_min->0)
        &&& self.warn_min->0.at_most(self.warn_max->0)
        &&& self.warn_max->0.at_most(self.crit_max->0)
    }
}

/// What a threshold holds, as plain values.
pub struct ThresholdView {
    pub metric: Seq<char>,
    pub band: Band,
}

impl View for MetricThreshold {
    type V = ThresholdView;

    open spec fn view(&self) -> ThresholdView {
        ThresholdView { metric: self.metric@, band: self.band() }
    }
}

/// The views of a list of thresholds.
pub open spec fn thresholds_view(thresholds: Seq<MetricThreshold>) -> Seq<ThresholdView> {
    thresholds.map_values(|t: MetricThreshold| t@)
}

impl MetricThreshold {
    /// The bounds of the threshold.
    pub open spec fn band(self) -> Band {
        Band {
            warn_min: self.warn_min,
            warn_max: self.warn_max,
            crit_min: self.crit_min,
            crit_max: self.crit_max,
        }
    }
}

/// Evaluates one reading against its threshold.
pub fn evaluate_metric(value: Scalar, threshold: &MetricThreshold) -> (sev: Severity)
    ensures
        sev == threshold.band().severity_of(value),
{
    if let Some(min) = threshold.crit_min {
        if value.lt(min) {
            return Severity::Critical;
        }
    }
    if let Some(max) = threshold.crit_max {
        if value.gt(max) {
            return Severity::Critical;
        }
    }
    if let Some(min) = threshold.warn_min {
        if value.lt(min) {
            return Severity::Warn;
        }
    }
    if let Some(max) = threshold.warn_max {
        if value.gt(max) {
            return Severity::Warn;
        }
    }
    Severity::Normal
}

/// The most severe level of a sequence; `Normal` for the empty one.
pub open spec fn max_severity(levels: Seq<Severity>) -> Severity
    decreases levels.len(),
{
    if levels.len() == 0 {
        Severity::Normal
    } else {
        max_severity(levels.drop_last()).join(levels.last())
    }
}

/// The most severe level of a sequence bounds every member, and is one of
/// them unless the sequence is empty.
pub proof fn lemma_max_severity_is_maximum(levels: Seq<Severity>)
    ensures
        forall|i: int| 0 <= i < levels.len() ==> levels[i].rank() <= max_severity(levels).rank(),
        levels.len() == 0 ==> max_severity(levels) == Severity::Normal,
        levels.len() > 0 ==> exists|i: int| 0 <= i < levels.len() && levels[i] == max_severity(levels),
    decreases levels.len(),
{
    if levels.len() > 0 {
        let front = levels.drop_last();
        lemma_max_severity_is_maximum(front);
        assert forall|i: int| 0 <= i < levels.len() implies levels[i].rank() <= max_severity(
            levels,
        ).rank() by {
            if i < front.len() {
                assert(front[i] == levels[i]);
            }
        }
        if max_severity(levels) == levels.last() {
            assert(levels[levels.len() - 1] == max_severity(levels));
        } else {
            assert(max_severity(levels) == max_severity(front));
            assert(front.len() > 0);
            let j = choose|j: int| 0 <= j < front.len() && front[j] == max_severity(front);
            assert(levels[j] == max_severity(levels));
        }
    }
}

/// Overall severity of a plant from the severities of its metrics: the
/// maximum of the inputs, `Normal` when there are none.
pub fn aggregate_severity(severities: &[Severity]) -> (overall: Severity)
    ensures
        overall == max_severity(severities@),
        forall|i: int| 0 <= i < severities@.len() ==> severities@[i].rank() <= overall.rank(),
        severities@.len() == 0 ==> overall == Severity::Normal,
        severities@.len() > 0 ==> exists|i: int|
            0 <= i < severities@.len() && severities@[i] == overall,
{
    let mut overall = Severity::Normal;
    let n = severities.len();
    let mut i: usize = 0;
    while i < n
        invariant
            i <= n,
            n == severities@.len(),
            overall == max_severity(severities@.take(i as int)),
        decreases n - i,
    {
        let s = severities[i];
        proof {
            assert(severities@.take(i + 1).drop_last() =~= severities@.take(i as int));
        }
        if s.exceeds(overall) {
            overall = s;
        }
        i += 1;
    }
    proof {
        assert(severities@.take(n as int) =~= severities@);
        lemma_max_severity_is_maximum(severities@);
    }
    overall
}

/// Going up from a value that is not under the warn band never lowers the
/// severity, when the bands are fully nested.
pub proof fn lemma_monotone_upwards(band: Band, near: Scalar, far: Scalar)
    requires
        band.fully_nested(),
        band.warn_min->0.at_most(near),
        near.at_most(far),
    ensures
        band.severity_of(near).rank() <= band.severity_of(far).rank(),
{
}

/// Going down from a value that is not over the warn band never lowers the
/// severity, when the bands are fully nested.
pub proof fn lemma_monotone_downwards(band: Band, near: Scalar, far: Scalar)
    requires
        band.fully_nested(),
        near.at_most(band.warn_max->0),
        far.at_most(near),
    ensures
        band.severity_of(near).rank() <= band.severity_of(far).rank(),
{
}

/// A value inside the warn band, its bounds included, is normal when the
/// bands are fully nested.
pub proof fn lemma_inside_warn_band_is_normal(band: Band, value: Scalar)
    requires
        band.fully_nested(),
        band.warn_min->0.at_most(value),
        value.at_most(band.warn_max->0),
    ensures
        band.severity_of(value) == Severity::Normal,
{
}

/// A value equal to a bound does not breach that bound, whatever the other
/// bounds are: the comparisons are strict.
pub proof fn lemma_bound_is_inside(value: Scalar, bound: Scalar)
    requires
        value.same_value(bound),
    ensures
        !under(value, Some(bound)),
        !over(value, Some(bound)),
{
}

/// With fully nested bands, a value equal to a warn bound is normal and a
/// value equal to a critical bound is not critical.
pub proof fn lemma_on_bound_severity(band: Band, value: Scalar)
    requires
        band.fully_nested(),
    ensures
        value.same_value(band.warn_min->0) || value.same_value(band.warn_max->0)
            ==> band.severity_of(value) == Severity::Normal,
        value.same_value(band.crit_min->0) || value.same_value(band.crit_max->0)
            ==> band.severity_of(value) != Severity::Critical,
{
}

} // verus!
