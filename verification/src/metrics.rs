//! Fixed-capacity, label-indexed metric registry.
//!
//! Values are integer milli-units (one thousandth of the metric's unit):
//! the registry never touches floating point. Each gauge keeps the last
//! value written and a running sum and count of every value ever written,
//! so that a mean over the whole history can be read back.

use vstd::prelude::*;
use vstd::arithmetic::div_mod::{lemma_div_is_ordered, lemma_div_multiples_vanish};

use crate::name::SensorName;

verus! {

/// Mathematical state of one gauge.
pub ghost struct GaugeView {
    /// Last value written, in milli-units.
    pub value: int,
    /// Sum of every value ever written.
    pub sum: int,
    /// How many values were ever written.
    pub count: nat,
}

/// Mathematical state of one counter.
pub ghost struct CounterView {
    pub value: nat,
    /// Whether the counter was ever added to.
    pub recorded: bool,
}

/// A last-write-wins numeric cell that also keeps the running mean of
/// everything ever written to it.
///
/// The sample count saturates at `u32::MAX`; past that point (136 years
/// of one-second polls) the mean freezes while `value` keeps updating.
#[derive(Debug)]
pub struct Gauge {
    value_millis: i64,
    sum_millis: i128,
    count: u32,
}

/// Truncated-toward-zero signed division, the rounding `mean` uses.
pub open spec fn spec_mean_int(sum: int, count: nat) -> int {
    if sum >= 0 {
        sum / (count as int)
    } else {
        -((-sum) / (count as int))
    }
}

/// The mean a gauge reports: `None` until the first write.
pub open spec fn spec_mean(g: GaugeView) -> Option<int> {
    if g.count == 0 {
        None
    } else {
        Some(spec_mean_int(g.sum, g.count))
    }
}

impl View for Gauge {
    type V = GaugeView;

    closed spec fn view(&self) -> GaugeView {
        GaugeView {
            value: self.value_millis as int,
            sum: self.sum_millis as int,
            count: self.count as nat,
        }
    }
}

impl Gauge {
    /// The running sum is bounded by the count: every sample fits an
    /// `i64`, and the count fits a `u32`.
    pub open spec fn wf(&self) -> bool {
        &&& self@.count * (i64::MIN as int) <= self@.sum <= self@.count * (i64::MAX as int)
        &&& self@.count <= u32::MAX
    }

    /// Whether the gauge was ever written.
    pub open spec fn spec_recorded(&self) -> bool {
        self@.count > 0
    }

    pub fn new() -> (g: Gauge)
        ensures
            g.wf(),
            g@.value == 0,
            g@.sum == 0,
            g@.count == 0,
    {
        Gauge { value_millis: 0, sum_millis: 0, count: 0 }
    }

    /// Write a value (milli-units): last-write-wins, and the running
    /// mean takes one more sample.
    pub fn set_value(&mut self, v: i64)
        requires
            old(self).wf(),
        ensures
            final(self).wf(),
            final(self)@.value == v as int,
            old(self)@.count < u32::MAX ==> final(self)@.count == old(self)@.count + 1
                && final(self)@.sum == old(self)@.sum + v as int,
            old(self)@.count == u32::MAX ==> final(self)@.count == old(self)@.count
                && final(self)@.sum == old(self)@.sum,
    {
        if self.count < u32::MAX {
            proof {
                let c = self.count as int;
                assert(c * (i64::MIN as int) + (i64::MIN as int) == (c + 1) * (i64::MIN as int))
                    by (nonlinear_arith);
                assert(c * (i64::MAX as int) + (i64::MAX as int) == (c + 1) * (i64::MAX as int))
                    by (nonlinear_arith);
                assert(((u32::MAX as int) + 1) * (i64::MAX as int) < i128::MAX)
                    by (nonlinear_arith);
                assert(((u32::MAX as int) + 1) * (i64::MIN as int) > i128::MIN)
                    by (nonlinear_arith);
                assert(c * (i64::MAX as int) <= (u32::MAX as int) * (i64::MAX as int))
                    by (nonlinear_arith)
                    requires
                        0 <= c <= u32::MAX as int,
                ;
                assert(c * (i64::MIN as int) >= (u32::MAX as int) * (i64::MIN as int))
                    by (nonlinear_arith)
                    requires
                        0 <= c <= u32::MAX as int,
                ;
            }
            self.sum_millis = self.sum_millis + v as i128;
            self.count = self.count + 1;
        }
        self.value_millis = v;
    }

    /// The last value written; zero before the first write.
    pub fn value(&self) -> (v: i64)
        ensures
            v as int == self@.value,
    {
        self.value_millis
    }

    /// Whether the gauge was ever written.
    pub fn has_been_recorded(&self) -> (r: bool)
        ensures
            r == self.spec_recorded(),
    {
        self.count > 0
    }

    /// Arithmetic mean of every value ever written, `None` before the
    /// first write.
    pub fn mean(&self) -> (r: Option<i64>)
        requires
            self.wf(),
        ensures
            r matches Some(m) ==> Some(m as int) == spec_mean(self@),
            r is Some <==> self@.count > 0,
    {
        if self.count == 0 {
            return None;
        }
        Some(mean_millis(self.sum_millis, self.count as u64))
    }
}

/// Truncated mean `sum / count` for a sum bounded by `count` samples.
fn mean_millis(sum: i128, count: u64) -> (m: i64)
    requires
        count > 0,
        (count as int) * (i64::MIN as int) <= sum as int <= (count as int) * (i64::MAX as int),
    ensures
        m as int == spec_mean_int(sum as int, count as nat),
{
    let cnt = count as u128;
    if sum >= 0 {
        let q = (sum as u128) / cnt;
        proof {
            lemma_div_is_ordered(sum as int, (count as int) * (i64::MAX as int), count as int);
            lemma_div_multiples_vanish(i64::MAX as int, count as int);
        }
        q as i64
    } else {
        proof {
            assert((count as int) * (i64::MIN as int) >= (i64::MIN as int) * (u64::MAX as int))
                by (nonlinear_arith)
                requires
                    0 < count <= u64::MAX,
            ;
            assert((i64::MIN as int) * (u64::MAX as int) > i128::MIN) by (nonlinear_arith);
        }
        let absval = (-sum) as u128;
        let q = absval / cnt;
        proof {
            lemma_div_is_ordered(absval as int, (count as int) * (-(i64::MIN as int)), count as int);
            assert((count as int) * (-(i64::MIN as int)) == -((count as int) * (i64::MIN as int)))
                by (nonlinear_arith);
            lemma_div_multiples_vanish(-(i64::MIN as int), count as int);
        }
        if q > i64::MAX as u128 {
            // the mean is exactly `i64::MIN`
            i64::MIN
        } else {
            -(q as i64)
        }
    }
}

/// A monotonically increasing event count. Saturates at `u64::MAX`.
#[derive(Debug)]
pub struct Counter {
    value: u64,
    recorded: bool,
}

impl View for Counter {
    type V = CounterView;

    closed spec fn view(&self) -> CounterView {
        CounterView { value: self.value as nat, recorded: self.recorded }
    }
}

impl Counter {
    pub fn new() -> (c: Counter)
        ensures
            c@.value == 0,
            !c@.recorded,
    {
        Counter { value: 0, recorded: false }
    }

    /// Add `n` to the counter.
    pub fn fetch_add(&mut self, n: u64)
        ensures
            final(self)@.recorded,
            old(self)@.value + n <= u64::MAX ==> final(self)@.value == old(self)@.value + n,
            old(self)@.value + n > u64::MAX ==> final(self)@.value == u64::MAX,
    {
        self.value = if self.value <= u64::MAX - n {
            self.value + n
        } else {
            u64::MAX
        };
        self.recorded = true;
    }

    pub fn value(&self) -> (v: u64)
        ensures
            v as nat == self@.value,
    {
        self.value
    }

    pub fn has_been_recorded(&self) -> (r: bool)
        ensures
            r == self@.recorded,
    {
        self.recorded
    }
}

/// Particle diameters a particulate-matter metric can be labeled with.
#[derive(Copy, Clone, PartialEq, Eq, Structural, Debug)]
pub enum Diameter {
    Um0_3,
    Um0_5,
    Um1_0,
    Um2_5,
    Um4_0,
    Um5_0,
    Um10_0,
}

impl Diameter {
    pub open spec fn spec_str(self) -> Seq<char> {
        match self {
            Diameter::Um0_3 => "0.3"@,
            Diameter::Um0_5 => "0.5"@,
            Diameter::Um1_0 => "1.0"@,
            Diameter::Um2_5 => "2.5"@,
            Diameter::Um4_0 => "4.0"@,
            Diameter::Um5_0 => "5.0"@,
            Diameter::Um10_0 => "10.0"@,
        }
    }

    /// The diameter in microns, as printed in the label.
    pub fn as_str(&self) -> (r: &'static str)
        ensures
            r@ == self.spec_str(),
    {
        match self {
            Diameter::Um0_3 => "0.3",
            Diameter::Um0_5 => "0.5",
            Diameter::Um1_0 => "1.0",
            Diameter::Um2_5 => "2.5",
            Diameter::Um4_0 => "4.0",
            Diameter::Um5_0 => "5.0",
            Diameter::Um10_0 => "10.0",
        }
    }
}

/// Label of a particulate-matter metric: which sensor measured
/// particles of which diameter.
#[derive(Copy, Clone, PartialEq, Eq, Structural, Debug)]
pub struct DiameterLabel {
    pub diameter: Diameter,
    pub sensor: SensorName,
}

/// A metric slot's label.
#[derive(Copy, Clone, PartialEq, Eq, Structural, Debug)]
pub enum MetricLabel {
    Sensor(SensorName),
    Diameter(DiameterLabel),
}

/// Index of the first occurrence of `l` in `labels`.
pub open spec fn spec_find<T>(labels: Seq<T>, l: T) -> Option<int>
    decreases labels.len(),
{
    if labels.len() == 0 {
        None
    } else if labels[0] == l {
        Some(0)
    } else {
        match spec_find(labels.drop_first(), l) {
            Some(i) => Some(i + 1),
            None => None,
        }
    }
}

/// `spec_find` returns exactly the first occurrence.
pub proof fn lemma_spec_find<T>(labels: Seq<T>, l: T)
    ensures
        match spec_find(labels, l) {
            Some(i) => 0 <= i < labels.len() && labels[i] == l && forall|j: int|
                0 <= j < i ==> labels[j] != l,
            None => forall|j: int| 0 <= j < labels.len() ==> labels[j] != l,
        },
    decreases labels.len(),
{
    if labels.len() > 0 && labels[0] != l {
        let rest = labels.drop_first();
        lemma_spec_find(rest, l);
        assert(forall|j: int| 1 <= j < labels.len() ==> labels[j] == rest[j - 1]);
        match spec_find(rest, l) {
            Some(i) => {
                assert(labels[i + 1] == rest[i]);
                assert(forall|j: int| 0 <= j < i + 1 ==> labels[j] != l) by {
                    assert(forall|j: int| 1 <= j < i + 1 ==> labels[j] == rest[j - 1]);
                }
            },
            None => {
                assert(forall|j: int| 0 <= j < labels.len() ==> labels[j] != l) by {
                    assert(forall|j: int| 1 <= j < labels.len() ==> labels[j] == rest[j - 1]);
                }
            },
        }
    }
}

/// A position that holds `l`, with nothing equal before it, is what
/// `spec_find` returns.
pub proof fn lemma_spec_find_at<T>(labels: Seq<T>, l: T, i: int)
    requires
        0 <= i < labels.len(),
        labels[i] == l,
        forall|j: int| 0 <= j < i ==> labels[j] != l,
    ensures
        spec_find(labels, l) == Some(i),
    decreases labels.len(),
{
    if i > 0 {
        lemma_spec_find_at(labels.drop_first(), l, i - 1);
    }
}

/// Mathematical state of a metric family.
pub ghost struct FamilyView<MV> {
    pub name: Seq<char>,
    pub help: Seq<char>,
    pub unit: Seq<char>,
    pub capacity: nat,
    pub labels: Seq<MetricLabel>,
    pub metrics: Seq<MV>,
}



/// Whether registering `label` is guaranteed to answer a handle: the
/// label is already present, or the family still has room.
pub open spec fn spec_can_register<MV>(f: FamilyView<MV>, label: MetricLabel) -> bool {
    spec_find(f.labels, label) is Some || f.labels.len() < f.capacity
}

/// A gauge's state after one write: last-write-wins, one more sample in
/// the running mean unless the count has saturated.
pub open spec fn spec_gauge_after(g: GaugeView, v: int) -> GaugeView {
    if g.count < u32::MAX {
        GaugeView { value: v, sum: g.sum + v, count: (g.count + 1) as nat }
    } else {
        GaugeView { value: v, sum: g.sum, count: g.count }
    }
}

/// A gauge family's state after writing `v` to slot `i`.
pub open spec fn spec_family_after_set(f: FamilyView<GaugeView>, i: int, v: int) -> FamilyView<
    GaugeView,
> {
    FamilyView { metrics: f.metrics.update(i, spec_gauge_after(f.metrics[i], v)), ..f }
}

/// A fixed-capacity mapping from labels to gauges. Labels are enumerated
/// once at startup; insertion past capacity fails deterministically.
#[derive(Debug)]
pub struct GaugeFamily {
    name: &'static str,
    help: &'static str,
    unit: &'static str,
    capacity: usize,
    labels: Vec<MetricLabel>,
    gauges: Vec<Gauge>,
}

impl View for GaugeFamily {
    type V = FamilyView<GaugeView>;

    closed spec fn view(&self) -> FamilyView<GaugeView> {
        FamilyView {
            name: self.name@,
            help: self.help@,
            unit: self.unit@,
            capacity: self.capacity as nat,
            labels: self.labels@,
            metrics: self.gauges@.map_values(|g: Gauge| g@),
        }
    }
}

impl GaugeFamily {
    pub open spec fn wf(&self) -> bool {
        &&& self@.labels.len() == self@.metrics.len()
        &&& self@.labels.len() <= self@.capacity
        &&& self@.labels.no_duplicates()
        &&& self@.capacity <= u32::MAX
        &&& forall|i: int| 0 <= i < self@.metrics.len() ==> (#[trigger] self@.metrics[i]).count
            <= u32::MAX
        &&& forall|i: int| 0 <= i < self@.metrics.len() ==> (#[trigger] self@.metrics[i]).count
            * (i64::MIN as int) <= self@.metrics[i].sum <= self@.metrics[i].count * (
        i64::MAX as int)
    }

    pub fn new(name: &'static str, help: &'static str, unit: &'static str, capacity: usize) -> (f:
        GaugeFamily)
        requires
            capacity <= u32::MAX,
        ensures
            f.wf(),
            f@.name == name@,
            f@.help == help@,
            f@.unit == unit@,
            f@.capacity == capacity as nat,
            f@.labels.len() == 0,
    {
        GaugeFamily { name, help, unit, capacity, labels: Vec::new(), gauges: Vec::new() }
    }

    /// Register a label: returns a stable handle for it, the same handle
    /// on every later call with the same label, or `None` when the
    /// family is full.
    pub fn register(&mut self, label: MetricLabel) -> (r: Option<usize>)
        requires
            old(self).wf(),
        ensures
            final(self).wf(),
            final(self)@.name == old(self)@.name,
            final(self)@.help == old(self)@.help,
            final(self)@.unit == old(self)@.unit,
            final(self)@.capacity == old(self)@.capacity,
            match spec_find(old(self)@.labels, label) {
                Some(i) => r == Some(i as usize) && final(self)@ == old(self)@,
                None => if old(self)@.labels.len() < old(self)@.capacity {
                    &&& r == Some(old(self)@.labels.len() as usize)
                    &&& final(self)@.labels == old(self)@.labels.push(label)
                    &&& final(self)@.metrics == old(self)@.metrics.push(
                        GaugeView { value: 0, sum: 0, count: 0 },
                    )
                } else {
                    r is None && final(self)@ == old(self)@
                },
            },
            r matches Some(i) ==> i < final(self)@.labels.len() && final(self)@.labels[i as int]
                == label,
    {
        proof {
            lemma_spec_find(self@.labels, label);
        }
        let n = self.labels.len();
        let mut i: usize = 0;
        while i < n
            invariant
                i <= n,
                self.wf(),
                self@ == old(self)@,
                n == self.labels@.len(),
                forall|j: int| 0 <= j < i ==> self.labels@[j] != label,
            decreases n - i,
        {
            if self.labels[i] == label {
                proof {
                    lemma_spec_find_at(self.labels@, label, i as int);
                }
                return Some(i);
            }
            i += 1;
        }
        if n < self.capacity {
            self.labels.push(label);
            self.gauges.push(Gauge::new());
            proof {
                assert(self@.metrics =~= old(self)@.metrics.push(
                    GaugeView { value: 0, sum: 0, count: 0 },
                ));
            }
            Some(n)
        } else {
            None
        }
    }

    /// Write a value (milli-units) to the gauge behind a handle.
    pub fn set_value(&mut self, handle: usize, v: i64)
        requires
            old(self).wf(),
            handle < old(self)@.metrics.len(),
        ensures
            final(self).wf(),
            final(self)@.name == old(self)@.name,
            final(self)@.help == old(self)@.help,
            final(self)@.unit == old(self)@.unit,
            final(self)@.capacity == old(self)@.capacity,
            final(self)@.labels == old(self)@.labels,
            final(self)@.metrics.len() == old(self)@.metrics.len(),
            forall|j: int|
                0 <= j < old(self)@.metrics.len() && j != handle
                    ==> final(self)@.metrics[j] == old(self)@.metrics[j],
            final(self)@.metrics[handle as int].value == v as int,
            old(self)@.metrics[handle as int].count < u32::MAX
                ==> final(self)@.metrics[handle as int].count
                    == old(self)@.metrics[handle as int].count + 1
                && final(self)@.metrics[handle as int].sum
                    == old(self)@.metrics[handle as int].sum + v as int,
            final(self)@ == spec_family_after_set(old(self)@, handle as int, v as int),
    {
        proof {
            assert(old(self)@.metrics[handle as int] == self.gauges@[handle as int]@);
        }
        let gauge = &mut self.gauges[handle];
        gauge.set_value(v);
        proof {
            assert(self@.metrics =~= old(self)@.metrics.update(
                handle as int,
                self.gauges@[handle as int]@,
            ));
            assert(forall|j: int|
                0 <= j < old(self)@.metrics.len() && j != handle
                    ==> self@.metrics[j] == old(self)@.metrics[j]);
            assert(self@.metrics =~= spec_family_after_set(
                old(self)@,
                handle as int,
                v as int,
            ).metrics);
        }
    }

    pub fn len(&self) -> (n: usize)
        ensures
            n == self@.labels.len(),
    {
        self.labels.len()
    }

    pub fn name(&self) -> (r: &'static str)
        ensures
            r@ == self@.name,
    {
        self.name
    }

    pub fn help(&self) -> (r: &'static str)
        ensures
            r@ == self@.help,
    {
        self.help
    }

    pub fn unit(&self) -> (r: &'static str)
        ensures
            r@ == self@.unit,
    {
        self.unit
    }

    pub fn label_at(&self, i: usize) -> (l: MetricLabel)
        requires
            i < self@.labels.len(),
        ensures
            l == self@.labels[i as int],
    {
        self.labels[i]
    }

    pub fn value_at(&self, i: usize) -> (v: i64)
        requires
            self.wf(),
            i < self@.metrics.len(),
        ensures
            v as int == self@.metrics[i as int].value,
    {
        self.gauges[i].value()
    }

    pub fn recorded_at(&self, i: usize) -> (r: bool)
        requires
            self.wf(),
            i < self@.metrics.len(),
        ensures
            r == (self@.metrics[i as int].count > 0),
    {
        self.gauges[i].has_been_recorded()
    }

    /// Mean of every value ever written to any gauge of the family,
    /// `None` while nothing was written.
    pub fn mean(&self) -> (r: Option<i64>)
        requires
            self.wf(),
        ensures
            r matches Some(m) ==> Some(m as int) == spec_family_mean(self@.metrics),
            r is Some <==> spec_total_count(self@.metrics) > 0,
    {
        let n = self.gauges.len();
        let mut sum: i128 = 0;
        let mut count: u64 = 0;
        let mut i: usize = 0;
        proof {
            assert(self@.metrics.subrange(0, 0) =~= Seq::<GaugeView>::empty());
            lemma_total_count_bound(self@.metrics);
        }
        while i < n
            invariant
                i <= n,
                self.wf(),
                n == self@.metrics.len(),
                n <= u32::MAX,
                sum as int == spec_total_sum(self@.metrics.subrange(0, i as int)),
                count as nat == spec_total_count(self@.metrics.subrange(0, i as int)),
                count as int <= (i as int) * (u32::MAX as int),
                (count as int) * (i64::MIN as int) <= sum as int <= (count as int) * (
                i64::MAX as int),
            decreases n - i,
        {
            let g = &self.gauges[i];
            proof {
                let pre = self@.metrics.subrange(0, i as int);
                let post = self@.metrics.subrange(0, i + 1);
                assert(post.drop_last() =~= pre);
                assert(post.last() == self@.metrics[i as int]);
                let c = count as int;
                let gc = g@.count as int;
                assert(c * (i64::MAX as int) + gc * (i64::MAX as int) == (c + gc) * (
                i64::MAX as int)) by (nonlinear_arith);
                assert(c * (i64::MIN as int) + gc * (i64::MIN as int) == (c + gc) * (
                i64::MIN as int)) by (nonlinear_arith);
                assert((c + gc) * (i64::MAX as int) <= ((u32::MAX as int) * (u32::MAX as int) + (
                u32::MAX as int)) * (i64::MAX as int)) by (nonlinear_arith)
                    requires
                        0 <= c + gc <= (u32::MAX as int) * (u32::MAX as int) + (u32::MAX as int),
                ;
                assert((c + gc) * (i64::MIN as int) >= ((u32::MAX as int) * (u32::MAX as int) + (
                u32::MAX as int)) * (i64::MIN as int)) by (nonlinear_arith)
                    requires
                        0 <= c + gc <= (u32::MAX as int) * (u32::MAX as int) + (u32::MAX as int),
                ;
                assert(((u32::MAX as int) * (u32::MAX as int) + (u32::MAX as int)) * (
                i64::MAX as int) < i128::MAX) by (nonlinear_arith);
                assert(((u32::MAX as int) * (u32::MAX as int) + (u32::MAX as int)) * (
                i64::MIN as int) > i128::MIN) by (nonlinear_arith);
                assert(c + gc <= (u32::MAX as int) * (u32::MAX as int) + (u32::MAX as int))
                    by (nonlinear_arith)
                    requires
                        0 <= c <= (u32::MAX as int) * (u32::MAX as int),
                        0 <= gc <= u32::MAX as int,
                ;
                assert((i as int) * (u32::MAX as int) + (u32::MAX as int) == (i + 1) * (
                u32::MAX as int)) by (nonlinear_arith);
                assert((i + 1) * (u32::MAX as int) <= (u32::MAX as int) * (u32::MAX as int))
                    by (nonlinear_arith)
                    requires
                        0 <= i + 1 <= u32::MAX as int,
                ;
                assert((u32::MAX as int) * (u32::MAX as int) + (u32::MAX as int) <= u64::MAX as int)
                    by (nonlinear_arith);
            }
            sum = sum + g.sum_raw();
            count = count + g.count_raw() as u64;
            i += 1;
        }
        proof {
            assert(self@.metrics.subrange(0, n as int) =~= self@.metrics);
        }
        if count == 0 {
            None
        } else {
            Some(mean_millis(sum, count))
        }
    }
}

impl Gauge {
    /// The raw running sum, for aggregation across a family.
    fn sum_raw(&self) -> (s: i128)
        ensures
            s as int == self@.sum,
    {
        self.sum_millis
    }

    /// The raw sample count, for aggregation across a family.
    fn count_raw(&self) -> (c: u32)
        ensures
            c as nat == self@.count,
    {
        self.count
    }
}

/// Combined sum of the running sums of a family's gauges.
pub open spec fn spec_total_sum(s: Seq<GaugeView>) -> int
    decreases s.len(),
{
    if s.len() == 0 {
        0
    } else {
        spec_total_sum(s.drop_last()) + s.last().sum
    }
}

/// Combined sample count of a family's gauges.
pub open spec fn spec_total_count(s: Seq<GaugeView>) -> nat
    decreases s.len(),
{
    if s.len() == 0 {
        0
    } else {
        spec_total_count(s.drop_last()) + s.last().count
    }
}

/// The family-wide mean: every value ever written to any slot counts once.
pub open spec fn spec_family_mean(s: Seq<GaugeView>) -> Option<int> {
    if spec_total_count(s) == 0 {
        None
    } else {
        Some(spec_mean_int(spec_total_sum(s), spec_total_count(s)))
    }
}

/// A family of counts is bounded by its length times the per-gauge cap.
proof fn lemma_total_count_bound(s: Seq<GaugeView>)
    requires
        forall|i: int| 0 <= i < s.len() ==> (#[trigger] s[i]).count <= u32::MAX,
    ensures
        spec_total_count(s) <= s.len() * (u32::MAX as nat),
    decreases s.len(),
{
    if s.len() > 0 {
        lemma_total_count_bound(s.drop_last());
        assert(forall|i: int|
            0 <= i < s.drop_last().len() ==> (#[trigger] s.drop_last()[i]).count <= u32::MAX);
        assert((s.len() - 1) * (u32::MAX as nat) + (u32::MAX as nat) == s.len() * (u32::MAX as nat))
            by (nonlinear_arith);
    }
}

/// A fixed-capacity mapping from labels to counters.
#[derive(Debug)]
pub struct CounterFamily {
    name: &'static str,
    help: &'static str,
    unit: &'static str,
    capacity: usize,
    labels: Vec<MetricLabel>,
    counters: Vec<Counter>,
}

impl View for CounterFamily {
    type V = FamilyView<CounterView>;

    closed spec fn view(&self) -> FamilyView<CounterView> {
        FamilyView {
            name: self.name@,
            help: self.help@,
            unit: self.unit@,
            capacity: self.capacity as nat,
            labels: self.labels@,
            metrics: self.counters@.map_values(|c: Counter| c@),
        }
    }
}

impl CounterFamily {
    pub open spec fn wf(&self) -> bool {
        &&& self@.labels.len() == self@.metrics.len()
        &&& self@.labels.len() <= self@.capacity
        &&& self@.labels.no_duplicates()
        &&& self@.capacity <= u32::MAX
    }

    pub fn new(name: &'static str, help: &'static str, unit: &'static str, capacity: usize) -> (f:
        CounterFamily)
        requires
            capacity <= u32::MAX,
        ensures
            f.wf(),
            f@.name == name@,
            f@.help == help@,
            f@.unit == unit@,
            f@.capacity == capacity as nat,
            f@.labels.len() == 0,
    {
        CounterFamily { name, help, unit, capacity, labels: Vec::new(), counters: Vec::new() }
    }

    /// Register a label: returns a stable handle for it, the same handle
    /// on every later call with the same label, or `None` when the
    /// family is full.
    pub fn register(&mut self, label: MetricLabel) -> (r: Option<usize>)
        requires
            old(self).wf(),
        ensures
            final(self).wf(),
            final(self)@.name == old(self)@.name,
            final(self)@.help == old(self)@.help,
            final(self)@.unit == old(self)@.unit,
            final(self)@.capacity == old(self)@.capacity,
            match spec_find(old(self)@.labels, label) {
                Some(i) => r == Some(i as usize) && final(self)@ == old(self)@,
                None => if old(self)@.labels.len() < old(self)@.capacity {
                    &&& r == Some(old(self)@.labels.len() as usize)
                    &&& final(self)@.labels == old(self)@.labels.push(label)
                    &&& final(self)@.metrics == old(self)@.metrics.push(
                        CounterView { value: 0, recorded: false },
                    )
                } else {
                    r is None && final(self)@ == old(self)@
                },
            },
            r matches Some(i) ==> i < final(self)@.labels.len() && final(self)@.labels[i as int]
                == label,
    {
        proof {
            lemma_spec_find(self@.labels, label);
        }
        let n = self.labels.len();
        let mut i: usize = 0;
        while i < n
            invariant
                i <= n,
                self.wf(),
                self@ == old(self)@,
                n == self.labels@.len(),
                forall|j: int| 0 <= j < i ==> self.labels@[j] != label,
            decreases n - i,
        {
            if self.labels[i] == label {
                proof {
                    lemma_spec_find_at(self.labels@, label, i as int);
                }
                return Some(i);
            }
            i += 1;
        }
        if n < self.capacity {
            self.labels.push(label);
            self.counters.push(Counter::new());
            proof {
                assert(self@.metrics =~= old(self)@.metrics.push(
                    CounterView { value: 0, recorded: false },
                ));
            }
            Some(n)
        } else {
            None
        }
    }

    /// Add `n` to the counter behind a handle.
    pub fn fetch_add(&mut self, handle: usize, n: u64)
        requires
            old(self).wf(),
            handle < old(self)@.metrics.len(),
        ensures
            final(self).wf(),
            final(self)@.name == old(self)@.name,
            final(self)@.help == old(self)@.help,
            final(self)@.unit == old(self)@.unit,
            final(self)@.capacity == old(self)@.capacity,
            final(self)@.labels == old(self)@.labels,
            final(self)@.metrics.len() == old(self)@.metrics.len(),
            forall|j: int|
                0 <= j < old(self)@.metrics.len() && j != handle
                    ==> final(self)@.metrics[j] == old(self)@.metrics[j],
            final(self)@.metrics[handle as int].recorded,
            old(self)@.metrics[handle as int].value + n <= u64::MAX
                ==> final(self)@.metrics[handle as int].value
                    == old(self)@.metrics[handle as int].value + n,
    {
        proof {
            assert(old(self)@.metrics[handle as int] == self.counters@[handle as int]@);
        }
        let counter = &mut self.counters[handle];
        counter.fetch_add(n);
        proof {
            assert(self@.metrics =~= old(self)@.metrics.update(
                handle as int,
                self.counters@[handle as int]@,
            ));
            assert(forall|j: int|
                0 <= j < old(self)@.metrics.len() && j != handle
                    ==> self@.metrics[j] == old(self)@.metrics[j]);
        }
    }

    pub fn len(&self) -> (n: usize)
        ensures
            n == self@.labels.len(),
    {
        self.labels.len()
    }

    pub fn name(&self) -> (r: &'static str)
        ensures
            r@ == self@.name,
    {
        self.name
    }

    pub fn help(&self) -> (r: &'static str)
        ensures
            r@ == self@.help,
    {
        self.help
    }

    pub fn label_at(&self, i: usize) -> (l: MetricLabel)
        requires
            i < self@.labels.len(),
        ensures
            l == self@.labels[i as int],
    {
        self.labels[i]
    }

    pub fn value_at(&self, i: usize) -> (v: u64)
        requires
            self.wf(),
            i < self@.metrics.len(),
        ensures
            v as nat == self@.metrics[i as int].value,
    {
        self.counters[i].value()
    }

    pub fn recorded_at(&self, i: usize) -> (r: bool)
        requires
            self.wf(),
            i < self@.metrics.len(),
        ensures
            r == self@.metrics[i as int].recorded,
    {
        self.counters[i].has_been_recorded()
    }
}

/// Registering a label never returns two different handles: once
/// `register` has answered `Some(i)` for a label, every later call with
/// the same label answers the same `i` and changes nothing.
pub proof fn lemma_register_idempotent(labels: Seq<MetricLabel>, label: MetricLabel, cap: nat)
    requires
        labels.len() <= cap,
    ensures
        // a label already present is found at its first occurrence,
        // and finding it again yields the same index:
        spec_find(labels, label) matches Some(i) ==> spec_find(labels, label) == Some(i),
        // a label registered into a free slot is found there afterwards:
        spec_find(labels, label) is None && labels.len() < cap ==> spec_find(
            labels.push(label),
            label,
        ) == Some(labels.len() as int),
{
    lemma_spec_find(labels, label);
    if spec_find(labels, label) is None && labels.len() < cap {
        let pushed = labels.push(label);
        assert(pushed[labels.len() as int] == label);
        assert(forall|j: int| 0 <= j < labels.len() ==> pushed[j] == labels[j]);
        lemma_spec_find_at(pushed, label, labels.len() as int);
    }
}

/// Capacity of each metric family, dimensioned to the full set of
/// sensors that can feed it.
pub const TEMP_METRICS: usize = 6;

pub const CO2_METRICS: usize = 3;

pub const ECO2_METRICS: usize = 3;

pub const HUMIDITY_METRICS: usize = 6;

pub const PRESSURE_METRICS: usize = 1;

pub const VOC_RESISTANCE_METRICS: usize = 1;

pub const TVOC_METRICS: usize = 3;

pub const TVOC_IAQ_METRICS: usize = 3;

pub const NOX_IAQ_METRICS: usize = 1;

pub const PM_CONC_METRICS: usize = 7;

pub const PM_COUNT_METRICS: usize = 6;

pub const SENSORS: usize = 9;

/// Every metric family the daemon publishes, in declaration order.
#[derive(Debug)]
pub struct SensorMetrics {
    pub temp_c: GaugeFamily,
    pub co2_ppm: GaugeFamily,
    pub eco2_ppm: GaugeFamily,
    pub rel_humidity_percent: GaugeFamily,
    pub abs_humidity_grams_m3: GaugeFamily,
    pub pressure_hpa: GaugeFamily,
    pub gas_resistance: GaugeFamily,
    pub tvoc_ppb: GaugeFamily,
    pub tvoc_iaq_index: GaugeFamily,
    pub nox_iaq_index: GaugeFamily,
    pub pm_conc: GaugeFamily,
    pub pm_count: GaugeFamily,
    pub sensor_errors: CounterFamily,
    pub sensor_reset_count: CounterFamily,
}

impl SensorMetrics {
    pub open spec fn wf(&self) -> bool {
        &&& self.temp_c.wf()
        &&& self.co2_ppm.wf()
        &&& self.eco2_ppm.wf()
        &&& self.rel_humidity_percent.wf()
        &&& self.abs_humidity_grams_m3.wf()
        &&& self.pressure_hpa.wf()
        &&& self.gas_resistance.wf()
        &&& self.tvoc_ppb.wf()
        &&& self.tvoc_iaq_index.wf()
        &&& self.nox_iaq_index.wf()
        &&& self.pm_conc.wf()
        &&& self.pm_count.wf()
        &&& self.sensor_errors.wf()
        &&& self.sensor_reset_count.wf()
    }

    /// All families start empty.
    pub open spec fn spec_empty(&self) -> bool {
        &&& self.temp_c@.labels.len() == 0
        &&& self.co2_ppm@.labels.len() == 0
        &&& self.eco2_ppm@.labels.len() == 0
        &&& self.rel_humidity_percent@.labels.len() == 0
        &&& self.abs_humidity_grams_m3@.labels.len() == 0
        &&& self.pressure_hpa@.labels.len() == 0
        &&& self.gas_resistance@.labels.len() == 0
        &&& self.tvoc_ppb@.labels.len() == 0
        &&& self.tvoc_iaq_index@.labels.len() == 0
        &&& self.nox_iaq_index@.labels.len() == 0
        &&& self.pm_conc@.labels.len() == 0
        &&& self.pm_count@.labels.len() == 0
        &&& self.sensor_errors@.labels.len() == 0
        &&& self.sensor_reset_count@.labels.len() == 0
    }

    pub fn new() -> (m: SensorMetrics)
        ensures
            m.wf(),
            m.spec_empty(),
            m.temp_c@.name == "temperature_degrees_celcius"@,
            m.co2_ppm@.name == "co2_ppm"@,
            m.eco2_ppm@.name == "eco2_ppm"@,
            m.rel_humidity_percent@.name == "humidity_percent"@,
            m.abs_humidity_grams_m3@.name == "absolute_humidity_grams_m3"@,
            m.pressure_hpa@.name == "pressure_hpa"@,
            m.gas_resistance@.name == "gas_resistance_ohms"@,
            m.tvoc_ppb@.name == "tvoc_ppb"@,
            m.tvoc_iaq_index@.name == "tvoc_iaq_index"@,
            m.nox_iaq_index@.name == "nox_iaq_index"@,
            m.pm_conc@.name == "pm_concentration_ug_m3"@,
            m.pm_count@.name == "pm_count"@,
            m.sensor_errors@.name == "sensor_error_count"@,
            m.sensor_reset_count@.name == "sensor_reset_count"@,
    {
        SensorMetrics {
            temp_c: GaugeFamily::new(
                "temperature_degrees_celcius",
                "Temperature in degrees Celcius.",
                "celcius",
                TEMP_METRICS,
            ),
            co2_ppm: GaugeFamily::new(
                "co2_ppm",
                "CO2 in parts per million (ppm).",
                "ppm",
                CO2_METRICS,
            ),
            eco2_ppm: GaugeFamily::new(
                "eco2_ppm",
                "VOC equivalent CO2 (eCO2) calculated by a tVOC sensor, in parts per million (ppm).",
                "ppm",
                ECO2_METRICS,
            ),
            rel_humidity_percent: GaugeFamily::new(
                "humidity_percent",
                "Relative humidity (RH) percentage.",
                "percent",
                HUMIDITY_METRICS,
            ),
            abs_humidity_grams_m3: GaugeFamily::new(
                "absolute_humidity_grams_m3",
                "Absolute humidity in grams per cubic meter.",
                "g/m^3",
                HUMIDITY_METRICS,
            ),
            pressure_hpa: GaugeFamily::new(
                "pressure_hpa",
                "Barometric pressure, in hectopascals (hPa).",
                "hPa",
                PRESSURE_METRICS,
            ),
            gas_resistance: GaugeFamily::new(
                "gas_resistance_ohms",
                "BME680 VOC sensor resistance, in Ohms.",
                "Ohms",
                VOC_RESISTANCE_METRICS,
            ),
            tvoc_ppb: GaugeFamily::new(
                "tvoc_ppb",
                "Total Volatile Organic Compounds (VOC) in parts per billion (ppb)",
                "ppb",
                TVOC_METRICS,
            ),
            tvoc_iaq_index: GaugeFamily::new(
                "tvoc_iaq_index",
                "Total Volatile Organic Compounds (VOC) Indoor Air Quality (IAQ) Index from 0-500",
                "IAQ index",
                TVOC_IAQ_METRICS,
            ),
            nox_iaq_index: GaugeFamily::new(
                "nox_iaq_index",
                "Nitrogen Oxides (NOx) Indoor Air Quality (IAQ) Index from 0-500",
                "IAQ index",
                NOX_IAQ_METRICS,
            ),
            pm_conc: GaugeFamily::new(
                "pm_concentration_ug_m3",
                "Particulate matter concentration in ug/m^3",
                "ug/m^3",
                PM_CONC_METRICS,
            ),
            pm_count: GaugeFamily::new(
                "pm_count",
                "Particulate matter count per 0.1L of air.",
                "particulates per 0.1L",
                PM_COUNT_METRICS,
            ),
            sensor_errors: CounterFamily::new(
                "sensor_error_count",
                "Count of I2C errors that occurred while talking to a sensor",
                "",
                SENSORS,
            ),
            sensor_reset_count: CounterFamily::new(
                "sensor_reset_count",
                "The number of times a sensor was reset successfully",
                "",
                SENSORS,
            ),
        }
    }
}

impl Default for SensorMetrics {
    fn default() -> (m: SensorMetrics)
        ensures
            m.wf(),
            m.spec_empty(),
    {
        SensorMetrics::new()
    }
}

} // verus!
