//! Text rendering of the metric registry: decimal formatting, the
//! Prometheus exposition format, and the JSON form served over HTTP.

use vstd::prelude::*;

use crate::metrics::{
    CounterFamily, CounterView, FamilyView, GaugeFamily, GaugeView, MetricLabel, SensorMetrics,
};
use crate::sensor::{Registry, RegistryView, StateView};
use crate::name::SensorName;

verus! {

/// The character for one decimal digit.
pub open spec fn spec_digit_char(d: nat) -> char {
    (48 + d) as char
}

/// Decimal text of a natural number, most significant digit first.
pub open spec fn spec_dec(n: nat) -> Seq<char>
    decreases n,
{
    if n < 10 {
        seq![spec_digit_char(n)]
    } else {
        spec_dec(n / 10).push(spec_digit_char(n % 10))
    }
}

/// Decimal text of a milli-unit value: the integral part, a dot, and
/// exactly three fractional digits, with a leading minus when negative.
pub open spec fn spec_millis(v: int) -> Seq<char> {
    let a = if v < 0 {
        -v
    } else {
        v
    };
    let sign: Seq<char> = if v < 0 {
        "-"@
    } else {
        ""@
    };
    sign + spec_dec((a / 1000) as nat) + "."@ + spec_frac3((a % 1000) as nat)
}

/// Three zero-padded fractional digits.
pub open spec fn spec_frac3(f: nat) -> Seq<char> {
    let pad: Seq<char> = if f < 10 {
        "00"@
    } else if f < 100 {
        "0"@
    } else {
        ""@
    };
    pad + spec_dec(f)
}

pub(crate) fn digit_str(d: u8) -> (s: &'static str)
    requires
        d < 10,
    ensures
        s@ == seq![spec_digit_char(d as nat)],
{
    proof {
        reveal_strlit("0");
        reveal_strlit("1");
        reveal_strlit("2");
        reveal_strlit("3");
        reveal_strlit("4");
        reveal_strlit("5");
        reveal_strlit("6");
        reveal_strlit("7");
        reveal_strlit("8");
        reveal_strlit("9");
    }
    match d {
        0 => "0",
        1 => "1",
        2 => "2",
        3 => "3",
        4 => "4",
        5 => "5",
        6 => "6",
        7 => "7",
        8 => "8",
        _ => "9",
    }
}

/// Decimal text of `n`.
pub fn fmt_u64(n: u64) -> (s: String)
    ensures
        s@ == spec_dec(n as nat),
    decreases n,
{
    if n < 10 {
        digit_str(n as u8).to_owned()
    } else {
        let mut s = fmt_u64(n / 10);
        s.append(digit_str((n % 10) as u8));
        proof {
            assert(s@ =~= spec_dec(n as nat));
        }
        s
    }
}

/// Text of a milli-unit value, e.g. `11.482` or `-0.250`.
pub fn fmt_millis(v: i64) -> (s: String)
    ensures
        s@ == spec_millis(v as int),
{
    let a: u64 = if v < 0 {
        (-(v as i128)) as u64
    } else {
        v as u64
    };
    let mut s = String::new();
    if v < 0 {
        s.append("-");
    }
    let whole = fmt_u64(a / 1000);
    s.append(whole.as_str());
    s.append(".");
    let f = a % 1000;
    if f < 10 {
        s.append("00");
    } else if f < 100 {
        s.append("0");
    }
    let frac = fmt_u64(f);
    s.append(frac.as_str());
    proof {
        reveal_strlit("");
        reveal_strlit("-");
        assert(s@ =~= spec_millis(v as int));
    }
    s
}

/// The Prometheus label text of a slot.
pub open spec fn spec_label(l: MetricLabel) -> Seq<char> {
    match l {
        MetricLabel::Sensor(n) => "sensor=\""@ + n.spec_str() + "\""@,
        MetricLabel::Diameter(d) => "diameter=\""@ + d.diameter.spec_str() + "\",sensor=\""@
            + d.sensor.spec_str() + "\""@,
    }
}

/// Render a slot's label, `sensor="..."` or `diameter="...",sensor="..."`.
pub fn fmt_label(l: &MetricLabel) -> (s: String)
    ensures
        s@ == spec_label(*l),
{
    let mut out = String::new();
    match l {
        MetricLabel::Sensor(n) => {
            out.append("sensor=\"");
            out.append(n.as_str());
            out.append("\"");
        },
        MetricLabel::Diameter(d) => {
            out.append("diameter=\"");
            out.append(d.diameter.as_str());
            out.append("\",sensor=\"");
            out.append(d.sensor.as_str());
            out.append("\"");
        },
    }
    proof {
        assert(out@ =~= spec_label(*l));
    }
    out
}

/// The populated slots of a gauge family, in declaration order: one
/// entry per slot that was ever written, none for the rest.
pub open spec fn spec_populated_gauges(labels: Seq<MetricLabel>, metrics: Seq<GaugeView>) -> Seq<
    (MetricLabel, int),
>
    decreases metrics.len(),
{
    if metrics.len() == 0 || labels.len() != metrics.len() {
        Seq::empty()
    } else {
        spec_populated_gauges(labels.drop_last(), metrics.drop_last()) + (if metrics.last().count
            > 0 {
            seq![(labels.last(), metrics.last().value)]
        } else {
            Seq::empty()
        })
    }
}

/// The populated slots of a counter family, in declaration order.
pub open spec fn spec_populated_counters(labels: Seq<MetricLabel>, metrics: Seq<CounterView>)
    -> Seq<(MetricLabel, nat)>
    decreases metrics.len(),
{
    if metrics.len() == 0 || labels.len() != metrics.len() {
        Seq::empty()
    } else {
        spec_populated_counters(labels.drop_last(), metrics.drop_last()) + (
        if metrics.last().recorded {
            seq![(labels.last(), metrics.last().value)]
        } else {
            Seq::empty()
        })
    }
}

/// A populated slot is rendered exactly once, an unpopulated slot not at
/// all: slot `i` of a family contributes exactly one entry when it was
/// ever written, and none otherwise, and no other slot contributes an
/// entry carrying its label.
pub proof fn lemma_populated_exactly_once(
    labels: Seq<MetricLabel>,
    metrics: Seq<GaugeView>,
    i: int,
)
    requires
        labels.len() == metrics.len(),
        labels.no_duplicates(),
        0 <= i < metrics.len(),
    ensures
        metrics[i].count > 0 ==> exists|j: int|
            #![trigger spec_populated_gauges(labels, metrics)[j]]
            {
                let entries = spec_populated_gauges(labels, metrics);
                &&& 0 <= j < entries.len()
                &&& entries[j] == (labels[i], metrics[i].value)
                &&& forall|k: int| 0 <= k < entries.len() && k != j ==> entries[k].0 != labels[i]
            },
        metrics[i].count == 0 ==> forall|k: int|
            0 <= k < spec_populated_gauges(labels, metrics).len() ==> (#[trigger] spec_populated_gauges(
                labels,
                metrics,
            )[k]).0 != labels[i],
    decreases metrics.len(),
{
    let entries = spec_populated_gauges(labels, metrics);
    lemma_populated_label_from_slot(labels, metrics);
    if i == metrics.len() - 1 {
        if metrics[i].count > 0 {
            let j = entries.len() - 1;
            assert(entries[j] == (labels[i], metrics[i].value));
            lemma_populated_label_from_slot(labels.drop_last(), metrics.drop_last());
            assert(forall|k: int|
                0 <= k < entries.len() && k != j ==> entries[k].0 != labels[i]) by {
                assert(forall|k: int|
                    0 <= k < entries.len() - 1 ==> entries[k] == spec_populated_gauges(
                        labels.drop_last(),
                        metrics.drop_last(),
                    )[k]);
                assert(forall|m: int|
                    0 <= m < labels.len() - 1 ==> labels[m] != labels[i]);
            }
        } else {
            lemma_populated_label_from_slot(labels.drop_last(), metrics.drop_last());
            assert(forall|m: int| 0 <= m < labels.len() - 1 ==> labels[m] != labels[i]);
        }
    } else {
        lemma_populated_exactly_once(labels.drop_last(), metrics.drop_last(), i);
        let sub = spec_populated_gauges(labels.drop_last(), metrics.drop_last());
        if metrics[i].count > 0 {
            let j = choose|j: int|
                {
                    &&& 0 <= j < sub.len()
                    &&& sub[j] == (labels[i], metrics[i].value)
                    &&& forall|k: int| 0 <= k < sub.len() && k != j ==> sub[k].0 != labels[i]
                };
            assert(entries[j] == (labels[i], metrics[i].value));
            if metrics.last().count > 0 {
                assert(entries[entries.len() - 1].0 == labels.last());
                assert(labels.last() != labels[i]);
            }
            assert(forall|k: int| 0 <= k < entries.len() && k != j ==> entries[k].0 != labels[i]);
        } else {
            if metrics.last().count > 0 {
                assert(labels.last() != labels[i]);
            }
        }
    }
}

/// Every rendered entry's label is the label of some slot.
proof fn lemma_populated_label_from_slot(labels: Seq<MetricLabel>, metrics: Seq<GaugeView>)
    ensures
        forall|k: int|
            0 <= k < spec_populated_gauges(labels, metrics).len() ==> exists|m: int|
                0 <= m < labels.len() && labels[m] == (#[trigger] spec_populated_gauges(
                    labels,
                    metrics,
                )[k]).0,
    decreases metrics.len(),
{
    if metrics.len() != 0 && labels.len() == metrics.len() {
        lemma_populated_label_from_slot(labels.drop_last(), metrics.drop_last());
        let sub = spec_populated_gauges(labels.drop_last(), metrics.drop_last());
        let entries = spec_populated_gauges(labels, metrics);
        assert(forall|k: int| 0 <= k < sub.len() ==> entries[k] == sub[k]);
        assert(forall|m: int|
            0 <= m < labels.len() - 1 ==> labels.drop_last()[m] == labels[m]);
        if metrics.last().count > 0 {
            assert(entries[entries.len() - 1].0 == labels[labels.len() - 1]);
        }
    }
}

/// The `# HELP` / `# TYPE` block that opens a family's rendering.
pub open spec fn spec_header(name: Seq<char>, help: Seq<char>, typ: Seq<char>) -> Seq<char> {
    "# HELP "@ + name + " "@ + help + "\n# TYPE "@ + name + " "@ + typ + "\n"@
}

/// One gauge sample line: `name{labels} value`.
pub open spec fn spec_gauge_line(name: Seq<char>, entry: (MetricLabel, int)) -> Seq<char> {
    name + "{"@ + spec_label(entry.0) + "} "@ + spec_millis(entry.1) + "\n"@
}

/// One counter sample line.
pub open spec fn spec_counter_line(name: Seq<char>, entry: (MetricLabel, nat)) -> Seq<char> {
    name + "{"@ + spec_label(entry.0) + "} "@ + spec_dec(entry.1) + "\n"@
}

/// All sample lines of a gauge family.
pub open spec fn spec_gauge_lines(name: Seq<char>, entries: Seq<(MetricLabel, int)>) -> Seq<char>
    decreases entries.len(),
{
    if entries.len() == 0 {
        Seq::empty()
    } else {
        spec_gauge_lines(name, entries.drop_last()) + spec_gauge_line(name, entries.last())
    }
}

/// All sample lines of a counter family.
pub open spec fn spec_counter_lines(name: Seq<char>, entries: Seq<(MetricLabel, nat)>) -> Seq<char>
    decreases entries.len(),
{
    if entries.len() == 0 {
        Seq::empty()
    } else {
        spec_counter_lines(name, entries.drop_last()) + spec_counter_line(name, entries.last())
    }
}

/// The full Prometheus text of a gauge family.
pub open spec fn spec_gauge_family_text(v: FamilyView<GaugeView>) -> Seq<char> {
    spec_header(v.name, v.help, "gauge"@) + spec_gauge_lines(
        v.name,
        spec_populated_gauges(v.labels, v.metrics),
    )
}

/// The full Prometheus text of a counter family.
pub open spec fn spec_counter_family_text(v: FamilyView<CounterView>) -> Seq<char> {
    spec_header(v.name, v.help, "counter"@) + spec_counter_lines(
        v.name,
        spec_populated_counters(v.labels, v.metrics),
    )
}

/// Render one gauge family in Prometheus exposition format.
#[verifier::rlimit(50)]
pub fn fmt_gauge_family(f: &GaugeFamily, out: &mut String)
    requires
        f.wf(),
    ensures
        final(out)@ == old(out)@ + spec_gauge_family_text(f@),
{
    out.append("# HELP ");
    out.append(f.name());
    out.append(" ");
    out.append(f.help());
    out.append("\n# TYPE ");
    out.append(f.name());
    out.append(" ");
    out.append("gauge");
    out.append("\n");
    proof {
        assert(out@ =~= old(out)@ + spec_header(f@.name, f@.help, "gauge"@));
    }
    let ghost header_done = out@;
    let n = f.len();
    let mut i: usize = 0;
    while i < n
        invariant
            i <= n,
            f.wf(),
            n == f@.labels.len(),
            n == f@.metrics.len(),
            out@ == header_done + spec_gauge_lines(
                f@.name,
                spec_populated_gauges(f@.labels.subrange(0, i as int), f@.metrics.subrange(0, i as int)),
            ),
        decreases n - i,
    {
        proof {
            let pl = f@.labels.subrange(0, i + 1);
            let pm = f@.metrics.subrange(0, i + 1);
            assert(pl.drop_last() =~= f@.labels.subrange(0, i as int));
            assert(pm.drop_last() =~= f@.metrics.subrange(0, i as int));
            let entries = spec_populated_gauges(pl, pm);
            if pm.last().count > 0 {
                assert(entries.drop_last() =~= spec_populated_gauges(
                    pl.drop_last(),
                    pm.drop_last(),
                ));
            } else {
                assert(entries =~= spec_populated_gauges(pl.drop_last(), pm.drop_last()));
            }
        }
        if f.recorded_at(i) {
            let label = f.label_at(i);
            let value = f.value_at(i);
            out.append(f.name());
            out.append("{");
            let ltext = fmt_label(&label);
            out.append(ltext.as_str());
            out.append("} ");
            let vtext = fmt_millis(value);
            out.append(vtext.as_str());
            out.append("\n");
            proof {
                assert(out@ =~= header_done + spec_gauge_lines(
                    f@.name,
                    spec_populated_gauges(
                        f@.labels.subrange(0, i + 1),
                        f@.metrics.subrange(0, i + 1),
                    ),
                ));
            }
        }
        i += 1;
    }
    proof {
        assert(f@.labels.subrange(0, n as int) =~= f@.labels);
        assert(f@.metrics.subrange(0, n as int) =~= f@.metrics);
    }
}

/// Render one counter family in Prometheus exposition format.
#[verifier::rlimit(50)]
pub fn fmt_counter_family(f: &CounterFamily, out: &mut String)
    requires
        f.wf(),
    ensures
        final(out)@ == old(out)@ + spec_counter_family_text(f@),
{
    out.append("# HELP ");
    out.append(f.name());
    out.append(" ");
    out.append(f.help());
    out.append("\n# TYPE ");
    out.append(f.name());
    out.append(" ");
    out.append("counter");
    out.append("\n");
    proof {
        assert(out@ =~= old(out)@ + spec_header(f@.name, f@.help, "counter"@));
    }
    let ghost header_done = out@;
    let n = f.len();
    let mut i: usize = 0;
    while i < n
        invariant
            i <= n,
            f.wf(),
            n == f@.labels.len(),
            n == f@.metrics.len(),
            out@ == header_done + spec_counter_lines(
                f@.name,
                spec_populated_counters(
                    f@.labels.subrange(0, i as int),
                    f@.metrics.subrange(0, i as int),
                ),
            ),
        decreases n - i,
    {
        proof {
            let pl = f@.labels.subrange(0, i + 1);
            let pm = f@.metrics.subrange(0, i + 1);
            assert(pl.drop_last() =~= f@.labels.subrange(0, i as int));
            assert(pm.drop_last() =~= f@.metrics.subrange(0, i as int));
            let entries = spec_populated_counters(pl, pm);
            if pm.last().recorded {
                assert(entries.drop_last() =~= spec_populated_counters(
                    pl.drop_last(),
                    pm.drop_last(),
                ));
            } else {
                assert(entries =~= spec_populated_counters(pl.drop_last(), pm.drop_last()));
            }
        }
        if f.recorded_at(i) {
            let label = f.label_at(i);
            let value = f.value_at(i);
            out.append(f.name());
            out.append("{");
            let ltext = fmt_label(&label);
            out.append(ltext.as_str());
            out.append("} ");
            let vtext = fmt_u64(value);
            out.append(vtext.as_str());
            out.append("\n");
            proof {
                assert(out@ =~= header_done + spec_counter_lines(
                    f@.name,
                    spec_populated_counters(
                        f@.labels.subrange(0, i + 1),
                        f@.metrics.subrange(0, i + 1),
                    ),
                ));
            }
        }
        i += 1;
    }
    proof {
        assert(f@.labels.subrange(0, n as int) =~= f@.labels);
        assert(f@.metrics.subrange(0, n as int) =~= f@.metrics);
    }
}

/// The whole registry's Prometheus text, families in declaration order.
pub open spec fn spec_metrics_text(m: &SensorMetrics) -> Seq<char> {
    spec_gauge_family_text(m.temp_c@) + spec_gauge_family_text(m.co2_ppm@)
        + spec_gauge_family_text(m.eco2_ppm@) + spec_gauge_family_text(m.rel_humidity_percent@)
        + spec_gauge_family_text(m.abs_humidity_grams_m3@) + spec_gauge_family_text(
        m.pressure_hpa@,
    ) + spec_gauge_family_text(m.gas_resistance@) + spec_gauge_family_text(m.tvoc_ppb@)
        + spec_gauge_family_text(m.tvoc_iaq_index@) + spec_gauge_family_text(m.nox_iaq_index@)
        + spec_gauge_family_text(m.pm_conc@) + spec_gauge_family_text(m.pm_count@)
        + spec_counter_family_text(m.sensor_errors@) + spec_counter_family_text(
        m.sensor_reset_count@,
    )
}

impl SensorMetrics {
    /// Render every family in Prometheus exposition format, in
    /// declaration order.
    #[verifier::rlimit(50)]
    pub fn fmt_metrics(&self) -> (r: String)
        requires
            self.wf(),
        ensures
            r@ == spec_metrics_text(self),
    {
        let mut out = String::new();
        fmt_gauge_family(&self.temp_c, &mut out);
        fmt_gauge_family(&self.co2_ppm, &mut out);
        fmt_gauge_family(&self.eco2_ppm, &mut out);
        fmt_gauge_family(&self.rel_humidity_percent, &mut out);
        fmt_gauge_family(&self.abs_humidity_grams_m3, &mut out);
        fmt_gauge_family(&self.pressure_hpa, &mut out);
        fmt_gauge_family(&self.gas_resistance, &mut out);
        fmt_gauge_family(&self.tvoc_ppb, &mut out);
        fmt_gauge_family(&self.tvoc_iaq_index, &mut out);
        fmt_gauge_family(&self.nox_iaq_index, &mut out);
        fmt_gauge_family(&self.pm_conc, &mut out);
        fmt_gauge_family(&self.pm_count, &mut out);
        fmt_counter_family(&self.sensor_errors, &mut out);
        fmt_counter_family(&self.sensor_reset_count, &mut out);
        proof {
            assert(out@ =~= spec_metrics_text(self));
        }
        out
    }
}

/// Two renderings of registries in the same state are identical: the
/// text is a function of the registry state alone.
pub proof fn lemma_render_deterministic(a: &SensorMetrics, b: &SensorMetrics)
    requires
        a.temp_c@ == b.temp_c@,
        a.co2_ppm@ == b.co2_ppm@,
        a.eco2_ppm@ == b.eco2_ppm@,
        a.rel_humidity_percent@ == b.rel_humidity_percent@,
        a.abs_humidity_grams_m3@ == b.abs_humidity_grams_m3@,
        a.pressure_hpa@ == b.pressure_hpa@,
        a.gas_resistance@ == b.gas_resistance@,
        a.tvoc_ppb@ == b.tvoc_ppb@,
        a.tvoc_iaq_index@ == b.tvoc_iaq_index@,
        a.nox_iaq_index@ == b.nox_iaq_index@,
        a.pm_conc@ == b.pm_conc@,
        a.pm_count@ == b.pm_count@,
        a.sensor_errors@ == b.sensor_errors@,
        a.sensor_reset_count@ == b.sensor_reset_count@,
    ensures
        spec_metrics_text(a) == spec_metrics_text(b),
{
}


/// JSON escaping of one character: quotes and backslashes are escaped,
/// everything else passes through.
pub open spec fn spec_esc_char(c: char) -> Seq<char> {
    if c == '"' {
        seq!['\\', '"']
    } else if c == '\\' {
        seq!['\\', '\\']
    } else {
        seq![c]
    }
}

/// JSON escaping of a string body.
pub open spec fn spec_escape(s: Seq<char>) -> Seq<char>
    decreases s.len(),
{
    if s.len() == 0 {
        Seq::empty()
    } else {
        spec_escape(s.drop_last()) + spec_esc_char(s.last())
    }
}

/// A JSON string literal: quoted, with its body escaped.
pub open spec fn spec_json_string(s: Seq<char>) -> Seq<char> {
    "\""@ + spec_escape(s) + "\""@
}

/// Append the JSON string form of `s`, quotes and escaping included.
pub fn append_json_string(s: &str, out: &mut String)
    ensures
        final(out)@ == old(out)@ + spec_json_string(s@),
{
    out.append("\"");
    let ghost opened = out@;
    let len = s.unicode_len();
    let mut i: usize = 0;
    while i < len
        invariant
            i <= len,
            len == s@.len(),
            out@ == opened + spec_escape(s@.subrange(0, i as int)),
        decreases len - i,
    {
        proof {
            assert(s@.subrange(0, i + 1).drop_last() =~= s@.subrange(0, i as int));
            assert(s@.subrange(0, i + 1).last() == s@[i as int]);
        }
        let c = s.get_char(i);
        if c == '"' {
            out.append("\\\"");
            proof {
                reveal_strlit("\\\"");
                assert(out@ =~= opened + spec_escape(s@.subrange(0, i + 1)));
            }
        } else if c == '\\' {
            out.append("\\\\");
            proof {
                reveal_strlit("\\\\");
                assert(out@ =~= opened + spec_escape(s@.subrange(0, i + 1)));
            }
        } else {
            let piece = s.substring_char(i, i + 1);
            out.append(piece);
            proof {
                assert(piece@ =~= seq![s@[i as int]]);
                assert(out@ =~= opened + spec_escape(s@.subrange(0, i + 1)));
            }
        }
        i += 1;
    }
    out.append("\"");
    proof {
        assert(s@.subrange(0, len as int) =~= s@);
        assert(out@ =~= old(out)@ + spec_json_string(s@));
    }
}

/// The sensor name a slot's entry is reported under in JSON.
pub open spec fn spec_label_sensor(l: MetricLabel) -> Seq<char> {
    match l {
        MetricLabel::Sensor(n) => n.spec_str(),
        MetricLabel::Diameter(d) => d.sensor.spec_str(),
    }
}

/// One JSON entry of a gauge family: `{"sensor":"NAME","value":1.234}`.
pub open spec fn spec_json_gauge_entry(entry: (MetricLabel, int)) -> Seq<char> {
    "{\"sensor\":\""@ + spec_label_sensor(entry.0) + "\",\"value\":"@ + spec_millis(entry.1)
        + "}"@
}

/// One JSON entry of a counter family.
pub open spec fn spec_json_counter_entry(entry: (MetricLabel, nat)) -> Seq<char> {
    "{\"sensor\":\""@ + spec_label_sensor(entry.0) + "\",\"value\":"@ + spec_dec(entry.1)
        + "}"@
}

/// Comma-separated JSON entries of a gauge family.
pub open spec fn spec_json_gauge_entries(entries: Seq<(MetricLabel, int)>) -> Seq<char>
    decreases entries.len(),
{
    if entries.len() == 0 {
        Seq::empty()
    } else if entries.len() == 1 {
        spec_json_gauge_entry(entries.last())
    } else {
        spec_json_gauge_entries(entries.drop_last()) + ","@ + spec_json_gauge_entry(entries.last())
    }
}

/// Comma-separated JSON entries of a counter family.
pub open spec fn spec_json_counter_entries(entries: Seq<(MetricLabel, nat)>) -> Seq<char>
    decreases entries.len(),
{
    if entries.len() == 0 {
        Seq::empty()
    } else if entries.len() == 1 {
        spec_json_counter_entry(entries.last())
    } else {
        spec_json_counter_entries(entries.drop_last()) + ","@ + spec_json_counter_entry(
            entries.last(),
        )
    }
}

/// A gauge family as a JSON pair: `"key":[entries]`, populated slots only.
pub open spec fn spec_json_gauge_family(key: Seq<char>, v: FamilyView<GaugeView>) -> Seq<char> {
    "\""@ + key + "\":["@ + spec_json_gauge_entries(spec_populated_gauges(v.labels, v.metrics))
        + "]"@
}

/// A counter family as a JSON pair.
pub open spec fn spec_json_counter_family(key: Seq<char>, v: FamilyView<CounterView>) -> Seq<
    char,
> {
    "\""@ + key + "\":["@ + spec_json_counter_entries(
        spec_populated_counters(v.labels, v.metrics),
    ) + "]"@
}

/// Append `"key":[...]` for a gauge family.
#[verifier::rlimit(50)]
fn fmt_gauge_family_json(key: &'static str, f: &GaugeFamily, out: &mut String)
    requires
        f.wf(),
    ensures
        final(out)@ == old(out)@ + spec_json_gauge_family(key@, f@),
{
    out.append("\"");
    out.append(key);
    out.append("\":[");
    let ghost opened = out@;
    let n = f.len();
    let mut i: usize = 0;
    let mut emitted = false;
    while i < n
        invariant
            i <= n,
            f.wf(),
            n == f@.labels.len(),
            n == f@.metrics.len(),
            emitted == (spec_populated_gauges(
                f@.labels.subrange(0, i as int),
                f@.metrics.subrange(0, i as int),
            ).len() > 0),
            out@ == opened + spec_json_gauge_entries(
                spec_populated_gauges(
                    f@.labels.subrange(0, i as int),
                    f@.metrics.subrange(0, i as int),
                ),
            ),
        decreases n - i,
    {
        proof {
            let pl = f@.labels.subrange(0, i + 1);
            let pm = f@.metrics.subrange(0, i + 1);
            assert(pl.drop_last() =~= f@.labels.subrange(0, i as int));
            assert(pm.drop_last() =~= f@.metrics.subrange(0, i as int));
            let entries = spec_populated_gauges(pl, pm);
            if pm.last().count > 0 {
                assert(entries.drop_last() =~= spec_populated_gauges(
                    pl.drop_last(),
                    pm.drop_last(),
                ));
            } else {
                assert(entries =~= spec_populated_gauges(pl.drop_last(), pm.drop_last()));
            }
        }
        if f.recorded_at(i) {
            if emitted {
                out.append(",");
            }
            let label = f.label_at(i);
            let value = f.value_at(i);
            out.append("{\"sensor\":\"");
            match label {
                MetricLabel::Sensor(sensor) => out.append(sensor.as_str()),
                MetricLabel::Diameter(d) => out.append(d.sensor.as_str()),
            }
            out.append("\",\"value\":");
            let vtext = fmt_millis(value);
            out.append(vtext.as_str());
            out.append("}");
            emitted = true;
            proof {
                assert(out@ =~= opened + spec_json_gauge_entries(
                    spec_populated_gauges(
                        f@.labels.subrange(0, i + 1),
                        f@.metrics.subrange(0, i + 1),
                    ),
                ));
            }
        }
        i += 1;
    }
    out.append("]");
    proof {
        assert(f@.labels.subrange(0, n as int) =~= f@.labels);
        assert(f@.metrics.subrange(0, n as int) =~= f@.metrics);
        assert(out@ =~= old(out)@ + spec_json_gauge_family(key@, f@));
    }
}

/// Append `"key":[...]` for a counter family.
#[verifier::rlimit(50)]
fn fmt_counter_family_json(key: &'static str, f: &CounterFamily, out: &mut String)
    requires
        f.wf(),
    ensures
        final(out)@ == old(out)@ + spec_json_counter_family(key@, f@),
{
    out.append("\"");
    out.append(key);
    out.append("\":[");
    let ghost opened = out@;
    let n = f.len();
    let mut i: usize = 0;
    let mut emitted = false;
    while i < n
        invariant
            i <= n,
            f.wf(),
            n == f@.labels.len(),
            n == f@.metrics.len(),
            emitted == (spec_populated_counters(
                f@.labels.subrange(0, i as int),
                f@.metrics.subrange(0, i as int),
            ).len() > 0),
            out@ == opened + spec_json_counter_entries(
                spec_populated_counters(
                    f@.labels.subrange(0, i as int),
                    f@.metrics.subrange(0, i as int),
                ),
            ),
        decreases n - i,
    {
        proof {
            let pl = f@.labels.subrange(0, i + 1);
            let pm = f@.metrics.subrange(0, i + 1);
            assert(pl.drop_last() =~= f@.labels.subrange(0, i as int));
            assert(pm.drop_last() =~= f@.metrics.subrange(0, i as int));
            let entries = spec_populated_counters(pl, pm);
            if pm.last().recorded {
                assert(entries.drop_last() =~= spec_populated_counters(
                    pl.drop_last(),
                    pm.drop_last(),
                ));
            } else {
                assert(entries =~= spec_populated_counters(pl.drop_last(), pm.drop_last()));
            }
        }
        if f.recorded_at(i) {
            if emitted {
                out.append(",");
            }
            let label = f.label_at(i);
            let value = f.value_at(i);
            out.append("{\"sensor\":\"");
            match label {
                MetricLabel::Sensor(sensor) => out.append(sensor.as_str()),
                MetricLabel::Diameter(d) => out.append(d.sensor.as_str()),
            }
            out.append("\",\"value\":");
            let vtext = fmt_u64(value);
            out.append(vtext.as_str());
            out.append("}");
            emitted = true;
            proof {
                assert(out@ =~= opened + spec_json_counter_entries(
                    spec_populated_counters(
                        f@.labels.subrange(0, i + 1),
                        f@.metrics.subrange(0, i + 1),
                    ),
                ));
            }
        }
        i += 1;
    }
    out.append("]");
    proof {
        assert(f@.labels.subrange(0, n as int) =~= f@.labels);
        assert(f@.metrics.subrange(0, n as int) =~= f@.metrics);
        assert(out@ =~= old(out)@ + spec_json_counter_family(key@, f@));
    }
}

/// The `location` JSON value: a string or `null`.
pub open spec fn spec_json_location(location: Option<Seq<char>>) -> Seq<char> {
    match location {
        Some(l) => spec_json_string(l),
        None => "null"@,
    }
}

/// The whole `metrics.json` body: every sensor-labeled family keyed by
/// its field name, populated slots only, and the configured location.
/// The particulate-matter families are not part of the JSON surface.
pub open spec fn spec_metrics_json(m: &SensorMetrics, location: Option<Seq<char>>) -> Seq<char> {
    "{"@ + spec_json_gauge_family("temp_c"@, m.temp_c@) + ","@ + spec_json_gauge_family(
        "co2_ppm"@,
        m.co2_ppm@,
    ) + ","@ + spec_json_gauge_family("eco2_ppm"@, m.eco2_ppm@) + ","@ + spec_json_gauge_family(
        "rel_humidity_percent"@,
        m.rel_humidity_percent@,
    ) + ","@ + spec_json_gauge_family("abs_humidity_grams_m3"@, m.abs_humidity_grams_m3@) + ","@
        + spec_json_gauge_family("pressure_hpa"@, m.pressure_hpa@) + ","@
        + spec_json_gauge_family("gas_resistance"@, m.gas_resistance@) + ","@
        + spec_json_gauge_family("tvoc_ppb"@, m.tvoc_ppb@) + ","@ + spec_json_gauge_family(
        "tvoc_iaq_index"@,
        m.tvoc_iaq_index@,
    ) + ","@ + spec_json_gauge_family("nox_iaq_index"@, m.nox_iaq_index@) + ","@
        + spec_json_counter_family("sensor_errors"@, m.sensor_errors@) + ","@
        + spec_json_counter_family("sensor_reset_count"@, m.sensor_reset_count@)
        + ",\"location\":"@ + spec_json_location(location) + "}"@
}

impl SensorMetrics {
    /// Render the `metrics.json` body.
    #[verifier::rlimit(50)]
    pub fn fmt_metrics_json(&self, location: Option<&String>) -> (r: String)
        requires
            self.wf(),
        ensures
            r@ == spec_metrics_json(
                self,
                match location {
                    Some(l) => Some(l@),
                    None => None,
                },
            ),
    {
        let mut out = String::new();
        out.append("{");
        fmt_gauge_family_json("temp_c", &self.temp_c, &mut out);
        out.append(",");
        fmt_gauge_family_json("co2_ppm", &self.co2_ppm, &mut out);
        out.append(",");
        fmt_gauge_family_json("eco2_ppm", &self.eco2_ppm, &mut out);
        out.append(",");
        fmt_gauge_family_json("rel_humidity_percent", &self.rel_humidity_percent, &mut out);
        out.append(",");
        fmt_gauge_family_json("abs_humidity_grams_m3", &self.abs_humidity_grams_m3, &mut out);
        out.append(",");
        fmt_gauge_family_json("pressure_hpa", &self.pressure_hpa, &mut out);
        out.append(",");
        fmt_gauge_family_json("gas_resistance", &self.gas_resistance, &mut out);
        out.append(",");
        fmt_gauge_family_json("tvoc_ppb", &self.tvoc_ppb, &mut out);
        out.append(",");
        fmt_gauge_family_json("tvoc_iaq_index", &self.tvoc_iaq_index, &mut out);
        out.append(",");
        fmt_gauge_family_json("nox_iaq_index", &self.nox_iaq_index, &mut out);
        out.append(",");
        fmt_counter_family_json("sensor_errors", &self.sensor_errors, &mut out);
        out.append(",");
        fmt_counter_family_json("sensor_reset_count", &self.sensor_reset_count, &mut out);
        out.append(",\"location\":");
        match location {
            Some(l) => append_json_string(l.as_str(), &mut out),
            None => out.append("null"),
        }
        out.append("}");
        proof {
            assert(out@ =~= spec_metrics_json(
                self,
                match location {
                    Some(l) => Some(l@),
                    None => None,
                },
            ));
        }
        out
    }
}

/// The static index page listing the served endpoints.
pub fn index_html() -> (r: &'static str) {
    "<!DOCTYPE html><html><head><title>ECLSS</title></head><body><h1>ECLSS</h1><ul><li><a href=\"/metrics\">Metrics (Prometheus)</a></li><li><a href=\"/metrics.json\">Metrics (JSON)</a></li><li><a href=\"/sensors.json\">Sensors (JSON)</a></li></ul></body></html>"
}

/// The plain-text body answered for unknown paths.
pub fn not_found_body() -> (r: &'static str) {
    "can't get ye flask"
}


/// JSON text of a boolean.
pub open spec fn spec_bool(b: bool) -> Seq<char> {
    if b {
        "true"@
    } else {
        "false"@
    }
}

/// One sensor's entry in `sensors.json`:
/// `"NAME":{"status":"...","found":...,"poll_interval":{"secs":...,"nanos":...}}`.
pub open spec fn spec_sensor_entry(name: SensorName, st: StateView) -> Seq<char> {
    "\""@ + name.spec_str() + "\":{\"status\":\""@ + st.status.spec_str() + "\",\"found\":"@
        + spec_bool(st.found) + ",\"poll_interval\":{\"secs\":"@ + spec_dec(
        (st.poll_interval_ms / 1000) as nat,
    ) + ",\"nanos\":"@ + spec_dec(((st.poll_interval_ms % 1000) * 1_000_000) as nat) + "}}"@
}

/// Comma-separated entries of `sensors.json`, in registration order.
pub open spec fn spec_sensor_entries(names: Seq<SensorName>, states: Seq<StateView>) -> Seq<char>
    decreases names.len(),
{
    if names.len() == 0 || names.len() != states.len() {
        Seq::empty()
    } else if names.len() == 1 {
        spec_sensor_entry(names.last(), states.last())
    } else {
        spec_sensor_entries(names.drop_last(), states.drop_last()) + ","@ + spec_sensor_entry(
            names.last(),
            states.last(),
        )
    }
}

/// The whole `sensors.json` body.
pub open spec fn spec_sensors_json(v: RegistryView) -> Seq<char> {
    "{"@ + spec_sensor_entries(v.names, v.states) + "}"@
}

impl Registry {
    /// Render the `sensors.json` body: status, found flag and poll
    /// cadence of every registered sensor, in registration order.
    #[verifier::rlimit(100)]
    #[verifier::spinoff_prover]
    pub fn fmt_sensors_json(&self) -> (r: String)
        requires
            self.wf(),
        ensures
            r@ == spec_sensors_json(self@),
    {
        let mut out = String::new();
        out.append("{");
        let ghost opened = out@;
        let n = self.len();
        let mut i: usize = 0;
        while i < n
            invariant
                i <= n,
                self.wf(),
                n == self@.names.len(),
                n == self@.states.len(),
                out@ == opened + spec_sensor_entries(
                    self@.names.subrange(0, i as int),
                    self@.states.subrange(0, i as int),
                ),
            decreases n - i,
        {
            proof {
                let pn = self@.names.subrange(0, i + 1);
                let ps = self@.states.subrange(0, i + 1);
                assert(pn.drop_last() =~= self@.names.subrange(0, i as int));
                assert(ps.drop_last() =~= self@.states.subrange(0, i as int));
            }
            if i > 0 {
                out.append(",");
            }
            let name = self.name_at(i);
            let status = self.status(i);
            let found = self.found(i);
            let poll_ms = self.poll_interval_ms(i);
            out.append("\"");
            out.append(name.as_str());
            out.append("\":{\"status\":\"");
            out.append(status.as_str());
            out.append("\",\"found\":");
            if found {
                out.append("true");
            } else {
                out.append("false");
            }
            out.append(",\"poll_interval\":{\"secs\":");
            let secs = fmt_u64(poll_ms / 1000);
            out.append(secs.as_str());
            out.append(",\"nanos\":");
            let nanos = fmt_u64((poll_ms % 1000) * 1_000_000);
            out.append(nanos.as_str());
            out.append("}}");
            proof {
                assert(out@ =~= opened + spec_sensor_entries(
                    self@.names.subrange(0, i + 1),
                    self@.states.subrange(0, i + 1),
                ));
            }
            i += 1;
        }
        out.append("}");
        proof {
            assert(self@.names.subrange(0, n as int) =~= self@.names);
            assert(self@.states.subrange(0, n as int) =~= self@.states);
            assert(out@ =~= spec_sensors_json(self@));
        }
        out
    }
}


/// The counter half of the same law: a counter slot that was ever added
/// to is rendered exactly once, an untouched one not at all.
pub proof fn lemma_populated_counters_exactly_once(
    labels: Seq<MetricLabel>,
    metrics: Seq<CounterView>,
    i: int,
)
    requires
        labels.len() == metrics.len(),
        labels.no_duplicates(),
        0 <= i < metrics.len(),
    ensures
        metrics[i].recorded ==> exists|j: int|
            #![trigger spec_populated_counters(labels, metrics)[j]]
            {
                let entries = spec_populated_counters(labels, metrics);
                &&& 0 <= j < entries.len()
                &&& entries[j] == (labels[i], metrics[i].value)
                &&& forall|k: int| 0 <= k < entries.len() && k != j ==> entries[k].0 != labels[i]
            },
        !metrics[i].recorded ==> forall|k: int|
            0 <= k < spec_populated_counters(labels, metrics).len() ==> (
            #[trigger] spec_populated_counters(labels, metrics)[k]).0 != labels[i],
    decreases metrics.len(),
{
    let entries = spec_populated_counters(labels, metrics);
    lemma_counter_label_from_slot(labels, metrics);
    if i == metrics.len() - 1 {
        if metrics[i].recorded {
            let j = entries.len() - 1;
            assert(entries[j] == (labels[i], metrics[i].value));
            lemma_counter_label_from_slot(labels.drop_last(), metrics.drop_last());
            assert(forall|k: int|
                0 <= k < entries.len() && k != j ==> entries[k].0 != labels[i]) by {
                assert(forall|k: int|
                    0 <= k < entries.len() - 1 ==> entries[k] == spec_populated_counters(
                        labels.drop_last(),
                        metrics.drop_last(),
                    )[k]);
                assert(forall|m: int|
                    0 <= m < labels.len() - 1 ==> labels[m] != labels[i]);
            }
        } else {
            lemma_counter_label_from_slot(labels.drop_last(), metrics.drop_last());
            assert(forall|m: int| 0 <= m < labels.len() - 1 ==> labels[m] != labels[i]);
        }
    } else {
        lemma_populated_counters_exactly_once(labels.drop_last(), metrics.drop_last(), i);
        let sub = spec_populated_counters(labels.drop_last(), metrics.drop_last());
        if metrics[i].recorded {
            let j = choose|j: int|
                {
                    &&& 0 <= j < sub.len()
                    &&& sub[j] == (labels[i], metrics[i].value)
                    &&& forall|k: int| 0 <= k < sub.len() && k != j ==> sub[k].0 != labels[i]
                };
            assert(entries[j] == (labels[i], metrics[i].value));
            if metrics.last().recorded {
                assert(entries[entries.len() - 1].0 == labels.last());
                assert(labels.last() != labels[i]);
            }
            assert(forall|k: int| 0 <= k < entries.len() && k != j ==> entries[k].0 != labels[i]);
        } else {
            if metrics.last().recorded {
                assert(labels.last() != labels[i]);
            }
        }
    }
}

/// Every rendered counter entry's label is the label of some slot.
#[verifier::rlimit(100)]
proof fn lemma_counter_label_from_slot(labels: Seq<MetricLabel>, metrics: Seq<CounterView>)
    ensures
        forall|k: int|
            0 <= k < spec_populated_counters(labels, metrics).len() ==> exists|m: int|
                0 <= m < labels.len() && labels[m] == (#[trigger] spec_populated_counters(
                    labels,
                    metrics,
                )[k]).0,
    decreases metrics.len(),
{
    if metrics.len() != 0 && labels.len() == metrics.len() {
        lemma_counter_label_from_slot(labels.drop_last(), metrics.drop_last());
        let sub = spec_populated_counters(labels.drop_last(), metrics.drop_last());
        let entries = spec_populated_counters(labels, metrics);
        assert(forall|k: int| 0 <= k < sub.len() ==> entries[k] == sub[k]);
        assert(forall|m: int|
            0 <= m < labels.len() - 1 ==> labels.drop_last()[m] == labels[m]);
        assert forall|k: int|
            0 <= k < spec_populated_counters(labels, metrics).len() implies exists|m: int|
            0 <= m < labels.len() && labels[m] == (#[trigger] spec_populated_counters(
                labels,
                metrics,
            )[k]).0 by {
            assert(spec_populated_counters(labels, metrics)[k] == entries[k]);
            if k < sub.len() {
                assert(entries[k] == sub[k]);
                let m = choose|m: int|
                    0 <= m < labels.drop_last().len() && labels.drop_last()[m] == sub[k].0;
                assert(0 <= m < labels.len() - 1);
                assert(labels.drop_last()[m] == labels[m]);
                assert(labels[m] == entries[k].0);
            } else {
                assert(metrics.last().recorded);
                assert(entries =~= sub + seq![(labels.last(), metrics.last().value)]);
                assert(entries[k].0 == labels[labels.len() - 1]);
            }
        }
    } else {
        assert(spec_populated_counters(labels, metrics) =~= Seq::<(MetricLabel, nat)>::empty());
    }
}

} // verus!
