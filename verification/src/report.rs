//! What each command prints.
//!
//! The commands fetch resources and print lines; which lines, in what words,
//! and what gets flagged is decided here.

use vstd::prelude::*;
use crate::client::{Json, text_field, text_or};
use crate::models::{is_absent_state, is_ok_health, present_status, Fan, Power, Status, System, Temperature, Thermal, Voltage};
use crate::snapshot::{below_floor, near_ceiling, is_near_ceiling};
use crate::text::{
    copy, decimal, hundredths, join, owned, pad_left, pad_right, push_decimal, push_hundredths,
    push_padded_left, push_padded_right, push_signed, push_two_digits, push_whole, signed_decimal,
    starts_with_char, trim, trimmed, two_digits, views, whole, join_strings,
};

verus! {

broadcast use vstd::string::group_string_axioms;

/// The text of an optional string, or `default`.
pub open spec fn text_or_default(o: Option<String>, default: Seq<char>) -> Seq<char> {
    match o {
        Some(s) => s@,
        None => default,
    }
}

fn text_of(o: &Option<String>, default: &str) -> (r: String)
    ensures
        r@ == text_or_default(*o, default@),
{
    match o {
        Some(s) => copy(s),
        None => owned(default),
    }
}

/// Whether an optional status reads as present; none at all counts as present.
pub fn present(s: &Option<Status>) -> (r: bool)
    ensures
        r == present_status(*s),
{
    match s {
        Some(x) => x.is_present(),
        None => true,
    }
}

/// The health word of a status: its health, else its state, else `-`.
pub open spec fn health_label(s: Option<Status>) -> Seq<char> {
    match s {
        None => "-"@,
        Some(st) => match st.health {
            Some(h) => h@,
            None => text_or_default(st.state, "-"@),
        },
    }
}

/// The mark after a sensor whose BMC reports it present and unhealthy.
pub open spec fn health_mark(s: Option<Status>) -> Seq<char> {
    match s {
        Some(st) => if !is_absent_state(st.state) && !is_ok_health(st.health) {
            "   <-- CHECK"@
        } else {
            ""@
        },
        None => ""@,
    }
}

/// A sensor's health word and, for a present sensor that is not healthy, the
/// mark that draws the eye to it. An absent sensor is not a fault.
pub fn health_of(s: &Option<Status>) -> (r: (String, &'static str))
    ensures
        r.0@ == health_label(*s),
        r.1@ == health_mark(*s),
{
    match s {
        None => (owned("-"), ""),
        Some(st) => {
            let label = match &st.health {
                Some(h) => copy(h),
                None => text_of(&st.state, "-"),
            };
            let mark = if st.is_present() && !st.is_ok() {
                "   <-- CHECK"
            } else {
                ""
            };
            (label, mark)
        },
    }
}

// ---------------------------------------------------------------- status ---

/// The power line of `status`.
pub open spec fn power_piece(sys: System) -> Seq<Seq<char>> {
    seq!["  power        "@ + text_or_default(sys.power_state, "?"@)]
}

/// The health line of `status`: the system's health, else its state.
pub open spec fn health_piece(sys: System) -> Seq<Seq<char>> {
    match sys.status {
        Some(st) => seq![
            "  health       "@ + match st.health {
                Some(h) => h@,
                None => text_or_default(st.state, "?"@),
            },
        ],
        None => Seq::empty(),
    }
}

/// The machine line of `status`, when both maker and model are known.
pub open spec fn model_piece(sys: System) -> Seq<Seq<char>> {
    match (sys.manufacturer, sys.model) {
        (Some(m), Some(mo)) => seq!["  machine      "@ + trim(m@) + " "@ + trim(mo@)],
        _ => Seq::empty(),
    }
}

/// The serial and BIOS lines of `status`.
pub open spec fn serial_piece(sys: System) -> Seq<Seq<char>> {
    (match sys.serial_number {
        Some(sn) => seq!["  serial       "@ + trim(sn@)],
        None => Seq::empty(),
    }) + (match sys.bios_version {
        Some(b) => seq!["  bios         "@ + trim(b@)],
        None => Seq::empty(),
    })
}

/// The CPU line of `status`: the count, then the model when there is one.
pub open spec fn cpu_piece(sys: System) -> Seq<Seq<char>> {
    match sys.processor_summary {
        Some(p) => {
            let model = trim(text_or_default(p.model, ""@));
            let count = match p.count {
                Some(c) => decimal(c as nat),
                None => Seq::empty(),
            };
            if model.len() == 0 {
                seq!["  cpus         "@ + count]
            } else {
                seq!["  cpus         "@ + count + "  "@ + model]
            }
        },
        None => Seq::empty(),
    }
}

/// The memory line of `status`.
pub open spec fn memory_piece(sys: System) -> Seq<Seq<char>> {
    match sys.memory_summary {
        Some(m) => match m.total_system_memory_gib_milli {
            Some(g) => seq!["  memory       "@ + whole(g as int) + " GiB"@],
            None => Seq::empty(),
        },
        None => Seq::empty(),
    }
}

/// The machine part of `status`: power, health, model, serial, BIOS, CPUs and memory.
pub open spec fn machine_report(sys: System) -> Seq<Seq<char>> {
    power_piece(sys) + health_piece(sys) + model_piece(sys) + serial_piece(sys) + cpu_piece(sys)
        + memory_piece(sys)
}

fn push_line(lines: &mut Vec<String>, s: String)
    ensures
        views(final(lines)@) == views(old(lines)@).push(s@),
{
    lines.push(s);
    assert(views(lines@) =~= views(old(lines)@).push(s@));
}

fn line_with(prefix: &str, rest: &str) -> (r: String)
    ensures
        r@ == prefix@ + rest@,
{
    let mut r = owned(prefix);
    r.append(rest);
    r
}

fn power_lines(sys: &System, lines: &mut Vec<String>)
    ensures
        views(final(lines)@) == views(old(lines)@) + power_piece(*sys),
{
    let p = text_of(&sys.power_state, "?");
    push_line(lines, line_with("  power        ", p.as_str()));
}

fn health_lines(sys: &System, lines: &mut Vec<String>)
    ensures
        views(final(lines)@) == views(old(lines)@) + health_piece(*sys),
{
    match &sys.status {
        Some(st) => {
            let h = match &st.health {
                Some(h) => copy(h),
                None => text_of(&st.state, "?"),
            };
            push_line(lines, line_with("  health       ", h.as_str()));
        },
        None => {
            assert(views(lines@) =~= views(old(lines)@) + health_piece(*sys));
        },
    }
}

fn model_lines(sys: &System, lines: &mut Vec<String>)
    ensures
        views(final(lines)@) == views(old(lines)@) + model_piece(*sys),
{
    match (&sys.manufacturer, &sys.model) {
        (Some(m), Some(mo)) => {
            let mut l = owned("  machine      ");
            let tm = trimmed(m.as_str());
            let tmo = trimmed(mo.as_str());
            l.append(tm.as_str());
            l.append(" ");
            l.append(tmo.as_str());
            push_line(lines, l);
        },
        _ => {
            assert(views(lines@) =~= views(old(lines)@) + model_piece(*sys));
        },
    }
}

fn serial_lines(sys: &System, lines: &mut Vec<String>)
    ensures
        views(final(lines)@) == views(old(lines)@) + serial_piece(*sys),
{
    let ghost start = views(lines@);
    match &sys.serial_number {
        Some(sn) => {
            let t = trimmed(sn.as_str());
            push_line(lines, line_with("  serial       ", t.as_str()));
        },
        None => {},
    }
    let ghost mid = views(lines@);
    match &sys.bios_version {
        Some(bv) => {
            let t = trimmed(bv.as_str());
            push_line(lines, line_with("  bios         ", t.as_str()));
        },
        None => {},
    }
    assert(views(lines@) =~= start + serial_piece(*sys));
}

fn cpu_lines(sys: &System, lines: &mut Vec<String>)
    ensures
        views(final(lines)@) == views(old(lines)@) + cpu_piece(*sys),
{
    match &sys.processor_summary {
        Some(p) => {
            let m = text_of(&p.model, "");
            let model = trimmed(m.as_str());
            let mut l = owned("  cpus         ");
            let ghost l0 = l@;
            match p.count {
                Some(cnt) => push_decimal(&mut l, cnt as u64),
                None => {
                    assert(l@ =~= l0 + Seq::<char>::empty());
                },
            }
            if !model.as_str().is_empty() {
                l.append("  ");
                l.append(model.as_str());
            }
            push_line(lines, l);
        },
        None => {
            assert(views(lines@) =~= views(old(lines)@) + cpu_piece(*sys));
        },
    }
}

fn memory_lines(sys: &System, lines: &mut Vec<String>)
    ensures
        views(final(lines)@) == views(old(lines)@) + memory_piece(*sys),
{
    match &sys.memory_summary {
        Some(m) => match m.total_system_memory_gib_milli {
            Some(g) => {
                let mut l = owned("  memory       ");
                push_whole(&mut l, g);
                l.append(" GiB");
                push_line(lines, l);
            },
            None => {
                assert(views(lines@) =~= views(old(lines)@) + memory_piece(*sys));
            },
        },
        None => {
            assert(views(lines@) =~= views(old(lines)@) + memory_piece(*sys));
        },
    }
}

fn machine_lines(sys: &System, lines: &mut Vec<String>)
    ensures
        views(final(lines)@) == views(old(lines)@) + machine_report(*sys),
{
    let ghost start = views(lines@);
    power_lines(sys, lines);
    health_lines(sys, lines);
    model_lines(sys, lines);
    serial_lines(sys, lines);
    cpu_lines(sys, lines);
    memory_lines(sys, lines);
    assert(start + power_piece(*sys) + health_piece(*sys) + model_piece(*sys) + serial_piece(*sys)
        + cpu_piece(*sys) + memory_piece(*sys) =~= start + machine_report(*sys));
}

/// The capacity part of the consumption line: the power supply's rating, when
/// it is a plausible one (under 100 kW).
pub open spec fn capacity_text(cap: Option<i64>) -> Seq<char> {
    match cap {
        Some(c) => if 0 < c && c < 100_000_000 {
            " of "@ + whole(c as int) + " W"@
        } else {
            Seq::empty()
        },
        None => Seq::empty(),
    }
}

/// The BMC's own average and range, when it reports all of them.
pub open spec fn metrics_text(m: Option<crate::models::PowerMetrics>) -> Seq<char> {
    match m {
        Some(m) => match (
            m.average_consumed_watts_milli,
            m.min_consumed_watts_milli,
            m.max_consumed_watts_milli,
            m.interval_in_min,
        ) {
            (Some(avg), Some(lo), Some(hi), Some(min)) => "   (avg "@ + whole(avg as int) + ", "@
                + whole(lo as int) + "-"@ + whole(hi as int) + " over "@ + decimal(min as nat)
                + " min)"@,
            _ => Seq::empty(),
        },
        None => Seq::empty(),
    }
}

/// The consumption line of `status`, when the first power-control entry has a
/// reading.
pub open spec fn consumption_report(power: Option<Power>) -> Seq<Seq<char>> {
    match power {
        Some(p) => if p.power_control@.len() > 0 && p.power_control@[0].power_consumed_watts_milli is Some {
            let pc = p.power_control@[0];
            seq![
                "  consumption  "@ + whole(pc.power_consumed_watts_milli->0 as int) + " W"@
                    + capacity_text(pc.power_capacity_watts_milli) + metrics_text(pc.power_metrics),
            ]
        } else {
            Seq::empty()
        },
        None => Seq::empty(),
    }
}

fn push_capacity(l: &mut String, cap: Option<i64>)
    ensures
        final(l)@ == old(l)@ + capacity_text(cap),
{
    match cap {
        Some(c) => {
            if 0 < c && c < 100_000_000 {
                l.append(" of ");
                push_whole(l, c);
                l.append(" W");
                assert(l@ =~= old(l)@ + capacity_text(cap));
            } else {
                assert(l@ =~= old(l)@ + capacity_text(cap));
            }
        },
        None => {
            assert(l@ =~= old(l)@ + capacity_text(cap));
        },
    }
}

fn push_metrics(l: &mut String, m: &Option<crate::models::PowerMetrics>)
    ensures
        final(l)@ == old(l)@ + metrics_text(*m),
{
    match m {
        Some(m) => match (
            m.average_consumed_watts_milli,
            m.min_consumed_watts_milli,
            m.max_consumed_watts_milli,
            m.interval_in_min,
        ) {
            (Some(avg), Some(lo), Some(hi), Some(min)) => {
                l.append("   (avg ");
                push_whole(l, avg);
                l.append(", ");
                push_whole(l, lo);
                l.append("-");
                push_whole(l, hi);
                l.append(" over ");
                push_decimal(l, min as u64);
                l.append(" min)");
                assert(l@ =~= old(l)@ + metrics_text(Some(*m)));
            },
            _ => {
                assert(l@ =~= old(l)@ + metrics_text(Some(*m)));
            },
        },
        None => {
            assert(l@ =~= old(l)@ + metrics_text(None));
        },
    }
}

fn consumption_lines(power: Option<&Power>, lines: &mut Vec<String>)
    ensures
        views(final(lines)@) == views(old(lines)@) + consumption_report(opt_power(power)),
{
    let ghost start = views(lines@);
    match power {
        Some(p) => {
            if p.power_control.len() > 0 {
                let pc = &p.power_control[0];
                match pc.power_consumed_watts_milli {
                    Some(w) => {
                        let mut l = owned("  consumption  ");
                        push_whole(&mut l, w);
                        l.append(" W");
                        push_capacity(&mut l, pc.power_capacity_watts_milli);
                        push_metrics(&mut l, &pc.power_metrics);
                        push_line(lines, l);
                        return;
                    },
                    None => {},
                }
            }
        },
        None => {},
    }
    assert(views(lines@) =~= start + consumption_report(opt_power(power)));
}

/// The value behind an optional reference to a power resource.
pub open spec fn opt_power(p: Option<&Power>) -> Option<Power> {
    match p {
        Some(x) => Some(*x),
        None => None,
    }
}

/// The value behind an optional reference to a thermal resource.
pub open spec fn opt_thermal(t: Option<&Thermal>) -> Option<Thermal> {
    match t {
        Some(x) => Some(*x),
        None => None,
    }
}

/// A fan the BMC reports present but not healthy.
pub open spec fn fan_faulty(f: Fan) -> bool {
    match f.status {
        Some(st) => !is_absent_state(st.state) && !is_ok_health(st.health),
        None => false,
    }
}

/// How a faulty fan is named in `status`: `"{name} at {reading} RPM"`.
pub open spec fn fault_text(f: Fan) -> Seq<char> {
    text_or_default(f.name, "?"@) + " at "@ + signed_decimal(
        match f.reading {
            Some(v) => v as int,
            None => 0,
        },
    ) + " RPM"@
}

/// The faulty fans, in order.
pub open spec fn faulty_fans(fans: Seq<Fan>) -> Seq<Seq<char>>
    decreases fans.len(),
{
    if fans.len() == 0 {
        Seq::empty()
    } else {
        faulty_fans(fans.drop_last()) + if fan_faulty(fans.last()) {
            seq![fault_text(fans.last())]
        } else {
            Seq::empty()
        }
    }
}

/// How many fans read as present.
pub open spec fn present_fans(fans: Seq<Fan>) -> nat
    decreases fans.len(),
{
    if fans.len() == 0 {
        0
    } else {
        present_fans(fans.drop_last()) + if present_status(fans.last().status) {
            1nat
        } else {
            0nat
        }
    }
}

/// A temperature that can be the hottest: present, named and with a reading.
pub open spec fn hot_candidate(t: Temperature) -> bool {
    present_status(t.status) && t.name is Some && t.reading_celsius_milli is Some
}

/// The hottest candidate and its reading (thousandths of a degree); among
/// equal readings the last one, as `Iterator::max_by` picks.
pub open spec fn hottest_of(temps: Seq<Temperature>) -> Option<(Seq<char>, i64)>
    decreases temps.len(),
{
    if temps.len() == 0 {
        None
    } else {
        let best = hottest_of(temps.drop_last());
        let t = temps.last();
        if hot_candidate(t) && (match best {
            Some(b) => t.reading_celsius_milli->0 >= b.1,
            None => true,
        }) {
            Some((t.name->0@, t.reading_celsius_milli->0))
        } else {
            best
        }
    }
}

fn faulty_fan_list(fans: &Vec<Fan>) -> (r: Vec<String>)
    ensures
        views(r@) == faulty_fans(fans@),
{
    let mut r: Vec<String> = Vec::new();
    let mut i: usize = 0;
    while i < fans.len()
        invariant
            i <= fans@.len(),
            views(r@) == faulty_fans(fans@.take(i as int)),
        decreases fans@.len() - i,
    {
        let f = &fans[i];
        assert(fans@.take(i + 1).drop_last() =~= fans@.take(i as int));
        let bad = match &f.status {
            Some(st) => st.is_present() && !st.is_ok(),
            None => false,
        };
        if bad {
            let mut t = text_of(&f.name, "?");
            t.append(" at ");
            let v = match f.reading {
                Some(v) => v,
                None => 0,
            };
            push_signed(&mut t, v);
            t.append(" RPM");
            push_line(&mut r, t);
        }
        i = i + 1;
        assert(views(r@) =~= faulty_fans(fans@.take(i as int)));
    }
    assert(fans@.take(fans@.len() as int) =~= fans@);
    r
}

fn count_present_fans(fans: &Vec<Fan>) -> (r: u64)
    ensures
        r as nat == present_fans(fans@),
{
    let mut n: u64 = 0;
    let mut i: usize = 0;
    while i < fans.len()
        invariant
            i <= fans@.len(),
            n as nat == present_fans(fans@.take(i as int)),
            n <= i,
        decreases fans@.len() - i,
    {
        assert(fans@.take(i + 1).drop_last() =~= fans@.take(i as int));
        if present(&fans[i].status) {
            n = n + 1;
        }
        i = i + 1;
    }
    assert(fans@.take(fans@.len() as int) =~= fans@);
    n
}

/// The hottest present temperature sensor with a name and a reading.
pub fn hottest(temps: &Vec<Temperature>) -> (r: Option<(String, i64)>)
    ensures
        match r {
            Some(h) => hottest_of(temps@) == Some((h.0@, h.1)),
            None => hottest_of(temps@) is None,
        },
{
    let mut best: Option<usize> = None;
    let mut i: usize = 0;
    while i < temps.len()
        invariant
            i <= temps@.len(),
            match best {
                Some(k) => k < i && hot_candidate(temps@[k as int]) && hottest_of(temps@.take(i as int))
                    == Some((temps@[k as int].name->0@, temps@[k as int].reading_celsius_milli->0)),
                None => hottest_of(temps@.take(i as int)) is None,
            },
        decreases temps@.len() - i,
    {
        assert(temps@.take(i + 1).drop_last() =~= temps@.take(i as int));
        let t = &temps[i];
        let cand = present(&t.status) && t.name.is_some() && t.reading_celsius_milli.is_some();
        if cand {
            let v = t.reading_celsius_milli.unwrap();
            let better = match best {
                Some(k) => v >= temps[k].reading_celsius_milli.unwrap(),
                None => true,
            };
            if better {
                best = Some(i);
            }
        }
        i = i + 1;
    }
    assert(temps@.take(temps@.len() as int) =~= temps@);
    match best {
        Some(k) => {
            let t = &temps[k];
            let name = match &t.name {
                Some(n) => copy(n),
                None => String::new(),
            };
            let v = match t.reading_celsius_milli {
                Some(v) => v,
                None => 0,
            };
            Some((name, v))
        },
        None => None,
    }
}

/// The hottest line of `status`.
pub open spec fn hottest_piece(t: Thermal) -> Seq<Seq<char>> {
    match hottest_of(t.temperatures@) {
        Some(h) => seq!["  hottest      "@ + h.0 + " "@ + whole(h.1 as int) + " C"@],
        None => Seq::empty(),
    }
}

/// The fans line of `status`: how many are present when all are fine,
/// otherwise which ones are faulty.
pub open spec fn fans_piece(t: Thermal) -> Seq<Seq<char>> {
    let faulty = faulty_fans(t.fans@);
    if faulty.len() == 0 {
        seq!["  fans         "@ + decimal(present_fans(t.fans@)) + " present, all OK"@]
    } else {
        seq!["  fans         "@ + decimal(faulty.len()) + " FAULTY: "@ + join(faulty, ", "@)]
    }
}

/// The thermal part of `status`, when the thermal resource could be read.
pub open spec fn thermal_report(t: Option<Thermal>) -> Seq<Seq<char>> {
    match t {
        Some(t) => hottest_piece(t) + fans_piece(t),
        None => Seq::empty(),
    }
}

fn thermal_lines(thermal: Option<&Thermal>, lines: &mut Vec<String>)
    ensures
        views(final(lines)@) == views(old(lines)@) + thermal_report(opt_thermal(thermal)),
{
    let ghost start = views(lines@);
    match thermal {
        Some(th) => {
            let faulty = faulty_fan_list(&th.fans);
            match hottest(&th.temperatures) {
                Some((name, deg)) => {
                    let mut l = owned("  hottest      ");
                    l.append(name.as_str());
                    l.append(" ");
                    push_whole(&mut l, deg);
                    l.append(" C");
                    push_line(lines, l);
                },
                None => {},
            }
            let ghost mid = views(lines@);
            assert(mid =~= start + hottest_piece(*th));
            let live = count_present_fans(&th.fans);
            if faulty.len() == 0 {
                let mut l = owned("  fans         ");
                push_decimal(&mut l, live);
                l.append(" present, all OK");
                push_line(lines, l);
            } else {
                let mut l = owned("  fans         ");
                push_decimal(&mut l, faulty.len() as u64);
                l.append(" FAULTY: ");
                let j = join_strings(&faulty, ", ");
                l.append(j.as_str());
                push_line(lines, l);
            }
            assert(views(lines@) =~= start + thermal_report(opt_thermal(thermal)));
        },
        None => {
            assert(views(lines@) =~= start + thermal_report(opt_thermal(thermal)));
        },
    }
}

/// Everything `status` prints, between two blank lines: the machine, then the
/// chassis' consumption and thermals when they could be read, so that one
/// command answers "is it fine?".
pub open spec fn status_report(sys: System, power: Option<Power>, thermal: Option<Thermal>) -> Seq<Seq<char>> {
    seq![Seq::empty()] + machine_report(sys) + consumption_report(power) + thermal_report(thermal)
        + seq![Seq::empty()]
}

/// The lines of `status`.
pub fn status_lines(sys: &System, power: Option<&Power>, thermal: Option<&Thermal>) -> (r: Vec<String>)
    ensures
        views(r@) == status_report(*sys, opt_power(power), opt_thermal(thermal)),
{
    let mut r: Vec<String> = Vec::new();
    push_line(&mut r, String::new());
    machine_lines(sys, &mut r);
    consumption_lines(power, &mut r);
    thermal_lines(thermal, &mut r);
    push_line(&mut r, String::new());
    assert(views(r@) =~= status_report(*sys, opt_power(power), opt_thermal(thermal)));
    r
}

// --------------------------------------------------------------- sensors ---

/// Which groups `sensors` lists: no flag at all means every group.
pub fn sensor_selection(temps: bool, fans: bool, volts: bool) -> (r: (bool, bool, bool))
    ensures
        !temps && !fans && !volts ==> r == (true, true, true),
        temps || fans || volts ==> r == (temps, fans, volts),
{
    if !temps && !fans && !volts {
        (true, true, true)
    } else {
        (temps, fans, volts)
    }
}

/// Whether a sensor is listed: absent ones only with `--all`.
pub open spec fn listed(s: Option<Status>, all: bool) -> bool {
    present_status(s) || all
}

/// Whether the BMC itself flags the sensor: present and not healthy.
pub open spec fn flagged(s: Option<Status>) -> bool {
    match s {
        Some(st) => !is_absent_state(st.state) && !is_ok_health(st.health),
        None => false,
    }
}

/// One row of the sensor listing: name, reading, health word and mark.
pub open spec fn row_text(name: Seq<char>, reading: Seq<char>, state: Seq<char>, mark: Seq<char>) -> Seq<char> {
    "  "@ + pad_right(name, 22) + " "@ + pad_left(reading, 8) + "   "@ + state + mark
}

/// The row for a temperature. Health only flips once a threshold is crossed,
/// so a reading within 10% of its ceiling is marked while there is still time.
pub open spec fn temperature_row(t: Temperature) -> Seq<char> {
    let r = match t.reading_celsius_milli {
        Some(v) => whole(v as int) + " C"@,
        None => "-"@,
    };
    let mark = if flagged(t.status) {
        "   <-- CHECK"@
    } else if near_ceiling(t.reading_celsius_milli, t.upper_threshold_critical_milli) {
        "   <-- near limit"@
    } else {
        ""@
    };
    row_text(text_or_default(t.name, "?"@), r, health_label(t.status), mark)
}

/// The row for a fan. A fan still turning but at or under its critical floor
/// is on its way out, and is marked before it stops. The unit comes from the
/// BMC: some report a duty cycle rather than RPM.
pub open spec fn fan_row(f: Fan) -> Seq<char> {
    let unit = text_or_default(f.reading_units, "RPM"@);
    let r = match f.reading {
        Some(v) => signed_decimal(v as int) + " "@ + unit,
        None => "-"@,
    };
    let mark = if flagged(f.status) {
        "   <-- CHECK"@
    } else if below_floor(f.reading, f.lower_threshold_critical) {
        "   <-- below floor"@
    } else {
        ""@
    };
    row_text(text_or_default(f.name, "?"@), r, health_label(f.status), mark)
}

/// The row for a voltage, with two decimals.
pub open spec fn voltage_row(v: Voltage) -> Seq<char> {
    let r = match v.reading_volts_milli {
        Some(x) => hundredths(x as int) + " V"@,
        None => "-"@,
    };
    row_text(text_or_default(v.name, "?"@), r, health_label(v.status), health_mark(v.status))
}

/// The temperature rows that are listed.
pub open spec fn temperature_rows(ts: Seq<Temperature>, all: bool) -> Seq<Seq<char>>
    decreases ts.len(),
{
    if ts.len() == 0 {
        Seq::empty()
    } else {
        temperature_rows(ts.drop_last(), all) + if listed(ts.last().status, all) {
            seq![temperature_row(ts.last())]
        } else {
            Seq::empty()
        }
    }
}

/// The fan rows that are listed.
pub open spec fn fan_rows(fs: Seq<Fan>, all: bool) -> Seq<Seq<char>>
    decreases fs.len(),
{
    if fs.len() == 0 {
        Seq::empty()
    } else {
        fan_rows(fs.drop_last(), all) + if listed(fs.last().status, all) {
            seq![fan_row(fs.last())]
        } else {
            Seq::empty()
        }
    }
}

/// The voltage rows that are listed.
pub open spec fn voltage_rows(vs: Seq<Voltage>, all: bool) -> Seq<Seq<char>>
    decreases vs.len(),
{
    if vs.len() == 0 {
        Seq::empty()
    } else {
        voltage_rows(vs.drop_last(), all) + if listed(vs.last().status, all) {
            seq![voltage_row(vs.last())]
        } else {
            Seq::empty()
        }
    }
}

fn row_line(name: &str, reading: &str, state: &str, mark: &str) -> (r: String)
    ensures
        r@ == row_text(name@, reading@, state@, mark@),
{
    let mut r = owned("  ");
    push_padded_right(&mut r, name, 22);
    r.append(" ");
    push_padded_left(&mut r, reading, 8);
    r.append("   ");
    r.append(state);
    r.append(mark);
    r
}

fn is_flagged(s: &Option<Status>) -> (r: bool)
    ensures
        r == flagged(*s),
{
    match s {
        Some(st) => st.is_present() && !st.is_ok(),
        None => false,
    }
}

fn temperature_line(t: &Temperature) -> (r: String)
    ensures
        r@ == temperature_row(*t),
{
    let (st, _) = health_of(&t.status);
    let reading = match t.reading_celsius_milli {
        Some(v) => {
            let mut x = String::new();
            push_whole(&mut x, v);
            x.append(" C");
            x
        },
        None => owned("-"),
    };
    let mark = if is_flagged(&t.status) {
        "   <-- CHECK"
    } else if is_near_ceiling(t.reading_celsius_milli, t.upper_threshold_critical_milli) {
        "   <-- near limit"
    } else {
        ""
    };
    let name = text_of(&t.name, "?");
    proof {
        if t.reading_celsius_milli is Some {
            assert(reading@ =~= whole(t.reading_celsius_milli->0 as int) + " C"@);
        }
    }
    row_line(name.as_str(), reading.as_str(), st.as_str(), mark)
}

fn fan_line(f: &Fan) -> (r: String)
    ensures
        r@ == fan_row(*f),
{
    let (st, _) = health_of(&f.status);
    let unit = text_of(&f.reading_units, "RPM");
    let reading = match f.reading {
        Some(v) => {
            let mut x = String::new();
            push_signed(&mut x, v);
            x.append(" ");
            x.append(unit.as_str());
            x
        },
        None => owned("-"),
    };
    let mark = if is_flagged(&f.status) {
        "   <-- CHECK"
    } else if crate::snapshot::is_below_floor(f.reading, f.lower_threshold_critical) {
        "   <-- below floor"
    } else {
        ""
    };
    let name = text_of(&f.name, "?");
    proof {
        if f.reading is Some {
            assert(reading@ =~= signed_decimal(f.reading->0 as int) + " "@ + unit@);
        }
    }
    row_line(name.as_str(), reading.as_str(), st.as_str(), mark)
}

fn voltage_line(v: &Voltage) -> (r: String)
    ensures
        r@ == voltage_row(*v),
{
    let (st, mark) = health_of(&v.status);
    let reading = match v.reading_volts_milli {
        Some(x) => {
            let mut t = String::new();
            push_hundredths(&mut t, x);
            t.append(" V");
            t
        },
        None => owned("-"),
    };
    let name = text_of(&v.name, "?");
    proof {
        if v.reading_volts_milli is Some {
            assert(reading@ =~= hundredths(v.reading_volts_milli->0 as int) + " V"@);
        }
    }
    row_line(name.as_str(), reading.as_str(), st.as_str(), mark)
}

/// The temperature section of `sensors`: a heading, then the listed rows.
pub fn temperature_lines(th: &Thermal, all: bool) -> (r: Vec<String>)
    ensures
        views(r@) == seq!["\n  temperature              reading   state"@] + temperature_rows(th.temperatures@, all),
{
    let mut r: Vec<String> = Vec::new();
    push_line(&mut r, owned("\n  temperature              reading   state"));
    let ghost head = views(r@);
    let ts = &th.temperatures;
    let mut i: usize = 0;
    while i < ts.len()
        invariant
            i <= ts@.len(),
            views(r@) == head + temperature_rows(ts@.take(i as int), all),
        decreases ts@.len() - i,
    {
        assert(ts@.take(i + 1).drop_last() =~= ts@.take(i as int));
        if present(&ts[i].status) || all {
            let l = temperature_line(&ts[i]);
            push_line(&mut r, l);
        }
        i = i + 1;
        assert(views(r@) =~= head + temperature_rows(ts@.take(i as int), all));
    }
    assert(ts@.take(ts@.len() as int) =~= ts@);
    r
}

/// The fan section of `sensors`: a heading, then the listed rows.
pub fn fan_lines(th: &Thermal, all: bool) -> (r: Vec<String>)
    ensures
        views(r@) == seq!["\n  fan                      reading   state"@] + fan_rows(th.fans@, all),
{
    let mut r: Vec<String> = Vec::new();
    push_line(&mut r, owned("\n  fan                      reading   state"));
    let ghost head = views(r@);
    let fs = &th.fans;
    let mut i: usize = 0;
    while i < fs.len()
        invariant
            i <= fs@.len(),
            views(r@) == head + fan_rows(fs@.take(i as int), all),
        decreases fs@.len() - i,
    {
        assert(fs@.take(i + 1).drop_last() =~= fs@.take(i as int));
        if present(&fs[i].status) || all {
            let l = fan_line(&fs[i]);
            push_line(&mut r, l);
        }
        i = i + 1;
        assert(views(r@) =~= head + fan_rows(fs@.take(i as int), all));
    }
    assert(fs@.take(fs@.len() as int) =~= fs@);
    r
}

/// The voltage section of `sensors`: a heading, then the listed rows.
pub fn voltage_lines(pw: &Power, all: bool) -> (r: Vec<String>)
    ensures
        views(r@) == seq!["\n  voltage                  reading   state"@] + voltage_rows(pw.voltages@, all),
{
    let mut r: Vec<String> = Vec::new();
    push_line(&mut r, owned("\n  voltage                  reading   state"));
    let ghost head = views(r@);
    let vs = &pw.voltages;
    let mut i: usize = 0;
    while i < vs.len()
        invariant
            i <= vs@.len(),
            views(r@) == head + voltage_rows(vs@.take(i as int), all),
        decreases vs@.len() - i,
    {
        assert(vs@.take(i + 1).drop_last() =~= vs@.take(i as int));
        if present(&vs[i].status) || all {
            let l = voltage_line(&vs[i]);
            push_line(&mut r, l);
        }
        i = i + 1;
        assert(views(r@) =~= head + voltage_rows(vs@.take(i as int), all));
    }
    assert(vs@.take(vs@.len() as int) =~= vs@);
    r
}

/// The end of `sensors`: a blank line and, unless `--all` was given, a note
/// that absent sensors were hidden.
pub fn sensors_footer(all: bool) -> (r: Vec<String>)
    ensures
        views(r@) == seq![Seq::<char>::empty()] + if all {
            Seq::<Seq<char>>::empty()
        } else {
            seq!["  Absent sensors hidden; pass --all to show them.\n"@]
        },
{
    let mut r: Vec<String> = Vec::new();
    push_line(&mut r, String::new());
    if !all {
        push_line(&mut r, owned("  Absent sensors hidden; pass --all to show them.\n"));
    }
    assert(views(r@) =~= seq![Seq::<char>::empty()] + if all {
        Seq::<Seq<char>>::empty()
    } else {
        seq!["  Absent sensors hidden; pass --all to show them.\n"@]
    });
    r
}

// ----------------------------------------------------------------- watch ---

/// The first line of `watch`.
pub fn watch_header(csv: bool) -> (r: String)
    ensures
        r@ == if csv {
            "unix_time,watts,hottest_c,hottest_name"@
        } else {
            "\n  time       watts   hottest"@
        },
{
    if csv {
        owned("unix_time,watts,hottest_c,hottest_name")
    } else {
        owned("\n  time       watts   hottest")
    }
}

/// The consumption `watch` follows: the first power-control entry's reading.
pub open spec fn consumption_of(p: Power) -> Option<i64> {
    if p.power_control@.len() > 0 {
        p.power_control@[0].power_consumed_watts_milli
    } else {
        None
    }
}

/// The consumption `watch` follows, in thousandths of a watt.
pub fn consumption(p: &Power) -> (r: Option<i64>)
    ensures
        r == consumption_of(*p),
{
    if p.power_control.len() > 0 {
        p.power_control[0].power_consumed_watts_milli
    } else {
        None
    }
}

/// Seconds since the epoch as `HH:MM:SS`, UTC, from milliseconds.
pub open spec fn clock_text(epoch_ms: u64) -> Seq<char> {
    let secs = (epoch_ms / 1000) % 86400;
    two_digits((secs / 3600) as nat) + ":"@ + two_digits(((secs % 3600) / 60) as nat) + ":"@
        + two_digits((secs % 60) as nat)
}

/// `HH:MM:SS` of an epoch time in milliseconds, UTC.
pub fn clock(epoch_ms: u64) -> (r: String)
    ensures
        r@ == clock_text(epoch_ms),
{
    let secs = (epoch_ms / 1000) % 86400;
    let mut r = String::new();
    push_two_digits(&mut r, secs / 3600);
    r.append(":");
    push_two_digits(&mut r, (secs % 3600) / 60);
    r.append(":");
    push_two_digits(&mut r, secs % 60);
    assert(Seq::<char>::empty() + two_digits((secs / 3600) as nat) =~= two_digits((secs / 3600) as nat));
    r
}

/// Milliseconds written as seconds with three decimals: `format!("{:.3}", s)`.
pub open spec fn seconds_text(ms: u64) -> Seq<char> {
    decimal((ms / 1000) as nat) + seq!['.', crate::text::digit(((ms % 1000) / 100) as int),
        crate::text::digit(((ms % 100) / 10) as int), crate::text::digit((ms % 10) as int)]
}

/// One sample of `watch`, at `now_ms` milliseconds since the epoch: as CSV
/// (empty fields for what could not be read), or as a table row (`-`).
pub open spec fn watch_row_text(now_ms: u64, watts: Option<i64>, hot: Option<(Seq<char>, i64)>, csv: bool) -> Seq<char> {
    if csv {
        seconds_text(now_ms) + ","@ + (match watts {
            Some(w) => whole(w as int),
            None => Seq::empty(),
        }) + ","@ + (match hot {
            Some(h) => whole(h.1 as int),
            None => Seq::empty(),
        }) + ","@ + (match hot {
            Some(h) => h.0,
            None => Seq::empty(),
        })
    } else {
        "  "@ + clock_text(now_ms) + "  "@ + pad_left(
            match watts {
                Some(w) => whole(w as int) + " W"@,
                None => "-"@,
            },
            6,
        ) + "   "@ + (match hot {
            Some(h) => h.0 + " "@ + whole(h.1 as int) + " C"@,
            None => "-"@,
        })
    }
}

/// The view of an optional hottest reading.
pub open spec fn hot_view(h: Option<(String, i64)>) -> Option<(Seq<char>, i64)> {
    match h {
        Some(x) => Some((x.0@, x.1)),
        None => None,
    }
}

fn push_seconds(r: &mut String, ms: u64)
    ensures
        final(r)@ == old(r)@ + seconds_text(ms),
{
    push_decimal(r, ms / 1000);
    crate::text::push_char(r, '.');
    let frac = ms % 1000;
    push_two_digits(r, frac / 10);
    crate::text::push_char(r, crate::text::digit_char(frac % 10));
    assert(((ms % 1000) / 10) / 10 == (ms % 1000) / 100);
    assert(((ms % 1000) / 10) % 10 == (ms % 100) / 10) by (nonlinear_arith);
    assert((ms % 1000) % 10 == ms % 10) by (nonlinear_arith);
    assert(final(r)@ =~= old(r)@ + seconds_text(ms));
}

/// One line of `watch`.
pub fn watch_row(now_ms: u64, watts: Option<i64>, hot: &Option<(String, i64)>, csv: bool) -> (r: String)
    ensures
        r@ == watch_row_text(now_ms, watts, hot_view(*hot), csv),
{
    let mut r = String::new();
    if csv {
        push_seconds(&mut r, now_ms);
        r.append(",");
        match watts {
            Some(w) => push_whole(&mut r, w),
            None => {},
        }
        r.append(",");
        match hot {
            Some(h) => push_whole(&mut r, h.1),
            None => {},
        }
        r.append(",");
        match hot {
            Some(h) => r.append(h.0.as_str()),
            None => {},
        }
        assert(r@ =~= watch_row_text(now_ms, watts, hot_view(*hot), csv));
    } else {
        r.append("  ");
        let c = clock(now_ms);
        r.append(c.as_str());
        r.append("  ");
        let w = match watts {
            Some(w) => {
                let mut t = String::new();
                push_whole(&mut t, w);
                t.append(" W");
                t
            },
            None => owned("-"),
        };
        proof {
            if watts is Some {
                assert(w@ =~= whole(watts->0 as int) + " W"@);
            }
        }
        push_padded_left(&mut r, w.as_str(), 6);
        r.append("   ");
        match hot {
            Some(h) => {
                r.append(h.0.as_str());
                r.append(" ");
                push_whole(&mut r, h.1);
                r.append(" C");
            },
            None => r.append("-"),
        }
        assert(r@ =~= watch_row_text(now_ms, watts, hot_view(*hot), csv));
    }
    r
}

/// Whether `watch` takes another sample after `n` of them: a `count` of zero
/// means until interrupted.
pub fn watch_continues(n: u64, count: u64) -> (r: bool)
    ensures
        r == !(count > 0 && n >= count),
{
    !(count > 0 && n >= count)
}

// ----------------------------------------------------------------- power ---

/// A power command and the Redfish reset type it sends.
#[derive(Clone, Copy, PartialEq, Eq, Structural, Debug)]
pub enum PowerAction {
    /// Turn the host on.
    On,
    /// Ask the OS to shut down cleanly.
    Off,
    /// Cut power without asking the OS.
    ForceOff,
    /// Power cycle without asking the OS.
    Reset,
}

/// The Redfish `ResetType` of a power command.
pub open spec fn reset_type_of(a: PowerAction) -> Seq<char> {
    match a {
        PowerAction::On => "On"@,
        PowerAction::Off => "GracefulShutdown"@,
        PowerAction::ForceOff => "ForceOff"@,
        PowerAction::Reset => "ForceRestart"@,
    }
}

impl PowerAction {
    /// The `ResetType` this command sends.
    pub fn reset_type(&self) -> (r: &'static str)
        ensures
            r@ == reset_type_of(*self),
    {
        match self {
            PowerAction::On => "On",
            PowerAction::Off => "GracefulShutdown",
            PowerAction::ForceOff => "ForceOff",
            PowerAction::Reset => "ForceRestart",
        }
    }
}

/// What `power status` prints.
pub fn power_state_line(sys: &System) -> (r: String)
    ensures
        r@ == text_or_default(sys.power_state, "unknown"@),
{
    text_of(&sys.power_state, "unknown")
}

/// What a power command prints before it is sent: what is about to happen, to
/// which machine, and what state it is in now.
pub fn power_action_line(reset_type: &str, host: &str, sys: &System) -> (r: String)
    ensures
        r@ == reset_type@ + " -> "@ + host@ + " (currently "@ + text_or_default(
            sys.power_state,
            "unknown"@,
        ) + ")"@,
{
    let mut r = owned(reset_type);
    r.append(" -> ");
    r.append(host);
    r.append(" (currently ");
    let before = text_of(&sys.power_state, "unknown");
    r.append(before.as_str());
    r.append(")");
    r
}

// ------------------------------------------------------------ raw, tests ---

/// A path for `raw`, with a leading slash added when it has none.
pub fn raw_path(path: &str) -> (r: String)
    ensures
        path@.len() > 0 && path@[0] == '/' ==> r@ == path@,
        !(path@.len() > 0 && path@[0] == '/') ==> r@ == seq!['/'] + path@,
{
    if starts_with_char(path, '/') {
        owned(path)
    } else {
        let mut r = String::new();
        crate::text::push_char(&mut r, '/');
        r.append(path);
        r
    }
}

/// What `config test` prints once the service root answered.
pub open spec fn root_report(host: Seq<char>, root: Json) -> Seq<Seq<char>> {
    seq![
        "Connected to "@ + host,
        "  vendor   "@ + text_field(root, "Vendor"@, "unknown"@),
        "  product  "@ + text_field(root, "Product"@, "unknown"@),
        "  redfish  "@ + text_field(root, "RedfishVersion"@, "unknown"@),
    ]
}

/// The lines of `config test`.
pub fn root_lines(host: &str, root: &Json) -> (r: Vec<String>)
    ensures
        views(r@) == root_report(host@, *root),
{
    let a = line_with("Connected to ", host);
    let v = text_or(root, "Vendor", "unknown");
    let p = text_or(root, "Product", "unknown");
    let f = text_or(root, "RedfishVersion", "unknown");
    let r = vec![
        a,
        line_with("  vendor   ", v.as_str()),
        line_with("  product  ", p.as_str()),
        line_with("  redfish  ", f.as_str()),
    ];
    assert(views(r@) =~= root_report(host@, *root));
    r
}

} // verus!
