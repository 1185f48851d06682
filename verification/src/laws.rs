//! What holds of the library as a whole, across calls and for every input.

use vstd::prelude::*;
use crate::config::{normalized_host, shown_settings, Config};
use crate::text::{strip_prefixes, strip_suffix_char};
use crate::models::{Status, System, Temperature};
use crate::report::{hot_candidate, hottest_of, status_report, temperature_rows, text_or_default};
use crate::text::trim;
use crate::snapshot::{
    faults_of, healthy, index_named, merged, merged_one, needs_attention, pushed, recorded,
    severity_of, with_severity, first_seen, refreshed, below_floor, near_ceiling, HISTORY,
    SensorView, Severity,
};
use crate::ui::{key_handled, visible_of, Action, App, Effect, Filter, Key};
use crate::models::Power;
use crate::models::Thermal;
use crate::snapshot::Kind;
use crate::snapshot::Job;

verus! {

// --------------------------------------------------------------- history ---

/// A history after a run of samples, one after the other.
pub open spec fn pushed_all(h: Seq<i64>, vs: Seq<i64>) -> Seq<i64>
    decreases vs.len(),
{
    if vs.len() == 0 {
        h
    } else {
        pushed(pushed_all(h, vs.drop_last()), vs.last())
    }
}

/// The last `n` elements of `s` (all of it when it is shorter).
pub open spec fn last_n(s: Seq<i64>, n: nat) -> Seq<i64> {
    if s.len() <= n {
        s
    } else {
        s.skip(s.len() - n)
    }
}

/// A sensor's history keeps exactly the most recent samples: starting from a
/// history no longer than the limit, any run of samples leaves the last
/// `HISTORY` values of everything seen, oldest first.
pub proof fn law_history_keeps_latest(h: Seq<i64>, vs: Seq<i64>)
    requires
        h.len() <= HISTORY,
    ensures
        pushed_all(h, vs) == last_n(h + vs, HISTORY as nat),
        pushed_all(h, vs).len() <= HISTORY,
    decreases vs.len(),
{
    if vs.len() > 0 {
        law_history_keeps_latest(h, vs.drop_last());
        let prev = pushed_all(h, vs.drop_last());
        let all = h + vs;
        let before = h + vs.drop_last();
        assert(all =~= before.push(vs.last()));
        if before.len() < HISTORY {
            assert(prev =~= before);
        } else {
            assert(prev =~= before.skip(before.len() - HISTORY));
            if before.len() == HISTORY {
                assert(prev.drop_first().push(vs.last()) =~= all.skip(all.len() - HISTORY));
            } else {
                assert(prev.drop_first().push(vs.last()) =~= all.skip(all.len() - HISTORY));
            }
        }
    }
}

// ----------------------------------------------------------------- merge ---

/// Whether no two sensors share a name.
pub open spec fn names_unique(s: Seq<SensorView>) -> bool {
    forall|i: int, j: int| 0 <= i < j < s.len() ==> s[i].name != s[j].name
}

proof fn lemma_merged_one(dst: Seq<SensorView>, f: SensorView)
    ensures
        merged_one(dst, f).len() >= dst.len(),
        forall|i: int| 0 <= i < dst.len() ==> merged_one(dst, f)[i].name == dst[i].name
            && merged_one(dst, f)[i].kind == dst[i].kind,
        exists|i: int| #![trigger merged_one(dst, f)[i]] 0 <= i < merged_one(dst, f).len() && merged_one(dst, f)[i].name == f.name,
        names_unique(dst) ==> names_unique(merged_one(dst, f)),
        merged_one(dst, f).len() == dst.len() + if index_named(dst, f.name) >= 0 {
            0int
        } else {
            1int
        },
{
    crate::snapshot::lemma_index_named(dst, f.name);
    let i = index_named(dst, f.name);
    let r = merged_one(dst, f);
    if i >= 0 {
        assert(r[i].name == f.name);
    } else {
        assert(r[dst.len() as int].name == f.name);
    }
}

/// Merging a poll into the sensor list keeps every known sensor where it was,
/// under its name and kind (so its history survives firmware that renumbers
/// members), lists every freshly read sensor, and never lists a name twice.
pub proof fn law_merge_keeps_sensors(dst: Seq<SensorView>, fresh: Seq<SensorView>)
    ensures
        merged(dst, fresh).len() >= dst.len(),
        forall|i: int| 0 <= i < dst.len() ==> merged(dst, fresh)[i].name == dst[i].name
            && merged(dst, fresh)[i].kind == dst[i].kind,
        forall|k: int| 0 <= k < fresh.len() ==> exists|i: int|
            #![trigger merged(dst, fresh)[i]]
            0 <= i < merged(dst, fresh).len() && merged(dst, fresh)[i].name == (#[trigger] fresh[k]).name,
        names_unique(dst) ==> names_unique(merged(dst, fresh)),
    decreases fresh.len(),
{
    if fresh.len() > 0 {
        let prev = merged(dst, fresh.drop_last());
        law_merge_keeps_sensors(dst, fresh.drop_last());
        lemma_merged_one(prev, fresh.last());
        let r = merged(dst, fresh);
        assert forall|k: int| 0 <= k < fresh.len() implies exists|i: int|
            #![trigger r[i]]
            0 <= i < r.len() && r[i].name == (#[trigger] fresh[k]).name by {
            if k < fresh.len() - 1 {
                assert(fresh.drop_last()[k] == fresh[k]);
                let i = choose|i: int| 0 <= i < prev.len() && prev[i].name == fresh.drop_last()[k].name;
                assert(r[i].name == prev[i].name);
            }
        }
    }
}

/// Merging a reading into a known sensor adds the reading to its history and
/// to nothing else: a history within the limit stays within it.
pub proof fn law_merge_bounds_history(dst: Seq<SensorView>, f: SensorView)
    requires
        forall|i: int| 0 <= i < dst.len() ==> (#[trigger] dst[i]).history.len() <= HISTORY,
        f.history.len() <= HISTORY,
    ensures
        forall|i: int| 0 <= i < merged_one(dst, f).len() ==> (#[trigger] merged_one(dst, f)[i]).history.len() <= HISTORY,
{
    crate::snapshot::lemma_index_named(dst, f.name);
    let r = merged_one(dst, f);
    assert forall|i: int| 0 <= i < r.len() implies (#[trigger] r[i]).history.len() <= HISTORY by {
        if i < dst.len() && i != index_named(dst, f.name) {
            assert(r[i] == dst[i]);
        }
    }
}

/// The names of a list of sensors, in order.
pub open spec fn names_of(s: Seq<SensorView>) -> Seq<Seq<char>> {
    s.map_values(|v: SensorView| v.name)
}

/// The names among `fresh` that `known` does not hold, each once, in the
/// order they first appear.
pub open spec fn new_names(known: Seq<Seq<char>>, fresh: Seq<SensorView>) -> Seq<Seq<char>>
    decreases fresh.len(),
{
    if fresh.len() == 0 {
        Seq::empty()
    } else {
        let prev = new_names(known, fresh.drop_last());
        let n = fresh.last().name;
        if known.contains(n) || prev.contains(n) {
            prev
        } else {
            prev.push(n)
        }
    }
}

/// Merging a poll adds exactly the sensors it has not seen before, once each,
/// after the known ones and in the order the poll first names them; it
/// removes nothing, and a known sensor that the poll does not name stays
/// exactly as it was.
pub proof fn law_merge_counts(dst: Seq<SensorView>, fresh: Seq<SensorView>)
    requires
        names_unique(dst),
    ensures
        merged(dst, fresh).len() == dst.len() + new_names(names_of(dst), fresh).len(),
        forall|i: int| 0 <= i < dst.len() ==> merged(dst, fresh)[i].name == dst[i].name
            && merged(dst, fresh)[i].kind == dst[i].kind,
        forall|i: int| 0 <= i < dst.len() && (forall|k: int| 0 <= k < fresh.len() ==> fresh[k].name != dst[i].name)
            ==> #[trigger] merged(dst, fresh)[i] == dst[i],
        forall|j: int| 0 <= j < new_names(names_of(dst), fresh).len() ==> merged(dst, fresh)[dst.len() + j].name
            == #[trigger] new_names(names_of(dst), fresh)[j],
    decreases fresh.len(),
{
    let known = names_of(dst);
    if fresh.len() > 0 {
        let pf = fresh.drop_last();
        let f = fresh.last();
        let prev = merged(dst, pf);
        let np = new_names(known, pf);
        law_merge_counts(dst, pf);
        crate::snapshot::lemma_index_named(prev, f.name);
        let idx = index_named(prev, f.name);
        let r = merged(dst, fresh);
        assert(r == merged_one(prev, f));
        let found = known.contains(f.name) || np.contains(f.name);
        assert(found <==> idx >= 0) by {
            if known.contains(f.name) {
                let i = choose|i: int| 0 <= i < known.len() && known[i] == f.name;
                assert(prev[i].name == f.name);
            }
            if np.contains(f.name) {
                let j = choose|j: int| 0 <= j < np.len() && np[j] == f.name;
                assert(prev[dst.len() + j].name == np[j]);
            }
            if idx >= 0 {
                if idx < dst.len() {
                    assert(known[idx] == f.name);
                } else {
                    assert(np[idx - dst.len()] == f.name);
                }
            }
        }
        assert forall|i: int| 0 <= i < dst.len() && (forall|k: int| 0 <= k < fresh.len() ==> fresh[k].name != dst[i].name)
            implies #[trigger] r[i] == dst[i] by {
            assert(forall|k: int| 0 <= k < pf.len() ==> pf[k] == fresh[k]);
            assert(fresh[fresh.len() - 1].name != dst[i].name);
            assert(prev[i] == dst[i]);
        }
        assert forall|j: int| 0 <= j < new_names(known, fresh).len() implies r[dst.len() + j].name
            == #[trigger] new_names(known, fresh)[j] by {
            if j < np.len() {
                assert(new_names(known, fresh)[j] == np[j]);
                assert(prev[dst.len() + j].name == np[j]);
            }
        }
        assert forall|i: int| 0 <= i < dst.len() implies r[i].name == dst[i].name && r[i].kind == dst[i].kind by {
            assert(prev[i].name == dst[i].name);
        }
    }
}

// ---------------------------------------------------------------- faults ---

proof fn lemma_with_severity(s: Seq<SensorView>, sev: Severity)
    ensures
        forall|i: int| 0 <= i < with_severity(s, sev).len() ==> severity_of(
            #[trigger] with_severity(s, sev)[i],
        ) == sev,
        forall|j: int| 0 <= j < s.len() && severity_of(s[j]) == sev ==> with_severity(
            s,
            sev,
        ).contains(#[trigger] s[j]),
    decreases s.len(),
{
    if s.len() > 0 {
        let t = s.drop_last();
        lemma_with_severity(t, sev);
        let w = with_severity(s, sev);
        let wt = with_severity(t, sev);
        assert forall|j: int| 0 <= j < s.len() && severity_of(s[j]) == sev implies w.contains(#[trigger] s[j]) by {
            if j < s.len() - 1 {
                assert(t[j] == s[j]);
                let k = choose|k: int| 0 <= k < wt.len() && wt[k] == t[j];
                assert(w[k] == wt[k]);
            } else {
                assert(w[w.len() - 1] == s[j]);
            }
        }
    }
}

/// What needs attention, as the overview lists it: only faulty and failing
/// sensors, every one of them, all the faulty ones before any failing one.
/// An absent sensor is never among them, whatever it reads.
pub proof fn law_faults_listed_worst_first(s: Seq<SensorView>)
    ensures
        forall|i: int| 0 <= i < faults_of(s).len() ==> needs_attention(
            severity_of(#[trigger] faults_of(s)[i]),
        ),
        forall|i: int, j: int|
            0 <= i < j < faults_of(s).len() && severity_of(#[trigger] faults_of(s)[j])
                == Severity::Bad ==> severity_of(#[trigger] faults_of(s)[i]) == Severity::Bad,
        forall|j: int| 0 <= j < s.len() && needs_attention(severity_of(s[j])) ==> faults_of(
            s,
        ).contains(#[trigger] s[j]),
        forall|i: int| 0 <= i < faults_of(s).len() ==> (#[trigger] faults_of(s)[i]).present,
{
    lemma_with_severity(s, Severity::Bad);
    lemma_with_severity(s, Severity::Failing);
    let b = with_severity(s, Severity::Bad);
    let f = with_severity(s, Severity::Failing);
    let r = faults_of(s);
    assert forall|i: int| 0 <= i < r.len() implies needs_attention(severity_of(#[trigger] r[i])) by {
        if i < b.len() {
            assert(r[i] == b[i]);
        } else {
            assert(r[i] == f[i - b.len()]);
        }
    }
    assert forall|i: int, j: int|
        0 <= i < j < r.len() && severity_of(#[trigger] r[j]) == Severity::Bad implies severity_of(
        #[trigger] r[i],
    ) == Severity::Bad by {
        if j >= b.len() {
            assert(r[j] == f[j - b.len()]);
        }
        assert(r[i] == b[i]);
    }
    assert forall|j: int| 0 <= j < s.len() && needs_attention(severity_of(s[j])) implies r.contains(
        #[trigger] s[j],
    ) by {
        if severity_of(s[j]) == Severity::Bad {
            let k = choose|k: int| 0 <= k < b.len() && b[k] == s[j];
            assert(r[k] == b[k]);
        } else {
            let k = choose|k: int| 0 <= k < f.len() && f[k] == s[j];
            assert(r[b.len() + k] == f[k]);
        }
    }
    assert forall|i: int| 0 <= i < r.len() implies (#[trigger] r[i]).present by {
        if i < b.len() {
            assert(r[i] == b[i]);
        } else {
            assert(r[i] == f[i - b.len()]);
        }
    }
}

/// The warnings a plain health field would not give: a present, healthy fan
/// turning at or under its critical floor, or a present, healthy reading
/// within 10% of its critical ceiling, is failing. A sensor the BMC reports
/// absent is never a fault.
pub proof fn law_early_warnings(s: SensorView)
    ensures
        !s.present ==> severity_of(s) == Severity::Absent,
        s.present && healthy(s.health) && below_floor(s.reading, s.lower_critical) ==> severity_of(s)
            == Severity::Failing,
        s.present && healthy(s.health) && near_ceiling(s.reading, s.upper_critical) ==> severity_of(s)
            == Severity::Failing,
        s.present && !healthy(s.health) ==> severity_of(s) == Severity::Bad,
{
}

// --------------------------------------------------------------- hottest ---

/// The hottest sensor is one of the candidates (present, named, reading), and
/// no candidate reads hotter; when there is none, no sensor is a candidate.
pub proof fn law_hottest_is_hottest(temps: Seq<Temperature>)
    ensures
        match hottest_of(temps) {
            Some(h) => (exists|i: int|
                0 <= i < temps.len() && hot_candidate(temps[i]) && temps[i].name->0@ == h.0
                    && temps[i].reading_celsius_milli->0 == h.1) && forall|i: int|
                0 <= i < temps.len() && hot_candidate(#[trigger] temps[i])
                    ==> temps[i].reading_celsius_milli->0 <= h.1,
            None => forall|i: int| 0 <= i < temps.len() ==> !hot_candidate(#[trigger] temps[i]),
        },
    decreases temps.len(),
{
    if temps.len() > 0 {
        let t = temps.drop_last();
        law_hottest_is_hottest(t);
        assert forall|i: int| 0 <= i < t.len() implies t[i] == temps[i] by {}
        match hottest_of(t) {
            Some(h) => {
                let i = choose|i: int|
                    0 <= i < t.len() && hot_candidate(t[i]) && t[i].name->0@ == h.0
                        && t[i].reading_celsius_milli->0 == h.1;
                assert(temps[i] == t[i]);
            },
            None => {},
        }
    }
}

// -------------------------------------------------------------- keyboard ---

/// Destructive actions ask first: a key press sends a reset only when a
/// question about that very reset was pending (and no editor was open) and
/// the key was `y` or `Y`.
pub proof fn law_reset_needs_confirmation(
    old: App,
    new: App,
    key: Key,
    ctrl: bool,
    vis: Seq<SensorView>,
    power_state: Option<String>,
    fx: Seq<Effect>,
    i: int,
    kind: &'static str,
)
    requires
        key_handled(old, new, key, ctrl, vis, power_state, fx),
        0 <= i < fx.len(),
        fx[i] matches Effect::Send(Job::Reset(k)) && k == kind,
    ensures
        old.edit is None,
        old.confirm matches Some(c) && c.action == Action::Reset(kind),
        key == Key::Char('y') || key == Key::Char('Y'),
        new.confirm is None,
{
}

/// A pending question swallows the key: whatever is pressed, the question is
/// gone afterwards and nothing else about the interface has changed.
pub proof fn law_question_swallows_keys(
    old: App,
    new: App,
    key: Key,
    ctrl: bool,
    vis: Seq<SensorView>,
    power_state: Option<String>,
    fx: Seq<Effect>,
)
    requires
        key_handled(old, new, key, ctrl, vis, power_state, fx),
        old.edit is None,
        old.confirm is Some,
    ensures
        new.confirm is None,
        new.tab == old.tab,
        new.filter == old.filter,
        new.selected == old.selected,
        new.quit == old.quit,
        new.help == old.help,
        new.edit == old.edit,
        fx.len() == 1,
{
}

/// While the threshold editor is open, keys only touch the editor, and typing
/// never takes its text past twelve characters.
pub proof fn law_editor_is_modal(
    old: App,
    new: App,
    key: Key,
    ctrl: bool,
    vis: Seq<SensorView>,
    power_state: Option<String>,
    fx: Seq<Effect>,
)
    requires
        key_handled(old, new, key, ctrl, vis, power_state, fx),
        old.edit is Some,
    ensures
        new.tab == old.tab,
        new.filter == old.filter,
        new.selected == old.selected,
        new.confirm == old.confirm,
        new.quit == old.quit,
        new.edit matches Some(e) ==> e.buffer@.len() <= 12 || e.buffer@.len() <= old.edit->0.buffer@.len(),
{
}

// ---------------------------------------------------------------- config ---

/// `config show` never prints the password: its third line is a mask.
pub proof fn law_password_masked(cfg: Config, file: Seq<char>)
    ensures
        shown_settings(cfg, file)[2] == "  password   "@ + "(not set)"@ || shown_settings(
            cfg,
            file,
        )[2] == "  password   "@ + "********"@,
{
}

/// A host with a pasted scheme and trailing slash is the bare host: a host
/// that does not itself begin with a scheme or end in a slash comes out of
/// `config set` unchanged, whether it was typed bare, after `http://`, or
/// between `https://` and `/`.
pub proof fn law_pasted_url(h: Seq<char>)
    requires
        !(h.len() >= 7 && h.take(7) == "http://"@),
        !(h.len() >= 8 && h.take(8) == "https://"@),
        h.len() == 0 || h.last() != '/',
    ensures
        normalized_host("https://"@ + h + "/"@) == h,
        normalized_host("http://"@ + h) == h,
        normalized_host(h) == h,
{
    reveal_strlit("https://");
    reveal_strlit("http://");
    reveal_strlit("/");
    let p = "https://"@;
    let q = "http://"@;
    let hs = h + "/"@;
    // Neither scheme starts the host followed by a slash.
    if hs.len() >= 8 && hs.take(8) == p {
        if h.len() >= 8 {
            assert(hs.take(8) =~= h.take(8));
        } else {
            assert(hs[7] == '/');
            assert(h.last() == hs[h.len() - 1]);
            assert(h.last() == p[h.len() - 1]);
        }
    }
    if hs.len() >= 7 && hs.take(7) == q {
        if h.len() >= 7 {
            assert(hs.take(7) =~= h.take(7));
        } else {
            assert(h.last() == hs[h.len() - 1]);
            assert(h.last() == q[h.len() - 1]);
        }
    }
    assert(strip_prefixes(hs, p) == hs);
    assert(strip_prefixes(hs, q) == hs);
    assert(strip_prefixes(h, p) == h);
    assert(strip_prefixes(h, q) == h);
    assert(strip_suffix_char(h, '/') == h);
    assert(hs.drop_last() =~= h);
    assert(strip_suffix_char(hs, '/') == h);
    // After `https://`.
    let a = p + h + "/"@;
    assert(a.take(8) =~= p);
    assert(a.skip(8) =~= hs);
    assert(strip_prefixes(a, p) == hs);
    // After `http://`.
    let b = q + h;
    if b.len() >= 8 {
        assert(b.take(8)[4] == ':');
        assert(p[4] == 's');
    }
    assert(strip_prefixes(b, p) == b);
    assert(b.take(7) =~= q);
    assert(b.skip(7) =~= h);
    assert(strip_prefixes(b, q) == h);
}


// ------------------------------------------------------------ fresh data ---

/// A fresh reading of a sensor already known by name replaces everything the
/// BMC says about it (reading, health, state, presence, limits, member id),
/// keeps its name and kind, and leaves every other sensor and the length of
/// the list as they were.
pub proof fn law_fresh_reading_wins(dst: Seq<SensorView>, f: SensorView)
    requires
        index_named(dst, f.name) >= 0,
    ensures
        ({
            let i = index_named(dst, f.name);
            let m = merged_one(dst, f);
            &&& 0 <= i < dst.len()
            &&& m.len() == dst.len()
            &&& m[i].name == dst[i].name
            &&& m[i].name == f.name
            &&& m[i].kind == dst[i].kind
            &&& m[i].health == f.health
            &&& m[i].state == f.state
            &&& m[i].present == f.present
            &&& m[i].reading == f.reading
            &&& m[i].lower_critical == f.lower_critical
            &&& m[i].upper_critical == f.upper_critical
            &&& m[i].member_id == f.member_id
            &&& forall|j: int| 0 <= j < dst.len() && j != i ==> #[trigger] m[j] == dst[j]
        }),
{
    crate::snapshot::lemma_index_named(dst, f.name);
}

/// A sensor the BMC reports present with any health other than `OK` is a
/// fault, whatever it reads; one reported `OK` or with no health at all, and
/// with no limit, is fine.
pub proof fn law_unhealthy_is_fault(s: SensorView)
    ensures
        s.present && (s.health matches Some(h) && h != "OK"@) ==> severity_of(s) == Severity::Bad,
        s.present && (s.health is None || s.health == Some("OK"@)) && s.lower_critical is None
            && s.upper_critical is None ==> severity_of(s) == Severity::Normal,
{
}

// ---------------------------------------------------------------- status ---

/// `status` prints the serial number, trimmed, on its own line: after the
/// power line, the health line (when the system has a status) and the
/// machine line (when maker and model are both known), and right before the
/// BIOS line when there is one.
pub proof fn law_status_shows_serial(sys: System, power: Option<Power>, thermal: Option<Thermal>)
    requires
        sys.serial_number is Some,
    ensures
        ({
            let r = status_report(sys, power, thermal);
            let sn = sys.serial_number->0;
            let machine = sys.manufacturer is Some && sys.model is Some;
            let k = 2 + (if sys.status is Some { 1int } else { 0 }) + (if machine { 1int } else { 0 });
            &&& k < r.len()
            &&& r[k] == "  serial       "@ + trim(sn@)
            &&& r[1] == "  power        "@ + text_or_default(sys.power_state, "?"@)
            &&& machine ==> r[k - 1] == "  machine      "@ + trim(sys.manufacturer->0@) + " "@
                + trim(sys.model->0@)
            &&& (sys.bios_version matches Some(b) ==> k + 1 < r.len() && r[k + 1] == "  bios         "@
                + trim(b@))
        }),
{
    let r = status_report(sys, power, thermal);
    assert(r[1] == "  power        "@ + text_or_default(sys.power_state, "?"@));
}

// ------------------------------------------------------------- listings ---

proof fn lemma_rows_prefix(ts: Seq<Temperature>, n: int, all: bool)
    requires
        0 <= n <= ts.len(),
    ensures
        temperature_rows(ts.take(n), all).len() <= temperature_rows(ts, all).len(),
        forall|j: int| 0 <= j < temperature_rows(ts.take(n), all).len() ==> #[trigger] temperature_rows(ts, all)[j]
            == temperature_rows(ts.take(n), all)[j],
    decreases ts.len(),
{
    if n == ts.len() {
        assert(ts.take(n) =~= ts);
    } else {
        lemma_rows_prefix(ts.drop_last(), n, all);
        assert(ts.drop_last().take(n) =~= ts.take(n));
    }
}

/// `sensors` marks every listed temperature that its BMC reports present and
/// not healthy: the row for the `i`th temperature (after the rows of those
/// listed before it) ends in `<-- CHECK`, whatever it reads.
pub proof fn law_unhealthy_temperature_checked(ts: Seq<Temperature>, all: bool, i: int)
    requires
        0 <= i < ts.len(),
        ts[i].status matches Some(st) && !(st.state matches Some(x) && (x@ == "Absent"@ || x@ == "Disabled"@))
            && (st.health matches Some(h) && h@ != "OK"@),
    ensures
        ({
            let rows = temperature_rows(ts, all);
            let k = temperature_rows(ts.take(i), all).len() as int;
            &&& k < rows.len()
            &&& rows[k].len() >= 12
            &&& rows[k].subrange(rows[k].len() - 12, rows[k].len() as int) == "   <-- CHECK"@
        }),
{
    let pre = ts.take(i + 1);
    assert(pre.drop_last() =~= ts.take(i));
    assert(pre.last() == ts[i]);
    lemma_rows_prefix(ts, i + 1, all);
    let rows = temperature_rows(ts, all);
    let k = temperature_rows(ts.take(i), all).len() as int;
    let t = ts[i];
    assert(crate::report::listed(t.status, all));
    assert(crate::report::flagged(t.status));
    assert(temperature_rows(pre, all) == temperature_rows(ts.take(i), all) + seq![crate::report::temperature_row(t)]);
    let row = crate::report::temperature_row(t);
    assert(temperature_rows(pre, all)[k] == row);
    assert(rows[k] == row);
    reveal_strlit("   <-- CHECK");
    let mark = "   <-- CHECK"@;
    assert(mark.len() == 12);
    let head = "  "@ + crate::text::pad_right(text_or_default(t.name, "?"@), 22) + " "@ + crate::text::pad_left(
        match t.reading_celsius_milli {
            Some(v) => crate::text::whole(v as int) + " C"@,
            None => "-"@,
        },
        8,
    ) + "   "@ + crate::report::health_label(t.status);
    assert(row == head + mark);
    assert(row.subrange(row.len() - 12, row.len() as int) =~= mark);
}

// ------------------------------------------------------------ sensor tab ---

proof fn lemma_visible_of(s: Seq<SensorView>, f: Filter)
    ensures
        forall|j: int| 0 <= j < visible_of(s, f).len() ==> crate::ui::shown_by(f, #[trigger] visible_of(s, f)[j]),
        forall|j: int| 0 <= j < s.len() && crate::ui::shown_by(f, s[j]) ==> visible_of(s, f).contains(#[trigger] s[j]),
    decreases s.len(),
{
    if s.len() > 0 {
        let t = s.drop_last();
        lemma_visible_of(t, f);
        let v = visible_of(s, f);
        let vt = visible_of(t, f);
        assert forall|j: int| 0 <= j < s.len() && crate::ui::shown_by(f, s[j]) implies v.contains(#[trigger] s[j]) by {
            if j < s.len() - 1 {
                assert(t[j] == s[j]);
                let k = choose|k: int| 0 <= k < vt.len() && vt[k] == t[j];
                assert(v[k] == vt[k]);
            } else {
                assert(v[v.len() - 1] == s[j]);
            }
        }
    }
}

/// On the sensor tab with nothing pending, `t` lists the temperatures: the
/// filter becomes `Temps` and the highlight goes to the top, and the list it
/// gives holds exactly the present temperature sensors.
pub proof fn law_t_lists_temperatures(
    old: App,
    new: App,
    ctrl: bool,
    vis: Seq<SensorView>,
    power_state: Option<String>,
    fx: Seq<Effect>,
    sensors: Seq<SensorView>,
)
    requires
        key_handled(old, new, Key::Char('t'), ctrl, vis, power_state, fx),
        old.edit is None,
        old.confirm is None,
        !old.help,
        old.tab == 1,
    ensures
        new.filter == Filter::Temps,
        new.selected == Some(0usize),
        new.tab == 1,
        forall|j: int| 0 <= j < visible_of(sensors, new.filter).len() ==> (#[trigger] visible_of(sensors, new.filter)[j]).present
            && visible_of(sensors, new.filter)[j].kind == Kind::Temperature,
        forall|j: int| 0 <= j < sensors.len() && sensors[j].present && sensors[j].kind == Kind::Temperature
            ==> visible_of(sensors, new.filter).contains(#[trigger] sensors[j]),
{
    lemma_visible_of(sensors, Filter::Temps);
}

} // verus!
