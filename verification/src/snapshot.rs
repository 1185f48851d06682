//! The state the interface draws, and how each poll of the BMC updates it.
//!
//! The BMC is polled away from the draw loop; the interface always draws what
//! the last completed poll left behind. Everything a poll decides (which
//! sensors there are, how their history grows, what counts as a fault) lives
//! here; the requests themselves are the program's business.

use vstd::prelude::*;
use std::collections::VecDeque;
use crate::models::{is_ok_health, present_status, Fan, Power, System, Temperature, Thermal, Voltage, Status};
use crate::text::{copy, owned, push_whole, push_signed, signed_decimal, same_text, whole, decimal, push_decimal, is_number, push_rounded, rounded_text};
use crate::client::{Json, json_array, json_get, json_str, str_opt, text_field, text_or};

verus! {

broadcast use vstd::string::group_string_axioms;

/// How many samples of each sensor to keep for the charts: at the default
/// two-second interval, a bit over half an hour of history.
pub const HISTORY: usize = 1024;

#[derive(Clone, Copy, PartialEq, Eq, Structural, Debug)]
pub enum Kind {
    Temperature,
    Fan,
    Voltage,
}

impl Kind {
    /// The unit a reading of this kind is shown in.
    pub fn unit(&self) -> (r: &'static str)
        ensures
            r@ == kind_unit(*self),
    {
        match self {
            Kind::Temperature => "C",
            Kind::Fan => "RPM",
            Kind::Voltage => "V",
        }
    }

    /// Whether readings of this kind are held in thousandths (every kind but
    /// fans, whose RPM are whole).
    pub fn in_thousandths(&self) -> (r: bool)
        ensures
            r == !(*self is Fan),
    {
        match self {
            Kind::Fan => false,
            _ => true,
        }
    }

    /// The kind's name in the sensor table.
    pub fn label(&self) -> (r: &'static str)
        ensures
            r@ == kind_label(*self),
    {
        match self {
            Kind::Temperature => "temperature",
            Kind::Fan => "fan",
            Kind::Voltage => "voltage",
        }
    }
}

/// A reading or limit of a kind written with no decimals: a fan's whole RPM
/// as they are, anything else from thousandths, as `format!("{v:.0}")` writes
/// the value.
pub open spec fn value_text(k: Kind, v: int) -> Seq<char> {
    if k is Fan {
        signed_decimal(v)
    } else {
        whole(v)
    }
}

/// Appends `value_text(k, v)`.
pub fn push_value(s: &mut String, k: Kind, v: i64)
    ensures
        final(s)@ == old(s)@ + value_text(k, v as int),
{
    match k {
        Kind::Fan => push_signed(s, v),
        _ => push_whole(s, v),
    }
}

/// The unit a reading of a kind is shown in.
pub open spec fn kind_unit(k: Kind) -> Seq<char> {
    match k {
        Kind::Temperature => "C"@,
        Kind::Fan => "RPM"@,
        Kind::Voltage => "V"@,
    }
}

/// A kind's name in the sensor table.
pub open spec fn kind_label(k: Kind) -> Seq<char> {
    match k {
        Kind::Temperature => "temperature"@,
        Kind::Fan => "fan"@,
        Kind::Voltage => "voltage"@,
    }
}

/// How worrying a sensor is, most worrying first.
#[derive(Clone, Copy, PartialEq, Eq, Structural, PartialOrd, Ord, Debug)]
pub enum Severity {
    Bad,
    Failing,
    /// Nothing to report; shown as `ok`.
    Normal,
    Absent,
}

/// The word shown for a severity.
pub open spec fn severity_text(s: Severity) -> Seq<char> {
    match s {
        Severity::Bad => "FAULT"@,
        Severity::Failing => "warn"@,
        Severity::Normal => "ok"@,
        Severity::Absent => "absent"@,
    }
}

impl Severity {
    /// The word shown for this severity.
    pub fn text(&self) -> (r: &'static str)
        ensures
            r@ == severity_text(*self),
    {
        match self {
            Severity::Bad => "FAULT",
            Severity::Failing => "warn",
            Severity::Normal => "ok",
            Severity::Absent => "absent",
        }
    }
}

/// One sensor as the interface knows it. Readings and limits are thousandths
/// of the kind's unit, except a fan's, which are whole RPM as the BMC gives
/// them.
#[derive(Debug)]
pub struct Sensor {
    pub name: String,
    /// How Redfish addresses this entry inside its array, needed to patch it.
    pub member_id: Option<String>,
    pub kind: Kind,
    pub reading: Option<i64>,
    pub health: Option<String>,
    pub state: Option<String>,
    pub present: bool,
    /// Critical floor for fans.
    pub lower_critical: Option<i64>,
    /// Critical ceiling for temperatures.
    pub upper_critical: Option<i64>,
    /// Past readings, oldest first.
    pub history: VecDeque<i64>,
}

/// The mathematical content of a sensor.
pub struct SensorView {
    pub name: Seq<char>,
    pub member_id: Option<Seq<char>>,
    pub kind: Kind,
    pub reading: Option<i64>,
    pub health: Option<Seq<char>>,
    pub state: Option<Seq<char>>,
    pub present: bool,
    pub lower_critical: Option<i64>,
    pub upper_critical: Option<i64>,
    pub history: Seq<i64>,
}

/// The view of an optional string.
pub open spec fn opt_view(o: Option<String>) -> Option<Seq<char>> {
    match o {
        Some(s) => Some(s@),
        None => None,
    }
}

impl View for Sensor {
    type V = SensorView;

    open spec fn view(&self) -> SensorView {
        SensorView {
            name: self.name@,
            member_id: opt_view(self.member_id),
            kind: self.kind,
            reading: self.reading,
            health: opt_view(self.health),
            state: opt_view(self.state),
            present: self.present,
            lower_critical: self.lower_critical,
            upper_critical: self.upper_critical,
            history: self.history@,
        }
    }
}

/// The views of a list of sensors.
pub open spec fn sensor_views(s: Seq<Sensor>) -> Seq<SensorView> {
    s.map_values(|x: Sensor| x@)
}

/// A health value that is no cause for alarm, on views.
pub open spec fn healthy(h: Option<Seq<char>>) -> bool {
    match h {
        Some(x) => x == "OK"@,
        None => true,
    }
}

/// A fan still turning but at or under its (positive) critical floor.
pub open spec fn below_floor(reading: Option<i64>, lower: Option<i64>) -> bool {
    reading is Some && lower is Some && lower->0 > 0 && reading->0 <= lower->0
}

/// A reading at or above 90% of its (positive) critical ceiling.
pub open spec fn near_ceiling(reading: Option<i64>, upper: Option<i64>) -> bool {
    reading is Some && upper is Some && upper->0 > 0 && 10 * reading->0 >= 9 * upper->0
}

/// Three levels rather than two. `Failing` is a fan still turning but under
/// its floor, or a reading inside 10% of its ceiling: the BMC's own health
/// only flips once the limit is crossed.
pub open spec fn severity_of(s: SensorView) -> Severity {
    if !s.present {
        Severity::Absent
    } else if !healthy(s.health) {
        Severity::Bad
    } else if below_floor(s.reading, s.lower_critical) {
        Severity::Failing
    } else if near_ceiling(s.reading, s.upper_critical) {
        Severity::Failing
    } else {
        Severity::Normal
    }
}

/// Whether a reading is at or under its positive floor.
pub fn is_below_floor(reading: Option<i64>, lower: Option<i64>) -> (r: bool)
    ensures
        r == below_floor(reading, lower),
{
    match (reading, lower) {
        (Some(v), Some(lim)) => lim > 0 && v <= lim,
        _ => false,
    }
}

/// Whether a reading is at or above 90% of its ceiling.
pub fn is_near_ceiling(reading: Option<i64>, upper: Option<i64>) -> (r: bool)
    ensures
        r == near_ceiling(reading, upper),
{
    match (reading, upper) {
        (Some(v), Some(lim)) => lim > 0 && (v as i128) * 10 >= (lim as i128) * 9,
        _ => false,
    }
}

/// Whether an optional string is `"OK"` or absent.
fn is_healthy(h: &Option<String>) -> (r: bool)
    ensures
        r == healthy(opt_view(*h)),
{
    match h {
        Some(x) => same_text(x.as_str(), "OK"),
        None => true,
    }
}

impl Sensor {
    /// How worrying this sensor is.
    pub fn severity(&self) -> (r: Severity)
        ensures
            r == severity_of(self@),
    {
        if !self.present {
            return Severity::Absent;
        }
        if !is_healthy(&self.health) {
            return Severity::Bad;
        }
        if is_below_floor(self.reading, self.lower_critical) {
            return Severity::Failing;
        }
        if is_near_ceiling(self.reading, self.upper_critical) {
            return Severity::Failing;
        }
        Severity::Normal
    }
}

/// The severities the overview lists as needing attention.
pub open spec fn needs_attention(s: Severity) -> bool {
    s == Severity::Bad || s == Severity::Failing
}

// --------------------------------------------------------------- history ---

/// A history after one more sample: the oldest one drops out once the history
/// is full.
pub open spec fn pushed(h: Seq<i64>, v: i64) -> Seq<i64> {
    if h.len() == HISTORY {
        h.drop_first().push(v)
    } else {
        h.push(v)
    }
}

/// Records one sample in a history.
pub fn push(h: &mut VecDeque<i64>, v: i64)
    ensures
        final(h)@ == pushed(old(h)@, v),
{
    if h.len() == HISTORY {
        h.pop_front();
    }
    h.push_back(v);
}

/// A history after a reading: unchanged when there is no reading.
pub open spec fn recorded(h: Seq<i64>, reading: Option<i64>) -> Seq<i64> {
    match reading {
        Some(v) => pushed(h, v),
        None => h,
    }
}

fn record(h: &mut VecDeque<i64>, reading: Option<i64>)
    ensures
        final(h)@ == recorded(old(h)@, reading),
{
    match reading {
        Some(v) => push(h, v),
        None => {},
    }
}

// ----------------------------------------------------------------- merge ---

/// The index of the first sensor called `name`, or -1 when there is none.
pub open spec fn index_named(s: Seq<SensorView>, name: Seq<char>) -> int
    decreases s.len(),
{
    if s.len() == 0 {
        -1
    } else {
        let i = index_named(s.drop_last(), name);
        if i >= 0 {
            i
        } else if s.last().name == name {
            s.len() - 1
        } else {
            -1
        }
    }
}

/// A known sensor after a fresh reading of it: it keeps its name, kind and
/// history (which gains the reading), and takes everything else from `f`.
pub open spec fn refreshed(e: SensorView, f: SensorView) -> SensorView {
    SensorView {
        name: e.name,
        member_id: f.member_id,
        kind: e.kind,
        reading: f.reading,
        health: f.health,
        state: f.state,
        present: f.present,
        lower_critical: f.lower_critical,
        upper_critical: f.upper_critical,
        history: recorded(e.history, f.reading),
    }
}

/// A sensor seen for the first time: its reading starts its history.
pub open spec fn first_seen(f: SensorView) -> SensorView {
    SensorView { history: recorded(f.history, f.reading), ..f }
}

/// The list after merging one fresh reading: sensors are matched by name,
/// because Redfish member ids are not stable across firmware versions while
/// the names on the silkscreen are.
pub open spec fn merged_one(dst: Seq<SensorView>, f: SensorView) -> Seq<SensorView> {
    let i = index_named(dst, f.name);
    if i >= 0 {
        dst.update(i, refreshed(dst[i], f))
    } else {
        dst.push(first_seen(f))
    }
}

/// The list after merging fresh readings one after the other.
pub open spec fn merged(dst: Seq<SensorView>, fresh: Seq<SensorView>) -> Seq<SensorView>
    decreases fresh.len(),
{
    if fresh.len() == 0 {
        dst
    } else {
        merged_one(merged(dst, fresh.drop_last()), fresh.last())
    }
}

/// What `index_named` finds: the first sensor of that name, or none.
pub proof fn lemma_index_named(s: Seq<SensorView>, name: Seq<char>)
    ensures
        -1 <= index_named(s, name) < s.len(),
        index_named(s, name) >= 0 ==> s[index_named(s, name)].name == name,
        index_named(s, name) >= 0 ==> forall|j: int|
            0 <= j < index_named(s, name) ==> s[j].name != name,
        index_named(s, name) < 0 ==> forall|j: int| 0 <= j < s.len() ==> s[j].name != name,
    decreases s.len(),
{
    if s.len() > 0 {
        let t = s.drop_last();
        lemma_index_named(t, name);
        assert forall|j: int| 0 <= j < t.len() implies t[j] == s[j] by {}
    }
}

/// The first sensor of a name is the one `index_named` finds.
pub proof fn lemma_index_named_unique(s: Seq<SensorView>, name: Seq<char>, i: int)
    requires
        0 <= i < s.len(),
        s[i].name == name,
        forall|j: int| 0 <= j < i ==> s[j].name != name,
    ensures
        index_named(s, name) == i,
{
    lemma_index_named(s, name);
}

/// The position of the first sensor called `name`.
pub fn find_named(dst: &Vec<Sensor>, name: &str) -> (r: Option<usize>)
    ensures
        match r {
            Some(i) => index_named(sensor_views(dst@), name@) == i as int,
            None => index_named(sensor_views(dst@), name@) < 0,
        },
{
    let mut i: usize = 0;
    while i < dst.len()
        invariant
            i <= dst@.len(),
            forall|j: int| 0 <= j < i ==> dst@[j].name@ != name@,
        decreases dst@.len() - i,
    {
        if same_text(dst[i].name.as_str(), name) {
            proof {
                lemma_index_named_unique(sensor_views(dst@), name@, i as int);
            }
            return Some(i);
        }
        i = i + 1;
    }
    proof {
        lemma_index_named(sensor_views(dst@), name@);
        if index_named(sensor_views(dst@), name@) >= 0 {
            let k = index_named(sensor_views(dst@), name@);
            assert(sensor_views(dst@)[k].name == dst@[k].name@);
        }
    }
    None
}

fn merge_one(dst: &mut Vec<Sensor>, f: Sensor)
    ensures
        sensor_views(final(dst)@) == merged_one(sensor_views(old(dst)@), f@),
{
    let ghost fv = f@;
    let ghost before = sensor_views(dst@);
    proof {
        lemma_index_named(before, fv.name);
    }
    match find_named(dst, f.name.as_str()) {
        Some(i) => {
            let mut e = dst.remove(i);
            record(&mut e.history, f.reading);
            e.member_id = f.member_id;
            e.reading = f.reading;
            e.health = f.health;
            e.state = f.state;
            e.present = f.present;
            e.lower_critical = f.lower_critical;
            e.upper_critical = f.upper_critical;
            dst.insert(i, e);
            assert(sensor_views(dst@) =~= before.update(i as int, refreshed(before[i as int], fv)));
        },
        None => {
            let mut s = f;
            record(&mut s.history, s.reading);
            dst.push(s);
            assert(sensor_views(dst@) =~= before.push(first_seen(fv)));
        },
    }
}

/// Merges a fresh reading of every sensor into the known list, keeping each
/// known sensor's history.
pub fn merge(dst: &mut Vec<Sensor>, fresh: Vec<Sensor>)
    ensures
        sensor_views(final(dst)@) == merged(sensor_views(old(dst)@), sensor_views(fresh@)),
{
    let ghost all = sensor_views(fresh@);
    let ghost start = sensor_views(dst@);
    let mut rest = fresh;
    let mut taken: Vec<Sensor> = Vec::new();
    // Reverse the fresh readings so that popping takes them in order.
    while rest.len() > 0
        invariant
            sensor_views(taken@).len() + sensor_views(rest@).len() == all.len(),
            all == sensor_views(rest@) + sensor_views(taken@).reverse(),
        decreases rest@.len(),
    {
        let x = rest.pop().unwrap();
        let ghost t0 = sensor_views(taken@);
        let ghost r0 = sensor_views(rest@);
        taken.push(x);
        assert(sensor_views(taken@) =~= t0.push(x@));
        assert(t0.push(x@).reverse() =~= seq![x@] + t0.reverse());
        assert(r0 + (seq![x@] + t0.reverse()) =~= r0.push(x@) + t0.reverse());
    }
    assert(sensor_views(rest@) =~= Seq::<SensorView>::empty());
    assert(all =~= sensor_views(taken@).reverse());
    let n = taken.len();
    while taken.len() > 0
        invariant
            n == all.len(),
            taken@.len() <= n,
            sensor_views(taken@).reverse() =~= all.skip(n - taken@.len()),
            sensor_views(dst@) == merged(start, all.take(n - taken@.len())),
        decreases taken@.len(),
    {
        let ghost t0 = sensor_views(taken@);
        let f = taken.pop().unwrap();
        let ghost k = n - t0.len();
        assert(t0.reverse()[0] == f@);
        assert(all[k] == f@);
        assert(sensor_views(taken@) =~= t0.drop_last());
        assert(t0.drop_last().reverse() =~= t0.reverse().drop_first());
        assert(all.take(k + 1).drop_last() =~= all.take(k));
        assert(all.take(k + 1).last() == f@);
        merge_one(dst, f);
    }
    assert(all.take(n as int) =~= all);
}

// ---------------------------------------------------------------- faults ---

/// The sensors of one severity, in order.
pub open spec fn with_severity(s: Seq<SensorView>, sev: Severity) -> Seq<SensorView>
    decreases s.len(),
{
    if s.len() == 0 {
        Seq::empty()
    } else if severity_of(s.last()) == sev {
        with_severity(s.drop_last(), sev).push(s.last())
    } else {
        with_severity(s.drop_last(), sev)
    }
}

/// What needs attention: the faulty sensors, then the failing ones, each group
/// in list order (a stable sort by severity of the two).
pub open spec fn faults_of(s: Seq<SensorView>) -> Seq<SensorView> {
    with_severity(s, Severity::Bad) + with_severity(s, Severity::Failing)
}

/// The views of a list of sensor references.
pub open spec fn ref_views(s: Seq<&Sensor>) -> Seq<SensorView> {
    s.map_values(|x: &Sensor| x@)
}

fn collect_severity<'a>(sensors: &'a Vec<Sensor>, sev: Severity, out: &mut Vec<&'a Sensor>)
    ensures
        ref_views(final(out)@) == ref_views(old(out)@) + with_severity(sensor_views(sensors@), sev),
{
    let mut i: usize = 0;
    while i < sensors.len()
        invariant
            i <= sensors@.len(),
            ref_views(out@) == ref_views(old(out)@) + with_severity(
                sensor_views(sensors@).take(i as int),
                sev,
            ),
        decreases sensors@.len() - i,
    {
        let ghost before = ref_views(out@);
        let s = &sensors[i];
        assert(sensor_views(sensors@).take(i + 1).drop_last() =~= sensor_views(sensors@).take(
            i as int,
        ));
        if s.severity() == sev {
            out.push(s);
            assert(ref_views(out@) =~= before.push(s@));
        } else {
            assert(ref_views(out@) =~= before);
        }
        i = i + 1;
    }
    assert(sensor_views(sensors@).take(sensors@.len() as int) =~= sensor_views(sensors@));
}

// -------------------------------------------------------------- snapshot ---

#[verifier::external_type_specification]
#[verifier::external_body]
pub struct ExInstant(std::time::Instant);

/// What the interface shows about the machine itself.
#[derive(Debug)]
pub struct Machine {
    pub power_state: Option<String>,
    pub health: Option<String>,
    pub manufacturer: Option<String>,
    pub model: Option<String>,
    pub serial: Option<String>,
    pub bios: Option<String>,
    pub cpu_count: Option<u32>,
    pub cpu_model: Option<String>,
    /// Thousandths of a GiB.
    pub memory_gib_milli: Option<i64>,
}

impl Machine {
    /// A machine nothing is known about yet.
    pub fn unknown() -> (m: Machine)
        ensures
            m == machine_unknown(),
    {
        Machine {
            power_state: None,
            health: None,
            manufacturer: None,
            model: None,
            serial: None,
            bios: None,
            cpu_count: None,
            cpu_model: None,
            memory_gib_milli: None,
        }
    }
}

/// A machine nothing is known about.
pub open spec fn machine_unknown() -> Machine {
    Machine {
        power_state: None,
        health: None,
        manufacturer: None,
        model: None,
        serial: None,
        bios: None,
        cpu_count: None,
        cpu_model: None,
        memory_gib_milli: None,
    }
}

/// The machine as a system resource describes it.
pub open spec fn machine_of(s: System) -> Machine {
    Machine {
        power_state: s.power_state,
        health: match s.status {
            Some(st) => st.health,
            None => None,
        },
        manufacturer: s.manufacturer,
        model: s.model,
        serial: s.serial_number,
        bios: s.bios_version,
        cpu_count: match s.processor_summary {
            Some(p) => p.count,
            None => None,
        },
        cpu_model: match s.processor_summary {
            Some(p) => p.model,
            None => None,
        },
        memory_gib_milli: match s.memory_summary {
            Some(m) => m.total_system_memory_gib_milli,
            None => None,
        },
    }
}

/// Reads the machine's description out of a system resource.
pub fn machine_from(s: System) -> (m: Machine)
    ensures
        m == machine_of(s),
{
    let (cpu_count, cpu_model) = match s.processor_summary {
        Some(p) => (p.count, p.model),
        None => (None, None),
    };
    Machine {
        power_state: s.power_state,
        health: match s.status {
            Some(st) => st.health,
            None => None,
        },
        manufacturer: s.manufacturer,
        model: s.model,
        serial: s.serial_number,
        bios: s.bios_version,
        cpu_count,
        cpu_model,
        memory_gib_milli: match s.memory_summary {
            Some(m) => m.total_system_memory_gib_milli,
            None => None,
        },
    }
}

/// Everything the interface draws.
pub struct Snapshot {
    pub machine: Machine,
    /// Thousandths of a watt, as are the three below.
    pub watts: Option<i64>,
    pub watts_avg: Option<i64>,
    pub watts_min: Option<i64>,
    pub watts_max: Option<i64>,
    pub watts_history: VecDeque<i64>,
    pub sensors: Vec<Sensor>,
    /// Empty while everything is fine; shown in the status bar so that a
    /// failure that started ten minutes ago does not look like fresh data.
    pub error: Option<String>,
    pub last_poll: Option<std::time::Instant>,
    pub polls: u64,
    /// True while a poll is in flight.
    pub busy: bool,
    pub status: String,
    pub logs: Vec<(String, String, String)>,
}

impl Default for Snapshot {
    fn default() -> (s: Self)
        ensures
            s.machine == machine_unknown(),
            s.watts is None && s.watts_avg is None && s.watts_min is None && s.watts_max is None,
            s.watts_history@.len() == 0,
            s.sensors@.len() == 0,
            s.error is None,
            s.last_poll is None,
            s.polls == 0,
            !s.busy,
            s.status@.len() == 0,
            s.logs@.len() == 0,
    {
        Snapshot {
            machine: Machine::unknown(),
            watts: None,
            watts_avg: None,
            watts_min: None,
            watts_max: None,
            watts_history: VecDeque::new(),
            sensors: Vec::new(),
            error: None,
            last_poll: None,
            polls: 0,
            busy: false,
            status: String::new(),
            logs: Vec::new(),
        }
    }
}

impl Snapshot {
    /// The sensors that need attention: faulty ones first, then failing ones.
    pub fn faults(&self) -> (r: Vec<&Sensor>)
        ensures
            ref_views(r@) == faults_of(sensor_views(self.sensors@)),
    {
        let mut r: Vec<&Sensor> = Vec::new();
        collect_severity(&self.sensors, Severity::Bad, &mut r);
        collect_severity(&self.sensors, Severity::Failing, &mut r);
        assert(ref_views(r@) =~= faults_of(sensor_views(self.sensors@)));
        r
    }

    /// Marks a poll as in flight.
    pub fn begin_poll(&mut self)
        ensures
            *final(self) == (Snapshot { busy: true, ..*old(self) }),
    {
        self.busy = true;
    }

    /// Sets the message shown in the status bar.
    pub fn say(&mut self, msg: String)
        ensures
            *final(self) == (Snapshot { status: msg, ..*old(self) }),
    {
        self.status = msg;
    }
}

// ------------------------------------------------------------------ poll ---

/// The text of an optional name, `?` when there is none.
pub open spec fn name_or_unknown(o: Option<String>) -> Seq<char> {
    match o {
        Some(s) => s@,
        None => "?"@,
    }
}

fn name_or_mark(o: Option<String>) -> (r: String)
    ensures
        r@ == name_or_unknown(o),
{
    match o {
        Some(s) => s,
        None => owned("?"),
    }
}

/// The health in an optional status.
pub open spec fn status_health(s: Option<Status>) -> Option<Seq<char>> {
    match s {
        Some(st) => opt_view(st.health),
        None => None,
    }
}

/// The state in an optional status.
pub open spec fn status_state(s: Option<Status>) -> Option<Seq<char>> {
    match s {
        Some(st) => opt_view(st.state),
        None => None,
    }
}

fn split_status(s: Option<Status>) -> (r: (Option<String>, Option<String>, bool))
    ensures
        opt_view(r.0) == status_health(s),
        opt_view(r.1) == status_state(s),
        r.2 == present_status(s),
{
    match s {
        Some(st) => {
            let present = st.is_present();
            (st.health, st.state, present)
        },
        None => (None, None, true),
    }
}


/// The sensor a temperature entry becomes.
pub open spec fn temperature_view(t: Temperature) -> SensorView {
    SensorView {
        name: name_or_unknown(t.name),
        member_id: opt_view(t.member_id),
        kind: Kind::Temperature,
        reading: t.reading_celsius_milli,
        health: status_health(t.status),
        state: status_state(t.status),
        present: present_status(t.status),
        lower_critical: None,
        upper_critical: t.upper_threshold_critical_milli,
        history: Seq::empty(),
    }
}

/// The sensor a fan entry becomes; its readings stay whole RPM.
pub open spec fn fan_view(f: Fan) -> SensorView {
    SensorView {
        name: name_or_unknown(f.name),
        member_id: opt_view(f.member_id),
        kind: Kind::Fan,
        reading: f.reading,
        health: status_health(f.status),
        state: status_state(f.status),
        present: present_status(f.status),
        lower_critical: f.lower_threshold_critical,
        upper_critical: None,
        history: Seq::empty(),
    }
}

/// The sensor a voltage entry becomes.
pub open spec fn voltage_view(v: Voltage) -> SensorView {
    SensorView {
        name: name_or_unknown(v.name),
        member_id: None,
        kind: Kind::Voltage,
        reading: v.reading_volts_milli,
        health: status_health(v.status),
        state: status_state(v.status),
        present: present_status(v.status),
        lower_critical: None,
        upper_critical: None,
        history: Seq::empty(),
    }
}

fn temperature_sensor(t: Temperature) -> (s: Sensor)
    ensures
        s@ == temperature_view(t),
{
    let (health, state, present) = split_status(t.status);
    Sensor {
        name: name_or_mark(t.name),
        member_id: t.member_id,
        kind: Kind::Temperature,
        reading: t.reading_celsius_milli,
        health,
        state,
        present,
        lower_critical: None,
        upper_critical: t.upper_threshold_critical_milli,
        history: VecDeque::new(),
    }
}

fn fan_sensor(f: Fan) -> (s: Sensor)
    ensures
        s@ == fan_view(f),
{
    let (health, state, present) = split_status(f.status);
    Sensor {
        name: name_or_mark(f.name),
        member_id: f.member_id,
        kind: Kind::Fan,
        reading: f.reading,
        health,
        state,
        present,
        lower_critical: f.lower_threshold_critical,
        upper_critical: None,
        history: VecDeque::new(),
    }
}

fn voltage_sensor(v: Voltage) -> (s: Sensor)
    ensures
        s@ == voltage_view(v),
{
    let (health, state, present) = split_status(v.status);
    Sensor {
        name: name_or_mark(v.name),
        member_id: None,
        kind: Kind::Voltage,
        reading: v.reading_volts_milli,
        health,
        state,
        present,
        lower_critical: None,
        upper_critical: None,
        history: VecDeque::new(),
    }
}

/// The sensors a poll read: temperatures, then fans, then voltages.
pub open spec fn fresh_views(thermal: Option<Thermal>, voltages: Seq<Voltage>) -> Seq<SensorView> {
    (match thermal {
        Some(t) => t.temperatures@.map_values(|x: Temperature| temperature_view(x))
            + t.fans@.map_values(|x: Fan| fan_view(x)),
        None => Seq::empty(),
    }) + voltages.map_values(|x: Voltage| voltage_view(x))
}

fn push_temperatures(out: &mut Vec<Sensor>, v: Vec<Temperature>)
    ensures
        sensor_views(final(out)@) == sensor_views(old(out)@) + v@.map_values(|x: Temperature| temperature_view(x)),
{
    let ghost all = v@;
    let ghost start = sensor_views(out@);
    for x in iter: v
        invariant
            iter.seq() == all,
            sensor_views(out@) == start + all.take(iter.index()).map_values(|x: Temperature| temperature_view(x)),
    {
        let ghost before = sensor_views(out@);
        let ghost k = iter.index();
        let s = temperature_sensor(x);
        out.push(s);
        assert(all.take(k + 1) =~= all.take(k).push(x));
        assert(sensor_views(out@) =~= before.push(s@));
        assert(all.take(k + 1).map_values(|x: Temperature| temperature_view(x)) =~= all.take(k).map_values(|x: Temperature| temperature_view(x)).push(temperature_view(x)));
    }
    assert(all.take(all.len() as int) =~= all);
}

fn push_fans(out: &mut Vec<Sensor>, v: Vec<Fan>)
    ensures
        sensor_views(final(out)@) == sensor_views(old(out)@) + v@.map_values(|x: Fan| fan_view(x)),
{
    let ghost all = v@;
    let ghost start = sensor_views(out@);
    for x in iter: v
        invariant
            iter.seq() == all,
            sensor_views(out@) == start + all.take(iter.index()).map_values(|x: Fan| fan_view(x)),
    {
        let ghost before = sensor_views(out@);
        let ghost k = iter.index();
        let s = fan_sensor(x);
        out.push(s);
        assert(all.take(k + 1) =~= all.take(k).push(x));
        assert(sensor_views(out@) =~= before.push(s@));
        assert(all.take(k + 1).map_values(|x: Fan| fan_view(x)) =~= all.take(k).map_values(|x: Fan| fan_view(x)).push(fan_view(x)));
    }
    assert(all.take(all.len() as int) =~= all);
}

fn push_voltages(out: &mut Vec<Sensor>, v: Vec<Voltage>)
    ensures
        sensor_views(final(out)@) == sensor_views(old(out)@) + v@.map_values(|x: Voltage| voltage_view(x)),
{
    let ghost all = v@;
    let ghost start = sensor_views(out@);
    for x in iter: v
        invariant
            iter.seq() == all,
            sensor_views(out@) == start + all.take(iter.index()).map_values(|x: Voltage| voltage_view(x)),
    {
        let ghost before = sensor_views(out@);
        let ghost k = iter.index();
        let s = voltage_sensor(x);
        out.push(s);
        assert(all.take(k + 1) =~= all.take(k).push(x));
        assert(sensor_views(out@) =~= before.push(s@));
        assert(all.take(k + 1).map_values(|x: Voltage| voltage_view(x)) =~= all.take(k).map_values(|x: Voltage| voltage_view(x)).push(voltage_view(x)));
    }
    assert(all.take(all.len() as int) =~= all);
}


/// The voltages in an optional power resource.
pub open spec fn voltages_of(power: Option<Power>) -> Seq<Voltage> {
    match power {
        Some(p) => p.voltages@,
        None => Seq::empty(),
    }
}

/// The first power-control entry of an optional power resource.
pub open spec fn power_control_of(power: Option<Power>) -> Option<crate::models::PowerControl> {
    match power {
        Some(p) => if p.power_control@.len() > 0 {
            Some(p.power_control@[0])
        } else {
            None
        },
        None => None,
    }
}

/// The consumption fields after a poll: the first power-control entry, when
/// there is one, replaces the reading (and adds it to the history) and, when it
/// carries metrics, the reported average and range.
pub open spec fn consumption_after(old: Snapshot, new: Snapshot, power: Option<Power>) -> bool {
    match power_control_of(power) {
        Some(pc) => {
            &&& new.watts == pc.power_consumed_watts_milli
            &&& new.watts_history@ == recorded(old.watts_history@, pc.power_consumed_watts_milli)
            &&& match pc.power_metrics {
                Some(m) => {
                    &&& new.watts_avg == m.average_consumed_watts_milli
                    &&& new.watts_min == m.min_consumed_watts_milli
                    &&& new.watts_max == m.max_consumed_watts_milli
                },
                None => {
                    &&& new.watts_avg == old.watts_avg
                    &&& new.watts_min == old.watts_min
                    &&& new.watts_max == old.watts_max
                },
            }
        },
        None => {
            &&& new.watts == old.watts
            &&& new.watts_history@ == old.watts_history@
            &&& new.watts_avg == old.watts_avg
            &&& new.watts_min == old.watts_min
            &&& new.watts_max == old.watts_max
        },
    }
}

impl Snapshot {
    /// Folds the results of one poll into the snapshot. `sys` is the system
    /// resource or the message of the error that fetching it gave; `power` and
    /// `thermal` are the chassis resources when they could be read.
    pub fn apply_poll(
        &mut self,
        sys: Result<System, String>,
        power: Option<Power>,
        thermal: Option<Thermal>,
        now: std::time::Instant,
    )
        requires
            old(self).polls < u64::MAX,
        ensures
            final(self).machine == (match sys {
                Ok(s) => machine_of(s),
                Err(_) => old(self).machine,
            }),
            consumption_after(*old(self), *final(self), power),
            sensor_views(final(self).sensors@) == merged(
                sensor_views(old(self).sensors@),
                fresh_views(thermal, voltages_of(power)),
            ),
            final(self).error == (match sys {
                Ok(_) => None,
                Err(e) => Some(e),
            }),
            final(self).last_poll == Some(now),
            final(self).polls == old(self).polls + 1,
            !final(self).busy,
            final(self).status == old(self).status,
            final(self).logs == old(self).logs,
    {
        let mut fresh: Vec<Sensor> = Vec::new();
        match thermal {
            Some(t) => {
                push_temperatures(&mut fresh, t.temperatures);
                push_fans(&mut fresh, t.fans);
            },
            None => {},
        }
        let err = match sys {
            Ok(s) => {
                self.machine = machine_from(s);
                None
            },
            Err(e) => Some(e),
        };
        match power {
            Some(p) => {
                if p.power_control.len() > 0 {
                    let pc = &p.power_control[0];
                    self.watts = pc.power_consumed_watts_milli;
                    record(&mut self.watts_history, pc.power_consumed_watts_milli);
                    match &pc.power_metrics {
                        Some(m) => {
                            self.watts_avg = m.average_consumed_watts_milli;
                            self.watts_min = m.min_consumed_watts_milli;
                            self.watts_max = m.max_consumed_watts_milli;
                        },
                        None => {},
                    }
                }
                push_voltages(&mut fresh, p.voltages);
            },
            None => {
                assert(sensor_views(fresh@) + Seq::<Voltage>::empty().map_values(|x: Voltage| voltage_view(x)) =~= sensor_views(fresh@));
            },
        }
        assert(sensor_views(fresh@) =~= fresh_views(thermal, voltages_of(power)));
        merge(&mut self.sensors, fresh);
        self.error = err;
        self.last_poll = Some(now);
        self.polls = self.polls + 1;
        self.busy = false;
    }
}

// ------------------------------------------------------------------ jobs ---

/// The Redfish path of the system resource.
pub const SYSTEM_PATH: &'static str = "/redfish/v1/Systems/Self";
/// The Redfish path of the chassis power resource.
pub const POWER_PATH: &'static str = "/redfish/v1/Chassis/Self/Power";
/// The Redfish path of the chassis thermal resource.
pub const THERMAL_PATH: &'static str = "/redfish/v1/Chassis/Self/Thermal";
/// The Redfish action that powers the host on, off or through a cycle.
pub const RESET_PATH: &'static str = "/redfish/v1/Systems/Self/Actions/ComputerSystem.Reset";

/// What the interface can ask the worker to do. Nothing of this runs in the
/// draw loop: there, a one-second wait looks like a hung interface.
#[derive(Debug)]
pub enum Job {
    /// Load the BMC's event log.
    Logs,
    /// Send a reset of this type (`On`, `GracefulShutdown`, ...).
    Reset(&'static str),
    /// Change one threshold of one sensor.
    Threshold {
        sensor: String,
        /// The array of the thermal resource the sensor lives in.
        array: &'static str,
        member: String,
        field: &'static str,
        /// The new value, a decimal number exactly as it was typed.
        value: String,
    },
}

impl Job {
    /// A threshold job's value is a decimal number of at most 24 characters,
    /// as the threshold editor makes it.
    pub open spec fn wf(self) -> bool {
        self matches Job::Threshold { value, .. } ==> value@.len() <= 24 && is_number(value@)
    }
}

/// What the status bar says when a job starts.
pub open spec fn job_started_text(job: Job) -> Seq<char> {
    match job {
        Job::Logs => "loading the log..."@,
        Job::Reset(kind) => kind@ + "..."@,
        Job::Threshold { sensor, field, .. } => "setting "@ + sensor@ + " "@ + field@ + "..."@,
    }
}

/// What the status bar says when a job's request comes back: `outcome` is the
/// request's result, with the error's message.
pub open spec fn job_done_text(job: Job, outcome: Result<(), String>) -> Seq<char> {
    match job {
        Job::Logs => Seq::empty(),
        Job::Reset(kind) => match outcome {
            Ok(_) => kind@ + " accepted"@,
            Err(e) => kind@ + " refused: "@ + e@,
        },
        Job::Threshold { sensor, field, value, .. } => match outcome {
            Ok(_) => sensor@ + " "@ + field@ + " set to "@ + rounded_text(value@),
            // A refusal is the normal case on many boards: say it plainly.
            Err(e) => "the BMC refused: "@ + e@,
        },
    }
}

impl Job {
    /// The status message when this job starts.
    pub fn started(&self) -> (r: String)
        ensures
            r@ == job_started_text(*self),
    {
        match self {
            Job::Logs => owned("loading the log..."),
            Job::Reset(kind) => {
                let mut r = owned(kind);
                r.append("...");
                r
            },
            Job::Threshold { sensor, field, .. } => {
                let mut r = owned("setting ");
                r.append(sensor.as_str());
                r.append(" ");
                r.append(field);
                r.append("...");
                r
            },
        }
    }

    /// The status message when this job's request has come back.
    pub fn done(&self, outcome: &Result<(), String>) -> (r: String)
        requires
            self.wf(),
        ensures
            r@ == job_done_text(*self, *outcome),
    {
        match self {
            Job::Logs => String::new(),
            Job::Reset(kind) => {
                let mut r = owned(kind);
                match outcome {
                    Ok(_) => r.append(" accepted"),
                    Err(e) => {
                        r.append(" refused: ");
                        r.append(e.as_str());
                    },
                }
                r
            },
            Job::Threshold { sensor, field, value, .. } => match outcome {
                Ok(_) => {
                    let mut r = copy(sensor);
                    r.append(" ");
                    r.append(field);
                    r.append(" set to ");
                    push_rounded(&mut r, value.as_str());
                    r
                },
                Err(e) => {
                    let mut r = owned("the BMC refused: ");
                    r.append(e.as_str());
                    r
                },
            },
        }
    }

    /// Whether the job's request is followed by a fresh poll: an accepted
    /// reset or threshold change is, a refused one is not, and loading the
    /// log never is.
    pub fn repolls(&self, outcome: &Result<(), String>) -> (r: bool)
        ensures
            r == (outcome is Ok && !(*self is Logs)),
    {
        match self {
            Job::Logs => false,
            _ => outcome.is_ok(),
        }
    }
}

// ------------------------------------------------------------------ logs ---

/// A log row: when, how severe, what.
pub open spec fn log_row(e: Json) -> (Seq<char>, Seq<char>, Seq<char>) {
    (text_field(e, "Created"@, ""@), text_field(e, "Severity"@, ""@), text_field(e, "Message"@, ""@))
}

/// The view of a row of text.
pub open spec fn row_view(r: (String, String, String)) -> (Seq<char>, Seq<char>, Seq<char>) {
    (r.0@, r.1@, r.2@)
}

/// How many log entries are shown at most.
pub const MAX_LOG_ROWS: usize = 200;

/// The rows shown for a list of log entries: the newest first, at most 200.
pub open spec fn log_rows_of(entries: Seq<Json>) -> Seq<(Seq<char>, Seq<char>, Seq<char>)> {
    let n = if entries.len() < MAX_LOG_ROWS {
        entries.len()
    } else {
        MAX_LOG_ROWS as nat
    };
    Seq::new(n, |i: int| log_row(entries[entries.len() - 1 - i]))
}

/// The rows for a list of log entries, newest first.
pub fn log_rows(entries: &Vec<Json>) -> (r: Vec<(String, String, String)>)
    ensures
        r@.map_values(|x: (String, String, String)| row_view(x)) == log_rows_of(entries@),
{
    let n = entries.len();
    let take = if n < MAX_LOG_ROWS {
        n
    } else {
        MAX_LOG_ROWS
    };
    let mut r: Vec<(String, String, String)> = Vec::new();
    let mut i: usize = 0;
    while i < take
        invariant
            n == entries@.len(),
            take <= n,
            take == (if n < MAX_LOG_ROWS { n } else { MAX_LOG_ROWS }),
            i <= take,
            r@.len() == i,
            forall|j: int| 0 <= j < i ==> row_view(#[trigger] r@[j]) == log_row(entries@[n - 1 - j]),
        decreases take - i,
    {
        let e = &entries[n - 1 - i];
        let row = (text_or(e, "Created", ""), text_or(e, "Severity", ""), text_or(e, "Message", ""));
        r.push(row);
        i = i + 1;
    }
    assert(r@.map_values(|x: (String, String, String)| row_view(x)) =~= log_rows_of(entries@));
    r
}

/// The status once a log was loaded: `"{n} entries from {id}"`.
pub fn log_loaded_status(n: usize, id: &str) -> (r: String)
    ensures
        r@ == decimal(n as nat) + " entries from "@ + id@,
{
    let mut r = String::new();
    push_decimal(&mut r, n as u64);
    r.append(" entries from ");
    r.append(id);
    r
}

// ----------------------------------------------------------- log search ---

/// Where log services usually live; vendors differ, so each is tried in turn.
pub open spec fn log_root_text(i: int) -> Seq<char> {
    if i == 0 {
        "/redfish/v1/Systems/Self/LogServices"@
    } else if i == 1 {
        "/redfish/v1/Managers/Self/LogServices"@
    } else {
        "/redfish/v1/Chassis/Self/LogServices"@
    }
}

/// How many places are tried for log services.
pub const LOG_ROOTS: usize = 3;

/// The `i`-th place tried for log services.
pub fn log_root(i: usize) -> (r: &'static str)
    requires
        i < LOG_ROOTS,
    ensures
        r@ == log_root_text(i as int),
{
    if i == 0 {
        "/redfish/v1/Systems/Self/LogServices"
    } else if i == 1 {
        "/redfish/v1/Managers/Self/LogServices"
    } else {
        "/redfish/v1/Chassis/Self/LogServices"
    }
}

/// The members of a collection: its `Members` array, or nothing.
pub open spec fn members_of(v: Json) -> Seq<Json> {
    match json_array(json_get(v, "Members"@)) {
        Some(items) => items,
        None => Seq::empty(),
    }
}

/// The `@odata.id` of each member that has one, in order.
pub open spec fn member_ids(items: Seq<Json>) -> Seq<Seq<char>>
    decreases items.len(),
{
    if items.len() == 0 {
        Seq::empty()
    } else {
        member_ids(items.drop_last()) + match json_str(json_get(items.last(), "@odata.id"@)) {
            Some(id) => seq![id],
            None => Seq::empty(),
        }
    }
}

/// Looking through the log services for the first one with entries.
#[derive(Debug)]
pub struct LogSearch {
    /// The place being tried.
    pub root: usize,
    /// The services found there.
    pub ids: Vec<String>,
    /// The service whose entries were asked for.
    pub pos: usize,
    /// Whether the services of `root` were asked for, rather than entries.
    pub listing: bool,
}

/// What to do next.
#[derive(Debug)]
pub enum LogStep {
    /// Fetch this path and hand back what it returned.
    Fetch(String),
    /// A service had entries: show these rows and this status.
    Found { rows: Vec<(String, String, String)>, status: String },
    /// No service had any; say this.
    Missing(String),
}

impl LogSearch {
    /// Whether the search is waiting for an answer to a request it made.
    pub open spec fn wf(&self) -> bool {
        self.root < LOG_ROOTS && (self.listing || self.pos < self.ids@.len())
    }

    /// Starts the search at the first place.
    pub fn start() -> (r: (LogSearch, LogStep))
        ensures
            r.0.wf(),
            r.0.root == 0 && r.0.listing,
            r.1 matches LogStep::Fetch(p) && p@ == log_root_text(0),
    {
        (LogSearch { root: 0, ids: Vec::new(), pos: 0, listing: true }, LogStep::Fetch(owned(log_root(0))))
    }

    /// The request after moving on, or the end of the search.
    fn next_request(&mut self) -> (r: LogStep)
        requires
            old(self).root <= LOG_ROOTS,
            !old(self).listing ==> old(self).pos <= old(self).ids@.len() && old(self).root < LOG_ROOTS,
        ensures
            (!old(self).listing && old(self).pos >= old(self).ids@.len()) ==> final(self).root
                == old(self).root + 1 && final(self).listing,
            !(!old(self).listing && old(self).pos >= old(self).ids@.len()) ==> final(self).root
                == old(self).root && final(self).listing == old(self).listing,
            final(self).ids == old(self).ids,
            final(self).pos == old(self).pos,
            match r {
                LogStep::Fetch(p) => final(self).wf() && if final(self).listing {
                    p@ == log_root_text(final(self).root as int)
                } else {
                    p@ == final(self).ids@[final(self).pos as int]@ + "/Entries"@
                },
                LogStep::Missing(m) => final(self).listing && final(self).root >= LOG_ROOTS
                    && m@ == "this BMC exposes no readable log service over Redfish"@,
                LogStep::Found { .. } => false,
            },
    {
        if !self.listing && self.pos >= self.ids.len() {
            if self.root < LOG_ROOTS {
                self.root = self.root + 1;
            }
            self.listing = true;
        }
        if self.listing {
            if self.root < LOG_ROOTS {
                LogStep::Fetch(owned(log_root(self.root)))
            } else {
                LogStep::Missing(owned("this BMC exposes no readable log service over Redfish"))
            }
        } else {
            let mut p = copy(&self.ids[self.pos]);
            p.append("/Entries");
            LogStep::Fetch(p)
        }
    }
}

fn collect_ids(items: &Vec<Json>) -> (r: Vec<String>)
    ensures
        crate::text::views(r@) == member_ids(items@),
{
    let mut r: Vec<String> = Vec::new();
    let mut i: usize = 0;
    while i < items.len()
        invariant
            i <= items@.len(),
            crate::text::views(r@) == member_ids(items@.take(i as int)),
        decreases items@.len() - i,
    {
        assert(items@.take(i + 1).drop_last() =~= items@.take(i as int));
        let ghost before = crate::text::views(r@);
        match str_opt(items[i].get("@odata.id")) {
            Some(id) => {
                r.push(id);
                assert(crate::text::views(r@) =~= before.push(id@));
            },
            None => {},
        }
        i = i + 1;
        assert(crate::text::views(r@) =~= member_ids(items@.take(i as int)));
    }
    assert(items@.take(items@.len() as int) =~= items@);
    r
}

fn members<'a>(v: &'a Json) -> (r: Option<&'a Vec<Json>>)
    ensures
        match r {
            Some(items) => members_of(*v) == items@,
            None => members_of(*v) == Seq::<Json>::empty(),
        },
{
    match v.get("Members") {
        Some(m) => m.as_array(),
        None => None,
    }
}

impl LogSearch {
    /// Takes the answer to the last request (`None` when it failed) and says
    /// what to do next. A place that does not answer is skipped, as is a
    /// service whose entries cannot be read or are empty; the first service
    /// with entries ends the search.
    pub fn advance(&mut self, resp: Option<&Json>) -> (r: LogStep)
        requires
            old(self).wf(),
        ensures
            match r {
                LogStep::Found { rows, status } => {
                    &&& !old(self).listing
                    &&& (resp matches Some(e) && members_of(*e).len() > 0 && {
                        &&& rows@.map_values(|x: (String, String, String)| row_view(x)) == log_rows_of(members_of(*e))
                        &&& status@ == decimal(rows@.len()) + " entries from "@ + old(self).ids@[old(self).pos as int]@
                    })
                },
                _ => {
                    &&& !(!old(self).listing && (resp matches Some(e) && members_of(*e).len() > 0))
                    // Each answer moves the search forward: a place that does
                    // not answer is left for the next one; a place that lists
                    // services leads to the entries of the first; an empty or
                    // unreadable service leads to the next service, or, after
                    // the last, to the next place.
                    &&& if old(self).listing {
                        match resp {
                            None => final(self).root == old(self).root + 1 && final(self).listing,
                            Some(v) => {
                                &&& crate::text::views(final(self).ids@) == member_ids(members_of(*v))
                                &&& final(self).pos == 0
                                &&& if final(self).ids@.len() == 0 {
                                    final(self).root == old(self).root + 1 && final(self).listing
                                } else {
                                    final(self).root == old(self).root && !final(self).listing
                                }
                            },
                        }
                    } else {
                        &&& final(self).ids == old(self).ids
                        &&& final(self).pos == old(self).pos + 1
                        &&& if old(self).pos + 1 < old(self).ids@.len() {
                            final(self).root == old(self).root && !final(self).listing
                        } else {
                            final(self).root == old(self).root + 1 && final(self).listing
                        }
                    }
                    &&& (r matches LogStep::Fetch(p) ==> final(self).wf() && if final(self).listing {
                        p@ == log_root_text(final(self).root as int)
                    } else {
                        p@ == final(self).ids@[final(self).pos as int]@ + "/Entries"@
                    })
                    &&& (r matches LogStep::Missing(m) ==> final(self).root == LOG_ROOTS
                        && m@ == "this BMC exposes no readable log service over Redfish"@)
                    &&& (r is Fetch || r is Missing)
                    &&& (r is Missing <==> (final(self).listing && final(self).root >= LOG_ROOTS))
                },
            },
    {
        if self.listing {
            match resp {
                None => {
                    self.root = self.root + 1;
                },
                Some(v) => {
                    let ids = match members(v) {
                        Some(items) => collect_ids(items),
                        None => Vec::new(),
                    };
                    self.ids = ids;
                    self.pos = 0;
                    self.listing = false;
                },
            }
        } else {
            match resp {
                Some(e) => match members(e) {
                    Some(entries) => {
                        if entries.len() > 0 {
                            let rows = log_rows(entries);
                            let status = log_loaded_status(rows.len(), self.ids[self.pos].as_str());
                            return LogStep::Found { rows, status };
                        }
                    },
                    None => {},
                },
                None => {},
            }
            let n = self.ids.len();
            assert(self.pos < n);
            self.pos = self.pos + 1;
        }
        self.next_request()
    }
}

} // verus!
