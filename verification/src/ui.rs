//! The interactive interface: what each key does, and what each tab shows.
//!
//! Drawing is the terminal library's business; every decision behind it is
//! made here. A key press is a step from one interface state to the next plus
//! the effects the program must carry out (a message in the status bar, a job
//! for the worker, a fresh poll). Destructive actions ask first, and a pending
//! question swallows every other key.

use vstd::prelude::*;
use crate::snapshot::{
    index_named, kind_label, kind_unit, needs_attention, ref_views, sensor_views, severity_of,
    severity_text, push_value, value_text, Job, Kind, Machine, Sensor, SensorView, Severity, Snapshot,
};
use crate::text::{
    copy, decimal, eq_ignore_ascii_case, hundredths, is_digit, owned, pad_right,
    is_number, is_number_text, pop_char, push_char, push_decimal, push_hundredths,
    push_padded_right, push_whole, same_ignoring_ascii_case, trim, trimmed, whole,
};

verus! {

broadcast use vstd::string::group_string_axioms;

/// How many tabs there are.
pub const TAB_COUNT: usize = 5;

/// The tab titles, as the tab bar shows them.
pub open spec fn tab_titles_text() -> Seq<Seq<char>> {
    seq![" 1 Overview "@, " 2 Sensors "@, " 3 Charts "@, " 4 Power "@, " 5 Logs "@]
}

/// The titles of the tab bar, numbered for the key that opens each.
pub fn tab_titles() -> (r: Vec<String>)
    ensures
        crate::text::views(r@) == tab_titles_text(),
{
    let r = vec![
        owned(" 1 Overview "),
        owned(" 2 Sensors "),
        owned(" 3 Charts "),
        owned(" 4 Power "),
        owned(" 5 Logs "),
    ];
    assert(crate::text::views(r@) =~= tab_titles_text());
    r
}

/// Which sensors the sensor tab lists.
#[derive(Clone, Copy, PartialEq, Eq, Structural, Debug)]
pub enum Filter {
    All,
    Temps,
    Fans,
    Volts,
    Problems,
}

/// A filter's name in the sensor tab's title.
pub open spec fn filter_label(f: Filter) -> Seq<char> {
    match f {
        Filter::All => "all"@,
        Filter::Temps => "temperatures"@,
        Filter::Fans => "fans"@,
        Filter::Volts => "voltages"@,
        Filter::Problems => "problems only"@,
    }
}

impl Filter {
    /// The filter's name in the sensor tab's title.
    pub fn label(&self) -> (r: &'static str)
        ensures
            r@ == filter_label(*self),
    {
        match self {
            Filter::All => "all",
            Filter::Temps => "temperatures",
            Filter::Fans => "fans",
            Filter::Volts => "voltages",
            Filter::Problems => "problems only",
        }
    }
}

/// Whether a filter lists a sensor. Absent sensors are hidden, except that
/// the problems filter lists whatever needs attention.
pub open spec fn shown_by(f: Filter, s: SensorView) -> bool {
    match f {
        Filter::All => s.present,
        Filter::Temps => s.present && s.kind == Kind::Temperature,
        Filter::Fans => s.present && s.kind == Kind::Fan,
        Filter::Volts => s.present && s.kind == Kind::Voltage,
        Filter::Problems => needs_attention(severity_of(s)),
    }
}

/// The sensors a filter lists, in order.
pub open spec fn visible_of(s: Seq<SensorView>, f: Filter) -> Seq<SensorView>
    decreases s.len(),
{
    if s.len() == 0 {
        Seq::empty()
    } else if shown_by(f, s.last()) {
        visible_of(s.drop_last(), f).push(s.last())
    } else {
        visible_of(s.drop_last(), f)
    }
}

fn is_shown(f: Filter, s: &Sensor) -> (r: bool)
    ensures
        r == shown_by(f, s@),
{
    match f {
        Filter::All => s.present,
        Filter::Temps => s.present && s.kind == Kind::Temperature,
        Filter::Fans => s.present && s.kind == Kind::Fan,
        Filter::Volts => s.present && s.kind == Kind::Voltage,
        Filter::Problems => {
            let sev = s.severity();
            sev == Severity::Bad || sev == Severity::Failing
        },
    }
}

/// The sensors a filter lists.
pub fn visible<'a>(f: Filter, snap: &'a Snapshot) -> (r: Vec<&'a Sensor>)
    ensures
        ref_views(r@) == visible_of(sensor_views(snap.sensors@), f),
{
    let ss = &snap.sensors;
    let mut r: Vec<&'a Sensor> = Vec::new();
    let mut i: usize = 0;
    while i < ss.len()
        invariant
            i <= ss@.len(),
            ref_views(r@) == visible_of(sensor_views(ss@).take(i as int), f),
        decreases ss@.len() - i,
    {
        let ghost before = ref_views(r@);
        assert(sensor_views(ss@).take(i + 1).drop_last() =~= sensor_views(ss@).take(i as int));
        if is_shown(f, &ss[i]) {
            r.push(&ss[i]);
            assert(ref_views(r@) =~= before.push(ss@[i as int]@));
        }
        i = i + 1;
    }
    assert(sensor_views(ss@).take(ss@.len() as int) =~= sensor_views(ss@));
    r
}

/// A key press, as far as the interface cares.
#[derive(Clone, Copy, PartialEq, Eq, Structural, Debug)]
pub enum Key {
    Char(char),
    Esc,
    Backspace,
    Enter,
    Tab,
    BackTab,
    Left,
    Right,
    Up,
    Down,
    Home,
    Other,
}

/// What the program must do after a key press.
#[derive(Debug)]
pub enum Effect {
    /// Show this in the status bar.
    Say(String),
    /// Hand this job to the worker.
    Send(Job),
    /// Poll now (requests coalesce: pressing the key ten times leaves one poll pending).
    Refresh,
}

/// What a pending question will do if the user says yes.
#[derive(Clone, Copy, Debug)]
pub enum Action {
    Reset(&'static str),
}

/// A question the user has to answer before something irreversible happens.
#[derive(Debug)]
pub struct Confirm {
    pub title: String,
    pub body: String,
    pub action: Action,
}

/// Editing a threshold in place. The BMC decides whether it accepts the change.
#[derive(Debug)]
pub struct Edit {
    pub sensor: String,
    pub member_id: String,
    pub field: &'static str,
    pub array: &'static str,
    /// The sensor's kind, which says how `current` is held.
    pub kind: Kind,
    /// The current value, as the sensor holds its limits.
    pub current: Option<i64>,
    pub buffer: String,
}

/// The state of the interactive interface.
#[derive(Debug)]
pub struct App {
    pub host: String,
    pub tab: usize,
    pub filter: Filter,
    /// The highlighted row of the sensor tab, if any.
    pub selected: Option<usize>,
    /// The sensor shown on the chart tab, by name.
    pub charted: Option<String>,
    pub confirm: Option<Confirm>,
    pub edit: Option<Edit>,
    pub help: bool,
    pub logs_asked: bool,
    pub quit: bool,
}

/// The longest text the threshold editor holds.
pub const EDIT_MAX: usize = 24;

impl App {
    /// The interface's invariant: a real tab, and an editor text short enough
    /// to read.
    pub open spec fn wf(&self) -> bool {
        &&& self.tab < TAB_COUNT
        &&& self.edit matches Some(e) ==> e.buffer@.len() <= EDIT_MAX
    }

    /// The interface as it opens: the first tab, every present sensor, the
    /// first row highlighted, nothing pending.
    pub fn new(host: String) -> (a: App)
        ensures
            a.wf(),
            a.host == host,
            a.tab == 0,
            a.filter == Filter::All,
            a.selected == Some(0usize),
            a.charted is None,
            a.confirm is None,
            a.edit is None,
            !a.help,
            !a.logs_asked,
            !a.quit,
    {
        App {
            host,
            tab: 0,
            filter: Filter::All,
            selected: Some(0),
            charted: None,
            confirm: None,
            edit: None,
            help: false,
            logs_asked: false,
            quit: false,
        }
    }
}

// ------------------------------------------------------------------ keys ---

/// Exactly one effect: this message.
pub open spec fn says(fx: Seq<Effect>, msg: Seq<char>) -> bool {
    fx.len() == 1 && (fx[0] matches Effect::Say(m) && m@ == msg)
}

/// A character the threshold editor accepts.
pub open spec fn edit_char(c: char) -> bool {
    is_digit(c) || c == '.' || c == '-'
}

/// The editor still open on the same sensor, with this text.
pub open spec fn edit_with(e: Edit, ne: Option<Edit>, buffer: Seq<char>) -> bool {
    ne matches Some(x) && {
        &&& x.sensor == e.sensor
        &&& x.member_id == e.member_id
        &&& x.field == e.field
        &&& x.array == e.array
        &&& x.kind == e.kind
        &&& x.current == e.current
        &&& x.buffer@ == buffer
    }
}

/// Enter in the editor: a number becomes a threshold job carrying the text
/// exactly as typed (trimmed), anything else is reported and dropped.
pub open spec fn edit_applied(e: Edit, fx: Seq<Effect>) -> bool {
    if is_number(trim(e.buffer@)) {
        fx.len() == 1 && (fx[0] matches Effect::Send(
            Job::Threshold { sensor, array, member, field, value },
        ) && {
            &&& sensor == e.sensor
            &&& array == e.array
            &&& member == e.member_id
            &&& field == e.field
            &&& value@ == trim(e.buffer@)
        })
    } else {
        says(fx, e.buffer@ + " is not a number"@)
    }
}

/// Every job among the effects is well formed.
pub open spec fn jobs_wf(fx: Seq<Effect>) -> bool {
    forall|i: int| 0 <= i < fx.len() ==> (#[trigger] fx[i] matches Effect::Send(j) ==> j.wf())
}

/// Everything but the editor is as it was.
pub open spec fn same_but_edit(a: App, b: App) -> bool {
    &&& b.host == a.host
    &&& b.tab == a.tab
    &&& b.filter == a.filter
    &&& b.selected == a.selected
    &&& b.charted == a.charted
    &&& b.confirm == a.confirm
    &&& b.help == a.help
    &&& b.logs_asked == a.logs_asked
    &&& b.quit == a.quit
}

/// A key while the editor is open only touches the editor: Esc cancels,
/// Enter applies, Backspace deletes, and digits, points and minus signs are
/// typed while the text is under 12 characters.
pub open spec fn editing(old: App, new: App, key: Key, fx: Seq<Effect>) -> bool {
    let e = old.edit->0;
    &&& same_but_edit(old, new)
    &&& match key {
        Key::Esc => new.edit is None && says(fx, "cancelled"@),
        Key::Enter => new.edit is None && edit_applied(e, fx),
        Key::Backspace => fx.len() == 0 && edit_with(
            e,
            new.edit,
            if e.buffer@.len() > 0 {
                e.buffer@.drop_last()
            } else {
                e.buffer@
            },
        ),
        Key::Char(c) => fx.len() == 0 && if edit_char(c) {
            edit_with(
                e,
                new.edit,
                if e.buffer@.len() < 12 {
                    e.buffer@.push(c)
                } else {
                    e.buffer@
                },
            )
        } else {
            new.edit == old.edit
        },
        _ => fx.len() == 0 && new.edit == old.edit,
    }
}

/// Everything but the pending question is as it was.
pub open spec fn same_but_confirm(a: App, b: App) -> bool {
    &&& b.host == a.host
    &&& b.tab == a.tab
    &&& b.filter == a.filter
    &&& b.selected == a.selected
    &&& b.charted == a.charted
    &&& b.edit == a.edit
    &&& b.help == a.help
    &&& b.logs_asked == a.logs_asked
    &&& b.quit == a.quit
}

/// A pending question swallows the key: `y` or `Y` carries out the action,
/// anything else cancels it.
pub open spec fn confirming(old: App, new: App, key: Key, fx: Seq<Effect>) -> bool {
    let c = old.confirm->0;
    &&& same_but_confirm(old, new)
    &&& new.confirm is None
    &&& if key == Key::Char('y') || key == Key::Char('Y') {
        fx.len() == 1 && (fx[0] matches Effect::Send(Job::Reset(k)) && c.action == Action::Reset(k))
    } else {
        says(fx, "cancelled"@)
    }
}

/// The tab after the keys that move between tabs.
pub open spec fn tab_after(tab: usize, key: Key) -> usize {
    match key {
        Key::Tab | Key::Right => ((tab + 1) % TAB_COUNT as int) as usize,
        Key::BackTab | Key::Left => ((tab + TAB_COUNT - 1) % TAB_COUNT as int) as usize,
        Key::Char(d) => if '1' <= d && d <= '5' {
            ((d as int) - ('1' as int)) as usize
        } else {
            tab
        },
        _ => tab,
    }
}

/// The keys that quit: `q`, Esc, Ctrl-C.
pub open spec fn quits(key: Key, ctrl: bool) -> bool {
    key == Key::Char('q') || key == Key::Esc || (key == Key::Char('c') && ctrl)
}

/// The keys that open the help.
pub open spec fn asks_help(key: Key) -> bool {
    key == Key::Char('?') || key == Key::Char('h')
}

/// The row a move starts from: the highlighted one, or the top when none is.
pub open spec fn sel_or_top(sel: Option<usize>) -> int {
    match sel {
        Some(i) => i as int,
        None => 0,
    }
}

/// The highlighted row after the keys that move it through `n` listed rows:
/// up and down wrap around (from the top when nothing is highlighted), Home
/// goes to the top.
pub open spec fn selected_after(sel: Option<usize>, key: Key, n: nat) -> Option<usize> {
    match key {
        Key::Up => if n == 0 {
            sel
        } else {
            Some(((sel_or_top(sel) - 1) % (n as int)) as usize)
        },
        Key::Down => if n == 0 {
            sel
        } else {
            Some(((sel_or_top(sel) + 1) % (n as int)) as usize)
        },
        Key::Home => Some(0usize),
        _ => sel,
    }
}

/// The highlight once the table has been laid out with `n` rows: a row past
/// the end becomes the last one, and an empty table highlights nothing.
pub open spec fn clamped(sel: Option<usize>, n: nat) -> Option<usize> {
    if n == 0 {
        None
    } else {
        match sel {
            Some(i) => if i >= n {
                Some((n - 1) as usize)
            } else {
                sel
            },
            None => None,
        }
    }
}

/// Whether the highlight is on one of the `n` listed rows.
pub open spec fn on_row(sel: Option<usize>, n: nat) -> bool {
    sel matches Some(i) && i < n
}

/// The filter keys of the sensor tab.
pub open spec fn filter_key(key: Key) -> Option<Filter> {
    match key {
        Key::Char('a') => Some(Filter::All),
        Key::Char('t') => Some(Filter::Temps),
        Key::Char('f') => Some(Filter::Fans),
        Key::Char('v') => Some(Filter::Volts),
        Key::Char('p') => Some(Filter::Problems),
        _ => None,
    }
}

/// The power keys of the power tab: the reset type and what it means.
pub open spec fn power_key(key: Key) -> Option<(Seq<char>, Seq<char>)> {
    match key {
        Key::Char('o') => Some(("On"@, "Turn the host on."@)),
        Key::Char('s') => Some(("GracefulShutdown"@, "Ask the operating system to shut down cleanly."@)),
        Key::Char('F') => Some((
            "ForceOff"@,
            "Cut power immediately. The OS is not asked and unsaved work is lost."@,
        )),
        Key::Char('R') => Some(("ForceRestart"@, "Power cycle immediately. The OS is not asked."@)),
        _ => None,
    }
}

/// The question asked before a power action: which action on which host, what
/// it means, and the state the host is in now.
pub open spec fn power_question(c: Confirm, host: Seq<char>, act: (Seq<char>, Seq<char>), state: Option<String>) -> bool {
    let (kind, what) = act;
    &&& c.title@ == kind + " on "@ + host
    &&& c.body@ == what + "\n\nThe host is currently "@ + (match state {
        Some(s) => s@,
        None => "unknown"@,
    }) + ".\n\ny to confirm, any other key to cancel."@
    &&& c.action matches Action::Reset(k) && k@ == kind
}

/// Opening the editor on the highlighted sensor: only fans and temperatures
/// have a threshold to edit, and only when the BMC gave a member id. The text
/// starts as the current value.
pub open spec fn edit_started(old: Option<Edit>, vis: Seq<SensorView>, sel: Option<usize>, new: Option<Edit>, fx: Seq<Effect>) -> bool {
    if !on_row(sel, vis.len()) {
        new == old && fx.len() == 0
    } else {
        let s = vis[sel->0 as int];
        if s.kind == Kind::Voltage {
            new == old && says(fx, "voltage thresholds are not editable here"@)
        } else if s.member_id is None {
            new == old && says(fx, "this BMC did not give that sensor a member id"@)
        } else {
            let fan = s.kind == Kind::Fan;
            let current = if fan {
                s.lower_critical
            } else {
                s.upper_critical
            };
            fx.len() == 0 && (new matches Some(e) && {
                &&& e.sensor@ == s.name
                &&& e.member_id@ == s.member_id->0
                &&& e.field@ == if fan {
                    "LowerThresholdCritical"@
                } else {
                    "UpperThresholdCritical"@
                }
                &&& e.array@ == if fan {
                    "Fans"@
                } else {
                    "Temperatures"@
                }
                &&& e.kind == s.kind
                &&& e.current == current
                &&& e.buffer@ == match current {
                    Some(v) => value_text(s.kind, v as int),
                    None => Seq::empty(),
                }
            })
        }
    }
}

/// The effect that hands the log job to the worker.
pub open spec fn asks_for_logs(e: Effect) -> bool {
    match e {
        Effect::Send(Job::Logs) => true,
        _ => false,
    }
}

/// A key with nothing pending. First the keys that work everywhere (quit,
/// help, tabs, poll, moving the highlight), then those of the tab it leads to:
/// filters, charting and editing on the sensor tab, the power questions, and
/// the log, which the log tab loads on its first visit or on `l`.
pub open spec fn navigating(
    old: App,
    new: App,
    key: Key,
    ctrl: bool,
    vis: Seq<SensorView>,
    power_state: Option<String>,
    fx: Seq<Effect>,
) -> bool {
    let t1 = tab_after(old.tab, key);
    let sel1 = selected_after(old.selected, key, vis.len());
    let logs = t1 == 4 && (key == Key::Char('l') || !old.logs_asked);
    let editing_key = t1 == 1 && key == Key::Char('e');
    let charting = t1 == 1 && key == Key::Enter;
    let filtering = t1 == 1 && filter_key(key) is Some;
    let asking = t1 == 3 && power_key(key) is Some;
    &&& new.host == old.host
    &&& new.quit == (old.quit || quits(key, ctrl))
    &&& new.help == asks_help(key)
    &&& new.logs_asked == (old.logs_asked || logs)
    &&& new.tab == if charting {
        2
    } else {
        t1
    }
    &&& new.filter == if filtering {
        filter_key(key)->0
    } else {
        old.filter
    }
    &&& new.selected == if filtering {
        Some(0usize)
    } else {
        sel1
    }
    &&& if charting && on_row(sel1, vis.len()) {
        new.charted matches Some(c) && c@ == vis[sel1->0 as int].name
    } else {
        new.charted == old.charted
    }
    &&& if asking {
        new.confirm matches Some(c) && power_question(c, old.host@, power_key(key)->0, power_state)
    } else {
        new.confirm == old.confirm
    }
    &&& if editing_key {
        edit_started(old.edit, vis, sel1, new.edit, fx)
    } else {
        &&& new.edit == old.edit
        &&& fx.len() == (if key == Key::Char('r') {
            1int
        } else {
            0
        }) + (if logs {
            1int
        } else {
            0
        })
        &&& key == Key::Char('r') ==> fx[0] is Refresh
        &&& logs ==> asks_for_logs(fx.last())
    }
}

/// What one key press does, given the sensors the current filter lists and
/// the host's power state.
pub open spec fn key_handled(
    old: App,
    new: App,
    key: Key,
    ctrl: bool,
    vis: Seq<SensorView>,
    power_state: Option<String>,
    fx: Seq<Effect>,
) -> bool {
    if old.edit is Some {
        editing(old, new, key, fx)
    } else if old.confirm is Some {
        confirming(old, new, key, fx)
    } else if old.help {
        // Any key closes the help, and does nothing else.
        &&& new == App { help: false, ..old }
        &&& fx.len() == 0
    } else {
        navigating(old, new, key, ctrl, vis, power_state, fx)
    }
}

impl App {
    fn key_in_edit(&mut self, key: Key) -> (fx: Vec<Effect>)
        requires
            old(self).wf(),
            old(self).edit is Some,
        ensures
            final(self).wf(),
            editing(*old(self), *final(self), key, fx@),
            jobs_wf(fx@),
    {
        match key {
            Key::Esc => {
                self.edit = None;
                let fx = vec![Effect::Say(owned("cancelled"))];
                fx
            },
            Key::Enter => {
                let e = self.edit.take().unwrap();
                let t = trimmed(e.buffer.as_str());
                proof {
                    crate::text::lemma_trim_len(e.buffer@);
                }
                if is_number_text(t.as_str()) {
                    vec![
                        Effect::Send(
                            Job::Threshold {
                                sensor: e.sensor,
                                array: e.array,
                                member: e.member_id,
                                field: e.field,
                                value: t,
                            },
                        ),
                    ]
                } else {
                    let mut m = copy(&e.buffer);
                    m.append(" is not a number");
                    vec![Effect::Say(m)]
                }
            },
            Key::Backspace => {
                let mut e = self.edit.take().unwrap();
                pop_char(&mut e.buffer);
                self.edit = Some(e);
                Vec::new()
            },
            Key::Char(c) => {
                if crate::text::is_digit_char(c) || c == '.' || c == '-' {
                    let mut e = self.edit.take().unwrap();
                    if e.buffer.as_str().unicode_len() < 12 {
                        push_char(&mut e.buffer, c);
                    }
                    self.edit = Some(e);
                }
                Vec::new()
            },
            _ => Vec::new(),
        }
    }

    fn key_in_confirm(&mut self, key: Key) -> (fx: Vec<Effect>)
        requires
            old(self).wf(),
            old(self).edit is None,
            old(self).confirm is Some,
        ensures
            final(self).wf(),
            confirming(*old(self), *final(self), key, fx@),
    {
        let c = self.confirm.take().unwrap();
        if key == Key::Char('y') || key == Key::Char('Y') {
            match c.action {
                Action::Reset(kind) => vec![Effect::Send(Job::Reset(kind))],
            }
        } else {
            vec![Effect::Say(owned("cancelled"))]
        }
    }

    fn move_sel(&mut self, up: bool, n: usize)
        ensures
            *final(self) == (App { selected: final(self).selected, ..*old(self) }),
            final(self).selected == selected_after(
                old(self).selected,
                if up {
                    Key::Up
                } else {
                    Key::Down
                },
                n as nat,
            ),
    {
        if n == 0 {
            return;
        }
        let cur = match self.selected {
            Some(i) => i,
            None => 0,
        };
        if up {
            if cur == 0 {
                assert((0int - 1) % (n as int) == n - 1) by (nonlinear_arith)
                    requires
                        n > 0,
                ;
                self.selected = Some(n - 1);
            } else {
                self.selected = Some((cur - 1) % n);
            }
        } else {
            self.selected = Some(((cur as u128 + 1) % (n as u128)) as usize);
        }
    }

    /// Brings the highlight back onto a sensor table that has just been laid
    /// out with `rows` rows; nothing else changes.
    pub fn clamp_selection(&mut self, rows: usize)
        ensures
            *final(self) == (App { selected: clamped(old(self).selected, rows as nat), ..*old(self) }),
    {
        let sel = if rows == 0 {
            None
        } else {
            match self.selected {
                Some(i) => if i >= rows {
                    Some(rows - 1)
                } else {
                    Some(i)
                },
                None => None,
            }
        };
        self.selected = sel;
    }

    fn start_edit(&mut self, snap: &Snapshot) -> (fx: Vec<Effect>)
        requires
            old(self).wf(),
        ensures
            final(self).wf(),
            *final(self) == (App { edit: final(self).edit, ..*old(self) }),
            edit_started(
                old(self).edit,
                visible_of(sensor_views(snap.sensors@), old(self).filter),
                old(self).selected,
                final(self).edit,
                fx@,
            ),
    {
        let vis = visible(self.filter, snap);
        let i = match self.selected {
            Some(i) => i,
            None => {
                return Vec::new();
            },
        };
        if i >= vis.len() {
            return Vec::new();
        }
        let s = vis[i];
        assert(ref_views(vis@)[i as int] == s@);
        match s.kind {
            Kind::Voltage => vec![Effect::Say(owned("voltage thresholds are not editable here"))],
            _ => match &s.member_id {
                None => vec![Effect::Say(owned("this BMC did not give that sensor a member id"))],
                Some(id) => {
                    let fan = s.kind == Kind::Fan;
                    let (array, field, current) = if fan {
                        ("Fans", "LowerThresholdCritical", s.lower_critical)
                    } else {
                        ("Temperatures", "UpperThresholdCritical", s.upper_critical)
                    };
                    let mut buffer = String::new();
                    match current {
                        Some(v) => {
                            proof {
                                crate::text::lemma_whole_len(v);
                                crate::text::lemma_signed_len(v);
                            }
                            push_value(&mut buffer, s.kind, v);
                        },
                        None => {},
                    }
                    let kind = s.kind;
                    self.edit = Some(
                        Edit { sensor: copy(&s.name), member_id: copy(id), field, array, kind, current, buffer },
                    );
                    Vec::new()
                },
            },
        }
    }

    fn ask_power(&mut self, key: Key, snap: &Snapshot)
        ensures
            *final(self) == (App { confirm: final(self).confirm, ..*old(self) }),
            if power_key(key) is Some {
                final(self).confirm matches Some(c) && power_question(
                    c,
                    old(self).host@,
                    power_key(key)->0,
                    snap.machine.power_state,
                )
            } else {
                final(self).confirm == old(self).confirm
            },
    {
        let act: Option<(&'static str, &'static str)> = match key {
            Key::Char('o') => Some(("On", "Turn the host on.")),
            Key::Char('s') => Some(("GracefulShutdown", "Ask the operating system to shut down cleanly.")),
            Key::Char('F') => Some((
                "ForceOff",
                "Cut power immediately. The OS is not asked and unsaved work is lost.",
            )),
            Key::Char('R') => Some(("ForceRestart", "Power cycle immediately. The OS is not asked.")),
            _ => None,
        };
        match act {
            Some((kind, what)) => {
                let state = match &snap.machine.power_state {
                    Some(st) => copy(st),
                    None => owned("unknown"),
                };
                let mut title = owned(kind);
                title.append(" on ");
                title.append(self.host.as_str());
                let mut body = owned(what);
                body.append("\n\nThe host is currently ");
                body.append(state.as_str());
                body.append(".\n\ny to confirm, any other key to cancel.");
                self.confirm = Some(Confirm { title, body, action: Action::Reset(kind) });
            },
            None => {},
        }
    }

    fn navigate(&mut self, key: Key, ctrl: bool, snap: &Snapshot) -> (fx: Vec<Effect>)
        requires
            old(self).wf(),
            old(self).edit is None,
            old(self).confirm is None,
            !old(self).help,
        ensures
            final(self).wf(),
            navigating(
                *old(self),
                *final(self),
                key,
                ctrl,
                visible_of(sensor_views(snap.sensors@), old(self).filter),
                snap.machine.power_state,
                fx@,
            ),
    {
        let ghost vis = visible_of(sensor_views(snap.sensors@), self.filter);
        let mut fx: Vec<Effect> = Vec::new();
        let n = visible(self.filter, snap).len();
        match key {
            Key::Char('q') | Key::Esc => {
                self.quit = true;
            },
            Key::Char('c') if ctrl => {
                self.quit = true;
            },
            Key::Char('?') | Key::Char('h') => {
                self.help = true;
            },
            Key::Tab | Key::Right => {
                self.tab = (self.tab + 1) % TAB_COUNT;
            },
            Key::BackTab | Key::Left => {
                self.tab = (self.tab + TAB_COUNT - 1) % TAB_COUNT;
            },
            Key::Char(d) if '1' <= d && d <= '5' => {
                self.tab = (d as u32 - '1' as u32) as usize;
            },
            Key::Char('r') => {
                fx.push(Effect::Refresh);
            },
            Key::Up => {
                self.move_sel(true, n);
            },
            Key::Down => {
                self.move_sel(false, n);
            },
            Key::Home => {
                self.selected = Some(0);
            },
            _ => {},
        }
        let ghost mid = *self;
        let ghost fx1 = fx@;
        assert(mid.tab == tab_after(old(self).tab, key));
        if self.tab == 1 {
            match key {
                Key::Char('a') => {
                    self.filter = Filter::All;
                    self.selected = Some(0);
                },
                Key::Char('t') => {
                    self.filter = Filter::Temps;
                    self.selected = Some(0);
                },
                Key::Char('f') => {
                    self.filter = Filter::Fans;
                    self.selected = Some(0);
                },
                Key::Char('v') => {
                    self.filter = Filter::Volts;
                    self.selected = Some(0);
                },
                Key::Char('p') => {
                    self.filter = Filter::Problems;
                    self.selected = Some(0);
                },
                Key::Char('e') => {
                    fx = self.start_edit(snap);
                },
                Key::Enter => {
                    let shown = visible(self.filter, snap);
                    match self.selected {
                        Some(i) => {
                            if i < shown.len() {
                                let s = shown[i];
                                assert(ref_views(shown@)[i as int] == s@);
                                self.charted = Some(copy(&s.name));
                            }
                        },
                        None => {},
                    }
                    self.tab = 2;
                },
                _ => {},
            }
        } else if self.tab == 3 {
            self.ask_power(key, snap);
        } else if self.tab == 4 && (key == Key::Char('l') || !self.logs_asked) {
            self.logs_asked = true;
            fx.push(Effect::Send(Job::Logs));
        }
        fx
    }

    /// What one key press does. `snap` is what the interface shows: the
    /// sensor list that the highlight moves through, and the power state the
    /// power questions mention.
    pub fn on_key(&mut self, key: Key, ctrl: bool, snap: &Snapshot) -> (fx: Vec<Effect>)
        requires
            old(self).wf(),
        ensures
            final(self).wf(),
            key_handled(
                *old(self),
                *final(self),
                key,
                ctrl,
                visible_of(sensor_views(snap.sensors@), old(self).filter),
                snap.machine.power_state,
                fx@,
            ),
            jobs_wf(fx@),
    {
        if self.edit.is_some() {
            return self.key_in_edit(key);
        }
        if self.confirm.is_some() {
            return self.key_in_confirm(key);
        }
        if self.help {
            self.help = false;
            return Vec::new();
        }
        self.navigate(key, ctrl, snap)
    }
}


// ------------------------------------------------------------------ draw ---

/// The colours the interface uses.
#[derive(Clone, Copy, PartialEq, Eq, Structural, Debug)]
pub enum Tone {
    Red,
    Yellow,
    Green,
    Gray,
    DarkGray,
    Cyan,
}

/// The colour of the status bar's left text: red while the BMC's last poll
/// failed, grey otherwise.
pub fn bar_tone(snap: &Snapshot) -> (r: Tone)
    ensures
        r == (if snap.error is Some {
            Tone::Red
        } else {
            Tone::Gray
        }),
{
    if snap.error.is_some() {
        Tone::Red
    } else {
        Tone::Gray
    }
}

/// The popup drawn over the tabs.
#[derive(Clone, Copy, PartialEq, Eq, Structural, Debug)]
pub enum Popup {
    /// The threshold editor.
    Editor,
    /// A pending question.
    Question,
    /// The key help.
    Help,
    /// No popup.
    Nothing,
}

/// Which popup is drawn: the editor first, then a pending question, then the
/// help; nothing when none of them is open.
pub fn popup_shown(app: &App) -> (r: Popup)
    ensures
        r == (if app.edit is Some {
            Popup::Editor
        } else if app.confirm is Some {
            Popup::Question
        } else if app.help {
            Popup::Help
        } else {
            Popup::Nothing
        }),
{
    if app.edit.is_some() {
        Popup::Editor
    } else if app.confirm.is_some() {
        Popup::Question
    } else if app.help {
        Popup::Help
    } else {
        Popup::Nothing
    }
}

/// The colour of a severity: red for a fault, yellow for a warning, green when
/// fine, grey when absent.
pub fn severity_tone(s: Severity) -> (t: Tone)
    ensures
        t == match s {
            Severity::Bad => Tone::Red,
            Severity::Failing => Tone::Yellow,
            Severity::Normal => Tone::Green,
            Severity::Absent => Tone::DarkGray,
        },
{
    match s {
        Severity::Bad => Tone::Red,
        Severity::Failing => Tone::Yellow,
        Severity::Normal => Tone::Green,
        Severity::Absent => Tone::DarkGray,
    }
}

/// The colour of a log entry's severity.
pub fn log_tone(severity: &str) -> (t: Tone)
    ensures
        t == if severity@ == "Critical"@ || severity@ == "Fatal"@ {
            Tone::Red
        } else if severity@ == "Warning"@ {
            Tone::Yellow
        } else {
            Tone::Gray
        },
{
    if crate::text::same_text(severity, "Critical") || crate::text::same_text(severity, "Fatal") {
        Tone::Red
    } else if crate::text::same_text(severity, "Warning") {
        Tone::Yellow
    } else {
        Tone::Gray
    }
}

/// The keys a tab offers, as the status bar lists them.
pub open spec fn keys_hint_text(tab: usize) -> Seq<char> {
    if tab == 1 {
        "a all  t temps  f fans  v volts  p problems  enter chart  e edit threshold"@
    } else if tab == 2 {
        "enter a sensor on the Sensors tab to chart it"@
    } else if tab == 3 {
        "o on  s shutdown  F force-off  R reset"@
    } else if tab == 4 {
        "l reload"@
    } else {
        ""@
    }
}

/// The keys of a tab, for the status bar.
pub fn keys_hint(tab: usize) -> (r: &'static str)
    ensures
        r@ == keys_hint_text(tab),
{
    if tab == 1 {
        "a all  t temps  f fans  v volts  p problems  enter chart  e edit threshold"
    } else if tab == 2 {
        "enter a sensor on the Sensors tab to chart it"
    } else if tab == 3 {
        "o on  s shutdown  F force-off  R reset"
    } else if tab == 4 {
        "l reload"
    } else {
        ""
    }
}

/// How long ago the last poll was, from milliseconds: whole seconds, or
/// `never`.
pub fn age_text(elapsed_ms: Option<u64>) -> (r: String)
    ensures
        r@ == match elapsed_ms {
            Some(ms) => decimal(crate::text::round_half_even(ms as nat, 1000)) + "s ago"@,
            None => "never"@,
        },
{
    match elapsed_ms {
        Some(ms) => {
            let mut r = String::new();
            push_decimal(&mut r, crate::text::round_even(ms, 1000));
            r.append("s ago");
            r
        },
        None => owned("never"),
    }
}

/// The left of the status bar: the BMC's error while there is one (so that a
/// failure ten minutes old does not look like fresh data), else the tab's keys.
pub fn status_left(snap: &Snapshot, tab: usize) -> (r: String)
    ensures
        r@ == match snap.error {
            Some(e) => " BMC ERROR: "@ + e@,
            None => " "@ + keys_hint_text(tab),
        },
{
    match &snap.error {
        Some(e) => {
            let mut r = owned(" BMC ERROR: ");
            r.append(e.as_str());
            r
        },
        None => {
            let mut r = owned(" ");
            r.append(keys_hint(tab));
            r
        },
    }
}

/// The right of the status bar: `polling...` while a poll is in flight (never a
/// stale message), else the last status message; then the poll's age.
pub fn status_right(snap: &Snapshot, age: &str) -> (r: String)
    ensures
        r@ == (if snap.busy {
            "polling..."@
        } else {
            snap.status@
        }) + " | polled "@ + age@ + " | q quit  ? help "@,
{
    let mut r = if snap.busy {
        owned("polling...")
    } else {
        copy(&snap.status)
    };
    r.append(" | polled ");
    r.append(age);
    r.append(" | q quit  ? help ");
    r
}

/// Where a popup goes inside `area` (x, y, width, height): centred, at most 74
/// columns wide (no minimum, so it never runs off a narrow terminal), and
/// four rows taller than its text, within the area.
pub fn popup_rect(x: u16, y: u16, width: u16, height: u16, lines: usize) -> (r: (u16, u16, u16, u16))
    requires
        x + width <= u16::MAX,
        y + height <= u16::MAX,
        lines + 4 <= u16::MAX,
    ensures
        r.2 == if width < 74 {
            width
        } else {
            74
        },
        r.3 == if lines + 4 < height {
            lines + 4
        } else {
            height as int
        },
        r.0 == x + (width - r.2) / 2,
        r.1 == y + (height - r.3) / 2,
{
    let w: u16 = if width < 74 {
        width
    } else {
        74
    };
    let want = lines as u16 + 4;
    let h: u16 = if want < height {
        want
    } else {
        height
    };
    (x + (width - w) / 2, y + (height - h) / 2, w, h)
}

/// The label column of the overview: two spaces and the label in 14 columns.
pub fn kv_label(k: &str) -> (r: String)
    ensures
        r@ == "  "@ + pad_right(k@, 14),
{
    let mut r = owned("  ");
    push_padded_right(&mut r, k, 14);
    r
}

/// The rows of the overview's machine panel, label and value.
pub open spec fn machine_rows(m: Machine) -> Seq<(Seq<char>, Seq<char>)> {
    seq![
        ("power"@, match m.power_state {
            Some(s) => s@,
            None => "?"@,
        }),
        ("health"@, match m.health {
            Some(s) => s@,
            None => "?"@,
        }),
    ] + (match (m.manufacturer, m.model) {
        (Some(a), Some(b)) => seq![("machine"@, trim(a@) + " "@ + trim(b@))],
        _ => Seq::empty(),
    }) + (match m.serial {
        Some(sn) => seq![("serial"@, trim(sn@))],
        None => Seq::empty(),
    }) + (match m.bios {
        Some(b) => seq![("bios"@, trim(b@))],
        None => Seq::empty(),
    }) + (match m.cpu_count {
        Some(c) => seq![
            ("cpus"@, decimal(c as nat) + "  "@ + trim(
                match m.cpu_model {
                    Some(x) => x@,
                    None => Seq::empty(),
                },
            )),
        ],
        None => Seq::empty(),
    }) + (match m.memory_gib_milli {
        Some(g) => seq![("memory"@, whole(g as int) + " GiB"@)],
        None => Seq::empty(),
    })
}

/// The view of a row of two strings.
pub open spec fn pair_view(p: (String, String)) -> (Seq<char>, Seq<char>) {
    (p.0@, p.1@)
}

/// The views of rows of two strings.
pub open spec fn pair_views(v: Seq<(String, String)>) -> Seq<(Seq<char>, Seq<char>)> {
    v.map_values(|p: (String, String)| pair_view(p))
}

fn push_pair(rows: &mut Vec<(String, String)>, k: &str, v: String)
    ensures
        pair_views(final(rows)@) == pair_views(old(rows)@).push((k@, v@)),
{
    rows.push((owned(k), v));
    assert(pair_views(rows@) =~= pair_views(old(rows)@).push((k@, v@)));
}

fn or_mark(o: &Option<String>) -> (r: String)
    ensures
        r@ == match *o {
            Some(s) => s@,
            None => "?"@,
        },
{
    match o {
        Some(s) => copy(s),
        None => owned("?"),
    }
}

/// The overview's machine panel, as label and value.
pub fn machine_panel(m: &Machine) -> (r: Vec<(String, String)>)
    ensures
        pair_views(r@) == machine_rows(*m),
{
    let mut r: Vec<(String, String)> = Vec::new();
    push_pair(&mut r, "power", or_mark(&m.power_state));
    push_pair(&mut r, "health", or_mark(&m.health));
    let ghost a = pair_views(r@);
    match (&m.manufacturer, &m.model) {
        (Some(x), Some(y)) => {
            let mut v = trimmed(x.as_str());
            v.append(" ");
            let t = trimmed(y.as_str());
            v.append(t.as_str());
            push_pair(&mut r, "machine", v);
        },
        _ => {},
    }
    let ghost b = pair_views(r@);
    match &m.serial {
        Some(x) => push_pair(&mut r, "serial", trimmed(x.as_str())),
        None => {},
    }
    let ghost c = pair_views(r@);
    match &m.bios {
        Some(x) => push_pair(&mut r, "bios", trimmed(x.as_str())),
        None => {},
    }
    let ghost d = pair_views(r@);
    match m.cpu_count {
        Some(n) => {
            let mut v = String::new();
            push_decimal(&mut v, n as u64);
            v.append("  ");
            let model = match &m.cpu_model {
                Some(x) => copy(x),
                None => String::new(),
            };
            let t = trimmed(model.as_str());
            v.append(t.as_str());
            push_pair(&mut r, "cpus", v);
        },
        None => {},
    }
    let ghost e = pair_views(r@);
    match m.memory_gib_milli {
        Some(g) => {
            let mut v = String::new();
            push_whole(&mut v, g);
            v.append(" GiB");
            push_pair(&mut r, "memory", v);
        },
        None => {},
    }
    assert(pair_views(r@) =~= machine_rows(*m));
    r
}

/// The overview's consumption rows: the reading, and the BMC's reported
/// average and range when it gives all three.
pub open spec fn power_rows(snap: Snapshot) -> Seq<(Seq<char>, Seq<char>)> {
    (match snap.watts {
        Some(w) => seq![("consumption"@, whole(w as int) + " W"@)],
        None => Seq::empty(),
    }) + (match (snap.watts_avg, snap.watts_min, snap.watts_max) {
        (Some(a), Some(lo), Some(hi)) => seq![
            ("reported"@, "avg "@ + whole(a as int) + ", "@ + whole(lo as int) + "-"@ + whole(
                hi as int,
            ) + " W"@),
        ],
        _ => Seq::empty(),
    })
}

/// The overview's consumption rows.
pub fn power_panel(snap: &Snapshot) -> (r: Vec<(String, String)>)
    ensures
        pair_views(r@) == power_rows(*snap),
{
    let mut r: Vec<(String, String)> = Vec::new();
    match snap.watts {
        Some(w) => {
            let mut v = String::new();
            push_whole(&mut v, w);
            v.append(" W");
            push_pair(&mut r, "consumption", v);
        },
        None => {},
    }
    let ghost a = pair_views(r@);
    match (snap.watts_avg, snap.watts_min, snap.watts_max) {
        (Some(avg), Some(lo), Some(hi)) => {
            let mut v = owned("avg ");
            push_whole(&mut v, avg);
            v.append(", ");
            push_whole(&mut v, lo);
            v.append("-");
            push_whole(&mut v, hi);
            v.append(" W");
            push_pair(&mut r, "reported", v);
        },
        _ => {},
    }
    assert(pair_views(r@) =~= power_rows(*snap));
    r
}

/// A sensor's reading with its unit: volts with two decimals, everything else
/// whole; `-` without a reading.
pub open spec fn reading_text(s: SensorView) -> Seq<char> {
    match s.reading {
        Some(v) => (if s.kind == Kind::Voltage {
            hundredths(v as int)
        } else {
            value_text(s.kind, v as int)
        }) + " "@ + kind_unit(s.kind),
        None => "-"@,
    }
}

/// A sensor's reading with its unit.
pub fn reading_of(s: &Sensor) -> (r: String)
    ensures
        r@ == reading_text(s@),
{
    match s.reading {
        Some(v) => {
            let mut r = String::new();
            if s.kind == Kind::Voltage {
                push_hundredths(&mut r, v);
            } else {
                push_value(&mut r, s.kind, v);
            }
            r.append(" ");
            r.append(s.kind.unit());
            r
        },
        None => owned("-"),
    }
}

/// The limit column of the sensor table: a positive floor, else a positive ceiling.
pub open spec fn limit_text(s: SensorView) -> Seq<char> {
    if s.lower_critical is Some && s.lower_critical->0 > 0 {
        "min "@ + value_text(s.kind, s.lower_critical->0 as int)
    } else if s.upper_critical is Some && s.upper_critical->0 > 0 {
        "max "@ + value_text(s.kind, s.upper_critical->0 as int)
    } else {
        Seq::empty()
    }
}

/// The limit column of the sensor table.
pub fn limit_of(s: &Sensor) -> (r: String)
    ensures
        r@ == limit_text(s@),
{
    let mut r = String::new();
    match (s.lower_critical, s.upper_critical) {
        (Some(l), _) if l > 0 => {
            r.append("min ");
            push_value(&mut r, s.kind, l);
        },
        (_, Some(u)) if u > 0 => {
            r.append("max ");
            push_value(&mut r, s.kind, u);
        },
        _ => {},
    }
    assert(r@ =~= limit_text(s@));
    r
}

/// A sensor's reading as the attention panel shows it: whole, whatever the
/// kind, with its unit; `-` without a reading.
pub open spec fn fault_reading_text(s: SensorView) -> Seq<char> {
    match s.reading {
        Some(v) => value_text(s.kind, v as int) + " "@ + kind_unit(s.kind),
        None => "-"@,
    }
}

/// One line of the overview's attention panel: the severity in seven columns,
/// then the name in twenty and the reading, whole.
pub fn fault_line(s: &Sensor) -> (r: (String, String))
    ensures
        r.0@ == "  "@ + pad_right(severity_text(severity_of(s@)), 7),
        r.1@ == pad_right(s@.name, 20) + " "@ + fault_reading_text(s@),
{
    let sev = s.severity();
    let mut a = owned("  ");
    push_padded_right(&mut a, sev.text(), 7);
    let mut b = String::new();
    push_padded_right(&mut b, s.name.as_str(), 20);
    b.append(" ");
    match s.reading {
        Some(v) => {
            push_value(&mut b, s.kind, v);
            b.append(" ");
            b.append(s.kind.unit());
        },
        None => b.append("-"),
    }
    assert(b@ =~= pad_right(s@.name, 20) + " "@ + fault_reading_text(s@));
    (a, b)
}

/// The title of the sensor table.
pub fn sensors_title(f: Filter, shown: usize) -> (r: String)
    ensures
        r@ == "Sensors — "@ + filter_label(f) + " ("@ + decimal(shown as nat) + " shown)"@,
{
    let mut r = owned("Sensors — ");
    r.append(f.label());
    r.append(" (");
    push_decimal(&mut r, shown as u64);
    r.append(" shown)");
    r
}

/// A title with a count: `"{label} ({n}{suffix})"`.
pub fn counted_title(label: &str, n: usize, suffix: &str) -> (r: String)
    ensures
        r@ == label@ + " ("@ + decimal(n as nat) + suffix@ + ")"@,
{
    let mut r = owned(label);
    r.append(" (");
    push_decimal(&mut r, n as u64);
    r.append(suffix);
    r.append(")");
    r
}

/// The title of the tab bar.
pub fn app_title(host: &str) -> (r: String)
    ensures
        r@ == "redfishctl — "@ + host@,
{
    let mut r = owned("redfishctl — ");
    r.append(host);
    r
}

/// The power tab's state, and whether it reads as on (in any case).
pub fn power_tab_state(m: &Machine) -> (r: (String, bool))
    ensures
        r.0@ == match m.power_state {
            Some(s) => s@,
            None => "unknown"@,
        },
        r.1 == eq_ignore_ascii_case(r.0@, "on"@),
{
    let state = match &m.power_state {
        Some(s) => copy(s),
        None => owned("unknown"),
    };
    let on = same_ignoring_ascii_case(state.as_str(), "on");
    (state, on)
}

/// The threshold editor's popup: title and text.
pub fn edit_popup(e: &Edit) -> (r: (String, String))
    ensures
        r.0@ == e.sensor@ + " — "@ + e.field@,
        r.1@ == "Currently "@ + (match e.current {
            Some(v) => value_text(e.kind, v as int),
            None => "not set"@,
        }) + ".\n\nNew value: "@ + e.buffer@
            + "_\n\nEnter to send, Esc to cancel.\n\nMany BMCs expose this read-only; if yours does, it will\nsay so and nothing changes."@,
{
    let mut title = copy(&e.sensor);
    title.append(" — ");
    title.append(e.field);
    let mut body = owned("Currently ");
    match e.current {
        Some(v) => push_value(&mut body, e.kind, v),
        None => body.append("not set"),
    }
    body.append(".\n\nNew value: ");
    body.append(e.buffer.as_str());
    body.append(
        "_\n\nEnter to send, Esc to cancel.\n\nMany BMCs expose this read-only; if yours does, it will\nsay so and nothing changes.",
    );
    (title, body)
}

/// The sensor a name charts: the first one of that name.
pub fn charted_sensor<'a>(snap: &'a Snapshot, name: &Option<String>) -> (r: Option<&'a Sensor>)
    ensures
        match *name {
            None => r is None,
            Some(n) => {
                let i = index_named(sensor_views(snap.sensors@), n@);
                match r {
                    Some(s) => i >= 0 && s@ == sensor_views(snap.sensors@)[i],
                    None => i < 0,
                }
            },
        },
{
    match name {
        None => None,
        Some(n) => match crate::snapshot::find_named(&snap.sensors, n.as_str()) {
            Some(i) => {
                proof {
                    crate::snapshot::lemma_index_named(sensor_views(snap.sensors@), n@);
                }
                Some(&snap.sensors[i])
            },
            None => None,
        },
    }
}

/// The time and severity columns of a log row, in 22 and 9 columns.
pub fn log_line(when: &str, severity: &str) -> (r: (String, String))
    ensures
        r.0@ == "  "@ + pad_right(when@, 22),
        r.1@ == pad_right(severity@, 9),
{
    let mut a = owned("  ");
    push_padded_right(&mut a, when, 22);
    let mut b = String::new();
    push_padded_right(&mut b, severity, 9);
    (a, b)
}

} // verus!
