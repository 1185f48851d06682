use std::collections::VecDeque;

use bmctl::snapshot::{Job, Kind, Machine, Sensor, Severity, Snapshot};
use bmctl::ui::{
    age_text, app_title, bar_tone, popup_shown, Popup, charted_sensor, counted_title, edit_popup, fault_line, keys_hint,
    kv_label, limit_of, log_line, log_tone, machine_panel, popup_rect, power_panel,
    power_tab_state, reading_of, sensors_title, severity_tone, status_left, status_right,
    tab_titles, visible, Action, App, Effect, Filter, Key, Tone,
};

fn sensor(name: &str, kind: Kind, reading: Option<i64>, member: Option<&str>) -> Sensor {
    Sensor {
        name: name.into(),
        member_id: member.map(String::from),
        kind,
        reading,
        health: Some("OK".into()),
        state: None,
        present: true,
        lower_critical: None,
        upper_critical: None,
        history: VecDeque::new(),
    }
}

fn snapshot() -> Snapshot {
    let mut s = Snapshot::default();
    let mut fan = sensor("FAN1", Kind::Fan, Some(4_200), Some("0"));
    fan.lower_critical = Some(500);
    let mut cpu = sensor("CPU0_TEMP", Kind::Temperature, Some(85_000), Some("1"));
    cpu.upper_critical = Some(90_000);
    let mut gone = sensor("DIMM", Kind::Temperature, None, None);
    gone.present = false;
    s.sensors = vec![cpu, fan, sensor("P12V", Kind::Voltage, Some(12_040), None), gone];
    s.machine.power_state = Some("On".into());
    s
}

fn press(app: &mut App, key: Key, snap: &Snapshot) -> Vec<Effect> {
    app.on_key(key, false, snap)
}

#[test]
fn tabs_cycle_both_ways_and_by_number() {
    let snap = snapshot();
    let mut app = App::new("bmc".into());
    assert!(press(&mut app, Key::Tab, &snap).is_empty());
    assert_eq!(app.tab, 1);
    press(&mut app, Key::Left, &snap);
    press(&mut app, Key::Left, &snap);
    assert_eq!(app.tab, 4);
    press(&mut app, Key::Char('3'), &snap);
    assert_eq!(app.tab, 2);
    press(&mut app, Key::Right, &snap);
    press(&mut app, Key::Right, &snap);
    press(&mut app, Key::Right, &snap);
    assert_eq!(app.tab, 0);
}

#[test]
fn quit_keys() {
    let snap = snapshot();
    let mut a = App::new("bmc".into());
    press(&mut a, Key::Char('c'), &snap);
    assert!(!a.quit);
    a.on_key(Key::Char('c'), true, &snap);
    assert!(a.quit);
    let mut b = App::new("bmc".into());
    press(&mut b, Key::Esc, &snap);
    assert!(b.quit);
}

#[test]
fn power_actions_ask_first() {
    let snap = snapshot();
    let mut app = App::new("10.0.0.1".into());
    press(&mut app, Key::Char('4'), &snap);
    assert!(press(&mut app, Key::Char('F'), &snap).is_empty());
    let c = app.confirm.as_ref().unwrap();
    assert_eq!(c.title, "ForceOff on 10.0.0.1");
    assert_eq!(
        c.body,
        "Cut power immediately. The OS is not asked and unsaved work is lost.\n\nThe host is currently On.\n\ny to confirm, any other key to cancel."
    );
    assert!(matches!(c.action, Action::Reset("ForceOff")));
    // The pending question swallows the tab key.
    let fx = press(&mut app, Key::Tab, &snap);
    assert!(matches!(fx.as_slice(), [Effect::Say(m)] if m == "cancelled"));
    assert_eq!(app.tab, 3);
    assert!(app.confirm.is_none());
    press(&mut app, Key::Char('R'), &snap);
    let fx = press(&mut app, Key::Char('Y'), &snap);
    assert!(matches!(fx.as_slice(), [Effect::Send(Job::Reset("ForceRestart"))]));
    assert!(app.confirm.is_none());
}

#[test]
fn power_keys_do_nothing_elsewhere() {
    let snap = snapshot();
    let mut app = App::new("h".into());
    assert!(press(&mut app, Key::Char('F'), &snap).is_empty());
    assert!(app.confirm.is_none());
}

#[test]
fn help_closes_on_any_key() {
    let snap = snapshot();
    let mut app = App::new("h".into());
    press(&mut app, Key::Char('?'), &snap);
    assert!(app.help);
    assert!(press(&mut app, Key::Char('q'), &snap).is_empty());
    assert!(!app.help);
    assert!(!app.quit);
}

#[test]
fn refresh_and_first_log_visit() {
    let snap = snapshot();
    let mut app = App::new("h".into());
    assert!(matches!(press(&mut app, Key::Char('r'), &snap).as_slice(), [Effect::Refresh]));
    let fx = press(&mut app, Key::Char('5'), &snap);
    assert!(matches!(fx.as_slice(), [Effect::Send(Job::Logs)]));
    assert!(app.logs_asked);
    assert!(press(&mut app, Key::Char('x'), &snap).is_empty());
    let fx = press(&mut app, Key::Char('r'), &snap);
    assert!(matches!(fx.as_slice(), [Effect::Refresh]));
    let fx = press(&mut app, Key::Char('l'), &snap);
    assert!(matches!(fx.as_slice(), [Effect::Send(Job::Logs)]));
}

#[test]
fn filters_selection_and_charting() {
    let snap = snapshot();
    let mut app = App::new("h".into());
    press(&mut app, Key::Char('2'), &snap);
    assert_eq!(visible(app.filter, &snap).len(), 3);
    press(&mut app, Key::Up, &snap);
    assert_eq!(app.selected, Some(2));
    press(&mut app, Key::Down, &snap);
    assert_eq!(app.selected, Some(0));
    press(&mut app, Key::Char('f'), &snap);
    assert_eq!(app.filter, Filter::Fans);
    assert_eq!(app.selected, Some(0));
    press(&mut app, Key::Enter, &snap);
    assert_eq!(app.tab, 2);
    assert_eq!(app.charted.as_deref(), Some("FAN1"));
    assert_eq!(charted_sensor(&snap, &app.charted).map(|s| s.name.as_str()), Some("FAN1"));
    press(&mut app, Key::Char('2'), &snap);
    press(&mut app, Key::Char('p'), &snap);
    let shown: Vec<&str> = visible(app.filter, &snap).iter().map(|s| s.name.as_str()).collect();
    assert_eq!(shown, vec!["CPU0_TEMP"]);
}

#[test]
fn editing_a_threshold() {
    let snap = snapshot();
    let mut app = App::new("h".into());
    press(&mut app, Key::Char('2'), &snap);
    press(&mut app, Key::Down, &snap);
    press(&mut app, Key::Char('e'), &snap);
    let e = app.edit.as_ref().unwrap();
    assert_eq!(e.sensor, "FAN1");
    assert_eq!(e.field, "LowerThresholdCritical");
    assert_eq!(e.array, "Fans");
    assert_eq!(e.buffer, "500");
    let (title, body) = edit_popup(e);
    assert_eq!(title, "FAN1 — LowerThresholdCritical");
    assert!(body.starts_with("Currently 500.\n\nNew value: 500_"));
    // Keys only reach the editor; letters are ignored.
    press(&mut app, Key::Tab, &snap);
    press(&mut app, Key::Char('x'), &snap);
    assert_eq!(app.tab, 1);
    press(&mut app, Key::Backspace, &snap);
    press(&mut app, Key::Char('.'), &snap);
    press(&mut app, Key::Char('5'), &snap);
    assert_eq!(app.edit.as_ref().unwrap().buffer, "50.5");
    for _ in 0..20 {
        press(&mut app, Key::Char('9'), &snap);
    }
    assert_eq!(app.edit.as_ref().unwrap().buffer.len(), 12);
    let fx = press(&mut app, Key::Enter, &snap);
    assert!(app.edit.is_none());
    match fx.as_slice() {
        [Effect::Send(Job::Threshold { sensor, array, member, field, value })] => {
            assert_eq!(sensor, "FAN1");
            assert_eq!(*array, "Fans");
            assert_eq!(member, "0");
            assert_eq!(*field, "LowerThresholdCritical");
            assert_eq!(value, "50.599999999");
        }
        other => panic!("unexpected {other:?}"),
    }
}

#[test]
fn editing_refusals() {
    let snap = snapshot();
    let mut app = App::new("h".into());
    press(&mut app, Key::Char('2'), &snap);
    press(&mut app, Key::Char('v'), &snap);
    let fx = press(&mut app, Key::Char('e'), &snap);
    assert!(matches!(fx.as_slice(), [Effect::Say(m)] if m == "voltage thresholds are not editable here"));
    press(&mut app, Key::Char('a'), &snap);
    press(&mut app, Key::Char('e'), &snap);
    press(&mut app, Key::Backspace, &snap);
    press(&mut app, Key::Backspace, &snap);
    press(&mut app, Key::Char('-'), &snap);
    let fx = press(&mut app, Key::Enter, &snap);
    assert!(matches!(fx.as_slice(), [Effect::Say(m)] if m == "- is not a number"));
    press(&mut app, Key::Char('e'), &snap);
    let fx = press(&mut app, Key::Esc, &snap);
    assert!(matches!(fx.as_slice(), [Effect::Say(m)] if m == "cancelled"));
    assert!(app.edit.is_none());
    let mut nameless = Snapshot::default();
    nameless.sensors = vec![sensor("T", Kind::Temperature, Some(1), None)];
    let fx = press(&mut app, Key::Char('e'), &nameless);
    assert!(matches!(fx.as_slice(), [Effect::Say(m)] if m == "this BMC did not give that sensor a member id"));
}

#[test]
fn status_bar() {
    let mut snap = snapshot();
    assert_eq!(status_left(&snap, 4), " l reload");
    assert_eq!(keys_hint(0), "");
    snap.error = Some("GET failed".into());
    assert_eq!(status_left(&snap, 4), " BMC ERROR: GET failed");
    snap.status = "ForceOff accepted".into();
    assert_eq!(status_right(&snap, "3s ago"), "ForceOff accepted | polled 3s ago | q quit  ? help ");
    snap.busy = true;
    assert_eq!(status_right(&snap, "never"), "polling... | polled never | q quit  ? help ");
    assert_eq!(age_text(None), "never");
    assert_eq!(age_text(Some(2_500)), "2s ago");
    assert_eq!(age_text(Some(3_501)), "4s ago");
}

#[test]
fn popups_are_centred_and_never_too_wide() {
    assert_eq!(popup_rect(0, 0, 100, 40, 10), (13, 13, 74, 14));
    assert_eq!(popup_rect(0, 0, 50, 8, 10), (0, 0, 50, 8));
    assert_eq!(popup_rect(5, 2, 80, 30, 1), (8, 14, 74, 5));
}

#[test]
fn titles_and_labels() {
    assert_eq!(tab_titles(), vec![" 1 Overview ", " 2 Sensors ", " 3 Charts ", " 4 Power ", " 5 Logs "]);
    assert_eq!(app_title("10.0.0.1"), "redfishctl — 10.0.0.1");
    assert_eq!(sensors_title(Filter::Problems, 2), "Sensors — problems only (2 shown)");
    assert_eq!(counted_title("Attention", 0, ""), "Attention (0)");
    assert_eq!(counted_title("Log", 5, " entries"), "Log (5 entries)");
    assert_eq!(kv_label("power"), "  power         ");
    assert_eq!(log_line("2024-01-01", "Warning"), ("  2024-01-01            ".to_string(), "Warning  ".to_string()));
    assert_eq!(Filter::Temps.label(), "temperatures");
}

#[test]
fn colours() {
    assert_eq!(severity_tone(Severity::Bad), Tone::Red);
    assert_eq!(severity_tone(Severity::Failing), Tone::Yellow);
    assert_eq!(severity_tone(Severity::Normal), Tone::Green);
    assert_eq!(severity_tone(Severity::Absent), Tone::DarkGray);
    assert_eq!(log_tone("Fatal"), Tone::Red);
    assert_eq!(log_tone("Warning"), Tone::Yellow);
    assert_eq!(log_tone("OK"), Tone::Gray);
}

#[test]
fn panels() {
    let mut snap = snapshot();
    snap.machine = Machine {
        power_state: None,
        health: Some("OK".into()),
        manufacturer: Some(" GIGABYTE".into()),
        model: Some("T181-G20 ".into()),
        serial: None,
        bios: Some("R25".into()),
        cpu_count: Some(2),
        cpu_model: None,
        memory_gib_milli: Some(95_500),
    };
    let rows = machine_panel(&snap.machine);
    let flat: Vec<(&str, &str)> = rows.iter().map(|(a, b)| (a.as_str(), b.as_str())).collect();
    assert_eq!(
        flat,
        vec![
            ("power", "?"),
            ("health", "OK"),
            ("machine", "GIGABYTE T181-G20"),
            ("bios", "R25"),
            ("cpus", "2  "),
            ("memory", "96 GiB"),
        ]
    );
    snap.watts = Some(904_000);
    snap.watts_avg = Some(913_000);
    snap.watts_min = Some(273_000);
    snap.watts_max = Some(1_330_000);
    let p = power_panel(&snap);
    assert_eq!(p[0], ("consumption".to_string(), "904 W".to_string()));
    assert_eq!(p[1], ("reported".to_string(), "avg 913, 273-1330 W".to_string()));
    assert_eq!(power_tab_state(&Machine::unknown()), ("unknown".to_string(), false));
    let mut m = Machine::unknown();
    m.power_state = Some("ON".into());
    assert_eq!(power_tab_state(&m), ("ON".to_string(), true));
}

#[test]
fn sensor_rows() {
    let snap = snapshot();
    assert_eq!(reading_of(&snap.sensors[0]), "85 C");
    assert_eq!(reading_of(&snap.sensors[1]), "4200 RPM");
    assert_eq!(reading_of(&snap.sensors[2]), "12.04 V");
    assert_eq!(reading_of(&snap.sensors[3]), "-");
    assert_eq!(limit_of(&snap.sensors[0]), "max 90");
    assert_eq!(limit_of(&snap.sensors[1]), "min 500");
    assert_eq!(limit_of(&snap.sensors[2]), "");
    let (sev, rest) = fault_line(&snap.sensors[0]);
    assert_eq!(sev, "  warn   ");
    assert_eq!(rest, "CPU0_TEMP            85 C");
}

#[test]
fn huge_fan_speeds_are_shown_as_read() {
    let mut s = sensor("FAN9", Kind::Fan, Some(10_000_000_000_000_000), Some("9"));
    s.lower_critical = Some(9_000_000_000_000_000_000);
    assert_eq!(reading_of(&s), "10000000000000000 RPM");
    assert_eq!(limit_of(&s), "min 9000000000000000000");
    let (_, rest) = fault_line(&s);
    assert!(rest.ends_with(" 10000000000000000 RPM"), "{rest}");
}

#[test]
fn attention_lines_show_voltages_whole() {
    let snap = snapshot();
    let (_, rest) = fault_line(&snap.sensors[2]);
    assert!(rest.ends_with(" 12 V"), "{rest}");
    let (_, rest) = fault_line(&snap.sensors[3]);
    assert!(rest.ends_with(" -"), "{rest}");
}

#[test]
fn editor_sends_the_value_as_typed() {
    let snap = snapshot();
    let mut app = App::new("h".into());
    press(&mut app, Key::Char('2'), &snap);
    press(&mut app, Key::Down, &snap);
    press(&mut app, Key::Char('e'), &snap);
    assert!(app.edit.is_some());
    for _ in 0..5 {
        press(&mut app, Key::Backspace, &snap);
    }
    for c in "1.2345".chars() {
        press(&mut app, Key::Char(c), &snap);
    }
    let fx = press(&mut app, Key::Enter, &snap);
    match fx.as_slice() {
        [Effect::Send(job @ Job::Threshold { value, .. })] => {
            assert_eq!(value, "1.2345");
            assert!(job.done(&Ok(())).ends_with(" set to 1"));
            assert!(job.repolls(&Ok(())));
            assert!(!job.repolls(&Err("no".into())));
        }
        other => panic!("unexpected {other:?}"),
    }
}

#[test]
fn bar_and_popups() {
    let mut snap = snapshot();
    snap.error = None;
    assert_eq!(bar_tone(&snap), Tone::Gray);
    snap.error = Some("down".into());
    assert_eq!(bar_tone(&snap), Tone::Red);
    let mut app = App::new("h".into());
    assert_eq!(popup_shown(&app), Popup::Nothing);
    app.help = true;
    assert_eq!(popup_shown(&app), Popup::Help);
    let snap = snapshot();
    app.help = false;
    press(&mut app, Key::Char('4'), &snap);
    press(&mut app, Key::Char('F'), &snap);
    assert!(app.confirm.is_some());
    app.help = true;
    assert_eq!(popup_shown(&app), Popup::Question);
}

#[test]
fn the_highlight_comes_back_onto_the_table() {
    let snap = snapshot();
    let mut app = App::new("h".into());
    press(&mut app, Key::Char('2'), &snap);
    app.selected = Some(5);
    app.clamp_selection(1);
    assert_eq!(app.selected, Some(0));
    press(&mut app, Key::Enter, &snap);
    assert_eq!(app.tab, 2);
    assert_eq!(app.charted.as_deref(), Some("CPU0_TEMP"));
    app.clamp_selection(0);
    assert_eq!(app.selected, None);
    app.clamp_selection(3);
    assert_eq!(app.selected, None);
    press(&mut app, Key::Char('2'), &snap);
    press(&mut app, Key::Enter, &snap);
    assert_eq!(app.charted.as_deref(), Some("CPU0_TEMP"));
    app.selected = None;
    press(&mut app, Key::Char('2'), &snap);
    press(&mut app, Key::Down, &snap);
    assert_eq!(app.selected, Some(1));
}
