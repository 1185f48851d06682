use std::collections::VecDeque;

use bmctl::client::Json;
use bmctl::models::{Fan, Power, PowerControl, PowerMetrics, Status, System, Temperature, Thermal, Voltage};
use bmctl::snapshot::{
    log_rows, merge, push, Job, Kind, LogSearch, LogStep, Sensor, Severity, Snapshot, HISTORY,
};

fn status(state: Option<&str>, health: Option<&str>) -> Option<Status> {
    Some(Status { state: state.map(String::from), health: health.map(String::from) })
}

fn sensor(name: &str, kind: Kind, reading: Option<i64>) -> Sensor {
    Sensor {
        name: name.into(),
        member_id: None,
        kind,
        reading,
        health: Some("OK".into()),
        state: Some("Enabled".into()),
        present: true,
        lower_critical: None,
        upper_critical: None,
        history: VecDeque::new(),
    }
}

#[test]
fn kinds_and_severities_have_words() {
    assert_eq!(Kind::Temperature.unit(), "C");
    assert_eq!(Kind::Fan.unit(), "RPM");
    assert_eq!(Kind::Voltage.unit(), "V");
    assert_eq!(Kind::Temperature.label(), "temperature");
    assert_eq!(Kind::Fan.label(), "fan");
    assert!(!Kind::Fan.in_thousandths());
    assert!(Kind::Temperature.in_thousandths());
    assert!(Kind::Voltage.in_thousandths());
    assert_eq!(Kind::Voltage.label(), "voltage");
    assert_eq!(Severity::Bad.text(), "FAULT");
    assert_eq!(Severity::Failing.text(), "warn");
    assert_eq!(Severity::Normal.text(), "ok");
    assert_eq!(Severity::Absent.text(), "absent");
    assert!(Severity::Bad < Severity::Failing);
}

#[test]
fn status_presence_and_health() {
    let absent = Status { state: Some("Absent".into()), health: None };
    let disabled = Status { state: Some("Disabled".into()), health: Some("OK".into()) };
    let enabled = Status { state: Some("Enabled".into()), health: Some("Warning".into()) };
    assert!(!absent.is_present());
    assert!(!disabled.is_present());
    assert!(enabled.is_present());
    assert!(absent.is_ok());
    assert!(disabled.is_ok());
    assert!(!enabled.is_ok());
}

#[test]
fn severity_levels() {
    let mut s = sensor("CPU0_TEMP", Kind::Temperature, Some(80_000));
    s.upper_critical = Some(90_000);
    assert_eq!(s.severity(), Severity::Normal);
    s.reading = Some(80_999);
    s.upper_critical = Some(90_000);
    assert_eq!(s.severity(), Severity::Normal);
    s.reading = Some(81_000);
    assert_eq!(s.severity(), Severity::Failing);
    s.health = Some("Critical".into());
    assert_eq!(s.severity(), Severity::Bad);
    s.present = false;
    assert_eq!(s.severity(), Severity::Absent);

    let mut f = sensor("FAN1", Kind::Fan, Some(300));
    f.lower_critical = Some(500);
    assert_eq!(f.severity(), Severity::Failing);
    f.reading = Some(600);
    assert_eq!(f.severity(), Severity::Normal);
    f.lower_critical = Some(0);
    f.reading = Some(0);
    assert_eq!(f.severity(), Severity::Normal);
}

#[test]
fn history_drops_the_oldest_when_full() {
    let mut h = VecDeque::new();
    for v in 0..(HISTORY as i64 + 5) {
        push(&mut h, v);
    }
    assert_eq!(h.len(), HISTORY);
    assert_eq!(h.front(), Some(&5));
    assert_eq!(h.back(), Some(&(HISTORY as i64 + 4)));
}

#[test]
fn merge_matches_by_name_and_keeps_history() {
    let mut known = vec![sensor("A", Kind::Fan, Some(1)), sensor("B", Kind::Fan, Some(2))];
    known[0].history.push_back(1);
    let mut fresh_a = sensor("A", Kind::Temperature, Some(10));
    fresh_a.member_id = Some("7".into());
    let fresh = vec![fresh_a, sensor("C", Kind::Voltage, None), sensor("C", Kind::Voltage, Some(3))];
    merge(&mut known, fresh);
    assert_eq!(known.len(), 3);
    assert_eq!(known[0].name, "A");
    assert_eq!(known[0].kind, Kind::Fan);
    assert_eq!(known[0].reading, Some(10));
    assert_eq!(known[0].member_id.as_deref(), Some("7"));
    assert_eq!(known[0].history, VecDeque::from(vec![1, 10]));
    assert_eq!(known[1].history.len(), 0);
    assert_eq!(known[2].name, "C");
    assert_eq!(known[2].reading, Some(3));
    assert_eq!(known[2].history, VecDeque::from(vec![3]));
}

#[test]
fn faults_list_faulty_before_failing() {
    let mut snap = Snapshot::default();
    let mut warn1 = sensor("W1", Kind::Fan, Some(100));
    warn1.lower_critical = Some(200);
    let mut bad = sensor("BAD", Kind::Temperature, Some(1));
    bad.health = Some("Critical".into());
    let mut absent = sensor("GONE", Kind::Fan, None);
    absent.present = false;
    absent.health = Some("Critical".into());
    let mut warn2 = sensor("W2", Kind::Temperature, Some(95_000));
    warn2.upper_critical = Some(100_000);
    snap.sensors = vec![warn1, sensor("OK", Kind::Voltage, Some(1)), bad, absent, warn2];
    let names: Vec<&str> = snap.faults().iter().map(|s| s.name.as_str()).collect();
    assert_eq!(names, vec!["BAD", "W1", "W2"]);
}

fn system() -> System {
    System {
        model: Some("T181-G20".into()),
        manufacturer: Some("GIGABYTE".into()),
        serial_number: None,
        bios_version: Some("R25".into()),
        power_state: Some("On".into()),
        status: status(Some("Enabled"), Some("OK")),
        processor_summary: None,
        memory_summary: None,
    }
}

#[test]
fn a_poll_updates_machine_power_and_sensors() {
    let mut snap = Snapshot::default();
    snap.begin_poll();
    assert!(snap.busy);
    let power = Power {
        power_control: vec![PowerControl {
            power_consumed_watts_milli: Some(904_000),
            power_capacity_watts_milli: None,
            power_metrics: Some(PowerMetrics {
                average_consumed_watts_milli: Some(913_000),
                max_consumed_watts_milli: Some(1_330_000),
                min_consumed_watts_milli: Some(273_000),
                interval_in_min: Some(126),
            }),
        }],
        voltages: vec![Voltage { name: Some("P12V".into()), reading_volts_milli: Some(12_040), status: None }],
    };
    let thermal = Thermal {
        fans: vec![Fan {
            name: Some("FAN1".into()),
            member_id: Some("0".into()),
            reading: Some(4200),
            reading_units: None,
            lower_threshold_critical: Some(500),
            status: status(Some("Enabled"), Some("OK")),
        }],
        temperatures: vec![Temperature {
            name: None,
            member_id: None,
            reading_celsius_milli: Some(44_000),
            upper_threshold_critical_milli: None,
            status: status(Some("Absent"), None),
        }],
    };
    snap.apply_poll(Ok(system()), Some(power), Some(thermal), std::time::Instant::now());
    assert!(!snap.busy);
    assert_eq!(snap.polls, 1);
    assert!(snap.error.is_none());
    assert!(snap.last_poll.is_some());
    assert_eq!(snap.machine.power_state.as_deref(), Some("On"));
    assert_eq!(snap.machine.health.as_deref(), Some("OK"));
    assert_eq!(snap.watts, Some(904_000));
    assert_eq!(snap.watts_avg, Some(913_000));
    assert_eq!(snap.watts_history, VecDeque::from(vec![904_000]));
    let names: Vec<&str> = snap.sensors.iter().map(|s| s.name.as_str()).collect();
    assert_eq!(names, vec!["?", "FAN1", "P12V"]);
    assert!(!snap.sensors[0].present);
    // Fan speeds stay whole RPM, however large.
    assert_eq!(snap.sensors[1].reading, Some(4_200));
    assert_eq!(snap.sensors[1].lower_critical, Some(500));
    assert_eq!(snap.sensors[2].kind, Kind::Voltage);

    snap.apply_poll(Err("GET failed".into()), None, None, std::time::Instant::now());
    assert_eq!(snap.error.as_deref(), Some("GET failed"));
    assert_eq!(snap.machine.power_state.as_deref(), Some("On"));
    assert_eq!(snap.sensors.len(), 3);
    assert_eq!(snap.polls, 2);
}

#[test]
fn job_messages() {
    assert_eq!(Job::Logs.started(), "loading the log...");
    let reset = Job::Reset("ForceOff");
    assert_eq!(reset.started(), "ForceOff...");
    assert_eq!(reset.done(&Ok(())), "ForceOff accepted");
    assert_eq!(reset.done(&Err("409 conflict".into())), "ForceOff refused: 409 conflict");
    let t = Job::Threshold {
        sensor: "FAN1".into(),
        array: "Fans",
        member: "0".into(),
        field: "LowerThresholdCritical",
        value: "499.6".into(),
    };
    assert_eq!(t.started(), "setting FAN1 LowerThresholdCritical...");
    assert_eq!(t.done(&Ok(())), "FAN1 LowerThresholdCritical set to 500");
    assert_eq!(t.done(&Err("read-only".into())), "the BMC refused: read-only");
    assert!(t.repolls(&Ok(())));
    assert!(!t.repolls(&Err("read-only".into())));
    assert!(reset.repolls(&Ok(())));
    assert!(!reset.repolls(&Err("409".into())));
    assert!(!Job::Logs.repolls(&Ok(())));
}

fn entry(created: &str, sev: &str, msg: &str) -> Json {
    Json::Object(vec![
        ("Created".into(), Json::Str(created.into())),
        ("Severity".into(), Json::Str(sev.into())),
        ("Message".into(), Json::Str(msg.into())),
    ])
}

#[test]
fn log_rows_are_newest_first_and_capped() {
    let entries: Vec<Json> = (0..250).map(|i| entry(&i.to_string(), "OK", "m")).collect();
    let rows = log_rows(&entries);
    assert_eq!(rows.len(), 200);
    assert_eq!(rows[0].0, "249");
    assert_eq!(rows[199].0, "50");
    let odd = vec![Json::Object(vec![("Severity".into(), Json::Number("1".into()))])];
    assert_eq!(log_rows(&odd), vec![(String::new(), String::new(), String::new())]);
}

fn members(ids: &[&str]) -> Json {
    Json::Object(vec![(
        "Members".into(),
        Json::Array(
            ids.iter()
                .map(|i| Json::Object(vec![("@odata.id".into(), Json::Str(i.to_string()))]))
                .collect(),
        ),
    )])
}

#[test]
fn log_search_takes_the_first_service_with_entries() {
    let (mut search, step) = LogSearch::start();
    assert!(matches!(&step, LogStep::Fetch(p) if p == "/redfish/v1/Systems/Self/LogServices"));
    // The system has no log services endpoint.
    let step = search.advance(None);
    assert!(matches!(&step, LogStep::Fetch(p) if p == "/redfish/v1/Managers/Self/LogServices"));
    let step = search.advance(Some(&members(&["/m/SEL", "/m/Audit"])));
    assert!(matches!(&step, LogStep::Fetch(p) if p == "/m/SEL/Entries"));
    // An empty log is skipped.
    let step = search.advance(Some(&members(&[])));
    assert!(matches!(&step, LogStep::Fetch(p) if p == "/m/Audit/Entries"));
    let entries = Json::Object(vec![(
        "Members".into(),
        Json::Array(vec![entry("t1", "Warning", "fan"), entry("t2", "OK", "boot")]),
    )]);
    match search.advance(Some(&entries)) {
        LogStep::Found { rows, status } => {
            assert_eq!(rows.len(), 2);
            assert_eq!(rows[0], ("t2".to_string(), "OK".to_string(), "boot".to_string()));
            assert_eq!(status, "2 entries from /m/Audit");
        }
        other => panic!("unexpected {other:?}"),
    }
}

#[test]
fn log_search_reports_when_nothing_answers() {
    let (mut search, _) = LogSearch::start();
    assert!(matches!(search.advance(None), LogStep::Fetch(_)));
    assert!(matches!(search.advance(None), LogStep::Fetch(_)));
    match search.advance(None) {
        LogStep::Missing(m) => assert_eq!(m, "this BMC exposes no readable log service over Redfish"),
        other => panic!("unexpected {other:?}"),
    }
}
