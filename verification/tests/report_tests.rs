use bmctl::client::Json;
use bmctl::models::{
    Fan, MemorySummary, Power, PowerControl, PowerMetrics, ProcessorSummary, Status, System,
    Temperature, Thermal, Voltage,
};
use bmctl::report::{
    clock, consumption, fan_lines, health_of, hottest, power_action_line, power_state_line,
    present, raw_path, root_lines, sensor_selection, sensors_footer, status_lines,
    temperature_lines, voltage_lines, watch_continues, watch_header, watch_row, PowerAction,
};

fn st(state: &str, health: &str) -> Option<Status> {
    Some(Status { state: Some(state.into()), health: Some(health.into()) })
}

fn system() -> System {
    System {
        model: Some(" T181-G20 ".into()),
        manufacturer: Some("GIGABYTE".into()),
        serial_number: None,
        bios_version: Some("R25".into()),
        power_state: Some("On".into()),
        status: st("Enabled", "OK"),
        processor_summary: Some(ProcessorSummary {
            count: Some(2),
            model: Some("Intel(R) Xeon(R) Platinum 8171M CPU @ 2.60GHz".into()),
        }),
        memory_summary: Some(MemorySummary { total_system_memory_gib_milli: Some(96_000) }),
    }
}

fn power() -> Power {
    Power {
        power_control: vec![PowerControl {
            power_consumed_watts_milli: Some(904_000),
            power_capacity_watts_milli: Some(32_767_000_000),
            power_metrics: Some(PowerMetrics {
                average_consumed_watts_milli: Some(913_000),
                max_consumed_watts_milli: Some(1_330_000),
                min_consumed_watts_milli: Some(273_000),
                interval_in_min: Some(126),
            }),
        }],
        voltages: vec![
            Voltage { name: Some("P12V".into()), reading_volts_milli: Some(12_040), status: st("Enabled", "OK") },
            Voltage { name: Some("P5V_STBY".into()), reading_volts_milli: None, status: st("Absent", "OK") },
        ],
    }
}

fn temp(name: &str, reading: Option<i64>, upper: Option<i64>, status: Option<Status>) -> Temperature {
    Temperature {
        name: Some(name.into()),
        member_id: None,
        reading_celsius_milli: reading,
        upper_threshold_critical_milli: upper,
        status,
    }
}

fn fan(name: &str, reading: Option<i64>, floor: Option<i64>, status: Option<Status>) -> Fan {
    Fan {
        name: Some(name.into()),
        member_id: None,
        reading,
        reading_units: None,
        lower_threshold_critical: floor,
        status,
    }
}

fn thermal() -> Thermal {
    Thermal {
        fans: vec![
            fan("FAN1", Some(4200), Some(500), st("Enabled", "OK")),
            fan("FAN2", None, None, st("Absent", "OK")),
        ],
        temperatures: vec![
            temp("CPU0_TEMP", Some(40_000), Some(90_000), st("Enabled", "OK")),
            temp("PCH_TEMP", Some(44_000), Some(100_000), st("Enabled", "OK")),
            temp("DIMM_TEMP", Some(60_000), None, st("Absent", "OK")),
        ],
    }
}

#[test]
fn status_summary_like_the_readme() {
    let lines = status_lines(&system(), Some(&power()), Some(&thermal()));
    assert_eq!(
        lines,
        vec![
            "",
            "  power        On",
            "  health       OK",
            "  machine      GIGABYTE T181-G20",
            "  bios         R25",
            "  cpus         2  Intel(R) Xeon(R) Platinum 8171M CPU @ 2.60GHz",
            "  memory       96 GiB",
            "  consumption  904 W   (avg 913, 273-1330 over 126 min)",
            "  hottest      PCH_TEMP 44 C",
            "  fans         1 present, all OK",
            "",
        ]
    );
}

#[test]
fn status_without_chassis_resources() {
    let mut sys = system();
    sys.status = Some(Status { state: Some("Enabled".into()), health: None });
    sys.processor_summary = Some(ProcessorSummary { count: None, model: Some("  ".into()) });
    sys.manufacturer = None;
    let lines = status_lines(&sys, None, None);
    assert_eq!(lines[2], "  health       Enabled");
    assert_eq!(lines[4], "  cpus         ");
    assert_eq!(lines.len(), 7);
}

#[test]
fn status_shows_plausible_capacity_and_faulty_fans() {
    let mut pw = power();
    pw.power_control[0].power_capacity_watts_milli = Some(1_600_000);
    pw.power_control[0].power_metrics = None;
    let mut th = thermal();
    th.fans.push(fan("FAN3", Some(0), Some(500), st("Enabled", "Critical")));
    th.fans.push(fan("FAN4", None, None, st("Enabled", "Warning")));
    let lines = status_lines(&system(), Some(&pw), Some(&th));
    assert!(lines.contains(&"  consumption  904 W of 1600 W".to_string()));
    assert!(lines.contains(&"  fans         2 FAULTY: FAN3 at 0 RPM, FAN4 at 0 RPM".to_string()));
}

#[test]
fn hottest_prefers_the_last_of_equal_readings() {
    let temps = vec![
        temp("A", Some(50_000), None, None),
        temp("B", Some(50_000), None, st("Enabled", "OK")),
        temp("C", Some(70_000), None, st("Absent", "OK")),
        temp("D", None, None, None),
    ];
    assert_eq!(hottest(&temps), Some(("B".to_string(), 50_000)));
    assert_eq!(hottest(&Vec::new()), None);
}

#[test]
fn health_words_and_marks() {
    assert_eq!(health_of(&None), ("-".to_string(), ""));
    assert_eq!(health_of(&st("Enabled", "Critical")), ("Critical".to_string(), "   <-- CHECK"));
    assert_eq!(health_of(&st("Absent", "Critical")), ("Critical".to_string(), ""));
    let no_health = Some(Status { state: Some("Enabled".into()), health: None });
    assert_eq!(health_of(&no_health), ("Enabled".to_string(), ""));
    assert!(present(&None));
    assert!(!present(&st("Disabled", "OK")));
}

#[test]
fn no_flag_means_every_group() {
    assert_eq!(sensor_selection(false, false, false), (true, true, true));
    assert_eq!(sensor_selection(false, true, false), (false, true, false));
}

#[test]
fn temperature_listing_flags_readings_near_the_limit() {
    let th = Thermal {
        fans: vec![],
        temperatures: vec![
            temp("CPU0_TEMP", Some(81_000), Some(90_000), st("Enabled", "OK")),
            temp("PCH_TEMP", Some(44_000), Some(100_000), st("Enabled", "OK")),
            temp("DIMM_TEMP", None, None, st("Absent", "OK")),
        ],
    };
    assert_eq!(
        temperature_lines(&th, false),
        vec![
            "\n  temperature              reading   state",
            "  CPU0_TEMP                  81 C   OK   <-- near limit",
            "  PCH_TEMP                   44 C   OK",
        ]
    );
    let all = temperature_lines(&th, true);
    assert_eq!(all[3], "  DIMM_TEMP                     -   OK");
}

#[test]
fn fan_listing_flags_fans_below_their_floor() {
    let mut pct = fan("FAN_PCT", Some(40), None, st("Enabled", "OK"));
    pct.reading_units = Some("Percent".into());
    let th = Thermal {
        fans: vec![
            fan("FAN1", Some(300), Some(500), st("Enabled", "OK")),
            fan("FAN2", Some(300), Some(500), st("Enabled", "Critical")),
            pct,
        ],
        temperatures: vec![],
    };
    assert_eq!(
        fan_lines(&th, false),
        vec![
            "\n  fan                      reading   state",
            "  FAN1                    300 RPM   OK   <-- below floor",
            "  FAN2                    300 RPM   Critical   <-- CHECK",
            "  FAN_PCT                40 Percent   OK",
        ]
    );
}

#[test]
fn voltage_listing_has_two_decimals() {
    assert_eq!(
        voltage_lines(&power(), false),
        vec!["\n  voltage                  reading   state", "  P12V                    12.04 V   OK"]
    );
    assert_eq!(voltage_lines(&power(), true).len(), 3);
}

#[test]
fn footer_mentions_hidden_sensors() {
    assert_eq!(sensors_footer(false), vec!["", "  Absent sensors hidden; pass --all to show them.\n"]);
    assert_eq!(sensors_footer(true), vec![""]);
}

#[test]
fn watch_lines() {
    assert_eq!(watch_header(true), "unix_time,watts,hottest_c,hottest_name");
    assert_eq!(watch_header(false), "\n  time       watts   hottest");
    let hot = Some(("PCH_TEMP".to_string(), 44_400));
    assert_eq!(watch_row(1_700_000_000_123, Some(904_000), &hot, true), "1700000000.123,904,44,PCH_TEMP");
    assert_eq!(watch_row(1_700_000_000_005, None, &None, true), "1700000000.005,,,");
    assert_eq!(watch_row(3_723_000, Some(904_000), &hot, false), "  01:02:03   904 W   PCH_TEMP 44 C");
    assert_eq!(watch_row(0, None, &None, false), "  00:00:00       -   -");
    assert_eq!(consumption(&power()), Some(904_000));
}

#[test]
fn clock_is_utc_time_of_day() {
    assert_eq!(clock(0), "00:00:00");
    assert_eq!(clock(86_399_999), "23:59:59");
    assert_eq!(clock(86_400_000), "00:00:00");
}

#[test]
fn watch_stops_after_count_samples() {
    assert!(watch_continues(1, 0));
    assert!(watch_continues(2, 3));
    assert!(!watch_continues(3, 3));
}

#[test]
fn power_lines_and_reset_types() {
    assert_eq!(PowerAction::On.reset_type(), "On");
    assert_eq!(PowerAction::Off.reset_type(), "GracefulShutdown");
    assert_eq!(PowerAction::ForceOff.reset_type(), "ForceOff");
    assert_eq!(PowerAction::Reset.reset_type(), "ForceRestart");
    assert_eq!(power_state_line(&system()), "On");
    let mut off = system();
    off.power_state = None;
    assert_eq!(power_state_line(&off), "unknown");
    assert_eq!(
        power_action_line("ForceOff", "10.0.0.1", &off),
        "ForceOff -> 10.0.0.1 (currently unknown)"
    );
}

#[test]
fn raw_paths_get_a_leading_slash() {
    assert_eq!(raw_path("redfish/v1"), "/redfish/v1");
    assert_eq!(raw_path("/redfish/v1"), "/redfish/v1");
    assert_eq!(raw_path(""), "/");
}

#[test]
fn config_test_reads_the_service_root() {
    let root = Json::Object(vec![
        ("Vendor".into(), Json::Str("AMI".into())),
        ("RedfishVersion".into(), Json::Str("1.8.0".into())),
    ]);
    assert_eq!(
        root_lines("10.0.0.1", &root),
        vec!["Connected to 10.0.0.1", "  vendor   AMI", "  product  unknown", "  redfish  1.8.0"]
    );
}
