use hephaestus::datasource::nut::{
    ends_ups_list, ends_var_list, parse_ups_line, parse_var_line, Action, Config, Nut, Parameter,
    Phase, Session, UpsDeviceRecord,
};
use hephaestus::domain::Timestamp;
use hephaestus::number::Ratio;

fn value(r: Option<Ratio>) -> f64 {
    let r = r.expect("the field is present");
    r.num as f64 / r.den as f64
}

fn params(pairs: &[(&str, &str)]) -> Vec<Parameter> {
    pairs
        .iter()
        .map(|(k, v)| Parameter { key: k.to_string(), value: v.to_string() })
        .collect()
}

fn nut() -> Nut {
    Nut::new(Config::default())
}

#[test]
fn default_config_points_at_the_local_server() {
    let c = Config::default();
    assert_eq!(c.address, "localhost");
    assert_eq!(c.port, 3493);
}

#[test]
fn fallback_derivation_of_real_power() {
    let p = params(&[("battery.charge", "80"), ("ups.load", "50"), ("ups.realpower.nominal", "1000")]);
    let stats = nut().collect_device_parameters("ups1".to_string(), &p);
    assert_eq!(stats.device_name, "ups1");
    assert_eq!(value(stats.battery_level), 0.8);
    assert_eq!(value(stats.load), 0.5);
    assert_eq!(value(stats.real_power), 500.0);
    assert_eq!(stats.battery_level, Some(Ratio { num: 80, den: 100 }));
    assert_eq!(stats.real_power, Some(Ratio { num: 50_000, den: 100 }));
    assert_eq!(stats.estimated_runtime, None);
    assert_eq!(stats.input_voltage, None);
    assert_eq!(stats.output_voltage, None);
    assert_eq!(stats.apparent_power, None);
}

#[test]
fn explicit_readings_win_over_derived_ones() {
    let p = params(&[
        ("ups.load", "25"),
        ("ups.realpower", "180"),
        ("ups.realpower.nominal", "1000"),
        ("ups.power", "210.5"),
        ("ups.power.nominal", "1500"),
        ("battery.runtime", "3600"),
        ("input.voltage", "230.4"),
        ("output.voltage", "229.9"),
    ]);
    let stats = nut().collect_device_parameters("rack".to_string(), &p);
    assert_eq!(value(stats.real_power), 180.0);
    assert_eq!(value(stats.apparent_power), 210.5);
    assert_eq!(value(stats.estimated_runtime), 3600.0);
    assert_eq!(value(stats.input_voltage), 230.4);
    assert_eq!(value(stats.output_voltage), 229.9);
    assert_eq!(value(stats.load), 0.25);
    assert_eq!(stats.battery_level, None);
}

#[test]
fn apparent_power_falls_back_to_the_real_power_reading_then_to_the_nominal() {
    let p = params(&[("ups.realpower", "300")]);
    let stats = nut().collect_device_parameters("a".to_string(), &p);
    assert_eq!(value(stats.apparent_power), 300.0);

    let p = params(&[("ups.power.nominal", "1500"), ("ups.load", "10")]);
    let stats = nut().collect_device_parameters("a".to_string(), &p);
    assert_eq!(value(stats.apparent_power), 150.0);
    assert_eq!(stats.real_power, None);
}

#[test]
fn no_power_is_derived_without_load_or_with_a_zero_nominal() {
    let p = params(&[("ups.realpower.nominal", "1000")]);
    assert_eq!(nut().collect_device_parameters("a".to_string(), &p).real_power, None);
    let p = params(&[("ups.realpower.nominal", "0"), ("ups.load", "50")]);
    assert_eq!(nut().collect_device_parameters("a".to_string(), &p).real_power, None);
    let p = params(&[("ups.realpower.nominal", "abc"), ("ups.load", "50")]);
    assert_eq!(nut().collect_device_parameters("a".to_string(), &p).real_power, None);
}

#[test]
fn values_that_are_no_numbers_are_absent_and_later_lines_win() {
    let p = params(&[("battery.charge", "n/a"), ("input.voltage", "110"), ("input.voltage", "120")]);
    let stats = nut().collect_device_parameters("a".to_string(), &p);
    assert_eq!(stats.battery_level, None);
    assert_eq!(value(stats.input_voltage), 120.0);
}

#[test]
fn device_lines_are_parsed() {
    assert_eq!(parse_ups_line("UPS apc \"Back-UPS 900\"\n"), Some("apc".to_string()));
    assert_eq!(parse_ups_line("  UPS   rack1   \"desc\""), Some("rack1".to_string()));
    assert_eq!(parse_ups_line("UPS"), None);
    assert_eq!(parse_ups_line("BEGIN LIST UPS"), None);
    assert_eq!(parse_ups_line("ups apc \"x\""), None);
    assert_eq!(parse_ups_line(""), None);
    assert!(ends_ups_list("END LIST UPS\n"));
    assert!(!ends_ups_list("END LIST UPS apc"));
    assert!(ends_var_list("END LIST VAR apc\n"));
    assert!(!ends_var_list("VAR apc x \"1\""));
}

#[test]
fn parameter_lines_are_parsed() {
    let p = parse_var_line("VAR apc battery.charge \"100\"\n").unwrap();
    assert_eq!((p.key.as_str(), p.value.as_str()), ("battery.charge", "100"));
    let p = parse_var_line("VAR apc ups.model \"Back-UPS ES 900\"").unwrap();
    assert_eq!((p.key.as_str(), p.value.as_str()), ("ups.model", "Back-UPS ES 900"));
    let p = parse_var_line("VAR apc ups.test \"\"").unwrap();
    assert_eq!((p.key.as_str(), p.value.as_str()), ("ups.test", ""));
    assert!(parse_var_line("BEGIN LIST VAR").is_none());
    assert!(parse_var_line("BEGIN LIST VAR apc").is_none());
    assert!(parse_var_line("ERR apc battery.charge \"100\"").is_none());
    assert!(parse_var_line("VAR apc key").is_none());
    assert!(parse_var_line("").is_none());
}

fn sent(a: Action) -> String {
    match a {
        Action::Send(text) => text,
        other => panic!("expected a command, got {:?}", other),
    }
}

#[test]
fn a_session_lists_devices_then_their_parameters() {
    let mut s = Session::new();
    assert_eq!(s.phase, Phase::Connected);
    assert_eq!(sent(s.open()), "LIST UPS\n");
    assert_eq!(s.phase, Phase::ListingDevices);
    assert!(matches!(s.line("BEGIN LIST UPS\n"), Action::ReadLine));
    assert!(matches!(s.line("UPS apc \"first\"\n"), Action::ReadLine));
    assert!(matches!(s.line("garbage\n"), Action::ReadLine));
    assert!(matches!(s.line("UPS eaton \"second\"\n"), Action::ReadLine));
    assert_eq!(sent(s.line("END LIST UPS\n")), "LIST VAR apc\n");
    assert_eq!(s.phase, Phase::ListingParameters(0));
    assert!(matches!(s.line("BEGIN LIST VAR apc\n"), Action::ReadLine));
    assert!(matches!(s.line("VAR apc battery.charge \"80\"\n"), Action::ReadLine));
    assert!(matches!(s.line("VAR apc ups.load \"50\"\n"), Action::ReadLine));
    assert_eq!(sent(s.line("END LIST VAR apc\n")), "LIST VAR eaton\n");
    assert_eq!(s.phase, Phase::ListingParameters(1));
    assert!(matches!(s.line("VAR eaton input.voltage \"230.1\"\n"), Action::ReadLine));
    assert!(matches!(s.line("END LIST VAR eaton\n"), Action::Finish));
    assert_eq!(s.phase, Phase::Done);
    assert!(matches!(s.line("VAR eaton late \"1\"\n"), Action::Finish));
    assert!(matches!(s.open(), Action::Finish));

    let records = s.into_records();
    assert_eq!(records.len(), 2);
    assert_eq!(records[0].name, "apc");
    assert_eq!(records[0].raw_parameters.len(), 2);
    assert_eq!(records[1].name, "eaton");
    assert_eq!(records[1].raw_parameters[0].key, "input.voltage");

    let stats = nut().ups_stats(records, Timestamp::new(77));
    assert_eq!(stats.timestamp, Timestamp::new(77));
    assert_eq!(stats.devices.len(), 2);
    assert_eq!(stats.devices[0].device_name, "apc");
    assert_eq!(value(stats.devices[0].battery_level), 0.8);
    assert_eq!(value(stats.devices[1].input_voltage), 230.1);
    assert_eq!(stats.devices[1].battery_level, None);
}

#[test]
fn a_session_without_devices_is_done_after_the_listing() {
    let mut s = Session::new();
    s.open();
    assert!(matches!(s.line("END LIST UPS\n"), Action::Finish));
    assert_eq!(s.phase, Phase::Done);
    assert!(s.into_records().is_empty());
}

#[test]
fn the_end_of_the_stream_ends_what_was_being_listed() {
    let mut s = Session::new();
    s.open();
    s.line("UPS apc \"x\"\n");
    assert_eq!(sent(s.end_of_stream()), "LIST VAR apc\n");
    s.line("VAR apc ups.load \"5\"\n");
    assert!(matches!(s.end_of_stream(), Action::Finish));
    let records: Vec<UpsDeviceRecord> = s.into_records();
    assert_eq!(records.len(), 1);
    assert_eq!(records[0].raw_parameters.len(), 1);

    let mut fresh = Session::new();
    assert!(matches!(fresh.end_of_stream(), Action::Finish));
    assert!(matches!(fresh.line("UPS apc \"x\""), Action::Finish));
    assert_eq!(fresh.phase, Phase::Connected);
}
