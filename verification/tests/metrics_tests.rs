use nut_monitor_web::metrics::{
    metrics_from_run, parse_upsc_output, status_to_message, upsc_target, upsc_value, UpsMetrics,
    UpscRun,
};

const LISTING: &str = "battery.charge: 87\n\
battery.runtime: 1530\n\
battery.voltage: 13.5\n\
battery.voltage.nominal: 12.0\n\
device.mfr: EATON\n\
device.model: Ellipse PRO 650\n\
device.serial: G355M12345\n\
input.voltage: 230.0\n\
input.voltage.nominal: 230\n\
ups.load: 23\n\
ups.realpower.nominal: 400\n\
ups.status: OL CHRG\n";

#[test]
fn status_charging_is_exact_match() {
    assert_eq!(status_to_message("OL CHRG", "x".to_string()), "Online (Charging)");
}

#[test]
fn status_online_prefix() {
    assert_eq!(status_to_message("OL", "x".to_string()), "Online (AC)");
    assert_eq!(status_to_message("OL CHRG BOOST", "x".to_string()), "Online (AC)");
}

#[test]
fn status_on_battery_and_low_battery() {
    assert_eq!(status_to_message("OB DISCHRG", "x".to_string()), "On Battery");
    assert_eq!(status_to_message("LB", "x".to_string()), "Low Battery \u{26a0}\u{fe0f}");
}

#[test]
fn status_unknown_gives_fallback() {
    assert_eq!(status_to_message("FSD", "fallback".to_string()), "fallback");
    assert_eq!(status_to_message("", "empty".to_string()), "empty");
    assert_eq!(status_to_message("ol", "lower".to_string()), "lower");
}

#[test]
fn status_wording_is_idempotent() {
    for s in ["OL", "OL CHRG", "OB", "LB", "FSD", "On Battery"] {
        let once = status_to_message(s, s.to_string());
        let twice = status_to_message(&once, once.clone());
        assert_eq!(once, twice);
    }
}

#[test]
fn parse_full_listing() {
    let m = parse_upsc_output(LISTING, None);
    assert_eq!(m.manufacturer, "EATON");
    assert_eq!(m.model, "Ellipse PRO 650");
    assert_eq!(m.serial, "G355M12345");
    assert_eq!(m.status, "Online (Charging)");
    assert_eq!(m.battery_charge, "87");
    assert_eq!(m.battery_voltage, "13.5");
    assert_eq!(m.battery_voltage_nominal, "12.0");
    assert_eq!(m.input_voltage, "230.0");
    assert_eq!(m.input_voltage_nominal, "230");
    assert_eq!(m.ups_load, "23");
    assert_eq!(m.ups_load_watt, "N/A");
    assert_eq!(m.runtime_seconds, "1530");
    assert_eq!(m.runtime_formatted, "25 min");
}

#[test]
fn parse_empty_listing_gives_placeholders() {
    let m = parse_upsc_output("", None);
    assert_eq!(m, UpsMetrics::unreported());
    assert_eq!(m.manufacturer, "Generic");
    assert_eq!(m.model, "NUT Device");
    assert_eq!(m.status, "Disconnected");
    assert_eq!(m.runtime_formatted, "N/A");
}

#[test]
fn parse_ups_prefixed_keys_and_last_wins() {
    let m = parse_upsc_output("device.mfr: A\nups.mfr: B\nups.model: M1\ndevice.model: M2\n", None);
    assert_eq!(m.manufacturer, "B");
    assert_eq!(m.model, "M2");
}

#[test]
fn parse_value_stops_at_second_colon() {
    let m = parse_upsc_output("device.serial:  ab:cd:ef \n", None);
    assert_eq!(m.serial, "ab");
}

#[test]
fn parse_skips_lines_without_colon_and_unknown_keys() {
    let m = parse_upsc_output("garbage line\nups.beeper.status: enabled\nbattery.charge:100", None);
    assert_eq!(m.battery_charge, "100");
    assert_eq!(m.model, "NUT Device");
}

#[test]
fn parse_crlf_and_whitespace() {
    let m = parse_upsc_output("  ups.status :\tOB DISCHRG\r\nbattery.charge: 40\r\n", None);
    assert_eq!(m.status, "On Battery");
    assert_eq!(m.battery_charge, "40");
}

#[test]
fn parse_runtime_not_a_number_is_kept() {
    let m = parse_upsc_output("battery.runtime: 12.5\n", None);
    assert_eq!(m.runtime_seconds, "12.5");
    assert_eq!(m.runtime_formatted, "12.5");
    let m = parse_upsc_output("battery.runtime: +59\n", None);
    assert_eq!(m.runtime_formatted, "0 min");
    let m = parse_upsc_output("battery.runtime: 4294967295\n", None);
    assert_eq!(m.runtime_formatted, "71582788 min");
    let m = parse_upsc_output("battery.runtime: 4294967296\n", None);
    assert_eq!(m.runtime_formatted, "4294967296");
}

#[test]
fn parse_unknown_status_kept_verbatim() {
    let m = parse_upsc_output("ups.status: FSD\n", None);
    assert_eq!(m.status, "FSD");
}

#[test]
fn upsc_value_finds_last_value() {
    assert_eq!(upsc_value(LISTING, "ups.realpower.nominal"), Some("400".to_string()));
    assert_eq!(upsc_value("ups.load: 1\nups.load: 2\n", "ups.load"), Some("2".to_string()));
    assert_eq!(upsc_value(LISTING, "ups.beeper.status"), None);
}

#[test]
fn run_outcomes() {
    let ok = metrics_from_run(&UpscRun::Succeeded(LISTING.to_string()), None);
    assert_eq!(ok, parse_upsc_output(LISTING, None));
    let failed = metrics_from_run(&UpscRun::ExitedWithFailure, Some("9.9".to_string()));
    assert_eq!(failed.status, "Communication Error (upsd)");
    assert_eq!(failed.model, "NUT Device");
    assert_eq!(failed.ups_load_watt, "N/A");
    let absent = metrics_from_run(&UpscRun::NotStarted, Some("9.9".to_string()));
    assert_eq!(absent.status, "Disconnected");
    assert_eq!(absent.ups_load_watt, "N/A");
    let with_watt = metrics_from_run(&UpscRun::Succeeded(LISTING.to_string()), Some("92.0".to_string()));
    assert_eq!(with_watt.ups_load_watt, "92.0");
    assert_eq!(with_watt.ups_load, "23");
}

#[test]
fn upsc_target_joins_name_and_host() {
    assert_eq!(upsc_target("ups", "localhost"), "ups@localhost");
    assert_eq!(upsc_target("eaton", "192.168.1.100"), "eaton@192.168.1.100");
}

/// The load in watts as the program works it out: `ups.load` percent of
/// `ups.realpower.nominal`, one decimal.
fn watt_of(listing: &str) -> Option<String> {
    let load = upsc_value(listing, "ups.load")?.parse::<f64>().ok()?;
    let nominal = upsc_value(listing, "ups.realpower.nominal")?.parse::<f64>().ok()?;
    Some(format!("{:.1}", (load / 100.0) * nominal))
}

#[test]
fn parse_with_load_in_watts() {
    let listing = "ups.load: 7\nups.realpower.nominal: 90";
    let m = parse_upsc_output(listing, watt_of(listing));
    assert_eq!(m.ups_load, "7");
    assert_eq!(m.ups_load_watt, "6.3");
    assert_eq!(m.manufacturer, "Generic");
    assert_eq!(m.model, "NUT Device");
    assert_eq!(m.status, "Disconnected");
    assert_eq!(m.serial, "N/A");
    assert_eq!(m.battery_charge, "N/A");
    assert_eq!(m.runtime_formatted, "N/A");
    let m = parse_upsc_output(LISTING, watt_of(LISTING));
    assert_eq!(m.ups_load_watt, "92.0");
    let no_nominal = "ups.load: 7\n";
    assert_eq!(watt_of(no_nominal), None);
    assert_eq!(parse_upsc_output(no_nominal, watt_of(no_nominal)).ups_load_watt, "N/A");
}

#[test]
fn appended_unknown_lines_change_nothing() {
    let longer = format!("{}\n{}", LISTING, "ups.beeper.status: enabled\nno colon here\nups.realpower.nominal: 1");
    assert_eq!(parse_upsc_output(&longer, None), parse_upsc_output(LISTING, None));
}

#[test]
fn line_order_does_not_matter_without_repeats() {
    let a = "ups.status: OB\nbattery.charge: 40\nups.mfr: X\nbattery.runtime: 600\nups.load: 7";
    let b = "battery.runtime: 600\nups.load: 7\nups.mfr: X\nbattery.charge: 40\nups.status: OB";
    assert_eq!(parse_upsc_output(a, None), parse_upsc_output(b, None));
}
