use nut_monitor_web::dashboard::{dashboard_template, status_class};
use nut_monitor_web::metrics::parse_upsc_output;

#[test]
fn status_classes() {
    assert_eq!(status_class("Online (AC)"), "status-online");
    assert_eq!(status_class("Online (Charging)"), "status-online");
    assert_eq!(status_class("OL"), "status-online");
    assert_eq!(status_class("On Battery"), "status-battery");
    assert_eq!(status_class("Low Battery \u{26a0}\u{fe0f}"), "status-critical");
    assert_eq!(status_class("Disconnected"), "status-unknown");
}

#[test]
fn template_from_reading() {
    let m = parse_upsc_output("ups.status: OB\nups.model: X\nbattery.charge: 64\nbattery.runtime: 120\n", None);
    let t = dashboard_template("ups", "localhost", &m);
    assert_eq!(t.ups_name, "ups");
    assert_eq!(t.ups_host, "localhost");
    assert_eq!(t.mfr_model, "X");
    assert_eq!(t.ups_status, "On Battery");
    assert_eq!(t.status_class, "status-battery");
    assert_eq!(t.battery_charge, "64");
    assert_eq!(t.charge_pct, "64");
    assert_eq!(t.ups_load, "N/A");
    assert_eq!(t.load_pct, "0");
    assert_eq!(t.ups_runtime, "2 min");
    assert_eq!(t.ups_load_watt, "N/A");
}
