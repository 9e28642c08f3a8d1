use nut_monitor_web::alerts::{evaluate_reading, AlertNotice, LastAlertState};
use nut_monitor_web::metrics::{parse_upsc_output, UpsMetrics};

fn reading(status: &str, charge: &str, load: &str, runtime: &str) -> UpsMetrics {
    let mut m = UpsMetrics::unreported();
    m.status = status.to_string();
    m.battery_charge = charge.to_string();
    m.ups_load = load.to_string();
    m.runtime_seconds = runtime.to_string();
    m
}

#[test]
fn first_reading_sets_status_without_alert() {
    let mut s = LastAlertState::default();
    let n = evaluate_reading(&mut s, &reading("Online (AC)", "100", "20", "3000"));
    assert_eq!(n, None);
    assert_eq!(s.last_status, "Online (AC)");
    assert!(!s.battery_low_sent && !s.load_high_sent && !s.runtime_low_sent);
}

#[test]
fn status_change_is_announced() {
    let mut s = LastAlertState::default();
    evaluate_reading(&mut s, &reading("Online (AC)", "100", "20", "3000"));
    let n = evaluate_reading(&mut s, &reading("On Battery", "100", "20", "3000")).unwrap();
    assert_eq!(n.title, "UPS Status Changed: On Battery");
    assert_eq!(n.message, "Device shifted from Online (AC) to On Battery.");
}

#[test]
fn low_battery_alert_sent_once_and_rearms() {
    let mut s = LastAlertState::default();
    let n = evaluate_reading(&mut s, &reading("Online (AC)", "42", "20", "3000")).unwrap();
    assert_eq!(
        n,
        AlertNotice {
            title: "Alert: Low Battery Capacity".to_string(),
            message: "UPS battery charge dropped under threshold: 42%".to_string(),
        }
    );
    assert!(s.battery_low_sent);
    assert_eq!(evaluate_reading(&mut s, &reading("Online (AC)", "30", "20", "3000")), None);
    assert_eq!(evaluate_reading(&mut s, &reading("Online (AC)", "50", "20", "3000")), None);
    assert!(!s.battery_low_sent);
    assert!(evaluate_reading(&mut s, &reading("Online (AC)", "49", "20", "3000")).is_some());
}

#[test]
fn overload_alert() {
    let mut s = LastAlertState::default();
    let n = evaluate_reading(&mut s, &reading("Online (AC)", "100", "81", "3000")).unwrap();
    assert_eq!(n.title, "Alert: Critical Overload");
    assert_eq!(n.message, "UPS load capacity consumption is exceeding metrics: 81%");
    assert_eq!(evaluate_reading(&mut s, &reading("Online (AC)", "100", "90", "3000")), None);
    assert_eq!(evaluate_reading(&mut s, &reading("Online (AC)", "100", "80", "3000")), None);
    assert!(!s.load_high_sent);
    let again = evaluate_reading(&mut s, &reading("Online (AC)", "100", "85", "3000")).unwrap();
    assert_eq!(again.message, "UPS load capacity consumption is exceeding metrics: 85%");
}

#[test]
fn runtime_alert_only_on_battery() {
    let mut s = LastAlertState::default();
    assert_eq!(evaluate_reading(&mut s, &reading("Online (AC)", "100", "20", "600")), None);
    assert!(!s.runtime_low_sent);
    let mut s = LastAlertState::default();
    let n = evaluate_reading(&mut s, &reading("On Battery", "100", "20", "600")).unwrap();
    assert_eq!(n.title, "Alert: Critical Low Runtime");
    assert!(s.runtime_low_sent);
    let mut s = LastAlertState::default();
    let n = evaluate_reading(&mut s, &reading("OB DISCHRG", "100", "20", "600")).unwrap();
    assert_eq!(n.title, "Alert: Critical Low Runtime");
    assert_eq!(n.message, "UPS backup window is under 15 minutes (10 min remaining).");
    assert!(s.runtime_low_sent);
    assert_eq!(evaluate_reading(&mut s, &reading("OB DISCHRG", "100", "20", "500")), None);
    evaluate_reading(&mut s, &reading("OL", "100", "20", "600"));
    assert!(!s.runtime_low_sent);
    let n = evaluate_reading(&mut s, &reading("LB", "100", "20", "120")).unwrap();
    assert_eq!(n.title, "Alert: Critical Low Runtime");
    assert_eq!(n.message, "UPS backup window is under 15 minutes (2 min remaining).");
}

#[test]
fn later_condition_wins_title() {
    let mut s = LastAlertState::default();
    evaluate_reading(&mut s, &reading("Online (AC)", "100", "20", "3000"));
    let n = evaluate_reading(&mut s, &reading("LB", "10", "95", "60")).unwrap();
    assert_eq!(n.title, "Alert: Critical Low Runtime");
    assert!(s.battery_low_sent && s.load_high_sent && s.runtime_low_sent);
}

#[test]
fn disconnected_and_error_readings_are_ignored() {
    let mut s = LastAlertState::default();
    evaluate_reading(&mut s, &reading("Online (AC)", "100", "20", "3000"));
    let before = s.clone();
    assert_eq!(evaluate_reading(&mut s, &reading("Disconnected", "1", "99", "1")), None);
    assert_eq!(s, before);
    assert_eq!(
        evaluate_reading(&mut s, &reading("Communication Error (upsd)", "1", "99", "1")),
        None
    );
    assert_eq!(s, before);
}

#[test]
fn same_reading_twice_is_quiet() {
    let m = parse_upsc_output("ups.status: OB\nbattery.charge: 5\nups.load: 90\nbattery.runtime: 10\n", None);
    let mut s = LastAlertState::default();
    s.last_status = "Online (AC)".to_string();
    assert!(evaluate_reading(&mut s, &m).is_some());
    let after_first = s.clone();
    assert_eq!(evaluate_reading(&mut s, &m), None);
    assert_eq!(s, after_first);
}

#[test]
fn non_numeric_fields_keep_flags() {
    let mut s = LastAlertState::default();
    s.battery_low_sent = true;
    s.load_high_sent = true;
    assert_eq!(evaluate_reading(&mut s, &reading("Online (AC)", "N/A", "N/A", "N/A")), None);
    assert!(s.battery_low_sent && s.load_high_sent);
}

#[test]
fn parsed_on_battery_listing_raises_runtime_alert() {
    let m = parse_upsc_output("ups.status: OB DISCHRG\nbattery.runtime: 600", None);
    assert_eq!(m.status, "On Battery");
    let mut s = LastAlertState {
        last_status: "On Battery".to_string(),
        battery_low_sent: false,
        load_high_sent: false,
        runtime_low_sent: false,
    };
    let n = evaluate_reading(&mut s, &m).unwrap();
    assert_eq!(n.title, "Alert: Critical Low Runtime");
    assert_eq!(n.message, "UPS backup window is under 15 minutes (10 min remaining).");
    assert!(s.runtime_low_sent);
    assert_eq!(evaluate_reading(&mut s, &m), None);
}

#[test]
fn parsed_low_battery_listing_raises_runtime_alert() {
    let m = parse_upsc_output("ups.status: LB\nbattery.runtime: 300\n", None);
    let mut s = LastAlertState::default();
    let n = evaluate_reading(&mut s, &m).unwrap();
    assert_eq!(n.message, "UPS backup window is under 15 minutes (5 min remaining).");
    let back = parse_upsc_output("ups.status: OL\nbattery.runtime: 300\n", None);
    evaluate_reading(&mut s, &back);
    assert!(!s.runtime_low_sent);
}
