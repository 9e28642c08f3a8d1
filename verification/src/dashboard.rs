//! The dashboard page: the fields that the HTML template shows.

use vstd::prelude::*;
use vstd::string::*;
use crate::metrics::{status_message, status_to_message, MetricsView, UpsMetrics};
use crate::text::{chars_of, eq_str};

verus! {

/// The values that the dashboard template fills in.
#[derive(Clone, Debug, PartialEq)]
pub struct DashboardTemplate {
    pub ups_name: String,
    pub ups_host: String,
    pub mfr_model: String,
    pub ups_status: String,
    pub status_class: String,
    pub battery_charge: String,
    pub charge_pct: String,
    pub ups_load: String,
    pub load_pct: String,
    pub ups_load_watt: String,
    pub ups_runtime: String,
    pub input_voltage: String,
    pub input_voltage_nominal: String,
    pub battery_voltage_nominal: String,
    pub battery_voltage: String,
}

/// CSS class of the status badge for a status.
pub open spec fn status_class_of(status: Seq<char>) -> Seq<char> {
    let msg = status_message(status, status);
    if msg == "Online (AC)"@ || msg == "Online (Charging)"@ {
        "status-online"@
    } else if msg == "On Battery"@ {
        "status-battery"@
    } else if msg == "Low Battery \u{26a0}\u{fe0f}"@ {
        "status-critical"@
    } else {
        "status-unknown"@
    }
}

/// A percentage for a gauge: `0` when the value is unknown (`N/A`).
pub open spec fn gauge_pct(v: Seq<char>) -> Seq<char> {
    if v == "N/A"@ {
        "0"@
    } else {
        v
    }
}

/// The template fields for a reading of the named UPS.
pub open spec fn dashboard_fields_hold(
    t: DashboardTemplate,
    ups_name: Seq<char>,
    ups_host: Seq<char>,
    m: MetricsView,
) -> bool {
    &&& t.ups_name@ == ups_name
    &&& t.ups_host@ == ups_host
    &&& t.mfr_model@ == m.model
    &&& t.ups_status@ == m.status
    &&& t.status_class@ == status_class_of(m.status)
    &&& t.battery_charge@ == m.battery_charge
    &&& t.charge_pct@ == gauge_pct(m.battery_charge)
    &&& t.ups_load@ == m.ups_load
    &&& t.load_pct@ == gauge_pct(m.ups_load)
    &&& t.ups_load_watt@ == m.ups_load_watt
    &&& t.ups_runtime@ == m.runtime_formatted
    &&& t.input_voltage@ == m.input_voltage
    &&& t.input_voltage_nominal@ == m.input_voltage_nominal
    &&& t.battery_voltage_nominal@ == m.battery_voltage_nominal
    &&& t.battery_voltage@ == m.battery_voltage
}

/// The gauges show the charge and the load as they were read, and 0 when
/// they are unknown (`N/A`).
pub proof fn lemma_gauges_show_known_values(
    t: DashboardTemplate,
    ups_name: Seq<char>,
    ups_host: Seq<char>,
    m: MetricsView,
)
    requires
        dashboard_fields_hold(t, ups_name, ups_host, m),
    ensures
        m.battery_charge != "N/A"@ ==> t.charge_pct@ == m.battery_charge,
        m.battery_charge == "N/A"@ ==> t.charge_pct@ == "0"@,
        m.ups_load != "N/A"@ ==> t.load_pct@ == m.ups_load,
        m.ups_load == "N/A"@ ==> t.load_pct@ == "0"@,
{
}

/// The CSS class of the status badge.
pub fn status_class(status: &str) -> (r: String)
    ensures
        r@ == status_class_of(status@),
{
    let msg = status_to_message(status, String::from_str(status));
    let chars = chars_of(msg.as_str());
    if eq_str(&chars, "Online (AC)") || eq_str(&chars, "Online (Charging)") {
        String::from_str("status-online")
    } else if eq_str(&chars, "On Battery") {
        String::from_str("status-battery")
    } else if eq_str(&chars, "Low Battery \u{26a0}\u{fe0f}") {
        String::from_str("status-critical")
    } else {
        String::from_str("status-unknown")
    }
}

fn gauge_pct_of(v: &String) -> (r: String)
    ensures
        r@ == gauge_pct(v@),
{
    let chars = chars_of(v.as_str());
    if eq_str(&chars, "N/A") {
        String::from_str("0")
    } else {
        v.clone()
    }
}

/// Fills the dashboard template from a reading of the UPS `ups_name` on
/// `ups_host`.
pub fn dashboard_template(ups_name: &str, ups_host: &str, m: &UpsMetrics) -> (t: DashboardTemplate)
    ensures
        dashboard_fields_hold(t, ups_name@, ups_host@, m@),
{
    DashboardTemplate {
        ups_name: String::from_str(ups_name),
        ups_host: String::from_str(ups_host),
        mfr_model: m.model.clone(),
        ups_status: m.status.clone(),
        status_class: status_class(m.status.as_str()),
        battery_charge: m.battery_charge.clone(),
        charge_pct: gauge_pct_of(&m.battery_charge),
        ups_load: m.ups_load.clone(),
        load_pct: gauge_pct_of(&m.ups_load),
        ups_load_watt: m.ups_load_watt.clone(),
        ups_runtime: m.runtime_formatted.clone(),
        input_voltage: m.input_voltage.clone(),
        input_voltage_nominal: m.input_voltage_nominal.clone(),
        battery_voltage_nominal: m.battery_voltage_nominal.clone(),
        battery_voltage: m.battery_voltage.clone(),
    }
}

} // verus!
