//! Alert decisions of the background monitor: from the remembered alert state
//! and a fresh reading to the next state and the notification to send, if any.

use vstd::prelude::*;
use vstd::string::*;
use crate::metrics::{status_message, status_to_message, MetricsView, UpsMetrics};
use crate::text::{
    chars_of, contains, contains_str, decimal, lemma_two_char_prefix, eq_chars, eq_str, parse_unsigned,
    parse_unsigned_chars, push_decimal, starts_with, starts_with_str, string_from_chars,
};

verus! {

/// What the monitor remembers between two readings.
#[derive(Clone, Debug, PartialEq)]
pub struct LastAlertState {
    /// Status of the last usable reading; empty before the first one.
    pub last_status: String,
    /// A low-battery alert has been sent and the charge has not recovered.
    pub battery_low_sent: bool,
    /// An overload alert has been sent and the load has not dropped.
    pub load_high_sent: bool,
    /// A low-runtime alert has been sent and the runtime has not recovered.
    pub runtime_low_sent: bool,
}

pub struct AlertView {
    pub last_status: Seq<char>,
    pub battery_low_sent: bool,
    pub load_high_sent: bool,
    pub runtime_low_sent: bool,
}

impl View for LastAlertState {
    type V = AlertView;

    open spec fn view(&self) -> AlertView {
        AlertView {
            last_status: self.last_status@,
            battery_low_sent: self.battery_low_sent,
            load_high_sent: self.load_high_sent,
            runtime_low_sent: self.runtime_low_sent,
        }
    }
}

/// The state before the first reading.
pub open spec fn initial_alert_view() -> AlertView {
    AlertView {
        last_status: Seq::<char>::empty(),
        battery_low_sent: false,
        load_high_sent: false,
        runtime_low_sent: false,
    }
}

impl Default for LastAlertState {
    fn default() -> (s: Self)
        ensures
            s@ == initial_alert_view(),
    {
        LastAlertState {
            last_status: String::new(),
            battery_low_sent: false,
            load_high_sent: false,
            runtime_low_sent: false,
        }
    }
}

/// A push notification: its title and its body.
#[derive(Clone, Debug, PartialEq)]
pub struct AlertNotice {
    pub title: String,
    pub message: String,
}

pub open spec fn notice_view(n: Option<AlertNotice>) -> Option<(Seq<char>, Seq<char>)> {
    match n {
        Some(a) => Some((a.title@, a.message@)),
        None => None,
    }
}

// ---------------------------------------------------------------------------
// Specifications
// ---------------------------------------------------------------------------

/// Readings that say nothing about the UPS (it could not be reached).
pub open spec fn reading_ignored(status: Seq<char>) -> bool {
    status == "Disconnected"@ || contains(status, "Error"@)
}

/// A status that says the UPS runs on its battery: the raw NUT codes (`OB`,
/// `OB DISCHRG`, `LB`, ...) or the wording that the listing parser gives them.
pub open spec fn on_battery(status: Seq<char>) -> bool {
    ||| starts_with(status, "OB"@)
    ||| starts_with(status, "LB"@)
    ||| status == "On Battery"@
    ||| status == "Low Battery \u{26a0}\u{fe0f}"@
}

/// A field read as a `u32`, as `str::parse::<u32>` does.
pub open spec fn as_u32(v: Seq<char>) -> Option<nat> {
    parse_unsigned(v, u32::MAX as nat)
}

/// The alert state after a reading.
pub open spec fn next_alert_view(s: AlertView, m: MetricsView) -> AlertView {
    if reading_ignored(m.status) {
        s
    } else {
        AlertView {
            last_status: m.status,
            battery_low_sent: match as_u32(m.battery_charge) {
                Some(c) => c < 50,
                None => s.battery_low_sent,
            },
            load_high_sent: match as_u32(m.ups_load) {
                Some(l) => l > 80,
                None => s.load_high_sent,
            },
            runtime_low_sent: if on_battery(m.status) {
                match as_u32(m.runtime_seconds) {
                    Some(t) => t < 900,
                    None => s.runtime_low_sent,
                }
            } else {
                false
            },
        }
    }
}

/// Notice for a change of status since the last usable reading.
pub open spec fn status_change_notice(s: AlertView, m: MetricsView) -> Option<(Seq<char>, Seq<char>)> {
    if s.last_status.len() > 0 && s.last_status != m.status {
        let msg = status_message(m.status, m.status);
        Some(
            (
                "UPS Status Changed: "@ + msg,
                "Device shifted from "@ + s.last_status + " to "@ + msg + "."@,
            ),
        )
    } else {
        None
    }
}

/// Notice for a battery charge under 50 %, sent once until it recovers.
pub open spec fn battery_notice(s: AlertView, m: MetricsView) -> Option<(Seq<char>, Seq<char>)> {
    match as_u32(m.battery_charge) {
        Some(c) => if c < 50 && !s.battery_low_sent {
            Some(
                (
                    "Alert: Low Battery Capacity"@,
                    "UPS battery charge dropped under threshold: "@ + decimal(c) + "%"@,
                ),
            )
        } else {
            None
        },
        None => None,
    }
}

/// Notice for a load over 80 %, sent once until it drops.
pub open spec fn load_notice(s: AlertView, m: MetricsView) -> Option<(Seq<char>, Seq<char>)> {
    match as_u32(m.ups_load) {
        Some(l) => if l > 80 && !s.load_high_sent {
            Some(
                (
                    "Alert: Critical Overload"@,
                    "UPS load capacity consumption is exceeding metrics: "@ + decimal(l) + "%"@,
                ),
            )
        } else {
            None
        },
        None => None,
    }
}

/// Notice for less than 15 minutes of runtime while on battery, sent once
/// until it recovers or mains power returns.
pub open spec fn runtime_notice(s: AlertView, m: MetricsView) -> Option<(Seq<char>, Seq<char>)> {
    if on_battery(m.status) {
        match as_u32(m.runtime_seconds) {
            Some(t) => if t < 900 && !s.runtime_low_sent {
                Some(
                    (
                        "Alert: Critical Low Runtime"@,
                        "UPS backup window is under 15 minutes ("@ + decimal(t / 60)
                            + " min remaining)."@,
                    ),
                )
            } else {
                None
            },
            None => None,
        }
    } else {
        None
    }
}

/// `b` when there is one, else `a`.
pub open spec fn later_of(
    a: Option<(Seq<char>, Seq<char>)>,
    b: Option<(Seq<char>, Seq<char>)>,
) -> Option<(Seq<char>, Seq<char>)> {
    if b is Some {
        b
    } else {
        a
    }
}

/// The notification a reading calls for: of the conditions that fire, the
/// last in the order status change, battery, load, runtime.
pub open spec fn alert_notice(s: AlertView, m: MetricsView) -> Option<(Seq<char>, Seq<char>)> {
    if reading_ignored(m.status) {
        None
    } else {
        later_of(
            later_of(later_of(status_change_notice(s, m), battery_notice(s, m)), load_notice(s, m)),
            runtime_notice(s, m),
        )
    }
}

// ---------------------------------------------------------------------------
// Laws
// ---------------------------------------------------------------------------

/// A reading from a disconnected or failing UPS is ignored: the state stays
/// as it was and nothing is sent.
pub proof fn lemma_ignored_reading_changes_nothing(s: AlertView, m: MetricsView)
    requires
        reading_ignored(m.status),
    ensures
        next_alert_view(s, m) == s,
        alert_notice(s, m) is None,
{
}

/// Alerts are not repeated: after a reading, the same reading again sends
/// nothing and leaves the state as it is.
pub proof fn lemma_same_reading_again_is_quiet(s: AlertView, m: MetricsView)
    ensures
        alert_notice(next_alert_view(s, m), m) is None,
        next_alert_view(next_alert_view(s, m), m) == next_alert_view(s, m),
{
}

/// Once the charge is back at 50 % or more, a later drop under 50 % is
/// announced again.
pub proof fn lemma_battery_alert_rearms(s: AlertView, m1: MetricsView, m2: MetricsView)
    requires
        !reading_ignored(m1.status),
        as_u32(m1.battery_charge) matches Some(c) && c >= 50,
        !reading_ignored(m2.status),
        as_u32(m2.battery_charge) matches Some(c) && c < 50,
    ensures
        alert_notice(next_alert_view(s, m1), m2) is Some,
{
}

/// Once the load is back at 80 % or less, a later overload is announced
/// again.
pub proof fn lemma_load_alert_rearms(s: AlertView, m1: MetricsView, m2: MetricsView)
    requires
        !reading_ignored(m1.status),
        as_u32(m1.ups_load) matches Some(l) && l <= 80,
        !reading_ignored(m2.status),
        as_u32(m2.ups_load) matches Some(l) && l > 80,
    ensures
        alert_notice(next_alert_view(s, m1), m2) is Some,
{
}

/// Once the UPS is off battery, a later low runtime on battery is announced
/// again.
pub proof fn lemma_runtime_alert_rearms(s: AlertView, m1: MetricsView, m2: MetricsView)
    requires
        !reading_ignored(m1.status),
        !on_battery(m1.status),
        !reading_ignored(m2.status),
        on_battery(m2.status),
        as_u32(m2.runtime_seconds) matches Some(t) && t < 900,
    ensures
        alert_notice(next_alert_view(s, m1), m2) is Some,
{
}

/// On battery, a runtime back at 15 minutes or more re-arms the low-runtime
/// alert: the flag is cleared, and a later reading on battery with less than
/// 15 minutes left is announced with the low-runtime notice.
pub proof fn lemma_runtime_alert_rearms_on_battery(
    s: AlertView,
    m1: MetricsView,
    m2: MetricsView,
)
    requires
        !reading_ignored(m1.status),
        on_battery(m1.status),
        as_u32(m1.runtime_seconds) matches Some(t) && t >= 900,
        !reading_ignored(m2.status),
        on_battery(m2.status),
        as_u32(m2.runtime_seconds) matches Some(t) && t < 900,
    ensures
        !next_alert_view(s, m1).runtime_low_sent,
        match as_u32(m2.runtime_seconds) {
            Some(t) => alert_notice(next_alert_view(s, m1), m2) == Some(
                (
                    "Alert: Critical Low Runtime"@,
                    "UPS backup window is under 15 minutes ("@ + decimal(t / 60)
                        + " min remaining)."@,
                ),
            ),
            None => false,
        },
{
}

/// Wording a status for display does not change whether it counts as on
/// battery: a reading parsed from `ups.status: OB ...` or `LB ...` still
/// takes part in the low-runtime rule.
pub proof fn lemma_worded_status_keeps_on_battery(status: Seq<char>)
    ensures
        on_battery(status_message(status, status)) == on_battery(status),
{
    reveal_strlit("OL CHRG");
    reveal_strlit("OL");
    reveal_strlit("OB");
    reveal_strlit("LB");
    reveal_strlit("Online (Charging)");
    reveal_strlit("Online (AC)");
    reveal_strlit("On Battery");
    reveal_strlit("Low Battery \u{26a0}\u{fe0f}");
    let worded = status_message(status, status);
    lemma_two_char_prefix(status, "OL"@);
    lemma_two_char_prefix(status, "OB"@);
    lemma_two_char_prefix(status, "LB"@);
    lemma_two_char_prefix(worded, "OB"@);
    lemma_two_char_prefix(worded, "LB"@);
}

/// Every change of status after the first usable reading is announced.
pub proof fn lemma_status_change_is_announced(s: AlertView, m: MetricsView)
    requires
        !reading_ignored(m.status),
        s.last_status.len() > 0,
        s.last_status != m.status,
    ensures
        alert_notice(s, m) is Some,
{
}

/// The first usable reading never announces a change of status.
pub proof fn lemma_first_reading_has_no_status_change(m: MetricsView)
    ensures
        status_change_notice(initial_alert_view(), m) is None,
        next_alert_view(initial_alert_view(), m).last_status == (if reading_ignored(m.status) {
            Seq::<char>::empty()
        } else {
            m.status
        }),
{
}

// ---------------------------------------------------------------------------
// Executable code
// ---------------------------------------------------------------------------

fn decimal_string(n: u64) -> (r: String)
    ensures
        r@ == decimal(n as nat),
{
    let mut out: Vec<char> = Vec::new();
    push_decimal(&mut out, n);
    assert(out@ =~= decimal(n as nat));
    string_from_chars(&out)
}

fn field_as_u32(v: &String) -> (r: Option<u64>)
    ensures
        r matches Some(n) ==> as_u32(v@) == Some(n as nat),
        r is None ==> as_u32(v@) is None,
{
    let chars = chars_of(v.as_str());
    parse_unsigned_chars(&chars, 0xffff_ffffu64)
}

/// Takes a reading into account: updates the remembered state and returns
/// the notification to broadcast, if the reading calls for one.
pub fn evaluate_reading(alerts: &mut LastAlertState, m: &UpsMetrics) -> (r: Option<AlertNotice>)
    ensures
        final(alerts)@ == next_alert_view(old(alerts)@, m@),
        notice_view(r) == alert_notice(old(alerts)@, m@),
{
    let status = chars_of(m.status.as_str());
    if eq_str(&status, "Disconnected") || contains_str(&status, "Error") {
        return None;
    }
    let ghost s0 = alerts@;
    let mut notice: Option<AlertNotice> = None;
    let last = chars_of(alerts.last_status.as_str());
    if last.len() > 0 && !eq_chars(&last, &status) {
        let msg = status_to_message(m.status.as_str(), m.status.clone());
        let mut title = String::from_str("UPS Status Changed: ");
        title.append(msg.as_str());
        let mut message = String::from_str("Device shifted from ");
        message.append(alerts.last_status.as_str());
        message.append(" to ");
        message.append(msg.as_str());
        message.append(".");
        notice = Some(AlertNotice { title, message });
    }
    assert(notice_view(notice) == status_change_notice(s0, m@));
    alerts.last_status = m.status.clone();
    match field_as_u32(&m.battery_charge) {
        Some(charge) => {
            if charge < 50 {
                if !alerts.battery_low_sent {
                    let mut message = String::from_str(
                        "UPS battery charge dropped under threshold: ",
                    );
                    message.append(decimal_string(charge).as_str());
                    message.append("%");
                    notice = Some(
                        AlertNotice {
                            title: String::from_str("Alert: Low Battery Capacity"),
                            message,
                        },
                    );
                    alerts.battery_low_sent = true;
                }
            } else {
                alerts.battery_low_sent = false;
            }
        },
        None => {},
    }
    assert(notice_view(notice) == later_of(
        status_change_notice(s0, m@),
        battery_notice(s0, m@),
    ));
    match field_as_u32(&m.ups_load) {
        Some(load) => {
            if load > 80 {
                if !alerts.load_high_sent {
                    let mut message = String::from_str(
                        "UPS load capacity consumption is exceeding metrics: ",
                    );
                    message.append(decimal_string(load).as_str());
                    message.append("%");
                    notice = Some(
                        AlertNotice { title: String::from_str("Alert: Critical Overload"), message },
                    );
                    alerts.load_high_sent = true;
                }
            } else {
                alerts.load_high_sent = false;
            }
        },
        None => {},
    }
    if starts_with_str(&status, "OB") || starts_with_str(&status, "LB") || eq_str(
        &status,
        "On Battery",
    ) || eq_str(&status, "Low Battery \u{26a0}\u{fe0f}") {
        match field_as_u32(&m.runtime_seconds) {
            Some(seconds) => {
                if seconds < 900 {
                    if !alerts.runtime_low_sent {
                        let mut message = String::from_str(
                            "UPS backup window is under 15 minutes (",
                        );
                        message.append(decimal_string(seconds / 60).as_str());
                        message.append(" min remaining).");
                        notice = Some(
                            AlertNotice {
                                title: String::from_str("Alert: Critical Low Runtime"),
                                message,
                            },
                        );
                        alerts.runtime_low_sent = true;
                    }
                } else {
                    alerts.runtime_low_sent = false;
                }
            },
            None => {},
        }
    } else {
        alerts.runtime_low_sent = false;
    }
    notice
}

} // verus!
