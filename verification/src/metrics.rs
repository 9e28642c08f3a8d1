//! UPS readings: the `upsc` listing parser and the status wording.

use vstd::prelude::*;
use vstd::string::*;
use crate::text::{
    chars_of, decimal, eq_chars, eq_str, lemma_two_char_prefix, lines_chars, lines_of, parse_unsigned,
    parse_unsigned_chars, push_decimal, push_str, split_chars, split_seq, starts_with,
    starts_with_str, string_from_chars, trim, trim_chars, views,
};

verus! {

/// One reading of the UPS, as text fields ready for display.
#[derive(Clone, Debug, PartialEq)]
pub struct UpsMetrics {
    pub manufacturer: String,
    pub model: String,
    pub serial: String,
    pub status: String,
    pub battery_charge: String,
    pub battery_voltage: String,
    pub battery_voltage_nominal: String,
    pub input_voltage: String,
    pub input_voltage_nominal: String,
    pub ups_load: String,
    pub ups_load_watt: String,
    pub runtime_seconds: String,
    pub runtime_formatted: String,
}

/// The character contents of every field of a reading.
pub struct MetricsView {
    pub manufacturer: Seq<char>,
    pub model: Seq<char>,
    pub serial: Seq<char>,
    pub status: Seq<char>,
    pub battery_charge: Seq<char>,
    pub battery_voltage: Seq<char>,
    pub battery_voltage_nominal: Seq<char>,
    pub input_voltage: Seq<char>,
    pub input_voltage_nominal: Seq<char>,
    pub ups_load: Seq<char>,
    pub ups_load_watt: Seq<char>,
    pub runtime_seconds: Seq<char>,
    pub runtime_formatted: Seq<char>,
}

impl View for UpsMetrics {
    type V = MetricsView;

    open spec fn view(&self) -> MetricsView {
        MetricsView {
            manufacturer: self.manufacturer@,
            model: self.model@,
            serial: self.serial@,
            status: self.status@,
            battery_charge: self.battery_charge@,
            battery_voltage: self.battery_voltage@,
            battery_voltage_nominal: self.battery_voltage_nominal@,
            input_voltage: self.input_voltage@,
            input_voltage_nominal: self.input_voltage_nominal@,
            ups_load: self.ups_load@,
            ups_load_watt: self.ups_load_watt@,
            runtime_seconds: self.runtime_seconds@,
            runtime_formatted: self.runtime_formatted@,
        }
    }
}

// ---------------------------------------------------------------------------
// Specifications
// ---------------------------------------------------------------------------

/// What a raw NUT status code reads as on the dashboard and in alerts.
pub open spec fn status_message(status: Seq<char>, fallback: Seq<char>) -> Seq<char> {
    if status == "OL CHRG"@ {
        "Online (Charging)"@
    } else if starts_with(status, "OL"@) {
        "Online (AC)"@
    } else if starts_with(status, "OB"@) {
        "On Battery"@
    } else if starts_with(status, "LB"@) {
        "Low Battery \u{26a0}\u{fe0f}"@
    } else {
        fallback
    }
}

/// The reading before any `upsc` line is taken into account.
pub open spec fn unreported_view() -> MetricsView {
    MetricsView {
        manufacturer: "Generic"@,
        model: "NUT Device"@,
        serial: "N/A"@,
        status: "Disconnected"@,
        battery_charge: "N/A"@,
        battery_voltage: "N/A"@,
        battery_voltage_nominal: "N/A"@,
        input_voltage: "N/A"@,
        input_voltage_nominal: "N/A"@,
        ups_load: "N/A"@,
        ups_load_watt: "N/A"@,
        runtime_seconds: "N/A"@,
        runtime_formatted: "N/A"@,
    }
}

/// The key and value of a `key: value` line: the trimmed text before the
/// first colon and the trimmed text between the first and the second colon.
pub open spec fn line_entry(line: Seq<char>) -> Option<(Seq<char>, Seq<char>)> {
    let parts = split_seq(line, ':');
    if parts.len() < 2 {
        None
    } else {
        Some((trim(parts[0]), trim(parts[1])))
    }
}

/// How the remaining battery runtime is shown: whole minutes when the value
/// is a `u32` number of seconds, the value itself otherwise.
pub open spec fn runtime_text(v: Seq<char>) -> Seq<char> {
    match parse_unsigned(v, u32::MAX as nat) {
        Some(n) => decimal(n / 60) + " min"@,
        None => v,
    }
}

/// The effect of one `key: value` entry on a reading.
pub open spec fn apply_entry(m: MetricsView, k: Seq<char>, v: Seq<char>) -> MetricsView {
    if k == "device.mfr"@ || k == "ups.mfr"@ {
        MetricsView { manufacturer: v, ..m }
    } else if k == "device.model"@ || k == "ups.model"@ {
        MetricsView { model: v, ..m }
    } else if k == "device.serial"@ || k == "ups.serial"@ {
        MetricsView { serial: v, ..m }
    } else if k == "battery.charge"@ {
        MetricsView { battery_charge: v, ..m }
    } else if k == "battery.voltage"@ {
        MetricsView { battery_voltage: v, ..m }
    } else if k == "battery.voltage.nominal"@ {
        MetricsView { battery_voltage_nominal: v, ..m }
    } else if k == "input.voltage"@ {
        MetricsView { input_voltage: v, ..m }
    } else if k == "input.voltage.nominal"@ {
        MetricsView { input_voltage_nominal: v, ..m }
    } else if k == "ups.load"@ {
        MetricsView { ups_load: v, ..m }
    } else if k == "ups.status"@ {
        MetricsView { status: status_message(v, v), ..m }
    } else if k == "battery.runtime"@ {
        MetricsView { runtime_seconds: v, runtime_formatted: runtime_text(v), ..m }
    } else {
        m
    }
}

/// The effect of one line on a reading; lines without a colon change nothing.
pub open spec fn apply_line(m: MetricsView, line: Seq<char>) -> MetricsView {
    match line_entry(line) {
        Some((k, v)) => apply_entry(m, k, v),
        None => m,
    }
}

/// The reading after the given lines, taken in order.
pub open spec fn apply_lines(m: MetricsView, lines: Seq<Seq<char>>) -> MetricsView
    decreases lines.len(),
{
    if lines.len() == 0 {
        m
    } else {
        apply_line(apply_lines(m, lines.drop_last()), lines.last())
    }
}

/// The reading that a `upsc` listing describes.
pub open spec fn parsed_view(listing: Seq<char>) -> MetricsView {
    apply_lines(unreported_view(), lines_of(listing))
}

/// The load in watts as shown: the figure the caller worked out, or `N/A`.
pub open spec fn load_watt_text(load_watt: Option<String>) -> Seq<char> {
    match load_watt {
        Some(w) => w@,
        None => "N/A"@,
    }
}

/// A reading with its load in watts filled in.
pub open spec fn with_load_watt(m: MetricsView, load_watt: Option<String>) -> MetricsView {
    MetricsView { ups_load_watt: load_watt_text(load_watt), ..m }
}

/// The value of the last line whose key is `key`.
pub open spec fn last_value(lines: Seq<Seq<char>>, key: Seq<char>) -> Option<Seq<char>>
    decreases lines.len(),
{
    if lines.len() == 0 {
        None
    } else {
        match line_entry(lines.last()) {
            Some((k, v)) => if k == key {
                Some(v)
            } else {
                last_value(lines.drop_last(), key)
            },
            None => last_value(lines.drop_last(), key),
        }
    }
}

/// Which field of a reading a key sets; 0 for keys that set none. Aliases
/// (`device.mfr` and `ups.mfr`, ...) set the same field, and `battery.runtime`
/// sets the runtime in seconds and in minutes together.
pub open spec fn key_field(k: Seq<char>) -> int {
    if k == "device.mfr"@ || k == "ups.mfr"@ {
        1
    } else if k == "device.model"@ || k == "ups.model"@ {
        2
    } else if k == "device.serial"@ || k == "ups.serial"@ {
        3
    } else if k == "battery.charge"@ {
        4
    } else if k == "battery.voltage"@ {
        5
    } else if k == "battery.voltage.nominal"@ {
        6
    } else if k == "input.voltage"@ {
        7
    } else if k == "input.voltage.nominal"@ {
        8
    } else if k == "ups.load"@ {
        9
    } else if k == "ups.status"@ {
        10
    } else if k == "battery.runtime"@ {
        11
    } else {
        0
    }
}

/// Which field of a reading a line sets; 0 for a line that sets none.
pub open spec fn line_field(line: Seq<char>) -> int {
    match line_entry(line) {
        Some((k, _)) => key_field(k),
        None => 0,
    }
}

/// No two lines set the same field.
pub open spec fn no_field_set_twice(lines: Seq<Seq<char>>) -> bool {
    forall|i: int, j: int|
        #![trigger line_field(lines[i]), line_field(lines[j])]
        0 <= i < lines.len() && 0 <= j < lines.len() && i != j && line_field(lines[i]) != 0
            ==> line_field(lines[i]) != line_field(lines[j])
}

// ---------------------------------------------------------------------------
// Laws
// ---------------------------------------------------------------------------

/// A line that sets no field leaves the reading as it is.
proof fn lemma_fieldless_line(m: MetricsView, line: Seq<char>)
    requires
        line_field(line) == 0,
    ensures
        apply_line(m, line) == m,
{
}

/// Two lines that set different fields can be taken in either order.
#[verifier::rlimit(50)]
proof fn lemma_lines_commute(m: MetricsView, x: Seq<char>, y: Seq<char>)
    requires
        line_field(x) == 0 || line_field(x) != line_field(y),
    ensures
        apply_line(apply_line(m, x), y) == apply_line(apply_line(m, y), x),
{
    if line_field(x) == 0 {
        lemma_fieldless_line(m, x);
        lemma_fieldless_line(apply_line(m, y), x);
    } else if line_field(y) == 0 {
        lemma_fieldless_line(m, y);
        lemma_fieldless_line(apply_line(m, x), y);
    }
}

/// No line sets the load in watts.
proof fn lemma_lines_keep_load_watt(m: MetricsView, lines: Seq<Seq<char>>)
    ensures
        apply_lines(m, lines).ups_load_watt == m.ups_load_watt,
    decreases lines.len(),
{
    if lines.len() > 0 {
        lemma_lines_keep_load_watt(m, lines.drop_last());
    }
}

/// Lines that set no field, appended after others, change nothing.
proof fn lemma_fieldless_suffix(m: MetricsView, lines: Seq<Seq<char>>, extra: Seq<Seq<char>>)
    requires
        forall|i: int| 0 <= i < extra.len() ==> #[trigger] line_field(extra[i]) == 0,
    ensures
        apply_lines(m, lines + extra) == apply_lines(m, lines),
    decreases extra.len(),
{
    if extra.len() == 0 {
        assert(lines + extra =~= lines);
    } else {
        let rest = extra.drop_last();
        assert((lines + extra).drop_last() =~= lines + rest);
        assert((lines + extra).last() == extra.last());
        assert(line_field(extra[extra.len() - 1]) == 0);
        lemma_fieldless_line(apply_lines(m, lines + rest), extra.last());
        lemma_fieldless_suffix(m, lines, rest);
    }
}

/// A listing whose lines are those of `listing` followed by lines that set
/// no field (no colon, or a key the reading does not show) describes the
/// same reading.
pub proof fn lemma_appended_fieldless_lines(
    listing: Seq<char>,
    longer: Seq<char>,
    extra: Seq<Seq<char>>,
)
    requires
        lines_of(longer) == lines_of(listing) + extra,
        forall|i: int| 0 <= i < extra.len() ==> #[trigger] line_field(extra[i]) == 0,
    ensures
        parsed_view(longer) == parsed_view(listing),
{
    lemma_fieldless_suffix(unreported_view(), lines_of(listing), extra);
}

/// The line at `i` can be moved to the end when no later line sets its field.
proof fn lemma_move_line_to_end(m: MetricsView, lines: Seq<Seq<char>>, i: int)
    requires
        0 <= i < lines.len(),
        forall|j: int|
            i < j < lines.len() ==> line_field(lines[i]) == 0 || line_field(lines[i])
                != #[trigger] line_field(lines[j]),
    ensures
        apply_lines(m, lines) == apply_lines(m, lines.remove(i).push(lines[i])),
    decreases lines.len(),
{
    let x = lines[i];
    if i == lines.len() - 1 {
        assert(lines.remove(i).push(x) =~= lines);
    } else {
        let front = lines.drop_last();
        let y = lines.last();
        assert(front[i] == x);
        assert forall|j: int| i < j < front.len() implies line_field(front[i]) == 0 || line_field(
            front[i],
        ) != #[trigger] line_field(front[j]) by {
            assert(front[j] == lines[j]);
        }
        lemma_move_line_to_end(m, front, i);
        let base = apply_lines(m, front.remove(i));
        assert(front.remove(i).push(x).drop_last() =~= front.remove(i));
        assert(apply_lines(m, front) == apply_line(base, x));
        assert(apply_lines(m, lines) == apply_line(apply_line(base, x), y));
        assert(line_field(x) == 0 || line_field(x) != line_field(lines[lines.len() - 1]));
        lemma_lines_commute(base, x, y);
        assert(front.remove(i).push(y) =~= lines.remove(i));
        assert(front.remove(i).push(y).drop_last() =~= front.remove(i));
        assert(apply_lines(m, lines.remove(i)) == apply_line(base, y));
        assert(lines.remove(i).push(x).drop_last() =~= lines.remove(i));
        assert(apply_lines(m, lines.remove(i).push(x)) == apply_line(apply_line(base, y), x));
    }
}

/// Lines that set no field twice can be taken in any order.
proof fn lemma_permuted_lines(m: MetricsView, a: Seq<Seq<char>>, b: Seq<Seq<char>>)
    requires
        a.to_multiset() == b.to_multiset(),
        no_field_set_twice(a),
    ensures
        apply_lines(m, a) == apply_lines(m, b),
    decreases b.len(),
{
    broadcast use vstd::seq_lib::group_to_multiset_ensures;

    if b.len() == 0 {
        assert(a.len() == a.to_multiset().len());
        assert(b.len() == b.to_multiset().len());
    } else {
        let x = b.last();
        let rest = b.drop_last();
        assert(rest.push(x) =~= b);
        assert(b.to_multiset().count(x) > 0);
        assert(a.contains(x));
        let i = choose|i: int| 0 <= i < a.len() && a[i] == x;
        assert forall|j: int| i < j < a.len() implies line_field(a[i]) == 0 || line_field(a[i])
            != #[trigger] line_field(a[j]) by {}
        lemma_move_line_to_end(m, a, i);
        let shorter = a.remove(i);
        assert(shorter.to_multiset() == a.to_multiset().remove(x));
        assert(rest.to_multiset() == b.to_multiset().remove(x));
        assert forall|p: int, q: int|
            0 <= p < shorter.len() && 0 <= q < shorter.len() && p != q && line_field(shorter[p])
                != 0 implies line_field(shorter[p]) != line_field(shorter[q]) by {
            let pp = if p < i { p } else { p + 1 };
            let qq = if q < i { q } else { q + 1 };
            assert(shorter[p] == a[pp] && shorter[q] == a[qq]);
            assert(line_field(a[pp]) != line_field(a[qq]));
        }
        lemma_permuted_lines(m, shorter, rest);
        assert(shorter.push(x).drop_last() =~= shorter);
    }
}

/// When no field is set by two lines, the order of the lines of a listing
/// does not matter: listings with the same lines in another order describe
/// the same reading.
pub proof fn lemma_line_order_irrelevant(listing1: Seq<char>, listing2: Seq<char>)
    requires
        lines_of(listing1).to_multiset() == lines_of(listing2).to_multiset(),
        no_field_set_twice(lines_of(listing1)),
    ensures
        parsed_view(listing1) == parsed_view(listing2),
{
    lemma_permuted_lines(unreported_view(), lines_of(listing1), lines_of(listing2));
}

/// Wording a status twice changes nothing: a status message, read again as a
/// status with itself as fallback, is the same message.
pub proof fn lemma_status_message_idempotent(status: Seq<char>)
    ensures
        status_message(status_message(status, status), status_message(status, status))
            == status_message(status, status),
{
    reveal_strlit("OL CHRG");
    reveal_strlit("OL");
    reveal_strlit("OB");
    reveal_strlit("LB");
    reveal_strlit("Online (Charging)");
    reveal_strlit("Online (AC)");
    reveal_strlit("On Battery");
    reveal_strlit("Low Battery \u{26a0}\u{fe0f}");
    let m = status_message(status, status);
    if m != status {
        assert(m.subrange(0, 2)[1] != 'L' && m.subrange(0, 2)[1] != 'B');
        assert(m != "OL CHRG"@);
    }
}

/// How each status code is worded: `OL CHRG` exactly is charging on mains,
/// any other code starting with `OL` is on mains, any code starting with `OB`
/// is on battery, any code starting with `LB` is low battery, and every other
/// code gives the fallback.
pub proof fn lemma_status_wording(status: Seq<char>, fallback: Seq<char>)
    ensures
        status == "OL CHRG"@ ==> status_message(status, fallback) == "Online (Charging)"@,
        starts_with(status, "OL"@) && status != "OL CHRG"@ ==> status_message(status, fallback)
            == "Online (AC)"@,
        starts_with(status, "OB"@) ==> status_message(status, fallback) == "On Battery"@,
        starts_with(status, "LB"@) ==> status_message(status, fallback)
            == "Low Battery \u{26a0}\u{fe0f}"@,
        !starts_with(status, "OL"@) && !starts_with(status, "OB"@) && !starts_with(status, "LB"@)
            ==> status_message(status, fallback) == fallback,
{
    reveal_strlit("OL CHRG");
    reveal_strlit("OL");
    reveal_strlit("OB");
    reveal_strlit("LB");
    lemma_two_char_prefix(status, "OL"@);
    lemma_two_char_prefix(status, "OB"@);
    lemma_two_char_prefix(status, "LB"@);
    if status == "OL CHRG"@ {
        assert(status[0] == 'O' && status[1] == 'L');
    }
}

/// Each recognised key sets its own field of the reading to the line's value
/// and leaves every other field as it was; the `device.` and `ups.` names of
/// the manufacturer, model and serial are aliases.
#[verifier::rlimit(50)]
pub proof fn lemma_each_key_sets_its_field(m: MetricsView, v: Seq<char>)
    ensures
        apply_entry(m, "device.mfr"@, v) == (MetricsView { manufacturer: v, ..m }),
        apply_entry(m, "ups.mfr"@, v) == (MetricsView { manufacturer: v, ..m }),
        apply_entry(m, "device.model"@, v) == (MetricsView { model: v, ..m }),
        apply_entry(m, "ups.model"@, v) == (MetricsView { model: v, ..m }),
        apply_entry(m, "device.serial"@, v) == (MetricsView { serial: v, ..m }),
        apply_entry(m, "ups.serial"@, v) == (MetricsView { serial: v, ..m }),
        apply_entry(m, "battery.charge"@, v) == (MetricsView { battery_charge: v, ..m }),
        apply_entry(m, "battery.voltage"@, v) == (MetricsView { battery_voltage: v, ..m }),
        apply_entry(m, "battery.voltage.nominal"@, v) == (MetricsView {
            battery_voltage_nominal: v,
            ..m
        }),
        apply_entry(m, "input.voltage"@, v) == (MetricsView { input_voltage: v, ..m }),
        apply_entry(m, "input.voltage.nominal"@, v) == (MetricsView {
            input_voltage_nominal: v,
            ..m
        }),
        apply_entry(m, "ups.load"@, v) == (MetricsView { ups_load: v, ..m }),
        apply_entry(m, "ups.status"@, v) == (MetricsView { status: status_message(v, v), ..m }),
        apply_entry(m, "battery.runtime"@, v).runtime_seconds == v,
        apply_entry(m, "ups.realpower.nominal"@, v) == m,
{
    reveal_strlit("device.mfr");
    reveal_strlit("ups.mfr");
    reveal_strlit("device.model");
    reveal_strlit("ups.model");
    reveal_strlit("device.serial");
    reveal_strlit("ups.serial");
    reveal_strlit("battery.charge");
    reveal_strlit("battery.voltage");
    reveal_strlit("battery.voltage.nominal");
    reveal_strlit("input.voltage");
    reveal_strlit("input.voltage.nominal");
    reveal_strlit("ups.load");
    reveal_strlit("ups.status");
    reveal_strlit("battery.runtime");
    reveal_strlit("ups.realpower.nominal");
    assert("device.mfr"@.len() == 10 && "ups.mfr"@.len() == 7);
    assert("device.model"@.len() == 12 && "ups.model"@.len() == 9);
    assert("device.serial"@.len() == 13 && "ups.serial"@.len() == 10);
    assert("ups.serial"@[0] != "device.mfr"@[0]);
    assert("battery.charge"@.len() == 14 && "battery.voltage"@.len() == 15);
    assert("battery.voltage.nominal"@.len() == 23 && "input.voltage"@.len() == 13);
    assert("input.voltage"@[0] != "device.serial"@[0]);
    assert("input.voltage.nominal"@.len() == 21 && "ups.load"@.len() == 8);
    assert("ups.status"@.len() == 10 && "battery.runtime"@.len() == 15);
    assert("ups.status"@[5] != "device.mfr"@[5] && "ups.status"@[5] != "ups.serial"@[5]);
    assert("battery.runtime"@[8] != "battery.voltage"@[8]);
    assert("ups.realpower.nominal"@.len() == 21);
    assert("ups.realpower.nominal"@[0] != "input.voltage.nominal"@[0]);
}

/// A listing in which `key` has a value yields that value, whatever lines
/// come before it: the last line for a key decides.
pub proof fn lemma_last_line_decides(
    lines: Seq<Seq<char>>,
    line: Seq<char>,
    key: Seq<char>,
    value: Seq<char>,
)
    requires
        line_entry(line) == Some((key, value)),
    ensures
        apply_lines(unreported_view(), lines.push(line)) == apply_entry(
            apply_lines(unreported_view(), lines),
            key,
            value,
        ),
        last_value(lines.push(line), key) == Some(value),
{
    assert(lines.push(line).drop_last() =~= lines);
}

// ---------------------------------------------------------------------------
// Executable code
// ---------------------------------------------------------------------------

fn status_message_of(status: &Vec<char>, fallback: String) -> (r: String)
    ensures
        r@ == status_message(status@, fallback@),
{
    if eq_str(status, "OL CHRG") {
        String::from_str("Online (Charging)")
    } else if starts_with_str(status, "OL") {
        String::from_str("Online (AC)")
    } else if starts_with_str(status, "OB") {
        String::from_str("On Battery")
    } else if starts_with_str(status, "LB") {
        String::from_str("Low Battery \u{26a0}\u{fe0f}")
    } else {
        fallback
    }
}

/// The dashboard wording of a raw NUT status code (`OL`, `OB`, `LB`, ...);
/// a status that no rule covers gives `fallback`.
pub fn status_to_message(status: &str, fallback: String) -> (r: String)
    ensures
        r@ == status_message(status@, fallback@),
{
    let s = chars_of(status);
    status_message_of(&s, fallback)
}

impl UpsMetrics {
    /// The reading shown when the UPS reported nothing.
    pub fn unreported() -> (m: UpsMetrics)
        ensures
            m@ == unreported_view(),
    {
        UpsMetrics {
            manufacturer: String::from_str("Generic"),
            model: String::from_str("NUT Device"),
            serial: String::from_str("N/A"),
            status: String::from_str("Disconnected"),
            battery_charge: String::from_str("N/A"),
            battery_voltage: String::from_str("N/A"),
            battery_voltage_nominal: String::from_str("N/A"),
            input_voltage: String::from_str("N/A"),
            input_voltage_nominal: String::from_str("N/A"),
            ups_load: String::from_str("N/A"),
            ups_load_watt: String::from_str("N/A"),
            runtime_seconds: String::from_str("N/A"),
            runtime_formatted: String::from_str("N/A"),
        }
    }
}

fn runtime_text_of(v: &Vec<char>) -> (r: String)
    ensures
        r@ == runtime_text(v@),
{
    match parse_unsigned_chars(v, 0xffff_ffffu64) {
        Some(n) => {
            let mut out: Vec<char> = Vec::new();
            push_decimal(&mut out, n / 60);
            push_str(&mut out, " min");
            string_from_chars(&out)
        },
        None => string_from_chars(v),
    }
}

fn apply_entry_exec(m: &mut UpsMetrics, k: &Vec<char>, v: &Vec<char>)
    ensures
        final(m)@ == apply_entry(old(m)@, k@, v@),
{
    if eq_str(k, "device.mfr") || eq_str(k, "ups.mfr") {
        m.manufacturer = string_from_chars(v);
    } else if eq_str(k, "device.model") || eq_str(k, "ups.model") {
        m.model = string_from_chars(v);
    } else if eq_str(k, "device.serial") || eq_str(k, "ups.serial") {
        m.serial = string_from_chars(v);
    } else if eq_str(k, "battery.charge") {
        m.battery_charge = string_from_chars(v);
    } else if eq_str(k, "battery.voltage") {
        m.battery_voltage = string_from_chars(v);
    } else if eq_str(k, "battery.voltage.nominal") {
        m.battery_voltage_nominal = string_from_chars(v);
    } else if eq_str(k, "input.voltage") {
        m.input_voltage = string_from_chars(v);
    } else if eq_str(k, "input.voltage.nominal") {
        m.input_voltage_nominal = string_from_chars(v);
    } else if eq_str(k, "ups.load") {
        m.ups_load = string_from_chars(v);
    } else if eq_str(k, "ups.status") {
        m.status = status_message_of(v, string_from_chars(v));
    } else if eq_str(k, "battery.runtime") {
        m.runtime_seconds = string_from_chars(v);
        m.runtime_formatted = runtime_text_of(v);
    }
}

/// The key and value of a line, when it has a colon.
fn line_entry_exec(line: &Vec<char>) -> (r: Option<(Vec<char>, Vec<char>)>)
    ensures
        r matches Some((k, v)) ==> line_entry(line@) == Some((k@, v@)),
        r is None ==> line_entry(line@) is None,
{
    let parts = split_chars(line, ':');
    if parts.len() < 2 {
        return None;
    }
    assert(views(parts@)[0] == parts@[0]@);
    assert(views(parts@)[1] == parts@[1]@);
    let k = trim_chars(&parts[0]);
    let v = trim_chars(&parts[1]);
    Some((k, v))
}

/// Parses the `key: value` listing that `upsc` prints into a reading.
///
/// Fields whose key does not appear keep their placeholder (`N/A`, or
/// `Generic`, `NUT Device`, `Disconnected`); when a key appears several
/// times the last line wins. `ups.status` is reworded by
/// [`status_to_message`], `battery.runtime` also fills the runtime in
/// minutes. The load in watts is the floating-point product
/// `ups.load / 100 * ups.realpower.nominal` of the listing's last values of
/// those keys (see [`upsc_value`]), printed with one decimal: the caller
/// works it out and hands it in as `load_watt`, `None` when either value is
/// missing or not a number, which shows as `N/A`.
pub fn parse_upsc_output(stdout_str: &str, load_watt: Option<String>) -> (m: UpsMetrics)
    ensures
        m@ == with_load_watt(parsed_view(stdout_str@), load_watt),
{
    let lines = lines_chars(stdout_str);
    let ghost ls = lines_of(stdout_str@);
    let mut m = UpsMetrics::unreported();
    let n = lines.len();
    assert(ls.take(0) =~= Seq::<Seq<char>>::empty());
    for i in 0..n
        invariant
            n == ls.len(),
            views(lines@) == ls,
            m@ == apply_lines(unreported_view(), ls.take(i as int)),
    {
        assert(views(lines@)[i as int] == lines@[i as int]@);
        assert(ls.take(i + 1).drop_last() =~= ls.take(i as int));
        match line_entry_exec(&lines[i]) {
            Some((k, v)) => apply_entry_exec(&mut m, &k, &v),
            None => {},
        }
    }
    assert(ls.take(n as int) =~= ls);
    proof {
        lemma_lines_keep_load_watt(unreported_view(), ls);
    }
    match load_watt {
        Some(w) => {
            m.ups_load_watt = w;
        },
        None => {},
    }
    m
}

/// The value that the last `key: value` line of a `upsc` listing gives
/// `key`, if any line does.
pub fn upsc_value(stdout_str: &str, key: &str) -> (r: Option<String>)
    ensures
        r matches Some(v) ==> last_value(lines_of(stdout_str@), key@) == Some(v@),
        r is None ==> last_value(lines_of(stdout_str@), key@) is None,
{
    let lines = lines_chars(stdout_str);
    let ghost ls = lines_of(stdout_str@);
    let wanted = chars_of(key);
    let mut found: Option<Vec<char>> = None;
    let n = lines.len();
    assert(ls.take(0) =~= Seq::<Seq<char>>::empty());
    for i in 0..n
        invariant
            n == ls.len(),
            views(lines@) == ls,
            wanted@ == key@,
            found matches Some(v) ==> last_value(ls.take(i as int), key@) == Some(v@),
            found is None ==> last_value(ls.take(i as int), key@) is None,
    {
        assert(views(lines@)[i as int] == lines@[i as int]@);
        assert(ls.take(i + 1).drop_last() =~= ls.take(i as int));
        match line_entry_exec(&lines[i]) {
            Some((k, v)) => {
                if eq_chars(&k, &wanted) {
                    found = Some(v);
                }
            },
            None => {},
        }
    }
    assert(ls.take(n as int) =~= ls);
    match found {
        Some(v) => Some(string_from_chars(&v)),
        None => None,
    }
}

/// How a run of `upsc` ended.
#[derive(Clone, Debug, PartialEq)]
pub enum UpscRun {
    /// `upsc` exited successfully with this listing on standard output.
    Succeeded(String),
    /// `upsc` ran but exited with a failure status.
    ExitedWithFailure,
    /// `upsc` could not be started.
    NotStarted,
}

/// The reading that a run of `upsc` gives, with the load in watts that the
/// caller worked out from a successful listing.
pub open spec fn run_view(run: UpscRun, load_watt: Option<String>) -> MetricsView {
    match run {
        UpscRun::Succeeded(out) => with_load_watt(parsed_view(out@), load_watt),
        UpscRun::ExitedWithFailure => MetricsView {
            status: "Communication Error (upsd)"@,
            ..parsed_view(Seq::<char>::empty())
        },
        UpscRun::NotStarted => MetricsView {
            status: "Disconnected"@,
            ..parsed_view(Seq::<char>::empty())
        },
    }
}

/// The reading for a run of `upsc`: the parsed listing, with `load_watt` as
/// its load in watts, when it succeeded; otherwise an empty reading whose
/// status says what went wrong (and whose load in watts is `N/A`).
pub fn metrics_from_run(run: &UpscRun, load_watt: Option<String>) -> (m: UpsMetrics)
    ensures
        m@ == run_view(*run, load_watt),
{
    proof {
        reveal_strlit("");
    }
    match run {
        UpscRun::Succeeded(out) => parse_upsc_output(out.as_str(), load_watt),
        UpscRun::ExitedWithFailure => {
            let mut m = parse_upsc_output("", None);
            m.status = String::from_str("Communication Error (upsd)");
            m
        },
        UpscRun::NotStarted => {
            let mut m = parse_upsc_output("", None);
            m.status = String::from_str("Disconnected");
            m
        },
    }
}

/// The `name@host` argument that selects the UPS for `upsc`.
pub fn upsc_target(ups_name: &str, ups_host: &str) -> (r: String)
    ensures
        r@ == ups_name@ + "@"@ + ups_host@,
{
    let mut r = String::from_str(ups_name);
    r.append("@");
    r.append(ups_host);
    r
}

} // verus!
