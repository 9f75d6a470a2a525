//! Fleet health analysis: status counts, fleet-wide averages, and
//! threshold-based alerts.
//!
//! `analyze_fleet_health` is a total, deterministic function of the input
//! batch. Its contract pins down every counter, every average (to the
//! exact rounded thousandth) and the full alert sequence, character by
//! character.

use vstd::prelude::*;
use vstd::string::StringExecFns;
use vstd::arithmetic::div_mod::lemma_multiply_divide_lt;
use crate::numfmt::{dec_digits, fixed1, int_dec, round_div, round_half_away, MILLI_ABS_MAX};
use crate::numfmt::{fixed1_milli, i64_dec, usize_dec};
use crate::telemetry::{RobotStatus, TelemetryReading};

verus! {

/// Battery below this raises a Warning (thousandths of a percent).
pub const BATTERY_LOW_THRESHOLD_MILLI: i64 = 20_000;

/// Battery below this raises a Critical alert instead.
pub const BATTERY_CRITICAL_THRESHOLD_MILLI: i64 = 10_000;

/// CPU temperature above this raises a Warning (thousandths of a degree).
pub const CPU_TEMP_WARN_THRESHOLD_MILLI: i64 = 75_000;

/// CPU temperature above this raises a Critical alert instead.
pub const CPU_TEMP_CRITICAL_THRESHOLD_MILLI: i64 = 90_000;

/// Signal strictly below this many dBm raises a Warning.
pub const SIGNAL_WEAK_THRESHOLD_DBM: i32 = -80;

/// Alert severity: exactly two levels, no ordering beyond display.
#[derive(Clone, Copy, Debug, PartialEq, Eq, Structural)]
pub enum AlertSeverity {
    Warning,
    Critical,
}

impl AlertSeverity {
    /// The display tag of the severity.
    pub open spec fn spec_label(self) -> Seq<char> {
        match self {
            AlertSeverity::Warning => "WARN"@,
            AlertSeverity::Critical => "CRIT"@,
        }
    }

    /// Render the severity tag.
    pub fn label(&self) -> (r: String)
        ensures
            r@ == self.spec_label(),
    {
        match self {
            AlertSeverity::Warning => String::from_str("WARN"),
            AlertSeverity::Critical => String::from_str("CRIT"),
        }
    }
}

/// One generated alert: severity, the owning robot's id, and a
/// human-readable message. Alerts are created by analysis and never
/// mutated.
#[derive(Clone, Debug)]
pub struct HealthAlert {
    pub severity: AlertSeverity,
    pub robot_id: String,
    pub message: String,
}

/// Mathematical image of an alert: the severity and the two texts.
pub struct AlertView {
    pub severity: AlertSeverity,
    pub robot_id: Seq<char>,
    pub message: Seq<char>,
}

impl View for HealthAlert {
    type V = AlertView;

    open spec fn view(&self) -> AlertView {
        AlertView { severity: self.severity, robot_id: self.robot_id@, message: self.message@ }
    }
}

/// The views of a sequence of alerts.
pub open spec fn alert_views(alerts: Seq<HealthAlert>) -> Seq<AlertView> {
    alerts.map_values(|a: HealthAlert| a@)
}

/// Message of a Critical battery alert.
pub open spec fn battery_critical_msg(milli: int) -> Seq<char> {
    "Battery critically low: "@ + fixed1(milli) + "%"@
}

/// Message of a Warning battery alert.
pub open spec fn battery_low_msg(milli: int) -> Seq<char> {
    "Battery low: "@ + fixed1(milli) + "%"@
}

/// Message of a Critical CPU temperature alert.
pub open spec fn cpu_critical_msg(milli: int) -> Seq<char> {
    "CPU overheating: "@ + fixed1(milli) + "°C"@
}

/// Message of a Warning CPU temperature alert.
pub open spec fn cpu_warn_msg(milli: int) -> Seq<char> {
    "CPU temp elevated: "@ + fixed1(milli) + "°C"@
}

/// Message of a weak-signal alert.
pub open spec fn signal_weak_msg(dbm: int) -> Seq<char> {
    "Weak signal: "@ + int_dec(dbm) + " dBm"@
}

/// Message of an error-status alert; embeds the count of error codes.
pub open spec fn error_state_msg(n_codes: nat) -> Seq<char> {
    "Robot in error state with "@ + dec_digits(n_codes) + " error code(s)"@
}

/// What the battery check contributes for one reading: the critical tier
/// short-circuits the warning tier, so at most one alert.
pub open spec fn battery_alerts(r: TelemetryReading) -> Seq<AlertView> {
    if r.battery_level_milli < BATTERY_CRITICAL_THRESHOLD_MILLI {
        seq![
            AlertView {
                severity: AlertSeverity::Critical,
                robot_id: r.robot_id@,
                message: battery_critical_msg(r.battery_level_milli as int),
            },
        ]
    } else if r.battery_level_milli < BATTERY_LOW_THRESHOLD_MILLI {
        seq![
            AlertView {
                severity: AlertSeverity::Warning,
                robot_id: r.robot_id@,
                message: battery_low_msg(r.battery_level_milli as int),
            },
        ]
    } else {
        Seq::<AlertView>::empty()
    }
}

/// What the CPU temperature check contributes for one reading.
pub open spec fn cpu_alerts(r: TelemetryReading) -> Seq<AlertView> {
    if r.cpu_temp_celsius_milli > CPU_TEMP_CRITICAL_THRESHOLD_MILLI {
        seq![
            AlertView {
                severity: AlertSeverity::Critical,
                robot_id: r.robot_id@,
                message: cpu_critical_msg(r.cpu_temp_celsius_milli as int),
            },
        ]
    } else if r.cpu_temp_celsius_milli > CPU_TEMP_WARN_THRESHOLD_MILLI {
        seq![
            AlertView {
                severity: AlertSeverity::Warning,
                robot_id: r.robot_id@,
                message: cpu_warn_msg(r.cpu_temp_celsius_milli as int),
            },
        ]
    } else {
        Seq::<AlertView>::empty()
    }
}

/// What the signal check contributes: a Warning on strictly weaker signal
/// than the threshold; there is no critical tier for signal.
pub open spec fn signal_alerts(r: TelemetryReading) -> Seq<AlertView> {
    if r.signal_strength_dbm < SIGNAL_WEAK_THRESHOLD_DBM {
        seq![
            AlertView {
                severity: AlertSeverity::Warning,
                robot_id: r.robot_id@,
                message: signal_weak_msg(r.signal_strength_dbm as int),
            },
        ]
    } else {
        Seq::<AlertView>::empty()
    }
}

/// What the status check contributes: a Critical alert whenever the
/// reading is in Error status, whatever its error-code count (even zero).
pub open spec fn status_alerts(r: TelemetryReading) -> Seq<AlertView> {
    if r.status == RobotStatus::Error {
        seq![
            AlertView {
                severity: AlertSeverity::Critical,
                robot_id: r.robot_id@,
                message: error_state_msg(r.error_codes@.len()),
            },
        ]
    } else {
        Seq::<AlertView>::empty()
    }
}

/// All alerts of one reading, in fixed check order:
/// battery, CPU temperature, signal, status.
pub open spec fn reading_alerts(r: TelemetryReading) -> Seq<AlertView> {
    battery_alerts(r) + cpu_alerts(r) + signal_alerts(r) + status_alerts(r)
}

/// All alerts of a batch, grouped by reading in batch order.
pub open spec fn fleet_alerts(s: Seq<TelemetryReading>) -> Seq<AlertView>
    decreases s.len(),
{
    if s.len() == 0 {
        Seq::<AlertView>::empty()
    } else {
        fleet_alerts(s.drop_last()) + reading_alerts(s.last())
    }
}

/// How many readings of the batch carry the given status.
pub open spec fn count_status(s: Seq<TelemetryReading>, st: RobotStatus) -> nat
    decreases s.len(),
{
    if s.len() == 0 {
        0
    } else {
        count_status(s.drop_last(), st) + (if s.last().status == st {
            1nat
        } else {
            0nat
        })
    }
}

/// Sum of the battery levels of the batch, in thousandths of a percent.
pub open spec fn battery_sum(s: Seq<TelemetryReading>) -> int
    decreases s.len(),
{
    if s.len() == 0 {
        0
    } else {
        battery_sum(s.drop_last()) + s.last().battery_level_milli
    }
}

/// Sum of the CPU temperatures of the batch, in thousandths of a degree.
pub open spec fn cpu_temp_sum(s: Seq<TelemetryReading>) -> int
    decreases s.len(),
{
    if s.len() == 0 {
        0
    } else {
        cpu_temp_sum(s.drop_last()) + s.last().cpu_temp_celsius_milli
    }
}

/// Sum of the signal strengths of the batch, in thousandths of a dBm.
pub open spec fn signal_sum(s: Seq<TelemetryReading>) -> int
    decreases s.len(),
{
    if s.len() == 0 {
        0
    } else {
        signal_sum(s.drop_last()) + s.last().signal_strength_dbm * 1000
    }
}

/// The arithmetic mean in thousandths, rounded to the nearest thousandth
/// (halves away from zero); exactly zero for an empty batch.
pub open spec fn mean_milli(sum: int, n: nat) -> int {
    if n == 0 {
        0
    } else {
        round_half_away(sum, n as int)
    }
}

/// Aggregate result of one analysis call: the batch size, five status
/// counters that partition it, three fleet-wide means in thousandths, and
/// the ordered alert sequence.
#[derive(Debug)]
pub struct FleetHealthAnalysis {
    pub total_robots: usize,
    pub active_count: usize,
    pub idle_count: usize,
    pub charging_count: usize,
    pub maintenance_count: usize,
    pub error_count: usize,
    pub avg_battery_milli: i64,
    pub avg_cpu_temp_milli: i64,
    pub avg_signal_milli: i64,
    pub alerts: Vec<HealthAlert>,
}

impl FleetHealthAnalysis {
    /// This analysis is exactly the one the batch `s` determines.
    pub open spec fn is_analysis_of(self, s: Seq<TelemetryReading>) -> bool {
        &&& self.total_robots == s.len()
        &&& self.active_count == count_status(s, RobotStatus::Active)
        &&& self.idle_count == count_status(s, RobotStatus::Idle)
        &&& self.charging_count == count_status(s, RobotStatus::Charging)
        &&& self.maintenance_count == count_status(s, RobotStatus::Maintenance)
        &&& self.error_count == count_status(s, RobotStatus::Error)
        &&& self.avg_battery_milli == mean_milli(battery_sum(s), s.len())
        &&& self.avg_cpu_temp_milli == mean_milli(cpu_temp_sum(s), s.len())
        &&& self.avg_signal_milli == mean_milli(signal_sum(s), s.len())
        &&& alert_views(self.alerts@) == fleet_alerts(s)
    }

    /// Structural invariant: the five status counters partition the
    /// fleet, and the averages stay within rendering range.
    pub open spec fn wf(self) -> bool {
        &&& self.active_count + self.idle_count + self.charging_count + self.maintenance_count
            + self.error_count == self.total_robots
        &&& -MILLI_ABS_MAX <= self.avg_battery_milli <= MILLI_ABS_MAX
        &&& -MILLI_ABS_MAX <= self.avg_cpu_temp_milli <= MILLI_ABS_MAX
        &&& -MILLI_ABS_MAX <= self.avg_signal_milli <= MILLI_ABS_MAX
    }
}

/// The five status counters partition any batch: summed, they give its
/// length.
pub proof fn lemma_status_counts_partition(s: Seq<TelemetryReading>)
    ensures
        count_status(s, RobotStatus::Active) + count_status(s, RobotStatus::Idle) + count_status(
            s,
            RobotStatus::Charging,
        ) + count_status(s, RobotStatus::Maintenance) + count_status(s, RobotStatus::Error)
            == s.len(),
    decreases s.len(),
{
    if s.len() > 0 {
        lemma_status_counts_partition(s.drop_last());
    }
}

/// An empty batch analyzes to all-zero counters, means of exactly zero,
/// and no alerts.
pub proof fn lemma_empty_batch(s: Seq<TelemetryReading>, a: FleetHealthAnalysis)
    requires
        s.len() == 0,
        a.is_analysis_of(s),
    ensures
        a.total_robots == 0,
        a.active_count == 0,
        a.idle_count == 0,
        a.charging_count == 0,
        a.maintenance_count == 0,
        a.error_count == 0,
        a.avg_battery_milli == 0,
        a.avg_cpu_temp_milli == 0,
        a.avg_signal_milli == 0,
        a.alerts@.len() == 0,
{
    assert(alert_views(a.alerts@).len() == a.alerts@.len());
}

/// The battery tiers are mutually exclusive: each reading yields at most
/// one battery alert, Critical strictly below the critical threshold,
/// Warning from there up to (excluding) the low threshold, none at or
/// above it.
pub proof fn lemma_battery_tiers_exclusive(r: TelemetryReading)
    ensures
        battery_alerts(r).len() <= 1,
        r.battery_level_milli < BATTERY_CRITICAL_THRESHOLD_MILLI ==> battery_alerts(r) == seq![
            (AlertView {
                severity: AlertSeverity::Critical,
                robot_id: r.robot_id@,
                message: battery_critical_msg(r.battery_level_milli as int),
            }),
        ],
        BATTERY_CRITICAL_THRESHOLD_MILLI <= r.battery_level_milli < BATTERY_LOW_THRESHOLD_MILLI
            ==> battery_alerts(r) == seq![
            (AlertView {
                severity: AlertSeverity::Warning,
                robot_id: r.robot_id@,
                message: battery_low_msg(r.battery_level_milli as int),
            }),
        ],
        r.battery_level_milli >= BATTERY_LOW_THRESHOLD_MILLI ==> battery_alerts(r).len() == 0,
{
}

/// The CPU temperature tiers are mutually exclusive in the same pattern:
/// at most one CPU alert per reading, Critical strictly above the
/// critical threshold, Warning strictly above the warning threshold up
/// to (including) the critical one, none at or below the warning
/// threshold.
pub proof fn lemma_cpu_tiers_exclusive(r: TelemetryReading)
    ensures
        cpu_alerts(r).len() <= 1,
        r.cpu_temp_celsius_milli > CPU_TEMP_CRITICAL_THRESHOLD_MILLI ==> cpu_alerts(r) == seq![
            (AlertView {
                severity: AlertSeverity::Critical,
                robot_id: r.robot_id@,
                message: cpu_critical_msg(r.cpu_temp_celsius_milli as int),
            }),
        ],
        CPU_TEMP_WARN_THRESHOLD_MILLI < r.cpu_temp_celsius_milli <= CPU_TEMP_CRITICAL_THRESHOLD_MILLI
            ==> cpu_alerts(r) == seq![
            (AlertView {
                severity: AlertSeverity::Warning,
                robot_id: r.robot_id@,
                message: cpu_warn_msg(r.cpu_temp_celsius_milli as int),
            }),
        ],
        r.cpu_temp_celsius_milli <= CPU_TEMP_WARN_THRESHOLD_MILLI ==> cpu_alerts(r).len() == 0,
{
}

/// A reading in Error status always contributes an alert, and its last
/// alert is Critical with a message embedding the exact count of its
/// error codes (possibly zero).
pub proof fn lemma_error_status_alert(r: TelemetryReading)
    requires
        r.status == RobotStatus::Error,
    ensures
        reading_alerts(r).len() >= 1,
        reading_alerts(r).last() == (AlertView {
            severity: AlertSeverity::Critical,
            robot_id: r.robot_id@,
            message: error_state_msg(r.error_codes@.len()),
        }),
{
    let sa = status_alerts(r);
    assert(sa.len() == 1);
    let ra = reading_alerts(r);
    assert(ra.last() == sa[0]);
}

/// Per reading, the four checks contribute in the fixed order battery,
/// CPU temperature, signal, status, for nought to four alerts in all.
pub proof fn lemma_reading_alert_order(r: TelemetryReading)
    ensures
        reading_alerts(r) == battery_alerts(r) + cpu_alerts(r) + signal_alerts(r) + status_alerts(
            r,
        ),
        reading_alerts(r).len() <= 4,
{
}

/// Across a batch, alerts group by reading in original batch order: the
/// alerts of any prefix come, unchanged and in order, before the alerts
/// of the corresponding suffix.
pub proof fn lemma_alerts_group_by_reading(s: Seq<TelemetryReading>, i: int)
    requires
        0 <= i <= s.len(),
    ensures
        fleet_alerts(s) == fleet_alerts(s.take(i)) + fleet_alerts(s.skip(i)),
    decreases s.len(),
{
    if i == s.len() {
        assert(s.take(i) =~= s);
        assert(s.skip(i) =~= Seq::<TelemetryReading>::empty());
        assert(fleet_alerts(s.take(i)) + fleet_alerts(s.skip(i)) =~= fleet_alerts(s));
    } else {
        let dl = s.drop_last();
        lemma_alerts_group_by_reading(dl, i);
        assert(dl.take(i) =~= s.take(i));
        assert(s.skip(i).drop_last() =~= dl.skip(i));
        assert(s.skip(i).last() == s.last());
        assert(fleet_alerts(s.skip(i)) == fleet_alerts(dl.skip(i)) + reading_alerts(s.last()));
        assert(fleet_alerts(s.take(i)) + fleet_alerts(s.skip(i)) =~= fleet_alerts(s));
    }
}

/// Analysis is deterministic: two analyses of the same batch agree on the
/// batch size, every counter, every average, and the full alert sequence
/// (severities, robot ids and message texts alike).
pub proof fn lemma_analysis_deterministic(
    s: Seq<TelemetryReading>,
    a1: FleetHealthAnalysis,
    a2: FleetHealthAnalysis,
)
    requires
        a1.is_analysis_of(s),
        a2.is_analysis_of(s),
    ensures
        a1.total_robots == a2.total_robots,
        a1.active_count == a2.active_count,
        a1.idle_count == a2.idle_count,
        a1.charging_count == a2.charging_count,
        a1.maintenance_count == a2.maintenance_count,
        a1.error_count == a2.error_count,
        a1.avg_battery_milli == a2.avg_battery_milli,
        a1.avg_cpu_temp_milli == a2.avg_cpu_temp_milli,
        a1.avg_signal_milli == a2.avg_signal_milli,
        alert_views(a1.alerts@) == alert_views(a2.alerts@),
{
}

fn mean_of(sum: i128, n: usize) -> (r: i64)
    requires
        -(n as int) * (MILLI_ABS_MAX as int) <= sum as int,
        sum as int <= (n as int) * (MILLI_ABS_MAX as int),
    ensures
        r as int == mean_milli(sum as int, n as nat),
        -MILLI_ABS_MAX <= r <= MILLI_ABS_MAX,
{
    if n == 0 {
        return 0;
    }
    let neg = sum < 0;
    let mag: u128 = if neg {
        (-sum) as u128
    } else {
        sum as u128
    };
    let half: u128 = (n as u128) / 2;
    let q: u128 = (mag + half) / (n as u128);
    proof {
        lemma_multiply_divide_lt(
            mag as int + half as int,
            n as int,
            MILLI_ABS_MAX as int + 1,
        );
        assert(q as int == round_div(mag as nat, n as nat));
    }
    let qi: i64 = q as i64;
    if neg {
        -qi
    } else {
        qi
    }
}

/// Analyze a batch of telemetry readings.
///
/// Total over its domain: any finite batch, including the empty one, and
/// any numeric values within machine range are accepted; there is no
/// error path. The result is pinned completely: the batch size, the five
/// status counters, the three means, and the alert sequence with its
/// exact ordering and message texts.
#[verifier::rlimit(100)]
pub fn analyze_fleet_health(readings: &Vec<TelemetryReading>) -> (analysis: FleetHealthAnalysis)
    requires
        forall|j: int| 0 <= j < readings@.len() ==> readings@[j].wf(),
    ensures
        analysis.is_analysis_of(readings@),
        analysis.wf(),
{
    let n = readings.len();
    let mut active_count: usize = 0;
    let mut idle_count: usize = 0;
    let mut charging_count: usize = 0;
    let mut maintenance_count: usize = 0;
    let mut error_count: usize = 0;
    let mut battery_acc: i128 = 0;
    let mut cpu_acc: i128 = 0;
    let mut signal_acc: i128 = 0;
    let mut alerts: Vec<HealthAlert> = Vec::new();
    let mut i: usize = 0;
    while i < n
        invariant
            n == readings@.len(),
            i <= n,
            forall|j: int| 0 <= j < readings@.len() ==> readings@[j].wf(),
            active_count == count_status(readings@.take(i as int), RobotStatus::Active),
            idle_count == count_status(readings@.take(i as int), RobotStatus::Idle),
            charging_count == count_status(readings@.take(i as int), RobotStatus::Charging),
            maintenance_count == count_status(readings@.take(i as int), RobotStatus::Maintenance),
            error_count == count_status(readings@.take(i as int), RobotStatus::Error),
            active_count + idle_count + charging_count + maintenance_count + error_count == i,
            battery_acc as int == battery_sum(readings@.take(i as int)),
            cpu_acc as int == cpu_temp_sum(readings@.take(i as int)),
            signal_acc as int == signal_sum(readings@.take(i as int)),
            -(i as int) * (MILLI_ABS_MAX as int) <= battery_acc as int <= (i as int) * (
            MILLI_ABS_MAX as int),
            -(i as int) * (MILLI_ABS_MAX as int) <= cpu_acc as int <= (i as int) * (
            MILLI_ABS_MAX as int),
            -(i as int) * (MILLI_ABS_MAX as int) <= signal_acc as int <= (i as int) * (
            MILLI_ABS_MAX as int),
            alert_views(alerts@) == fleet_alerts(readings@.take(i as int)),
        decreases n - i,
    {
        proof {
            assert((i as int + 1) * (MILLI_ABS_MAX as int) == (i as int) * (MILLI_ABS_MAX as int)
                + (MILLI_ABS_MAX as int)) by (nonlinear_arith);
        }
        let r = &readings[i];
        match r.status {
            RobotStatus::Active => {
                active_count = active_count + 1;
            },
            RobotStatus::Idle => {
                idle_count = idle_count + 1;
            },
            RobotStatus::Charging => {
                charging_count = charging_count + 1;
            },
            RobotStatus::Maintenance => {
                maintenance_count = maintenance_count + 1;
            },
            RobotStatus::Error => {
                error_count = error_count + 1;
            },
        }
        battery_acc = battery_acc + (r.battery_level_milli as i128);
        cpu_acc = cpu_acc + (r.cpu_temp_celsius_milli as i128);
        signal_acc = signal_acc + (r.signal_strength_dbm as i128) * 1000;

        let ghost base0 = alert_views(alerts@);
        if r.battery_level_milli < BATTERY_CRITICAL_THRESHOLD_MILLI {
            let mut msg = String::from_str("Battery critically low: ");
            let val = fixed1_milli(r.battery_level_milli);
            msg.append(val.as_str());
            msg.append("%");
            alerts.push(
                HealthAlert {
                    severity: AlertSeverity::Critical,
                    robot_id: r.robot_id.clone(),
                    message: msg,
                },
            );
        } else if r.battery_level_milli < BATTERY_LOW_THRESHOLD_MILLI {
            let mut msg = String::from_str("Battery low: ");
            let val = fixed1_milli(r.battery_level_milli);
            msg.append(val.as_str());
            msg.append("%");
            alerts.push(
                HealthAlert {
                    severity: AlertSeverity::Warning,
                    robot_id: r.robot_id.clone(),
                    message: msg,
                },
            );
        }
        proof {
            assert(alert_views(alerts@) =~= base0 + battery_alerts(readings@[i as int]));
        }

        let ghost base1 = alert_views(alerts@);
        if r.cpu_temp_celsius_milli > CPU_TEMP_CRITICAL_THRESHOLD_MILLI {
            let mut msg = String::from_str("CPU overheating: ");
            let val = fixed1_milli(r.cpu_temp_celsius_milli);
            msg.append(val.as_str());
            msg.append("°C");
            alerts.push(
                HealthAlert {
                    severity: AlertSeverity::Critical,
                    robot_id: r.robot_id.clone(),
                    message: msg,
                },
            );
        } else if r.cpu_temp_celsius_milli > CPU_TEMP_WARN_THRESHOLD_MILLI {
            let mut msg = String::from_str("CPU temp elevated: ");
            let val = fixed1_milli(r.cpu_temp_celsius_milli);
            msg.append(val.as_str());
            msg.append("°C");
            alerts.push(
                HealthAlert {
                    severity: AlertSeverity::Warning,
                    robot_id: r.robot_id.clone(),
                    message: msg,
                },
            );
        }
        proof {
            assert(alert_views(alerts@) =~= base1 + cpu_alerts(readings@[i as int]));
        }

        let ghost base2 = alert_views(alerts@);
        if r.signal_strength_dbm < SIGNAL_WEAK_THRESHOLD_DBM {
            let mut msg = String::from_str("Weak signal: ");
            let val = i64_dec(r.signal_strength_dbm as i64);
            msg.append(val.as_str());
            msg.append(" dBm");
            alerts.push(
                HealthAlert {
                    severity: AlertSeverity::Warning,
                    robot_id: r.robot_id.clone(),
                    message: msg,
                },
            );
        }
        proof {
            assert(alert_views(alerts@) =~= base2 + signal_alerts(readings@[i as int]));
        }

        let ghost base3 = alert_views(alerts@);
        if matches!(r.status, RobotStatus::Error) {
            let mut msg = String::from_str("Robot in error state with ");
            let val = usize_dec(r.error_codes.len());
            msg.append(val.as_str());
            msg.append(" error code(s)");
            alerts.push(
                HealthAlert {
                    severity: AlertSeverity::Critical,
                    robot_id: r.robot_id.clone(),
                    message: msg,
                },
            );
        }
        proof {
            assert(alert_views(alerts@) =~= base3 + status_alerts(readings@[i as int]));
        }

        proof {
            let s = readings@;
            let ii = i as int;
            assert(s.take(ii + 1).drop_last() =~= s.take(ii));
            assert(s.take(ii + 1).last() == s[ii]);
            assert(s[ii] == *r);
            let d = s[ii].signal_strength_dbm as int;
            assert(-2147483648 <= d <= 2147483647);
            assert(-10_000_000_000_000 <= d * 1000 <= 10_000_000_000_000) by (nonlinear_arith)
                requires
                    -2147483648 <= d <= 2147483647,
            ;
            assert(-(MILLI_ABS_MAX as int) <= d * 1000 <= (MILLI_ABS_MAX as int));
            assert(alert_views(alerts@) =~= fleet_alerts(s.take(ii + 1)));
        }
        i = i + 1;
    }
    proof {
        assert(readings@.take(n as int) =~= readings@);
    }
    let avg_battery_milli = mean_of(battery_acc, n);
    let avg_cpu_temp_milli = mean_of(cpu_acc, n);
    let avg_signal_milli = mean_of(signal_acc, n);
    FleetHealthAnalysis {
        total_robots: n,
        active_count,
        idle_count,
        charging_count,
        maintenance_count,
        error_count,
        avg_battery_milli,
        avg_cpu_temp_milli,
        avg_signal_milli,
        alerts,
    }
}

} // verus!
