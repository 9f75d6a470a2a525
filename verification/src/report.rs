//! Report assembly: the ordered display lines of the fleet status report.
//!
//! The assembler only consumes the analyzer's output and the original
//! batch; it recomputes no count and no mean. The full report text is
//! specified line by line and character by character.

use vstd::prelude::*;
use vstd::string::StringExecFns;
use crate::fleet::{alert_views, AlertView, FleetHealthAnalysis};
use crate::numfmt::{code_tokens, dec_digits, fixed1, int_dec, join_sep, round_half_away};
use crate::numfmt::{error_codes_list, fixed1_milli, usize_dec, whole_milli};
use crate::telemetry::{RobotStatus, TelemetryReading};

verus! {

/// The status glyph of the per-robot detail line.
pub open spec fn status_indicator(st: RobotStatus) -> Seq<char> {
    match st {
        RobotStatus::Active => "[+]"@,
        RobotStatus::Idle => "[~]"@,
        RobotStatus::Charging => "[*]"@,
        RobotStatus::Maintenance => "[!]"@,
        RobotStatus::Error => "[X]"@,
    }
}

fn status_indicator_str(st: &RobotStatus) -> (r: &'static str)
    ensures
        r@ == status_indicator(*st),
{
    match st {
        RobotStatus::Active => "[+]",
        RobotStatus::Idle => "[~]",
        RobotStatus::Charging => "[*]",
        RobotStatus::Maintenance => "[!]",
        RobotStatus::Error => "[X]",
    }
}

/// The views of a sequence of line strings.
pub open spec fn line_views(ls: Seq<String>) -> Seq<Seq<char>> {
    ls.map_values(|s: String| s@)
}

proof fn lemma_line_views_push(ls: Seq<String>, x: String)
    ensures
        line_views(ls.push(x)) == line_views(ls).push(x@),
{
    assert(line_views(ls.push(x)) =~= line_views(ls).push(x@));
}

/// The fixed three-line title box followed by a blank separator.
pub open spec fn header_lines() -> Seq<Seq<char>> {
    seq![
        "╔════════════════════════════════════════════╗"@,
        "║   GLOBOMANTICS FLEET STATUS REPORT         ║"@,
        "╚════════════════════════════════════════════╝"@,
        Seq::<char>::empty(),
    ]
}

/// Fleet size and operational-versus-down counts, then a blank line.
/// Operational is active+idle+charging; down is maintenance+error.
pub open spec fn summary_lines(a: FleetHealthAnalysis) -> Seq<Seq<char>> {
    seq![
        "Fleet Size: "@ + dec_digits(a.total_robots as nat) + " robots"@,
        "Operational: "@ + dec_digits((a.active_count + a.idle_count + a.charging_count) as nat)
            + " | Down: "@ + dec_digits((a.maintenance_count + a.error_count) as nat),
        Seq::<char>::empty(),
    ]
}

/// One robot's detail line: glyph, name, id, status label, battery and
/// temperature rounded to whole units.
pub open spec fn robot_line(r: TelemetryReading) -> Seq<char> {
    "  "@ + status_indicator(r.status) + " "@ + r.robot_name@ + " ("@ + r.robot_id@ + ") — "@
        + r.status.spec_label() + " | Bat: "@ + int_dec(
        round_half_away(r.battery_level_milli as int, 1000),
    ) + "% | Temp: "@ + int_dec(round_half_away(r.cpu_temp_celsius_milli as int, 1000)) + "°C"@
}

/// The indented error-codes line of one robot.
pub open spec fn errors_line(r: TelemetryReading) -> Seq<char> {
    "      Errors: "@ + join_sep(code_tokens(r.error_codes@), ", "@)
}

/// The lines one robot contributes: its detail line, plus the
/// error-codes line only when it has error codes.
pub open spec fn robot_block(r: TelemetryReading) -> Seq<Seq<char>> {
    if r.error_codes@.len() == 0 {
        seq![robot_line(r)]
    } else {
        seq![robot_line(r), errors_line(r)]
    }
}

/// The per-robot detail lines of the whole batch, in input order.
pub open spec fn robot_blocks(s: Seq<TelemetryReading>) -> Seq<Seq<char>>
    decreases s.len(),
{
    if s.len() == 0 {
        Seq::<Seq<char>>::empty()
    } else {
        robot_blocks(s.drop_last()) + robot_block(s.last())
    }
}

/// One alert line: severity tag, robot id, message.
pub open spec fn alert_line(a: AlertView) -> Seq<char> {
    "  ["@ + a.severity.spec_label() + "] "@ + a.robot_id + " — "@ + a.message
}

/// The views of each alert's display line, in analyzer order.
pub open spec fn alert_line_views(alerts: Seq<AlertView>) -> Seq<Seq<char>> {
    alerts.map_values(|a: AlertView| alert_line(a))
}

/// The alerts section: omitted entirely when there are no alerts, else a
/// counted heading, one line per alert in analyzer order, and a blank
/// line.
pub open spec fn alert_section(alerts: Seq<AlertView>) -> Seq<Seq<char>> {
    if alerts.len() == 0 {
        Seq::<Seq<char>>::empty()
    } else {
        seq!["─── Alerts ("@ + dec_digits(alerts.len()) + ") ───"@] + alert_line_views(alerts)
            + seq![Seq::<char>::empty()]
    }
}

/// The trailing averages section, each mean to one decimal place.
pub open spec fn averages_lines(a: FleetHealthAnalysis) -> Seq<Seq<char>> {
    seq![
        "─── Fleet Averages ───"@,
        "  Battery:  "@ + fixed1(a.avg_battery_milli as int) + "%"@,
        "  CPU Temp: "@ + fixed1(a.avg_cpu_temp_milli as int) + "°C"@,
        "  Signal:   "@ + fixed1(a.avg_signal_milli as int) + " dBm"@,
    ]
}

/// Every line of the report, in fixed order: title block, summary,
/// per-robot details, the (possibly omitted) alerts section, averages.
pub open spec fn report_lines(s: Seq<TelemetryReading>, a: FleetHealthAnalysis) -> Seq<Seq<char>> {
    header_lines() + summary_lines(a) + seq!["─── Robot Details ───"@] + robot_blocks(s) + seq![
        Seq::<char>::empty(),
    ] + alert_section(alert_views(a.alerts@)) + averages_lines(a)
}

/// Assemble the fleet status report from the original batch and an
/// analysis. Performs no computation beyond formatting and ordering; the
/// result is the report's lines joined with newlines, pinned exactly.
#[verifier::rlimit(100)]
pub fn generate_text_report(
    readings: &Vec<TelemetryReading>,
    analysis: &FleetHealthAnalysis,
) -> (r: String)
    requires
        forall|j: int| 0 <= j < readings@.len() ==> readings@[j].wf(),
        analysis.wf(),
    ensures
        r@ == join_sep(report_lines(readings@, *analysis), "\n"@),
{
    let mut lines: Vec<String> = Vec::new();
    lines.push(String::from_str("╔════════════════════════════════════════════╗"));
    lines.push(String::from_str("║   GLOBOMANTICS FLEET STATUS REPORT         ║"));
    lines.push(String::from_str("╚════════════════════════════════════════════╝"));
    lines.push(String::new());

    let mut size_line = String::from_str("Fleet Size: ");
    let total_digits = usize_dec(analysis.total_robots);
    size_line.append(total_digits.as_str());
    size_line.append(" robots");
    lines.push(size_line);

    let operational = analysis.active_count + analysis.idle_count + analysis.charging_count;
    let down = analysis.maintenance_count + analysis.error_count;
    let mut op_line = String::from_str("Operational: ");
    let op_digits = usize_dec(operational);
    op_line.append(op_digits.as_str());
    op_line.append(" | Down: ");
    let down_digits = usize_dec(down);
    op_line.append(down_digits.as_str());
    lines.push(op_line);
    lines.push(String::new());

    lines.push(String::from_str("─── Robot Details ───"));
    let ghost details_pre = line_views(lines@);
    proof {
        assert(details_pre =~~= header_lines() + summary_lines(*analysis) + seq![
            "─── Robot Details ───"@,
        ]);
    }
    let mut i: usize = 0;
    while i < readings.len()
        invariant
            forall|j: int| 0 <= j < readings@.len() ==> readings@[j].wf(),
            i <= readings@.len(),
            line_views(lines@) == details_pre + robot_blocks(readings@.take(i as int)),
        decreases readings@.len() - i,
    {
        let r = &readings[i];
        let mut l = String::from_str("  ");
        l.append(status_indicator_str(&r.status));
        l.append(" ");
        l.append(r.robot_name.as_str());
        l.append(" (");
        l.append(r.robot_id.as_str());
        l.append(") — ");
        let label = r.status.label();
        l.append(label.as_str());
        l.append(" | Bat: ");
        let bat = whole_milli(r.battery_level_milli);
        l.append(bat.as_str());
        l.append("% | Temp: ");
        let temp = whole_milli(r.cpu_temp_celsius_milli);
        l.append(temp.as_str());
        l.append("°C");
        let ghost lines0 = lines@;
        let ghost lv = l@;
        lines.push(l);
        proof {
            lemma_line_views_push(lines0, lines@.last());
        }
        if r.error_codes.len() > 0 {
            let mut e = String::from_str("      Errors: ");
            let list = error_codes_list(&r.error_codes);
            e.append(list.as_str());
            let ghost ev = e@;
            let ghost lines1 = lines@;
            lines.push(e);
            proof {
                lemma_line_views_push(lines1, lines@.last());
                assert(ev == errors_line(readings@[i as int]));
            }
        }
        proof {
            let s = readings@;
            let ii = i as int;
            assert(lv == robot_line(s[i as int]));
            assert(s.take(ii + 1).drop_last() =~= s.take(ii));
            assert(s.take(ii + 1).last() == s[ii]);
            assert(s[ii] == *r);
            assert(robot_blocks(s.take(ii + 1)) == robot_blocks(s.take(ii)) + robot_block(s[ii]));
            assert(line_views(lines@) =~~= details_pre + robot_blocks(s.take(ii + 1)));
        }
        i = i + 1;
    }
    proof {
        assert(readings@.take(readings@.len() as int) =~= readings@);
    }
    lines.push(String::new());

    let ghost alerts_pre = line_views(lines@);
    proof {
        assert(alerts_pre =~~= details_pre + robot_blocks(readings@) + seq![Seq::<char>::empty()]);
    }
    if analysis.alerts.len() > 0 {
        let mut h = String::from_str("─── Alerts (");
        let count_digits = usize_dec(analysis.alerts.len());
        h.append(count_digits.as_str());
        h.append(") ───");
        lines.push(h);
        let ghost alert_lines_pre = line_views(lines@);
        proof {
            assert(alert_lines_pre =~~= alerts_pre + seq![
                "─── Alerts ("@ + dec_digits(analysis.alerts@.len()) + ") ───"@,
            ]);
        }
        let mut k: usize = 0;
        while k < analysis.alerts.len()
            invariant
                k <= analysis.alerts@.len(),
                alert_lines_pre == alerts_pre + seq![
                    "─── Alerts ("@ + dec_digits(analysis.alerts@.len()) + ") ───"@,
                ],
                line_views(lines@) == alert_lines_pre + alert_line_views(
                    alert_views(analysis.alerts@),
                ).take(k as int),
            decreases analysis.alerts@.len() - k,
        {
            let a = &analysis.alerts[k];
            let mut l = String::from_str("  [");
            let tag = a.severity.label();
            l.append(tag.as_str());
            l.append("] ");
            l.append(a.robot_id.as_str());
            l.append(" — ");
            l.append(a.message.as_str());
            let ghost lines0 = lines@;
            let ghost lv = l@;
            lines.push(l);
            proof {
                lemma_line_views_push(lines0, lines@.last());
                let m = alert_line_views(alert_views(analysis.alerts@));
                assert(*a == analysis.alerts@[k as int]);
                assert(lv == alert_line(analysis.alerts@[k as int]@));
                assert(m.take(k + 1 as int).drop_last() =~= m.take(k as int));
                assert(m.take(k + 1 as int).last() == m[k as int]);
                assert(m[k as int] == alert_line(analysis.alerts@[k as int]@));
                assert(line_views(lines@) =~~= alert_lines_pre + m.take(k + 1 as int));
            }
            k = k + 1;
        }
        let ghost lines_end = lines@;
        lines.push(String::new());
        proof {
            lemma_line_views_push(lines_end, lines@.last());
            let av = alert_views(analysis.alerts@);
            let m = alert_line_views(av);
            assert(m.take(av.len() as int) =~= m);
            assert(line_views(lines@) =~~= alerts_pre + alert_section(av));
        }
    }
    proof {
        assert(line_views(lines@) =~~= alerts_pre + alert_section(alert_views(analysis.alerts@)));
    }

    lines.push(String::from_str("─── Fleet Averages ───"));
    let mut bat_line = String::from_str("  Battery:  ");
    let bat_avg = fixed1_milli(analysis.avg_battery_milli);
    bat_line.append(bat_avg.as_str());
    bat_line.append("%");
    lines.push(bat_line);
    let mut temp_line = String::from_str("  CPU Temp: ");
    let temp_avg = fixed1_milli(analysis.avg_cpu_temp_milli);
    temp_line.append(temp_avg.as_str());
    temp_line.append("°C");
    lines.push(temp_line);
    let mut sig_line = String::from_str("  Signal:   ");
    let sig_avg = fixed1_milli(analysis.avg_signal_milli);
    sig_line.append(sig_avg.as_str());
    sig_line.append(" dBm");
    lines.push(sig_line);

    proof {
        assert(line_views(lines@) =~~= report_lines(readings@, *analysis));
    }

    let ghost all = report_lines(readings@, *analysis);
    let mut out = String::new();
    let mut k: usize = 0;
    while k < lines.len()
        invariant
            k <= lines@.len(),
            line_views(lines@) == all,
            out@ == join_sep(all.take(k as int), "\n"@),
        decreases lines@.len() - k,
    {
        if k > 0 {
            out.append("\n");
        }
        out.append(lines[k].as_str());
        proof {
            assert(all.take(k + 1 as int).drop_last() =~= all.take(k as int));
            assert(all.take(k + 1 as int).last() == all[k as int]);
            assert(all[k as int] == lines@[k as int]@);
            assert(out@ =~= join_sep(all.take(k + 1 as int), "\n"@));
        }
        k = k + 1;
    }
    proof {
        assert(all.take(lines@.len() as int) =~= all);
    }
    out
}

} // verus!
