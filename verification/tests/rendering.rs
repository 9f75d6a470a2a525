use telemetry_core::fleet::{analyze_fleet_health, AlertSeverity};
use telemetry_core::numfmt::{
    code_token_u32, error_codes_list, fixed1_milli, i64_dec, u64_dec, usize_dec, whole_milli,
};
use telemetry_core::report::generate_text_report;
use telemetry_core::telemetry::{
    generate_sample_telemetry, Location, RobotStatus, TelemetryReading,
};

fn reading(
    id: &str,
    name: &str,
    battery_milli: i64,
    cpu_milli: i64,
    signal_dbm: i32,
    status: RobotStatus,
    codes: Vec<u32>,
) -> TelemetryReading {
    TelemetryReading {
        robot_id: id.to_string(),
        robot_name: name.to_string(),
        timestamp: "2025-06-15T10:30:00Z".to_string(),
        battery_level_milli: battery_milli,
        cpu_temp_celsius_milli: cpu_milli,
        signal_strength_dbm: signal_dbm,
        status,
        location: Location { zone: "A1".to_string(), x_milli: 0, y_milli: 0 },
        task: None,
        error_codes: codes,
    }
}

#[test]
fn unsigned_decimal_rendering() {
    assert_eq!(u64_dec(0), "0");
    assert_eq!(u64_dec(7), "7");
    assert_eq!(u64_dec(1_234_567), "1234567");
    assert_eq!(usize_dec(42), "42");
}

#[test]
fn signed_decimal_rendering() {
    assert_eq!(i64_dec(0), "0");
    assert_eq!(i64_dec(-45), "-45");
    assert_eq!(i64_dec(360), "360");
}

#[test]
fn one_decimal_rendering() {
    assert_eq!(fixed1_milli(0), "0.0");
    assert_eq!(fixed1_milli(19_999), "20.0");
    assert_eq!(fixed1_milli(91_200), "91.2");
    assert_eq!(fixed1_milli(-68_333), "-68.3");
    // Halves round away from zero; a negative that rounds to zero keeps
    // no sign.
    assert_eq!(fixed1_milli(-50), "-0.1");
    assert_eq!(fixed1_milli(-40), "0.0");
    assert_eq!(fixed1_milli(9_999), "10.0");
}

#[test]
fn whole_unit_rendering() {
    assert_eq!(whole_milli(87_500), "88");
    assert_eq!(whole_milli(23_100), "23");
    assert_eq!(whole_milli(-500), "-1");
    assert_eq!(whole_milli(-400), "0");
    assert_eq!(whole_milli(0), "0");
}

#[test]
fn error_code_tokens() {
    assert_eq!(code_token_u32(0), "E0000");
    assert_eq!(code_token_u32(7), "E0007");
    assert_eq!(code_token_u32(42), "E0042");
    assert_eq!(code_token_u32(999), "E0999");
    assert_eq!(code_token_u32(1012), "E1012");
    assert_eq!(code_token_u32(123_456), "E123456");
    assert_eq!(error_codes_list(&vec![1012, 2048]), "E1012, E2048");
    assert_eq!(error_codes_list(&vec![]), "");
}

#[test]
fn labels() {
    assert_eq!(RobotStatus::Active.label(), "ACTIVE");
    assert_eq!(RobotStatus::Idle.label(), "IDLE");
    assert_eq!(RobotStatus::Charging.label(), "CHARGING");
    assert_eq!(RobotStatus::Maintenance.label(), "MAINTENANCE");
    assert_eq!(RobotStatus::Error.label(), "ERROR");
    assert_eq!(AlertSeverity::Warning.label(), "WARN");
    assert_eq!(AlertSeverity::Critical.label(), "CRIT");
}

#[test]
fn report_for_sample_batch() {
    let batch = generate_sample_telemetry();
    let analysis = analyze_fleet_health(&batch);
    let report = generate_text_report(&batch, &analysis);
    let expected = [
        "╔════════════════════════════════════════════╗",
        "║   GLOBOMANTICS FLEET STATUS REPORT         ║",
        "╚════════════════════════════════════════════╝",
        "",
        "Fleet Size: 3 robots",
        "Operational: 2 | Down: 1",
        "",
        "─── Robot Details ───",
        "  [+] Atlas (RBT-001) — ACTIVE | Bat: 88% | Temp: 42°C",
        "  [*] Bolt (RBT-002) — CHARGING | Bat: 23% | Temp: 69°C",
        "  [X] Cog (RBT-003) — ERROR | Bat: 55% | Temp: 91°C",
        "      Errors: E1012, E2048",
        "",
        "─── Alerts (3) ───",
        "  [CRIT] RBT-003 — CPU overheating: 91.2°C",
        "  [WARN] RBT-003 — Weak signal: -88 dBm",
        "  [CRIT] RBT-003 — Robot in error state with 2 error code(s)",
        "",
        "─── Fleet Averages ───",
        "  Battery:  55.2%",
        "  CPU Temp: 67.5°C",
        "  Signal:   -68.3 dBm",
    ]
    .join("\n");
    assert_eq!(report, expected);
}

#[test]
fn report_without_alerts_omits_the_section() {
    let batch = vec![reading(
        "RBT-009",
        "Nomad",
        64_000,
        48_200,
        -61,
        RobotStatus::Idle,
        vec![],
    )];
    let analysis = analyze_fleet_health(&batch);
    let report = generate_text_report(&batch, &analysis);
    let expected = [
        "╔════════════════════════════════════════════╗",
        "║   GLOBOMANTICS FLEET STATUS REPORT         ║",
        "╚════════════════════════════════════════════╝",
        "",
        "Fleet Size: 1 robots",
        "Operational: 1 | Down: 0",
        "",
        "─── Robot Details ───",
        "  [~] Nomad (RBT-009) — IDLE | Bat: 64% | Temp: 48°C",
        "",
        "─── Fleet Averages ───",
        "  Battery:  64.0%",
        "  CPU Temp: 48.2°C",
        "  Signal:   -61.0 dBm",
    ]
    .join("\n");
    assert!(!report.contains("Alerts"));
    assert_eq!(report, expected);
}

#[test]
fn report_glyphs_cover_every_status() {
    let batch = vec![
        reading("1", "a", 80_000, 50_000, -40, RobotStatus::Active, vec![]),
        reading("2", "b", 80_000, 50_000, -40, RobotStatus::Idle, vec![]),
        reading("3", "c", 80_000, 50_000, -40, RobotStatus::Charging, vec![]),
        reading("4", "d", 80_000, 50_000, -40, RobotStatus::Maintenance, vec![]),
        reading("5", "e", 80_000, 50_000, -40, RobotStatus::Error, vec![]),
    ];
    let analysis = analyze_fleet_health(&batch);
    let report = generate_text_report(&batch, &analysis);
    assert!(report.contains("  [+] a (1) — ACTIVE"));
    assert!(report.contains("  [~] b (2) — IDLE"));
    assert!(report.contains("  [*] c (3) — CHARGING"));
    assert!(report.contains("  [!] d (4) — MAINTENANCE"));
    assert!(report.contains("  [X] e (5) — ERROR"));
    assert!(report.contains("Operational: 3 | Down: 2"));
}
