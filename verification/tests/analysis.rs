use telemetry_core::fleet::{analyze_fleet_health, AlertSeverity};
use telemetry_core::telemetry::{
    generate_sample_telemetry, Location, RobotStatus, TelemetryReading,
};

fn reading(
    id: &str,
    battery_milli: i64,
    cpu_milli: i64,
    signal_dbm: i32,
    status: RobotStatus,
    codes: Vec<u32>,
) -> TelemetryReading {
    TelemetryReading {
        robot_id: id.to_string(),
        robot_name: format!("robot-{id}"),
        timestamp: "2025-06-15T10:30:00Z".to_string(),
        battery_level_milli: battery_milli,
        cpu_temp_celsius_milli: cpu_milli,
        signal_strength_dbm: signal_dbm,
        status,
        location: Location { zone: "A1".to_string(), x_milli: 0, y_milli: 0 },
        task: None,
        error_codes: codes,
    }
}

fn healthy(id: &str, status: RobotStatus) -> TelemetryReading {
    reading(id, 80_000, 50_000, -40, status, vec![])
}

#[test]
fn empty_batch_all_zero() {
    let analysis = analyze_fleet_health(&vec![]);
    assert_eq!(analysis.total_robots, 0);
    assert_eq!(analysis.active_count, 0);
    assert_eq!(analysis.idle_count, 0);
    assert_eq!(analysis.charging_count, 0);
    assert_eq!(analysis.maintenance_count, 0);
    assert_eq!(analysis.error_count, 0);
    assert_eq!(analysis.avg_battery_milli, 0);
    assert_eq!(analysis.avg_cpu_temp_milli, 0);
    assert_eq!(analysis.avg_signal_milli, 0);
    assert!(analysis.alerts.is_empty());
}

#[test]
fn counts_partition_mixed_batch() {
    let batch = vec![
        healthy("a", RobotStatus::Active),
        healthy("b", RobotStatus::Idle),
        healthy("c", RobotStatus::Charging),
        healthy("d", RobotStatus::Maintenance),
        reading("e", 80_000, 50_000, -40, RobotStatus::Error, vec![]),
        healthy("f", RobotStatus::Active),
    ];
    let analysis = analyze_fleet_health(&batch);
    assert_eq!(analysis.total_robots, 6);
    assert_eq!(analysis.active_count, 2);
    assert_eq!(analysis.idle_count, 1);
    assert_eq!(analysis.charging_count, 1);
    assert_eq!(analysis.maintenance_count, 1);
    assert_eq!(analysis.error_count, 1);
    assert_eq!(
        analysis.active_count
            + analysis.idle_count
            + analysis.charging_count
            + analysis.maintenance_count
            + analysis.error_count,
        analysis.total_robots
    );
}

#[test]
fn battery_boundaries() {
    let none = analyze_fleet_health(&vec![reading(
        "r",
        20_000,
        50_000,
        -40,
        RobotStatus::Active,
        vec![],
    )]);
    assert!(none.alerts.is_empty());

    let warn = analyze_fleet_health(&vec![reading(
        "r",
        19_999,
        50_000,
        -40,
        RobotStatus::Active,
        vec![],
    )]);
    assert_eq!(warn.alerts.len(), 1);
    assert_eq!(warn.alerts[0].severity, AlertSeverity::Warning);
    assert_eq!(warn.alerts[0].message, "Battery low: 20.0%");

    let warn_at_critical_edge = analyze_fleet_health(&vec![reading(
        "r",
        10_000,
        50_000,
        -40,
        RobotStatus::Active,
        vec![],
    )]);
    assert_eq!(warn_at_critical_edge.alerts.len(), 1);
    assert_eq!(warn_at_critical_edge.alerts[0].severity, AlertSeverity::Warning);
    assert_eq!(warn_at_critical_edge.alerts[0].message, "Battery low: 10.0%");

    let critical = analyze_fleet_health(&vec![reading(
        "r",
        9_999,
        50_000,
        -40,
        RobotStatus::Active,
        vec![],
    )]);
    assert_eq!(critical.alerts.len(), 1);
    assert_eq!(critical.alerts[0].severity, AlertSeverity::Critical);
    assert_eq!(critical.alerts[0].message, "Battery critically low: 10.0%");
}

#[test]
fn cpu_boundaries() {
    let none = analyze_fleet_health(&vec![reading(
        "r",
        80_000,
        75_000,
        -40,
        RobotStatus::Active,
        vec![],
    )]);
    assert!(none.alerts.is_empty());

    let warn = analyze_fleet_health(&vec![reading(
        "r",
        80_000,
        75_001,
        -40,
        RobotStatus::Active,
        vec![],
    )]);
    assert_eq!(warn.alerts.len(), 1);
    assert_eq!(warn.alerts[0].severity, AlertSeverity::Warning);
    assert_eq!(warn.alerts[0].message, "CPU temp elevated: 75.0°C");

    let warn_at_critical_edge = analyze_fleet_health(&vec![reading(
        "r",
        80_000,
        90_000,
        -40,
        RobotStatus::Active,
        vec![],
    )]);
    assert_eq!(warn_at_critical_edge.alerts.len(), 1);
    assert_eq!(warn_at_critical_edge.alerts[0].severity, AlertSeverity::Warning);
    assert_eq!(warn_at_critical_edge.alerts[0].message, "CPU temp elevated: 90.0°C");

    let critical = analyze_fleet_health(&vec![reading(
        "r",
        80_000,
        90_001,
        -40,
        RobotStatus::Active,
        vec![],
    )]);
    assert_eq!(critical.alerts.len(), 1);
    assert_eq!(critical.alerts[0].severity, AlertSeverity::Critical);
    assert_eq!(critical.alerts[0].message, "CPU overheating: 90.0°C");
}

#[test]
fn signal_boundary() {
    let none = analyze_fleet_health(&vec![reading(
        "r",
        80_000,
        50_000,
        -80,
        RobotStatus::Active,
        vec![],
    )]);
    assert!(none.alerts.is_empty());

    let warn = analyze_fleet_health(&vec![reading(
        "r",
        80_000,
        50_000,
        -81,
        RobotStatus::Active,
        vec![],
    )]);
    assert_eq!(warn.alerts.len(), 1);
    assert_eq!(warn.alerts[0].severity, AlertSeverity::Warning);
    assert_eq!(warn.alerts[0].message, "Weak signal: -81 dBm");
}

#[test]
fn error_status_alert_embeds_code_count() {
    let zero = analyze_fleet_health(&vec![reading(
        "r",
        80_000,
        50_000,
        -40,
        RobotStatus::Error,
        vec![],
    )]);
    assert_eq!(zero.alerts.len(), 1);
    assert_eq!(zero.alerts[0].severity, AlertSeverity::Critical);
    assert_eq!(zero.alerts[0].message, "Robot in error state with 0 error code(s)");

    let two = analyze_fleet_health(&vec![reading(
        "r",
        80_000,
        50_000,
        -40,
        RobotStatus::Error,
        vec![7, 9],
    )]);
    assert_eq!(two.alerts.len(), 1);
    assert_eq!(two.alerts[0].message, "Robot in error state with 2 error code(s)");
}

#[test]
fn alert_order_within_one_reading() {
    let analysis = analyze_fleet_health(&vec![reading(
        "r",
        5_000,
        95_000,
        -90,
        RobotStatus::Error,
        vec![42],
    )]);
    assert_eq!(analysis.alerts.len(), 4);
    assert_eq!(analysis.alerts[0].severity, AlertSeverity::Critical);
    assert_eq!(analysis.alerts[0].message, "Battery critically low: 5.0%");
    assert_eq!(analysis.alerts[1].severity, AlertSeverity::Critical);
    assert_eq!(analysis.alerts[1].message, "CPU overheating: 95.0°C");
    assert_eq!(analysis.alerts[2].severity, AlertSeverity::Warning);
    assert_eq!(analysis.alerts[2].message, "Weak signal: -90 dBm");
    assert_eq!(analysis.alerts[3].severity, AlertSeverity::Critical);
    assert_eq!(analysis.alerts[3].message, "Robot in error state with 1 error code(s)");
}

#[test]
fn alerts_grouped_by_reading_in_batch_order() {
    let batch = vec![
        reading("first", 15_000, 50_000, -40, RobotStatus::Active, vec![]),
        reading("second", 80_000, 50_000, -85, RobotStatus::Active, vec![]),
    ];
    let analysis = analyze_fleet_health(&batch);
    assert_eq!(analysis.alerts.len(), 2);
    assert_eq!(analysis.alerts[0].robot_id, "first");
    assert_eq!(analysis.alerts[1].robot_id, "second");
}

#[test]
fn analyze_twice_is_structurally_identical() {
    let batch = generate_sample_telemetry();
    let first = analyze_fleet_health(&batch);
    let second = analyze_fleet_health(&batch);
    assert_eq!(first.total_robots, second.total_robots);
    assert_eq!(first.active_count, second.active_count);
    assert_eq!(first.idle_count, second.idle_count);
    assert_eq!(first.charging_count, second.charging_count);
    assert_eq!(first.maintenance_count, second.maintenance_count);
    assert_eq!(first.error_count, second.error_count);
    assert_eq!(first.avg_battery_milli, second.avg_battery_milli);
    assert_eq!(first.avg_cpu_temp_milli, second.avg_cpu_temp_milli);
    assert_eq!(first.avg_signal_milli, second.avg_signal_milli);
    assert_eq!(first.alerts.len(), second.alerts.len());
    for (a, b) in first.alerts.iter().zip(second.alerts.iter()) {
        assert_eq!(a.severity, b.severity);
        assert_eq!(a.robot_id, b.robot_id);
        assert_eq!(a.message, b.message);
    }
}

#[test]
fn end_to_end_sample_batch() {
    let batch = generate_sample_telemetry();
    assert_eq!(batch.len(), 3);
    assert_eq!(batch[0].robot_name, "Atlas");
    assert_eq!(batch[1].robot_name, "Bolt");
    assert_eq!(batch[2].robot_name, "Cog");
    assert_eq!(batch[0].task.as_deref(), Some("package_sorting"));
    assert_eq!(batch[1].task, None);
    assert_eq!(batch[2].task.as_deref(), Some("inventory_scan"));
    assert_eq!(batch[0].location.zone, "A1");
    assert_eq!(batch[0].location.x_milli, 12_500);
    assert_eq!(batch[0].location.y_milli, 34_800);
    assert_eq!(batch[1].location.zone, "C3");
    assert_eq!(batch[2].location.zone, "B2");

    let analysis = analyze_fleet_health(&batch);
    assert_eq!(analysis.total_robots, 3);
    assert_eq!(analysis.active_count, 1);
    assert_eq!(analysis.charging_count, 1);
    assert_eq!(analysis.error_count, 1);
    assert_eq!(analysis.idle_count, 0);
    assert_eq!(analysis.maintenance_count, 0);

    // (87.5 + 23.1 + 55.0) / 3 == 55.2 exactly, in thousandths.
    assert_eq!(analysis.avg_battery_milli, 55_200);
    // (42.3 + 68.9 + 91.2) / 3 == 67.4666..., nearest thousandth 67.467.
    assert_eq!(analysis.avg_cpu_temp_milli, 67_467);
    // (-45 - 72 - 88) / 3 == -68.333..., nearest thousandth -68.333.
    assert_eq!(analysis.avg_signal_milli, -68_333);

    assert_eq!(analysis.alerts.len(), 3);
    assert_eq!(analysis.alerts[0].severity, AlertSeverity::Critical);
    assert_eq!(analysis.alerts[0].robot_id, "RBT-003");
    assert_eq!(analysis.alerts[0].message, "CPU overheating: 91.2°C");
    assert_eq!(analysis.alerts[1].severity, AlertSeverity::Warning);
    assert_eq!(analysis.alerts[1].robot_id, "RBT-003");
    assert_eq!(analysis.alerts[1].message, "Weak signal: -88 dBm");
    assert_eq!(analysis.alerts[2].severity, AlertSeverity::Critical);
    assert_eq!(analysis.alerts[2].robot_id, "RBT-003");
    assert_eq!(analysis.alerts[2].message, "Robot in error state with 2 error code(s)");
}
