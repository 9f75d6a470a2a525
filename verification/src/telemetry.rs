//! Telemetry data model: one reading per robot per snapshot.
//!
//! Battery percentage, CPU temperature and map coordinates are fixed-point
//! integers counting thousandths of a unit; signal strength is a whole
//! number of dBm. Identifiers, names and timestamps are opaque strings —
//! the timestamp is never parsed or validated.

use vstd::prelude::*;
use vstd::string::StringExecFns;
use crate::numfmt::MILLI_ABS_MAX;

verus! {

/// Operational state of a robot; a closed set of five values.
#[derive(Clone, Copy, Debug, PartialEq, Eq, Structural)]
pub enum RobotStatus {
    Active,
    Idle,
    Charging,
    Maintenance,
    Error,
}

impl RobotStatus {
    /// The display label of the status.
    pub open spec fn spec_label(self) -> Seq<char> {
        match self {
            RobotStatus::Active => "ACTIVE"@,
            RobotStatus::Idle => "IDLE"@,
            RobotStatus::Charging => "CHARGING"@,
            RobotStatus::Maintenance => "MAINTENANCE"@,
            RobotStatus::Error => "ERROR"@,
        }
    }

    /// Render the status label.
    pub fn label(&self) -> (r: String)
        ensures
            r@ == self.spec_label(),
    {
        match self {
            RobotStatus::Active => String::from_str("ACTIVE"),
            RobotStatus::Idle => String::from_str("IDLE"),
            RobotStatus::Charging => String::from_str("CHARGING"),
            RobotStatus::Maintenance => String::from_str("MAINTENANCE"),
            RobotStatus::Error => String::from_str("ERROR"),
        }
    }
}

/// Where a robot stands: a zone name and fixed-point map coordinates.
#[derive(Clone, Debug)]
pub struct Location {
    pub zone: String,
    pub x_milli: i64,
    pub y_milli: i64,
}

/// One telemetry snapshot for one robot. Robot ids are expected to be
/// unique within a batch, but uniqueness is not enforced: duplicates are
/// processed independently and counted separately.
#[derive(Clone, Debug)]
pub struct TelemetryReading {
    pub robot_id: String,
    pub robot_name: String,
    pub timestamp: String,
    pub battery_level_milli: i64,
    pub cpu_temp_celsius_milli: i64,
    pub signal_strength_dbm: i32,
    pub status: RobotStatus,
    pub location: Location,
    pub task: Option<String>,
    pub error_codes: Vec<u32>,
}

impl TelemetryReading {
    /// Machine bound on the fixed-point fields, so that sums, means and
    /// rendering arithmetic stay in range. Out-of-range *domain* values
    /// (battery above 100%, say) are deliberately accepted.
    pub open spec fn wf(self) -> bool {
        &&& -MILLI_ABS_MAX <= self.battery_level_milli <= MILLI_ABS_MAX
        &&& -MILLI_ABS_MAX <= self.cpu_temp_celsius_milli <= MILLI_ABS_MAX
    }
}

/// A canned demonstration batch of three readings.
pub fn generate_sample_telemetry() -> (r: Vec<TelemetryReading>)
    ensures
        r@.len() == 3,
        forall|i: int| 0 <= i < r@.len() ==> r@[i].wf(),
        r@[0].robot_id@ == "RBT-001"@,
        r@[0].robot_name@ == "Atlas"@,
        r@[0].timestamp@ == "2025-06-15T10:30:00Z"@,
        r@[0].battery_level_milli == 87_500,
        r@[0].cpu_temp_celsius_milli == 42_300,
        r@[0].signal_strength_dbm == -45,
        r@[0].status == RobotStatus::Active,
        r@[0].location.zone@ == "A1"@,
        r@[0].location.x_milli == 12_500,
        r@[0].location.y_milli == 34_800,
        r@[0].task is Some,
        r@[0].task->0@ == "package_sorting"@,
        r@[0].error_codes@ == Seq::<u32>::empty(),
        r@[1].robot_id@ == "RBT-002"@,
        r@[1].robot_name@ == "Bolt"@,
        r@[1].timestamp@ == "2025-06-15T10:30:00Z"@,
        r@[1].battery_level_milli == 23_100,
        r@[1].cpu_temp_celsius_milli == 68_900,
        r@[1].signal_strength_dbm == -72,
        r@[1].status == RobotStatus::Charging,
        r@[1].location.zone@ == "C3"@,
        r@[1].location.x_milli == 5_000,
        r@[1].location.y_milli == 10_200,
        r@[1].task is None,
        r@[1].error_codes@ == Seq::<u32>::empty(),
        r@[2].robot_id@ == "RBT-003"@,
        r@[2].robot_name@ == "Cog"@,
        r@[2].timestamp@ == "2025-06-15T10:30:00Z"@,
        r@[2].battery_level_milli == 55_000,
        r@[2].cpu_temp_celsius_milli == 91_200,
        r@[2].signal_strength_dbm == -88,
        r@[2].status == RobotStatus::Error,
        r@[2].location.zone@ == "B2"@,
        r@[2].location.x_milli == 22_100,
        r@[2].location.y_milli == 7_400,
        r@[2].task is Some,
        r@[2].task->0@ == "inventory_scan"@,
        r@[2].error_codes@ == seq![1012u32, 2048u32],
{
    let mut readings: Vec<TelemetryReading> = Vec::new();
    readings.push(TelemetryReading {
        robot_id: String::from_str("RBT-001"),
        robot_name: String::from_str("Atlas"),
        timestamp: String::from_str("2025-06-15T10:30:00Z"),
        battery_level_milli: 87_500,
        cpu_temp_celsius_milli: 42_300,
        signal_strength_dbm: -45,
        status: RobotStatus::Active,
        location: Location { zone: String::from_str("A1"), x_milli: 12_500, y_milli: 34_800 },
        task: Some(String::from_str("package_sorting")),
        error_codes: Vec::new(),
    });
    readings.push(TelemetryReading {
        robot_id: String::from_str("RBT-002"),
        robot_name: String::from_str("Bolt"),
        timestamp: String::from_str("2025-06-15T10:30:00Z"),
        battery_level_milli: 23_100,
        cpu_temp_celsius_milli: 68_900,
        signal_strength_dbm: -72,
        status: RobotStatus::Charging,
        location: Location { zone: String::from_str("C3"), x_milli: 5_000, y_milli: 10_200 },
        task: None,
        error_codes: Vec::new(),
    });
    let mut cog_codes: Vec<u32> = Vec::new();
    cog_codes.push(1012);
    cog_codes.push(2048);
    proof {
        assert(cog_codes@ =~= seq![1012u32, 2048u32]);
    }
    readings.push(TelemetryReading {
        robot_id: String::from_str("RBT-003"),
        robot_name: String::from_str("Cog"),
        timestamp: String::from_str("2025-06-15T10:30:00Z"),
        battery_level_milli: 55_000,
        cpu_temp_celsius_milli: 91_200,
        signal_strength_dbm: -88,
        status: RobotStatus::Error,
        location: Location { zone: String::from_str("B2"), x_milli: 22_100, y_milli: 7_400 },
        task: Some(String::from_str("inventory_scan")),
        error_codes: cog_codes,
    });
    readings
}

} // verus!
