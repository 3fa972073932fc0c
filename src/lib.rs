//! Normalization of power and thermal telemetry read from device
//! directories: AC adapters, batteries, cooling devices and thermal zones.
//!
//! Each device directory is handed over as a [`DeviceDir`] snapshot of its
//! attribute files; the functions here classify devices, detect how a
//! battery reports its capacity, convert raw counters to consistent units,
//! derive the time until a battery is full or empty, and scan thermal trip
//! points.
pub mod ac_adapter;
pub mod battery;
pub mod cooling;
pub mod device;
pub mod text;
pub mod thermal_zone;
pub mod utils;

pub use ac_adapter::{get_ac_adapter_info, parse_online_status, ACAdapterInfo, Status};
pub use battery::{
    determine_reporting_type, determine_time_to_state_change, get_battery_info,
    parse_state_from_str, BatteryInfo, ChargingState, ReportType,
};
pub use cooling::{get_cooling_device_info, CoolingDevice, CoolingStatus};
pub use device::DeviceDir;
pub use text::{decimal_string, same_text};
pub use thermal_zone::{get_thermal_sensor_info, ThermalSensor, TripPoint, Units};
pub use utils::{
    determine_is_battery, get_device_name, is_battery_text, is_thermal_sensor, parse_entry_file,
    parse_file_to_i32, parse_scaled_integer, AcpiClientError,
};
