//! Where the daemons meet and how often the telemetry daemon samples.
use vstd::prelude::*;

verus! {

/// The socket on which the telemetry daemon publishes events.
pub const DEFAULT_SOCKET_PATH: &'static str = "/tmp/desktop_pet_telemetry.sock";

/// The socket on which the core publishes the pet's state.
pub const STATE_SOCKET_PATH: &'static str = "/tmp/desktop_pet_state.sock";

/// The socket that receives telemetry events.
pub const TELEMETRY_SOCKET_PATH: &'static str = "/tmp/desktop_pet_telemetry.sock";

/// The telemetry daemon's settings. Intervals are in nanoseconds.
#[derive(Debug, Clone)]
pub struct TelemetryDaemonConfig {
    pub socket_path: String,
    pub proc_stat_path: Option<String>,
    pub sys_power_path: Option<String>,
    pub git_config_path: Option<String>,
    pub cpu_interval: u128,
    pub battery_interval: u128,
    pub idle_interval: u128,
    pub window_interval: u128,
}

impl Default for TelemetryDaemonConfig {
    /// The default socket, the system's own files, and sampling every ten
    /// seconds for the CPU, thirty for the battery, five for idle time and
    /// two for the active window.
    fn default() -> (c: Self)
        ensures
            c.socket_path@ == DEFAULT_SOCKET_PATH@,
            c.proc_stat_path is None,
            c.sys_power_path is None,
            c.git_config_path is None,
            c.cpu_interval == 10_000_000_000,
            c.battery_interval == 30_000_000_000,
            c.idle_interval == 5_000_000_000,
            c.window_interval == 2_000_000_000,
    {
        TelemetryDaemonConfig {
            socket_path: String::from_str(DEFAULT_SOCKET_PATH),
            proc_stat_path: None,
            sys_power_path: None,
            git_config_path: None,
            cpu_interval: 10_000_000_000,
            battery_interval: 30_000_000_000,
            idle_interval: 5_000_000_000,
            window_interval: 2_000_000_000,
        }
    }
}

} // verus!
