//! The report and its sections.
//!
//! Fractional quantities are held as integers in fixed units: percentages in
//! hundredths of a percent (`10000` is 100 %), load averages in hundredths,
//! temperatures in millidegrees Celsius, voltages in millivolts, latencies in
//! microseconds and process memory in kibibytes.
use vstd::prelude::*;

verus! {

/// Complete telemetry for one tick.
#[derive(Clone, Debug)]
pub struct MachineReport {
    pub metadata: Metadata,
    pub cpu: CpuStats,
    pub memory: MemoryStats,
    pub processes: ProcessStats,
    pub network: NetworkStats,
    pub storage: StorageStats,
    pub sensors: PhysicalSensors,
    pub security: SecurityStats,
    pub health: SystemHealth,
    /// Capture instant, milliseconds since the Unix epoch.
    pub timestamp: i64,
}

/// Census of the process table and the ranked heads of it.
#[derive(Clone, Debug)]
pub struct ProcessStats {
    pub total_count: u32,
    pub running_count: u32,
    pub sleeping_count: u32,
    pub zombie_count: u32,
    /// Processes using the most CPU, highest first.
    pub top_cpu: Vec<ProcessInfo>,
    /// Processes using the most memory, highest first.
    pub top_memory: Vec<ProcessInfo>,
}

/// One row of the process table.
#[derive(Clone, Debug)]
pub struct ProcessInfo {
    pub pid: u32,
    pub name: String,
    pub user: String,
    /// CPU usage in hundredths of a percent.
    pub cpu_usage: u32,
    /// Resident memory in kibibytes.
    pub mem_usage_kb: u64,
}

/// Identity facts of the machine, with the per-tick uptime and boot time.
#[derive(Clone, Debug)]
pub struct Metadata {
    pub machine_id: String,
    pub hostname: String,
    pub os_distro: String,
    /// Seconds since boot.
    pub uptime: u64,
    pub virtualization: String,
    /// Boot instant, seconds since the Unix epoch.
    pub boot_time: u64,
    pub timezone: String,
}

/// CPU figures.
#[derive(Clone, Debug)]
pub struct CpuStats {
    /// Total usage in hundredths of a percent.
    pub usage_total_pct: u32,
    /// Load averages over 1, 5 and 15 minutes, in hundredths.
    pub load_avg: [u64; 3],
    /// Usage of each core in hundredths of a percent.
    pub threads_usage: Vec<u32>,
    /// Interrupts per second.
    pub interrupts_sec: u64,
    /// Time waiting on I/O, in hundredths of a percent.
    pub io_wait_time: u32,
    pub idle_time: u64,
    /// Frequency of each core in MHz.
    pub threads_freq_mhz: Vec<u32>,
    /// Core voltage in millivolts.
    pub voltage_vcore: u32,
}

/// Memory figures in bytes.
#[derive(Clone, Copy, Debug, PartialEq, Eq, Structural)]
pub struct MemoryStats {
    pub total_bytes: u64,
    pub used_bytes: u64,
    pub available_bytes: u64,
    pub buffers_cache_bytes: u64,
    pub swap_total_bytes: u64,
    pub swap_used_bytes: u64,
}

/// The addresses of one network interface.
#[derive(Clone, Debug)]
pub struct InterfaceAddresses {
    pub interface: String,
    pub ips: Vec<String>,
}

/// Network figures.
#[derive(Clone, Debug)]
pub struct NetworkStats {
    pub aggregate_rx_bytes_sec: u64,
    pub aggregate_tx_bytes_sec: u64,
    pub aggregate_rx_packets: u64,
    pub aggregate_tx_packets: u64,
    pub total_errors: u64,
    pub total_drops: u64,
    /// One entry per interface name.
    pub interface_ips: Vec<InterfaceAddresses>,
    pub tcp_active_connections: u32,
    pub tcp_time_wait_connections: u32,
    /// Distinct listening TCP ports.
    pub listening_ports: Vec<u16>,
}

/// Storage figures.
#[derive(Clone, Debug)]
pub struct StorageStats {
    pub partitions: Vec<PartitionInfo>,
    pub total_read_bytes_sec: u64,
    pub total_write_bytes_sec: u64,
    pub total_read_iops: u64,
    pub total_write_iops: u64,
    /// Mean I/O latency in microseconds.
    pub io_latency_us: u64,
}

/// One mounted filesystem.
#[derive(Clone, Debug)]
pub struct PartitionInfo {
    pub mount_point: String,
    /// Used share of the filesystem in hundredths of a percent.
    pub usage_pct: u32,
    pub free_bytes: u64,
    pub total_bytes: u64,
}

/// Hardware sensors, where the platform has them.
#[derive(Clone, Debug)]
pub struct PhysicalSensors {
    /// Millidegrees Celsius.
    pub cpu_temp: i32,
    pub core_temps: Vec<i32>,
    pub storage_temps: Vec<i32>,
    /// Revolutions per minute.
    pub fan_speeds: Vec<u32>,
}

/// Security posture.
#[derive(Clone, Debug)]
pub struct SecurityStats {
    pub last_login: String,
    pub firewall_active: bool,
}

/// Health figures.
#[derive(Clone, Copy, Debug, PartialEq, Eq, Structural)]
pub struct SystemHealth {
    pub entropy_avail: u32,
}

} // verus!
