//! Assembling one report per tick from the probes' results.
//!
//! Each probe either returned its readings or failed (`None`). A failed probe
//! leaves its own section at the section's empty value and counts one failure;
//! the other sections are built as usual. Rates come from the counters that the
//! same probe gave on an earlier tick and the time since then; where there is no
//! earlier reading they are zero.
use vstd::prelude::*;
use crate::models::{
    MachineReport, MemoryStats, Metadata, PhysicalSensors, ProcessStats, SecurityStats,
    SystemHealth,
};
use crate::ranking::{process_stats, sat_u32, count_state, infos_of, is_top_selection, picks, ProcessSample, ProcessState, RankKey};
use crate::sections::{
    cpu_section, cpu_section_spec, cpu_well_formed, network_section, network_section_spec,
    storage_section, storage_section_spec, CpuSample, NetworkCounters, NetworkSample,
    StorageCounters, StorageSample,
};

verus! {

/// What each probe gave on one tick.
pub struct ProbeResults {
    pub metadata: Metadata,
    pub cpu: Option<CpuSample>,
    pub memory: Option<MemoryStats>,
    pub processes: Option<Vec<ProcessSample>>,
    pub network: Option<NetworkSample>,
    pub storage: Option<StorageSample>,
    pub sensors: Option<PhysicalSensors>,
    pub security: Option<SecurityStats>,
    pub health: Option<SystemHealth>,
}


/// Builds reports tick after tick, keeping the counters that rates need.
pub struct TelemetryCollector {
    /// Cores of the machine: every report has one per-core CPU entry for each.
    pub core_count: usize,
    /// How many processes each ranking keeps.
    pub top_n: usize,
    /// Capture instant of the last report.
    pub last_timestamp: Option<i64>,
    /// Interrupt counter of the last successful CPU probe, with its instant.
    pub prev_interrupts: Option<(u64, i64)>,
    pub prev_network: Option<(NetworkCounters, i64)>,
    pub prev_storage: Option<(StorageCounters, i64)>,
    /// Probe failures so far (saturating).
    pub failures: u64,
}

pub open spec fn before_last<T>(prev: Option<(T, i64)>, last: Option<i64>) -> bool {
    match prev {
        Some((_, t)) => last is Some && t <= last->0,
        None => true,
    }
}

pub open spec fn elapsed_since(t: i64, ts: i64) -> u64 {
    if ts > t {
        (ts - t) as u64
    } else {
        0
    }
}

pub open spec fn elapsed_of<T>(prev: Option<(T, i64)>, ts: i64) -> u64 {
    match prev {
        Some((_, t)) => elapsed_since(t, ts),
        None => 0,
    }
}

pub open spec fn counters_of<T>(prev: Option<(T, i64)>) -> Option<T> {
    match prev {
        Some((c, _)) => Some(c),
        None => None,
    }
}

/// The capture instant of the next report: the clock's reading, or one past
/// the last report's where the clock did not move on (the last instant that
/// an `i64` holds stays where it is).
pub open spec fn next_timestamp(last: Option<i64>, now_ms: i64) -> i64 {
    match last {
        Some(l) => if now_ms > l {
            now_ms
        } else if l < i64::MAX {
            (l + 1) as i64
        } else {
            l
        },
        None => now_ms,
    }
}

pub open spec fn failed_count(p: ProbeResults) -> nat {
    (if p.cpu is None { 1nat } else { 0nat }) + (if p.memory is None { 1nat } else { 0nat }) + (
    if p.processes is None { 1nat } else { 0nat }) + (if p.network is None { 1nat } else { 0nat })
        + (if p.storage is None { 1nat } else { 0nat }) + (if p.sensors is None { 1nat } else { 0nat })
        + (if p.security is None { 1nat } else { 0nat }) + (if p.health is None { 1nat } else { 0nat })
}

pub open spec fn zero_memory() -> MemoryStats {
    MemoryStats {
        total_bytes: 0,
        used_bytes: 0,
        available_bytes: 0,
        buffers_cache_bytes: 0,
        swap_total_bytes: 0,
        swap_used_bytes: 0,
    }
}

pub open spec fn process_section_spec(p: ProcessStats, samples: Option<Vec<ProcessSample>>, top_n: usize) -> bool {
    match samples {
        Some(v) => {
            &&& p.total_count == sat_u32(v@.len())
            &&& p.running_count == sat_u32(count_state(v@, ProcessState::Running))
            &&& p.sleeping_count == sat_u32(count_state(v@, ProcessState::Sleeping))
            &&& p.zombie_count == sat_u32(count_state(v@, ProcessState::Zombie))
            &&& exists|idx: Seq<usize>|
                is_top_selection(infos_of(v@), top_n, RankKey::Cpu, idx) && picks(infos_of(v@), idx, p.top_cpu@)
            &&& exists|idx: Seq<usize>|
                is_top_selection(infos_of(v@), top_n, RankKey::Memory, idx) && picks(infos_of(v@), idx, p.top_memory@)
        },
        None => {
            &&& p.total_count == 0
            &&& p.running_count == 0
            &&& p.sleeping_count == 0
            &&& p.zombie_count == 0
            &&& p.top_cpu@.len() == 0
            &&& p.top_memory@.len() == 0
        },
    }
}

pub open spec fn sensors_section_spec(s: PhysicalSensors, probe: Option<PhysicalSensors>) -> bool {
    match probe {
        Some(p) => s == p,
        None => s.cpu_temp == 0 && s.core_temps@.len() == 0 && s.storage_temps@.len() == 0
            && s.fan_speeds@.len() == 0,
    }
}

pub open spec fn security_section_spec(s: SecurityStats, probe: Option<SecurityStats>) -> bool {
    match probe {
        Some(p) => s == p,
        None => s.last_login@.len() == 0 && !s.firewall_active,
    }
}

impl TelemetryCollector {
    /// Counters of earlier probes are never newer than the last report.
    pub open spec fn well_formed(&self) -> bool {
        &&& before_last(self.prev_interrupts, self.last_timestamp)
        &&& before_last(self.prev_network, self.last_timestamp)
        &&& before_last(self.prev_storage, self.last_timestamp)
        &&& self.last_timestamp is None ==> self.prev_interrupts is None && self.prev_network is None
            && self.prev_storage is None
    }

    pub fn new(core_count: usize, top_n: usize) -> (c: Self)
        ensures
            c.well_formed(),
            c.core_count == core_count,
            c.top_n == top_n,
            c.last_timestamp is None,
            c.failures == 0,
    {
        TelemetryCollector {
            core_count,
            top_n,
            last_timestamp: None,
            prev_interrupts: None,
            prev_network: None,
            prev_storage: None,
            failures: 0,
        }
    }

    /// Builds the report of one tick read at `now_ms`, milliseconds since the epoch.
    #[verifier::rlimit(60)]
    pub fn collect_telemetry(&mut self, now_ms: i64, probes: ProbeResults) -> (r: MachineReport)
        requires
            old(self).well_formed(),
        ensures
            final(self).well_formed(),
            final(self).core_count == old(self).core_count,
            final(self).top_n == old(self).top_n,
            r.timestamp == next_timestamp(old(self).last_timestamp, now_ms),
            old(self).last_timestamp matches Some(l) ==> r.timestamp >= l && (l < i64::MAX
                ==> r.timestamp > l),
            final(self).last_timestamp == Some(r.timestamp),
            final(self).failures == if old(self).failures + failed_count(probes) <= u64::MAX {
                (old(self).failures + failed_count(probes)) as u64
            } else {
                u64::MAX
            },
            r.metadata == probes.metadata,
            cpu_section_spec(
                r.cpu,
                old(self).core_count,
                probes.cpu,
                counters_of(old(self).prev_interrupts),
                elapsed_of(old(self).prev_interrupts, r.timestamp),
            ),
            cpu_well_formed(r.cpu, old(self).core_count),
            r.memory == match probes.memory {
                Some(m) => m,
                None => zero_memory(),
            },
            process_section_spec(r.processes, probes.processes, old(self).top_n),
            network_section_spec(
                r.network,
                probes.network,
                counters_of(old(self).prev_network),
                elapsed_of(old(self).prev_network, r.timestamp),
            ),
            storage_section_spec(
                r.storage,
                probes.storage,
                counters_of(old(self).prev_storage),
                elapsed_of(old(self).prev_storage, r.timestamp),
            ),
            sensors_section_spec(r.sensors, probes.sensors),
            security_section_spec(r.security, probes.security),
            r.health == match probes.health {
                Some(h) => h,
                None => SystemHealth { entropy_avail: 0 },
            },
            // on the first tick every rate is zero
            old(self).last_timestamp is None ==> {
                &&& r.cpu.interrupts_sec == 0
                &&& r.network.aggregate_rx_bytes_sec == 0
                &&& r.network.aggregate_tx_bytes_sec == 0
                &&& r.storage.total_read_bytes_sec == 0
                &&& r.storage.total_write_bytes_sec == 0
                &&& r.storage.total_read_iops == 0
                &&& r.storage.total_write_iops == 0
            },
            // a failed storage probe empties its own section only
            probes.storage is None ==> {
                &&& r.storage.partitions@.len() == 0
                &&& r.storage.total_read_bytes_sec == 0
                &&& r.storage.total_write_bytes_sec == 0
                &&& r.storage.total_read_iops == 0
                &&& r.storage.total_write_iops == 0
            },
    {
        let ts: i64 = match self.last_timestamp {
            Some(l) => if now_ms > l {
                now_ms
            } else if l < i64::MAX {
                l + 1
            } else {
                l
            },
            None => now_ms,
        };
        let mut failed: u64 = 0;
        if probes.cpu.is_none() {
            failed = failed + 1;
        }
        if probes.memory.is_none() {
            failed = failed + 1;
        }
        if probes.processes.is_none() {
            failed = failed + 1;
        }
        if probes.network.is_none() {
            failed = failed + 1;
        }
        if probes.storage.is_none() {
            failed = failed + 1;
        }
        if probes.sensors.is_none() {
            failed = failed + 1;
        }
        if probes.security.is_none() {
            failed = failed + 1;
        }
        if probes.health.is_none() {
            failed = failed + 1;
        }
        assert(failed == failed_count(probes));
        self.failures = if self.failures <= u64::MAX - failed {
            self.failures + failed
        } else {
            u64::MAX
        };

        let ProbeResults { metadata, cpu, memory, processes, network, storage, sensors, security, health } = probes;

        // cpu
        let (prev_int, el_int) = match self.prev_interrupts {
            Some((c, t)) => (Some(c), Self::elapsed(t, ts)),
            None => (None, 0),
        };
        let next_int = match &cpu {
            Some(s) => Some((s.interrupts_total, ts)),
            None => self.prev_interrupts,
        };
        let cpu_stats = cpu_section(self.core_count, cpu, prev_int, el_int);

        // network
        let (prev_net, el_net) = match self.prev_network {
            Some((c, t)) => (Some(c), Self::elapsed(t, ts)),
            None => (None, 0),
        };
        let next_net = match &network {
            Some(s) => Some((NetworkCounters { rx_bytes: s.rx_bytes, tx_bytes: s.tx_bytes }, ts)),
            None => self.prev_network,
        };
        let network_stats = network_section(network, prev_net, el_net);

        // storage
        let (prev_sto, el_sto) = match self.prev_storage {
            Some((c, t)) => (Some(c), Self::elapsed(t, ts)),
            None => (None, 0),
        };
        let next_sto = match &storage {
            Some(s) => Some(
                (
                    StorageCounters {
                        read_bytes: s.read_bytes,
                        write_bytes: s.write_bytes,
                        read_ops: s.read_ops,
                        write_ops: s.write_ops,
                    },
                    ts,
                ),
            ),
            None => self.prev_storage,
        };
        let storage_stats = storage_section(storage, prev_sto, el_sto);

        let memory_stats = match memory {
            Some(m) => m,
            None => MemoryStats {
                total_bytes: 0,
                used_bytes: 0,
                available_bytes: 0,
                buffers_cache_bytes: 0,
                swap_total_bytes: 0,
                swap_used_bytes: 0,
            },
        };
        let process_stats = match processes {
            Some(v) => process_stats(&v, self.top_n),
            None => ProcessStats {
                total_count: 0,
                running_count: 0,
                sleeping_count: 0,
                zombie_count: 0,
                top_cpu: Vec::new(),
                top_memory: Vec::new(),
            },
        };
        let sensors_stats = match sensors {
            Some(s) => s,
            None => PhysicalSensors {
                cpu_temp: 0,
                core_temps: Vec::new(),
                storage_temps: Vec::new(),
                fan_speeds: Vec::new(),
            },
        };
        let security_stats = match security {
            Some(s) => s,
            None => SecurityStats { last_login: String::new(), firewall_active: false },
        };
        let health_stats = match health {
            Some(h) => h,
            None => SystemHealth { entropy_avail: 0 },
        };

        self.prev_interrupts = next_int;
        self.prev_network = next_net;
        self.prev_storage = next_sto;
        self.last_timestamp = Some(ts);
        MachineReport {
            metadata,
            cpu: cpu_stats,
            memory: memory_stats,
            processes: process_stats,
            network: network_stats,
            storage: storage_stats,
            sensors: sensors_stats,
            security: security_stats,
            health: health_stats,
            timestamp: ts,
        }
    }

    fn elapsed(t: i64, ts: i64) -> (r: u64)
        ensures
            r == elapsed_since(t, ts),
    {
        if ts > t {
            ((ts as i128) - (t as i128)) as u64
        } else {
            0
        }
    }
}

} // verus!
