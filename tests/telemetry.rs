use host_telemetry::buffer::ReportBuffer;
use host_telemetry::collector::{ProbeResults, TelemetryCollector};
use host_telemetry::meminfo::{get_buffers_and_cache_bytes, get_system_memory_info, parse_u64_field, MemoryReadings};
use host_telemetry::metadata::{
    detect_virtualization, virtualization_of, get_machine_id, get_machine_metadata, resolve_timezone, static_metadata,
    timezone_from_link, trim_text, MetadataCache,
};
use host_telemetry::models::{InterfaceAddresses, Metadata, MemoryStats, PhysicalSensors, ProcessInfo, SecurityStats, SystemHealth};
use host_telemetry::ranking::{process_stats, top_processes, ProcessSample, ProcessState, RankKey};
use host_telemetry::sections::{
    cpu_section, distinct_ports, network_section, partition_info, rate_per_sec, CpuSample, MountSample,
    NetworkSample, StorageSample,
};
use host_telemetry::transport::{
    classify_failure, transient_delay, BackoffPolicy, ConnState, ConnectFailure, ConnectionMachine,
    FailureClass, TransportAction, TransportEvent,
};

fn proc_info(pid: u32, cpu: u32, mem: u64) -> ProcessInfo {
    ProcessInfo { pid, name: format!("p{}", pid), user: "root".to_string(), cpu_usage: cpu, mem_usage_kb: mem }
}

fn metadata() -> Metadata {
    Metadata {
        machine_id: "abc".to_string(),
        hostname: "host".to_string(),
        os_distro: "Debian".to_string(),
        uptime: 10,
        virtualization: "Physical".to_string(),
        boot_time: 1000,
        timezone: "UTC".to_string(),
    }
}

fn cpu_sample(interrupts: u64) -> CpuSample {
    CpuSample {
        usage_total_pct: 2500,
        load_avg: [50, 40, 30],
        threads_usage: vec![1000, 12000],
        threads_freq_mhz: vec![3200, 2400, 1800],
        interrupts_total: interrupts,
        io_wait_time: 250,
        idle_time: 77,
        voltage_vcore: 1150,
    }
}

fn network_sample(rx: u64, tx: u64) -> NetworkSample {
    NetworkSample {
        rx_bytes: rx,
        tx_bytes: tx,
        rx_packets: 15000,
        tx_packets: 12000,
        errors: 1,
        drops: 2,
        interface_ips: Vec::new(),
        tcp_active_connections: 3,
        tcp_time_wait_connections: 4,
        listening_ports: vec![22, 80],
    }
}

fn storage_sample(read: u64, write: u64) -> StorageSample {
    StorageSample {
        mounts: vec![
            MountSample { mount_point: "/".to_string(), fs_type: "ext4".to_string(), free_bytes: 250, total_bytes: 1000 },
            MountSample { mount_point: "/proc".to_string(), fs_type: "proc".to_string(), free_bytes: 0, total_bytes: 0 },
        ],
        read_bytes: read,
        write_bytes: write,
        read_ops: read / 10,
        write_ops: write / 10,
        io_latency_us: 800,
    }
}

fn full_probes(k: u64) -> ProbeResults {
    ProbeResults {
        metadata: metadata(),
        cpu: Some(cpu_sample(1000 * k)),
        memory: Some(MemoryStats {
            total_bytes: 100,
            used_bytes: 40,
            available_bytes: 60,
            buffers_cache_bytes: 10,
            swap_total_bytes: 50,
            swap_used_bytes: 5,
        }),
        processes: Some(vec![
            ProcessSample { info: proc_info(1, 9000, 10), state: ProcessState::Running },
            ProcessSample { info: proc_info(2, 1000, 30), state: ProcessState::Sleeping },
            ProcessSample { info: proc_info(3, 9000, 20), state: ProcessState::Zombie },
        ]),
        network: Some(network_sample(10_000 * k, 5_000 * k)),
        storage: Some(storage_sample(2_000 * k, 4_000 * k)),
        sensors: Some(PhysicalSensors { cpu_temp: 55000, core_temps: vec![52000], storage_temps: vec![], fan_speeds: vec![2200] }),
        security: Some(SecurityStats { last_login: "2024-05-20 14:00".to_string(), firewall_active: true }),
        health: Some(SystemHealth { entropy_avail: 256 }),
    }
}

#[test]
fn top_cpu_tie_broken_by_pid() {
    let procs = vec![proc_info(1, 9000, 0), proc_info(2, 1000, 0), proc_info(3, 9000, 0)];
    let top = top_processes(&procs, 2, RankKey::Cpu);
    let pids: Vec<u32> = top.iter().map(|p| p.pid).collect();
    assert_eq!(pids, vec![1, 3]);
}

#[test]
fn top_memory_orders_descending() {
    let procs = vec![proc_info(5, 0, 10), proc_info(4, 0, 30), proc_info(6, 0, 20), proc_info(7, 0, 30)];
    let top = top_processes(&procs, 5, RankKey::Memory);
    let pids: Vec<u32> = top.iter().map(|p| p.pid).collect();
    assert_eq!(pids, vec![4, 7, 6, 5]);
    assert!(top_processes(&procs, 0, RankKey::Memory).is_empty());
    assert!(top_processes(&Vec::new(), 3, RankKey::Cpu).is_empty());
}

#[test]
fn process_counts_by_state() {
    let samples = vec![
        ProcessSample { info: proc_info(1, 5, 5), state: ProcessState::Running },
        ProcessSample { info: proc_info(2, 5, 5), state: ProcessState::Sleeping },
        ProcessSample { info: proc_info(3, 5, 5), state: ProcessState::Sleeping },
        ProcessSample { info: proc_info(4, 5, 5), state: ProcessState::Other },
    ];
    let s = process_stats(&samples, 2);
    assert_eq!((s.total_count, s.running_count, s.sleeping_count, s.zombie_count), (4, 1, 2, 0));
    assert_eq!(s.top_cpu.len(), 2);
    assert_eq!(s.top_cpu[0].pid, 1);
}

#[test]
fn cpu_section_fits_core_count() {
    let c = cpu_section(4, Some(cpu_sample(0)), None, 0);
    assert_eq!(c.usage_total_pct, 2500);
    assert_eq!(c.threads_usage, vec![1000, 10000, 0, 0]);
    assert_eq!(c.threads_freq_mhz, vec![3200, 2400, 1800, 0]);
    let z = cpu_section(2, None, None, 0);
    assert_eq!(z.threads_usage.len(), 2);
    assert_eq!(z.threads_freq_mhz.len(), 2);
    assert_eq!(z.usage_total_pct, 0);
}

#[test]
fn rate_formula() {
    assert_eq!(rate_per_sec(1000, 3000, 2000), 1000);
    assert_eq!(rate_per_sec(3000, 1000, 2000), 0);
    assert_eq!(rate_per_sec(0, 500, 0), 0);
    assert_eq!(rate_per_sec(0, u64::MAX, 1), u64::MAX);
}

#[test]
fn partition_usage() {
    let p = partition_info("/".to_string(), 250, 1000);
    assert_eq!(p.usage_pct, 7500);
    let e = partition_info("/x".to_string(), 5, 0);
    assert_eq!((e.usage_pct, e.free_bytes), (0, 0));
}

#[test]
fn first_tick_rates_are_zero() {
    let mut c = TelemetryCollector::new(2, 5);
    let r = c.collect_telemetry(1_705_000_000_000, full_probes(1));
    assert_eq!(r.network.aggregate_rx_bytes_sec, 0);
    assert_eq!(r.network.aggregate_tx_bytes_sec, 0);
    assert_eq!(r.storage.total_read_bytes_sec, 0);
    assert_eq!(r.storage.total_write_bytes_sec, 0);
    assert_eq!(r.storage.total_read_iops, 0);
    assert_eq!(r.storage.total_write_iops, 0);
    assert_eq!(r.cpu.interrupts_sec, 0);
    assert_eq!(r.timestamp, 1_705_000_000_000);
}

#[test]
fn second_tick_rates_and_order() {
    let mut c = TelemetryCollector::new(2, 2);
    let _ = c.collect_telemetry(1_000, full_probes(1));
    let r = c.collect_telemetry(3_000, full_probes(2));
    assert_eq!(r.network.aggregate_rx_bytes_sec, 5_000);
    assert_eq!(r.network.aggregate_tx_bytes_sec, 2_500);
    assert_eq!(r.storage.total_read_bytes_sec, 1_000);
    assert_eq!(r.cpu.interrupts_sec, 500);
    let pids: Vec<u32> = r.processes.top_cpu.iter().map(|p| p.pid).collect();
    assert_eq!(pids, vec![1, 3]);
    let r3 = c.collect_telemetry(2_000, full_probes(3));
    assert_eq!(r3.timestamp, 3_001);
}

#[test]
fn storage_failure_is_isolated() {
    let mut c = TelemetryCollector::new(2, 5);
    let _ = c.collect_telemetry(1_000, full_probes(1));
    let mut probes = full_probes(2);
    probes.storage = None;
    let r = c.collect_telemetry(2_000, probes);
    assert!(r.storage.partitions.is_empty());
    assert_eq!(r.storage.total_read_bytes_sec, 0);
    assert_eq!(r.storage.total_write_bytes_sec, 0);
    assert_eq!(r.network.aggregate_rx_bytes_sec, 10_000);
    assert_eq!(r.memory.total_bytes, 100);
    assert_eq!(r.processes.total_count, 3);
    assert_eq!(r.health.entropy_avail, 256);
    assert_eq!(c.failures, 1);
    let again = c.collect_telemetry(3_000, full_probes(3));
    assert_eq!(again.storage.partitions.len(), 1);
    assert_eq!(again.storage.partitions[0].mount_point, "/");
}

#[test]
fn all_probes_failing_still_gives_report() {
    let mut c = TelemetryCollector::new(3, 5);
    let probes = ProbeResults {
        metadata: metadata(),
        cpu: None,
        memory: None,
        processes: None,
        network: None,
        storage: None,
        sensors: None,
        security: None,
        health: None,
    };
    let r = c.collect_telemetry(5, probes);
    assert_eq!(r.cpu.threads_usage.len(), 3);
    assert_eq!(r.memory.total_bytes, 0);
    assert!(r.processes.top_cpu.is_empty());
    assert_eq!(r.security.last_login, "");
    assert_eq!(c.failures, 8);
}

#[test]
fn meminfo_buffers_and_cache() {
    let text = "MemTotal:       16000000 kB\nBuffers:          1000 kB\nCached:           2000 kB\nSwapCached:      5 kB\n";
    assert_eq!(get_buffers_and_cache_bytes(text), 3000 * 1024);
    assert_eq!(get_buffers_and_cache_bytes(""), 0);
    assert_eq!(get_buffers_and_cache_bytes("Buffers: x kB\nCached: 2"), 2048);
    assert_eq!(get_buffers_and_cache_bytes("Buffers: 1\nBuffers: 3\n"), 3072);
    assert_eq!(get_buffers_and_cache_bytes("Buffers:\nCached:: +4 kB"), 4096);
    assert_eq!(get_buffers_and_cache_bytes("Buffers:\u{3000}5\u{a0}kB\nCached:\u{2003}1"), 6 * 1024);
}

#[test]
fn parse_u64_field_cases() {
    let s: Vec<char> = "18446744073709551615 18446744073709551616 +7 + 12a".chars().collect();
    let s = s.as_slice();
    assert_eq!(parse_u64_field(s, 0, 20), Some(u64::MAX));
    assert_eq!(parse_u64_field(s, 21, 41), None);
    assert_eq!(parse_u64_field(s, 42, 44), Some(7));
    assert_eq!(parse_u64_field(s, 45, 46), None);
    assert_eq!(parse_u64_field(s, 47, 50), None);
}

#[test]
fn memory_section_from_readings() {
    let r = MemoryReadings { total: 100, used: 40, available: 60, swap_total: 50, swap_free: 20 };
    let m = get_system_memory_info(r, "Buffers: 1 kB\nCached: 1 kB\n");
    assert_eq!(m.swap_used_bytes, 30);
    assert_eq!(m.buffers_cache_bytes, 2048);
}

#[test]
fn virtualization_detection() {
    assert_eq!(detect_virtualization("QEMU"), "Virtual Machine from QEMU");
    assert_eq!(detect_virtualization("innotek VirtualBox"), "Virtual Machine from innotek VirtualBox");
    assert_eq!(detect_virtualization("Dell Inc."), "Physical");
    assert_eq!(detect_virtualization(""), "Physical");
    assert_eq!(detect_virtualization("\u{212A}vm"), "Virtual Machine from \u{212A}vm");
    assert_eq!(detect_virtualization("VMware, Inc."), "Virtual Machine from VMware, Inc.");
    assert_eq!(virtualization_of("Xen HVM", "xen hvm"), "Virtual Machine from Xen HVM");
    assert_eq!(virtualization_of("Xen HVM", "Xen HVM"), "Physical");
}

#[test]
fn timezone_resolution() {
    assert_eq!(timezone_from_link("/usr/share/zoneinfo/America/Sao_Paulo"), Some("America/Sao_Paulo".to_string()));
    assert_eq!(timezone_from_link("/etc/localtime"), None);
    assert_eq!(resolve_timezone(Some("Europe/Paris\n".to_string()), None), "Europe/Paris");
    assert_eq!(resolve_timezone(None, Some("../zoneinfo/UTC".to_string())), "UTC");
    assert_eq!(resolve_timezone(None, None), "Unknown");
}

#[test]
fn trimming_and_machine_id() {
    assert_eq!(trim_text("  id\n"), "id");
    assert_eq!(trim_text(" \t "), "");
    assert_eq!(get_machine_id(&vec![None, Some("xyz\n".to_string())]), "xyz\n");
    assert_eq!(get_machine_id(&vec![None, None]), "");
}

#[test]
fn metadata_cache_keeps_first_facts() {
    let mut cache = MetadataCache::new();
    assert!(get_machine_metadata(&cache, 1, 2).is_none());
    let facts = static_metadata(&vec![Some(" m1 \n".to_string())], "host".to_string(), None, Some("KVM\n".to_string()), None, None);
    assert_eq!(facts.os_distro, "unknown");
    assert_eq!(facts.virtualization, "Virtual Machine from KVM");
    assert_eq!(facts.timezone, "Unknown");
    cache.initialize(facts);
    let other = static_metadata(&vec![], "other".to_string(), Some("Arch".to_string()), None, None, None);
    assert_eq!(other.virtualization, "Physical");
    cache.initialize(other);
    assert!(!cache.needs_probe());
    let a = get_machine_metadata(&cache, 10, 100).unwrap();
    let b = get_machine_metadata(&cache, 20, 100).unwrap();
    assert_eq!(a.machine_id, "m1");
    assert_eq!(a.hostname, "host");
    assert_eq!((a.machine_id, a.hostname, a.timezone), (b.machine_id, b.hostname, b.timezone));
    assert_eq!((a.uptime, b.uptime), (10, 20));
}

fn policy() -> BackoffPolicy {
    BackoffPolicy { base_delay_ms: 2000, max_delay_ms: 16000, server_delay_ms: 5000 }
}

#[test]
fn failure_classes() {
    assert_eq!(classify_failure(ConnectFailure::Io), FailureClass::Transient);
    assert_eq!(classify_failure(ConnectFailure::Http(503)), FailureClass::Server);
    assert_eq!(classify_failure(ConnectFailure::Http(404)), FailureClass::Fatal);
    assert_eq!(classify_failure(ConnectFailure::Other), FailureClass::Fatal);
}

#[test]
fn backoff_delays() {
    assert_eq!(transient_delay(policy(), 0), 2000);
    assert_eq!(transient_delay(policy(), 2), 8000);
    assert_eq!(transient_delay(policy(), 10), 16000);
}

#[test]
fn transient_failure_waits_then_retries() {
    let mut m = ConnectionMachine::new(policy());
    assert_eq!(m.step(TransportEvent::ConnectRequested), TransportAction::Connect);
    let a = m.step(TransportEvent::ConnectFailed(ConnectFailure::Io));
    assert_eq!(a, TransportAction::Wait { delay_ms: 2000 });
    assert_eq!(m.step(TransportEvent::BackoffElapsed), TransportAction::Connect);
    assert_eq!(m.step(TransportEvent::ConnectFailed(ConnectFailure::Io)), TransportAction::Wait { delay_ms: 4000 });
    assert_eq!(m.step(TransportEvent::BackoffElapsed), TransportAction::Connect);
    assert_eq!(m.step(TransportEvent::ConnectFailed(ConnectFailure::Http(502))), TransportAction::Wait { delay_ms: 5000 });
    assert_eq!(m.step(TransportEvent::BackoffElapsed), TransportAction::Connect);
    assert_eq!(m.step(TransportEvent::ConnectSucceeded), TransportAction::Ready);
    assert!(m.is_connected());
    assert_eq!(m.step(TransportEvent::IoFailed), TransportAction::Reconnect);
}

#[test]
fn fatal_failure_stops_attempts() {
    let mut m = ConnectionMachine::new(policy());
    m.step(TransportEvent::ConnectRequested);
    let a = m.step(TransportEvent::ConnectFailed(ConnectFailure::Http(401)));
    assert_eq!(a, TransportAction::Fail { failure: ConnectFailure::Http(401) });
    assert_eq!(m.state, ConnState::Failed);
    assert_eq!(m.step(TransportEvent::BackoffElapsed), TransportAction::Nothing);
    assert_eq!(m.step(TransportEvent::ConnectRequested), TransportAction::Nothing);
}

#[test]
fn shutdown_cancels_backoff() {
    let mut m = ConnectionMachine::new(policy());
    m.step(TransportEvent::ConnectRequested);
    m.step(TransportEvent::ConnectFailed(ConnectFailure::Io));
    assert_eq!(m.step(TransportEvent::ShutdownRequested), TransportAction::Close);
    assert_eq!(m.state, ConnState::Closed);
    assert_eq!(m.step(TransportEvent::BackoffElapsed), TransportAction::Nothing);
}

#[test]
fn buffer_drops_oldest() {
    let mut b: ReportBuffer<u32> = ReportBuffer::new(10);
    for i in 1..=10 {
        assert_eq!(b.enqueue_or_send(false, i), None);
    }
    assert_eq!(b.push(11), Some(1));
    assert_eq!(b.len(), 10);
    assert_eq!(b.drain(), (2..=11).collect::<Vec<u32>>());
    assert_eq!(b.len(), 0);
    assert_eq!(b.enqueue_or_send(true, 12), Some(12));
}

#[test]
fn listening_ports_are_distinct() {
    assert_eq!(distinct_ports(&vec![22, 80, 22, 443, 80]), vec![22, 80, 443]);
    assert!(distinct_ports(&Vec::new()).is_empty());
    let mut s = network_sample(1, 1);
    s.listening_ports = vec![8080, 8080];
    let n = network_section(Some(s), None, 0);
    assert_eq!(n.listening_ports, vec![8080]);
    assert_eq!(n.aggregate_rx_packets, 15000);
}

#[test]
fn interface_names_are_unique() {
    let mut s = network_sample(1, 1);
    s.interface_ips = vec![
        InterfaceAddresses { interface: "eth0".to_string(), ips: vec!["192.168.1.10".to_string()] },
        InterfaceAddresses { interface: "lo".to_string(), ips: vec!["127.0.0.1".to_string()] },
        InterfaceAddresses { interface: "eth0".to_string(), ips: vec!["10.0.0.2".to_string()] },
    ];
    let n = network_section(Some(s), None, 0);
    let names: Vec<&str> = n.interface_ips.iter().map(|i| i.interface.as_str()).collect();
    assert_eq!(names, vec!["eth0", "lo"]);
    assert_eq!(n.interface_ips[0].ips, vec!["192.168.1.10".to_string(), "10.0.0.2".to_string()]);
    assert_eq!(n.interface_ips[1].ips, vec!["127.0.0.1".to_string()]);
}

#[test]
fn timestamp_holds_at_its_limit() {
    let mut c = TelemetryCollector::new(1, 5);
    let _ = c.collect_telemetry(i64::MAX - 1, full_probes(1));
    let a = c.collect_telemetry(5, full_probes(2));
    assert_eq!(a.timestamp, i64::MAX);
    let b = c.collect_telemetry(7, full_probes(3));
    assert_eq!(b.timestamp, i64::MAX);
}
