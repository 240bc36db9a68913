//! Building each report section from what its probe returned.
use vstd::prelude::*;
use crate::models::{CpuStats, InterfaceAddresses, NetworkStats, PartitionInfo, StorageStats};

verus! {

/// Hundredths of a percent in a whole.
pub const FULL_PCT: u32 = 10000;

/// Per-second rate of a cumulative counter over `elapsed_ms` milliseconds:
/// zero when no time has passed or the counter went back (a reset), and
/// saturating at `u64::MAX`.
pub open spec fn rate_spec(prev: u64, cur: u64, elapsed_ms: u64) -> u64 {
    if elapsed_ms == 0 || cur < prev {
        0
    } else if (cur - prev) * 1000 / (elapsed_ms as int) <= u64::MAX {
        ((cur - prev) * 1000 / (elapsed_ms as int)) as u64
    } else {
        u64::MAX
    }
}

pub fn rate_per_sec(prev: u64, cur: u64, elapsed_ms: u64) -> (r: u64)
    ensures
        r == rate_spec(prev, cur, elapsed_ms),
{
    if elapsed_ms == 0 || cur < prev {
        return 0;
    }
    let delta: u128 = (cur - prev) as u128;
    let scaled: u128 = delta * 1000;
    let q: u128 = scaled / (elapsed_ms as u128);
    if q <= u64::MAX as u128 {
        q as u64
    } else {
        u64::MAX
    }
}

/// The rate of a counter given the previous tick's value, if there was one.
pub open spec fn opt_rate_spec(prev: Option<u64>, cur: u64, elapsed_ms: u64) -> u64 {
    match prev {
        Some(p) => rate_spec(p, cur, elapsed_ms),
        None => 0,
    }
}

pub fn opt_rate(prev: Option<u64>, cur: u64, elapsed_ms: u64) -> (r: u64)
    ensures
        r == opt_rate_spec(prev, cur, elapsed_ms),
{
    match prev {
        Some(p) => rate_per_sec(p, cur, elapsed_ms),
        None => 0,
    }
}

pub open spec fn clamp_pct(v: u32) -> u32 {
    if v <= FULL_PCT {
        v
    } else {
        FULL_PCT
    }
}

fn clamp_pct_exec(v: u32) -> (r: u32)
    ensures
        r == clamp_pct(v),
{
    if v <= FULL_PCT {
        v
    } else {
        FULL_PCT
    }
}

/// Raw CPU readings of one tick.
#[derive(Clone, Debug)]
pub struct CpuSample {
    pub usage_total_pct: u32,
    pub load_avg: [u64; 3],
    pub threads_usage: Vec<u32>,
    pub threads_freq_mhz: Vec<u32>,
    /// Interrupts since boot.
    pub interrupts_total: u64,
    pub io_wait_time: u32,
    pub idle_time: u64,
    pub voltage_vcore: u32,
}

/// Every percentage of the section lies in `[0, 100 %]` and there is one
/// per-core entry for each of `cores` cores.
pub open spec fn cpu_well_formed(c: CpuStats, cores: usize) -> bool {
    &&& c.usage_total_pct <= FULL_PCT
    &&& c.io_wait_time <= FULL_PCT
    &&& c.threads_usage@.len() == cores
    &&& c.threads_freq_mhz@.len() == cores
    &&& forall|i: int| 0 <= i < cores ==> #[trigger] c.threads_usage@[i] <= FULL_PCT
}

/// `v` holds `raw` cut or padded with zeros to `cores` entries, each clamped to
/// `[0, 100 %]` where `clamp` is set.
pub open spec fn fitted(raw: Seq<u32>, cores: usize, v: Seq<u32>, clamp: bool) -> bool {
    &&& v.len() == cores
    &&& forall|i: int|
        0 <= i < cores ==> #[trigger] v[i] == if i < raw.len() {
            if clamp {
                clamp_pct(raw[i])
            } else {
                raw[i]
            }
        } else {
            0
        }
}

fn fit_per_core(raw: &Vec<u32>, cores: usize, clamp: bool) -> (v: Vec<u32>)
    ensures
        fitted(raw@, cores, v@, clamp),
{
    let mut v: Vec<u32> = Vec::new();
    let mut i: usize = 0;
    while i < cores
        invariant
            i <= cores,
            v@.len() == i,
            forall|k: int|
                0 <= k < i ==> #[trigger] v@[k] == if k < raw@.len() {
                    if clamp {
                        clamp_pct(raw@[k])
                    } else {
                        raw@[k]
                    }
                } else {
                    0
                },
        decreases cores - i,
    {
        if i < raw.len() {
            if clamp {
                v.push(clamp_pct_exec(raw[i]));
            } else {
                v.push(raw[i]);
            }
        } else {
            v.push(0);
        }
        i = i + 1;
    }
    v
}

/// What the CPU section holds, given the probe's result, the interrupt count
/// of the previous tick and the time since it.
pub open spec fn cpu_section_spec(
    c: CpuStats,
    cores: usize,
    sample: Option<CpuSample>,
    prev_interrupts: Option<u64>,
    elapsed_ms: u64,
) -> bool {
    match sample {
        Some(s) => {
            &&& c.usage_total_pct == clamp_pct(s.usage_total_pct)
            &&& c.load_avg == s.load_avg
            &&& fitted(s.threads_usage@, cores, c.threads_usage@, true)
            &&& fitted(s.threads_freq_mhz@, cores, c.threads_freq_mhz@, false)
            &&& c.interrupts_sec == opt_rate_spec(prev_interrupts, s.interrupts_total, elapsed_ms)
            &&& c.io_wait_time == clamp_pct(s.io_wait_time)
            &&& c.idle_time == s.idle_time
            &&& c.voltage_vcore == s.voltage_vcore
        },
        None => {
            &&& c.usage_total_pct == 0
            &&& c.load_avg@ == seq![0u64, 0u64, 0u64]
            &&& fitted(Seq::empty(), cores, c.threads_usage@, true)
            &&& fitted(Seq::empty(), cores, c.threads_freq_mhz@, false)
            &&& c.interrupts_sec == 0
            &&& c.io_wait_time == 0
            &&& c.idle_time == 0
            &&& c.voltage_vcore == 0
        },
    }
}

pub fn cpu_section(
    cores: usize,
    sample: Option<CpuSample>,
    prev_interrupts: Option<u64>,
    elapsed_ms: u64,
) -> (c: CpuStats)
    ensures
        cpu_section_spec(c, cores, sample, prev_interrupts, elapsed_ms),
        cpu_well_formed(c, cores),
{
    match sample {
        Some(s) => {
            let threads_usage = fit_per_core(&s.threads_usage, cores, true);
            let threads_freq_mhz = fit_per_core(&s.threads_freq_mhz, cores, false);
            CpuStats {
                usage_total_pct: clamp_pct_exec(s.usage_total_pct),
                load_avg: s.load_avg,
                threads_usage,
                interrupts_sec: opt_rate(prev_interrupts, s.interrupts_total, elapsed_ms),
                io_wait_time: clamp_pct_exec(s.io_wait_time),
                idle_time: s.idle_time,
                threads_freq_mhz,
                voltage_vcore: s.voltage_vcore,
            }
        },
        None => {
            let none: Vec<u32> = Vec::new();
            let threads_usage = fit_per_core(&none, cores, true);
            let threads_freq_mhz = fit_per_core(&none, cores, false);
            assert(none@ =~= Seq::<u32>::empty());
            let load_avg: [u64; 3] = [0u64; 3];
            assert(load_avg@ =~= seq![0u64, 0u64, 0u64]);
            CpuStats {
                usage_total_pct: 0,
                load_avg,
                threads_usage,
                interrupts_sec: 0,
                io_wait_time: 0,
                idle_time: 0,
                threads_freq_mhz,
                voltage_vcore: 0,
            }
        },
    }
}

/// Raw network readings of one tick; the byte counters count since boot.
#[derive(Clone, Debug)]
pub struct NetworkSample {
    pub rx_bytes: u64,
    pub tx_bytes: u64,
    pub rx_packets: u64,
    pub tx_packets: u64,
    pub errors: u64,
    pub drops: u64,
    pub interface_ips: Vec<InterfaceAddresses>,
    pub tcp_active_connections: u32,
    pub tcp_time_wait_connections: u32,
    pub listening_ports: Vec<u16>,
}

/// The ports of `s`, each once, in order of first occurrence.
pub open spec fn first_occurrences(s: Seq<u16>) -> Seq<u16>
    decreases s.len(),
{
    if s.len() == 0 {
        Seq::empty()
    } else {
        let r = first_occurrences(s.drop_last());
        if r.contains(s.last()) {
            r
        } else {
            r.push(s.last())
        }
    }
}

/// The distinct ports among `ports`, each once, in order of first occurrence.
pub fn distinct_ports(ports: &Vec<u16>) -> (r: Vec<u16>)
    ensures
        r@ == first_occurrences(ports@),
        r@.no_duplicates(),
        forall|p: u16| r@.contains(p) <==> ports@.contains(p),
{
    let mut r: Vec<u16> = Vec::new();
    let mut i: usize = 0;
    while i < ports.len()
        invariant
            i <= ports@.len(),
            r@ == first_occurrences(ports@.subrange(0, i as int)),
            r@.no_duplicates(),
            forall|p: u16| r@.contains(p) <==> ports@.subrange(0, i as int).contains(p),
        decreases ports@.len() - i,
    {
        let p = ports[i];
        let mut j: usize = 0;
        let mut seen = false;
        while j < r.len()
            invariant
                j <= r@.len(),
                seen <==> exists|k: int| 0 <= k < j && #[trigger] r@[k] == p,
            decreases r@.len() - j,
        {
            if r[j] == p {
                seen = true;
            }
            j = j + 1;
        }
        assert(seen <==> r@.contains(p));
        let ghost pre = ports@.subrange(0, i as int);
        let ghost post = ports@.subrange(0, i as int + 1);
        assert(post =~= pre.push(p));
        assert(post.drop_last() =~= pre);
        if !seen {
            let ghost old_r = r@;
            r.push(p);
            assert forall|a: int, b: int| 0 <= a < b < r@.len() implies r@[a] != r@[b] by {
                if b == r@.len() - 1 {
                    assert(old_r.contains(r@[a]));
                }
            }
            assert forall|q: u16| r@.contains(q) <==> post.contains(q) by {
                if r@.contains(q) && q != p {
                    let k = choose|k: int| 0 <= k < r@.len() && r@[k] == q;
                    assert(old_r[k] == q);
                }
                if old_r.contains(q) {
                    let k = choose|k: int| 0 <= k < old_r.len() && old_r[k] == q;
                    assert(r@[k] == q);
                }
                if q == p {
                    assert(r@[r@.len() - 1] == q);
                    assert(post[i as int] == q);
                }
                if post.contains(q) && q != p {
                    let k = choose|k: int| 0 <= k < post.len() && post[k] == q;
                    assert(pre[k] == q);
                }
                if pre.contains(q) {
                    let k = choose|k: int| 0 <= k < pre.len() && pre[k] == q;
                    assert(post[k] == q);
                }
            }
        } else {
            assert forall|q: u16| r@.contains(q) <==> post.contains(q) by {
                if post.contains(q) && q != p {
                    let k = choose|k: int| 0 <= k < post.len() && post[k] == q;
                    assert(pre[k] == q);
                }
                if pre.contains(q) {
                    let k = choose|k: int| 0 <= k < pre.len() && pre[k] == q;
                    assert(post[k] == q);
                }
                if q == p {
                    assert(post[i as int] == q);
                }
            }
        }
        i = i + 1;
    }
    assert(ports@.subrange(0, ports@.len() as int) =~= ports@);
    r
}

/// The interface names of `v`, each once, in order of first occurrence.
pub open spec fn interface_names(v: Seq<InterfaceAddresses>) -> Seq<Seq<char>>
    decreases v.len(),
{
    if v.len() == 0 {
        Seq::empty()
    } else {
        let r = interface_names(v.drop_last());
        if r.contains(v.last().interface@) {
            r
        } else {
            r.push(v.last().interface@)
        }
    }
}

/// The addresses that the entries of `v` named `name` list, in order.
pub open spec fn addresses_of(v: Seq<InterfaceAddresses>, name: Seq<char>) -> Seq<String>
    decreases v.len(),
{
    if v.len() == 0 {
        Seq::empty()
    } else {
        addresses_of(v.drop_last(), name) + if v.last().interface@ == name {
            v.last().ips@
        } else {
            Seq::empty()
        }
    }
}

/// `r` has one entry per interface name of `v`, in order of first
/// occurrence, holding every address that `v` lists under that name.
pub open spec fn merged_interfaces(v: Seq<InterfaceAddresses>, r: Seq<InterfaceAddresses>) -> bool {
    &&& r.len() == interface_names(v).len()
    &&& forall|a: int, b: int|
        0 <= a < b < r.len() ==> (#[trigger] r[a]).interface@ != (#[trigger] r[b]).interface@
    &&& forall|k: int|
        0 <= k < r.len() ==> (#[trigger] r[k]).interface@ == interface_names(v)[k] && r[k].ips@
            == addresses_of(v, r[k].interface@)
}

proof fn lemma_addresses_of_absent(v: Seq<InterfaceAddresses>, name: Seq<char>)
    requires
        !interface_names(v).contains(name),
    ensures
        addresses_of(v, name) == Seq::<String>::empty(),
    decreases v.len(),
{
    if v.len() > 0 {
        let r = interface_names(v.drop_last());
        if !r.contains(v.last().interface@) {
            assert(interface_names(v)[r.len() as int] == v.last().interface@);
        }
        assert forall|k: int| 0 <= k < r.len() implies r[k] != name by {
            assert(interface_names(v)[k] == r[k]);
        }
        lemma_addresses_of_absent(v.drop_last(), name);
        assert(addresses_of(v, name) =~= Seq::<String>::empty());
    }
}

proof fn lemma_merge_step(
    pre: Seq<InterfaceAddresses>,
    e: InterfaceAddresses,
    old_r: Seq<InterfaceAddresses>,
    found: Option<int>,
    r: Seq<InterfaceAddresses>,
)
    requires
        merged_interfaces(pre, old_r),
        match found {
            Some(j) => 0 <= j < old_r.len() && old_r[j].interface@ == e.interface@ && r.len()
                == old_r.len() && r[j].interface == old_r[j].interface && r[j].ips@ == old_r[j].ips@
                + e.ips@ && forall|k: int| 0 <= k < r.len() && k != j ==> r[k] == old_r[k],
            None => (forall|k: int| 0 <= k < old_r.len() ==> (#[trigger] old_r[k]).interface@ != e.interface@)
                && r == old_r.push(e),
        },
    ensures
        merged_interfaces(pre.push(e), r),
{
    let post = pre.push(e);
    assert(post.drop_last() =~= pre);
    let names = interface_names(pre);
    match found {
        Some(j) => {
            assert(names.contains(e.interface@)) by {
                assert(names[j] == e.interface@);
            }
            assert(interface_names(post) == names);
            assert forall|k: int| 0 <= k < r.len() implies (#[trigger] r[k]).interface@
                == interface_names(post)[k] && r[k].ips@ == addresses_of(post, r[k].interface@) by {
                assert(addresses_of(post, r[k].interface@) == addresses_of(pre, r[k].interface@) + if e.interface@ == r[k].interface@ {
                    e.ips@
                } else {
                    Seq::empty()
                });
                if k != j {
                    assert(r[k] == old_r[k]);
                    assert(old_r[k].interface@ != old_r[j].interface@);
                    assert(addresses_of(pre, r[k].interface@) + Seq::<String>::empty() =~= addresses_of(pre, r[k].interface@));
                }
            }
            assert forall|a: int, b: int| 0 <= a < b < r.len() implies (#[trigger] r[a]).interface@
                != (#[trigger] r[b]).interface@ by {
                assert(r[a].interface@ == old_r[a].interface@);
                assert(r[b].interface@ == old_r[b].interface@);
            }
        },
        None => {
            assert(!names.contains(e.interface@)) by {
                if names.contains(e.interface@) {
                    let k = choose|k: int| 0 <= k < names.len() && names[k] == e.interface@;
                    assert(old_r[k].interface@ == e.interface@);
                }
            }
            lemma_addresses_of_absent(pre, e.interface@);
            assert(interface_names(post) == names.push(e.interface@));
            assert forall|k: int| 0 <= k < r.len() implies (#[trigger] r[k]).interface@
                == interface_names(post)[k] && r[k].ips@ == addresses_of(post, r[k].interface@) by {
                if k < old_r.len() {
                    assert(r[k] == old_r[k]);
                    assert(names[k] != e.interface@) by {
                        assert(old_r[k].interface@ == names[k]);
                    }
                    assert(addresses_of(post, r[k].interface@) =~= addresses_of(pre, r[k].interface@));
                } else {
                    assert(r[k] == e);
                    assert(addresses_of(pre, e.interface@) + e.ips@ =~= e.ips@);
                }
            }
            assert forall|a: int, b: int| 0 <= a < b < r.len() implies (#[trigger] r[a]).interface@
                != (#[trigger] r[b]).interface@ by {
                if b < old_r.len() {
                    assert(r[a] == old_r[a] && r[b] == old_r[b]);
                } else {
                    assert(r[a] == old_r[a]);
                }
            }
        },
    }
}

/// Merges the entries of each interface name into one, in order of first
/// occurrence, keeping every address under its name.
pub fn unique_interface_ips(v: Vec<InterfaceAddresses>) -> (r: Vec<InterfaceAddresses>)
    ensures
        merged_interfaces(v@, r@),
{
    let ghost orig = v@;
    let mut rest = v;
    let mut r: Vec<InterfaceAddresses> = Vec::new();
    let mut i: usize = 0;
    let n = rest.len();
    while rest.len() > 0
        invariant
            n == orig.len(),
            i + rest@.len() == orig.len(),
            rest@ == orig.subrange(i as int, orig.len() as int),
            merged_interfaces(orig.subrange(0, i as int), r@),
        decreases rest@.len(),
    {
        let ghost pre = orig.subrange(0, i as int);
        let ghost post = orig.subrange(0, i as int + 1);
        let e = rest.remove(0);
        assert(e == orig[i as int]);
        assert(rest@ =~= orig.subrange(i as int + 1, orig.len() as int));
        assert(post =~= pre.push(e));
        let mut j: usize = 0;
        let mut found: Option<usize> = None;
        while j < r.len() && found.is_none()
            invariant
                j <= r@.len(),
                found matches Some(f) ==> f < r@.len() && r@[f as int].interface@ == e.interface@,
                found is None ==> forall|k: int| 0 <= k < j ==> (#[trigger] r@[k]).interface@ != e.interface@,
            decreases r@.len() - j,
        {
            if str_equal(r[j].interface.as_str(), e.interface.as_str()) {
                found = Some(j);
            }
            j = j + 1;
        }
        let ghost old_r = r@;
        match found {
            Some(f) => {
                let mut entry = r.remove(f);
                let InterfaceAddresses { interface: _, ips: mut extra } = e;
                entry.ips.append(&mut extra);
                r.insert(f, entry);
                proof {
                    assert(r@.len() == old_r.len());
                    assert(forall|k: int| 0 <= k < r@.len() && k != f ==> r@[k] == old_r[k]);
                    lemma_merge_step(pre, orig[i as int], old_r, Some(f as int), r@);
                }
            },
            None => {
                r.push(e);
                proof {
                    lemma_merge_step(pre, e, old_r, None, r@);
                }
            },
        }
        i = i + 1;
    }
    assert(orig.subrange(0, orig.len() as int) =~= orig);
    r
}

/// Byte counters of the previous tick: received, sent.
#[derive(Clone, Copy, Debug, PartialEq, Eq, Structural)]
pub struct NetworkCounters {
    pub rx_bytes: u64,
    pub tx_bytes: u64,
}

pub open spec fn network_section_spec(
    n: NetworkStats,
    sample: Option<NetworkSample>,
    prev: Option<NetworkCounters>,
    elapsed_ms: u64,
) -> bool {
    match sample {
        Some(s) => {
            &&& n.aggregate_rx_bytes_sec == match prev {
                Some(p) => rate_spec(p.rx_bytes, s.rx_bytes, elapsed_ms),
                None => 0,
            }
            &&& n.aggregate_tx_bytes_sec == match prev {
                Some(p) => rate_spec(p.tx_bytes, s.tx_bytes, elapsed_ms),
                None => 0,
            }
            &&& n.aggregate_rx_packets == s.rx_packets
            &&& n.aggregate_tx_packets == s.tx_packets
            &&& n.total_errors == s.errors
            &&& n.total_drops == s.drops
            &&& merged_interfaces(s.interface_ips@, n.interface_ips@)
            &&& n.tcp_active_connections == s.tcp_active_connections
            &&& n.tcp_time_wait_connections == s.tcp_time_wait_connections
            &&& n.listening_ports@ == first_occurrences(s.listening_ports@)
        },
        None => {
            &&& n.aggregate_rx_bytes_sec == 0
            &&& n.aggregate_tx_bytes_sec == 0
            &&& n.aggregate_rx_packets == 0
            &&& n.aggregate_tx_packets == 0
            &&& n.total_errors == 0
            &&& n.total_drops == 0
            &&& n.interface_ips@.len() == 0
            &&& n.tcp_active_connections == 0
            &&& n.tcp_time_wait_connections == 0
            &&& n.listening_ports@.len() == 0
        },
    }
}

pub fn network_section(sample: Option<NetworkSample>, prev: Option<NetworkCounters>, elapsed_ms: u64) -> (n: NetworkStats)
    ensures
        network_section_spec(n, sample, prev, elapsed_ms),
{
    match sample {
        Some(s) => {
            let (rx, tx) = match prev {
                Some(p) => (rate_per_sec(p.rx_bytes, s.rx_bytes, elapsed_ms), rate_per_sec(p.tx_bytes, s.tx_bytes, elapsed_ms)),
                None => (0, 0),
            };
            NetworkStats {
                aggregate_rx_bytes_sec: rx,
                aggregate_tx_bytes_sec: tx,
                aggregate_rx_packets: s.rx_packets,
                aggregate_tx_packets: s.tx_packets,
                total_errors: s.errors,
                total_drops: s.drops,
                interface_ips: unique_interface_ips(s.interface_ips),
                tcp_active_connections: s.tcp_active_connections,
                tcp_time_wait_connections: s.tcp_time_wait_connections,
                listening_ports: distinct_ports(&s.listening_ports),
            }
        },
        None => NetworkStats {
            aggregate_rx_bytes_sec: 0,
            aggregate_tx_bytes_sec: 0,
            aggregate_rx_packets: 0,
            aggregate_tx_packets: 0,
            total_errors: 0,
            total_drops: 0,
            interface_ips: Vec::new(),
            tcp_active_connections: 0,
            tcp_time_wait_connections: 0,
            listening_ports: Vec::new(),
        },
    }
}

/// Used share of a filesystem in hundredths of a percent; zero for an empty one.
pub open spec fn usage_pct_spec(free: u64, total: u64) -> u32 {
    if total == 0 {
        0
    } else {
        let used = if free <= total { total - free } else { 0 };
        (used * 10000 / (total as int)) as u32
    }
}

/// A partition's figures, with the free space taken as at most the total.
pub fn partition_info(mount_point: String, free: u64, total: u64) -> (p: PartitionInfo)
    ensures
        p.mount_point == mount_point,
        p.total_bytes == total,
        p.free_bytes == if free <= total { free } else { total },
        p.usage_pct == usage_pct_spec(free, total),
        p.usage_pct <= FULL_PCT,
{
    let free_bytes = if free <= total { free } else { total };
    let usage: u32 = if total == 0 {
        0
    } else {
        let used: u128 = (total - free_bytes) as u128;
        let q: u128 = used * 10000 / (total as u128);
        assert(used * 10000 / (total as int) <= 10000) by (nonlinear_arith)
            requires
                used <= total,
                total > 0,
        ;
        q as u32
    };
    PartitionInfo { mount_point, usage_pct: usage, free_bytes, total_bytes: total }
}

/// One mounted filesystem as enumerated.
#[derive(Clone, Debug)]
pub struct MountSample {
    pub mount_point: String,
    pub fs_type: String,
    pub free_bytes: u64,
    pub total_bytes: u64,
}

/// Raw storage readings of one tick; the I/O counters count since boot.
#[derive(Clone, Debug)]
pub struct StorageSample {
    pub mounts: Vec<MountSample>,
    pub read_bytes: u64,
    pub write_bytes: u64,
    pub read_ops: u64,
    pub write_ops: u64,
    pub io_latency_us: u64,
}

/// I/O counters of the previous tick.
#[derive(Clone, Copy, Debug, PartialEq, Eq, Structural)]
pub struct StorageCounters {
    pub read_bytes: u64,
    pub write_bytes: u64,
    pub read_ops: u64,
    pub write_ops: u64,
}

/// Whether two strings hold the same characters.
pub fn str_equal(a: &str, b: &str) -> (r: bool)
    ensures
        r == (a@ == b@),
{
    let n = a.unicode_len();
    if n != b.unicode_len() {
        return false;
    }
    let mut i: usize = 0;
    while i < n
        invariant
            n == a@.len() == b@.len(),
            i <= n,
            forall|k: int| 0 <= k < i ==> a@[k] == b@[k],
        decreases n - i,
    {
        if a.get_char(i) != b.get_char(i) {
            return false;
        }
        i = i + 1;
    }
    assert(a@ =~= b@);
    true
}

/// Filesystem types that the kernel provides without a device behind them.
pub open spec fn is_pseudo_fs(t: Seq<char>) -> bool {
    t == "proc"@ || t == "sysfs"@ || t == "devtmpfs"@ || t == "devpts"@ || t == "tmpfs"@ || t
        == "cgroup"@ || t == "cgroup2"@ || t == "securityfs"@ || t == "debugfs"@ || t
        == "tracefs"@ || t == "pstore"@ || t == "bpf"@ || t == "configfs"@ || t == "fusectl"@
        || t == "mqueue"@ || t == "hugetlbfs"@ || t == "autofs"@ || t == "binfmt_misc"@ || t
        == "efivarfs"@ || t == "squashfs"@
}

pub fn is_pseudo_filesystem(t: &str) -> (r: bool)
    ensures
        r == is_pseudo_fs(t@),
{
    str_equal(t, "proc") || str_equal(t, "sysfs") || str_equal(t, "devtmpfs") || str_equal(
        t,
        "devpts",
    ) || str_equal(t, "tmpfs") || str_equal(t, "cgroup") || str_equal(t, "cgroup2") || str_equal(
        t,
        "securityfs",
    ) || str_equal(t, "debugfs") || str_equal(t, "tracefs") || str_equal(t, "pstore")
        || str_equal(t, "bpf") || str_equal(t, "configfs") || str_equal(t, "fusectl") || str_equal(
        t,
        "mqueue",
    ) || str_equal(t, "hugetlbfs") || str_equal(t, "autofs") || str_equal(t, "binfmt_misc")
        || str_equal(t, "efivarfs") || str_equal(t, "squashfs")
}

/// The mounts that carry a real filesystem, in their order.
pub open spec fn real_mounts(ms: Seq<MountSample>) -> Seq<MountSample>
    decreases ms.len(),
{
    if ms.len() == 0 {
        Seq::empty()
    } else {
        let r = real_mounts(ms.drop_last());
        if is_pseudo_fs(ms.last().fs_type@) {
            r
        } else {
            r.push(ms.last())
        }
    }
}

pub open spec fn partition_of(m: MountSample, p: PartitionInfo) -> bool {
    &&& p.mount_point == m.mount_point
    &&& p.total_bytes == m.total_bytes
    &&& p.free_bytes == if m.free_bytes <= m.total_bytes {
        m.free_bytes
    } else {
        m.total_bytes
    }
    &&& p.usage_pct == usage_pct_spec(m.free_bytes, m.total_bytes)
}

/// One partition per real filesystem among `ms`, in order.
pub open spec fn partitions_of(ms: Seq<MountSample>, ps: Seq<PartitionInfo>) -> bool {
    &&& ps.len() == real_mounts(ms).len()
    &&& forall|k: int| 0 <= k < ps.len() ==> partition_of(real_mounts(ms)[k], #[trigger] ps[k])
}

pub fn partitions(ms: &Vec<MountSample>) -> (ps: Vec<PartitionInfo>)
    ensures
        partitions_of(ms@, ps@),
        forall|k: int| 0 <= k < ps@.len() ==> #[trigger] ps@[k].usage_pct <= FULL_PCT,
{
    let mut ps: Vec<PartitionInfo> = Vec::new();
    let mut i: usize = 0;
    while i < ms.len()
        invariant
            i <= ms@.len(),
            partitions_of(ms@.subrange(0, i as int), ps@),
            forall|k: int| 0 <= k < ps@.len() ==> #[trigger] ps@[k].usage_pct <= FULL_PCT,
        decreases ms@.len() - i,
    {
        let ghost pre = ms@.subrange(0, i as int);
        let ghost post = ms@.subrange(0, i as int + 1);
        assert(post.drop_last() =~= pre);
        let m = &ms[i];
        if !is_pseudo_filesystem(m.fs_type.as_str()) {
            let p = partition_info(m.mount_point.clone(), m.free_bytes, m.total_bytes);
            ps.push(p);
            assert(real_mounts(post) == real_mounts(pre).push(*m));
        }
        i = i + 1;
    }
    assert(ms@.subrange(0, ms@.len() as int) =~= ms@);
    ps
}

pub open spec fn storage_section_spec(
    st: StorageStats,
    sample: Option<StorageSample>,
    prev: Option<StorageCounters>,
    elapsed_ms: u64,
) -> bool {
    match sample {
        Some(s) => {
            &&& partitions_of(s.mounts@, st.partitions@)
            &&& st.total_read_bytes_sec == match prev {
                Some(p) => rate_spec(p.read_bytes, s.read_bytes, elapsed_ms),
                None => 0,
            }
            &&& st.total_write_bytes_sec == match prev {
                Some(p) => rate_spec(p.write_bytes, s.write_bytes, elapsed_ms),
                None => 0,
            }
            &&& st.total_read_iops == match prev {
                Some(p) => rate_spec(p.read_ops, s.read_ops, elapsed_ms),
                None => 0,
            }
            &&& st.total_write_iops == match prev {
                Some(p) => rate_spec(p.write_ops, s.write_ops, elapsed_ms),
                None => 0,
            }
            &&& st.io_latency_us == s.io_latency_us
        },
        None => {
            &&& st.partitions@.len() == 0
            &&& st.total_read_bytes_sec == 0
            &&& st.total_write_bytes_sec == 0
            &&& st.total_read_iops == 0
            &&& st.total_write_iops == 0
            &&& st.io_latency_us == 0
        },
    }
}

pub fn storage_section(sample: Option<StorageSample>, prev: Option<StorageCounters>, elapsed_ms: u64) -> (st: StorageStats)
    ensures
        storage_section_spec(st, sample, prev, elapsed_ms),
        forall|k: int| 0 <= k < st.partitions@.len() ==> #[trigger] st.partitions@[k].usage_pct <= FULL_PCT,
{
    match sample {
        Some(s) => {
            let parts = partitions(&s.mounts);
            let (rb, wb, ro, wo) = match prev {
                Some(p) => (
                    rate_per_sec(p.read_bytes, s.read_bytes, elapsed_ms),
                    rate_per_sec(p.write_bytes, s.write_bytes, elapsed_ms),
                    rate_per_sec(p.read_ops, s.read_ops, elapsed_ms),
                    rate_per_sec(p.write_ops, s.write_ops, elapsed_ms),
                ),
                None => (0, 0, 0, 0),
            };
            StorageStats {
                partitions: parts,
                total_read_bytes_sec: rb,
                total_write_bytes_sec: wb,
                total_read_iops: ro,
                total_write_iops: wo,
                io_latency_us: s.io_latency_us,
            }
        },
        None => StorageStats {
            partitions: Vec::new(),
            total_read_bytes_sec: 0,
            total_write_bytes_sec: 0,
            total_read_iops: 0,
            total_write_iops: 0,
            io_latency_us: 0,
        },
    }
}

} // verus!
