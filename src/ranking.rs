//! Choosing the heads of the process table by CPU or by memory.
use vstd::prelude::*;
use crate::models::{ProcessInfo, ProcessStats};

verus! {

/// What the processes are ranked by.
#[derive(Clone, Copy, Debug, PartialEq, Eq, Structural)]
pub enum RankKey {
    Cpu,
    Memory,
}

pub open spec fn rank_value(key: RankKey, p: ProcessInfo) -> int {
    match key {
        RankKey::Cpu => p.cpu_usage as int,
        RankKey::Memory => p.mem_usage_kb as int,
    }
}

/// `a` ranks strictly ahead of `b`: a higher value, or an equal value and a lower pid.
pub open spec fn ranks_before(key: RankKey, a: ProcessInfo, b: ProcessInfo) -> bool {
    rank_value(key, a) > rank_value(key, b) || (rank_value(key, a) == rank_value(key, b) && a.pid
        < b.pid)
}

pub open spec fn min_len(n: usize, len: int) -> int {
    if (n as int) < len {
        n as int
    } else {
        len
    }
}

/// `idx` picks the first `min(n, |procs|)` processes in ranking order.
pub open spec fn is_top_selection(
    procs: Seq<ProcessInfo>,
    n: usize,
    key: RankKey,
    idx: Seq<usize>,
) -> bool {
    &&& idx.len() == min_len(n, procs.len() as int)
    &&& forall|a: int| 0 <= a < idx.len() ==> #[trigger] idx[a] < procs.len()
    &&& idx.no_duplicates()
    &&& forall|a: int, b: int|
        0 <= a < b < idx.len() ==> !ranks_before(key, #[trigger] procs[idx[b] as int], #[trigger] procs[idx[a] as int])
    &&& forall|m: int, a: int|
        0 <= m < procs.len() && 0 <= a < idx.len() && !idx.contains(m as usize) ==> !ranks_before(
            key,
            #[trigger] procs[m],
            #[trigger] procs[idx[a] as int],
        )
}

fn ranks_before_exec(key: RankKey, a: &ProcessInfo, b: &ProcessInfo) -> (r: bool)
    ensures
        r == ranks_before(key, *a, *b),
{
    match key {
        RankKey::Cpu => a.cpu_usage > b.cpu_usage || (a.cpu_usage == b.cpu_usage && a.pid < b.pid),
        RankKey::Memory => a.mem_usage_kb > b.mem_usage_kb || (a.mem_usage_kb == b.mem_usage_kb
            && a.pid < b.pid),
    }
}

/// Positions in `procs` of the `n` processes that rank first by `key`, in
/// ranking order; ties on the value go to the lower pid.
pub fn top_indices(procs: &Vec<ProcessInfo>, n: usize, key: RankKey) -> (idx: Vec<usize>)
    ensures
        is_top_selection(procs@, n, key, idx@),
{
    let len = procs.len();
    let limit: usize = if n < len { n } else { len };
    let mut idx: Vec<usize> = Vec::new();
    let mut rest: Vec<usize> = Vec::new();
    let mut i: usize = 0;
    while i < len
        invariant
            i <= len == procs@.len(),
            rest@.len() == i,
            forall|k: int| 0 <= k < i ==> #[trigger] rest@[k] == k,
        decreases len - i,
    {
        rest.push(i);
        i = i + 1;
    }
    assert forall|m: int| 0 <= m < len implies #[trigger] idx@.contains(m as usize) || rest@.contains(m as usize) by {
        assert(rest@[m] == m as usize);
    }
    while idx.len() < limit
        invariant
            len == procs@.len(),
            limit == min_len(n, len as int),
            idx@.len() <= limit,
            idx@.len() + rest@.len() == len,
            forall|a: int| 0 <= a < idx@.len() ==> #[trigger] idx@[a] < len,
            forall|k: int| 0 <= k < rest@.len() ==> #[trigger] rest@[k] < len,
            forall|m: int| 0 <= m < len ==> #[trigger] idx@.contains(m as usize) || rest@.contains(m as usize),
            idx@.no_duplicates(),
            rest@.no_duplicates(),
            forall|a: int, k: int|
                0 <= a < idx@.len() && 0 <= k < rest@.len() ==> #[trigger] idx@[a] != #[trigger] rest@[k],
            forall|a: int, b: int|
                0 <= a < b < idx@.len() ==> !ranks_before(key, #[trigger] procs@[idx@[b] as int], #[trigger] procs@[idx@[a] as int]),
            forall|k: int, a: int|
                0 <= k < rest@.len() && 0 <= a < idx@.len() ==> !ranks_before(
                    key,
                    #[trigger] procs@[rest@[k] as int],
                    #[trigger] procs@[idx@[a] as int],
                ),
        decreases limit - idx@.len(),
    {
        // the best of what is left
        let mut bpos: usize = 0;
        let mut j: usize = 1;
        while j < rest.len()
            invariant
                len == procs@.len(),
                0 < rest@.len(),
                bpos < j <= rest@.len(),
                forall|k: int| 0 <= k < rest@.len() ==> #[trigger] rest@[k] < len,
                forall|k: int|
                    0 <= k < j ==> !ranks_before(key, #[trigger] procs@[rest@[k] as int], procs@[rest@[bpos as int] as int]),
            decreases rest@.len() - j,
        {
            if ranks_before_exec(key, &procs[rest[j]], &procs[rest[bpos]]) {
                bpos = j;
            }
            j = j + 1;
        }
        let ghost before = rest@;
        let ghost idx_before = idx@;
        let chosen = rest.remove(bpos);
        assert(before[bpos as int] == chosen);
        assert forall|k: int| 0 <= k < rest@.len() implies #[trigger] rest@[k] == before[if k < bpos { k } else { k + 1 }] by {}
        idx.push(chosen);
        assert(idx@ == idx_before.push(chosen));
        assert forall|m: int| 0 <= m < len implies #[trigger] idx@.contains(m as usize) || rest@.contains(m as usize) by {
            if m == chosen {
                assert(idx@[idx@.len() - 1] == m as usize);
            } else if idx_before.contains(m as usize) {
                let a = choose|a: int| 0 <= a < idx_before.len() && idx_before[a] == m as usize;
                assert(idx@[a] == m as usize);
            } else {
                assert(before.contains(m as usize));
                let k = choose|k: int| 0 <= k < before.len() && before[k] == m as usize;
                if k < bpos {
                    assert(rest@[k] == m as usize);
                } else {
                    assert(k != bpos);
                    assert(rest@[k - 1] == m as usize);
                }
            }
        }
    }
    idx
}

fn copy_info(p: &ProcessInfo) -> (r: ProcessInfo)
    ensures
        r == *p,
{
    ProcessInfo {
        pid: p.pid,
        name: p.name.clone(),
        user: p.user.clone(),
        cpu_usage: p.cpu_usage,
        mem_usage_kb: p.mem_usage_kb,
    }
}

/// Whether `r` lists, in ranking order, the processes that `idx` picks.
pub open spec fn picks(procs: Seq<ProcessInfo>, idx: Seq<usize>, r: Seq<ProcessInfo>) -> bool {
    &&& r.len() == idx.len()
    &&& forall|k: int| 0 <= k < r.len() ==> #[trigger] r[k] == procs[idx[k] as int]
}

/// The `n` processes that rank first by `key`, highest first; ties on the
/// value go to the lower pid.
pub fn top_processes(procs: &Vec<ProcessInfo>, n: usize, key: RankKey) -> (r: Vec<ProcessInfo>)
    ensures
        exists|idx: Seq<usize>| is_top_selection(procs@, n, key, idx) && picks(procs@, idx, r@),
{
    let idx = top_indices(procs, n, key);
    let mut r: Vec<ProcessInfo> = Vec::new();
    let mut k: usize = 0;
    while k < idx.len()
        invariant
            is_top_selection(procs@, n, key, idx@),
            k <= idx@.len(),
            r@.len() == k,
            forall|j: int| 0 <= j < k ==> #[trigger] r@[j] == procs@[idx@[j] as int],
        decreases idx@.len() - k,
    {
        r.push(copy_info(&procs[idx[k]]));
        k = k + 1;
    }
    assert(picks(procs@, idx@, r@));
    r
}

/// Scheduling state of a process.
#[derive(Clone, Copy, Debug, PartialEq, Eq, Structural)]
pub enum ProcessState {
    Running,
    Sleeping,
    Zombie,
    Other,
}

/// One row of the process table as enumerated, with its state.
#[derive(Clone, Debug)]
pub struct ProcessSample {
    pub info: ProcessInfo,
    pub state: ProcessState,
}

pub open spec fn count_state(samples: Seq<ProcessSample>, st: ProcessState) -> nat
    decreases samples.len(),
{
    if samples.len() == 0 {
        0
    } else {
        count_state(samples.drop_last(), st) + if samples.last().state == st {
            1nat
        } else {
            0nat
        }
    }
}

pub open spec fn infos_of(samples: Seq<ProcessSample>) -> Seq<ProcessInfo> {
    samples.map_values(|s: ProcessSample| s.info)
}

/// A count as a `u32`, saturating.
pub open spec fn sat_u32(n: nat) -> u32 {
    if n <= u32::MAX {
        n as u32
    } else {
        u32::MAX
    }
}

fn bump(c: u32) -> (r: u32)
    ensures
        r == sat_u32((c + 1) as nat),
{
    if c < u32::MAX {
        c + 1
    } else {
        c
    }
}

/// Counts the process table by state (counts saturate at `u32::MAX`) and
/// ranks its rows by CPU and by memory, keeping `top_n` of each.
pub fn process_stats(samples: &Vec<ProcessSample>, top_n: usize) -> (r: ProcessStats)
    ensures
        r.total_count == sat_u32(samples@.len()),
        r.running_count == sat_u32(count_state(samples@, ProcessState::Running)),
        r.sleeping_count == sat_u32(count_state(samples@, ProcessState::Sleeping)),
        r.zombie_count == sat_u32(count_state(samples@, ProcessState::Zombie)),
        exists|idx: Seq<usize>|
            is_top_selection(infos_of(samples@), top_n, RankKey::Cpu, idx) && picks(
                infos_of(samples@),
                idx,
                r.top_cpu@,
            ),
        exists|idx: Seq<usize>|
            is_top_selection(infos_of(samples@), top_n, RankKey::Memory, idx) && picks(
                infos_of(samples@),
                idx,
                r.top_memory@,
            ),
{
    let mut infos: Vec<ProcessInfo> = Vec::new();
    let mut running: u32 = 0;
    let mut sleeping: u32 = 0;
    let mut zombie: u32 = 0;
    let mut i: usize = 0;
    while i < samples.len()
        invariant
            i <= samples@.len(),
            infos@ == infos_of(samples@.subrange(0, i as int)),
            running == sat_u32(count_state(samples@.subrange(0, i as int), ProcessState::Running)),
            sleeping == sat_u32(count_state(samples@.subrange(0, i as int), ProcessState::Sleeping)),
            zombie == sat_u32(count_state(samples@.subrange(0, i as int), ProcessState::Zombie)),
        decreases samples@.len() - i,
    {
        let ghost pre = samples@.subrange(0, i as int);
        let ghost post = samples@.subrange(0, i as int + 1);
        assert(post.drop_last() =~= pre);
        let s = &samples[i];
        match s.state {
            ProcessState::Running => { running = bump(running); },
            ProcessState::Sleeping => { sleeping = bump(sleeping); },
            ProcessState::Zombie => { zombie = bump(zombie); },
            ProcessState::Other => {},
        }
        infos.push(copy_info(&s.info));
        assert(infos@ =~= infos_of(post));
        i = i + 1;
    }
    assert(samples@.subrange(0, samples@.len() as int) =~= samples@);
    let top_cpu = top_processes(&infos, top_n, RankKey::Cpu);
    let top_memory = top_processes(&infos, top_n, RankKey::Memory);
    ProcessStats {
        total_count: if samples.len() <= u32::MAX as usize { samples.len() as u32 } else { u32::MAX },
        running_count: running,
        sleeping_count: sleeping,
        zombie_count: zombie,
        top_cpu,
        top_memory,
    }
}

} // verus!
