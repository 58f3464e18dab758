//! CPU sampler: owns a handle to the host metrics subsystem and keeps the
//! latest snapshot of per-core usage and memory counters.
//!
//! Per-core usage is stored in tenths of a percent, clamped to the 0–100%
//! range the data model promises. Each refresh is an independent best-effort
//! query: if the host reports no cores, the snapshot is simply empty and the
//! aggregate average is zero.

use vstd::prelude::*;

use sysinfo::System;

verus! {

#[verifier::external_type_specification]
#[verifier::external_body]
pub struct ExSystem(System);

/// Relies on sysinfo::System::new_all: builds a handle with everything
/// refreshed once, so the first snapshot is never empty by construction.
#[verifier::external_body]
fn sys_new_all() -> System {
    System::new_all()
}

/// Relies on sysinfo::System::refresh_cpu: re-queries per-core usage.
#[verifier::external_body]
fn sys_refresh_cpu(system: &mut System) {
    system.refresh_cpu();
}

/// Relies on sysinfo::System::refresh_memory: re-queries the RAM counters.
#[verifier::external_body]
fn sys_refresh_memory(system: &mut System) {
    system.refresh_memory();
}

/// Relies on sysinfo::System::cpus and sysinfo::Cpu::cpu_usage: one usage
/// percentage per core, truncated to a whole percent. The values are
/// whatever the host reported this instant; nothing more is assumed of them.
#[verifier::external_body]
fn sys_cpu_usages(system: &System) -> Vec<u32> {
    system.cpus().iter().map(|cpu| cpu.cpu_usage() as u32).collect()
}

/// Relies on sysinfo::System::total_memory.
#[verifier::external_body]
fn sys_total_memory(system: &System) -> u64 {
    system.total_memory()
}

/// Relies on sysinfo::System::used_memory.
#[verifier::external_body]
fn sys_used_memory(system: &System) -> u64 {
    system.used_memory()
}

/// A whole-percent reading scaled to tenths of a percent, clamped to 100%.
pub open spec fn tenths_of_percent(p: nat) -> nat {
    if p > 100 {
        1000
    } else {
        p * 10
    }
}

/// Every usage value in the sequence is within the 0–100% range.
pub open spec fn usage_seq_bounded(s: Seq<u32>) -> bool {
    forall|i: int| 0 <= i < s.len() ==> s[i] <= 1000
}

/// Sum of a sequence of usage values in tenths of a percent.
pub open spec fn sum_tenths(s: Seq<u32>) -> nat
    decreases s.len(),
{
    if s.len() == 0 {
        0
    } else {
        sum_tenths(s.drop_last()) + s.last() as nat
    }
}

/// Mean of a sequence of usage values, zero when the sequence is empty.
pub open spec fn mean_tenths(s: Seq<u32>) -> nat {
    if s.len() == 0 {
        0
    } else {
        sum_tenths(s) / s.len()
    }
}

pub proof fn lemma_sum_bounded(s: Seq<u32>)
    requires
        usage_seq_bounded(s),
    ensures
        sum_tenths(s) <= 1000 * s.len(),
    decreases s.len(),
{
    if s.len() > 0 {
        assert(usage_seq_bounded(s.drop_last()));
        lemma_sum_bounded(s.drop_last());
    }
}

/// A mean of in-range values is in range.
pub proof fn lemma_mean_bounded(s: Seq<u32>)
    requires
        usage_seq_bounded(s),
    ensures
        mean_tenths(s) <= 1000,
{
    lemma_sum_bounded(s);
    if s.len() > 0 {
        assert(sum_tenths(s) / s.len() <= 1000) by (nonlinear_arith)
            requires
                sum_tenths(s) <= 1000 * s.len(),
                s.len() >= 1,
        ;
    }
}

/// Turn raw whole-percent readings into the stored form: tenths of a
/// percent, clamped to the 0–100% range, order and length kept.
pub fn normalize_usages(raw: &Vec<u32>) -> (r: Vec<u32>)
    ensures
        r@.len() == raw@.len(),
        forall|i: int| 0 <= i < raw@.len() ==> r@[i] as nat == tenths_of_percent(raw@[i] as nat),
        usage_seq_bounded(r@),
{
    let mut out: Vec<u32> = Vec::new();
    let mut i: usize = 0;
    while i < raw.len()
        invariant
            i <= raw@.len(),
            out@.len() == i,
            forall|j: int| 0 <= j < i ==> out@[j] as nat == tenths_of_percent(raw@[j] as nat),
            usage_seq_bounded(out@),
        decreases raw@.len() - i,
    {
        let p = raw[i];
        let t: u32 = if p > 100 {
            1000
        } else {
            p * 10
        };
        out.push(t);
        i = i + 1;
    }
    out
}

/// Mean of a normalized usage sequence, rounded down to a tenth of a
/// percent; zero for an empty sequence.
pub fn mean_of(usages: &Vec<u32>) -> (m: u32)
    requires
        usage_seq_bounded(usages@),
    ensures
        m as nat == mean_tenths(usages@),
        m <= 1000,
{
    let n = usages.len();
    if n == 0 {
        return 0;
    }
    let mut acc: u128 = 0;
    let mut i: usize = 0;
    while i < n
        invariant
            i <= n,
            n == usages@.len(),
            usage_seq_bounded(usages@),
            acc as nat == sum_tenths(usages@.take(i as int)),
            acc <= 1000 * (i as u128),
        decreases n - i,
    {
        proof {
            assert(usages@.take(i + 1).drop_last() =~= usages@.take(i as int));
            assert(usages@.take(i + 1).last() == usages@[i as int]);
        }
        acc = acc + (usages[i] as u128);
        i = i + 1;
    }
    proof {
        assert(usages@.take(n as int) =~= usages@);
        lemma_mean_bounded(usages@);
        assert(acc as nat / (n as nat) == mean_tenths(usages@));
    }
    (acc / (n as u128)) as u32
}

/// The CPU sampler: a host-metrics handle plus the latest snapshot.
pub struct CpuMonitor {
    system: System,
    usages: Vec<u32>,
    avg: u32,
    memory_used: u64,
    memory_total: u64,
}

impl CpuMonitor {
    /// Per-core usage in tenths of a percent, in core order.
    pub closed spec fn usages_view(&self) -> Seq<u32> {
        self.usages@
    }

    /// Aggregate average in tenths of a percent.
    pub closed spec fn avg_view(&self) -> u32 {
        self.avg
    }

    pub closed spec fn memory_used_view(&self) -> u64 {
        self.memory_used
    }

    pub closed spec fn memory_total_view(&self) -> u64 {
        self.memory_total
    }

    /// The snapshot invariant: every usage is in the 0–100% range and the
    /// stored average is the mean of the stored sequence, never stale.
    pub open spec fn wf(&self) -> bool {
        usage_seq_bounded(self.usages_view()) && self.avg_view() as nat == mean_tenths(
            self.usages_view(),
        ) && self.avg_view() <= 1000
    }

    /// Build the sampler and take the first snapshot at once, so the first
    /// frame drawn is never empty merely for want of a refresh.
    pub fn new() -> (m: CpuMonitor)
        ensures
            m.wf(),
    {
        let system = sys_new_all();
        let mut monitor = CpuMonitor {
            system,
            usages: Vec::new(),
            avg: 0,
            memory_used: 0,
            memory_total: 0,
        };
        monitor.refresh();
        monitor
    }

    /// Re-query the host and replace the whole snapshot: usage sequence,
    /// recomputed average, and memory counters. Never fails outwardly; a
    /// host that reports nothing yields an empty sequence and average zero.
    pub fn refresh(&mut self)
        ensures
            final(self).wf(),
    {
        sys_refresh_cpu(&mut self.system);
        sys_refresh_memory(&mut self.system);
        let raw = sys_cpu_usages(&self.system);
        let usages = normalize_usages(&raw);
        let avg = mean_of(&usages);
        self.usages = usages;
        self.avg = avg;
        self.memory_total = sys_total_memory(&self.system);
        self.memory_used = sys_used_memory(&self.system);
    }

    /// Aggregate average usage, tenths of a percent.
    pub fn avg(&self) -> (r: u32)
        ensures
            r == self.avg_view(),
    {
        self.avg
    }

    /// The per-core usage sequence, tenths of a percent.
    pub fn usages(&self) -> (r: &Vec<u32>)
        ensures
            r@ == self.usages_view(),
    {
        &self.usages
    }

    /// Core count: the length of the usage sequence.
    pub fn thread_count(&self) -> (r: usize)
        ensures
            r as nat == self.usages_view().len(),
    {
        self.usages.len()
    }

    /// The memory counters as the host reported them, `(used, total)`.
    pub fn memory_usage(&self) -> (r: (u64, u64))
        ensures
            r.0 == self.memory_used_view(),
            r.1 == self.memory_total_view(),
    {
        (self.memory_used, self.memory_total)
    }

    /// Used-to-total memory ratio in permille, clamped to 1000; zero when
    /// the total is unknown, so there is never a division by zero.
    pub fn memory_ratio(&self) -> (r: u64)
        ensures
            r as nat == ratio_permille(self.memory_used_view() as nat, self.memory_total_view() as nat),
    {
        ratio_permille_of(self.memory_used, self.memory_total)
    }
}

/// Used-to-total ratio scaled to permille and clamped to `[0, 1000]`;
/// zero when the total is zero.
pub open spec fn ratio_permille(used: nat, total: nat) -> nat {
    if total == 0 {
        0
    } else if used * 1000 / total > 1000 {
        1000
    } else {
        used * 1000 / total
    }
}

/// Compute the clamped permille ratio of two counters.
pub fn ratio_permille_of(used: u64, total: u64) -> (r: u64)
    ensures
        r as nat == ratio_permille(used as nat, total as nat),
{
    if total == 0 {
        return 0;
    }
    let scaled: u128 = (used as u128) * 1000;
    let q: u128 = scaled / (total as u128);
    if q > 1000 {
        1000
    } else {
        q as u64
    }
}

/// A full memory is a full gauge, and an unknown total is an empty one:
/// the ratio is zero when the total is zero, and exactly 1000 permille
/// when used equals a non-zero total.
pub proof fn lemma_memory_ratio(used: nat, total: nat)
    ensures
        total == 0 ==> ratio_permille(used, total) == 0,
        used == total && total > 0 ==> ratio_permille(used, total) == 1000,
{
    if used == total && total > 0 {
        assert(total * 1000 / total == 1000) by (nonlinear_arith)
            requires
                total > 0,
        ;
    }
}

} // verus!
