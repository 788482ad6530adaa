//! The sampler: delta-based utilization from two consecutive raw samples,
//! and the state kept from one sampling cycle to the next.

use vstd::prelude::*;
use crate::counters::{
    detect, detected, lemma_no_cgroup_falls_back_to_host, proc_stat_of, read_chain,
    read_with_fallback, CgroupCpuStats, CounterFiles, SourceKind,
};

verus! {

/// 100 % in basis points (hundredths of a percent), the unit of every
/// percentage held here.
pub const FULL_SCALE: u32 = 10_000;

/// Consecutive cycles in which the chosen source gives no sample before the
/// sources are detected again.
pub const REPROBE_AFTER: u32 = 3;

/// Container CPU utilization in basis points: the container's share of the
/// host's CPU time, times the CPUs available to it, capped at 100 %; zero
/// over an empty interval.
pub open spec fn cpu_basis_points(container_delta: nat, host_delta: nat, cpus: nat) -> nat {
    if host_delta == 0 {
        0
    } else {
        let raw = container_delta * cpus * (FULL_SCALE as nat) / host_delta;
        if raw > FULL_SCALE as nat {
            FULL_SCALE as nat
        } else {
            raw
        }
    }
}

/// `min(100, container_delta / host_delta * online_cpus * 100)`, in basis points.
pub fn container_cpu_basis_points(container_delta: u64, host_delta: u64, online_cpus: u32) -> (r:
    u32)
    requires
        host_delta > 0,
    ensures
        r as nat == cpu_basis_points(container_delta as nat, host_delta as nat, online_cpus as nat),
        r <= FULL_SCALE,
{
    let a: u128 = container_delta as u128;
    let b: u128 = online_cpus as u128;
    assert(a * b <= 0xffff_ffff_ffff_ffff * 0xffff_ffff) by (nonlinear_arith)
        requires
            a <= 0xffff_ffff_ffff_ffff,
            b <= 0xffff_ffff,
    ;
    let ab = a * b;
    assert(ab * 10000 <= 0xffff_ffff_ffff_ffff * 0xffff_ffff * 10000) by (nonlinear_arith)
        requires
            ab <= 0xffff_ffff_ffff_ffff * 0xffff_ffff,
    ;
    let prod = ab * (FULL_SCALE as u128);
    let raw = prod / (host_delta as u128);
    if raw > FULL_SCALE as u128 {
        FULL_SCALE
    } else {
        raw as u32
    }
}

/// The latest figures, replaced as a whole once per cycle.
#[derive(Clone, Copy, Debug, PartialEq, Eq, Structural)]
pub struct UtilizationSnapshot {
    /// Container CPU utilization, in basis points.
    pub container_cpu_bp: u32,
    /// CPU utilization of this process, in basis points.
    pub process_cpu_bp: u32,
    /// Resident memory of this process.
    pub process_memory_bytes: u64,
    /// When the snapshot was written, in milliseconds on the caller's monotonic clock.
    pub last_updated_ms: u64,
    /// The source that the container figure was computed from.
    pub source: SourceKind,
}

impl UtilizationSnapshot {
    /// Both percentages lie in `[0, 100]`.
    pub open spec fn wf(self) -> bool {
        self.container_cpu_bp <= FULL_SCALE && self.process_cpu_bp <= FULL_SCALE
    }

    /// All figures zero.
    pub fn zero(source: SourceKind) -> (r: UtilizationSnapshot)
        ensures
            r.wf(),
            r.container_cpu_bp == 0 && r.process_cpu_bp == 0 && r.process_memory_bytes == 0,
            r.last_updated_ms == 0 && r.source == source,
    {
        UtilizationSnapshot {
            container_cpu_bp: 0,
            process_cpu_bp: 0,
            process_memory_bytes: 0,
            last_updated_ms: 0,
            source,
        }
    }
}

/// One reading of this process's row of the process table.
#[derive(Clone, Copy, Debug, PartialEq, Eq, Structural)]
pub struct ProcessReading {
    /// CPU utilization, in basis points.
    pub cpu_bp: u32,
    pub memory_bytes: u64,
}

/// Where the sampler stands.
#[derive(Clone, Copy, Debug, PartialEq, Eq, Structural)]
pub enum SamplerPhase {
    /// No sample taken yet.
    Uninitialized,
    /// The last sample is a fresh baseline: the first one, or one after a reset.
    Baseline,
    /// The last sample continued the one before it.
    SteadyState,
    /// No source gave a sample in the last cycle.
    Degraded,
}

/// A sample together with the source it came from.
pub type SourcedSample = (SourceKind, CgroupCpuStats);

/// Whether `cur` continues `prev`: the same source, and neither counter went back.
pub open spec fn continues(prev: SourcedSample, cur: SourcedSample) -> bool {
    &&& prev.0 == cur.0
    &&& prev.1.usage_total <= cur.1.usage_total
    &&& prev.1.system_usage <= cur.1.system_usage
}

/// The container figure after a sample. When a counter went back (a
/// reset), zero: the sample is a fresh baseline. Otherwise, when the host's
/// counter did not move, the previous figure (no rate over an empty
/// interval); when the source changed, zero, as the two container counters
/// do not compare; else the rate over the interval.
pub open spec fn next_container_bp(prev: Option<SourcedSample>, cur: SourcedSample, held: u32) -> u32 {
    match prev {
        None => 0,
        Some(p) => if cur.1.usage_total < p.1.usage_total || cur.1.system_usage
            < p.1.system_usage {
            0
        } else if cur.1.system_usage == p.1.system_usage {
            held
        } else if p.0 != cur.0 {
            0
        } else {
            cpu_basis_points(
                (cur.1.usage_total - p.1.usage_total) as nat,
                (cur.1.system_usage - p.1.system_usage) as nat,
                cur.1.online_cpus as nat,
            ) as u32
        },
    }
}

pub open spec fn next_phase(prev: Option<SourcedSample>, cur: SourcedSample) -> SamplerPhase {
    match prev {
        Some(p) => if continues(p, cur) {
            SamplerPhase::SteadyState
        } else {
            SamplerPhase::Baseline
        },
        None => SamplerPhase::Baseline,
    }
}

pub open spec fn capped(v: u32) -> u32 {
    if v > FULL_SCALE {
        FULL_SCALE
    } else {
        v
    }
}

/// The choice of source after a cycle that read `reading`: kept with its
/// failure count cleared when it gave the sample, detected afresh once it has
/// failed `REPROBE_AFTER` cycles in a row, else kept with one more failure.
pub open spec fn probe_step(
    source: SourceKind,
    failures: u32,
    reading: Option<SourcedSample>,
    files: CounterFiles,
) -> (SourceKind, u32) {
    if reading matches Some(r) && r.0 == source {
        (source, 0)
    } else if failures + 1 >= REPROBE_AFTER {
        (detected(files), 0)
    } else {
        (source, (failures + 1) as u32)
    }
}

/// The sampling state machine. It alone writes its snapshot.
pub struct Sampler {
    /// The chosen source; each cycle starts from it.
    pub source: SourceKind,
    /// Consecutive cycles in which the chosen source gave no sample.
    pub failures: u32,
    /// The last sample, the base of the next delta.
    pub previous: Option<SourcedSample>,
    pub snapshot: UtilizationSnapshot,
    pub phase: SamplerPhase,
}

impl Sampler {
    pub open spec fn wf(&self) -> bool {
        self.snapshot.wf() && self.failures < REPROBE_AFTER
    }

    /// The state after one cycle in which the counters gave `reading` (`None`:
    /// no source did) and the process table gave `process` (`None`: this
    /// process was not found), at time `now_ms`.
    pub open spec fn after(
        self,
        reading: Option<SourcedSample>,
        process: Option<ProcessReading>,
        now_ms: u64,
    ) -> Sampler {
        let container_cpu_bp = match reading {
            Some(cur) => next_container_bp(self.previous, cur, self.snapshot.container_cpu_bp),
            None => self.snapshot.container_cpu_bp,
        };
        let source = match reading {
            Some(cur) => cur.0,
            None => self.snapshot.source,
        };
        let process_cpu_bp = match process {
            Some(p) => capped(p.cpu_bp),
            None => self.snapshot.process_cpu_bp,
        };
        let process_memory_bytes = match process {
            Some(p) => p.memory_bytes,
            None => self.snapshot.process_memory_bytes,
        };
        Sampler {
            source: self.source,
            failures: self.failures,
            previous: match reading {
                Some(cur) => Some(cur),
                None => self.previous,
            },
            snapshot: UtilizationSnapshot {
                container_cpu_bp,
                process_cpu_bp,
                process_memory_bytes,
                last_updated_ms: now_ms,
                source,
            },
            phase: match reading {
                Some(cur) => next_phase(self.previous, cur),
                None => SamplerPhase::Degraded,
            },
        }
    }

    /// A sampler that has taken no sample yet and reads through `source`.
    pub fn new(source: SourceKind) -> (r: Sampler)
        ensures
            r.wf(),
            r.source == source,
            r.previous is None,
            r.failures == 0,
            r.phase == SamplerPhase::Uninitialized,
            r.snapshot.container_cpu_bp == 0 && r.snapshot.process_cpu_bp == 0,
            r.snapshot.process_memory_bytes == 0 && r.snapshot.last_updated_ms == 0,
            r.snapshot.source == source,
    {
        Sampler {
            source,
            failures: 0,
            previous: None,
            snapshot: UtilizationSnapshot::zero(source),
            phase: SamplerPhase::Uninitialized,
        }
    }

    /// Takes one cycle's readings into the state.
    pub fn record(
        &mut self,
        reading: Option<SourcedSample>,
        process: Option<ProcessReading>,
        now_ms: u64,
    )
        requires
            old(self).wf(),
        ensures
            *final(self) == old(self).after(reading, process, now_ms),
            final(self).wf(),
    {
        let mut container_cpu_bp = self.snapshot.container_cpu_bp;
        let mut source = self.snapshot.source;
        match reading {
            Some(cur) => {
                let (phase, bp) = match self.previous {
                    None => (SamplerPhase::Baseline, 0),
                    Some(p) => {
                        let reset = cur.1.usage_total < p.1.usage_total
                            || cur.1.system_usage < p.1.system_usage;
                        let phase = if reset || p.0 != cur.0 {
                            SamplerPhase::Baseline
                        } else {
                            SamplerPhase::SteadyState
                        };
                        if reset {
                            (phase, 0)
                        } else if cur.1.system_usage == p.1.system_usage {
                            (phase, container_cpu_bp)
                        } else if p.0 != cur.0 {
                            (phase, 0)
                        } else {
                            (
                                SamplerPhase::SteadyState,
                                container_cpu_basis_points(
                                    cur.1.usage_total - p.1.usage_total,
                                    cur.1.system_usage - p.1.system_usage,
                                    cur.1.online_cpus,
                                ),
                            )
                        }
                    },
                };
                container_cpu_bp = bp;
                source = cur.0;
                self.previous = Some(cur);
                self.phase = phase;
            },
            None => {
                self.phase = SamplerPhase::Degraded;
            },
        }
        let (process_cpu_bp, process_memory_bytes) = match process {
            Some(p) => (
                if p.cpu_bp > FULL_SCALE {
                    FULL_SCALE
                } else {
                    p.cpu_bp
                },
                p.memory_bytes,
            ),
            None => (self.snapshot.process_cpu_bp, self.snapshot.process_memory_bytes),
        };
        self.snapshot =
        UtilizationSnapshot {
            container_cpu_bp,
            process_cpu_bp,
            process_memory_bytes,
            last_updated_ms: now_ms,
            source,
        };
    }

    /// A full cycle on the files' contents: the counters are read from the
    /// chosen source down, the result taken in, and the choice of source
    /// kept, or made again after `REPROBE_AFTER` cycles without it.
    pub open spec fn cycle(
        self,
        files: CounterFiles,
        process: Option<ProcessReading>,
        now_ms: u64,
    ) -> Sampler {
        let reading = read_chain(self.source, files);
        let next = self.after(reading, process, now_ms);
        let probe = probe_step(self.source, self.failures, reading, files);
        Sampler {
            source: probe.0,
            failures: probe.1,
            previous: next.previous,
            snapshot: next.snapshot,
            phase: next.phase,
        }
    }

    /// One sampling cycle: reads the counters from the files, starting from
    /// the chosen source and falling back to lower ones, takes the result in,
    /// and detects the source again once the chosen one has failed
    /// `REPROBE_AFTER` cycles in a row.
    pub fn refresh(&mut self, files: &CounterFiles, process: Option<ProcessReading>, now_ms: u64)
        requires
            old(self).wf(),
        ensures
            *final(self) == old(self).cycle(*files, process, now_ms),
            final(self).wf(),
    {
        let reading = read_with_fallback(self.source, files);
        self.record(reading, process, now_ms);
        let chosen_worked = match reading {
            Some((kind, _)) => kind == self.source,
            None => false,
        };
        if chosen_worked {
            self.failures = 0;
        } else if self.failures + 1 >= REPROBE_AFTER {
            self.source = detect(files);
            self.failures = 0;
        } else {
            self.failures = self.failures + 1;
        }
    }

    /// The latest snapshot.
    pub fn snapshot(&self) -> (r: UtilizationSnapshot)
        ensures
            r == self.snapshot,
    {
        self.snapshot
    }
}


/// Whatever the deltas, the container figure lies in `[0, 100]` %.
pub proof fn lemma_container_cpu_in_range(container_delta: nat, host_delta: nat, cpus: nat)
    ensures
        0 <= cpu_basis_points(container_delta, host_delta, cpus) <= FULL_SCALE,
{
}

/// The first sample after startup gives a container figure of zero and is
/// kept as the baseline.
pub proof fn lemma_first_sample_is_baseline(
    s: Sampler,
    cur: SourcedSample,
    process: Option<ProcessReading>,
    now_ms: u64,
)
    requires
        s.previous is None,
    ensures
        s.after(Some(cur), process, now_ms).snapshot.container_cpu_bp == 0,
        s.after(Some(cur), process, now_ms).previous == Some(cur),
        s.after(Some(cur), process, now_ms).phase == SamplerPhase::Baseline,
{
}

/// When a counter goes back (a reset), the figure is zero and the new sample
/// becomes the baseline: the next cycle measures from it, not from the
/// sample before the reset.
pub proof fn lemma_counter_reset_rebaselines(
    s: Sampler,
    cur: SourcedSample,
    next: SourcedSample,
    p1: Option<ProcessReading>,
    p2: Option<ProcessReading>,
    t1: u64,
    t2: u64,
)
    requires
        s.previous matches Some(prev) && cur.1.usage_total < prev.1.usage_total,
    ensures
        s.after(Some(cur), p1, t1).snapshot.container_cpu_bp == 0,
        s.after(Some(cur), p1, t1).previous == Some(cur),
        s.after(Some(cur), p1, t1).phase == SamplerPhase::Baseline,
        continues(cur, next) && next.1.system_usage > cur.1.system_usage ==> s.after(
            Some(cur),
            p1,
            t1,
        ).after(Some(next), p2, t2).snapshot.container_cpu_bp == cpu_basis_points(
            (next.1.usage_total - cur.1.usage_total) as nat,
            (next.1.system_usage - cur.1.system_usage) as nat,
            next.1.online_cpus as nat,
        ),
{
}

/// Over an interval in which the host's counter did not move, the previous
/// container figure stays as it was, from whichever source the sample came,
/// and the sample becomes the base of the next delta. A container counter
/// that went back is a reset, which takes precedence.
pub proof fn lemma_empty_interval_keeps_figure(
    s: Sampler,
    cur: SourcedSample,
    process: Option<ProcessReading>,
    now_ms: u64,
)
    requires
        s.previous matches Some(prev) && cur.1.system_usage == prev.1.system_usage
            && cur.1.usage_total >= prev.1.usage_total,
    ensures
        s.after(Some(cur), process, now_ms).snapshot.container_cpu_bp
            == s.snapshot.container_cpu_bp,
        s.after(Some(cur), process, now_ms).previous == Some(cur),
{
}

/// A cycle keeps every snapshot figure in range, whatever it reads.
pub proof fn lemma_cycle_keeps_snapshot_in_range(
    s: Sampler,
    reading: Option<SourcedSample>,
    process: Option<ProcessReading>,
    now_ms: u64,
)
    requires
        s.wf(),
    ensures
        s.after(reading, process, now_ms).wf(),
{
}


/// With both cgroup files unreadable and a well-formed `/proc/stat`, a cycle
/// publishes a figure computed from `/proc/stat`, so its `calculation_method`
/// tag is `proc_stat`.
pub proof fn lemma_cycle_without_cgroups_uses_proc_stat(
    s: Sampler,
    files: CounterFiles,
    process: Option<ProcessReading>,
    now_ms: u64,
)
    requires
        s.source != SourceKind::Unavailable,
        files.cgroup_v2_stat is None,
        files.cgroup_v1_usage is None,
        proc_stat_of(files) is Ok,
    ensures
        s.cycle(files, process, now_ms).snapshot.source == SourceKind::HostProcStat,
        !s.cycle(files, process, now_ms).snapshot.source.is_cgroup(),
{
    lemma_no_cgroup_falls_back_to_host(files, s.source);
}

} // verus!
