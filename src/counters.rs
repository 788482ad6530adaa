//! The counter sources: what each accounting file holds, how a source is
//! chosen, and how one raw counter sample is read from the files' contents.

use vstd::prelude::*;
use crate::text::{
    bytes_eq, decimal_value, first_line, first_line_of, line_at, line_from,
    matches_at, occurs_at, parse_decimal, parsed_u64, split_words, views, words,
};

verus! {

/// Which cumulative-counter interface is used, best first.
#[derive(Clone, Copy, Debug, PartialEq, Eq, Structural)]
pub enum SourceKind {
    CgroupV2,
    CgroupV1,
    HostProcStat,
    Unavailable,
}

/// Why one read of the counters failed.
#[derive(Clone, Copy, Debug, PartialEq, Eq, Structural)]
pub enum ReadError {
    /// A file that the source needs could not be read.
    Unreadable,
    /// A record or a field is missing, or a field is not a 64-bit decimal number.
    Malformed,
    /// A value does not fit in 64 bits once converted to nanoseconds.
    Overflow,
}

/// The contents of the accounting files, `None` where a file could not be read.
pub struct CounterFiles {
    /// cgroup v2 `cpu.stat`
    pub cgroup_v2_stat: Option<Vec<u8>>,
    /// cgroup v1 `cpuacct.usage`
    pub cgroup_v1_usage: Option<Vec<u8>>,
    /// `cpu.cfs_quota_us`
    pub cfs_quota: Option<Vec<u8>>,
    /// `cpu.cfs_period_us`
    pub cfs_period: Option<Vec<u8>>,
    /// `/proc/stat`
    pub proc_stat: Option<Vec<u8>>,
    /// `/proc/cpuinfo`
    pub cpuinfo: Option<Vec<u8>>,
}

/// One raw sample: the container's and the host's cumulative CPU time in
/// nanoseconds, and the number of CPUs available to the container.
#[derive(Clone, Copy, Debug, PartialEq, Eq, Structural)]
pub struct CgroupCpuStats {
    pub usage_total: u64,
    pub system_usage: u64,
    pub online_cpus: u32,
}

/// Nanoseconds per scheduler tick of `/proc/stat` (100 ticks a second).
pub const NANOS_PER_TICK: u64 = 10_000_000;

/// Nanoseconds per microsecond.
pub const NANOS_PER_MICRO: u64 = 1000;

/// CFS period assumed when the period file does not hold a number.
pub const DEFAULT_CFS_PERIOD: u64 = 100_000;

/// `usage_usec ` with its trailing space: how a `usage_usec` record begins.
pub open spec fn usage_field() -> Seq<u8> {
    seq![117u8, 115, 97, 103, 101, 95, 117, 115, 101, 99, 32]
}

pub open spec fn cpu_key() -> Seq<u8> {
    seq![99u8, 112, 117]
}

pub open spec fn processor_key() -> Seq<u8> {
    seq![112u8, 114, 111, 99, 101, 115, 115, 111, 114]
}

/// `usage_usec `
fn usage_field_bytes() -> (r: Vec<u8>)
    ensures
        r@ == usage_field(),
{
    let r = vec![117u8, 115, 97, 103, 101, 95, 117, 115, 101, 99, 32];
    assert(r@ =~= usage_field());
    r
}

/// `cpu`
fn cpu_key_bytes() -> (r: Vec<u8>)
    ensures
        r@ == cpu_key(),
{
    let r = vec![99u8, 112, 117];
    assert(r@ =~= cpu_key());
    r
}

/// `processor`
fn processor_key_bytes() -> (r: Vec<u8>)
    ensures
        r@ == processor_key(),
{
    let r = vec![112u8, 114, 111, 99, 101, 115, 115, 111, 114];
    assert(r@ =~= processor_key());
    r
}

/// Whether a line of `s` starts at `i` with the `usage_usec` key.
pub open spec fn usage_line_at(s: Seq<u8>, i: int) -> bool {
    (i == 0 || s[i - 1] == 10) && occurs_at(s, i, usage_field())
}

/// Start of the first line at or after `i` that begins with the `usage_usec` key.
pub open spec fn usage_line_from(s: Seq<u8>, i: int) -> Option<int>
    decreases s.len() - i,
{
    if i >= s.len() {
        None
    } else if usage_line_at(s, i) {
        Some(i)
    } else {
        usage_line_from(s, i + 1)
    }
}

/// Container CPU time of cgroup v2. `cpu.stat` is a list of key/value
/// records, one per line; the record whose line begins with the key
/// `usage_usec` gives the time in microseconds as its second word, converted
/// here to nanoseconds. The word `usage_usec` anywhere but at the start of a
/// line is not the key.
pub open spec fn v2_usage_ns(s: Seq<u8>) -> Result<u64, ReadError> {
    match usage_line_from(s, 0) {
        None => Err(ReadError::Malformed),
        Some(i) => {
            let ws = words(line_at(s, i));
            if ws.len() < 2 {
                Err(ReadError::Malformed)
            } else {
                match parsed_u64(ws[1]) {
                    None => Err(ReadError::Malformed),
                    Some(us) => if us * NANOS_PER_MICRO > u64::MAX {
                        Err(ReadError::Overflow)
                    } else {
                        Ok((us * NANOS_PER_MICRO) as u64)
                    },
                }
            }
        },
    }
}

/// Finds the first line of `cpu.stat` that begins with the `usage_usec` key.
fn find_usage_line(stat: &[u8]) -> (r: Option<usize>)
    ensures
        match r {
            Some(i) => i < stat@.len() && usage_line_from(stat@, 0) == Some(i as int),
            None => usage_line_from(stat@, 0) is None,
        },
{
    let key = usage_field_bytes();
    let mut i: usize = 0;
    while i < stat.len()
        invariant
            0 <= i <= stat@.len(),
            key@ == usage_field(),
            usage_line_from(stat@, i as int) == usage_line_from(stat@, 0),
        decreases stat@.len() - i,
    {
        if (i == 0 || stat[i - 1] == 10) && matches_at(stat, i, key.as_slice()) {
            return Some(i);
        }
        i = i + 1;
    }
    None
}

/// Parses cgroup v2 `cpu.stat` for the container's CPU time in nanoseconds.
pub fn parse_cgroup_v2_usage(stat: &[u8]) -> (r: Result<u64, ReadError>)
    ensures
        r == v2_usage_ns(stat@),
{
    match find_usage_line(stat) {
        None => Err(ReadError::Malformed),
        Some(i) => {
            let line = line_from(stat, i);
            let ws = split_words(line.as_slice());
            if ws.len() < 2 {
                return Err(ReadError::Malformed);
            }
            assert(views(ws@)[1] == ws@[1]@);
            match parse_decimal(ws[1].as_slice()) {
                None => Err(ReadError::Malformed),
                Some(us) => {
                    if us > u64::MAX / NANOS_PER_MICRO {
                        Err(ReadError::Overflow)
                    } else {
                        Ok(us * NANOS_PER_MICRO)
                    }
                },
            }
        },
    }
}

/// The number that a file holding one word consists of.
pub open spec fn single_number(s: Seq<u8>) -> Option<u64> {
    let ws = words(s);
    if ws.len() == 1 {
        parsed_u64(ws[0])
    } else {
        None
    }
}

/// Reads a file that holds one decimal number, with surrounding whitespace.
pub fn parse_single_number(s: &[u8]) -> (r: Option<u64>)
    ensures
        r == single_number(s@),
{
    let ws = split_words(s);
    if ws.len() != 1 {
        return None;
    }
    assert(views(ws@)[0] == ws@[0]@);
    parse_decimal(ws[0].as_slice())
}

/// Container CPU time of cgroup v1: `cpuacct.usage` holds nanoseconds.
pub open spec fn v1_usage_ns(s: Seq<u8>) -> Result<u64, ReadError> {
    match single_number(s) {
        Some(v) => Ok(v),
        None => Err(ReadError::Malformed),
    }
}

/// Parses cgroup v1 `cpuacct.usage`.
pub fn parse_cgroup_v1_usage(usage: &[u8]) -> (r: Result<u64, ReadError>)
    ensures
        r == v1_usage_ns(usage@),
{
    match parse_single_number(usage) {
        Some(v) => Ok(v),
        None => Err(ReadError::Malformed),
    }
}

/// Sum of the tick counts of words `1 .. n` of the aggregate `cpu` record.
pub open spec fn tick_total(ws: Seq<Seq<u8>>, n: int) -> nat
    decreases n,
{
    if n <= 1 {
        0
    } else {
        tick_total(ws, n - 1) + decimal_value(ws[n - 1])
    }
}

/// As `tick_total`, leaving out `idle` (word 4) and `iowait` (word 5).
pub open spec fn busy_ticks(ws: Seq<Seq<u8>>, n: int) -> nat
    decreases n,
{
    if n <= 1 {
        0
    } else {
        busy_ticks(ws, n - 1) + if n - 1 == 4 || n - 1 == 5 {
            0
        } else {
            decimal_value(ws[n - 1])
        }
    }
}

/// The first line of `/proc/stat` is the aggregate `cpu` record with its
/// eight tick counts: user, nice, system, idle, iowait, irq, softirq, steal.
pub open spec fn host_record_ok(ws: Seq<Seq<u8>>) -> bool {
    &&& ws.len() >= 9
    &&& ws[0] == cpu_key()
    &&& forall|k: int| 1 <= k < 9 ==> parsed_u64(#[trigger] ws[k]) is Some
}

/// Host CPU time from `/proc/stat`, as (all eight counts, the counts without
/// idle and iowait), in nanoseconds.
pub open spec fn proc_stat_times(s: Seq<u8>) -> Result<(u64, u64), ReadError> {
    let ws = words(first_line_of(s));
    if !host_record_ok(ws) {
        Err(ReadError::Malformed)
    } else if tick_total(ws, 9) * NANOS_PER_TICK > u64::MAX {
        Err(ReadError::Overflow)
    } else {
        Ok(((tick_total(ws, 9) * NANOS_PER_TICK) as u64, (busy_ticks(ws, 9) * NANOS_PER_TICK) as u64))
    }
}

/// Parses the aggregate `cpu` record of `/proc/stat`.
pub fn parse_proc_stat(stat: &[u8]) -> (r: Result<(u64, u64), ReadError>)
    ensures
        r == proc_stat_times(stat@),
{
    let line = first_line(stat);
    let ws = split_words(line.as_slice());
    let ghost w = views(ws@);
    if ws.len() < 9 {
        return Err(ReadError::Malformed);
    }
    let key = cpu_key_bytes();
    assert(w[0] == ws@[0]@);
    if !bytes_eq(ws[0].as_slice(), key.as_slice()) {
        return Err(ReadError::Malformed);
    }
    let mut total: u128 = 0;
    let mut busy: u128 = 0;
    let mut k: usize = 1;
    while k < 9
        invariant
            ws@.len() >= 9,
            w == views(ws@),
            w == words(first_line_of(stat@)),
            w[0] == cpu_key(),
            1 <= k <= 9,
            forall|j: int| 1 <= j < k ==> parsed_u64(#[trigger] w[j]) is Some,
            total == tick_total(w, k as int),
            busy == busy_ticks(w, k as int),
            busy <= total,
            total <= (k as int) * (u64::MAX as int),
        decreases 9 - k,
    {
        assert(w[k as int] == ws@[k as int]@);
        match parse_decimal(ws[k].as_slice()) {
            None => {
                assert(parsed_u64(w[k as int]) is None);
                return Err(ReadError::Malformed);
            },
            Some(v) => {
                total = total + v as u128;
                if k != 4 && k != 5 {
                    busy = busy + v as u128;
                }
            },
        }
        k = k + 1;
    }
    if total > (u64::MAX / NANOS_PER_TICK) as u128 {
        return Err(ReadError::Overflow);
    }
    Ok(((total as u64) * NANOS_PER_TICK, (busy as u64) * NANOS_PER_TICK))
}


/// Clamps a CPU count into `1 ..= u32::MAX`.
pub open spec fn cpu_count(n: nat) -> u32 {
    if n == 0 {
        1
    } else if n > u32::MAX {
        u32::MAX
    } else {
        n as u32
    }
}

fn to_cpu_count(n: u64) -> (r: u32)
    ensures
        r == cpu_count(n as nat),
{
    if n == 0 {
        1
    } else if n > u32::MAX as u64 {
        u32::MAX
    } else {
        n as u32
    }
}

/// CPUs allotted by a CFS quota: `floor(quota / period)`, at least one. No
/// quota is set unless the quota file holds a positive number; a period
/// file that holds no number counts as the default period.
pub open spec fn quota_cpus(quota: Seq<u8>, period: Seq<u8>) -> Option<u32> {
    match single_number(quota) {
        None => None,
        Some(q) => if q == 0 {
            None
        } else {
            let p: u64 = match single_number(period) {
                Some(p) => p,
                None => DEFAULT_CFS_PERIOD,
            };
            if p == 0 {
                None
            } else {
                Some(cpu_count((q / p) as nat))
            }
        },
    }
}

/// Reads the CPU count that the CFS quota and period files allot, if any.
pub fn parse_quota_cpus(quota: &[u8], period: &[u8]) -> (r: Option<u32>)
    ensures
        r == quota_cpus(quota@, period@),
{
    match parse_single_number(quota) {
        None => None,
        Some(q) => {
            if q == 0 {
                return None;
            }
            let p = match parse_single_number(period) {
                Some(p) => p,
                None => DEFAULT_CFS_PERIOD,
            };
            if p == 0 {
                None
            } else {
                Some(to_cpu_count(q / p))
            }
        },
    }
}

/// Whether a line of `s` starts at `i` with `processor`.
pub open spec fn processor_line_at(s: Seq<u8>, i: int) -> bool {
    (i == 0 || s[i - 1] == 10) && occurs_at(s, i, processor_key())
}

/// Number of lines starting with `processor` that begin before position `n`.
pub open spec fn processor_lines(s: Seq<u8>, n: int) -> nat
    decreases n,
{
    if n <= 0 {
        0
    } else {
        processor_lines(s, n - 1) + if processor_line_at(s, n - 1) {
            1nat
        } else {
            0nat
        }
    }
}

/// The CPU count that `/proc/cpuinfo` gives: its `processor` lines, at least one.
pub open spec fn cpuinfo_cpus(s: Seq<u8>) -> u32 {
    cpu_count(processor_lines(s, s.len() as int))
}

/// Counts the `processor` lines of `/proc/cpuinfo`.
pub fn count_processors(cpuinfo: &[u8]) -> (r: u32)
    ensures
        r == cpuinfo_cpus(cpuinfo@),
{
    let key = processor_key_bytes();
    let mut count: u64 = 0;
    let mut i: usize = 0;
    while i < cpuinfo.len()
        invariant
            0 <= i <= cpuinfo@.len(),
            key@ == processor_key(),
            count as nat == processor_lines(cpuinfo@, i as int),
            count <= i,
        decreases cpuinfo@.len() - i,
    {
        if (i == 0 || cpuinfo[i - 1] == 10) && matches_at(cpuinfo, i, key.as_slice()) {
            count = count + 1;
        }
        i = i + 1;
    }
    to_cpu_count(count)
}

/// CPUs available to the container: from the CFS quota where one is set,
/// else from `/proc/cpuinfo`.
pub open spec fn online_cpus_of(files: CounterFiles) -> Result<u32, ReadError> {
    let from_quota = match (files.cfs_quota, files.cfs_period) {
        (Some(q), Some(p)) => quota_cpus(q@, p@),
        _ => None,
    };
    match from_quota {
        Some(c) => Ok(c),
        None => match files.cpuinfo {
            Some(c) => Ok(cpuinfo_cpus(c@)),
            None => Err(ReadError::Unreadable),
        },
    }
}

pub fn get_online_cpus(files: &CounterFiles) -> (r: Result<u32, ReadError>)
    ensures
        r == online_cpus_of(*files),
        r is Ok ==> r->Ok_0 >= 1,
{
    if let (Some(q), Some(p)) = (&files.cfs_quota, &files.cfs_period) {
        if let Some(c) = parse_quota_cpus(q.as_slice(), p.as_slice()) {
            return Ok(c);
        }
    }
    match &files.cpuinfo {
        Some(c) => Ok(count_processors(c.as_slice())),
        None => Err(ReadError::Unreadable),
    }
}

/// Host CPU times from `/proc/stat`, if it was read.
pub open spec fn proc_stat_of(files: CounterFiles) -> Result<(u64, u64), ReadError> {
    match files.proc_stat {
        Some(s) => proc_stat_times(s@),
        None => Err(ReadError::Unreadable),
    }
}

/// A cgroup sample: the container's counter, the host's aggregate and the CPU count.
pub open spec fn cgroup_sample(container: Result<u64, ReadError>, files: CounterFiles) -> Result<
    CgroupCpuStats,
    ReadError,
> {
    match container {
        Err(e) => Err(e),
        Ok(u) => match proc_stat_of(files) {
            Err(e) => Err(e),
            Ok(t) => match online_cpus_of(files) {
                Err(e) => Err(e),
                Ok(c) => Ok(CgroupCpuStats { usage_total: u, system_usage: t.0, online_cpus: c }),
            },
        },
    }
}

pub open spec fn cgroup_v2_sample(files: CounterFiles) -> Result<CgroupCpuStats, ReadError> {
    cgroup_sample(
        match files.cgroup_v2_stat {
            Some(s) => v2_usage_ns(s@),
            None => Err(ReadError::Unreadable),
        },
        files,
    )
}

pub open spec fn cgroup_v1_sample(files: CounterFiles) -> Result<CgroupCpuStats, ReadError> {
    cgroup_sample(
        match files.cgroup_v1_usage {
            Some(s) => v1_usage_ns(s@),
            None => Err(ReadError::Unreadable),
        },
        files,
    )
}

/// The host-wide fallback: the busy part of the host's time stands for the
/// container's, over all of the host's time, counted as one CPU. This is a
/// deliberate choice: the figure is then the host-wide utilization. Taking the
/// host aggregate for both counters would fix the figure at 100 %.
pub open spec fn host_sample(files: CounterFiles) -> Result<CgroupCpuStats, ReadError> {
    match proc_stat_of(files) {
        Err(e) => Err(e),
        Ok(t) => Ok(CgroupCpuStats { usage_total: t.1, system_usage: t.0, online_cpus: 1 }),
    }
}

/// The sample that one source gives.
pub open spec fn sample_of(kind: SourceKind, files: CounterFiles) -> Result<CgroupCpuStats, ReadError> {
    match kind {
        SourceKind::CgroupV2 => cgroup_v2_sample(files),
        SourceKind::CgroupV1 => cgroup_v1_sample(files),
        SourceKind::HostProcStat => host_sample(files),
        SourceKind::Unavailable => Err(ReadError::Unreadable),
    }
}

fn read_proc_stat(files: &CounterFiles) -> (r: Result<(u64, u64), ReadError>)
    ensures
        r == proc_stat_of(*files),
{
    match &files.proc_stat {
        Some(s) => parse_proc_stat(s.as_slice()),
        None => Err(ReadError::Unreadable),
    }
}

fn assemble(container: Result<u64, ReadError>, files: &CounterFiles) -> (r: Result<
    CgroupCpuStats,
    ReadError,
>)
    ensures
        r == cgroup_sample(container, *files),
{
    let usage_total = container?;
    let (system_usage, _) = read_proc_stat(files)?;
    let online_cpus = get_online_cpus(files)?;
    Ok(CgroupCpuStats { usage_total, system_usage, online_cpus })
}

/// Reads a sample through cgroup v2.
pub fn try_cgroups_v2(files: &CounterFiles) -> (r: Result<CgroupCpuStats, ReadError>)
    ensures
        r == cgroup_v2_sample(*files),
{
    let usage = match &files.cgroup_v2_stat {
        Some(s) => parse_cgroup_v2_usage(s.as_slice()),
        None => Err(ReadError::Unreadable),
    };
    assemble(usage, files)
}

/// Reads a sample through cgroup v1.
pub fn try_cgroups_v1(files: &CounterFiles) -> (r: Result<CgroupCpuStats, ReadError>)
    ensures
        r == cgroup_v1_sample(*files),
{
    let usage = match &files.cgroup_v1_usage {
        Some(s) => parse_cgroup_v1_usage(s.as_slice()),
        None => Err(ReadError::Unreadable),
    };
    assemble(usage, files)
}

/// Reads a host-wide sample from `/proc/stat`.
pub fn try_host_proc_stat(files: &CounterFiles) -> (r: Result<CgroupCpuStats, ReadError>)
    ensures
        r == host_sample(*files),
{
    let (total, busy) = read_proc_stat(files)?;
    Ok(CgroupCpuStats { usage_total: busy, system_usage: total, online_cpus: 1 })
}

impl CgroupCpuStats {
    /// A cgroup sample: through cgroup v2, else through cgroup v1.
    pub fn from_cgroup(files: &CounterFiles) -> (r: Result<CgroupCpuStats, ReadError>)
        ensures
            r == match cgroup_v2_sample(*files) {
                Ok(s) => Ok(s),
                Err(_) => cgroup_v1_sample(*files),
            },
    {
        match try_cgroups_v2(files) {
            Ok(s) => Ok(s),
            Err(_) => try_cgroups_v1(files),
        }
    }

    /// Reads a sample through the given source.
    pub fn read(kind: SourceKind, files: &CounterFiles) -> (r: Result<CgroupCpuStats, ReadError>)
        ensures
            r == sample_of(kind, *files),
    {
        match kind {
            SourceKind::CgroupV2 => try_cgroups_v2(files),
            SourceKind::CgroupV1 => try_cgroups_v1(files),
            SourceKind::HostProcStat => try_host_proc_stat(files),
            SourceKind::Unavailable => Err(ReadError::Unreadable),
        }
    }
}


impl SourceKind {
    /// Accuracy preference: higher is better.
    pub open spec fn rank(self) -> nat {
        match self {
            SourceKind::CgroupV2 => 3,
            SourceKind::CgroupV1 => 2,
            SourceKind::HostProcStat => 1,
            SourceKind::Unavailable => 0,
        }
    }

    /// The source tried after this one.
    pub open spec fn lower(self) -> SourceKind {
        match self {
            SourceKind::CgroupV2 => SourceKind::CgroupV1,
            SourceKind::CgroupV1 => SourceKind::HostProcStat,
            _ => SourceKind::Unavailable,
        }
    }

    pub fn next_lower(&self) -> (r: SourceKind)
        ensures
            r == self.lower(),
    {
        match self {
            SourceKind::CgroupV2 => SourceKind::CgroupV1,
            SourceKind::CgroupV1 => SourceKind::HostProcStat,
            _ => SourceKind::Unavailable,
        }
    }

    /// Whether the source counts time spent in cgroups, as opposed to host-wide.
    pub open spec fn is_cgroup(self) -> bool {
        self == SourceKind::CgroupV2 || self == SourceKind::CgroupV1
    }

    /// The `calculation_method` attribute published with the container CPU figure.
    pub fn calculation_method(&self) -> (r: &'static str)
        ensures
            self.is_cgroup() ==> r@ == "cgroups"@,
            !self.is_cgroup() ==> r@ == "proc_stat"@,
    {
        match self {
            SourceKind::CgroupV2 | SourceKind::CgroupV1 => "cgroups",
            _ => "proc_stat",
        }
    }
}

/// The first source, from `kind` down, that yields a sample, with that sample.
pub open spec fn read_chain(kind: SourceKind, files: CounterFiles) -> Option<
    (SourceKind, CgroupCpuStats),
>
    decreases kind.rank(),
{
    if kind == SourceKind::Unavailable {
        None
    } else {
        match sample_of(kind, files) {
            Ok(s) => Some((kind, s)),
            Err(_) => read_chain(kind.lower(), files),
        }
    }
}

/// Reads a sample through `start`, falling back to each lower source in turn.
pub fn read_with_fallback(start: SourceKind, files: &CounterFiles) -> (r: Option<
    (SourceKind, CgroupCpuStats),
>)
    ensures
        r == read_chain(start, *files),
        r matches Some((k, s)) ==> k.rank() <= start.rank() && k != SourceKind::Unavailable
            && s.online_cpus >= 1,
{
    let mut kind = start;
    while kind != SourceKind::Unavailable
        invariant
            read_chain(kind, *files) == read_chain(start, *files),
            kind.rank() <= start.rank(),
        decreases kind.rank(),
    {
        match CgroupCpuStats::read(kind, files) {
            Ok(s) => {
                return Some((kind, s));
            },
            Err(_) => {
                kind = kind.next_lower();
            },
        }
    }
    None
}

/// Source detection, best first: a cgroup v2 `cpu.stat` with a line that
/// begins with the `usage_usec` key; a readable cgroup v1 `cpuacct.usage`; a `/proc/stat` whose first
/// line is the aggregate `cpu` record; else none.
pub open spec fn detected(files: CounterFiles) -> SourceKind {
    let v2 = match files.cgroup_v2_stat {
        Some(s) => usage_line_from(s@, 0) is Some,
        None => false,
    };
    let host = match files.proc_stat {
        Some(s) => words(first_line_of(s@)).len() > 0 && words(first_line_of(s@))[0] == cpu_key(),
        None => false,
    };
    if v2 {
        SourceKind::CgroupV2
    } else if files.cgroup_v1_usage is Some {
        SourceKind::CgroupV1
    } else if host {
        SourceKind::HostProcStat
    } else {
        SourceKind::Unavailable
    }
}

/// Picks the most accurate source that the files offer.
pub fn detect(files: &CounterFiles) -> (r: SourceKind)
    ensures
        r == detected(*files),
{
    if let Some(s) = &files.cgroup_v2_stat {
        if find_usage_line(s.as_slice()).is_some() {
            return SourceKind::CgroupV2;
        }
    }
    if files.cgroup_v1_usage.is_some() {
        return SourceKind::CgroupV1;
    }
    if let Some(s) = &files.proc_stat {
        let line = first_line(s.as_slice());
        let ws = split_words(line.as_slice());
        let key = cpu_key_bytes();
        if ws.len() > 0 {
            assert(views(ws@)[0] == ws@[0]@);
            if bytes_eq(ws[0].as_slice(), key.as_slice()) {
                return SourceKind::HostProcStat;
            }
        }
    }
    SourceKind::Unavailable
}


/// With both cgroup files unreadable and a well-formed `/proc/stat`, the
/// detector picks the host-wide source, every fallback chain ends there, and
/// its figure is published as computed from `/proc/stat`.
pub proof fn lemma_no_cgroup_falls_back_to_host(files: CounterFiles, start: SourceKind)
    requires
        files.cgroup_v2_stat is None,
        files.cgroup_v1_usage is None,
        proc_stat_of(files) is Ok,
        start != SourceKind::Unavailable,
    ensures
        detected(files) == SourceKind::HostProcStat,
        read_chain(start, files) == Some((SourceKind::HostProcStat, host_sample(files)->Ok_0)),
        !SourceKind::HostProcStat.is_cgroup(),
{
    let s = files.proc_stat->Some_0;
    let ws = words(first_line_of(s@));
    assert(host_record_ok(ws));
    if start == SourceKind::CgroupV2 {
        assert(read_chain(SourceKind::CgroupV1, files) == read_chain(SourceKind::HostProcStat, files));
    }
}

} // verus!
