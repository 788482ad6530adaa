//! Resource-usage monitor core: parsers for the kernel accounting files,
//! source detection with fallback, delta-based CPU utilization, the sampling
//! state machine, and the snapshot shared with metric exporters.

pub mod counters;
pub mod publish;
pub mod sampler;
pub mod shared;
pub mod text;

pub use counters::{
    count_processors, detect, get_online_cpus, parse_cgroup_v1_usage, parse_cgroup_v2_usage,
    parse_proc_stat, parse_quota_cpus, parse_single_number, read_with_fallback, try_cgroups_v1,
    try_cgroups_v2, try_host_proc_stat, CgroupCpuStats, CounterFiles, ReadError, SourceKind,
};
pub use sampler::{
    container_cpu_basis_points, ProcessReading, Sampler, SamplerPhase, SourcedSample,
    UtilizationSnapshot, FULL_SCALE, REPROBE_AFTER,
};
pub use publish::{Attribute, AttributeValue, Instrument};
pub use shared::{SharedSnapshot, SnapshotInvariant};
pub use text::{first_line, parse_decimal, split_words};
