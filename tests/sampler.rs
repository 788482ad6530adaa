use resource_monitor::{
    container_cpu_basis_points, CgroupCpuStats, CounterFiles, ProcessReading, Sampler,
    SamplerPhase, SharedSnapshot, SourceKind, UtilizationSnapshot, FULL_SCALE, REPROBE_AFTER,
};

fn sample(kind: SourceKind, container: u64, host: u64, cpus: u32) -> (SourceKind, CgroupCpuStats) {
    (kind, CgroupCpuStats { usage_total: container, system_usage: host, online_cpus: cpus })
}

#[test]
fn percent_formula() {
    // (200e6 / 1e9) * 2 * 100 = 40 %
    assert_eq!(container_cpu_basis_points(200_000_000, 1_000_000_000, 2), 4000);
    assert_eq!(container_cpu_basis_points(1_000_000_000, 1_000_000_000, 4), FULL_SCALE);
    assert_eq!(container_cpu_basis_points(0, 1_000_000_000, 8), 0);
    assert_eq!(container_cpu_basis_points(u64::MAX, u64::MAX, u32::MAX), FULL_SCALE);
    assert_eq!(container_cpu_basis_points(1, 3, 1), 3333);
}

#[test]
fn first_sample_is_zero() {
    let mut s = Sampler::new(SourceKind::CgroupV2);
    assert_eq!(s.phase, SamplerPhase::Uninitialized);
    s.record(Some(sample(SourceKind::CgroupV2, 5_000_000_000, 90_000_000_000, 2)), None, 5);
    assert_eq!(s.snapshot().container_cpu_bp, 0);
    assert_eq!(s.phase, SamplerPhase::Baseline);
    assert_eq!(s.snapshot().last_updated_ms, 5);
}

#[test]
fn two_samples_give_forty_percent() {
    let mut s = Sampler::new(SourceKind::CgroupV2);
    s.record(Some(sample(SourceKind::CgroupV2, 1_000_000_000, 10_000_000_000, 2)), None, 0);
    s.record(Some(sample(SourceKind::CgroupV2, 1_200_000_000, 11_000_000_000, 2)), None, 5000);
    assert_eq!(s.snapshot().container_cpu_bp, 4000);
    assert_eq!(s.phase, SamplerPhase::SteadyState);
}

#[test]
fn rate_is_capped_at_full_scale() {
    let mut s = Sampler::new(SourceKind::CgroupV1);
    s.record(Some(sample(SourceKind::CgroupV1, 0, 0, 8)), None, 0);
    s.record(Some(sample(SourceKind::CgroupV1, 900, 1000, 8)), None, 1);
    assert_eq!(s.snapshot().container_cpu_bp, FULL_SCALE);
}

#[test]
fn counter_reset_rebaselines() {
    let mut s = Sampler::new(SourceKind::CgroupV2);
    s.record(Some(sample(SourceKind::CgroupV2, 1_000_000_000, 10_000_000_000, 2)), None, 0);
    s.record(Some(sample(SourceKind::CgroupV2, 1_200_000_000, 11_000_000_000, 2)), None, 1);
    assert_eq!(s.snapshot().container_cpu_bp, 4000);
    // the container was recreated: its counter starts again
    s.record(Some(sample(SourceKind::CgroupV2, 100_000_000, 12_000_000_000, 2)), None, 2);
    assert_eq!(s.snapshot().container_cpu_bp, 0);
    assert_eq!(s.phase, SamplerPhase::Baseline);
    // measured from the reset-time sample: 100e6 / 1e9 * 2 = 20 %
    s.record(Some(sample(SourceKind::CgroupV2, 200_000_000, 13_000_000_000, 2)), None, 3);
    assert_eq!(s.snapshot().container_cpu_bp, 2000);
}

#[test]
fn source_change_rebaselines() {
    let mut s = Sampler::new(SourceKind::CgroupV2);
    s.record(Some(sample(SourceKind::CgroupV2, 100, 1000, 1)), None, 0);
    s.record(Some(sample(SourceKind::HostProcStat, 500, 2000, 1)), None, 1);
    assert_eq!(s.snapshot().container_cpu_bp, 0);
    assert_eq!(s.snapshot().source, SourceKind::HostProcStat);
    assert_eq!(s.phase, SamplerPhase::Baseline);
}

#[test]
fn empty_host_interval_keeps_figure() {
    let mut s = Sampler::new(SourceKind::CgroupV2);
    s.record(Some(sample(SourceKind::CgroupV2, 1_000_000_000, 10_000_000_000, 2)), None, 0);
    s.record(Some(sample(SourceKind::CgroupV2, 1_200_000_000, 11_000_000_000, 2)), None, 1);
    s.record(Some(sample(SourceKind::CgroupV2, 1_300_000_000, 11_000_000_000, 2)), None, 2);
    assert_eq!(s.snapshot().container_cpu_bp, 4000);
    assert_eq!(s.snapshot().last_updated_ms, 2);
}

#[test]
fn failed_read_holds_figure_and_degrades() {
    let mut s = Sampler::new(SourceKind::CgroupV2);
    s.record(Some(sample(SourceKind::CgroupV2, 1_000_000_000, 10_000_000_000, 2)), None, 0);
    s.record(Some(sample(SourceKind::CgroupV2, 1_200_000_000, 11_000_000_000, 2)), None, 1);
    let p = ProcessReading { cpu_bp: 1234, memory_bytes: 4096 };
    s.record(None, Some(p), 2);
    assert_eq!(s.phase, SamplerPhase::Degraded);
    assert_eq!(s.snapshot().container_cpu_bp, 4000);
    assert_eq!(s.snapshot().process_cpu_bp, 1234);
    assert_eq!(s.snapshot().process_memory_bytes, 4096);
    // the baseline survives the failed cycle
    s.record(Some(sample(SourceKind::CgroupV2, 1_300_000_000, 12_000_000_000, 2)), None, 3);
    assert_eq!(s.snapshot().container_cpu_bp, 2000);
}

#[test]
fn process_figures_held_and_capped() {
    let mut s = Sampler::new(SourceKind::Unavailable);
    s.record(None, Some(ProcessReading { cpu_bp: 25_000, memory_bytes: 10 }), 1);
    assert_eq!(s.snapshot().process_cpu_bp, FULL_SCALE);
    s.record(None, None, 2);
    assert_eq!(s.snapshot().process_cpu_bp, FULL_SCALE);
    assert_eq!(s.snapshot().process_memory_bytes, 10);
}

#[test]
fn refresh_reads_the_files() {
    let files = CounterFiles {
        cgroup_v2_stat: Some(b"usage_usec 1000\n".to_vec()),
        cgroup_v1_usage: None,
        cfs_quota: None,
        cfs_period: None,
        proc_stat: Some(b"cpu 100 0 0 0 0 0 0 0\n".to_vec()),
        cpuinfo: Some(b"processor : 0\n".to_vec()),
    };
    let mut s = Sampler::new(SourceKind::CgroupV2);
    s.refresh(&files, None, 1);
    assert_eq!(s.previous, Some(sample(SourceKind::CgroupV2, 1_000_000, 1_000_000_000, 1)));
    let later = CounterFiles {
        cgroup_v2_stat: Some(b"usage_usec 251000\n".to_vec()),
        cgroup_v1_usage: None,
        cfs_quota: None,
        cfs_period: None,
        proc_stat: Some(b"cpu 200 0 0 0 0 0 0 0\n".to_vec()),
        cpuinfo: Some(b"processor : 0\n".to_vec()),
    };
    s.refresh(&later, None, 2);
    // 250e6 ns over 1e9 ns on one CPU: 25 %
    assert_eq!(s.snapshot().container_cpu_bp, 2500);
    assert_eq!(s.snapshot().source.calculation_method(), "cgroups");
}

#[test]
fn shared_snapshot_is_replaced_whole() {
    let first = UtilizationSnapshot::zero(SourceKind::CgroupV2);
    let shared = SharedSnapshot::new(first);
    assert_eq!(shared.read(), first);
    let next = UtilizationSnapshot {
        container_cpu_bp: 4000,
        process_cpu_bp: 150,
        process_memory_bytes: 1 << 20,
        last_updated_ms: 5000,
        source: SourceKind::CgroupV2,
    };
    shared.publish(next);
    assert_eq!(shared.read(), next);
    assert_eq!(shared.read(), next);
}

fn files(v2: Option<&str>, v1: Option<&str>) -> CounterFiles {
    CounterFiles {
        cgroup_v2_stat: v2.map(|s| s.as_bytes().to_vec()),
        cgroup_v1_usage: v1.map(|s| s.as_bytes().to_vec()),
        cfs_quota: None,
        cfs_period: None,
        proc_stat: Some(b"cpu 100 0 0 0 0 0 0 0\n".to_vec()),
        cpuinfo: Some(b"processor : 0\n".to_vec()),
    }
}

#[test]
fn chosen_source_is_detected_again_after_repeated_failures() {
    assert_eq!(REPROBE_AFTER, 3);
    let mut s = Sampler::new(SourceKind::CgroupV2);
    s.refresh(&files(Some("usage_usec 10\n"), None), None, 0);
    assert_eq!(s.failures, 0);
    let v1_only = files(None, Some("500\n"));
    s.refresh(&v1_only, None, 1);
    // the cycle falls back to cgroup v1 without changing the choice
    assert_eq!(s.snapshot().source, SourceKind::CgroupV1);
    assert_eq!((s.source, s.failures), (SourceKind::CgroupV2, 1));
    s.refresh(&v1_only, None, 2);
    assert_eq!((s.source, s.failures), (SourceKind::CgroupV2, 2));
    s.refresh(&v1_only, None, 3);
    assert_eq!((s.source, s.failures), (SourceKind::CgroupV1, 0));
    s.refresh(&v1_only, None, 4);
    assert_eq!((s.source, s.failures), (SourceKind::CgroupV1, 0));
}

#[test]
fn unavailable_source_recovers() {
    let nothing = CounterFiles {
        cgroup_v2_stat: None,
        cgroup_v1_usage: None,
        cfs_quota: None,
        cfs_period: None,
        proc_stat: None,
        cpuinfo: None,
    };
    let mut s = Sampler::new(SourceKind::Unavailable);
    s.refresh(&nothing, None, 0);
    assert_eq!(s.phase, SamplerPhase::Degraded);
    let host = files(None, None);
    s.refresh(&host, None, 1);
    assert_eq!((s.source, s.failures), (SourceKind::Unavailable, 2));
    s.refresh(&host, None, 2);
    assert_eq!((s.source, s.failures), (SourceKind::HostProcStat, 0));
    s.refresh(&host, None, 3);
    assert_eq!(s.snapshot().source, SourceKind::HostProcStat);
    assert_eq!(s.snapshot().source.calculation_method(), "proc_stat");
    assert_eq!(s.phase, SamplerPhase::Baseline);
}

#[test]
fn source_change_with_idle_host_keeps_figure() {
    let mut s = Sampler::new(SourceKind::CgroupV2);
    s.record(Some(sample(SourceKind::CgroupV2, 1_000_000_000, 10_000_000_000, 2)), None, 0);
    s.record(Some(sample(SourceKind::CgroupV2, 1_200_000_000, 11_000_000_000, 2)), None, 1);
    assert_eq!(s.snapshot().container_cpu_bp, 4000);
    s.record(Some(sample(SourceKind::CgroupV1, 1_300_000_000, 11_000_000_000, 2)), None, 2);
    assert_eq!(s.snapshot().container_cpu_bp, 4000);
    assert_eq!(s.phase, SamplerPhase::Baseline);
    // the next delta is measured against the cgroup v1 sample
    s.record(Some(sample(SourceKind::CgroupV1, 1_400_000_000, 12_000_000_000, 2)), None, 3);
    assert_eq!(s.snapshot().container_cpu_bp, 2000);
    // a reset with an idle host counter still rebaselines to zero
    s.record(Some(sample(SourceKind::CgroupV1, 5, 12_000_000_000, 2)), None, 4);
    assert_eq!(s.snapshot().container_cpu_bp, 0);
}
