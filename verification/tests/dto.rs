use backend::connector::dto::{MetricsEntryModel, MetricsSnapshotModel};
use backend::services::dto::{
    BackendAlienCount, BackendCorruptedBlobCount, Bad, ClusterGrinderGetCountRate, Delete,
    DiskCount, Exist, Get, Good, HardwareBobCpuLoad, HardwareBobVirtualRam,
    HardwareDescrAmount, HardwareFreeSpace, HardwareTotalRam, HardwareTotalSpace, NodeCount,
    NodeProblem, NodeStatus, Offline, Put, SpaceInfo, TypedMetrics, RPS,
};

fn entry(value: u64, timestamp: u64) -> MetricsEntryModel {
    MetricsEntryModel { value, timestamp }
}

fn snapshot(pairs: &[(&str, u64, u64)]) -> MetricsSnapshotModel {
    MetricsSnapshotModel {
        metrics: pairs.iter().map(|(k, v, t)| (k.to_string(), entry(*v, *t))).collect(),
    }
}

#[test]
fn typed_metrics_from_snapshot() {
    let m = TypedMetrics::from(snapshot(&[
        ("backend.alien_count", 3, 1),
        ("hardware.total_space", 1000, 2),
        ("unrelated.metric", 9, 9),
        ("backend.alien_count", 5, 4),
    ]));
    assert_eq!(m[BackendAlienCount], entry(5, 4));
    assert_eq!(m[HardwareTotalSpace], entry(1000, 2));
    assert_eq!(m[HardwareFreeSpace], entry(0, 0));
    assert_eq!(m[ClusterGrinderGetCountRate], entry(0, 0));
}

#[test]
fn typed_metrics_empty_snapshot_is_new() {
    let m = TypedMetrics::from(snapshot(&[]));
    let n = TypedMetrics::new();
    assert_eq!(m[HardwareDescrAmount], n[HardwareDescrAmount]);
    assert_eq!(m[BackendAlienCount], entry(0, 0));
    assert_eq!(TypedMetrics::default()[HardwareTotalRam], entry(0, 0));
}

#[test]
fn typed_metrics_index_mut() {
    let mut m = TypedMetrics::new();
    m[HardwareBobCpuLoad] = entry(95, 1);
    assert_eq!(m[HardwareBobCpuLoad], entry(95, 1));
    assert_eq!(m[BackendAlienCount], entry(0, 0));
}

#[test]
fn metrics_entry_order() {
    assert!(entry(2, 0) > entry(1, 9));
    assert!(entry(1, 2) > entry(1, 1));
    assert!(!(entry(1, 1) > entry(1, 1)));
    assert!(!(entry(0, 9) > entry(1, 0)));
    assert_eq!(MetricsEntryModel::default(), entry(0, 0));
}

#[test]
fn node_problems_none() {
    let m = TypedMetrics::new();
    let problems = NodeProblem::from_metrics(&m);
    assert!(problems.is_empty());
    assert_eq!(NodeStatus::from_problems(problems), NodeStatus::Good);
}

#[test]
fn node_problems_all_in_order() {
    let mut m = TypedMetrics::new();
    m[BackendAlienCount] = entry(1, 0);
    m[BackendCorruptedBlobCount] = entry(2, 0);
    m[HardwareBobCpuLoad] = entry(90, 0);
    m[HardwareBobVirtualRam] = entry(10, 0);
    m[HardwareTotalRam] = entry(9, 0);
    m[HardwareTotalSpace] = entry(100, 0);
    m[HardwareFreeSpace] = entry(5, 0);
    let problems = NodeProblem::from_metrics(&m);
    assert_eq!(
        problems,
        vec![
            NodeProblem::AliensExists,
            NodeProblem::CorruptedExists,
            NodeProblem::HighCPULoad,
            NodeProblem::FreeSpaceRunningOut,
            NodeProblem::VirtualMemLargerThanRAM,
        ]
    );
    assert_eq!(NodeStatus::from_problems(problems.clone()), NodeStatus::Bad(problems));
}

#[test]
fn node_problems_thresholds() {
    let mut m = TypedMetrics::new();
    m[HardwareBobCpuLoad] = entry(89, 0);
    m[HardwareBobVirtualRam] = entry(9, 1);
    m[HardwareTotalRam] = entry(9, 1);
    assert!(NodeProblem::from_metrics(&m).is_empty());
    m[HardwareBobVirtualRam] = entry(9, 2);
    assert_eq!(
        NodeProblem::from_metrics(&m),
        vec![NodeProblem::VirtualMemLargerThanRAM]
    );
    let mut low = TypedMetrics::new();
    low[HardwareTotalSpace] = entry(10, 0);
    low[HardwareFreeSpace] = entry(1, 0);
    assert_eq!(NodeProblem::from_metrics(&low), vec![NodeProblem::FreeSpaceRunningOut]);
    low[HardwareFreeSpace] = entry(2, 0);
    assert!(NodeProblem::from_metrics(&low).is_empty());
}

#[test]
fn counts_start_at_zero() {
    let mut d = DiskCount::new();
    assert_eq!((d[Good], d[Bad], d[Offline]), (0, 0, 0));
    d[Bad] += 2;
    assert_eq!((d[Good], d[Bad], d[Offline]), (0, 2, 0));
    let mut n = NodeCount::default();
    n[Offline] = 4;
    assert_eq!((n[Good], n[Bad], n[Offline]), (0, 0, 4));
    let mut r = RPS::new();
    r[Get] = 10;
    r[Put] = 3;
    assert_eq!((r[Put], r[Delete], r[Exist], r[Get]), (3, 0, 0, 10));
}

#[test]
fn space_info_default() {
    let s = SpaceInfo::default();
    assert_eq!(s, SpaceInfo { total_disk: 0, free_disk: 0, used_disk: 0, occupied_disk: 0 });
}

#[test]
fn changing_one_metric_changes_only_its_problem() {
    let mut base = TypedMetrics::new();
    base[BackendCorruptedBlobCount] = entry(3, 0);
    base[HardwareTotalSpace] = entry(100, 0);
    base[HardwareFreeSpace] = entry(5, 0);
    let before = NodeProblem::from_metrics(&base);
    assert_eq!(before, vec![NodeProblem::CorruptedExists, NodeProblem::FreeSpaceRunningOut]);

    let mut aliens = TypedMetrics::from(snapshot(&[]));
    aliens[BackendCorruptedBlobCount] = entry(3, 0);
    aliens[HardwareTotalSpace] = entry(100, 0);
    aliens[HardwareFreeSpace] = entry(5, 0);
    aliens[BackendAlienCount] = entry(7, 0);
    assert_eq!(
        NodeProblem::from_metrics(&aliens),
        vec![
            NodeProblem::AliensExists,
            NodeProblem::CorruptedExists,
            NodeProblem::FreeSpaceRunningOut
        ]
    );

    let mut cpu = TypedMetrics::new();
    cpu[BackendCorruptedBlobCount] = entry(3, 0);
    cpu[HardwareTotalSpace] = entry(100, 0);
    cpu[HardwareFreeSpace] = entry(5, 0);
    cpu[HardwareBobCpuLoad] = entry(95, 0);
    assert_eq!(
        NodeProblem::from_metrics(&cpu),
        vec![
            NodeProblem::CorruptedExists,
            NodeProblem::HighCPULoad,
            NodeProblem::FreeSpaceRunningOut
        ]
    );

    let mut clean = TypedMetrics::new();
    clean[HardwareTotalSpace] = entry(100, 0);
    clean[HardwareFreeSpace] = entry(5, 0);
    assert_eq!(NodeProblem::from_metrics(&clean), vec![NodeProblem::FreeSpaceRunningOut]);
}
