//! The shapes the backend answers with: disks, nodes, virtual disks and
//! replicas with their statuses, counters by status, and the typed metrics of
//! a node with the rules that turn them into problems.
use crate::connector::dto::{
    entry_greater, entry_or_default, find_entry, MetricsEntryModel, MetricsSnapshotModel,
};
use crate::models::consts::MAX_CPU;
use crate::services::space::{free_space_is_low, free_space_running_out};
pub use crate::models::models::{BobConnectionData, Credentials};
use vstd::prelude::*;

verus! {

pub struct Good;

pub struct Bad;

pub struct Offline;

/// Physical disk definition
#[derive(Debug, Clone, Eq, PartialEq)]
pub struct Disk {
    /// Disk name
    pub name: String,
    /// Disk path
    pub path: String,
    /// Disk status
    pub status: DiskStatus,
    pub total_space: u64,
    pub used_space: u64,
    pub iops: u64,
}

/// Defines kind of problem on disk
#[derive(Debug, Clone, Copy, Eq, PartialEq, Structural)]
pub enum DiskProblem {
    FreeSpaceRunningOut,
}

/// Defines disk status
///
/// Variant - Disk Status
/// Content - List of problems on disk. 'null' if status != 'bad'
#[derive(Debug, Clone, Eq, PartialEq)]
pub enum DiskStatus {
    Good,
    Bad(Vec<DiskProblem>),
    Offline,
}

#[derive(Debug, Clone, Eq, PartialEq)]
pub struct Node {
    pub name: String,
    pub hostname: String,
    pub vdisks: Vec<VDisk>,
    pub status: NodeStatus,
    pub rps: Option<u64>,
    pub alien_count: Option<u64>,
    pub corrupted_count: Option<u64>,
    pub space: Option<SpaceInfo>,
}

/// Defines kind of problem on Node
#[derive(Debug, Clone, Copy, Eq, PartialEq, Structural)]
pub enum NodeProblem {
    AliensExists,
    CorruptedExists,
    FreeSpaceRunningOut,
    VirtualMemLargerThanRAM,
    HighCPULoad,
}

/// The problems that the metrics `m` of a node show, in the order in which
/// they are checked: aliens, corrupted blobs, CPU load, free space, virtual
/// memory against RAM.
pub open spec fn node_problems(m: Seq<MetricsEntryModel>) -> Seq<NodeProblem> {
    let p0 = Seq::<NodeProblem>::empty();
    // backend.alien_count
    let p1 = if m[8].value != 0 {
        p0.push(NodeProblem::AliensExists)
    } else {
        p0
    };
    // backend.corrupted_blob_count
    let p2 = if m[9].value != 0 {
        p1.push(NodeProblem::CorruptedExists)
    } else {
        p1
    };
    // hardware.bob_cpu_load
    let p3 = if m[13].value >= MAX_CPU {
        p2.push(NodeProblem::HighCPULoad)
    } else {
        p2
    };
    // hardware.total_space and hardware.free_space
    let p4 = if free_space_is_low(m[15].value as nat, m[14].value as nat) {
        p3.push(NodeProblem::FreeSpaceRunningOut)
    } else {
        p3
    };
    // hardware.bob_virtual_ram against hardware.total_ram
    if entry_greater(m[10], m[11]) {
        p4.push(NodeProblem::VirtualMemLargerThanRAM)
    } else {
        p4
    }
}

/// Metrics that show no problem at all.
pub open spec fn node_is_healthy(m: Seq<MetricsEntryModel>) -> bool {
    &&& m[8].value == 0
    &&& m[9].value == 0
    &&& m[13].value < MAX_CPU
    &&& !free_space_is_low(m[15].value as nat, m[14].value as nat)
    &&& !entry_greater(m[10], m[11])
}

impl NodeProblem {
    /// The problems that the metrics of a node show. The free space of a node
    /// is at most its total space; the rule subtracts the one from the other.
    pub fn from_metrics(node_metrics: &TypedMetrics) -> (r: Vec<Self>)
        requires
            node_metrics@[14].value <= node_metrics@[15].value,
        ensures
            r@ == node_problems(node_metrics@),
    {
        let mut res: Vec<NodeProblem> = Vec::new();
        if node_metrics[BackendAlienCount].value != 0 {
            res.push(Self::AliensExists);
        }
        if node_metrics[BackendCorruptedBlobCount].value != 0 {
            res.push(Self::CorruptedExists);
        }
        if node_metrics[HardwareBobCpuLoad].value >= MAX_CPU {
            res.push(Self::HighCPULoad);
        }
        if free_space_running_out(
            node_metrics[HardwareTotalSpace].value,
            node_metrics[HardwareFreeSpace].value,
        ) {
            res.push(Self::FreeSpaceRunningOut);
        }
        if node_metrics[HardwareBobVirtualRam] > node_metrics[HardwareTotalRam] {
            res.push(Self::VirtualMemLargerThanRAM);
        }
        res
    }
}

/// Defines status of node
///
/// Variants - Node status
///
/// Content - List of problems on node. 'null' if status != 'bad'
#[derive(Debug, Clone, Eq, PartialEq)]
pub enum NodeStatus {
    Good,
    Bad(Vec<NodeProblem>),
    Offline,
}

impl NodeStatus {
    /// `Good` where there is no problem, else `Bad` with the problems.
    pub fn from_problems(problems: Vec<NodeProblem>) -> (r: Self)
        ensures
            problems@.len() == 0 ==> r is Good,
            problems@.len() > 0 ==> (r matches NodeStatus::Bad(p) && p@ == problems@),
    {
        if problems.len() == 0 {
            Self::Good
        } else {
            Self::Bad(problems)
        }
    }
}

/// The metrics of a node show no problem exactly where none of the rules
/// fires.
pub proof fn lemma_no_problem_iff_healthy(m: Seq<MetricsEntryModel>)
    ensures
        node_problems(m).len() == 0 <==> node_is_healthy(m),
{
}

/// No problem is reported twice for one node.
pub proof fn lemma_node_problems_distinct(m: Seq<MetricsEntryModel>)
    ensures
        node_problems(m).no_duplicates(),
{
    let p = node_problems(m);
    assert forall|i: int, j: int| 0 <= i < j < p.len() implies p[i] != p[j] by {
    }
}

/// Whether problem `p` is read from the metric at index `k` of the metrics
/// of a node: aliens from the alien count, corrupted blobs from the
/// corrupted blob count, CPU load from the CPU load, free space from the free
/// and the total space, virtual memory from the virtual and the total RAM.
pub open spec fn problem_reads(p: NodeProblem, k: int) -> bool {
    match p {
        NodeProblem::AliensExists => k == 8,
        NodeProblem::CorruptedExists => k == 9,
        NodeProblem::HighCPULoad => k == 13,
        NodeProblem::FreeSpaceRunningOut => k == 14 || k == 15,
        NodeProblem::VirtualMemLargerThanRAM => k == 10 || k == 11,
    }
}

/// Each problem is reported exactly where its own rule fires.
pub proof fn lemma_node_problem_rules(m: Seq<MetricsEntryModel>)
    ensures
        node_problems(m).contains(NodeProblem::AliensExists) <==> m[8].value != 0,
        node_problems(m).contains(NodeProblem::CorruptedExists) <==> m[9].value != 0,
        node_problems(m).contains(NodeProblem::HighCPULoad) <==> m[13].value >= MAX_CPU,
        node_problems(m).contains(NodeProblem::FreeSpaceRunningOut) <==> free_space_is_low(
            m[15].value as nat,
            m[14].value as nat,
        ),
        node_problems(m).contains(NodeProblem::VirtualMemLargerThanRAM) <==> entry_greater(
            m[10],
            m[11],
        ),
{
    let ps = node_problems(m);
    assert forall|p: NodeProblem| ps.contains(p) implies match p {
        NodeProblem::AliensExists => m[8].value != 0,
        NodeProblem::CorruptedExists => m[9].value != 0,
        NodeProblem::HighCPULoad => m[13].value >= MAX_CPU,
        NodeProblem::FreeSpaceRunningOut => free_space_is_low(m[15].value as nat, m[14].value as nat),
        NodeProblem::VirtualMemLargerThanRAM => entry_greater(m[10], m[11]),
    } by {
        let i = choose|i: int| 0 <= i < ps.len() && ps[i] == p;
    }
    if m[8].value != 0 {
        assert(ps[0] == NodeProblem::AliensExists);
    }
    if m[9].value != 0 {
        let i: int = if m[8].value != 0 { 1 } else { 0 };
        assert(ps[i] == NodeProblem::CorruptedExists);
    }
    let n2: int = (if m[8].value != 0 { 1int } else { 0int }) + (if m[9].value != 0 { 1int } else { 0int });
    if m[13].value >= MAX_CPU {
        assert(ps[n2] == NodeProblem::HighCPULoad);
    }
    let n3: int = n2 + if m[13].value >= MAX_CPU { 1int } else { 0int };
    if free_space_is_low(m[15].value as nat, m[14].value as nat) {
        assert(ps[n3] == NodeProblem::FreeSpaceRunningOut);
    }
    let n4: int = n3 + if free_space_is_low(m[15].value as nat, m[14].value as nat) { 1int } else { 0int };
    if entry_greater(m[10], m[11]) {
        assert(ps[n4] == NodeProblem::VirtualMemLargerThanRAM);
    }
}

/// Changing one metric of a node changes only the problems read from it:
/// every other problem is reported for both metrics or for neither.
pub proof fn lemma_problems_read_own_metrics(
    m1: Seq<MetricsEntryModel>,
    m2: Seq<MetricsEntryModel>,
    k: int,
    p: NodeProblem,
)
    requires
        m1.len() == typed_metric_names().len(),
        m2.len() == m1.len(),
        forall|i: int| 0 <= i < m1.len() && i != k ==> m1[i] == m2[i],
        !problem_reads(p, k),
    ensures
        node_problems(m1).contains(p) <==> node_problems(m2).contains(p),
{
    lemma_node_problem_rules(m1);
    lemma_node_problem_rules(m2);
    match p {
        NodeProblem::AliensExists => assert(m1[8] == m2[8]),
        NodeProblem::CorruptedExists => assert(m1[9] == m2[9]),
        NodeProblem::HighCPULoad => assert(m1[13] == m2[13]),
        NodeProblem::FreeSpaceRunningOut => assert(m1[14] == m2[14] && m1[15] == m2[15]),
        NodeProblem::VirtualMemLargerThanRAM => assert(m1[10] == m2[10] && m1[11] == m2[11]),
    }
}

/// [`VDisk`]'s replicas
#[derive(Debug, Clone, Eq, PartialEq)]
pub struct Replica {
    pub node: String,
    pub disk: String,
    pub path: String,
    pub status: ReplicaStatus,
}

/// Reasons why Replica is offline
#[derive(Debug, Clone, Copy, Eq, PartialEq, Structural)]
pub enum ReplicaProblem {
    NodeUnavailable,
    DiskUnavailable,
}

/// Replica status. It's either good or offline with the reasons why it is offline
///
/// Variants - Replica status
///
/// Content - List of problems on replica. 'null' if status != 'offline'
#[derive(Debug, Clone, Eq, PartialEq)]
pub enum ReplicaStatus {
    Good,
    Offline(Vec<ReplicaProblem>),
}

/// Disk space information in bytes
#[derive(Debug, Clone, Copy, Eq, PartialEq, Structural)]
pub struct SpaceInfo {
    /// Total disk space amount
    pub total_disk: u64,
    /// The amount of free disk space
    pub free_disk: u64,
    /// Used disk space amount
    pub used_disk: u64,
    /// Disk space occupied only by BOB. occupied_disk should be lesser than used_disk
    pub occupied_disk: u64,
}

impl Default for SpaceInfo {
    fn default() -> (r: Self)
        ensures
            r == (SpaceInfo { total_disk: 0, free_disk: 0, used_disk: 0, occupied_disk: 0 }),
    {
        SpaceInfo { total_disk: 0, free_disk: 0, used_disk: 0, occupied_disk: 0 }
    }
}

/// Virtual disk Component
#[derive(Debug, Clone, Eq, PartialEq)]
pub struct VDisk {
    pub id: u64,
    pub status: VDiskStatus,
    pub partition_count: u64,
    pub replicas: Vec<Replica>,
}

/// Virtual disk status.
///
/// Variants - Virtual Disk status
/// status == 'bad' when at least one of its replicas has problems
#[derive(Debug, Clone, Copy, Eq, PartialEq, Structural)]
pub enum VDiskStatus {
    Good,
    Bad,
    Offline,
}

#[derive(Debug, Clone)]
pub struct DetailedNode {
    pub name: String,
    pub hostname: String,
    pub vdisks: Vec<VDisk>,
    pub status: NodeStatus,
    pub metrics: DetailedNodeMetrics,
    pub disks: Vec<Disk>,
}

#[derive(Debug, Clone)]
pub struct DetailedNodeMetrics {
    pub rps: RPS,
    pub alien_count: u64,
    pub corrupted_count: u64,
    pub space: SpaceInfo,
    pub cpu_load: u64,
    pub total_ram: u64,
    pub used_ram: u64,
    pub descr_amount: u64,
}

pub struct Put;

pub struct Get;

pub struct Exist;

pub struct Delete;

/// Number of disks in each status.
#[derive(Clone, Copy, Debug)]
pub struct DiskCount {
    good: u64,
    bad: u64,
    offline: u64,
}

impl View for DiskCount {
    type V = Seq<u64>;

    /// The counters in the order of [`diskcount_keys`].
    closed spec fn view(&self) -> Seq<u64> {
        seq![self.good, self.bad, self.offline]
    }
}

/// The names under which the counters of [`DiskCount`] are kept.
pub open spec fn diskcount_keys() -> Seq<Seq<char>> {
    seq!["good"@, "bad"@, "offline"@]
}

impl DiskCount {
    /// Every counter at 0.
    pub fn new() -> (r: Self)
        ensures
            r@ == Seq::new(3, |i: int| 0u64),
    {
        let r = DiskCount { good: 0, bad: 0, offline: 0 };
        assert(r@ =~= Seq::new(3, |i: int| 0u64));
        r
    }

}

impl Default for DiskCount {
    fn default() -> (r: Self)
        ensures
            r@ == Seq::new(3, |i: int| 0u64),
    {
        Self::new()
    }
}

impl core::ops::Index<Good> for DiskCount {
    type Output = u64;

    fn index(&self, _index: Good) -> (r: &u64)
        ensures
            *r == self@[0],
    {
        &self.good
    }
}

impl vstd::std_specs::core::IndexSpecImpl<Good> for DiskCount {
    open spec fn index_req(&self, index: &Good) -> bool {
        true
    }
}

impl core::ops::IndexMut<Good> for DiskCount {
    fn index_mut(&mut self, _index: Good) -> (r: &mut u64)
        ensures
            *r == old(self)@[0],
            final(self)@ == old(self)@.update(0, *final(r)),
    {
        &mut self.good
    }
}

impl core::ops::Index<Bad> for DiskCount {
    type Output = u64;

    fn index(&self, _index: Bad) -> (r: &u64)
        ensures
            *r == self@[1],
    {
        &self.bad
    }
}

impl vstd::std_specs::core::IndexSpecImpl<Bad> for DiskCount {
    open spec fn index_req(&self, index: &Bad) -> bool {
        true
    }
}

impl core::ops::IndexMut<Bad> for DiskCount {
    fn index_mut(&mut self, _index: Bad) -> (r: &mut u64)
        ensures
            *r == old(self)@[1],
            final(self)@ == old(self)@.update(1, *final(r)),
    {
        &mut self.bad
    }
}

impl core::ops::Index<Offline> for DiskCount {
    type Output = u64;

    fn index(&self, _index: Offline) -> (r: &u64)
        ensures
            *r == self@[2],
    {
        &self.offline
    }
}

impl vstd::std_specs::core::IndexSpecImpl<Offline> for DiskCount {
    open spec fn index_req(&self, index: &Offline) -> bool {
        true
    }
}

impl core::ops::IndexMut<Offline> for DiskCount {
    fn index_mut(&mut self, _index: Offline) -> (r: &mut u64)
        ensures
            *r == old(self)@[2],
            final(self)@ == old(self)@.update(2, *final(r)),
    {
        &mut self.offline
    }
}

/// Number of nodes in each status.
#[derive(Clone, Copy, Debug)]
pub struct NodeCount {
    good: u64,
    bad: u64,
    offline: u64,
}

impl View for NodeCount {
    type V = Seq<u64>;

    /// The counters in the order of [`nodecount_keys`].
    closed spec fn view(&self) -> Seq<u64> {
        seq![self.good, self.bad, self.offline]
    }
}

/// The names under which the counters of [`NodeCount`] are kept.
pub open spec fn nodecount_keys() -> Seq<Seq<char>> {
    seq!["good"@, "bad"@, "offline"@]
}

impl NodeCount {
    /// Every counter at 0.
    pub fn new() -> (r: Self)
        ensures
            r@ == Seq::new(3, |i: int| 0u64),
    {
        let r = NodeCount { good: 0, bad: 0, offline: 0 };
        assert(r@ =~= Seq::new(3, |i: int| 0u64));
        r
    }

}

impl Default for NodeCount {
    fn default() -> (r: Self)
        ensures
            r@ == Seq::new(3, |i: int| 0u64),
    {
        Self::new()
    }
}

impl core::ops::Index<Good> for NodeCount {
    type Output = u64;

    fn index(&self, _index: Good) -> (r: &u64)
        ensures
            *r == self@[0],
    {
        &self.good
    }
}

impl vstd::std_specs::core::IndexSpecImpl<Good> for NodeCount {
    open spec fn index_req(&self, index: &Good) -> bool {
        true
    }
}

impl core::ops::IndexMut<Good> for NodeCount {
    fn index_mut(&mut self, _index: Good) -> (r: &mut u64)
        ensures
            *r == old(self)@[0],
            final(self)@ == old(self)@.update(0, *final(r)),
    {
        &mut self.good
    }
}

impl core::ops::Index<Bad> for NodeCount {
    type Output = u64;

    fn index(&self, _index: Bad) -> (r: &u64)
        ensures
            *r == self@[1],
    {
        &self.bad
    }
}

impl vstd::std_specs::core::IndexSpecImpl<Bad> for NodeCount {
    open spec fn index_req(&self, index: &Bad) -> bool {
        true
    }
}

impl core::ops::IndexMut<Bad> for NodeCount {
    fn index_mut(&mut self, _index: Bad) -> (r: &mut u64)
        ensures
            *r == old(self)@[1],
            final(self)@ == old(self)@.update(1, *final(r)),
    {
        &mut self.bad
    }
}

impl core::ops::Index<Offline> for NodeCount {
    type Output = u64;

    fn index(&self, _index: Offline) -> (r: &u64)
        ensures
            *r == self@[2],
    {
        &self.offline
    }
}

impl vstd::std_specs::core::IndexSpecImpl<Offline> for NodeCount {
    open spec fn index_req(&self, index: &Offline) -> bool {
        true
    }
}

impl core::ops::IndexMut<Offline> for NodeCount {
    fn index_mut(&mut self, _index: Offline) -> (r: &mut u64)
        ensures
            *r == old(self)@[2],
            final(self)@ == old(self)@.update(2, *final(r)),
    {
        &mut self.offline
    }
}

/// Requests per second of each kind.
#[derive(Clone, Copy, Debug)]
pub struct RPS {
    put: u64,
    delete: u64,
    exist: u64,
    get: u64,
}

impl View for RPS {
    type V = Seq<u64>;

    /// The counters in the order of [`rps_keys`].
    closed spec fn view(&self) -> Seq<u64> {
        seq![self.put, self.delete, self.exist, self.get]
    }
}

/// The names under which the counters of [`RPS`] are kept.
pub open spec fn rps_keys() -> Seq<Seq<char>> {
    seq!["put"@, "delete"@, "exist"@, "get"@]
}

impl RPS {
    /// Every counter at 0.
    pub fn new() -> (r: Self)
        ensures
            r@ == Seq::new(4, |i: int| 0u64),
    {
        let r = RPS { put: 0, delete: 0, exist: 0, get: 0 };
        assert(r@ =~= Seq::new(4, |i: int| 0u64));
        r
    }

}

impl Default for RPS {
    fn default() -> (r: Self)
        ensures
            r@ == Seq::new(4, |i: int| 0u64),
    {
        Self::new()
    }
}

impl core::ops::Index<Put> for RPS {
    type Output = u64;

    fn index(&self, _index: Put) -> (r: &u64)
        ensures
            *r == self@[0],
    {
        &self.put
    }
}

impl vstd::std_specs::core::IndexSpecImpl<Put> for RPS {
    open spec fn index_req(&self, index: &Put) -> bool {
        true
    }
}

impl core::ops::IndexMut<Put> for RPS {
    fn index_mut(&mut self, _index: Put) -> (r: &mut u64)
        ensures
            *r == old(self)@[0],
            final(self)@ == old(self)@.update(0, *final(r)),
    {
        &mut self.put
    }
}

impl core::ops::Index<Delete> for RPS {
    type Output = u64;

    fn index(&self, _index: Delete) -> (r: &u64)
        ensures
            *r == self@[1],
    {
        &self.delete
    }
}

impl vstd::std_specs::core::IndexSpecImpl<Delete> for RPS {
    open spec fn index_req(&self, index: &Delete) -> bool {
        true
    }
}

impl core::ops::IndexMut<Delete> for RPS {
    fn index_mut(&mut self, _index: Delete) -> (r: &mut u64)
        ensures
            *r == old(self)@[1],
            final(self)@ == old(self)@.update(1, *final(r)),
    {
        &mut self.delete
    }
}

impl core::ops::Index<Exist> for RPS {
    type Output = u64;

    fn index(&self, _index: Exist) -> (r: &u64)
        ensures
            *r == self@[2],
    {
        &self.exist
    }
}

impl vstd::std_specs::core::IndexSpecImpl<Exist> for RPS {
    open spec fn index_req(&self, index: &Exist) -> bool {
        true
    }
}

impl core::ops::IndexMut<Exist> for RPS {
    fn index_mut(&mut self, _index: Exist) -> (r: &mut u64)
        ensures
            *r == old(self)@[2],
            final(self)@ == old(self)@.update(2, *final(r)),
    {
        &mut self.exist
    }
}

impl core::ops::Index<Get> for RPS {
    type Output = u64;

    fn index(&self, _index: Get) -> (r: &u64)
        ensures
            *r == self@[3],
    {
        &self.get
    }
}

impl vstd::std_specs::core::IndexSpecImpl<Get> for RPS {
    open spec fn index_req(&self, index: &Get) -> bool {
        true
    }
}

impl core::ops::IndexMut<Get> for RPS {
    fn index_mut(&mut self, _index: Get) -> (r: &mut u64)
        ensures
            *r == old(self)@[3],
            final(self)@ == old(self)@.update(3, *final(r)),
    {
        &mut self.get
    }
}

pub struct PearlExistCount;

pub struct ClientDeleteCount;

pub struct PearlExistCountRate;

pub struct ClusterGrinderExistKeysCountRate;

pub struct BackendBackendState;

pub struct ClusterGrinderGetCount;

pub struct PearlDeleteCount;

pub struct BackendDisksDisk1BlobsCount;

pub struct PearlPutCountRate;

pub struct LinkManagerNodesNumber;

pub struct PearlDeleteErrorCount;

pub struct ClientPutErrorCount;

pub struct ClientExistErrorKeysCount;

pub struct BackendBlobCount;

pub struct PearlGetErrorCount;

pub struct ClientGetCount;

pub struct ClientGetErrorCount;

pub struct BackendCorruptedBlobCount;

pub struct PearlDeleteCountRate;

pub struct ClientExistErrorCount;

pub struct ClusterGrinderExistTimer;

pub struct PearlPutCount;

pub struct PearlExistErrorCount;

pub struct PearlPutErrorCountRate;

pub struct HardwareUsedRam;

pub struct PearlPutErrorCount;

pub struct PearlGetErrorCountRate;

pub struct HardwareUsedSwap;

pub struct HardwareBobRam;

pub struct HardwareBobCpuLoad;

pub struct ClusterGrinderPutCount;

pub struct ClientExistKeysCount;

pub struct BackendUsedDisk;

pub struct BackendBloomFiltersRam;

pub struct PearlGetCount;

pub struct HardwareDescrAmount;

pub struct BackendActiveDisks;

pub struct ClusterGrinderExistCountRate;

pub struct ClusterGrinderExistErrorCount;

pub struct HardwareAvailableRam;

pub struct HardwareBobVirtualRam;

pub struct HardwareFreeSpace;

pub struct BackendUsedDiskDisk1;

pub struct BackendAlienCount;

pub struct ClusterGrinderGetErrorCount;

pub struct ClusterGrinderExistKeysCount;

pub struct PearlExistErrorCountRate;

pub struct ClusterGrinderExistErrorKeysCount;

pub struct HardwareUsedSpace;

pub struct BackendDisksDisk1;

pub struct ClientDeleteErrorCount;

pub struct ClientExistCount;

pub struct BackendIndexMemory;

pub struct PearlGetCountRate;

pub struct ClusterGrinderPutErrorCount;

pub struct PearlDeleteErrorCountRate;

pub struct ClusterGrinderExistCount;

pub struct ClusterGrinderDeleteCount;

pub struct ClusterGrinderDeleteCountRate;

pub struct ClusterGrinderGetCountRate;

pub struct ClusterGrinderPutCountRate;

pub struct HardwareTotalRam;

pub struct HardwareCpuIowait;

pub struct ClientPutCount;

pub struct HardwareTotalSpace;

/// The metrics of a node that the node-status rules read, by name.
#[derive(Clone, Copy, Debug)]
pub struct TypedMetrics {
    cluster_grinder_get_count_rate: MetricsEntryModel,
    cluster_grinder_put_count_rate: MetricsEntryModel,
    cluster_grinder_exist_count_rate: MetricsEntryModel,
    cluster_grinder_delete_count_rate: MetricsEntryModel,
    pearl_exist_count_rate: MetricsEntryModel,
    pearl_get_count_rate: MetricsEntryModel,
    pearl_put_count_rate: MetricsEntryModel,
    pearl_delete_count_rate: MetricsEntryModel,
    backend_alien_count: MetricsEntryModel,
    backend_corrupted_blob_count: MetricsEntryModel,
    hardware_bob_virtual_ram: MetricsEntryModel,
    hardware_total_ram: MetricsEntryModel,
    hardware_used_ram: MetricsEntryModel,
    hardware_bob_cpu_load: MetricsEntryModel,
    hardware_free_space: MetricsEntryModel,
    hardware_total_space: MetricsEntryModel,
    hardware_descr_amount: MetricsEntryModel,
}

impl View for TypedMetrics {
    type V = Seq<MetricsEntryModel>;

    /// The entries in the order of [`typed_metric_names`].
    closed spec fn view(&self) -> Seq<MetricsEntryModel> {
        seq![
            self.cluster_grinder_get_count_rate,
            self.cluster_grinder_put_count_rate,
            self.cluster_grinder_exist_count_rate,
            self.cluster_grinder_delete_count_rate,
            self.pearl_exist_count_rate,
            self.pearl_get_count_rate,
            self.pearl_put_count_rate,
            self.pearl_delete_count_rate,
            self.backend_alien_count,
            self.backend_corrupted_blob_count,
            self.hardware_bob_virtual_ram,
            self.hardware_total_ram,
            self.hardware_used_ram,
            self.hardware_bob_cpu_load,
            self.hardware_free_space,
            self.hardware_total_space,
            self.hardware_descr_amount,
        ]
    }
}

/// The names of the metrics that [`TypedMetrics`] keeps, in order.
pub open spec fn typed_metric_names() -> Seq<Seq<char>> {
    seq![
        "cluster_grinder.get_count_rate"@,
        "cluster_grinder.put_count_rate"@,
        "cluster_grinder.exist_count_rate"@,
        "cluster_grinder.delete_count_rate"@,
        "pearl.exist_count_rate"@,
        "pearl.get_count_rate"@,
        "pearl.put_count_rate"@,
        "pearl.delete_count_rate"@,
        "backend.alien_count"@,
        "backend.corrupted_blob_count"@,
        "hardware.bob_virtual_ram"@,
        "hardware.total_ram"@,
        "hardware.used_ram"@,
        "hardware.bob_cpu_load"@,
        "hardware.free_space"@,
        "hardware.total_space"@,
        "hardware.descr_amount"@,
    ]
}

impl TypedMetrics {
    /// The metrics hold one entry for each name of [`typed_metric_names`].
    pub proof fn lemma_view_len(&self)
        ensures
            self@.len() == typed_metric_names().len(),
    {
    }

    /// Every metric at its default entry.
    pub fn new() -> (r: Self)
        ensures
            r@ == Seq::new(17, |i: int| MetricsEntryModel { value: 0, timestamp: 0 }),
    {
        let r = TypedMetrics {
            cluster_grinder_get_count_rate: MetricsEntryModel::default(),
            cluster_grinder_put_count_rate: MetricsEntryModel::default(),
            cluster_grinder_exist_count_rate: MetricsEntryModel::default(),
            cluster_grinder_delete_count_rate: MetricsEntryModel::default(),
            pearl_exist_count_rate: MetricsEntryModel::default(),
            pearl_get_count_rate: MetricsEntryModel::default(),
            pearl_put_count_rate: MetricsEntryModel::default(),
            pearl_delete_count_rate: MetricsEntryModel::default(),
            backend_alien_count: MetricsEntryModel::default(),
            backend_corrupted_blob_count: MetricsEntryModel::default(),
            hardware_bob_virtual_ram: MetricsEntryModel::default(),
            hardware_total_ram: MetricsEntryModel::default(),
            hardware_used_ram: MetricsEntryModel::default(),
            hardware_bob_cpu_load: MetricsEntryModel::default(),
            hardware_free_space: MetricsEntryModel::default(),
            hardware_total_space: MetricsEntryModel::default(),
            hardware_descr_amount: MetricsEntryModel::default(),
        };
        assert(r@ =~= Seq::new(17, |i: int| MetricsEntryModel { value: 0, timestamp: 0 }));
        r
    }

}

impl Default for TypedMetrics {
    fn default() -> (r: Self)
        ensures
            r@ == Seq::new(17, |i: int| MetricsEntryModel { value: 0, timestamp: 0 }),
    {
        Self::new()
    }
}

/// Each metric that [`TypedMetrics`] keeps takes the snapshot's entry under
/// its name, or the default entry where the snapshot has none.
impl From<MetricsSnapshotModel> for TypedMetrics {
    fn from(value: MetricsSnapshotModel) -> (r: Self)
        ensures
            r@ == typed_metrics_of(value.metrics@),
    {
        let metrics = value.metrics;
        let r = TypedMetrics {
            cluster_grinder_get_count_rate: find_entry(&metrics, "cluster_grinder.get_count_rate"),
            cluster_grinder_put_count_rate: find_entry(&metrics, "cluster_grinder.put_count_rate"),
            cluster_grinder_exist_count_rate: find_entry(&metrics, "cluster_grinder.exist_count_rate"),
            cluster_grinder_delete_count_rate: find_entry(&metrics, "cluster_grinder.delete_count_rate"),
            pearl_exist_count_rate: find_entry(&metrics, "pearl.exist_count_rate"),
            pearl_get_count_rate: find_entry(&metrics, "pearl.get_count_rate"),
            pearl_put_count_rate: find_entry(&metrics, "pearl.put_count_rate"),
            pearl_delete_count_rate: find_entry(&metrics, "pearl.delete_count_rate"),
            backend_alien_count: find_entry(&metrics, "backend.alien_count"),
            backend_corrupted_blob_count: find_entry(&metrics, "backend.corrupted_blob_count"),
            hardware_bob_virtual_ram: find_entry(&metrics, "hardware.bob_virtual_ram"),
            hardware_total_ram: find_entry(&metrics, "hardware.total_ram"),
            hardware_used_ram: find_entry(&metrics, "hardware.used_ram"),
            hardware_bob_cpu_load: find_entry(&metrics, "hardware.bob_cpu_load"),
            hardware_free_space: find_entry(&metrics, "hardware.free_space"),
            hardware_total_space: find_entry(&metrics, "hardware.total_space"),
            hardware_descr_amount: find_entry(&metrics, "hardware.descr_amount"),
        };
        assert(r@ =~= typed_metrics_of(metrics@));
        r
    }
}

/// A snapshot with no entries gives every metric its default entry, as
/// [`TypedMetrics::new`] does.
pub proof fn lemma_empty_snapshot_defaults()
    ensures
        typed_metrics_of(Seq::empty()) == Seq::new(
            17,
            |i: int| MetricsEntryModel { value: 0, timestamp: 0 },
        ),
{
    assert(typed_metrics_of(Seq::empty()) =~= Seq::new(
        17,
        |i: int| MetricsEntryModel { value: 0, timestamp: 0 },
    ));
}

/// The typed metrics that a snapshot gives.
pub open spec fn typed_metrics_of(metrics: Seq<(String, MetricsEntryModel)>) -> Seq<MetricsEntryModel> {
    Seq::new(17, |i: int| entry_or_default(metrics, typed_metric_names()[i]))
}

impl vstd::std_specs::convert::FromSpecImpl<MetricsSnapshotModel> for TypedMetrics {
    open spec fn obeys_from_spec() -> bool {
        true
    }

    closed spec fn from_spec(value: MetricsSnapshotModel) -> Self {
        TypedMetrics {
            cluster_grinder_get_count_rate: entry_or_default(value.metrics@, "cluster_grinder.get_count_rate"@),
            cluster_grinder_put_count_rate: entry_or_default(value.metrics@, "cluster_grinder.put_count_rate"@),
            cluster_grinder_exist_count_rate: entry_or_default(value.metrics@, "cluster_grinder.exist_count_rate"@),
            cluster_grinder_delete_count_rate: entry_or_default(value.metrics@, "cluster_grinder.delete_count_rate"@),
            pearl_exist_count_rate: entry_or_default(value.metrics@, "pearl.exist_count_rate"@),
            pearl_get_count_rate: entry_or_default(value.metrics@, "pearl.get_count_rate"@),
            pearl_put_count_rate: entry_or_default(value.metrics@, "pearl.put_count_rate"@),
            pearl_delete_count_rate: entry_or_default(value.metrics@, "pearl.delete_count_rate"@),
            backend_alien_count: entry_or_default(value.metrics@, "backend.alien_count"@),
            backend_corrupted_blob_count: entry_or_default(value.metrics@, "backend.corrupted_blob_count"@),
            hardware_bob_virtual_ram: entry_or_default(value.metrics@, "hardware.bob_virtual_ram"@),
            hardware_total_ram: entry_or_default(value.metrics@, "hardware.total_ram"@),
            hardware_used_ram: entry_or_default(value.metrics@, "hardware.used_ram"@),
            hardware_bob_cpu_load: entry_or_default(value.metrics@, "hardware.bob_cpu_load"@),
            hardware_free_space: entry_or_default(value.metrics@, "hardware.free_space"@),
            hardware_total_space: entry_or_default(value.metrics@, "hardware.total_space"@),
            hardware_descr_amount: entry_or_default(value.metrics@, "hardware.descr_amount"@),
        }
    }
}

impl core::ops::Index<ClusterGrinderGetCountRate> for TypedMetrics {
    type Output = MetricsEntryModel;

    fn index(&self, _index: ClusterGrinderGetCountRate) -> (r: &MetricsEntryModel)
        ensures
            *r == self@[0],
    {
        &self.cluster_grinder_get_count_rate
    }
}

impl vstd::std_specs::core::IndexSpecImpl<ClusterGrinderGetCountRate> for TypedMetrics {
    open spec fn index_req(&self, index: &ClusterGrinderGetCountRate) -> bool {
        true
    }
}

impl core::ops::IndexMut<ClusterGrinderGetCountRate> for TypedMetrics {
    fn index_mut(&mut self, _index: ClusterGrinderGetCountRate) -> (r: &mut MetricsEntryModel)
        ensures
            *r == old(self)@[0],
            final(self)@ == old(self)@.update(0, *final(r)),
    {
        &mut self.cluster_grinder_get_count_rate
    }
}

impl core::ops::Index<ClusterGrinderPutCountRate> for TypedMetrics {
    type Output = MetricsEntryModel;

    fn index(&self, _index: ClusterGrinderPutCountRate) -> (r: &MetricsEntryModel)
        ensures
            *r == self@[1],
    {
        &self.cluster_grinder_put_count_rate
    }
}

impl vstd::std_specs::core::IndexSpecImpl<ClusterGrinderPutCountRate> for TypedMetrics {
    open spec fn index_req(&self, index: &ClusterGrinderPutCountRate) -> bool {
        true
    }
}

impl core::ops::IndexMut<ClusterGrinderPutCountRate> for TypedMetrics {
    fn index_mut(&mut self, _index: ClusterGrinderPutCountRate) -> (r: &mut MetricsEntryModel)
        ensures
            *r == old(self)@[1],
            final(self)@ == old(self)@.update(1, *final(r)),
    {
        &mut self.cluster_grinder_put_count_rate
    }
}

impl core::ops::Index<ClusterGrinderExistCountRate> for TypedMetrics {
    type Output = MetricsEntryModel;

    fn index(&self, _index: ClusterGrinderExistCountRate) -> (r: &MetricsEntryModel)
        ensures
            *r == self@[2],
    {
        &self.cluster_grinder_exist_count_rate
    }
}

impl vstd::std_specs::core::IndexSpecImpl<ClusterGrinderExistCountRate> for TypedMetrics {
    open spec fn index_req(&self, index: &ClusterGrinderExistCountRate) -> bool {
        true
    }
}

impl core::ops::IndexMut<ClusterGrinderExistCountRate> for TypedMetrics {
    fn index_mut(&mut self, _index: ClusterGrinderExistCountRate) -> (r: &mut MetricsEntryModel)
        ensures
            *r == old(self)@[2],
            final(self)@ == old(self)@.update(2, *final(r)),
    {
        &mut self.cluster_grinder_exist_count_rate
    }
}

impl core::ops::Index<ClusterGrinderDeleteCountRate> for TypedMetrics {
    type Output = MetricsEntryModel;

    fn index(&self, _index: ClusterGrinderDeleteCountRate) -> (r: &MetricsEntryModel)
        ensures
            *r == self@[3],
    {
        &self.cluster_grinder_delete_count_rate
    }
}

impl vstd::std_specs::core::IndexSpecImpl<ClusterGrinderDeleteCountRate> for TypedMetrics {
    open spec fn index_req(&self, index: &ClusterGrinderDeleteCountRate) -> bool {
        true
    }
}

impl core::ops::IndexMut<ClusterGrinderDeleteCountRate> for TypedMetrics {
    fn index_mut(&mut self, _index: ClusterGrinderDeleteCountRate) -> (r: &mut MetricsEntryModel)
        ensures
            *r == old(self)@[3],
            final(self)@ == old(self)@.update(3, *final(r)),
    {
        &mut self.cluster_grinder_delete_count_rate
    }
}

impl core::ops::Index<PearlExistCountRate> for TypedMetrics {
    type Output = MetricsEntryModel;

    fn index(&self, _index: PearlExistCountRate) -> (r: &MetricsEntryModel)
        ensures
            *r == self@[4],
    {
        &self.pearl_exist_count_rate
    }
}

impl vstd::std_specs::core::IndexSpecImpl<PearlExistCountRate> for TypedMetrics {
    open spec fn index_req(&self, index: &PearlExistCountRate) -> bool {
        true
    }
}

impl core::ops::IndexMut<PearlExistCountRate> for TypedMetrics {
    fn index_mut(&mut self, _index: PearlExistCountRate) -> (r: &mut MetricsEntryModel)
        ensures
            *r == old(self)@[4],
            final(self)@ == old(self)@.update(4, *final(r)),
    {
        &mut self.pearl_exist_count_rate
    }
}

impl core::ops::Index<PearlGetCountRate> for TypedMetrics {
    type Output = MetricsEntryModel;

    fn index(&self, _index: PearlGetCountRate) -> (r: &MetricsEntryModel)
        ensures
            *r == self@[5],
    {
        &self.pearl_get_count_rate
    }
}

impl vstd::std_specs::core::IndexSpecImpl<PearlGetCountRate> for TypedMetrics {
    open spec fn index_req(&self, index: &PearlGetCountRate) -> bool {
        true
    }
}

impl core::ops::IndexMut<PearlGetCountRate> for TypedMetrics {
    fn index_mut(&mut self, _index: PearlGetCountRate) -> (r: &mut MetricsEntryModel)
        ensures
            *r == old(self)@[5],
            final(self)@ == old(self)@.update(5, *final(r)),
    {
        &mut self.pearl_get_count_rate
    }
}

impl core::ops::Index<PearlPutCountRate> for TypedMetrics {
    type Output = MetricsEntryModel;

    fn index(&self, _index: PearlPutCountRate) -> (r: &MetricsEntryModel)
        ensures
            *r == self@[6],
    {
        &self.pearl_put_count_rate
    }
}

impl vstd::std_specs::core::IndexSpecImpl<PearlPutCountRate> for TypedMetrics {
    open spec fn index_req(&self, index: &PearlPutCountRate) -> bool {
        true
    }
}

impl core::ops::IndexMut<PearlPutCountRate> for TypedMetrics {
    fn index_mut(&mut self, _index: PearlPutCountRate) -> (r: &mut MetricsEntryModel)
        ensures
            *r == old(self)@[6],
            final(self)@ == old(self)@.update(6, *final(r)),
    {
        &mut self.pearl_put_count_rate
    }
}

impl core::ops::Index<PearlDeleteCountRate> for TypedMetrics {
    type Output = MetricsEntryModel;

    fn index(&self, _index: PearlDeleteCountRate) -> (r: &MetricsEntryModel)
        ensures
            *r == self@[7],
    {
        &self.pearl_delete_count_rate
    }
}

impl vstd::std_specs::core::IndexSpecImpl<PearlDeleteCountRate> for TypedMetrics {
    open spec fn index_req(&self, index: &PearlDeleteCountRate) -> bool {
        true
    }
}

impl core::ops::IndexMut<PearlDeleteCountRate> for TypedMetrics {
    fn index_mut(&mut self, _index: PearlDeleteCountRate) -> (r: &mut MetricsEntryModel)
        ensures
            *r == old(self)@[7],
            final(self)@ == old(self)@.update(7, *final(r)),
    {
        &mut self.pearl_delete_count_rate
    }
}

impl core::ops::Index<BackendAlienCount> for TypedMetrics {
    type Output = MetricsEntryModel;

    fn index(&self, _index: BackendAlienCount) -> (r: &MetricsEntryModel)
        ensures
            *r == self@[8],
    {
        &self.backend_alien_count
    }
}

impl vstd::std_specs::core::IndexSpecImpl<BackendAlienCount> for TypedMetrics {
    open spec fn index_req(&self, index: &BackendAlienCount) -> bool {
        true
    }
}

impl core::ops::IndexMut<BackendAlienCount> for TypedMetrics {
    fn index_mut(&mut self, _index: BackendAlienCount) -> (r: &mut MetricsEntryModel)
        ensures
            *r == old(self)@[8],
            final(self)@ == old(self)@.update(8, *final(r)),
    {
        &mut self.backend_alien_count
    }
}

impl core::ops::Index<BackendCorruptedBlobCount> for TypedMetrics {
    type Output = MetricsEntryModel;

    fn index(&self, _index: BackendCorruptedBlobCount) -> (r: &MetricsEntryModel)
        ensures
            *r == self@[9],
    {
        &self.backend_corrupted_blob_count
    }
}

impl vstd::std_specs::core::IndexSpecImpl<BackendCorruptedBlobCount> for TypedMetrics {
    open spec fn index_req(&self, index: &BackendCorruptedBlobCount) -> bool {
        true
    }
}

impl core::ops::IndexMut<BackendCorruptedBlobCount> for TypedMetrics {
    fn index_mut(&mut self, _index: BackendCorruptedBlobCount) -> (r: &mut MetricsEntryModel)
        ensures
            *r == old(self)@[9],
            final(self)@ == old(self)@.update(9, *final(r)),
    {
        &mut self.backend_corrupted_blob_count
    }
}

impl core::ops::Index<HardwareBobVirtualRam> for TypedMetrics {
    type Output = MetricsEntryModel;

    fn index(&self, _index: HardwareBobVirtualRam) -> (r: &MetricsEntryModel)
        ensures
            *r == self@[10],
    {
        &self.hardware_bob_virtual_ram
    }
}

impl vstd::std_specs::core::IndexSpecImpl<HardwareBobVirtualRam> for TypedMetrics {
    open spec fn index_req(&self, index: &HardwareBobVirtualRam) -> bool {
        true
    }
}

impl core::ops::IndexMut<HardwareBobVirtualRam> for TypedMetrics {
    fn index_mut(&mut self, _index: HardwareBobVirtualRam) -> (r: &mut MetricsEntryModel)
        ensures
            *r == old(self)@[10],
            final(self)@ == old(self)@.update(10, *final(r)),
    {
        &mut self.hardware_bob_virtual_ram
    }
}

impl core::ops::Index<HardwareTotalRam> for TypedMetrics {
    type Output = MetricsEntryModel;

    fn index(&self, _index: HardwareTotalRam) -> (r: &MetricsEntryModel)
        ensures
            *r == self@[11],
    {
        &self.hardware_total_ram
    }
}

impl vstd::std_specs::core::IndexSpecImpl<HardwareTotalRam> for TypedMetrics {
    open spec fn index_req(&self, index: &HardwareTotalRam) -> bool {
        true
    }
}

impl core::ops::IndexMut<HardwareTotalRam> for TypedMetrics {
    fn index_mut(&mut self, _index: HardwareTotalRam) -> (r: &mut MetricsEntryModel)
        ensures
            *r == old(self)@[11],
            final(self)@ == old(self)@.update(11, *final(r)),
    {
        &mut self.hardware_total_ram
    }
}

impl core::ops::Index<HardwareUsedRam> for TypedMetrics {
    type Output = MetricsEntryModel;

    fn index(&self, _index: HardwareUsedRam) -> (r: &MetricsEntryModel)
        ensures
            *r == self@[12],
    {
        &self.hardware_used_ram
    }
}

impl vstd::std_specs::core::IndexSpecImpl<HardwareUsedRam> for TypedMetrics {
    open spec fn index_req(&self, index: &HardwareUsedRam) -> bool {
        true
    }
}

impl core::ops::IndexMut<HardwareUsedRam> for TypedMetrics {
    fn index_mut(&mut self, _index: HardwareUsedRam) -> (r: &mut MetricsEntryModel)
        ensures
            *r == old(self)@[12],
            final(self)@ == old(self)@.update(12, *final(r)),
    {
        &mut self.hardware_used_ram
    }
}

impl core::ops::Index<HardwareBobCpuLoad> for TypedMetrics {
    type Output = MetricsEntryModel;

    fn index(&self, _index: HardwareBobCpuLoad) -> (r: &MetricsEntryModel)
        ensures
            *r == self@[13],
    {
        &self.hardware_bob_cpu_load
    }
}

impl vstd::std_specs::core::IndexSpecImpl<HardwareBobCpuLoad> for TypedMetrics {
    open spec fn index_req(&self, index: &HardwareBobCpuLoad) -> bool {
        true
    }
}

impl core::ops::IndexMut<HardwareBobCpuLoad> for TypedMetrics {
    fn index_mut(&mut self, _index: HardwareBobCpuLoad) -> (r: &mut MetricsEntryModel)
        ensures
            *r == old(self)@[13],
            final(self)@ == old(self)@.update(13, *final(r)),
    {
        &mut self.hardware_bob_cpu_load
    }
}

impl core::ops::Index<HardwareFreeSpace> for TypedMetrics {
    type Output = MetricsEntryModel;

    fn index(&self, _index: HardwareFreeSpace) -> (r: &MetricsEntryModel)
        ensures
            *r == self@[14],
    {
        &self.hardware_free_space
    }
}

impl vstd::std_specs::core::IndexSpecImpl<HardwareFreeSpace> for TypedMetrics {
    open spec fn index_req(&self, index: &HardwareFreeSpace) -> bool {
        true
    }
}

impl core::ops::IndexMut<HardwareFreeSpace> for TypedMetrics {
    fn index_mut(&mut self, _index: HardwareFreeSpace) -> (r: &mut MetricsEntryModel)
        ensures
            *r == old(self)@[14],
            final(self)@ == old(self)@.update(14, *final(r)),
    {
        &mut self.hardware_free_space
    }
}

impl core::ops::Index<HardwareTotalSpace> for TypedMetrics {
    type Output = MetricsEntryModel;

    fn index(&self, _index: HardwareTotalSpace) -> (r: &MetricsEntryModel)
        ensures
            *r == self@[15],
    {
        &self.hardware_total_space
    }
}

impl vstd::std_specs::core::IndexSpecImpl<HardwareTotalSpace> for TypedMetrics {
    open spec fn index_req(&self, index: &HardwareTotalSpace) -> bool {
        true
    }
}

impl core::ops::IndexMut<HardwareTotalSpace> for TypedMetrics {
    fn index_mut(&mut self, _index: HardwareTotalSpace) -> (r: &mut MetricsEntryModel)
        ensures
            *r == old(self)@[15],
            final(self)@ == old(self)@.update(15, *final(r)),
    {
        &mut self.hardware_total_space
    }
}

impl core::ops::Index<HardwareDescrAmount> for TypedMetrics {
    type Output = MetricsEntryModel;

    fn index(&self, _index: HardwareDescrAmount) -> (r: &MetricsEntryModel)
        ensures
            *r == self@[16],
    {
        &self.hardware_descr_amount
    }
}

impl vstd::std_specs::core::IndexSpecImpl<HardwareDescrAmount> for TypedMetrics {
    open spec fn index_req(&self, index: &HardwareDescrAmount) -> bool {
        true
    }
}

impl core::ops::IndexMut<HardwareDescrAmount> for TypedMetrics {
    fn index_mut(&mut self, _index: HardwareDescrAmount) -> (r: &mut MetricsEntryModel)
        ensures
            *r == old(self)@[16],
            final(self)@ == old(self)@.update(16, *final(r)),
    {
        &mut self.hardware_descr_amount
    }
}

/// Aliases
pub type NodeName = String;

pub type DiskName = String;

pub type NodeAddress = String;

pub type IsActive = bool;

} // verus!
