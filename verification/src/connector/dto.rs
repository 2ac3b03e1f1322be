//! Metric records as a BOB node reports them.
use core::cmp::Ordering;
use vstd::prelude::*;

verus! {

/// One metric of a node: its value and when it was taken.
#[derive(Clone, Copy, Debug, PartialEq, Eq, Structural, Hash)]
pub struct MetricsEntryModel {
    pub value: u64,
    pub timestamp: u64,
}

/// Metric entries are ordered by value, then by timestamp.
pub open spec fn entry_order(a: MetricsEntryModel, b: MetricsEntryModel) -> Option<Ordering> {
    if a.value < b.value {
        Some(Ordering::Less)
    } else if a.value > b.value {
        Some(Ordering::Greater)
    } else if a.timestamp < b.timestamp {
        Some(Ordering::Less)
    } else if a.timestamp > b.timestamp {
        Some(Ordering::Greater)
    } else {
        Some(Ordering::Equal)
    }
}

/// Whether `a` orders after `b`: a greater value, or an equal value and a
/// later timestamp.
pub open spec fn entry_greater(a: MetricsEntryModel, b: MetricsEntryModel) -> bool {
    a.value > b.value || (a.value == b.value && a.timestamp > b.timestamp)
}

impl PartialOrd for MetricsEntryModel {
    fn partial_cmp(&self, other: &Self) -> (r: Option<Ordering>) {
        if self.value < other.value {
            Some(Ordering::Less)
        } else if self.value > other.value {
            Some(Ordering::Greater)
        } else if self.timestamp < other.timestamp {
            Some(Ordering::Less)
        } else if self.timestamp > other.timestamp {
            Some(Ordering::Greater)
        } else {
            Some(Ordering::Equal)
        }
    }
}

impl vstd::std_specs::cmp::PartialOrdSpecImpl for MetricsEntryModel {
    open spec fn obeys_partial_cmp_spec() -> bool {
        true
    }

    open spec fn partial_cmp_spec(&self, other: &Self) -> Option<Ordering> {
        entry_order(*self, *other)
    }
}

impl Default for MetricsEntryModel {
    fn default() -> (r: Self)
        ensures
            r.value == 0 && r.timestamp == 0,
    {
        MetricsEntryModel { value: 0, timestamp: 0 }
    }
}

/// All metrics of a node at one moment, by name. Where a name occurs more
/// than once, its last entry counts.
#[derive(Clone, Debug)]
pub struct MetricsSnapshotModel {
    pub metrics: Vec<(String, MetricsEntryModel)>,
}

/// The entry that `metrics` holds under `key`: the last one, where several do.
pub open spec fn entry_of(metrics: Seq<(String, MetricsEntryModel)>, key: Seq<char>) -> Option<
    MetricsEntryModel,
>
    decreases metrics.len(),
{
    if metrics.len() == 0 {
        None
    } else if metrics.last().0@ == key {
        Some(metrics.last().1)
    } else {
        entry_of(metrics.drop_last(), key)
    }
}

/// The entry under `key`, or the default entry where there is none.
pub open spec fn entry_or_default(metrics: Seq<(String, MetricsEntryModel)>, key: Seq<char>) -> MetricsEntryModel {
    match entry_of(metrics, key) {
        Some(e) => e,
        None => MetricsEntryModel { value: 0, timestamp: 0 },
    }
}

/// The entry that `metrics` holds under `key`, or the default entry.
pub fn find_entry(metrics: &Vec<(String, MetricsEntryModel)>, key: &str) -> (r: MetricsEntryModel)
    ensures
        r == entry_or_default(metrics@, key@),
{
    let key = <String as vstd::string::StringExecFns>::from_str(key);
    let mut found: Option<MetricsEntryModel> = None;
    let mut i: usize = 0;
    while i < metrics.len()
        invariant
            i <= metrics.len(),
            found == entry_of(metrics@.subrange(0, i as int), key@),
        decreases metrics.len() - i,
    {
        assert(metrics@.subrange(0, i + 1).drop_last() =~= metrics@.subrange(0, i as int));
        if metrics[i].0 == key {
            found = Some(metrics[i].1);
        }
        i = i + 1;
    }
    assert(metrics@.subrange(0, metrics.len() as int) =~= metrics@);
    match found {
        Some(e) => e,
        None => MetricsEntryModel::default(),
    }
}

} // verus!
