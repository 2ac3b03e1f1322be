//! Limits that the node-status rules compare metrics against.
use vstd::prelude::*;

verus! {

/// CPU load of a BOB process, in percent, from which a node reports
/// [`crate::services::dto::NodeProblem::HighCPULoad`].
pub const MAX_CPU: u64 = 90;

} // verus!
