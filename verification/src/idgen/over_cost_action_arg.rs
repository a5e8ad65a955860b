//! What is told of a stretch in which the generator ran ahead of the
//! clock.

use vstd::prelude::*;

verus! {

/// The account of one stretch.
pub struct OverCostActionArg {
    pub action_type: u32,
    pub time_tick: i64,
    pub worker_id: u16,
    pub over_cost_count_in_one_term: i32,
    pub gen_count_in_one_term: i32,
    pub term_index: i32,
}

} // verus!
