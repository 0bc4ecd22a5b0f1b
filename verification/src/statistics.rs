//! Statistics: the cost accounting attached to a session.
//!
//! A cost table and a cost limit may be installed before execution; each
//! dispatched call charges its declared cost, and exceeding the limit is
//! surfaced as an execution error by the session, never a panic. What the
//! engine accounts beyond this layer — per-instruction counts and rates —
//! is out of scope here, so the instruction counter counts the calls this
//! layer dispatches, and the per-second rate is not measured.

use vstd::prelude::*;

verus! {

broadcast use vstd::seq_lib::group_seq_properties, vstd::prelude::Seq::lemma_take_succ_push;

/// Whether two accountings agree in everything they expose.
pub open spec fn stats_equal(a: StatisticsContext, b: StatisticsContext) -> bool {
    &&& a.cost_table_spec() == b.cost_table_spec()
    &&& a.cost_limit_spec() == b.cost_limit_spec()
    &&& a.instr_count_spec() == b.instr_count_spec()
    &&& a.total_cost_spec() == b.total_cost_spec()
}

/// The cost accounting of a session.
pub struct StatisticsContext {
    cost_table: Vec<u64>,
    cost_limit: u64,
    instr_count: u64,
    total_cost: u64,
}

impl StatisticsContext {
    /// The installed per-opcode cost weights.
    pub closed spec fn cost_table_spec(&self) -> Seq<u64> {
        self.cost_table@
    }

    /// The installed cost limit.
    pub closed spec fn cost_limit_spec(&self) -> u64 {
        self.cost_limit
    }

    /// The number of calls dispatched so far.
    pub closed spec fn instr_count_spec(&self) -> u64 {
        self.instr_count
    }

    /// The cost accumulated so far.
    pub closed spec fn total_cost_spec(&self) -> u64 {
        self.total_cost
    }

    /// Builds a fresh accounting: nothing counted, no table, and the
    /// largest representable limit.
    pub fn create() -> (r: Option<StatisticsContext>)
        ensures
            r is Some,
            r->Some_0.cost_table_spec() == Seq::<u64>::empty(),
            r->Some_0.cost_limit_spec() == u64::MAX,
            r->Some_0.instr_count_spec() == 0,
            r->Some_0.total_cost_spec() == 0,
    {
        Some(
            StatisticsContext {
                cost_table: Vec::new(),
                cost_limit: u64::MAX,
                instr_count: 0,
                total_cost: 0,
            },
        )
    }

    /// Installs the per-opcode cost weights.
    pub fn set_cost_table(&mut self, cost_arr: &Vec<u64>)
        ensures
            final(self).cost_table_spec() == cost_arr@,
            final(self).cost_limit_spec() == old(self).cost_limit_spec(),
            final(self).instr_count_spec() == old(self).instr_count_spec(),
            final(self).total_cost_spec() == old(self).total_cost_spec(),
    {
        let mut table: Vec<u64> = Vec::new();
        let mut i: usize = 0;
        while i < cost_arr.len()
            invariant
                i <= cost_arr@.len(),
                table@ == cost_arr@.take(i as int),
            decreases cost_arr@.len() - i,
        {
            table.push(cost_arr[i]);
            i = i + 1;
        }
        proof {
            assert(cost_arr@.take(cost_arr@.len() as int) == cost_arr@);
        }
        self.cost_table = table;
    }

    /// Installs the cost limit.
    pub fn set_cost_limit(&mut self, limit: u64)
        ensures
            final(self).cost_limit_spec() == limit,
            final(self).cost_table_spec() == old(self).cost_table_spec(),
            final(self).instr_count_spec() == old(self).instr_count_spec(),
            final(self).total_cost_spec() == old(self).total_cost_spec(),
    {
        self.cost_limit = limit;
    }

    /// The number of calls dispatched so far.
    pub fn get_instr_count(&self) -> (r: usize)
        ensures
            r == self.instr_count_spec() as usize,
    {
        self.instr_count as usize
    }

    /// The dispatch rate; this layer does not measure time, so the rate is
    /// always zero.
    pub fn get_instr_per_second(&self) -> (r: usize)
        ensures
            r == 0,
    {
        0
    }

    /// The cost accumulated so far.
    pub fn get_total_cost(&self) -> (r: usize)
        ensures
            r == self.total_cost_spec() as usize,
    {
        self.total_cost as usize
    }

    /// Charges one dispatched call of the given cost. The charge lands and
    /// the call may proceed only while the accumulated cost stays within
    /// the limit; past it, nothing is charged and the call is refused.
    pub(crate) fn charge(&mut self, cost: u64) -> (r: bool)
        ensures
            r <==> old(self).total_cost_spec() + cost <= old(self).cost_limit_spec() && old(self).instr_count_spec() < u64::MAX,
            r ==> final(self).total_cost_spec() == old(self).total_cost_spec() + cost,
            r ==> final(self).instr_count_spec() == old(self).instr_count_spec() + 1,
            !r ==> final(self).total_cost_spec() == old(self).total_cost_spec()
                && final(self).instr_count_spec() == old(self).instr_count_spec(),
            final(self).cost_table_spec() == old(self).cost_table_spec(),
            final(self).cost_limit_spec() == old(self).cost_limit_spec(),
    {
        if self.instr_count == u64::MAX {
            return false;
        }
        if cost > self.cost_limit || self.total_cost > self.cost_limit - cost {
            return false;
        }
        self.total_cost = self.total_cost + cost;
        self.instr_count = self.instr_count + 1;
        true
    }
}

} // verus!
