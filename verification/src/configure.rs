//! The configuration bag: a mutable set of engine options, passed by
//! reference into object-creation calls and never shared into engine-owned
//! structures.
//!
//! Proposal toggles and host-capability registrations have set semantics;
//! the memory limit, the optimization level and the compiler toggles are
//! independent scalar options with no cross-option validation.

use vstd::prelude::*;
use crate::types::{CompilerOptimizationLevel, HostRegistration, WasmEdgeProposal};

verus! {

broadcast use
    vstd::seq_lib::group_seq_properties,
    vstd::prelude::Seq::lemma_take_succ_push,
    vstd::prelude::Seq::lemma_push_to_set_commute;

/// The number of memory pages a configuration allows by default.
pub const DEFAULT_MAX_MEMORY_PAGE: usize = 65536;

/// A mutable bag of engine options.
pub struct ConfigureContext {
    proposals: Vec<WasmEdgeProposal>,
    host_registrations: Vec<HostRegistration>,
    max_memory_page: usize,
    opt_level: CompilerOptimizationLevel,
    dump_ir: bool,
    instruction_counting: bool,
    cost_measuring: bool,
}

impl ConfigureContext {
    /// The set of proposals currently switched on.
    pub closed spec fn proposals(&self) -> Set<WasmEdgeProposal> {
        self.proposals@.to_set()
    }

    /// The set of host capabilities currently registered.
    pub closed spec fn host_registrations(&self) -> Set<HostRegistration> {
        self.host_registrations@.to_set()
    }

    /// The configured maximum number of memory pages.
    pub closed spec fn max_memory_page_spec(&self) -> usize {
        self.max_memory_page
    }

    /// The configured ahead-of-time optimization level.
    pub closed spec fn opt_level_spec(&self) -> CompilerOptimizationLevel {
        self.opt_level
    }

    /// Whether intermediate-representation dumping is switched on.
    pub closed spec fn dump_ir_spec(&self) -> bool {
        self.dump_ir
    }

    /// Whether instruction counting is switched on.
    pub closed spec fn instruction_counting_spec(&self) -> bool {
        self.instruction_counting
    }

    /// Whether cost measuring is switched on.
    pub closed spec fn cost_measuring_spec(&self) -> bool {
        self.cost_measuring
    }

    /// Creates a configuration with every toggle off and the defaults the
    /// engine documents: no proposals, no host registrations, the default
    /// memory limit, and the highest optimization level.
    pub fn create() -> (r: ConfigureContext)
        ensures
            r.proposals() == Set::<WasmEdgeProposal>::empty(),
            r.host_registrations() == Set::<HostRegistration>::empty(),
            r.max_memory_page_spec() == DEFAULT_MAX_MEMORY_PAGE,
            r.opt_level_spec()
                == CompilerOptimizationLevel::WasmEdge_CompilerOptimizationLevel_O3,
            !r.dump_ir_spec(),
            !r.instruction_counting_spec(),
            !r.cost_measuring_spec(),
    {
        let r = ConfigureContext {
            proposals: Vec::new(),
            host_registrations: Vec::new(),
            max_memory_page: DEFAULT_MAX_MEMORY_PAGE,
            opt_level: CompilerOptimizationLevel::WasmEdge_CompilerOptimizationLevel_O3,
            dump_ir: false,
            instruction_counting: false,
            cost_measuring: false,
        };
        proof {
            assert(r.proposals() =~= Set::<WasmEdgeProposal>::empty());
            assert(r.host_registrations() =~= Set::<HostRegistration>::empty());
        }
        r
    }

    /// Switches a proposal on; switching one on twice is the same as once.
    pub fn add_proposal(&mut self, prop: WasmEdgeProposal)
        ensures
            final(self).proposals() == old(self).proposals().insert(prop),
            final(self).host_registrations() == old(self).host_registrations(),
            final(self).max_memory_page_spec() == old(self).max_memory_page_spec(),
            final(self).opt_level_spec() == old(self).opt_level_spec(),
            final(self).dump_ir_spec() == old(self).dump_ir_spec(),
            final(self).instruction_counting_spec() == old(self).instruction_counting_spec(),
            final(self).cost_measuring_spec() == old(self).cost_measuring_spec(),
    {
        self.proposals.push(prop);
        proof {
            assert(self.proposals() =~= old(self).proposals().insert(prop));
        }
    }

    /// Switches a proposal off; one that was never on stays off.
    pub fn remove_proposal(&mut self, prop: WasmEdgeProposal)
        ensures
            final(self).proposals() == old(self).proposals().remove(prop),
            final(self).host_registrations() == old(self).host_registrations(),
            final(self).max_memory_page_spec() == old(self).max_memory_page_spec(),
            final(self).opt_level_spec() == old(self).opt_level_spec(),
            final(self).dump_ir_spec() == old(self).dump_ir_spec(),
            final(self).instruction_counting_spec() == old(self).instruction_counting_spec(),
            final(self).cost_measuring_spec() == old(self).cost_measuring_spec(),
    {
        let mut kept: Vec<WasmEdgeProposal> = Vec::new();
        let mut i: usize = 0;
        while i < self.proposals.len()
            invariant
                i <= self.proposals@.len(),
                forall|q: WasmEdgeProposal|
                    kept@.contains(q) <==> (self.proposals@.take(i as int).contains(q) && q
                        != prop),
                self.proposals@ == old(self).proposals@,
                self.host_registrations@ == old(self).host_registrations@,
                self.max_memory_page == old(self).max_memory_page,
                self.opt_level == old(self).opt_level,
                self.dump_ir == old(self).dump_ir,
                self.instruction_counting == old(self).instruction_counting,
                self.cost_measuring == old(self).cost_measuring,
            decreases self.proposals@.len() - i,
        {
            let p = self.proposals[i];
            if !(p == prop) {
                kept.push(p);
            }
            proof {
                assert(self.proposals@.take(i + 1 as int).drop_last()
                    == self.proposals@.take(i as int));
                assert(self.proposals@.take(i + 1 as int).last() == self.proposals@[i as int]);
                assert(forall|q: WasmEdgeProposal|
                    self.proposals@.take(i + 1 as int).contains(q) <==> (self.proposals@.take(
                        i as int,
                    ).contains(q) || q == self.proposals@[i as int]));
            }
            i = i + 1;
        }
        proof {
            assert(self.proposals@.take(self.proposals@.len() as int) == self.proposals@);
        }
        self.proposals = kept;
        proof {
            assert(self.proposals() =~= old(self).proposals().remove(prop));
        }
    }

    /// Reports whether a proposal is switched on.
    pub fn has_proposal(&self, prop: WasmEdgeProposal) -> (r: bool)
        ensures
            r == self.proposals().contains(prop),
    {
        let mut i: usize = 0;
        while i < self.proposals.len()
            invariant
                i <= self.proposals@.len(),
                forall|j: int| 0 <= j < i ==> self.proposals@[j] != prop,
            decreases self.proposals@.len() - i,
        {
            if self.proposals[i] == prop {
                return true;
            }
            i = i + 1;
        }
        false
    }

    /// Registers a host capability; registering one twice is the same as once.
    pub fn add_host_registration(&mut self, host: HostRegistration)
        ensures
            final(self).host_registrations() == old(self).host_registrations().insert(host),
            final(self).proposals() == old(self).proposals(),
            final(self).max_memory_page_spec() == old(self).max_memory_page_spec(),
            final(self).opt_level_spec() == old(self).opt_level_spec(),
            final(self).dump_ir_spec() == old(self).dump_ir_spec(),
            final(self).instruction_counting_spec() == old(self).instruction_counting_spec(),
            final(self).cost_measuring_spec() == old(self).cost_measuring_spec(),
    {
        self.host_registrations.push(host);
        proof {
            assert(self.host_registrations() =~= old(self).host_registrations().insert(host));
        }
    }

    /// Unregisters a host capability.
    pub fn remove_host_registration(&mut self, host: HostRegistration)
        ensures
            final(self).host_registrations() == old(self).host_registrations().remove(host),
            final(self).proposals() == old(self).proposals(),
            final(self).max_memory_page_spec() == old(self).max_memory_page_spec(),
            final(self).opt_level_spec() == old(self).opt_level_spec(),
            final(self).dump_ir_spec() == old(self).dump_ir_spec(),
            final(self).instruction_counting_spec() == old(self).instruction_counting_spec(),
            final(self).cost_measuring_spec() == old(self).cost_measuring_spec(),
    {
        let mut kept: Vec<HostRegistration> = Vec::new();
        let mut i: usize = 0;
        while i < self.host_registrations.len()
            invariant
                i <= self.host_registrations@.len(),
                forall|q: HostRegistration|
                    kept@.contains(q) <==> (self.host_registrations@.take(i as int).contains(q)
                        && q != host),
                self.proposals@ == old(self).proposals@,
                self.host_registrations@ == old(self).host_registrations@,
                self.max_memory_page == old(self).max_memory_page,
                self.opt_level == old(self).opt_level,
                self.dump_ir == old(self).dump_ir,
                self.instruction_counting == old(self).instruction_counting,
                self.cost_measuring == old(self).cost_measuring,
            decreases self.host_registrations@.len() - i,
        {
            let h = self.host_registrations[i];
            if !(h == host) {
                kept.push(h);
            }
            proof {
                assert(self.host_registrations@.take(i + 1 as int).drop_last()
                    == self.host_registrations@.take(i as int));
                assert(self.host_registrations@.take(i + 1 as int).last()
                    == self.host_registrations@[i as int]);
                assert(forall|q: HostRegistration|
                    self.host_registrations@.take(i + 1 as int).contains(q) <==> (
                    self.host_registrations@.take(i as int).contains(q) || q
                        == self.host_registrations@[i as int]));
            }
            i = i + 1;
        }
        proof {
            assert(self.host_registrations@.take(self.host_registrations@.len() as int)
                == self.host_registrations@);
        }
        self.host_registrations = kept;
        proof {
            assert(self.host_registrations() =~= old(self).host_registrations().remove(host));
        }
    }

    /// Reports whether a host capability is registered.
    pub fn has_host_registration(&self, host: HostRegistration) -> (r: bool)
        ensures
            r == self.host_registrations().contains(host),
    {
        let mut i: usize = 0;
        while i < self.host_registrations.len()
            invariant
                i <= self.host_registrations@.len(),
                forall|j: int| 0 <= j < i ==> self.host_registrations@[j] != host,
            decreases self.host_registrations@.len() - i,
        {
            if self.host_registrations[i] == host {
                return true;
            }
            i = i + 1;
        }
        false
    }

    /// Sets the maximum number of memory pages.
    pub fn set_max_memory_page(&mut self, page: usize)
        ensures
            final(self).max_memory_page_spec() == page,
            final(self).proposals() == old(self).proposals(),
            final(self).host_registrations() == old(self).host_registrations(),
            final(self).opt_level_spec() == old(self).opt_level_spec(),
            final(self).dump_ir_spec() == old(self).dump_ir_spec(),
            final(self).instruction_counting_spec() == old(self).instruction_counting_spec(),
            final(self).cost_measuring_spec() == old(self).cost_measuring_spec(),
    {
        self.max_memory_page = page;
    }

    /// Reads the maximum number of memory pages.
    pub fn get_max_memory_page(&self) -> (r: usize)
        ensures
            r == self.max_memory_page_spec(),
    {
        self.max_memory_page
    }

    /// Sets the ahead-of-time optimization level.
    pub fn set_opt_level(&mut self, level: CompilerOptimizationLevel)
        ensures
            final(self).opt_level_spec() == level,
            final(self).proposals() == old(self).proposals(),
            final(self).host_registrations() == old(self).host_registrations(),
            final(self).max_memory_page_spec() == old(self).max_memory_page_spec(),
            final(self).dump_ir_spec() == old(self).dump_ir_spec(),
            final(self).instruction_counting_spec() == old(self).instruction_counting_spec(),
            final(self).cost_measuring_spec() == old(self).cost_measuring_spec(),
    {
        self.opt_level = level;
    }

    /// Reads the ahead-of-time optimization level.
    pub fn get_opt_level(&self) -> (r: CompilerOptimizationLevel)
        ensures
            r == self.opt_level_spec(),
    {
        self.opt_level
    }

    /// Switches intermediate-representation dumping on or off.
    pub fn set_dump_ir(&mut self, is_dump: bool)
        ensures
            final(self).dump_ir_spec() == is_dump,
            final(self).proposals() == old(self).proposals(),
            final(self).host_registrations() == old(self).host_registrations(),
            final(self).max_memory_page_spec() == old(self).max_memory_page_spec(),
            final(self).opt_level_spec() == old(self).opt_level_spec(),
            final(self).instruction_counting_spec() == old(self).instruction_counting_spec(),
            final(self).cost_measuring_spec() == old(self).cost_measuring_spec(),
    {
        self.dump_ir = is_dump;
    }

    /// Reports whether intermediate-representation dumping is on.
    pub fn is_dump_ir(&self) -> (r: bool)
        ensures
            r == self.dump_ir_spec(),
    {
        self.dump_ir
    }

    /// Switches instruction counting on or off.
    pub fn set_instruction_counting(&mut self, is_count: bool)
        ensures
            final(self).instruction_counting_spec() == is_count,
            final(self).proposals() == old(self).proposals(),
            final(self).host_registrations() == old(self).host_registrations(),
            final(self).max_memory_page_spec() == old(self).max_memory_page_spec(),
            final(self).opt_level_spec() == old(self).opt_level_spec(),
            final(self).dump_ir_spec() == old(self).dump_ir_spec(),
            final(self).cost_measuring_spec() == old(self).cost_measuring_spec(),
    {
        self.instruction_counting = is_count;
    }

    /// Reports whether instruction counting is on.
    pub fn is_instruction_counting(&self) -> (r: bool)
        ensures
            r == self.instruction_counting_spec(),
    {
        self.instruction_counting
    }

    /// Switches cost measuring on or off.
    pub fn set_cost_measuring(&mut self, is_measure: bool)
        ensures
            final(self).cost_measuring_spec() == is_measure,
            final(self).proposals() == old(self).proposals(),
            final(self).host_registrations() == old(self).host_registrations(),
            final(self).max_memory_page_spec() == old(self).max_memory_page_spec(),
            final(self).opt_level_spec() == old(self).opt_level_spec(),
            final(self).dump_ir_spec() == old(self).dump_ir_spec(),
            final(self).instruction_counting_spec() == old(self).instruction_counting_spec(),
    {
        self.cost_measuring = is_measure;
    }

    /// Reports whether cost measuring is on.
    pub fn is_cost_measuring(&self) -> (r: bool)
        ensures
            r == self.cost_measuring_spec(),
    {
        self.cost_measuring
    }

    /// Copies the configuration; a session snapshots the caller's options
    /// at creation through this.
    pub fn duplicate(&self) -> (r: ConfigureContext)
        ensures
            r.proposals() == self.proposals(),
            r.host_registrations() == self.host_registrations(),
            r.max_memory_page_spec() == self.max_memory_page_spec(),
            r.opt_level_spec() == self.opt_level_spec(),
            r.dump_ir_spec() == self.dump_ir_spec(),
            r.instruction_counting_spec() == self.instruction_counting_spec(),
            r.cost_measuring_spec() == self.cost_measuring_spec(),
    {
        let mut proposals: Vec<WasmEdgeProposal> = Vec::new();
        let mut i: usize = 0;
        while i < self.proposals.len()
            invariant
                i <= self.proposals@.len(),
                proposals@ == self.proposals@.take(i as int),
            decreases self.proposals@.len() - i,
        {
            proposals.push(self.proposals[i]);
            proof {
                assert(proposals@ =~= self.proposals@.take(i + 1 as int));
            }
            i = i + 1;
        }
        let mut host_registrations: Vec<HostRegistration> = Vec::new();
        let mut j: usize = 0;
        while j < self.host_registrations.len()
            invariant
                j <= self.host_registrations@.len(),
                host_registrations@ == self.host_registrations@.take(j as int),
            decreases self.host_registrations@.len() - j,
        {
            host_registrations.push(self.host_registrations[j]);
            proof {
                assert(host_registrations@ =~= self.host_registrations@.take(j + 1 as int));
            }
            j = j + 1;
        }
        proof {
            assert(proposals@ =~= self.proposals@);
            assert(host_registrations@ =~= self.host_registrations@);
        }
        ConfigureContext {
            proposals,
            host_registrations,
            max_memory_page: self.max_memory_page,
            opt_level: self.opt_level,
            dump_ir: self.dump_ir,
            instruction_counting: self.instruction_counting,
            cost_measuring: self.cost_measuring,
        }
    }
}

} // verus!
