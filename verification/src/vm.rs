//! The session facade: one configuration, one registry, one statistics
//! attachment, and an explicit phase state machine over them.
//!
//! A session moves through the phases created, loaded, validated and
//! instantiated, in that order. Loading associates a module and may happen
//! from any phase; validation requires a loaded module; instantiation
//! requires a validated one and commits its exports to the registry's
//! anonymous slots; execution requires an instantiated one. An operation
//! attempted out of order is rejected here, with a wrong-workflow error,
//! before the engine would be reached — never tolerated silently.
//! Registering additional named modules is independent of the phase, and
//! the registered modules are executable by name whatever the phase.

use vstd::prelude::*;
use crate::ast::{view_funcs, ASTModuleContext, ModuleContent};
use crate::configure::ConfigureContext;
use crate::error::{
    WasmEdgeError, WasmEdgeResult, CODE_COST_LIMIT_EXCEEDED, CODE_FAILED, CODE_FUNC_NOT_FOUND,
    CODE_FUNC_SIG_MISMATCH, CODE_MODULE_NAME_CONFLICT, CODE_WRONG_INSTANCE_ADDRESS,
    CODE_WRONG_WORKFLOW,
};
use crate::host::{check_params, finish_invocation, params_match_types, HostRuntime};
use crate::import_object::ImportObjectContext;
use crate::instance::function::FunctionTypeContext;
use crate::statistics::{stats_equal, StatisticsContext};
use crate::store::{
    globals_built, memories_built, memories_feasible, tables_built, StoreContext,
};
use crate::types::HostRegistration;
use crate::value::WasmEdgeValue;

verus! {

/// The position of a session in its workflow.
#[derive(Clone, Copy, Debug, PartialEq, Eq, Structural)]
pub enum Phase {
    /// No module is associated yet.
    Created,
    /// A module source has been associated.
    Loaded,
    /// The associated module has been validated.
    Validated,
    /// The associated module's exports stand in the registry.
    Instantiated,
}

/// The session facade.
pub struct VMContext {
    config: Option<ConfigureContext>,
    store: StoreContext,
    stat: StatisticsContext,
    phase: Phase,
    active: Option<ModuleContent>,
    wasi_import: Option<ImportObjectContext>,
    process_import: Option<ImportObjectContext>,
}

impl VMContext {
    /// The phase the session stands in.
    pub closed spec fn phase_spec(&self) -> Phase {
        self.phase
    }

    /// The session's registry.
    pub closed spec fn store_spec(&self) -> StoreContext {
        self.store
    }

    /// The session's statistics.
    pub closed spec fn stat_spec(&self) -> StatisticsContext {
        self.stat
    }

    /// The configuration snapshot the session was created with.
    pub closed spec fn config_spec(&self) -> Option<ConfigureContext> {
        self.config
    }

    /// The currently associated primary module, if one is loaded.
    pub closed spec fn active_spec(&self) -> Option<ModuleContent> {
        self.active
    }

    /// The built-in WASI import module, present when the configuration
    /// registered the WASI capability.
    pub closed spec fn wasi_import_spec(&self) -> Option<ImportObjectContext> {
        self.wasi_import
    }

    /// The built-in process import module, present when the configuration
    /// registered the process capability.
    pub closed spec fn process_import_spec(&self) -> Option<ImportObjectContext> {
        self.process_import
    }

    /// Past the created phase a module is always associated.
    pub open spec fn wf(&self) -> bool {
        self.phase_spec() != Phase::Created ==> self.active_spec() is Some
    }

    /// Whether the session's configuration, built-in import modules and
    /// statistics stand as they did.
    pub open spec fn same_environment(pre: &VMContext, post: &VMContext) -> bool {
        &&& post.config_spec() == pre.config_spec()
        &&& post.wasi_import_spec() == pre.wasi_import_spec()
        &&& post.process_import_spec() == pre.process_import_spec()
        &&& post.stat_spec() == pre.stat_spec()
    }

    /// What instantiating does: out of order it is rejected untouched;
    /// in order it realizes the associated module's exports as the
    /// registry's anonymous exports — afresh on every call — and moves the
    /// session to the instantiated phase, or fails on a module whose
    /// memories cannot be allocated, leaving the session as it stood.
    pub open spec fn instantiate_step(
        pre: VMContext,
        post: VMContext,
        r: WasmEdgeResult<()>,
    ) -> bool {
        &&& VMContext::same_environment(&pre, &post)
        &&& post.active_spec() == pre.active_spec()
        &&& post.store_spec().modules_spec() == pre.store_spec().modules_spec()
        &&& ((pre.phase_spec() == Phase::Created || pre.phase_spec() == Phase::Loaded) ==> {
            &&& r matches Err(e) && e.code == CODE_WRONG_WORKFLOW
            &&& post == pre
        })
        &&& ((pre.phase_spec() == Phase::Validated || pre.phase_spec() == Phase::Instantiated)
            ==> {
            let c = pre.active_spec()->Some_0@;
            &&& (memories_feasible(c.memories) ==> {
                &&& r is Ok
                &&& post.phase_spec() == Phase::Instantiated
                &&& view_funcs(post.store_spec().funcs_spec()) == c.funcs
                &&& tables_built(post.store_spec().tables_spec(), c.tables)
                &&& memories_built(post.store_spec().memories_spec(), c.memories)
                &&& globals_built(post.store_spec().globals_spec(), c.globals)
            })
            &&& (!memories_feasible(c.memories) ==> {
                &&& r matches Err(e) && e.code == CODE_FAILED
                &&& post.phase_spec() == pre.phase_spec()
                &&& post.store_spec().funcs_spec() == pre.store_spec().funcs_spec()
                &&& post.store_spec().tables_spec() == pre.store_spec().tables_spec()
                &&& post.store_spec().memories_spec() == pre.store_spec().memories_spec()
                &&& post.store_spec().globals_spec() == pre.store_spec().globals_spec()
            })
        })
    }

    /// The phase the session stands in.
    pub fn phase(&self) -> (r: Phase)
        ensures
            r == self.phase_spec(),
    {
        self.phase
    }

    /// Builds a session from an optional configuration and an optional
    /// caller-supplied registry; without one the session starts over an
    /// empty registry of its own. The configuration is snapshotted, and
    /// for each host capability it registers, the session owns a built-in
    /// import module.
    pub fn create(conf: Option<&ConfigureContext>, store: Option<StoreContext>) -> (r: Option<
        VMContext,
    >)
        ensures
            r is Some,
            ({
                let v = r->Some_0;
                &&& v.wf()
                &&& v.phase_spec() == Phase::Created
                &&& v.active_spec() is None
                &&& (match store {
                    Some(s) => v.store_spec() == s,
                    None => {
                        &&& v.store_spec().funcs_spec().len() == 0
                        &&& v.store_spec().tables_spec().len() == 0
                        &&& v.store_spec().memories_spec().len() == 0
                        &&& v.store_spec().globals_spec().len() == 0
                        &&& v.store_spec().modules_spec().len() == 0
                    },
                })
                &&& (match conf {
                    Some(c) => v.config_spec() matches Some(cc) && cc.proposals() == c.proposals()
                        && cc.host_registrations() == c.host_registrations()
                        && cc.max_memory_page_spec() == c.max_memory_page_spec()
                        && cc.opt_level_spec() == c.opt_level_spec(),
                    None => v.config_spec() is None,
                })
                &&& (v.wasi_import_spec() is Some <==> (match conf {
                    Some(c) => c.host_registrations().contains(
                        HostRegistration::WasmEdge_HostRegistration_Wasi,
                    ),
                    None => false,
                }))
                &&& (v.process_import_spec() is Some <==> (match conf {
                    Some(c) => c.host_registrations().contains(
                        HostRegistration::WasmEdge_HostRegistration_WasmEdge_Process,
                    ),
                    None => false,
                }))
                &&& v.stat_spec().total_cost_spec() == 0
                &&& v.stat_spec().instr_count_spec() == 0
                &&& v.stat_spec().cost_limit_spec() == u64::MAX
                &&& v.stat_spec().cost_table_spec() == Seq::<u64>::empty()
            }),
    {
        let store = match store {
            Some(s) => s,
            None => StoreContext::create(),
        };
        let stat = match StatisticsContext::create() {
            Some(s) => s,
            None => {
                proof {
                    assert(false);
                }
                unreached()
            },
        };
        let (config, wasi_import, process_import) = match conf {
            Some(c) => {
                let wasi = if c.has_host_registration(
                    HostRegistration::WasmEdge_HostRegistration_Wasi,
                ) {
                    ImportObjectContext::create_wasi(None, None, None, None)
                } else {
                    None
                };
                let process = if c.has_host_registration(
                    HostRegistration::WasmEdge_HostRegistration_WasmEdge_Process,
                ) {
                    ImportObjectContext::create("wasmedge_process")
                } else {
                    None
                };
                (Some(c.duplicate()), wasi, process)
            },
            None => (None, None, None),
        };
        Some(
            VMContext {
                config,
                store,
                stat,
                phase: Phase::Created,
                active: None,
                wasi_import,
                process_import,
            },
        )
    }

    /// Associates a parsed module as the session's primary module and
    /// moves the session to the loaded phase, from any phase, replacing
    /// whatever was associated; the registry is untouched until the next
    /// instantiation. An unparsed handle is a failure that changes
    /// nothing.
    pub fn load_from_ast(&mut self, ast_mod: &ASTModuleContext) -> (r: WasmEdgeResult<()>)
        requires
            old(self).wf(),
        ensures
            final(self).wf(),
            r is Ok <==> ast_mod.is_parsed(),
            r matches Err(e) ==> e.code == CODE_FAILED && *final(self) == *old(self),
            r is Ok ==> {
                &&& final(self).phase_spec() == Phase::Loaded
                &&& (final(self).active_spec() matches Some(c) && Some(c@)
                    == ast_mod.content_view())
                &&& final(self).store_spec() == old(self).store_spec()
                &&& VMContext::same_environment(old(self), final(self))
            },
    {
        let content = match ast_mod.content() {
            Some(c) => c,
            None => {
                proof { reveal_strlit("the module is not parsed"); }
                return Err(WasmEdgeError::with_message(
                    CODE_FAILED,
                    "the module is not parsed".to_owned(),
                ));
            },
        };
        self.active = Some(content.duplicate());
        self.phase = Phase::Loaded;
        Ok(())
    }

    /// Validates the associated module and moves the session to the
    /// validated phase. Without a loaded module the call is out of order:
    /// a wrong-workflow error, and nothing changes.
    pub fn validate(&mut self) -> (r: WasmEdgeResult<()>)
        requires
            old(self).wf(),
        ensures
            final(self).wf(),
            r is Ok <==> old(self).phase_spec() != Phase::Created,
            r matches Err(e) ==> e.code == CODE_WRONG_WORKFLOW && *final(self) == *old(self),
            r is Ok ==> {
                &&& final(self).phase_spec() == Phase::Validated
                &&& final(self).active_spec() == old(self).active_spec()
                &&& final(self).store_spec() == old(self).store_spec()
                &&& VMContext::same_environment(old(self), final(self))
            },
    {
        if self.phase == Phase::Created {
            return Err(WasmEdgeError::from_code(CODE_WRONG_WORKFLOW));
        }
        self.phase = Phase::Validated;
        Ok(())
    }

    /// Instantiates the associated module: its exports are realized afresh
    /// and committed as the registry's anonymous exports, and the session
    /// moves to the instantiated phase. From the created or loaded phase
    /// the call is out of order: a wrong-workflow error, and nothing
    /// changes. Calling it again re-establishes the exports.
    pub fn instantiate(&mut self) -> (r: WasmEdgeResult<()>)
        requires
            old(self).wf(),
        ensures
            final(self).wf(),
            VMContext::instantiate_step(*old(self), *final(self), r),
    {
        match self.phase {
            Phase::Created | Phase::Loaded => Err(WasmEdgeError::from_code(CODE_WRONG_WORKFLOW)),
            Phase::Validated | Phase::Instantiated => {
                let res = match self.active {
                    Some(ref c) => self.store.instantiate_anonymous(c),
                    None => {
                        proof {
                            assert(false);
                        }
                        unreached()
                    },
                };
                match res {
                    Ok(()) => {
                        self.phase = Phase::Instantiated;
                        Ok(())
                    },
                    Err(e) => Err(e),
                }
            },
        }
    }

    /// Resets the session to a state equivalent to just created: the
    /// association, the anonymous exports and the registered modules are
    /// all released; subsequent executions behave as if nothing was ever
    /// instantiated.
    pub fn cleanup(&mut self)
        ensures
            final(self).wf(),
            final(self).phase_spec() == Phase::Created,
            final(self).active_spec() is None,
            final(self).store_spec().funcs_spec().len() == 0,
            final(self).store_spec().tables_spec().len() == 0,
            final(self).store_spec().memories_spec().len() == 0,
            final(self).store_spec().globals_spec().len() == 0,
            final(self).store_spec().modules_spec().len() == 0,
            VMContext::same_environment(old(self), final(self)),
    {
        self.store.reset();
        self.active = None;
        self.phase = Phase::Created;
    }

    /// Executes an anonymous function export by name.
    ///
    /// Before the instantiated phase the call is out of order and is
    /// rejected with a wrong-workflow error — it never yields a
    /// misleadingly successful result. An unknown name is
    /// function-not-found; arguments that do not carry exactly the
    /// resolved signature's parameter types are a signature mismatch, and
    /// in every rejected case nothing is dispatched, charged or written.
    /// A call past the installed cost limit is refused as resource
    /// exhaustion. Otherwise the call is charged, the runtime executes the
    /// body, and the produced values come back truncated to the result
    /// capacity — discarding trailing results is never an error.
    pub fn execute<H: HostRuntime>(
        &mut self,
        runtime: &mut H,
        func_name: &str,
        params: &Vec<WasmEdgeValue>,
        result_capacity: usize,
    ) -> (r: WasmEdgeResult<Vec<WasmEdgeValue>>)
        requires
            old(self).wf(),
        ensures
            final(self).wf(),
            final(self).phase_spec() == old(self).phase_spec(),
            final(self).active_spec() == old(self).active_spec(),
            final(self).store_spec() == old(self).store_spec(),
            final(self).config_spec() == old(self).config_spec(),
            final(self).wasi_import_spec() == old(self).wasi_import_spec(),
            final(self).process_import_spec() == old(self).process_import_spec(),
            final(self).stat_spec().cost_limit_spec() == old(self).stat_spec().cost_limit_spec(),
            final(self).stat_spec().cost_table_spec() == old(self).stat_spec().cost_table_spec(),
            old(self).phase_spec() != Phase::Instantiated ==> (r matches Err(e) && e.code
                == CODE_WRONG_WORKFLOW) && stats_equal(final(self).stat_spec(), old(self).stat_spec()),
            ({
                let f = old(self).store_spec().func_named(func_name@);
                let phase_ok = old(self).phase_spec() == Phase::Instantiated;
                &&& (phase_ok && f is None ==> (r matches Err(e) && e.code == CODE_FUNC_NOT_FOUND)
                    && stats_equal(final(self).stat_spec(), old(self).stat_spec()))
                &&& (f matches Some(d) ==> {
                    let within = old(self).stat_spec().total_cost_spec() + d.cost <= old(self).stat_spec().cost_limit_spec() && old(self).stat_spec().instr_count_spec()
                        < u64::MAX;
                    &&& (phase_ok && !params_match_types(params@, d.params@) ==> (r matches Err(e)
                        && e.code == CODE_FUNC_SIG_MISMATCH) && stats_equal(final(self).stat_spec(), old(self).stat_spec()))
                    &&& (phase_ok && params_match_types(params@, d.params@) && !within ==> (r
                        matches Err(e) && e.code == CODE_COST_LIMIT_EXCEEDED) && stats_equal(final(self).stat_spec(), old(self).stat_spec()))
                    &&& (phase_ok && params_match_types(params@, d.params@) && within ==> final(self).stat_spec().total_cost_spec() == old(self).stat_spec().total_cost_spec()
                        + d.cost && final(self).stat_spec().instr_count_spec() == old(self).stat_spec().instr_count_spec() + 1)
                })
                &&& (r is Ok ==> phase_ok && f is Some && params_match_types(
                    params@,
                    f->Some_0.params@,
                ) && r->Ok_0@.len() <= result_capacity)
            }),
    {
        if !(self.phase == Phase::Instantiated) {
            return Err(WasmEdgeError::from_code(CODE_WRONG_WORKFLOW));
        }
        let fi = match self.store.find_function(func_name) {
            Some(fi) => fi,
            None => {
                return Err(WasmEdgeError::from_code(CODE_FUNC_NOT_FOUND));
            },
        };
        if !check_params(params, fi.function_type().params_vec()) {
            return Err(WasmEdgeError::from_code(CODE_FUNC_SIG_MISMATCH));
        }
        if !self.stat.charge(fi.cost()) {
            return Err(WasmEdgeError::from_code(CODE_COST_LIMIT_EXCEEDED));
        }
        let outcome = runtime.invoke(fi.func_id(), params);
        finish_invocation(outcome, result_capacity)
    }

    /// Executes a function export of a registered module by name,
    /// independent of the session's phase. An unregistered module name is
    /// a wrong-instance-address failure, distinct from an unknown function
    /// name within a registered module; the rest behaves as `execute`.
    pub fn execute_registered<H: HostRuntime>(
        &mut self,
        runtime: &mut H,
        mod_name: &str,
        func_name: &str,
        params: &Vec<WasmEdgeValue>,
        result_capacity: usize,
    ) -> (r: WasmEdgeResult<Vec<WasmEdgeValue>>)
        requires
            old(self).wf(),
        ensures
            final(self).wf(),
            final(self).phase_spec() == old(self).phase_spec(),
            final(self).active_spec() == old(self).active_spec(),
            final(self).store_spec() == old(self).store_spec(),
            final(self).config_spec() == old(self).config_spec(),
            final(self).wasi_import_spec() == old(self).wasi_import_spec(),
            final(self).process_import_spec() == old(self).process_import_spec(),
            final(self).stat_spec().cost_limit_spec() == old(self).stat_spec().cost_limit_spec(),
            final(self).stat_spec().cost_table_spec() == old(self).stat_spec().cost_table_spec(),
            ({
                let m = old(self).store_spec().module_named(mod_name@);
                let f = old(self).store_spec().func_named_registered(mod_name@, func_name@);
                &&& (m is None ==> (r matches Err(e) && e.code == CODE_WRONG_INSTANCE_ADDRESS)
                    && stats_equal(final(self).stat_spec(), old(self).stat_spec()))
                &&& (m is Some && f is None ==> (r matches Err(e) && e.code == CODE_FUNC_NOT_FOUND)
                    && stats_equal(final(self).stat_spec(), old(self).stat_spec()))
                &&& (f matches Some(d) ==> {
                    let within = old(self).stat_spec().total_cost_spec() + d.cost <= old(self).stat_spec().cost_limit_spec() && old(self).stat_spec().instr_count_spec()
                        < u64::MAX;
                    &&& (!params_match_types(params@, d.params@) ==> (r matches Err(e) && e.code
                        == CODE_FUNC_SIG_MISMATCH) && stats_equal(final(self).stat_spec(), old(self).stat_spec()))
                    &&& (params_match_types(params@, d.params@) && !within ==> (r matches Err(e)
                        && e.code == CODE_COST_LIMIT_EXCEEDED) && stats_equal(final(self).stat_spec(), old(self).stat_spec()))
                    &&& (params_match_types(params@, d.params@) && within ==> final(self).stat_spec().total_cost_spec() == old(self).stat_spec().total_cost_spec()
                        + d.cost && final(self).stat_spec().instr_count_spec() == old(self).stat_spec().instr_count_spec() + 1)
                })
                &&& (r is Ok ==> f is Some && params_match_types(params@, f->Some_0.params@)
                    && r->Ok_0@.len() <= result_capacity)
            }),
    {
        if !self.store.contains_module(mod_name) {
            return Err(WasmEdgeError::from_code(CODE_WRONG_INSTANCE_ADDRESS));
        }
        let fi = match self.store.find_function_registered(mod_name, func_name) {
            Some(fi) => fi,
            None => {
                return Err(WasmEdgeError::from_code(CODE_FUNC_NOT_FOUND));
            },
        };
        if !check_params(params, fi.function_type().params_vec()) {
            return Err(WasmEdgeError::from_code(CODE_FUNC_SIG_MISMATCH));
        }
        if !self.stat.charge(fi.cost()) {
            return Err(WasmEdgeError::from_code(CODE_COST_LIMIT_EXCEEDED));
        }
        let outcome = runtime.invoke(fi.func_id(), params);
        finish_invocation(outcome, result_capacity)
    }

    /// Loads, validates, instantiates and executes in one stroke. Each
    /// step's full contract is its own; composed, an unparsed handle or an
    /// unallocatable module fails, and a success leaves the session
    /// instantiated on the given module with the results truncated to the
    /// capacity.
    pub fn run_wasm_from_ast<H: HostRuntime>(
        &mut self,
        runtime: &mut H,
        ast_mod: &ASTModuleContext,
        func_name: &str,
        params: &Vec<WasmEdgeValue>,
        result_capacity: usize,
    ) -> (r: WasmEdgeResult<Vec<WasmEdgeValue>>)
        requires
            old(self).wf(),
        ensures
            final(self).wf(),
            !ast_mod.is_parsed() ==> (r matches Err(e) && e.code == CODE_FAILED),
            ast_mod.is_parsed() && !memories_feasible(ast_mod.content_view()->Some_0.memories)
                ==> (r matches Err(e) && e.code == CODE_FAILED),
            ast_mod.is_parsed() && memories_feasible(ast_mod.content_view()->Some_0.memories)
                ==> ({
                let c = ast_mod.content_view()->Some_0;
                &&& final(self).phase_spec() == Phase::Instantiated
                &&& view_funcs(final(self).store_spec().funcs_spec()) == c.funcs
                &&& tables_built(final(self).store_spec().tables_spec(), c.tables)
                &&& memories_built(final(self).store_spec().memories_spec(), c.memories)
                &&& globals_built(final(self).store_spec().globals_spec(), c.globals)
            }),
            r is Ok ==> final(self).phase_spec() == Phase::Instantiated && r->Ok_0@.len()
                <= result_capacity,
    {
        self.load_from_ast(ast_mod)?;
        self.validate()?;
        self.instantiate()?;
        self.execute(runtime, func_name, params, result_capacity)
    }

    /// Registers an import builder's module with the session's registry,
    /// consuming the builder; independent of the phase. A module name
    /// already registered is a name conflict.
    pub fn register_module_from_import_object(&mut self, import_ctx: ImportObjectContext) -> (r:
        WasmEdgeResult<()>)
        requires
            old(self).wf(),
        ensures
            final(self).wf(),
            r is Ok <==> old(self).store_spec().module_named(import_ctx.mod_name_spec()) is None,
            r matches Err(e) ==> e.code == CODE_MODULE_NAME_CONFLICT,
            r is Err ==> final(self).store_spec().modules_spec() == old(self).store_spec().modules_spec(),
            r is Ok ==> ({
                let ms = final(self).store_spec().modules_spec();
                &&& ms.len() == old(self).store_spec().modules_spec().len() + 1
                &&& ms.drop_last() == old(self).store_spec().modules_spec()
                &&& ms.last().name@ == import_ctx.mod_name_spec()
                &&& ms.last().funcs@ == import_ctx.funcs_spec()
                &&& ms.last().tables@ == import_ctx.tables_spec()
                &&& ms.last().memories@ == import_ctx.memories_spec()
                &&& ms.last().globals@ == import_ctx.globals_spec()
            }),
            final(self).store_spec().funcs_spec() == old(self).store_spec().funcs_spec(),
            final(self).store_spec().tables_spec() == old(self).store_spec().tables_spec(),
            final(self).store_spec().memories_spec() == old(self).store_spec().memories_spec(),
            final(self).store_spec().globals_spec() == old(self).store_spec().globals_spec(),
            final(self).phase_spec() == old(self).phase_spec(),
            final(self).active_spec() == old(self).active_spec(),
            VMContext::same_environment(old(self), final(self)),
    {
        let m = import_ctx.into_module();
        self.store.register_module_parts(m)
    }

    /// Registers a parsed module's exports with the session's registry
    /// under a name, realizing them from their declarations; independent
    /// of the phase. An unparsed handle is a failure; a taken name is a
    /// name conflict; an unallocatable memory is an instantiation failure.
    pub fn register_module_from_ast(&mut self, mod_name: &str, ast_mod: &ASTModuleContext) -> (r:
        WasmEdgeResult<()>)
        requires
            old(self).wf(),
        ensures
            final(self).wf(),
            r is Ok <==> ({
                &&& ast_mod.is_parsed()
                &&& memories_feasible(ast_mod.content_view()->Some_0.memories)
                &&& old(self).store_spec().module_named(mod_name@) is None
            }),
            !ast_mod.is_parsed() ==> (r matches Err(e) && e.code == CODE_FAILED),
            ast_mod.is_parsed() && !memories_feasible(ast_mod.content_view()->Some_0.memories)
                ==> (r matches Err(e) && e.code == CODE_FAILED),
            ast_mod.is_parsed() && memories_feasible(ast_mod.content_view()->Some_0.memories)
                && old(self).store_spec().module_named(mod_name@) is Some ==> (r matches Err(e)
                && e.code == CODE_MODULE_NAME_CONFLICT),
            r is Err ==> final(self).store_spec().modules_spec() == old(self).store_spec().modules_spec(),
            r is Ok ==> ({
                let ms = final(self).store_spec().modules_spec();
                let c = ast_mod.content_view()->Some_0;
                &&& ms.len() == old(self).store_spec().modules_spec().len() + 1
                &&& ms.drop_last() == old(self).store_spec().modules_spec()
                &&& ms.last().name@ == mod_name@
                &&& view_funcs(ms.last().funcs@) == c.funcs
                &&& tables_built(ms.last().tables@, c.tables)
                &&& memories_built(ms.last().memories@, c.memories)
                &&& globals_built(ms.last().globals@, c.globals)
            }),
            final(self).store_spec().funcs_spec() == old(self).store_spec().funcs_spec(),
            final(self).store_spec().tables_spec() == old(self).store_spec().tables_spec(),
            final(self).store_spec().memories_spec() == old(self).store_spec().memories_spec(),
            final(self).store_spec().globals_spec() == old(self).store_spec().globals_spec(),
            final(self).phase_spec() == old(self).phase_spec(),
            final(self).active_spec() == old(self).active_spec(),
            VMContext::same_environment(old(self), final(self)),
    {
        let content = match ast_mod.content() {
            Some(c) => c,
            None => {
                proof { reveal_strlit("the module is not parsed"); }
                return Err(WasmEdgeError::with_message(
                    CODE_FAILED,
                    "the module is not parsed".to_owned(),
                ));
            },
        };
        let m = match StoreContext::build_module(mod_name.to_owned(), content) {
            Some(m) => m,
            None => {
                proof { reveal_strlit("instantiation failed: cannot allocate memory"); }
                return Err(WasmEdgeError::with_message(
                    CODE_FAILED,
                    "instantiation failed: cannot allocate memory".to_owned(),
                ));
            },
        };
        self.store.register_module_parts(m)
    }

    /// The signature of an anonymous function export, resolved by name;
    /// an unknown name is an absent result.
    pub fn function_type(&self, func_name: &str) -> (r: Option<FunctionTypeContext>)
        ensures
            r is Some <==> self.store_spec().func_named(func_name@) is Some,
            r matches Some(ty) ==> ({
                let d = self.store_spec().func_named(func_name@)->Some_0;
                ty.params_spec() == d.params@ && ty.returns_spec() == d.results@
            }),
    {
        match self.store.find_function(func_name) {
            Some(fi) => Some(fi.function_type().duplicate()),
            None => None,
        }
    }

    /// The signature of a registered module's function export, resolved by
    /// module and name; an unknown module or name is an absent result.
    pub fn function_type_registered(&self, mod_name: &str, func_name: &str) -> (r: Option<
        FunctionTypeContext,
    >)
        ensures
            r is Some <==> self.store_spec().func_named_registered(mod_name@, func_name@) is Some,
            r matches Some(ty) ==> ({
                let d = self.store_spec().func_named_registered(mod_name@, func_name@)->Some_0;
                ty.params_spec() == d.params@ && ty.returns_spec() == d.results@
            }),
    {
        match self.store.find_function_registered(mod_name, func_name) {
            Some(fi) => Some(fi.function_type().duplicate()),
            None => None,
        }
    }

    /// The number of anonymous function exports.
    pub fn function_list_len(&self) -> (r: usize)
        ensures
            r == self.store_spec().funcs_spec().len(),
    {
        self.store.list_function_len()
    }

    /// The first `limit` anonymous function export names; the capacity
    /// must lie between 1 and the export count inclusive, else nothing.
    pub fn function_names(&self, limit: usize) -> (r: Option<Vec<String>>)
        ensures
            r is Some <==> 1 <= limit <= self.store_spec().funcs_spec().len(),
            r matches Some(names) ==> names@.len() == limit && (forall|i: int|
                0 <= i < limit ==> names@[i]@ == self.store_spec().funcs_spec()[i].name@),
    {
        match self.store.list_function(limit) {
            Ok((_, names)) => Some(names),
            Err(_) => None,
        }
    }

    /// The session's built-in import module for a registered host
    /// capability, lent mutably so the caller can initialize it; absent
    /// when the configuration did not register the capability.
    pub fn import_object(&mut self, reg: HostRegistration) -> (r: Option<
        &mut ImportObjectContext,
    >)
        ensures
            r is Some <==> (match reg {
                HostRegistration::WasmEdge_HostRegistration_Wasi => old(self).wasi_import_spec()
                    is Some,
                HostRegistration::WasmEdge_HostRegistration_WasmEdge_Process => old(self).process_import_spec() is Some,
            }),
            r is None ==> *final(self) == *old(self),
            r matches Some(io) ==> ({
                &&& *io == (match reg {
                    HostRegistration::WasmEdge_HostRegistration_Wasi => old(self).wasi_import_spec()->Some_0,
                    HostRegistration::WasmEdge_HostRegistration_WasmEdge_Process => old(self).process_import_spec()->Some_0,
                })
                &&& (match reg {
                    HostRegistration::WasmEdge_HostRegistration_Wasi => final(self).wasi_import_spec() == Some(*final(io)) && final(self).process_import_spec()
                        == old(self).process_import_spec(),
                    HostRegistration::WasmEdge_HostRegistration_WasmEdge_Process => final(self).process_import_spec() == Some(*final(io)) && final(self).wasi_import_spec()
                        == old(self).wasi_import_spec(),
                })
                &&& final(self).phase_spec() == old(self).phase_spec()
                &&& final(self).active_spec() == old(self).active_spec()
                &&& final(self).store_spec() == old(self).store_spec()
                &&& final(self).stat_spec() == old(self).stat_spec()
                &&& final(self).config_spec() == old(self).config_spec()
            }),
    {
        match reg {
            HostRegistration::WasmEdge_HostRegistration_Wasi => match self.wasi_import {
                Some(ref mut io) => Some(io),
                None => None,
            },
            HostRegistration::WasmEdge_HostRegistration_WasmEdge_Process => match self
                .process_import {
                Some(ref mut io) => Some(io),
                None => None,
            },
        }
    }

    /// A view of the session's registry: observed, never destroyed by the
    /// holder — it lives and dies with the session.
    pub fn store_context(&self) -> (r: Option<&StoreContext>)
        ensures
            r is Some,
            r matches Some(s) ==> *s == self.store_spec(),
    {
        Some(&self.store)
    }

    /// A view of the session's statistics.
    pub fn statistics_context(&self) -> (r: Option<&StatisticsContext>)
        ensures
            r is Some,
            r matches Some(s) ==> *s == self.stat_spec(),
    {
        Some(&self.stat)
    }

    /// The session's statistics, lent mutably so a cost table and a cost
    /// limit can be installed before execution.
    pub fn statistics_context_mut(&mut self) -> (r: &mut StatisticsContext)
        ensures
            *r == old(self).stat_spec(),
            final(self).stat_spec() == *final(r),
            final(self).phase_spec() == old(self).phase_spec(),
            final(self).active_spec() == old(self).active_spec(),
            final(self).store_spec() == old(self).store_spec(),
            final(self).config_spec() == old(self).config_spec(),
            final(self).wasi_import_spec() == old(self).wasi_import_spec(),
            final(self).process_import_spec() == old(self).process_import_spec(),
    {
        &mut self.stat
    }
}

/// Instantiating twice is idempotent in its observable success, and the
/// second call re-establishes the exports: both calls realize the same
/// associated module, so after each one the registry's anonymous exports
/// stand exactly as that module declares them.
pub proof fn lemma_instantiate_idempotent(
    s0: VMContext,
    s1: VMContext,
    s2: VMContext,
    r1: WasmEdgeResult<()>,
    r2: WasmEdgeResult<()>,
)
    requires
        s0.wf(),
        s0.phase_spec() == Phase::Validated || s0.phase_spec() == Phase::Instantiated,
        VMContext::instantiate_step(s0, s1, r1),
        VMContext::instantiate_step(s1, s2, r2),
    ensures
        r1 is Ok <==> r2 is Ok,
        r1 is Ok ==> ({
            let c = s0.active_spec()->Some_0@;
            &&& s1.phase_spec() == Phase::Instantiated
            &&& s2.phase_spec() == Phase::Instantiated
            &&& view_funcs(s2.store_spec().funcs_spec()) == view_funcs(
                s1.store_spec().funcs_spec(),
            )
            &&& tables_built(s1.store_spec().tables_spec(), c.tables)
            &&& tables_built(s2.store_spec().tables_spec(), c.tables)
            &&& memories_built(s1.store_spec().memories_spec(), c.memories)
            &&& memories_built(s2.store_spec().memories_spec(), c.memories)
            &&& globals_built(s1.store_spec().globals_spec(), c.globals)
            &&& globals_built(s2.store_spec().globals_spec(), c.globals)
        }),
{
}

} // verus!
