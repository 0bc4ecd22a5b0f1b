//! The interpreter: registration, instantiation and invocation against a
//! caller-owned registry.
//!
//! Unlike the session facade, the interpreter keeps no phase of its own:
//! it acts on the registry the caller hands it, and the registry's content
//! alone decides what an invocation can resolve.

use vstd::prelude::*;
use crate::ast::{view_funcs, ASTModuleContext};
use crate::configure::ConfigureContext;
use crate::error::{
    WasmEdgeError, WasmEdgeResult, CODE_FAILED, CODE_FUNC_NOT_FOUND, CODE_FUNC_SIG_MISMATCH,
    CODE_MODULE_NAME_CONFLICT, CODE_WRONG_INSTANCE_ADDRESS,
};
use crate::host::{dispatch, params_match_types, HostRuntime};
use crate::import_object::ImportObjectContext;
use crate::statistics::StatisticsContext;
use crate::store::{memories_feasible, tables_built, memories_built, globals_built, StoreContext};
use crate::value::WasmEdgeValue;

verus! {

/// An interpreter over caller-owned registries. Configuration and
/// statistics shape the engine's execution, which is the runtime's
/// business; the management state all lives in the registry.
pub struct InterpreterContext {}

impl InterpreterContext {
    /// Builds an interpreter, optionally shaped by a configuration and a
    /// statistics attachment.
    pub fn create(conf: Option<&ConfigureContext>, stat: Option<&StatisticsContext>) -> (r: Option<
        InterpreterContext,
    >)
        ensures
            r is Some,
    {
        let _ = conf;
        let _ = stat;
        Some(InterpreterContext {  })
    }

    /// Registers an import builder's module with the registry, consuming
    /// the builder: ownership of every entry passes to the registry at
    /// once. A module name already registered is a name conflict.
    pub fn register_import_object_module(
        &mut self,
        store: &mut StoreContext,
        imp_obj: ImportObjectContext,
    ) -> (r: WasmEdgeResult<()>)
        ensures
            r is Ok <==> old(store).module_named(imp_obj.mod_name_spec()) is None,
            r matches Err(e) ==> e.code == CODE_MODULE_NAME_CONFLICT,
            r is Err ==> final(store).modules_spec() == old(store).modules_spec(),
            r is Ok ==> ({
                let ms = final(store).modules_spec();
                &&& ms.len() == old(store).modules_spec().len() + 1
                &&& ms.drop_last() == old(store).modules_spec()
                &&& ms.last().name@ == imp_obj.mod_name_spec()
                &&& ms.last().funcs@ == imp_obj.funcs_spec()
                &&& ms.last().tables@ == imp_obj.tables_spec()
                &&& ms.last().memories@ == imp_obj.memories_spec()
                &&& ms.last().globals@ == imp_obj.globals_spec()
            }),
            final(store).funcs_spec() == old(store).funcs_spec(),
            final(store).tables_spec() == old(store).tables_spec(),
            final(store).memories_spec() == old(store).memories_spec(),
            final(store).globals_spec() == old(store).globals_spec(),
    {
        let m = imp_obj.into_module();
        store.register_module_parts(m)
    }

    /// Registers a parsed module's exports with the registry under a name,
    /// realizing them from their declarations. An unparsed handle is a
    /// failure; a name already registered is a name conflict; a module
    /// whose memories cannot be allocated is an instantiation failure.
    pub fn register_ast_module(
        &mut self,
        store: &mut StoreContext,
        ast_mod: &ASTModuleContext,
        mod_name: &str,
    ) -> (r: WasmEdgeResult<()>)
        ensures
            r is Ok <==> ({
                &&& ast_mod.is_parsed()
                &&& memories_feasible(ast_mod.content_view()->Some_0.memories)
                &&& old(store).module_named(mod_name@) is None
            }),
            !ast_mod.is_parsed() ==> (r matches Err(e) && e.code == CODE_FAILED),
            ast_mod.is_parsed() && !memories_feasible(ast_mod.content_view()->Some_0.memories)
                ==> (r matches Err(e) && e.code == CODE_FAILED),
            ast_mod.is_parsed() && memories_feasible(ast_mod.content_view()->Some_0.memories)
                && old(store).module_named(mod_name@) is Some ==> (r matches Err(e) && e.code
                == CODE_MODULE_NAME_CONFLICT),
            r is Err ==> final(store).modules_spec() == old(store).modules_spec(),
            r is Ok ==> ({
                let ms = final(store).modules_spec();
                let c = ast_mod.content_view()->Some_0;
                &&& ms.len() == old(store).modules_spec().len() + 1
                &&& ms.drop_last() == old(store).modules_spec()
                &&& ms.last().name@ == mod_name@
                &&& view_funcs(ms.last().funcs@) == c.funcs
                &&& tables_built(ms.last().tables@, c.tables)
                &&& memories_built(ms.last().memories@, c.memories)
                &&& globals_built(ms.last().globals@, c.globals)
            }),
            final(store).funcs_spec() == old(store).funcs_spec(),
            final(store).tables_spec() == old(store).tables_spec(),
            final(store).memories_spec() == old(store).memories_spec(),
            final(store).globals_spec() == old(store).globals_spec(),
    {
        let content = match ast_mod.content() {
            Some(c) => c,
            None => {
                proof { reveal_strlit("the module is not parsed"); }
                return Err(WasmEdgeError::with_message(
                    CODE_FAILED,
                    "the module is not parsed".to_owned(),
                ));
            },
        };
        let m = match StoreContext::build_module(mod_name.to_owned(), content) {
            Some(m) => m,
            None => {
                proof { reveal_strlit("instantiation failed: cannot allocate memory"); }
                return Err(WasmEdgeError::with_message(
                    CODE_FAILED,
                    "instantiation failed: cannot allocate memory".to_owned(),
                ));
            },
        };
        store.register_module_parts(m)
    }

    /// Instantiates a parsed module's exports as the registry's anonymous
    /// exports, replacing the previous ones. An unparsed handle is a
    /// failure; a module whose memories cannot be allocated is an
    /// instantiation failure that leaves the registry untouched.
    pub fn instantiate(&mut self, store: &mut StoreContext, ast_mod: &ASTModuleContext) -> (r:
        WasmEdgeResult<()>)
        ensures
            r is Ok <==> ast_mod.is_parsed() && memories_feasible(
                ast_mod.content_view()->Some_0.memories,
            ),
            r matches Err(e) ==> e.code == CODE_FAILED,
            r is Err ==> {
                &&& final(store).funcs_spec() == old(store).funcs_spec()
                &&& final(store).tables_spec() == old(store).tables_spec()
                &&& final(store).memories_spec() == old(store).memories_spec()
                &&& final(store).globals_spec() == old(store).globals_spec()
            },
            r is Ok ==> ({
                let c = ast_mod.content_view()->Some_0;
                &&& view_funcs(final(store).funcs_spec()) == c.funcs
                &&& tables_built(final(store).tables_spec(), c.tables)
                &&& memories_built(final(store).memories_spec(), c.memories)
                &&& globals_built(final(store).globals_spec(), c.globals)
            }),
            final(store).modules_spec() == old(store).modules_spec(),
    {
        let content = match ast_mod.content() {
            Some(c) => c,
            None => {
                proof { reveal_strlit("the module is not parsed"); }
                return Err(WasmEdgeError::with_message(
                    CODE_FAILED,
                    "the module is not parsed".to_owned(),
                ));
            },
        };
        store.instantiate_anonymous(content)
    }

    /// Invokes an anonymous function export by name. An unknown name is a
    /// function-not-found failure; arguments that do not carry exactly the
    /// resolved signature's parameter types are a signature mismatch and
    /// nothing is dispatched or written; otherwise the runtime executes
    /// the body and the produced values come back truncated to the result
    /// capacity.
    pub fn invoke<H: HostRuntime>(
        &self,
        store: &mut StoreContext,
        runtime: &mut H,
        func_name: &str,
        params: Option<&Vec<WasmEdgeValue>>,
        result_capacity: usize,
    ) -> (r: WasmEdgeResult<Vec<WasmEdgeValue>>)
        ensures
            *final(store) == *old(store),
            ({
                let f = old(store).func_named(func_name@);
                let ps = match params {
                    Some(p) => p@,
                    None => Seq::<WasmEdgeValue>::empty(),
                };
                &&& (f is None ==> (r matches Err(e) && e.code == CODE_FUNC_NOT_FOUND))
                &&& (f matches Some(d) && !params_match_types(ps, d.params@) ==> (r matches Err(e)
                    && e.code == CODE_FUNC_SIG_MISMATCH))
                &&& (r is Ok ==> f is Some && params_match_types(ps, f->Some_0.params@)
                    && r->Ok_0@.len() <= result_capacity)
            }),
    {
        let empty: Vec<WasmEdgeValue> = Vec::new();
        let ps = match params {
            Some(p) => p,
            None => &empty,
        };
        match store.find_function(func_name) {
            Some(fi) => dispatch(&fi, runtime, ps, result_capacity),
            None => Err(WasmEdgeError::from_code(CODE_FUNC_NOT_FOUND)),
        }
    }

    /// Invokes a function export of a registered module by name. An
    /// unregistered module name is a wrong-instance-address failure,
    /// distinct from an unknown function name within a registered module;
    /// the rest behaves as `invoke`.
    pub fn invoke_registered<H: HostRuntime>(
        &self,
        store: &mut StoreContext,
        runtime: &mut H,
        mod_name: &str,
        func_name: &str,
        params: Option<&Vec<WasmEdgeValue>>,
        result_capacity: usize,
    ) -> (r: WasmEdgeResult<Vec<WasmEdgeValue>>)
        ensures
            *final(store) == *old(store),
            ({
                let m = old(store).module_named(mod_name@);
                let f = old(store).func_named_registered(mod_name@, func_name@);
                let ps = match params {
                    Some(p) => p@,
                    None => Seq::<WasmEdgeValue>::empty(),
                };
                &&& (m is None ==> (r matches Err(e) && e.code == CODE_WRONG_INSTANCE_ADDRESS))
                &&& (m is Some && f is None ==> (r matches Err(e) && e.code
                    == CODE_FUNC_NOT_FOUND))
                &&& (f matches Some(d) && !params_match_types(ps, d.params@) ==> (r matches Err(e)
                    && e.code == CODE_FUNC_SIG_MISMATCH))
                &&& (r is Ok ==> f is Some && params_match_types(ps, f->Some_0.params@)
                    && r->Ok_0@.len() <= result_capacity)
            }),
    {
        if !store.contains_module(mod_name) {
            return Err(WasmEdgeError::from_code(CODE_WRONG_INSTANCE_ADDRESS));
        }
        let empty: Vec<WasmEdgeValue> = Vec::new();
        let ps = match params {
            Some(p) => p,
            None => &empty,
        };
        match store.find_function_registered(mod_name, func_name) {
            Some(fi) => dispatch(&fi, runtime, ps, result_capacity),
            None => Err(WasmEdgeError::from_code(CODE_FUNC_NOT_FOUND)),
        }
    }
}

} // verus!
