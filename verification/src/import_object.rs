//! The import builder: an assembly point for host-provided functions,
//! tables, memories and globals offered to modules.
//!
//! Every `add_` operation is a consuming transfer: it takes the handle by
//! value, so no further independent operation on it — a second add, a use,
//! a destruction — can even be written. The builder owns what was added to
//! it until it is itself consumed by registration with a session.

use vstd::prelude::*;
use crate::ast::{view_funcs, FuncDecl, FuncDeclView};
use crate::instance::function::HostFunctionContext;
use crate::instance::global::GlobalInstanceContext;
use crate::instance::memory::MemoryInstanceContext;
use crate::instance::table::TableInstanceContext;
use crate::store::{GlobalInst, MemoryInst, ModuleInst, TableInst};

verus! {

broadcast use vstd::seq_lib::group_seq_properties, vstd::prelude::Seq::lemma_take_succ_push;

/// The views of a run of strings.
pub open spec fn view_strings(s: Seq<String>) -> Seq<Seq<char>> {
    s.map_values(|x: String| x@)
}

/// Copies a vector of strings.
fn copy_strings(src: &Vec<String>) -> (r: Vec<String>)
    ensures
        view_strings(r@) == view_strings(src@),
        r@.len() == src@.len(),
{
    let mut out: Vec<String> = Vec::new();
    let mut i: usize = 0;
    while i < src.len()
        invariant
            i <= src@.len(),
            out@.len() == i,
            forall|j: int| 0 <= j < i ==> out@[j]@ == src@[j]@,
        decreases src@.len() - i,
    {
        out.push(src[i].clone());
        i = i + 1;
    }
    proof {
        assert(view_strings(out@) =~= view_strings(src@));
    }
    out
}

/// An assembly point for host-provided capabilities, offered to modules
/// under a module name.
pub struct ImportObjectContext {
    mod_name: String,
    funcs: Vec<FuncDecl>,
    tables: Vec<TableInst>,
    memories: Vec<MemoryInst>,
    globals: Vec<GlobalInst>,
    wasi_args: Vec<String>,
    wasi_envs: Vec<String>,
    wasi_dirs: Vec<String>,
    wasi_preopens: Vec<String>,
}

impl ImportObjectContext {
    /// The module name the builder registers under.
    pub closed spec fn mod_name_spec(&self) -> Seq<char> {
        self.mod_name@
    }

    /// The host functions added so far.
    pub closed spec fn funcs_spec(&self) -> Seq<FuncDecl> {
        self.funcs@
    }

    /// The tables added so far.
    pub closed spec fn tables_spec(&self) -> Seq<TableInst> {
        self.tables@
    }

    /// The memories added so far.
    pub closed spec fn memories_spec(&self) -> Seq<MemoryInst> {
        self.memories@
    }

    /// The globals added so far.
    pub closed spec fn globals_spec(&self) -> Seq<GlobalInst> {
        self.globals@
    }

    /// The program arguments a WASI builder carries.
    pub closed spec fn wasi_args_spec(&self) -> Seq<String> {
        self.wasi_args@
    }

    /// The environment strings a WASI builder carries.
    pub closed spec fn wasi_envs_spec(&self) -> Seq<String> {
        self.wasi_envs@
    }

    /// The directory mappings a WASI builder carries.
    pub closed spec fn wasi_dirs_spec(&self) -> Seq<String> {
        self.wasi_dirs@
    }

    /// The preopened paths a WASI builder carries.
    pub closed spec fn wasi_preopens_spec(&self) -> Seq<String> {
        self.wasi_preopens@
    }

    /// Whether nothing has been added or installed yet.
    pub open spec fn is_empty_spec(&self) -> bool {
        &&& self.funcs_spec().len() == 0
        &&& self.tables_spec().len() == 0
        &&& self.memories_spec().len() == 0
        &&& self.globals_spec().len() == 0
        &&& self.wasi_args_spec().len() == 0
        &&& self.wasi_envs_spec().len() == 0
        &&& self.wasi_dirs_spec().len() == 0
        &&& self.wasi_preopens_spec().len() == 0
    }

    /// Reports whether nothing has been added or installed yet.
    pub fn is_empty(&self) -> (r: bool)
        ensures
            r == self.is_empty_spec(),
    {
        self.funcs.len() == 0 && self.tables.len() == 0 && self.memories.len() == 0
            && self.globals.len() == 0 && self.wasi_args.len() == 0 && self.wasi_envs.len() == 0
            && self.wasi_dirs.len() == 0 && self.wasi_preopens.len() == 0
    }

    /// Builds an empty builder registering under `mod_name`.
    pub fn create(mod_name: &str) -> (r: Option<ImportObjectContext>)
        ensures
            r is Some,
            r->Some_0.mod_name_spec() == mod_name@,
            r->Some_0.is_empty_spec(),
    {
        Some(
            ImportObjectContext {
                mod_name: mod_name.to_owned(),
                funcs: Vec::new(),
                tables: Vec::new(),
                memories: Vec::new(),
                globals: Vec::new(),
                wasi_args: Vec::new(),
                wasi_envs: Vec::new(),
                wasi_dirs: Vec::new(),
                wasi_preopens: Vec::new(),
            },
        )
    }

    /// Builds the WASI builder, carrying the given program arguments,
    /// environment strings, directory mappings and preopened paths; an
    /// absent list stands for the empty one. The lists are carried through
    /// to the engine unvalidated.
    pub fn create_wasi(
        args: Option<&Vec<String>>,
        envs: Option<&Vec<String>>,
        dirs: Option<&Vec<String>>,
        preopens: Option<&Vec<String>>,
    ) -> (r: Option<ImportObjectContext>)
        ensures
            r is Some,
            r->Some_0.mod_name_spec() == "wasi_snapshot_preview1"@,
            view_strings(r->Some_0.wasi_args_spec()) == (match args {
                Some(a) => view_strings(a@),
                None => Seq::<Seq<char>>::empty(),
            }),
            view_strings(r->Some_0.wasi_envs_spec()) == (match envs {
                Some(e) => view_strings(e@),
                None => Seq::<Seq<char>>::empty(),
            }),
            view_strings(r->Some_0.wasi_dirs_spec()) == (match dirs {
                Some(d) => view_strings(d@),
                None => Seq::<Seq<char>>::empty(),
            }),
            view_strings(r->Some_0.wasi_preopens_spec()) == (match preopens {
                Some(p) => view_strings(p@),
                None => Seq::<Seq<char>>::empty(),
            }),
            r->Some_0.funcs_spec().len() == 0,
            r->Some_0.tables_spec().len() == 0,
            r->Some_0.memories_spec().len() == 0,
            r->Some_0.globals_spec().len() == 0,
    {
        let wasi_args = match args {
            Some(a) => copy_strings(a),
            None => Vec::new(),
        };
        let wasi_envs = match envs {
            Some(e) => copy_strings(e),
            None => Vec::new(),
        };
        let wasi_dirs = match dirs {
            Some(d) => copy_strings(d),
            None => Vec::new(),
        };
        let wasi_preopens = match preopens {
            Some(p) => copy_strings(p),
            None => Vec::new(),
        };
        proof {
            assert(view_strings(Seq::<String>::empty()) =~= Seq::<Seq<char>>::empty());
        }
        Some(
            ImportObjectContext {
                mod_name: "wasi_snapshot_preview1".to_owned(),
                funcs: Vec::new(),
                tables: Vec::new(),
                memories: Vec::new(),
                globals: Vec::new(),
                wasi_args,
                wasi_envs,
                wasi_dirs,
                wasi_preopens,
            },
        )
    }

    /// Installs the WASI lists, replacing whatever the builder carried.
    pub fn init_wasi(
        &mut self,
        args: &Vec<String>,
        envs: &Vec<String>,
        dirs: &Vec<String>,
        preopens: &Vec<String>,
    )
        ensures
            view_strings(final(self).wasi_args_spec()) == view_strings(args@),
            view_strings(final(self).wasi_envs_spec()) == view_strings(envs@),
            view_strings(final(self).wasi_dirs_spec()) == view_strings(dirs@),
            view_strings(final(self).wasi_preopens_spec()) == view_strings(preopens@),
            final(self).mod_name_spec() == old(self).mod_name_spec(),
            final(self).funcs_spec() == old(self).funcs_spec(),
            final(self).tables_spec() == old(self).tables_spec(),
            final(self).memories_spec() == old(self).memories_spec(),
            final(self).globals_spec() == old(self).globals_spec(),
    {
        self.wasi_args = copy_strings(args);
        self.wasi_envs = copy_strings(envs);
        self.wasi_dirs = copy_strings(dirs);
        self.wasi_preopens = copy_strings(preopens);
    }

    /// Adds a host function under an export name, consuming the handle:
    /// the function now belongs to the builder, and the handle is gone.
    pub fn add_host_function(&mut self, name: &str, host_func_ctx: HostFunctionContext)
        ensures
            view_funcs(final(self).funcs_spec()) == view_funcs(old(self).funcs_spec()).push(
                FuncDeclView {
                    name: name@,
                    params: host_func_ctx.ty_spec().params_spec(),
                    results: host_func_ctx.ty_spec().returns_spec(),
                    func_id: host_func_ctx.func_id_spec(),
                    cost: host_func_ctx.cost_spec(),
                },
            ),
            final(self).mod_name_spec() == old(self).mod_name_spec(),
            final(self).tables_spec() == old(self).tables_spec(),
            final(self).memories_spec() == old(self).memories_spec(),
            final(self).globals_spec() == old(self).globals_spec(),
            final(self).wasi_args_spec() == old(self).wasi_args_spec(),
            final(self).wasi_envs_spec() == old(self).wasi_envs_spec(),
            final(self).wasi_dirs_spec() == old(self).wasi_dirs_spec(),
            final(self).wasi_preopens_spec() == old(self).wasi_preopens_spec(),
    {
        let (ty, func_id, cost) = host_func_ctx.into_parts();
        let (params, results) = ty.into_parts();
        let decl = FuncDecl { name: name.to_owned(), params, results, func_id, cost };
        self.funcs.push(decl);
        proof {
            assert(view_funcs(self.funcs@) =~= view_funcs(old(self).funcs_spec()).push(
                FuncDeclView {
                    name: name@,
                    params: host_func_ctx.ty_spec().params_spec(),
                    results: host_func_ctx.ty_spec().returns_spec(),
                    func_id: host_func_ctx.func_id_spec(),
                    cost: host_func_ctx.cost_spec(),
                },
            ));
        }
    }

    /// Adds a table under an export name, consuming the handle.
    pub fn add_table(&mut self, name: &str, table_ctx: TableInstanceContext)
        ensures
            final(self).tables_spec().len() == old(self).tables_spec().len() + 1,
            final(self).tables_spec().drop_last() == old(self).tables_spec(),
            final(self).tables_spec().last().name@ == name@,
            final(self).tables_spec().last().table == table_ctx,
            final(self).mod_name_spec() == old(self).mod_name_spec(),
            final(self).funcs_spec() == old(self).funcs_spec(),
            final(self).memories_spec() == old(self).memories_spec(),
            final(self).globals_spec() == old(self).globals_spec(),
            final(self).wasi_args_spec() == old(self).wasi_args_spec(),
            final(self).wasi_envs_spec() == old(self).wasi_envs_spec(),
            final(self).wasi_dirs_spec() == old(self).wasi_dirs_spec(),
            final(self).wasi_preopens_spec() == old(self).wasi_preopens_spec(),
    {
        self.tables.push(TableInst { name: name.to_owned(), table: table_ctx });
    }

    /// Adds a memory under an export name, consuming the handle.
    pub fn add_memory(&mut self, name: &str, mem_ctx: MemoryInstanceContext)
        ensures
            final(self).memories_spec().len() == old(self).memories_spec().len() + 1,
            final(self).memories_spec().drop_last() == old(self).memories_spec(),
            final(self).memories_spec().last().name@ == name@,
            final(self).memories_spec().last().memory == mem_ctx,
            final(self).mod_name_spec() == old(self).mod_name_spec(),
            final(self).funcs_spec() == old(self).funcs_spec(),
            final(self).tables_spec() == old(self).tables_spec(),
            final(self).globals_spec() == old(self).globals_spec(),
            final(self).wasi_args_spec() == old(self).wasi_args_spec(),
            final(self).wasi_envs_spec() == old(self).wasi_envs_spec(),
            final(self).wasi_dirs_spec() == old(self).wasi_dirs_spec(),
            final(self).wasi_preopens_spec() == old(self).wasi_preopens_spec(),
    {
        self.memories.push(MemoryInst { name: name.to_owned(), memory: mem_ctx });
    }

    /// Adds a global under an export name, consuming the handle.
    pub fn add_global(&mut self, name: &str, global_ctx: GlobalInstanceContext)
        ensures
            final(self).globals_spec().len() == old(self).globals_spec().len() + 1,
            final(self).globals_spec().drop_last() == old(self).globals_spec(),
            final(self).globals_spec().last().name@ == name@,
            final(self).globals_spec().last().global == global_ctx,
            final(self).mod_name_spec() == old(self).mod_name_spec(),
            final(self).funcs_spec() == old(self).funcs_spec(),
            final(self).tables_spec() == old(self).tables_spec(),
            final(self).memories_spec() == old(self).memories_spec(),
            final(self).wasi_args_spec() == old(self).wasi_args_spec(),
            final(self).wasi_envs_spec() == old(self).wasi_envs_spec(),
            final(self).wasi_dirs_spec() == old(self).wasi_dirs_spec(),
            final(self).wasi_preopens_spec() == old(self).wasi_preopens_spec(),
    {
        self.globals.push(GlobalInst { name: name.to_owned(), global: global_ctx });
    }

    /// Consumes the builder into a registry-owned module holding exactly
    /// the entries that were added: registration transfers ownership of
    /// every entry at once, and the builder is gone.
    pub(crate) fn into_module(self) -> (m: ModuleInst)
        ensures
            m.name@ == self.mod_name_spec(),
            m.funcs@ == self.funcs_spec(),
            m.tables@ == self.tables_spec(),
            m.memories@ == self.memories_spec(),
            m.globals@ == self.globals_spec(),
    {
        ModuleInst {
            name: self.mod_name,
            funcs: self.funcs,
            tables: self.tables,
            memories: self.memories,
            globals: self.globals,
        }
    }
}

/// The ownership-transfer law of the builder. A consuming transfer moves a
/// handle into the builder — afterwards no further independent operation on
/// the handle can even be written — and registration then hands the
/// builder's entries to the registry wholesale: a handle added once stands
/// in the registered module exactly once, behind every entry added before
/// it, none of them lost, duplicated or reordered.
pub proof fn lemma_transfer_then_register(
    before: ImportObjectContext,
    after: ImportObjectContext,
    name: Seq<char>,
    table: TableInstanceContext,
    m: ModuleInst,
)
    requires
        after.tables_spec().len() == before.tables_spec().len() + 1,
        after.tables_spec().drop_last() == before.tables_spec(),
        after.tables_spec().last().name@ == name,
        after.tables_spec().last().table == table,
        m.tables@ == after.tables_spec(),
    ensures
        m.tables@.len() == before.tables_spec().len() + 1,
        forall|i: int|
            0 <= i < before.tables_spec().len() ==> m.tables@[i] == before.tables_spec()[i],
        m.tables@[before.tables_spec().len() as int].name@ == name,
        m.tables@[before.tables_spec().len() as int].table == table,
{
    assert(forall|i: int|
        0 <= i < before.tables_spec().len() ==> after.tables_spec().drop_last()[i]
            == after.tables_spec()[i]);
}

} // verus!
