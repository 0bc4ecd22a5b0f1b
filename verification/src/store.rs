//! The registry: the directory of instantiated, named exports, reachable
//! by name and by (module, name) pair.
//!
//! The registry owns every export committed to it. Lookups hand out
//! non-owning views — a lent reference whose lifetime the borrow checker
//! bounds by the registry's — and an unresolved name is an absent result,
//! never an error. Every listing first exposes a length query; the caller
//! must size its buffer between 1 and that length inclusive, and a zero or
//! over-large buffer is a usage error rejected before the engine would be
//! reached. Names are matched byte-exact over their full stored length.

use vstd::prelude::*;
use crate::ast::{
    copy_funcs, view_funcs, view_globals, view_memories, view_tables, FuncDecl, GlobalDecl,
    GlobalDeclView, MemoryDecl, MemoryDeclView, ModuleContent, TableDecl, TableDeclView,
};
use crate::error::{WasmEdgeError, WasmEdgeResult, CODE_FAILED, CODE_USAGE_ERROR};
use crate::instance::function::{FunctionInstanceContext, FunctionTypeContext};
use crate::instance::global::GlobalInstanceContext;
use crate::instance::memory::{MemoryInstanceContext, PAGE_SIZE};
use crate::instance::table::{null_ref, TableInstanceContext};

verus! {

broadcast use vstd::seq_lib::group_seq_properties, vstd::prelude::Seq::lemma_take_succ_push;

/// The first element of a run that satisfies a predicate, if any.
pub open spec fn find_first<T>(s: Seq<T>, p: spec_fn(T) -> bool) -> Option<T>
    decreases s.len(),
{
    if s.len() == 0 {
        None
    } else if p(s[0]) {
        Some(s[0])
    } else {
        find_first(s.drop_first(), p)
    }
}

/// Skipping a prefix with no match leaves the first match unchanged.
pub proof fn lemma_find_first_skip<T>(s: Seq<T>, p: spec_fn(T) -> bool, i: int)
    requires
        0 <= i <= s.len(),
        forall|j: int| 0 <= j < i ==> !p(s[j]),
    ensures
        find_first(s, p) == find_first(s.skip(i), p),
    decreases i,
{
    if i > 0 {
        assert(s.drop_first() =~= s.skip(1));
        lemma_find_first_skip(s.skip(1), p, i - 1);
        assert(s.skip(1).skip(i - 1) =~= s.skip(i));
    } else {
        assert(s.skip(0) =~= s);
    }
}

/// The first match is the element at the first matching index.
pub proof fn lemma_find_first_hit<T>(s: Seq<T>, p: spec_fn(T) -> bool, i: int)
    requires
        0 <= i < s.len(),
        p(s[i]),
        forall|j: int| 0 <= j < i ==> !p(s[j]),
    ensures
        find_first(s, p) == Some(s[i]),
{
    lemma_find_first_skip(s, p, i);
    assert(s.skip(i)[0] == s[i]);
}

/// With no matching element there is no first match.
pub proof fn lemma_find_first_miss<T>(s: Seq<T>, p: spec_fn(T) -> bool)
    requires
        forall|j: int| 0 <= j < s.len() ==> !p(s[j]),
    ensures
        find_first(s, p) is None,
{
    lemma_find_first_skip(s, p, s.len() as int);
    assert(s.skip(s.len() as int) =~= Seq::<T>::empty());
}

/// Compares two names byte-exact over their full length.
pub fn str_eq(a: &str, b: &str) -> (r: bool)
    ensures
        r == (a@ == b@),
{
    let sa: String = a.to_owned();
    let sb: String = b.to_owned();
    sa == sb
}

/// A table export the registry owns, under its name.
pub struct TableInst {
    /// The export name.
    pub name: String,
    /// The owned table instance.
    pub table: TableInstanceContext,
}

/// A memory export the registry owns, under its name.
pub struct MemoryInst {
    /// The export name.
    pub name: String,
    /// The owned memory instance.
    pub memory: MemoryInstanceContext,
}

/// A global export the registry owns, under its name.
pub struct GlobalInst {
    /// The export name.
    pub name: String,
    /// The owned global instance.
    pub global: GlobalInstanceContext,
}

/// A named module the registry owns, with everything it exports.
pub struct ModuleInst {
    /// The module name.
    pub name: String,
    /// The function exports.
    pub funcs: Vec<FuncDecl>,
    /// The table exports.
    pub tables: Vec<TableInst>,
    /// The memory exports.
    pub memories: Vec<MemoryInst>,
    /// The global exports.
    pub globals: Vec<GlobalInst>,
}

/// Whether every memory a module declares can be allocated.
pub open spec fn memories_feasible(decls: Seq<MemoryDeclView>) -> bool {
    forall|i: int|
        0 <= i < decls.len() ==> (#[trigger] decls[i]).limit.Min * PAGE_SIZE <= usize::MAX
}

/// Whether table instances realize table declarations: same names in the
/// same order, each table fresh at its declared size, every slot null.
pub open spec fn tables_built(insts: Seq<TableInst>, decls: Seq<TableDeclView>) -> bool {
    insts.len() == decls.len() && (forall|i: int|
        0 <= i < decls.len() ==> {
            &&& (#[trigger] insts[i]).name@ == decls[i].name
            &&& insts[i].table.ref_type_spec() == decls[i].ref_type
            &&& insts[i].table.limit_spec() == decls[i].limit
            &&& insts[i].table.data_spec().len() == decls[i].limit.Min
            &&& forall|k: int|
                0 <= k < insts[i].table.data_spec().len() ==> insts[i].table.data_spec()[k]
                    == null_ref(decls[i].ref_type)
        })
}

/// Whether memory instances realize memory declarations: same names in the
/// same order, each memory fresh at its declared page count, every byte
/// zero.
pub open spec fn memories_built(insts: Seq<MemoryInst>, decls: Seq<MemoryDeclView>) -> bool {
    insts.len() == decls.len() && (forall|i: int|
        0 <= i < decls.len() ==> {
            &&& (#[trigger] insts[i]).name@ == decls[i].name
            &&& insts[i].memory.limit_spec() == decls[i].limit
            &&& insts[i].memory.pages_spec() == decls[i].limit.Min
            &&& insts[i].memory.data_spec().len() == decls[i].limit.Min * PAGE_SIZE
            &&& forall|k: int|
                0 <= k < insts[i].memory.data_spec().len() ==> insts[i].memory.data_spec()[k]
                    == 0u8
        })
}

/// Whether global instances realize global declarations: same names in the
/// same order, each global at its declared value and mutability.
pub open spec fn globals_built(insts: Seq<GlobalInst>, decls: Seq<GlobalDeclView>) -> bool {
    insts.len() == decls.len() && (forall|i: int|
        0 <= i < decls.len() ==> {
            &&& (#[trigger] insts[i]).name@ == decls[i].name
            &&& insts[i].global.value_spec() == decls[i].value
            &&& insts[i].global.mutability_spec() == decls[i].mutability
        })
}

/// Builds the table instances a module declares.
fn build_tables(decls: &Vec<TableDecl>) -> (r: Vec<TableInst>)
    ensures
        tables_built(r@, view_tables(decls@)),
{
    let mut out: Vec<TableInst> = Vec::new();
    let mut i: usize = 0;
    while i < decls.len()
        invariant
            i <= decls@.len(),
            out@.len() == i,
            forall|j: int|
                0 <= j < i ==> {
                    &&& (#[trigger] out@[j]).name@ == decls@[j].name@
                    &&& out@[j].table.ref_type_spec() == decls@[j].ref_type
                    &&& out@[j].table.limit_spec() == decls@[j].limit
                    &&& out@[j].table.data_spec().len() == decls@[j].limit.Min
                    &&& forall|k: int|
                        0 <= k < out@[j].table.data_spec().len() ==> out@[j].table.data_spec()[k]
                            == null_ref(decls@[j].ref_type)
                },
        decreases decls@.len() - i,
    {
        let d = &decls[i];
        let table = match TableInstanceContext::create(d.ref_type, d.limit) {
            Some(t) => t,
            None => {
                proof {
                    assert(false);
                }
                unreached()
            },
        };
        out.push(TableInst { name: d.name.clone(), table });
        i = i + 1;
    }
    proof {
        assert(tables_built(out@, view_tables(decls@)));
    }
    out
}

/// Builds the memory instances a module declares; an infeasible page count
/// yields nothing.
fn build_memories(decls: &Vec<MemoryDecl>) -> (r: Option<Vec<MemoryInst>>)
    ensures
        r is Some <==> memories_feasible(view_memories(decls@)),
        r matches Some(insts) ==> memories_built(insts@, view_memories(decls@)),
{
    let mut out: Vec<MemoryInst> = Vec::new();
    let mut i: usize = 0;
    while i < decls.len()
        invariant
            i <= decls@.len(),
            out@.len() == i,
            forall|j: int|
                0 <= j < i ==> {
                    &&& (#[trigger] out@[j]).name@ == decls@[j].name@
                    &&& out@[j].memory.limit_spec() == decls@[j].limit
                    &&& out@[j].memory.pages_spec() == decls@[j].limit.Min
                    &&& out@[j].memory.data_spec().len() == decls@[j].limit.Min * PAGE_SIZE
                    &&& forall|k: int|
                        0 <= k < out@[j].memory.data_spec().len() ==> out@[j].memory.data_spec()[k]
                            == 0u8
                },
            forall|j: int| 0 <= j < i ==> decls@[j].limit.Min * PAGE_SIZE <= usize::MAX,
        decreases decls@.len() - i,
    {
        let d = &decls[i];
        let memory = match MemoryInstanceContext::create(d.limit) {
            Some(m) => m,
            None => {
                proof {
                    assert(view_memories(decls@)[i as int] == decls@[i as int]@);
                    assert(!memories_feasible(view_memories(decls@)));
                }
                return None;
            },
        };
        out.push(MemoryInst { name: d.name.clone(), memory });
        i = i + 1;
    }
    proof {
        assert(memories_built(out@, view_memories(decls@)));
        assert(memories_feasible(view_memories(decls@)));
    }
    Some(out)
}

/// Builds the global instances a module declares.
fn build_globals(decls: &Vec<GlobalDecl>) -> (r: Vec<GlobalInst>)
    ensures
        globals_built(r@, view_globals(decls@)),
{
    let mut out: Vec<GlobalInst> = Vec::new();
    let mut i: usize = 0;
    while i < decls.len()
        invariant
            i <= decls@.len(),
            out@.len() == i,
            forall|j: int|
                0 <= j < i ==> {
                    &&& (#[trigger] out@[j]).name@ == decls@[j].name@
                    &&& out@[j].global.value_spec() == decls@[j].value
                    &&& out@[j].global.mutability_spec() == decls@[j].mutability
                },
        decreases decls@.len() - i,
    {
        let d = &decls[i];
        let global = match GlobalInstanceContext::create(d.value, d.mutability) {
            Some(g) => g,
            None => {
                proof {
                    assert(false);
                }
                unreached()
            },
        };
        out.push(GlobalInst { name: d.name.clone(), global });
        i = i + 1;
    }
    proof {
        assert(globals_built(out@, view_globals(decls@)));
    }
    out
}

/// The registry. The exports of the instantiated primary module stand
/// anonymous; registered modules stand under their names.
pub struct StoreContext {
    funcs: Vec<FuncDecl>,
    tables: Vec<TableInst>,
    memories: Vec<MemoryInst>,
    globals: Vec<GlobalInst>,
    modules: Vec<ModuleInst>,
}

impl StoreContext {
    /// The anonymous function exports.
    pub closed spec fn funcs_spec(&self) -> Seq<FuncDecl> {
        self.funcs@
    }

    /// The anonymous table exports.
    pub closed spec fn tables_spec(&self) -> Seq<TableInst> {
        self.tables@
    }

    /// The anonymous memory exports.
    pub closed spec fn memories_spec(&self) -> Seq<MemoryInst> {
        self.memories@
    }

    /// The anonymous global exports.
    pub closed spec fn globals_spec(&self) -> Seq<GlobalInst> {
        self.globals@
    }

    /// The registered modules.
    pub closed spec fn modules_spec(&self) -> Seq<ModuleInst> {
        self.modules@
    }

    /// The first registered module of the given name, if any.
    pub open spec fn module_named(&self, mod_name: Seq<char>) -> Option<ModuleInst> {
        find_first(self.modules_spec(), |m: ModuleInst| m.name@ == mod_name)
    }

    /// The first anonymous function export of the given name, if any.
    pub open spec fn func_named(&self, name: Seq<char>) -> Option<FuncDecl> {
        find_first(self.funcs_spec(), |f: FuncDecl| f.name@ == name)
    }

    /// The first function export of the given name in the given registered
    /// module, if any.
    pub open spec fn func_named_registered(
        &self,
        mod_name: Seq<char>,
        name: Seq<char>,
    ) -> Option<FuncDecl> {
        match self.module_named(mod_name) {
            Some(m) => find_first(m.funcs@, |f: FuncDecl| f.name@ == name),
            None => None,
        }
    }

    /// Builds an empty registry.
    pub fn create() -> (r: StoreContext)
        ensures
            r.funcs_spec() == Seq::<FuncDecl>::empty(),
            r.tables_spec() == Seq::<TableInst>::empty(),
            r.memories_spec() == Seq::<MemoryInst>::empty(),
            r.globals_spec() == Seq::<GlobalInst>::empty(),
            r.modules_spec() == Seq::<ModuleInst>::empty(),
    {
        StoreContext {
            funcs: Vec::new(),
            tables: Vec::new(),
            memories: Vec::new(),
            globals: Vec::new(),
            modules: Vec::new(),
        }
    }

    /// The index of the first registered module of the given name, if any.
    fn find_module_index(&self, mod_name: &str) -> (r: Option<usize>)
        ensures
            r is Some <==> self.module_named(mod_name@) is Some,
            r matches Some(i) ==> i < self.modules_spec().len() && self.module_named(mod_name@)
                == Some(self.modules_spec()[i as int]),
    {
        let ghost p = |m: ModuleInst| m.name@ == mod_name@;
        let mut i: usize = 0;
        while i < self.modules.len()
            invariant
                i <= self.modules@.len(),
                forall|j: int| 0 <= j < i ==> !p(self.modules@[j]),
                p == (|m: ModuleInst| m.name@ == mod_name@),
            decreases self.modules@.len() - i,
        {
            if str_eq(mod_name, self.modules[i].name.as_str()) {
                proof {
                    lemma_find_first_hit(self.modules@, p, i as int);
                }
                return Some(i);
            }
            i = i + 1;
        }
        proof {
            lemma_find_first_miss(self.modules@, p);
        }
        None
    }

    /// Reports whether a module of the given name is registered.
    pub fn contains_module(&self, mod_name: &str) -> (r: bool)
        ensures
            r == (self.module_named(mod_name@) is Some),
    {
        self.find_module_index(mod_name).is_some()
    }

    /// Resolves an anonymous function export by name; an unknown name is
    /// an absent result, not an error. The view carries the resolved
    /// function's signature, dispatch key and cost.
    pub fn find_function(&self, func_name: &str) -> (r: Option<FunctionInstanceContext>)
        ensures
            r is Some <==> self.func_named(func_name@) is Some,
            r matches Some(fi) ==> ({
                let d = self.func_named(func_name@)->Some_0;
                &&& fi.ty_spec().params_spec() == d.params@
                &&& fi.ty_spec().returns_spec() == d.results@
                &&& fi.func_id_spec() == d.func_id
                &&& fi.cost_spec() == d.cost
            }),
    {
        find_function_in(&self.funcs, func_name)
    }

    /// Resolves a function export of a registered module; an unknown
    /// module or name is an absent result, not an error.
    pub fn find_function_registered(&self, mod_name: &str, func_name: &str) -> (r: Option<
        FunctionInstanceContext,
    >)
        ensures
            r is Some <==> self.func_named_registered(mod_name@, func_name@) is Some,
            r matches Some(fi) ==> ({
                let d = self.func_named_registered(mod_name@, func_name@)->Some_0;
                &&& fi.ty_spec().params_spec() == d.params@
                &&& fi.ty_spec().returns_spec() == d.results@
                &&& fi.func_id_spec() == d.func_id
                &&& fi.cost_spec() == d.cost
            }),
    {
        match self.find_module_index(mod_name) {
            Some(i) => find_function_in(&self.modules[i].funcs, func_name),
            None => None,
        }
    }

    /// Resolves an anonymous table export by name into a lent view.
    pub fn find_table(&self, table_name: &str) -> (r: Option<&TableInstanceContext>)
        ensures
            r is Some <==> find_first(self.tables_spec(), |t: TableInst| t.name@ == table_name@)
                is Some,
            r matches Some(t) ==> *t == find_first(
                self.tables_spec(),
                |t: TableInst| t.name@ == table_name@,
            )->Some_0.table,
    {
        find_table_in(&self.tables, table_name)
    }

    /// Resolves a table export of a registered module into a lent view.
    pub fn find_table_registered(&self, mod_name: &str, table_name: &str) -> (r: Option<
        &TableInstanceContext,
    >)
        ensures
            r is Some <==> ({
                match self.module_named(mod_name@) {
                    Some(m) => find_first(m.tables@, |t: TableInst| t.name@ == table_name@)
                        is Some,
                    None => false,
                }
            }),
            r matches Some(t) ==> *t == find_first(
                self.module_named(mod_name@)->Some_0.tables@,
                |t: TableInst| t.name@ == table_name@,
            )->Some_0.table,
    {
        match self.find_module_index(mod_name) {
            Some(i) => find_table_in(&self.modules[i].tables, table_name),
            None => None,
        }
    }

    /// Resolves an anonymous memory export by name into a lent view.
    pub fn find_memory(&self, mem_name: &str) -> (r: Option<&MemoryInstanceContext>)
        ensures
            r is Some <==> find_first(self.memories_spec(), |m: MemoryInst| m.name@ == mem_name@)
                is Some,
            r matches Some(m) ==> *m == find_first(
                self.memories_spec(),
                |m: MemoryInst| m.name@ == mem_name@,
            )->Some_0.memory,
    {
        find_memory_in(&self.memories, mem_name)
    }

    /// Resolves a memory export of a registered module into a lent view.
    pub fn find_memory_registered(&self, mod_name: &str, mem_name: &str) -> (r: Option<
        &MemoryInstanceContext,
    >)
        ensures
            r is Some <==> ({
                match self.module_named(mod_name@) {
                    Some(m) => find_first(m.memories@, |e: MemoryInst| e.name@ == mem_name@)
                        is Some,
                    None => false,
                }
            }),
            r matches Some(m) ==> *m == find_first(
                self.module_named(mod_name@)->Some_0.memories@,
                |e: MemoryInst| e.name@ == mem_name@,
            )->Some_0.memory,
    {
        match self.find_module_index(mod_name) {
            Some(i) => find_memory_in(&self.modules[i].memories, mem_name),
            None => None,
        }
    }

    /// Resolves an anonymous global export by name into a lent view.
    pub fn find_global(&self, global_name: &str) -> (r: Option<&GlobalInstanceContext>)
        ensures
            r is Some <==> find_first(self.globals_spec(), |g: GlobalInst| g.name@ == global_name@)
                is Some,
            r matches Some(g) ==> *g == find_first(
                self.globals_spec(),
                |g: GlobalInst| g.name@ == global_name@,
            )->Some_0.global,
    {
        find_global_in(&self.globals, global_name)
    }

    /// Resolves a global export of a registered module into a lent view.
    pub fn find_global_registered(&self, mod_name: &str, global_name: &str) -> (r: Option<
        &GlobalInstanceContext,
    >)
        ensures
            r is Some <==> ({
                match self.module_named(mod_name@) {
                    Some(m) => find_first(m.globals@, |e: GlobalInst| e.name@ == global_name@)
                        is Some,
                    None => false,
                }
            }),
            r matches Some(g) ==> *g == find_first(
                self.module_named(mod_name@)->Some_0.globals@,
                |e: GlobalInst| e.name@ == global_name@,
            )->Some_0.global,
    {
        match self.find_module_index(mod_name) {
            Some(i) => find_global_in(&self.modules[i].globals, global_name),
            None => None,
        }
    }

    /// The number of anonymous function exports.
    pub fn list_function_len(&self) -> (r: usize)
        ensures
            r == self.funcs_spec().len(),
    {
        self.funcs.len()
    }

    /// Lists the first `limit` anonymous function export names and reports
    /// the total count; `limit` must lie between 1 and that count.
    pub fn list_function(&self, limit: usize) -> (r: WasmEdgeResult<(usize, Vec<String>)>)
        ensures
            r is Ok <==> 1 <= limit <= self.funcs_spec().len(),
            r matches Ok(out) ==> out.0 == self.funcs_spec().len() && out.1@.len() == limit
                && (forall|i: int|
                0 <= i < limit ==> out.1@[i]@ == self.funcs_spec()[i].name@),
            r matches Err(e) ==> e.code == CODE_USAGE_ERROR,
    {
        if 0 < limit && limit <= self.funcs.len() {
            Ok((self.funcs.len(), func_names_prefix(&self.funcs, limit)))
        } else {
            Err(buffer_length_error())
        }
    }

    /// The number of function exports of a registered module; an unknown
    /// module has none.
    pub fn list_function_registered_len(&self, mod_name: &str) -> (r: usize)
        ensures
            r == (match self.module_named(mod_name@) {
                Some(m) => m.funcs@.len(),
                None => 0,
            }),
    {
        match self.find_module_index(mod_name) {
            Some(i) => self.modules[i].funcs.len(),
            None => 0,
        }
    }

    /// Lists the first `limit` function export names of a registered
    /// module and reports the total count, under the same capacity
    /// contract as `list_function`.
    pub fn list_function_registered(&self, mod_name: &str, limit: usize) -> (r: WasmEdgeResult<
        (usize, Vec<String>),
    >)
        ensures
            r is Ok <==> ({
                let n = match self.module_named(mod_name@) {
                    Some(m) => m.funcs@.len(),
                    None => 0,
                };
                1 <= limit <= n
            }),
            r matches Ok(out) ==> ({
                let m = self.module_named(mod_name@)->Some_0;
                &&& out.0 == m.funcs@.len()
                &&& out.1@.len() == limit
                &&& forall|i: int| 0 <= i < limit ==> out.1@[i]@ == m.funcs@[i].name@
            }),
            r matches Err(e) ==> e.code == CODE_USAGE_ERROR,
    {
        match self.find_module_index(mod_name) {
            Some(i) => {
                if 0 < limit && limit <= self.modules[i].funcs.len() {
                    Ok((self.modules[i].funcs.len(), func_names_prefix(&self.modules[i].funcs, limit)))
                } else {
                    Err(buffer_length_error())
                }
            },
            None => Err(buffer_length_error()),
        }
    }

    /// The number of anonymous table exports.
    pub fn list_table_len(&self) -> (r: usize)
        ensures
            r == self.tables_spec().len(),
    {
        self.tables.len()
    }

    /// Lists the first `limit` anonymous table export names and reports
    /// the total count, under the capacity contract of `list_function`.
    pub fn list_table(&self, limit: usize) -> (r: WasmEdgeResult<(usize, Vec<String>)>)
        ensures
            r is Ok <==> 1 <= limit <= self.tables_spec().len(),
            r matches Ok(out) ==> out.0 == self.tables_spec().len() && out.1@.len() == limit
                && (forall|i: int|
                0 <= i < limit ==> out.1@[i]@ == self.tables_spec()[i].name@),
            r matches Err(e) ==> e.code == CODE_USAGE_ERROR,
    {
        if 0 < limit && limit <= self.tables.len() {
            Ok((self.tables.len(), table_names_prefix(&self.tables, limit)))
        } else {
            Err(buffer_length_error())
        }
    }

    /// The number of table exports of a registered module.
    pub fn list_table_registered_len(&self, mod_name: &str) -> (r: usize)
        ensures
            r == (match self.module_named(mod_name@) {
                Some(m) => m.tables@.len(),
                None => 0,
            }),
    {
        match self.find_module_index(mod_name) {
            Some(i) => self.modules[i].tables.len(),
            None => 0,
        }
    }

    /// Lists the first `limit` table export names of a registered module.
    pub fn list_table_registered(&self, mod_name: &str, limit: usize) -> (r: WasmEdgeResult<
        (usize, Vec<String>),
    >)
        ensures
            r is Ok <==> ({
                let n = match self.module_named(mod_name@) {
                    Some(m) => m.tables@.len(),
                    None => 0,
                };
                1 <= limit <= n
            }),
            r matches Ok(out) ==> ({
                let m = self.module_named(mod_name@)->Some_0;
                &&& out.0 == m.tables@.len()
                &&& out.1@.len() == limit
                &&& forall|i: int| 0 <= i < limit ==> out.1@[i]@ == m.tables@[i].name@
            }),
            r matches Err(e) ==> e.code == CODE_USAGE_ERROR,
    {
        match self.find_module_index(mod_name) {
            Some(i) => {
                if 0 < limit && limit <= self.modules[i].tables.len() {
                    Ok((self.modules[i].tables.len(), table_names_prefix(&self.modules[i].tables, limit)))
                } else {
                    Err(buffer_length_error())
                }
            },
            None => Err(buffer_length_error()),
        }
    }

    /// The number of anonymous memory exports.
    pub fn list_memory_len(&self) -> (r: usize)
        ensures
            r == self.memories_spec().len(),
    {
        self.memories.len()
    }

    /// Lists the first `limit` anonymous memory export names and reports
    /// the total count, under the capacity contract of `list_function`.
    pub fn list_memory(&self, limit: usize) -> (r: WasmEdgeResult<(usize, Vec<String>)>)
        ensures
            r is Ok <==> 1 <= limit <= self.memories_spec().len(),
            r matches Ok(out) ==> out.0 == self.memories_spec().len() && out.1@.len() == limit
                && (forall|i: int|
                0 <= i < limit ==> out.1@[i]@ == self.memories_spec()[i].name@),
            r matches Err(e) ==> e.code == CODE_USAGE_ERROR,
    {
        if 0 < limit && limit <= self.memories.len() {
            Ok((self.memories.len(), memory_names_prefix(&self.memories, limit)))
        } else {
            Err(buffer_length_error())
        }
    }

    /// The number of memory exports of a registered module.
    pub fn list_memory_registered_len(&self, mod_name: &str) -> (r: usize)
        ensures
            r == (match self.module_named(mod_name@) {
                Some(m) => m.memories@.len(),
                None => 0,
            }),
    {
        match self.find_module_index(mod_name) {
            Some(i) => self.modules[i].memories.len(),
            None => 0,
        }
    }

    /// Lists the first `limit` memory export names of a registered module.
    pub fn list_memory_registered(&self, mod_name: &str, limit: usize) -> (r: WasmEdgeResult<
        (usize, Vec<String>),
    >)
        ensures
            r is Ok <==> ({
                let n = match self.module_named(mod_name@) {
                    Some(m) => m.memories@.len(),
                    None => 0,
                };
                1 <= limit <= n
            }),
            r matches Ok(out) ==> ({
                let m = self.module_named(mod_name@)->Some_0;
                &&& out.0 == m.memories@.len()
                &&& out.1@.len() == limit
                &&& forall|i: int| 0 <= i < limit ==> out.1@[i]@ == m.memories@[i].name@
            }),
            r matches Err(e) ==> e.code == CODE_USAGE_ERROR,
    {
        match self.find_module_index(mod_name) {
            Some(i) => {
                if 0 < limit && limit <= self.modules[i].memories.len() {
                    Ok((self.modules[i].memories.len(), memory_names_prefix(&self.modules[i].memories, limit)))
                } else {
                    Err(buffer_length_error())
                }
            },
            None => Err(buffer_length_error()),
        }
    }

    /// The number of anonymous global exports.
    pub fn list_global_len(&self) -> (r: usize)
        ensures
            r == self.globals_spec().len(),
    {
        self.globals.len()
    }

    /// Lists the first `limit` anonymous global export names and reports
    /// the total count, under the capacity contract of `list_function`.
    pub fn list_global(&self, limit: usize) -> (r: WasmEdgeResult<(usize, Vec<String>)>)
        ensures
            r is Ok <==> 1 <= limit <= self.globals_spec().len(),
            r matches Ok(out) ==> out.0 == self.globals_spec().len() && out.1@.len() == limit
                && (forall|i: int|
                0 <= i < limit ==> out.1@[i]@ == self.globals_spec()[i].name@),
            r matches Err(e) ==> e.code == CODE_USAGE_ERROR,
    {
        if 0 < limit && limit <= self.globals.len() {
            Ok((self.globals.len(), global_names_prefix(&self.globals, limit)))
        } else {
            Err(buffer_length_error())
        }
    }

    /// The number of global exports of a registered module.
    pub fn list_global_registered_len(&self, mod_name: &str) -> (r: usize)
        ensures
            r == (match self.module_named(mod_name@) {
                Some(m) => m.globals@.len(),
                None => 0,
            }),
    {
        match self.find_module_index(mod_name) {
            Some(i) => self.modules[i].globals.len(),
            None => 0,
        }
    }

    /// Lists the first `limit` global export names of a registered module.
    pub fn list_global_registered(&self, mod_name: &str, limit: usize) -> (r: WasmEdgeResult<
        (usize, Vec<String>),
    >)
        ensures
            r is Ok <==> ({
                let n = match self.module_named(mod_name@) {
                    Some(m) => m.globals@.len(),
                    None => 0,
                };
                1 <= limit <= n
            }),
            r matches Ok(out) ==> ({
                let m = self.module_named(mod_name@)->Some_0;
                &&& out.0 == m.globals@.len()
                &&& out.1@.len() == limit
                &&& forall|i: int| 0 <= i < limit ==> out.1@[i]@ == m.globals@[i].name@
            }),
            r matches Err(e) ==> e.code == CODE_USAGE_ERROR,
    {
        match self.find_module_index(mod_name) {
            Some(i) => {
                if 0 < limit && limit <= self.modules[i].globals.len() {
                    Ok((self.modules[i].globals.len(), global_names_prefix(&self.modules[i].globals, limit)))
                } else {
                    Err(buffer_length_error())
                }
            },
            None => Err(buffer_length_error()),
        }
    }

    /// The number of registered modules.
    pub fn list_module_len(&self) -> (r: usize)
        ensures
            r == self.modules_spec().len(),
    {
        self.modules.len()
    }

    /// Lists the first `limit` registered module names and reports the
    /// total count, under the capacity contract of `list_function`.
    pub fn list_module(&self, limit: usize) -> (r: WasmEdgeResult<(usize, Vec<String>)>)
        ensures
            r is Ok <==> 1 <= limit <= self.modules_spec().len(),
            r matches Ok(out) ==> out.0 == self.modules_spec().len() && out.1@.len() == limit
                && (forall|i: int|
                0 <= i < limit ==> out.1@[i]@ == self.modules_spec()[i].name@),
            r matches Err(e) ==> e.code == CODE_USAGE_ERROR,
    {
        if 0 < limit && limit <= self.modules.len() {
            let mut names: Vec<String> = Vec::new();
            let mut i: usize = 0;
            while i < limit
                invariant
                    i <= limit <= self.modules@.len(),
                    names@.len() == i,
                    forall|j: int| 0 <= j < i ==> names@[j]@ == self.modules@[j].name@,
                decreases limit - i,
            {
                names.push(self.modules[i].name.clone());
                i = i + 1;
            }
            Ok((self.modules.len(), names))
        } else {
            Err(buffer_length_error())
        }
    }

    /// Registers a module's exports under a name. A name already taken is
    /// a module-name conflict; a module whose memories cannot be allocated
    /// is an instantiation failure. On success the module stands last in
    /// the registry, realized from its declarations, and everything else
    /// is untouched.
    pub(crate) fn register_module_parts(&mut self, m: ModuleInst) -> (r: WasmEdgeResult<()>)
        ensures
            r is Ok <==> old(self).module_named(m.name@) is None,
            r is Ok ==> final(self).modules_spec() == old(self).modules_spec().push(m),
            r is Err ==> final(self).modules_spec() == old(self).modules_spec(),
            r matches Err(e) ==> e.code == crate::error::CODE_MODULE_NAME_CONFLICT,
            final(self).funcs_spec() == old(self).funcs_spec(),
            final(self).tables_spec() == old(self).tables_spec(),
            final(self).memories_spec() == old(self).memories_spec(),
            final(self).globals_spec() == old(self).globals_spec(),
    {
        if self.find_module_index(m.name.as_str()).is_some() {
            return Err(WasmEdgeError::from_code(crate::error::CODE_MODULE_NAME_CONFLICT));
        }
        self.modules.push(m);
        Ok(())
    }

    /// Builds a registry-owned module from declared exports; an infeasible
    /// memory yields nothing.
    pub(crate) fn build_module(name: String, content: &ModuleContent) -> (r: Option<ModuleInst>)
        ensures
            r is Some <==> memories_feasible(content@.memories),
            r matches Some(m) ==> {
                &&& m.name@ == name@
                &&& view_funcs(m.funcs@) == content@.funcs
                &&& tables_built(m.tables@, content@.tables)
                &&& memories_built(m.memories@, content@.memories)
                &&& globals_built(m.globals@, content@.globals)
            },
    {
        let memories = match build_memories(&content.memories) {
            Some(ms) => ms,
            None => {
                return None;
            },
        };
        Some(
            ModuleInst {
                name,
                funcs: copy_funcs(&content.funcs),
                tables: build_tables(&content.tables),
                memories,
                globals: build_globals(&content.globals),
            },
        )
    }

    /// Replaces the anonymous exports with a module's, realized from its
    /// declarations; an infeasible memory is an instantiation failure that
    /// leaves the registry untouched.
    pub(crate) fn instantiate_anonymous(&mut self, content: &ModuleContent) -> (r: WasmEdgeResult<
        ()
    >)
        ensures
            r is Ok <==> memories_feasible(content@.memories),
            r is Ok ==> {
                &&& view_funcs(final(self).funcs_spec()) == content@.funcs
                &&& tables_built(final(self).tables_spec(), content@.tables)
                &&& memories_built(final(self).memories_spec(), content@.memories)
                &&& globals_built(final(self).globals_spec(), content@.globals)
            },
            r is Err ==> {
                &&& final(self).funcs_spec() == old(self).funcs_spec()
                &&& final(self).tables_spec() == old(self).tables_spec()
                &&& final(self).memories_spec() == old(self).memories_spec()
                &&& final(self).globals_spec() == old(self).globals_spec()
            },
            r matches Err(e) ==> e.code == CODE_FAILED,
            final(self).modules_spec() == old(self).modules_spec(),
    {
        let memories = match build_memories(&content.memories) {
            Some(ms) => ms,
            None => {
                proof { reveal_strlit("instantiation failed: cannot allocate memory"); }
                return Err(WasmEdgeError::with_message(
                    CODE_FAILED,
                    "instantiation failed: cannot allocate memory".to_owned(),
                ));
            },
        };
        self.funcs = copy_funcs(&content.funcs);
        self.tables = build_tables(&content.tables);
        self.memories = memories;
        self.globals = build_globals(&content.globals);
        Ok(())
    }

    /// Releases the anonymous exports; registered modules stay.
    pub(crate) fn clear_anonymous(&mut self)
        ensures
            final(self).funcs_spec() == Seq::<FuncDecl>::empty(),
            final(self).tables_spec() == Seq::<TableInst>::empty(),
            final(self).memories_spec() == Seq::<MemoryInst>::empty(),
            final(self).globals_spec() == Seq::<GlobalInst>::empty(),
            final(self).modules_spec() == old(self).modules_spec(),
    {
        self.funcs = Vec::new();
        self.tables = Vec::new();
        self.memories = Vec::new();
        self.globals = Vec::new();
    }

    /// Releases everything: anonymous exports and registered modules.
    pub(crate) fn reset(&mut self)
        ensures
            final(self).funcs_spec() == Seq::<FuncDecl>::empty(),
            final(self).tables_spec() == Seq::<TableInst>::empty(),
            final(self).memories_spec() == Seq::<MemoryInst>::empty(),
            final(self).globals_spec() == Seq::<GlobalInst>::empty(),
            final(self).modules_spec() == Seq::<ModuleInst>::empty(),
    {
        self.funcs = Vec::new();
        self.tables = Vec::new();
        self.memories = Vec::new();
        self.globals = Vec::new();
        self.modules = Vec::new();
    }
}

/// The usage error every under- or over-sized listing buffer earns.
fn buffer_length_error() -> (r: WasmEdgeError)
    ensures
        r.code == CODE_USAGE_ERROR,
        r.message@.len() > 0,
{
    proof { reveal_strlit("the buffer length should be between 1 and the number of entries"); }
    WasmEdgeError::with_message(
        CODE_USAGE_ERROR,
        "the buffer length should be between 1 and the number of entries".to_owned(),
    )
}

/// Resolves a function export by name among the given exports.
fn find_function_in(funcs: &Vec<FuncDecl>, func_name: &str) -> (r: Option<
    FunctionInstanceContext,
>)
    ensures
        r is Some <==> find_first(funcs@, |f: FuncDecl| f.name@ == func_name@) is Some,
        r matches Some(fi) ==> ({
            let d = find_first(funcs@, |f: FuncDecl| f.name@ == func_name@)->Some_0;
            &&& fi.ty_spec().params_spec() == d.params@
            &&& fi.ty_spec().returns_spec() == d.results@
            &&& fi.func_id_spec() == d.func_id
            &&& fi.cost_spec() == d.cost
        }),
{
    let ghost p = |f: FuncDecl| f.name@ == func_name@;
    let mut i: usize = 0;
    while i < funcs.len()
        invariant
            i <= funcs@.len(),
            forall|j: int| 0 <= j < i ==> !p(funcs@[j]),
            p == (|f: FuncDecl| f.name@ == func_name@),
        decreases funcs@.len() - i,
    {
        if str_eq(func_name, funcs[i].name.as_str()) {
            proof {
                lemma_find_first_hit(funcs@, p, i as int);
            }
            let d = &funcs[i];
            let ty = match FunctionTypeContext::create(
                Some(d.params.as_slice()),
                Some(d.results.as_slice()),
            ) {
                Some(t) => t,
                None => {
                    proof {
                        assert(false);
                    }
                    unreached()
                },
            };
            return Some(FunctionInstanceContext::from_parts(ty, d.func_id, d.cost));
        }
        i = i + 1;
    }
    proof {
        lemma_find_first_miss(funcs@, p);
    }
    None
}

/// Resolves a table export by name among the given exports.
fn find_table_in<'a>(tables: &'a Vec<TableInst>, name: &str) -> (r: Option<
    &'a TableInstanceContext,
>)
    ensures
        r is Some <==> find_first(tables@, |t: TableInst| t.name@ == name@) is Some,
        r matches Some(t) ==> *t == find_first(tables@, |t: TableInst| t.name@ == name@)
            ->Some_0.table,
{
    let ghost p = |t: TableInst| t.name@ == name@;
    let mut i: usize = 0;
    while i < tables.len()
        invariant
            i <= tables@.len(),
            forall|j: int| 0 <= j < i ==> !p(tables@[j]),
            p == (|t: TableInst| t.name@ == name@),
        decreases tables@.len() - i,
    {
        if str_eq(name, tables[i].name.as_str()) {
            proof {
                lemma_find_first_hit(tables@, p, i as int);
            }
            return Some(&tables[i].table);
        }
        i = i + 1;
    }
    proof {
        lemma_find_first_miss(tables@, p);
    }
    None
}

/// Resolves a memory export by name among the given exports.
fn find_memory_in<'a>(memories: &'a Vec<MemoryInst>, name: &str) -> (r: Option<
    &'a MemoryInstanceContext,
>)
    ensures
        r is Some <==> find_first(memories@, |m: MemoryInst| m.name@ == name@) is Some,
        r matches Some(m) ==> *m == find_first(memories@, |m: MemoryInst| m.name@ == name@)
            ->Some_0.memory,
{
    let ghost p = |m: MemoryInst| m.name@ == name@;
    let mut i: usize = 0;
    while i < memories.len()
        invariant
            i <= memories@.len(),
            forall|j: int| 0 <= j < i ==> !p(memories@[j]),
            p == (|m: MemoryInst| m.name@ == name@),
        decreases memories@.len() - i,
    {
        if str_eq(name, memories[i].name.as_str()) {
            proof {
                lemma_find_first_hit(memories@, p, i as int);
            }
            return Some(&memories[i].memory);
        }
        i = i + 1;
    }
    proof {
        lemma_find_first_miss(memories@, p);
    }
    None
}

/// Resolves a global export by name among the given exports.
fn find_global_in<'a>(globals: &'a Vec<GlobalInst>, name: &str) -> (r: Option<
    &'a GlobalInstanceContext,
>)
    ensures
        r is Some <==> find_first(globals@, |g: GlobalInst| g.name@ == name@) is Some,
        r matches Some(g) ==> *g == find_first(globals@, |g: GlobalInst| g.name@ == name@)
            ->Some_0.global,
{
    let ghost p = |g: GlobalInst| g.name@ == name@;
    let mut i: usize = 0;
    while i < globals.len()
        invariant
            i <= globals@.len(),
            forall|j: int| 0 <= j < i ==> !p(globals@[j]),
            p == (|g: GlobalInst| g.name@ == name@),
        decreases globals@.len() - i,
    {
        if str_eq(name, globals[i].name.as_str()) {
            proof {
                lemma_find_first_hit(globals@, p, i as int);
            }
            return Some(&globals[i].global);
        }
        i = i + 1;
    }
    proof {
        lemma_find_first_miss(globals@, p);
    }
    None
}

/// Copies the first `limit` export names of a run of function exports.
fn func_names_prefix(funcs: &Vec<FuncDecl>, limit: usize) -> (r: Vec<String>)
    requires
        limit <= funcs@.len(),
    ensures
        r@.len() == limit,
        forall|i: int| 0 <= i < limit ==> r@[i]@ == funcs@[i].name@,
{
    let mut names: Vec<String> = Vec::new();
    let mut i: usize = 0;
    while i < limit
        invariant
            i <= limit <= funcs@.len(),
            names@.len() == i,
            forall|j: int| 0 <= j < i ==> names@[j]@ == funcs@[j].name@,
        decreases limit - i,
    {
        names.push(funcs[i].name.clone());
        i = i + 1;
    }
    names
}

/// Copies the first `limit` export names of a run of table exports.
fn table_names_prefix(tables: &Vec<TableInst>, limit: usize) -> (r: Vec<String>)
    requires
        limit <= tables@.len(),
    ensures
        r@.len() == limit,
        forall|i: int| 0 <= i < limit ==> r@[i]@ == tables@[i].name@,
{
    let mut names: Vec<String> = Vec::new();
    let mut i: usize = 0;
    while i < limit
        invariant
            i <= limit <= tables@.len(),
            names@.len() == i,
            forall|j: int| 0 <= j < i ==> names@[j]@ == tables@[j].name@,
        decreases limit - i,
    {
        names.push(tables[i].name.clone());
        i = i + 1;
    }
    names
}

/// Copies the first `limit` export names of a run of memory exports.
fn memory_names_prefix(memories: &Vec<MemoryInst>, limit: usize) -> (r: Vec<String>)
    requires
        limit <= memories@.len(),
    ensures
        r@.len() == limit,
        forall|i: int| 0 <= i < limit ==> r@[i]@ == memories@[i].name@,
{
    let mut names: Vec<String> = Vec::new();
    let mut i: usize = 0;
    while i < limit
        invariant
            i <= limit <= memories@.len(),
            names@.len() == i,
            forall|j: int| 0 <= j < i ==> names@[j]@ == memories@[j].name@,
        decreases limit - i,
    {
        names.push(memories[i].name.clone());
        i = i + 1;
    }
    names
}

/// Copies the first `limit` export names of a run of global exports.
fn global_names_prefix(globals: &Vec<GlobalInst>, limit: usize) -> (r: Vec<String>)
    requires
        limit <= globals@.len(),
    ensures
        r@.len() == limit,
        forall|i: int| 0 <= i < limit ==> r@[i]@ == globals@[i].name@,
{
    let mut names: Vec<String> = Vec::new();
    let mut i: usize = 0;
    while i < limit
        invariant
            i <= limit <= globals@.len(),
            names@.len() == i,
            forall|j: int| 0 <= j < i ==> names@[j]@ == globals@[j].name@,
        decreases limit - i,
    {
        names.push(globals[i].name.clone());
        i = i + 1;
    }
    names
}

} // verus!
