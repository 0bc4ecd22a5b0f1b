//! The module graph: the exports a parsed module declares, and the opaque
//! handle that carries them from the loader to validation and instantiation.
//!
//! Parsing itself is the engine's work; the management layer sees a parsed
//! module only through the exports it declares. The default handle denotes
//! "not yet parsed" and must never be instantiated.

use vstd::prelude::*;
use crate::types::{WasmEdgeLimit, WasmEdgeMutability, WasmEdgeRefType, WasmEdgeValType};
use crate::value::WasmEdgeValue;

verus! {

broadcast use vstd::seq_lib::group_seq_properties, vstd::prelude::Seq::lemma_take_succ_push;

/// An exported function: its name, its signature, the key the runtime
/// dispatches on, and its execution cost.
pub struct FuncDecl {
    /// The export name, matched byte-exact at lookup.
    pub name: String,
    /// The parameter types of the function.
    pub params: Vec<WasmEdgeValType>,
    /// The return types of the function.
    pub results: Vec<WasmEdgeValType>,
    /// The key under which the runtime dispatches the function's body.
    pub func_id: u64,
    /// The cost charged against the statistics when the function runs.
    pub cost: u64,
}

/// The mathematical value of a function export.
pub struct FuncDeclView {
    pub name: Seq<char>,
    pub params: Seq<WasmEdgeValType>,
    pub results: Seq<WasmEdgeValType>,
    pub func_id: u64,
    pub cost: u64,
}

impl View for FuncDecl {
    type V = FuncDeclView;

    open spec fn view(&self) -> FuncDeclView {
        FuncDeclView {
            name: self.name@,
            params: self.params@,
            results: self.results@,
            func_id: self.func_id,
            cost: self.cost,
        }
    }
}

/// An exported table: its name, reference type and limit.
pub struct TableDecl {
    /// The export name.
    pub name: String,
    /// The reference type the table holds.
    pub ref_type: WasmEdgeRefType,
    /// The size limit the table is created with.
    pub limit: WasmEdgeLimit,
}

/// The mathematical value of a table export.
pub struct TableDeclView {
    pub name: Seq<char>,
    pub ref_type: WasmEdgeRefType,
    pub limit: WasmEdgeLimit,
}

impl View for TableDecl {
    type V = TableDeclView;

    open spec fn view(&self) -> TableDeclView {
        TableDeclView { name: self.name@, ref_type: self.ref_type, limit: self.limit }
    }
}

/// An exported memory: its name and limit.
pub struct MemoryDecl {
    /// The export name.
    pub name: String,
    /// The page limit the memory is created with.
    pub limit: WasmEdgeLimit,
}

/// The mathematical value of a memory export.
pub struct MemoryDeclView {
    pub name: Seq<char>,
    pub limit: WasmEdgeLimit,
}

impl View for MemoryDecl {
    type V = MemoryDeclView;

    open spec fn view(&self) -> MemoryDeclView {
        MemoryDeclView { name: self.name@, limit: self.limit }
    }
}

/// An exported global: its name, initial value and mutability.
pub struct GlobalDecl {
    /// The export name.
    pub name: String,
    /// The initial value of the global.
    pub value: WasmEdgeValue,
    /// Whether the global may be written.
    pub mutability: WasmEdgeMutability,
}

/// The mathematical value of a global export.
pub struct GlobalDeclView {
    pub name: Seq<char>,
    pub value: WasmEdgeValue,
    pub mutability: WasmEdgeMutability,
}

impl View for GlobalDecl {
    type V = GlobalDeclView;

    open spec fn view(&self) -> GlobalDeclView {
        GlobalDeclView { name: self.name@, value: self.value, mutability: self.mutability }
    }
}

/// Everything a parsed module exports.
pub struct ModuleContent {
    /// The exported functions.
    pub funcs: Vec<FuncDecl>,
    /// The exported tables.
    pub tables: Vec<TableDecl>,
    /// The exported memories.
    pub memories: Vec<MemoryDecl>,
    /// The exported globals.
    pub globals: Vec<GlobalDecl>,
}

/// The mathematical value of a module's exports.
pub struct ModuleContentView {
    pub funcs: Seq<FuncDeclView>,
    pub tables: Seq<TableDeclView>,
    pub memories: Seq<MemoryDeclView>,
    pub globals: Seq<GlobalDeclView>,
}

/// The views of a run of function exports.
pub open spec fn view_funcs(s: Seq<FuncDecl>) -> Seq<FuncDeclView> {
    s.map_values(|d: FuncDecl| d@)
}

/// The views of a run of table exports.
pub open spec fn view_tables(s: Seq<TableDecl>) -> Seq<TableDeclView> {
    s.map_values(|d: TableDecl| d@)
}

/// The views of a run of memory exports.
pub open spec fn view_memories(s: Seq<MemoryDecl>) -> Seq<MemoryDeclView> {
    s.map_values(|d: MemoryDecl| d@)
}

/// The views of a run of global exports.
pub open spec fn view_globals(s: Seq<GlobalDecl>) -> Seq<GlobalDeclView> {
    s.map_values(|d: GlobalDecl| d@)
}

impl View for ModuleContent {
    type V = ModuleContentView;

    open spec fn view(&self) -> ModuleContentView {
        ModuleContentView {
            funcs: view_funcs(self.funcs@),
            tables: view_tables(self.tables@),
            memories: view_memories(self.memories@),
            globals: view_globals(self.globals@),
        }
    }
}

/// Copies a vector of value-type tags.
pub(crate) fn copy_val_types(src: &Vec<WasmEdgeValType>) -> (r: Vec<WasmEdgeValType>)
    ensures
        r@ == src@,
{
    let mut out: Vec<WasmEdgeValType> = Vec::new();
    let mut i: usize = 0;
    while i < src.len()
        invariant
            i <= src@.len(),
            out@ == src@.take(i as int),
        decreases src@.len() - i,
    {
        out.push(src[i]);
        i = i + 1;
    }
    proof {
        assert(src@.take(src@.len() as int) == src@);
    }
    out
}

impl FuncDecl {
    /// Copies the export.
    pub fn duplicate(&self) -> (r: FuncDecl)
        ensures
            r@ == self@,
    {
        FuncDecl {
            name: self.name.clone(),
            params: copy_val_types(&self.params),
            results: copy_val_types(&self.results),
            func_id: self.func_id,
            cost: self.cost,
        }
    }
}

impl TableDecl {
    /// Copies the export.
    pub fn duplicate(&self) -> (r: TableDecl)
        ensures
            r@ == self@,
    {
        TableDecl { name: self.name.clone(), ref_type: self.ref_type, limit: self.limit }
    }
}

impl MemoryDecl {
    /// Copies the export.
    pub fn duplicate(&self) -> (r: MemoryDecl)
        ensures
            r@ == self@,
    {
        MemoryDecl { name: self.name.clone(), limit: self.limit }
    }
}

impl GlobalDecl {
    /// Copies the export.
    pub fn duplicate(&self) -> (r: GlobalDecl)
        ensures
            r@ == self@,
    {
        GlobalDecl { name: self.name.clone(), value: self.value, mutability: self.mutability }
    }
}

/// Copies a vector of function exports.
pub(crate) fn copy_funcs(src: &Vec<FuncDecl>) -> (r: Vec<FuncDecl>)
    ensures
        view_funcs(r@) == view_funcs(src@),
        r@.len() == src@.len(),
{
    let mut out: Vec<FuncDecl> = Vec::new();
    let mut i: usize = 0;
    while i < src.len()
        invariant
            i <= src@.len(),
            out@.len() == i,
            forall|j: int| 0 <= j < i ==> out@[j]@ == src@[j]@,
        decreases src@.len() - i,
    {
        out.push(src[i].duplicate());
        i = i + 1;
    }
    proof {
        assert(view_funcs(out@) =~= view_funcs(src@));
    }
    out
}

/// Copies a vector of table exports.
pub(crate) fn copy_tables(src: &Vec<TableDecl>) -> (r: Vec<TableDecl>)
    ensures
        view_tables(r@) == view_tables(src@),
        r@.len() == src@.len(),
{
    let mut out: Vec<TableDecl> = Vec::new();
    let mut i: usize = 0;
    while i < src.len()
        invariant
            i <= src@.len(),
            out@.len() == i,
            forall|j: int| 0 <= j < i ==> out@[j]@ == src@[j]@,
        decreases src@.len() - i,
    {
        out.push(src[i].duplicate());
        i = i + 1;
    }
    proof {
        assert(view_tables(out@) =~= view_tables(src@));
    }
    out
}

/// Copies a vector of memory exports.
pub(crate) fn copy_memories(src: &Vec<MemoryDecl>) -> (r: Vec<MemoryDecl>)
    ensures
        view_memories(r@) == view_memories(src@),
        r@.len() == src@.len(),
{
    let mut out: Vec<MemoryDecl> = Vec::new();
    let mut i: usize = 0;
    while i < src.len()
        invariant
            i <= src@.len(),
            out@.len() == i,
            forall|j: int| 0 <= j < i ==> out@[j]@ == src@[j]@,
        decreases src@.len() - i,
    {
        out.push(src[i].duplicate());
        i = i + 1;
    }
    proof {
        assert(view_memories(out@) =~= view_memories(src@));
    }
    out
}

/// Copies a vector of global exports.
pub(crate) fn copy_globals(src: &Vec<GlobalDecl>) -> (r: Vec<GlobalDecl>)
    ensures
        view_globals(r@) == view_globals(src@),
        r@.len() == src@.len(),
{
    let mut out: Vec<GlobalDecl> = Vec::new();
    let mut i: usize = 0;
    while i < src.len()
        invariant
            i <= src@.len(),
            out@.len() == i,
            forall|j: int| 0 <= j < i ==> out@[j]@ == src@[j]@,
        decreases src@.len() - i,
    {
        out.push(src[i].duplicate());
        i = i + 1;
    }
    proof {
        assert(view_globals(out@) =~= view_globals(src@));
    }
    out
}

impl ModuleContent {
    /// Copies the exports.
    pub fn duplicate(&self) -> (r: ModuleContent)
        ensures
            r@ == self@,
    {
        ModuleContent {
            funcs: copy_funcs(&self.funcs),
            tables: copy_tables(&self.tables),
            memories: copy_memories(&self.memories),
            globals: copy_globals(&self.globals),
        }
    }
}

/// An opaque handle to a parsed, not-yet-validated module. The default
/// value denotes "not yet parsed".
pub struct ASTModuleContext {
    content: Option<ModuleContent>,
}

impl ASTModuleContext {
    /// The exports the module declares, as stored.
    pub closed spec fn content_spec(&self) -> Option<ModuleContent> {
        self.content
    }

    /// The exports the module declares, or nothing before parsing.
    pub closed spec fn content_view(&self) -> Option<ModuleContentView> {
        match self.content {
            Some(ref c) => Some(c@),
            None => None,
        }
    }

    /// Whether a parse has filled the handle.
    pub open spec fn is_parsed(&self) -> bool {
        self.content_view() is Some
    }

    /// Builds a parsed handle over the exports a parse produced.
    pub fn from_content(content: ModuleContent) -> (r: ASTModuleContext)
        ensures
            r.content_view() == Some(content@),
    {
        ASTModuleContext { content: Some(content) }
    }

    /// Reports whether a parse has filled the handle.
    pub fn parsed(&self) -> (r: bool)
        ensures
            r == self.is_parsed(),
    {
        self.content.is_some()
    }

    /// The exports of a parsed handle.
    pub(crate) fn content(&self) -> (r: Option<&ModuleContent>)
        ensures
            r is Some <==> self.is_parsed(),
            r matches Some(c) ==> Some(*c) == self.content_spec() && Some(c@)
                == self.content_view(),
    {
        match self.content {
            Some(ref c) => Some(c),
            None => None,
        }
    }
}

impl Default for ASTModuleContext {
    /// The empty handle: not yet parsed.
    fn default() -> (r: ASTModuleContext)
        ensures
            r.content_view() is None,
    {
        ASTModuleContext { content: None }
    }
}

} // verus!
