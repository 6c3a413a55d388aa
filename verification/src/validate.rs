use vstd::prelude::*;
use crate::types::{
    ValType, FuncType, Import, ImportDesc, Limits, TableType, GlobalType, Global, ConstExpr, Elem, Export, ExternKind,
    Code, ModuleInfo, ModuleSpec, empty_module,
};
use crate::leb128::{spec_u32, read_u32};
use crate::typecheck::{BodyEnv, Env, Sig, sigs_view, spec_body_valid, check_body, copy_types};
use crate::reader::{Item, spec_vec, read_vec, U32Item};
use crate::items::{ElemItem, ExportItem, FuncTypeItem, CodeItem, LocalsItem, valtypes_at, valtypes_from};
use crate::decode::ranges_within;

verus! {

/// The type indices of the imported functions, in order.
pub open spec fn imported_func_types(imps: Seq<Import>) -> Seq<u32>
    decreases imps.len(),
{
    if imps.len() == 0 {
        Seq::empty()
    } else {
        let prev = imported_func_types(imps.drop_last());
        match imps.last().desc {
            ImportDesc::Function(t) => prev.push(t),
            _ => prev,
        }
    }
}

/// The types of the imported tables, in order.
pub open spec fn imported_tables(imps: Seq<Import>) -> Seq<TableType>
    decreases imps.len(),
{
    if imps.len() == 0 {
        Seq::empty()
    } else {
        let prev = imported_tables(imps.drop_last());
        match imps.last().desc {
            ImportDesc::Table(t) => prev.push(t),
            _ => prev,
        }
    }
}

/// The limits of the imported memories, in order.
pub open spec fn imported_memories(imps: Seq<Import>) -> Seq<Limits>
    decreases imps.len(),
{
    if imps.len() == 0 {
        Seq::empty()
    } else {
        let prev = imported_memories(imps.drop_last());
        match imps.last().desc {
            ImportDesc::Memory(l) => prev.push(l),
            _ => prev,
        }
    }
}

/// The types of the imported globals, in order.
pub open spec fn imported_global_types(imps: Seq<Import>) -> Seq<GlobalType>
    decreases imps.len(),
{
    if imps.len() == 0 {
        Seq::empty()
    } else {
        let prev = imported_global_types(imps.drop_last());
        match imps.last().desc {
            ImportDesc::Global(g) => prev.push(g),
            _ => prev,
        }
    }
}

/// The index spaces of a module: imported items come first, then the
/// module's own, each function given by its type index.
pub struct Spaces {
    pub funcs: Vec<u32>,
    pub tables: Vec<TableType>,
    pub memories: Vec<Limits>,
    pub globals: Vec<GlobalType>,
    pub imported_globals: usize,
}

/// The type indices of all functions of a module.
pub open spec fn func_space(imps: Seq<Import>, funcs: Seq<u32>) -> Seq<u32> {
    imported_func_types(imps) + funcs
}

/// The types of all tables of a module.
pub open spec fn table_space(imps: Seq<Import>, tables: Seq<TableType>) -> Seq<TableType> {
    imported_tables(imps) + tables
}

/// The limits of all memories of a module.
pub open spec fn memory_space(imps: Seq<Import>, memories: Seq<Limits>) -> Seq<Limits> {
    imported_memories(imps) + memories
}

/// The types of all globals of a module.
pub open spec fn global_space(imps: Seq<Import>, globals: Seq<Global>) -> Seq<GlobalType> {
    imported_global_types(imps) + globals.map_values(|g: Global| g.ty)
}

/// Computes the index spaces of a module.
pub fn spaces(info: &ModuleInfo) -> (r: Spaces)
    ensures
        r.funcs@ == func_space(info@.imports, info@.funcs),
        r.tables@ == table_space(info@.imports, info@.tables),
        r.memories@ == memory_space(info@.imports, info@.memories),
        r.globals@ == global_space(info@.imports, info@.globals),
        r.imported_globals == imported_global_types(info@.imports).len(),
{
    let mut funcs: Vec<u32> = Vec::new();
    let mut tables: Vec<TableType> = Vec::new();
    let mut memories: Vec<Limits> = Vec::new();
    let mut globals: Vec<GlobalType> = Vec::new();
    let mut i: usize = 0;
    while i < info.imports.len()
        invariant
            i <= info.imports@.len(),
            funcs@ == imported_func_types(info.imports@.take(i as int)),
            tables@ == imported_tables(info.imports@.take(i as int)),
            memories@ == imported_memories(info.imports@.take(i as int)),
            globals@ == imported_global_types(info.imports@.take(i as int)),
            globals@.len() <= i,
        decreases info.imports@.len() - i,
    {
        proof {
            assert(info.imports@.take(i + 1).drop_last() =~= info.imports@.take(i as int));
            assert(info.imports@.take(i + 1).last() == info.imports@[i as int]);
        }
        match info.imports[i].desc {
            ImportDesc::Function(t) => funcs.push(t),
            ImportDesc::Table(t) => tables.push(t),
            ImportDesc::Memory(l) => memories.push(l),
            ImportDesc::Global(g) => globals.push(g),
        }
        i = i + 1;
    }
    proof {
        assert(info.imports@.take(i as int) =~= info.imports@);
    }
    let imported_globals = globals.len();
    let mut k: usize = 0;
    let ghost f0 = funcs@;
    while k < info.funcs.len()
        invariant
            k <= info.funcs@.len(),
            funcs@ == f0 + info.funcs@.take(k as int),
        decreases info.funcs@.len() - k,
    {
        funcs.push(info.funcs[k]);
        k = k + 1;
        proof {
            assert(f0 + info.funcs@.take(k as int) =~= (f0 + info.funcs@.take(k - 1)).push(info.funcs@[k - 1]));
        }
    }
    let mut k: usize = 0;
    let ghost t0 = tables@;
    while k < info.tables.len()
        invariant
            k <= info.tables@.len(),
            tables@ == t0 + info.tables@.take(k as int),
        decreases info.tables@.len() - k,
    {
        tables.push(info.tables[k]);
        k = k + 1;
        proof {
            assert(t0 + info.tables@.take(k as int) =~= (t0 + info.tables@.take(k - 1)).push(info.tables@[k - 1]));
        }
    }
    let mut k: usize = 0;
    let ghost m0 = memories@;
    while k < info.memories.len()
        invariant
            k <= info.memories@.len(),
            memories@ == m0 + info.memories@.take(k as int),
        decreases info.memories@.len() - k,
    {
        memories.push(info.memories[k]);
        k = k + 1;
        proof {
            assert(m0 + info.memories@.take(k as int) =~= (m0 + info.memories@.take(k - 1)).push(info.memories@[k - 1]));
        }
    }
    let mut k: usize = 0;
    let ghost g0 = globals@;
    while k < info.globals.len()
        invariant
            k <= info.globals@.len(),
            globals@ == g0 + info.globals@.take(k as int).map_values(|g: Global| g.ty),
        decreases info.globals@.len() - k,
    {
        globals.push(info.globals[k].ty);
        k = k + 1;
        proof {
            assert(g0 + info.globals@.take(k as int).map_values(|g: Global| g.ty)
                =~= (g0 + info.globals@.take(k - 1).map_values(|g: Global| g.ty)).push(info.globals@[k - 1].ty));
        }
    }
    proof {
        assert(info.funcs@.take(info.funcs@.len() as int) =~= info.funcs@);
        assert(info.tables@.take(info.tables@.len() as int) =~= info.tables@);
        assert(info.memories@.take(info.memories@.len() as int) =~= info.memories@);
        assert(info.globals@.take(info.globals@.len() as int) =~= info.globals@);
    }
    Spaces { funcs, tables, memories, globals, imported_globals }
}

} // verus!

verus! {

/// Why a well-formed module is not valid.
#[derive(Debug, Clone, Copy, PartialEq, Eq, Structural)]
pub enum ValidationError {
    /// A function or function import names a type that the module lacks.
    UnknownType,
    /// The module has more than one table.
    MultipleTables,
    /// The module has more than one memory.
    MultipleMemories,
    /// A table or memory whose maximum is below its minimum.
    InvalidLimits,
    /// A memory whose minimum or maximum is above 65536 pages.
    MemoryTooLarge,
    /// An export, the start function or an element segment names a function that the module lacks.
    UnknownFunction,
    /// An export or an element segment names a table that the module lacks.
    UnknownTable,
    /// An export or a data segment names a memory that the module lacks.
    UnknownMemory,
    /// An export names a global that the module lacks, or a constant reads a global that is not an immutable import.
    UnknownGlobal,
    /// A global's initializer is not of its type, or a segment's offset is not an `i32`.
    TypeMismatch,
    /// The start function takes parameters or returns results.
    InvalidStartFunction,
    /// Two exports have the same name.
    DuplicateExportName,
    /// A function body does not type-check.
    InvalidFunctionBody,
}

/// The function indices of an element segment.
pub open spec fn elem_funcs(s: Seq<u8>, e: Elem) -> Seq<u32> {
    match spec_vec::<U32Item>(s, e.funcs_start, s.len() as usize, e.funcs_count as nat) {
        Ok((fs, _)) => fs,
        Err(_) => Seq::empty(),
    }
}

/// The type of a constant, given the types of the imported globals; none
/// when it reads a global that is not an immutable import.
pub open spec fn const_type(c: ConstExpr, imported: Seq<GlobalType>) -> Option<ValType> {
    match c {
        ConstExpr::I32(_) => Some(ValType::I32),
        ConstExpr::I64(_) => Some(ValType::I64),
        ConstExpr::F32(_) => Some(ValType::F32),
        ConstExpr::F64(_) => Some(ValType::F64),
        ConstExpr::GlobalGet(j) => if j < imported.len() && !imported[j as int].mutable {
            Some(imported[j as int].content)
        } else {
            None
        },
    }
}

/// A maximum, when there is one, is at least the minimum.
pub open spec fn limits_valid(l: Limits) -> bool {
    l.max matches Some(x) ==> l.min <= x
}

/// A memory's minimum and maximum are at most 65536 pages.
pub open spec fn memory_fits(l: Limits) -> bool {
    l.min <= 65536 && (l.max matches Some(x) ==> x <= 65536)
}

/// Every function has a type of the module.
pub open spec fn types_known(m: ModuleSpec) -> bool {
    forall|i: int| 0 <= i < func_space(m.imports, m.funcs).len()
        ==> #[trigger] func_space(m.imports, m.funcs)[i] < m.types.len()
}

/// Every table and memory has valid limits.
pub open spec fn all_limits_valid(m: ModuleSpec) -> bool {
    &&& forall|i: int| 0 <= i < table_space(m.imports, m.tables).len()
        ==> limits_valid(#[trigger] table_space(m.imports, m.tables)[i].limits)
    &&& forall|i: int| 0 <= i < memory_space(m.imports, m.memories).len()
        ==> limits_valid(#[trigger] memory_space(m.imports, m.memories)[i])
}

/// Every memory fits in 65536 pages.
pub open spec fn memories_fit(m: ModuleSpec) -> bool {
    forall|i: int| 0 <= i < memory_space(m.imports, m.memories).len()
        ==> memory_fits(#[trigger] memory_space(m.imports, m.memories)[i])
}

/// Every export of kind `kind` names an index below `n`.
pub open spec fn exports_below(exports: Seq<Export>, kind: ExternKind, n: nat) -> bool {
    forall|i: int| 0 <= i < exports.len() && (#[trigger] exports[i]).kind == kind ==> exports[i].index < n
}

/// Every function named by an export, the start or an element segment exists.
pub open spec fn functions_known(s: Seq<u8>, m: ModuleSpec) -> bool {
    let n = func_space(m.imports, m.funcs).len();
    &&& exports_below(m.exports, ExternKind::Function, n)
    &&& (m.start matches Some(f) ==> f < n)
    &&& forall|i: int, k: int| 0 <= i < m.elems.len() && 0 <= k < elem_funcs(s, m.elems[i]).len()
        ==> #[trigger] elem_funcs(s, m.elems[i])[k] < n
}

/// Every table named by an export or an element segment exists.
pub open spec fn tables_known(m: ModuleSpec) -> bool {
    let n = table_space(m.imports, m.tables).len();
    &&& exports_below(m.exports, ExternKind::Table, n)
    &&& forall|i: int| 0 <= i < m.elems.len() ==> (#[trigger] m.elems[i]).table < n
}

/// Every memory named by an export or a data segment exists.
pub open spec fn memories_known(m: ModuleSpec) -> bool {
    let n = memory_space(m.imports, m.memories).len();
    &&& exports_below(m.exports, ExternKind::Memory, n)
    &&& forall|i: int| 0 <= i < m.datas.len() ==> (#[trigger] m.datas[i]).memory < n
}

/// Every global named by an export exists, and every constant reads only
/// immutable imported globals.
pub open spec fn globals_known(m: ModuleSpec) -> bool {
    let ig = imported_global_types(m.imports);
    &&& exports_below(m.exports, ExternKind::Global, global_space(m.imports, m.globals).len())
    &&& forall|i: int| 0 <= i < m.globals.len() ==> const_type((#[trigger] m.globals[i]).init, ig) is Some
    &&& forall|i: int| 0 <= i < m.elems.len() ==> const_type((#[trigger] m.elems[i]).offset, ig) is Some
    &&& forall|i: int| 0 <= i < m.datas.len() ==> const_type((#[trigger] m.datas[i]).offset, ig) is Some
}

/// Every global's initializer is of its type and every segment's offset is
/// an `i32` (as far as the constants' types are known).
pub open spec fn types_match(m: ModuleSpec) -> bool {
    let ig = imported_global_types(m.imports);
    &&& forall|i: int| 0 <= i < m.globals.len() ==> (const_type((#[trigger] m.globals[i]).init, ig) matches Some(t)
        ==> t == m.globals[i].ty.content)
    &&& forall|i: int| 0 <= i < m.elems.len() ==> (const_type((#[trigger] m.elems[i]).offset, ig) matches Some(t)
        ==> t == ValType::I32)
    &&& forall|i: int| 0 <= i < m.datas.len() ==> (const_type((#[trigger] m.datas[i]).offset, ig) matches Some(t)
        ==> t == ValType::I32)
}

/// A function type with no parameters and no results.
pub open spec fn type_is_empty(t: FuncType) -> bool {
    t.params_start == t.params_end && t.results_start == t.results_end
}

/// The start function, when it exists and has a type of the module, takes
/// no parameters and returns no results.
pub open spec fn start_type_empty(m: ModuleSpec) -> bool {
    let fs = func_space(m.imports, m.funcs);
    match m.start {
        Some(f) => f < fs.len() && fs[f as int] < m.types.len() ==> type_is_empty(m.types[fs[f as int] as int]),
        None => true,
    }
}

/// The bytes of an export's name.
pub open spec fn export_name(s: Seq<u8>, e: Export) -> Seq<u8> {
    s.subrange(e.name_start as int, e.name_start + e.name_len)
}

/// No two exports have the same name.
pub open spec fn export_names_distinct(s: Seq<u8>, m: ModuleSpec) -> bool {
    forall|i: int, j: int| 0 <= i < j < m.exports.len()
        ==> export_name(s, #[trigger] m.exports[i]) != export_name(s, #[trigger] m.exports[j])
}

/// Validating a module decoded from `s`: the rules are checked in this
/// order, and the first one broken is the error.
pub open spec fn spec_validate(s: Seq<u8>, m: ModuleSpec) -> Result<(), ValidationError> {
    if !types_known(m) {
        Err(ValidationError::UnknownType)
    } else if table_space(m.imports, m.tables).len() > 1 {
        Err(ValidationError::MultipleTables)
    } else if memory_space(m.imports, m.memories).len() > 1 {
        Err(ValidationError::MultipleMemories)
    } else if !all_limits_valid(m) {
        Err(ValidationError::InvalidLimits)
    } else if !memories_fit(m) {
        Err(ValidationError::MemoryTooLarge)
    } else if !functions_known(s, m) {
        Err(ValidationError::UnknownFunction)
    } else if !tables_known(m) {
        Err(ValidationError::UnknownTable)
    } else if !memories_known(m) {
        Err(ValidationError::UnknownMemory)
    } else if !globals_known(m) {
        Err(ValidationError::UnknownGlobal)
    } else if !types_match(m) {
        Err(ValidationError::TypeMismatch)
    } else if !start_type_empty(m) {
        Err(ValidationError::InvalidStartFunction)
    } else if !export_names_distinct(s, m) {
        Err(ValidationError::DuplicateExportName)
    } else if !bodies_valid(s, m) {
        Err(ValidationError::InvalidFunctionBody)
    } else {
        Ok(())
    }
}

/// The local declarations of a function body.
pub open spec fn code_decls(s: Seq<u8>, c: Code) -> Seq<(u32, ValType)> {
    match spec_u32(s, c.locals_start, c.body_end) {
        Ok((n, q)) => match spec_vec::<LocalsItem>(s, q, c.body_end, n as nat) {
            Ok((d, _)) => d,
            Err(_) => Seq::empty(),
        },
        Err(_) => Seq::empty(),
    }
}

/// The parameter and result types of each function type.
pub open spec fn module_sigs(s: Seq<u8>, types: Seq<FuncType>) -> Seq<(Seq<ValType>, Seq<ValType>)> {
    types.map_values(|t: FuncType| (
        valtypes_at(s, t.params_start as int, t.params_end as int),
        valtypes_at(s, t.results_start as int, t.results_end as int),
    ))
}

/// What the `i`-th function body of a module is checked against.
pub open spec fn body_env(s: Seq<u8>, m: ModuleSpec, i: int) -> BodyEnv {
    let sigs = module_sigs(s, m.types);
    let sig = sigs[m.funcs[i] as int];
    BodyEnv {
        sigs,
        funcs: func_space(m.imports, m.funcs),
        globals: global_space(m.imports, m.globals),
        has_memory: memory_space(m.imports, m.memories).len() > 0,
        has_table: table_space(m.imports, m.tables).len() > 0,
        params: sig.0,
        decls: code_decls(s, m.codes[i]),
        results: sig.1,
    }
}

/// Every function body type-checks against its function's type.
pub open spec fn bodies_valid(s: Seq<u8>, m: ModuleSpec) -> bool {
    forall|i: int| 0 <= i < m.codes.len()
        ==> #[trigger] spec_body_valid(s, m.codes[i].body_start, m.codes[i].body_end, body_env(s, m, i))
}

} // verus!

verus! {

/// Whether every index in `v` is below `n`.
fn all_below(v: &Vec<u32>, n: usize) -> (r: bool)
    ensures
        r == forall|i: int| 0 <= i < v@.len() ==> #[trigger] v@[i] < n,
{
    let mut i: usize = 0;
    while i < v.len()
        invariant
            i <= v@.len(),
            forall|k: int| 0 <= k < i ==> #[trigger] v@[k] < n,
        decreases v@.len() - i,
    {
        if v[i] as usize >= n {
            return false;
        }
        i = i + 1;
    }
    true
}

fn check_limits(l: Limits) -> (r: bool)
    ensures
        r == limits_valid(l),
{
    match l.max {
        Some(x) => l.min <= x,
        None => true,
    }
}

fn check_memory_fits(l: Limits) -> (r: bool)
    ensures
        r == memory_fits(l),
{
    l.min <= 65536 && match l.max {
        Some(x) => x <= 65536,
        None => true,
    }
}

fn check_all_limits(sp: &Spaces) -> (r: (bool, bool))
    ensures
        r.0 == ((forall|i: int| 0 <= i < sp.tables@.len() ==> limits_valid(#[trigger] sp.tables@[i].limits))
            && (forall|i: int| 0 <= i < sp.memories@.len() ==> limits_valid(#[trigger] sp.memories@[i]))),
        r.1 == (forall|i: int| 0 <= i < sp.memories@.len() ==> memory_fits(#[trigger] sp.memories@[i])),
{
    let mut valid = true;
    let mut i: usize = 0;
    while i < sp.tables.len()
        invariant
            i <= sp.tables@.len(),
            valid == forall|k: int| 0 <= k < i ==> limits_valid(#[trigger] sp.tables@[k].limits),
        decreases sp.tables@.len() - i,
    {
        if !check_limits(sp.tables[i].limits) {
            valid = false;
        }
        i = i + 1;
    }
    let mut fits = true;
    let mut i: usize = 0;
    let ghost tables_valid = valid;
    while i < sp.memories.len()
        invariant
            i <= sp.memories@.len(),
            valid == (tables_valid && forall|k: int| 0 <= k < i ==> limits_valid(#[trigger] sp.memories@[k])),
            fits == forall|k: int| 0 <= k < i ==> memory_fits(#[trigger] sp.memories@[k]),
        decreases sp.memories@.len() - i,
    {
        if !check_limits(sp.memories[i]) {
            valid = false;
        }
        if !check_memory_fits(sp.memories[i]) {
            fits = false;
        }
        i = i + 1;
    }
    (valid, fits)
}

/// Whether every export of kind `kind` names an index below `n`.
fn check_exports_below(exports: &Vec<Export>, kind: ExternKind, n: usize) -> (r: bool)
    ensures
        r == exports_below(exports@, kind, n as nat),
{
    let mut i: usize = 0;
    while i < exports.len()
        invariant
            i <= exports@.len(),
            exports_below(exports@.take(i as int), kind, n as nat),
        decreases exports@.len() - i,
    {
        let e = exports[i];
        if e.kind == kind && e.index as usize >= n {
            assert(exports@[i as int].kind == kind && exports@[i as int].index >= n);
            return false;
        }
        i = i + 1;
        assert forall|k: int| 0 <= k < exports@.take(i as int).len() && (#[trigger] exports@.take(i as int)[k]).kind == kind
            implies exports@.take(i as int)[k].index < n by {
            if k < i - 1 {
                assert(exports@.take(i - 1)[k] == exports@[k]);
            }
        }
    }
    assert(exports@.take(i as int) =~= exports@);
    true
}

/// The function indices of an element segment that lies within `s`.
fn read_elem_funcs(s: &[u8], e: Elem) -> (r: Vec<u32>)
    requires
        ElemItem::within(s@, e, s@.len() as usize),
        s@.len() <= usize::MAX,
    ensures
        r@ == elem_funcs(s@, e),
{
    match read_vec::<U32Item>(s, e.funcs_start, s.len(), e.funcs_count) {
        Ok((fs, _)) => fs,
        Err(_) => Vec::new(),
    }
}

/// The type of a constant, given the types of the imported globals.
fn const_type_of(c: ConstExpr, imported: &Vec<GlobalType>, n_imported: usize) -> (r: Option<ValType>)
    requires
        n_imported <= imported@.len(),
    ensures
        r == const_type(c, imported@.take(n_imported as int)),
{
    match c {
        ConstExpr::I32(_) => Some(ValType::I32),
        ConstExpr::I64(_) => Some(ValType::I64),
        ConstExpr::F32(_) => Some(ValType::F32),
        ConstExpr::F64(_) => Some(ValType::F64),
        ConstExpr::GlobalGet(j) => if (j as usize) < n_imported && !imported[j as usize].mutable {
            Some(imported[j as usize].content)
        } else {
            None
        },
    }
}

} // verus!

verus! {

fn check_functions_known(s: &[u8], info: &ModuleInfo, n: usize) -> (r: bool)
    requires
        ranges_within(s@, info@, s@.len() as usize),
        s@.len() <= usize::MAX,
    ensures
        r == ({
            &&& exports_below(info@.exports, ExternKind::Function, n as nat)
            &&& (info@.start matches Some(f) ==> f < n)
            &&& forall|i: int, k: int| 0 <= i < info@.elems.len() && 0 <= k < elem_funcs(s@, info@.elems[i]).len()
                ==> #[trigger] elem_funcs(s@, info@.elems[i])[k] < n
        }),
{
    if !check_exports_below(&info.exports, ExternKind::Function, n) {
        return false;
    }
    if let Some(f) = info.start {
        if f as usize >= n {
            return false;
        }
    }
    let mut i: usize = 0;
    while i < info.elems.len()
        invariant
            ranges_within(s@, info@, s@.len() as usize),
            s@.len() <= usize::MAX,
            i <= info@.elems.len(),
            forall|j: int, k: int| 0 <= j < i && 0 <= k < elem_funcs(s@, info@.elems[j]).len()
                ==> #[trigger] elem_funcs(s@, info@.elems[j])[k] < n,
        decreases info@.elems.len() - i,
    {
        assert(ElemItem::within(s@, info@.elems[i as int], s@.len() as usize));
        let fs = read_elem_funcs(s, info.elems[i]);
        if !all_below(&fs, n) {
            let ghost k = choose|k: int| 0 <= k < fs@.len() && !(fs@[k] < n);
            assert(elem_funcs(s@, info@.elems[i as int])[k] >= n);
            return false;
        }
        i = i + 1;
    }
    true
}

fn check_tables_known(info: &ModuleInfo, n: usize) -> (r: bool)
    ensures
        r == ({
            &&& exports_below(info@.exports, ExternKind::Table, n as nat)
            &&& forall|i: int| 0 <= i < info@.elems.len() ==> (#[trigger] info@.elems[i]).table < n
        }),
{
    if !check_exports_below(&info.exports, ExternKind::Table, n) {
        return false;
    }
    let mut i: usize = 0;
    while i < info.elems.len()
        invariant
            i <= info@.elems.len(),
            forall|j: int| 0 <= j < i ==> (#[trigger] info@.elems[j]).table < n,
        decreases info@.elems.len() - i,
    {
        if info.elems[i].table as usize >= n {
            return false;
        }
        i = i + 1;
    }
    true
}

fn check_memories_known(info: &ModuleInfo, n: usize) -> (r: bool)
    ensures
        r == ({
            &&& exports_below(info@.exports, ExternKind::Memory, n as nat)
            &&& forall|i: int| 0 <= i < info@.datas.len() ==> (#[trigger] info@.datas[i]).memory < n
        }),
{
    if !check_exports_below(&info.exports, ExternKind::Memory, n) {
        return false;
    }
    let mut i: usize = 0;
    while i < info.datas.len()
        invariant
            i <= info@.datas.len(),
            forall|j: int| 0 <= j < i ==> (#[trigger] info@.datas[j]).memory < n,
        decreases info@.datas.len() - i,
    {
        if info.datas[i].memory as usize >= n {
            return false;
        }
        i = i + 1;
    }
    true
}

/// Whether every constant of the module reads only immutable imported globals, and
/// whether each is of the type it must have (when its type is known).
fn check_constants(info: &ModuleInfo, imported: &Vec<GlobalType>, n_imported: usize) -> (r: (bool, bool))
    requires
        n_imported <= imported@.len(),
    ensures
        r.0 == ({
            let ig = imported@.take(n_imported as int);
            &&& forall|i: int| 0 <= i < info@.globals.len() ==> const_type((#[trigger] info@.globals[i]).init, ig) is Some
            &&& forall|i: int| 0 <= i < info@.elems.len() ==> const_type((#[trigger] info@.elems[i]).offset, ig) is Some
            &&& forall|i: int| 0 <= i < info@.datas.len() ==> const_type((#[trigger] info@.datas[i]).offset, ig) is Some
        }),
        r.1 == ({
            let ig = imported@.take(n_imported as int);
            &&& forall|i: int| 0 <= i < info@.globals.len() ==> (const_type((#[trigger] info@.globals[i]).init, ig) matches Some(t)
                ==> t == info@.globals[i].ty.content)
            &&& forall|i: int| 0 <= i < info@.elems.len() ==> (const_type((#[trigger] info@.elems[i]).offset, ig) matches Some(t)
                ==> t == ValType::I32)
            &&& forall|i: int| 0 <= i < info@.datas.len() ==> (const_type((#[trigger] info@.datas[i]).offset, ig) matches Some(t)
                ==> t == ValType::I32)
        }),
{
    let ghost ig = imported@.take(n_imported as int);
    let mut known = true;
    let mut typed = true;
    let mut i: usize = 0;
    while i < info.globals.len()
        invariant
            n_imported <= imported@.len(),
            ig == imported@.take(n_imported as int),
            i <= info@.globals.len(),
            known == forall|j: int| 0 <= j < i ==> const_type((#[trigger] info@.globals[j]).init, ig) is Some,
            typed == forall|j: int| 0 <= j < i ==> (const_type((#[trigger] info@.globals[j]).init, ig) matches Some(t)
                ==> t == info@.globals[j].ty.content),
        decreases info@.globals.len() - i,
    {
        let g = info.globals[i];
        match const_type_of(g.init, imported, n_imported) {
            Some(t) => {
                if t != g.ty.content {
                    typed = false;
                }
            },
            None => {
                known = false;
            },
        }
        i = i + 1;
    }
    let ghost known_g = known;
    let ghost typed_g = typed;
    let mut i: usize = 0;
    while i < info.elems.len()
        invariant
            n_imported <= imported@.len(),
            ig == imported@.take(n_imported as int),
            i <= info@.elems.len(),
            known == (known_g && forall|j: int| 0 <= j < i ==> const_type((#[trigger] info@.elems[j]).offset, ig) is Some),
            typed == (typed_g && forall|j: int| 0 <= j < i ==> (const_type((#[trigger] info@.elems[j]).offset, ig) matches Some(t)
                ==> t == ValType::I32)),
        decreases info@.elems.len() - i,
    {
        match const_type_of(info.elems[i].offset, imported, n_imported) {
            Some(t) => {
                if t != ValType::I32 {
                    typed = false;
                }
            },
            None => {
                known = false;
            },
        }
        i = i + 1;
    }
    let ghost known_e = known;
    let ghost typed_e = typed;
    let mut i: usize = 0;
    while i < info.datas.len()
        invariant
            n_imported <= imported@.len(),
            ig == imported@.take(n_imported as int),
            i <= info@.datas.len(),
            known == (known_e && forall|j: int| 0 <= j < i ==> const_type((#[trigger] info@.datas[j]).offset, ig) is Some),
            typed == (typed_e && forall|j: int| 0 <= j < i ==> (const_type((#[trigger] info@.datas[j]).offset, ig) matches Some(t)
                ==> t == ValType::I32)),
        decreases info@.datas.len() - i,
    {
        match const_type_of(info.datas[i].offset, imported, n_imported) {
            Some(t) => {
                if t != ValType::I32 {
                    typed = false;
                }
            },
            None => {
                known = false;
            },
        }
        i = i + 1;
    }
    (known, typed)
}

/// Whether the bytes `a .. a + alen` and `b .. b + blen` of `s` are the same.
fn same_bytes(s: &[u8], a: usize, alen: usize, b: usize, blen: usize) -> (r: bool)
    requires
        a + alen <= s@.len(),
        b + blen <= s@.len(),
        s@.len() <= usize::MAX,
    ensures
        r == (s@.subrange(a as int, a + alen) == s@.subrange(b as int, b + blen)),
{
    if alen != blen {
        assert(s@.subrange(a as int, a + alen).len() != s@.subrange(b as int, b + blen).len());
        return false;
    }
    let mut i: usize = 0;
    while i < alen
        invariant
            a + alen <= s@.len(),
            b + blen <= s@.len(),
            s@.len() <= usize::MAX,
            alen == blen,
            i <= alen,
            forall|k: int| 0 <= k < i ==> #[trigger] s@[a + k] == s@[b + k],
        decreases alen - i,
    {
        if s[a + i] != s[b + i] {
            assert(s@.subrange(a as int, a + alen)[i as int] != s@.subrange(b as int, b + blen)[i as int]);
            return false;
        }
        i = i + 1;
    }
    assert forall|k: int| 0 <= k < alen implies #[trigger] s@.subrange(a as int, a + alen)[k] == s@.subrange(b as int, b + blen)[k] by {
        assert(s@[a + k] == s@[b + k]);
    }
    assert(s@.subrange(a as int, a + alen) =~= s@.subrange(b as int, b + blen));
    true
}

fn check_export_names(s: &[u8], info: &ModuleInfo) -> (r: bool)
    requires
        ranges_within(s@, info@, s@.len() as usize),
        s@.len() <= usize::MAX,
    ensures
        r == export_names_distinct(s@, info@),
{
    let n = info.exports.len();
    let mut j: usize = 0;
    while j < n
        invariant
            ranges_within(s@, info@, s@.len() as usize),
            s@.len() <= usize::MAX,
            n == info@.exports.len(),
            j <= n,
            forall|a: int, b: int| 0 <= a < b < j
                ==> export_name(s@, #[trigger] info@.exports[a]) != export_name(s@, #[trigger] info@.exports[b]),
        decreases n - j,
    {
        let ej = info.exports[j];
        assert(ExportItem::within(s@, info@.exports[j as int], s@.len() as usize));
        let mut i: usize = 0;
        while i < j
            invariant
                ranges_within(s@, info@, s@.len() as usize),
                s@.len() <= usize::MAX,
                n == info@.exports.len(),
                i <= j < n,
                ej == info@.exports[j as int],
                ej.name_start + ej.name_len <= s@.len(),
                forall|a: int, b: int| 0 <= a < b < j
                    ==> export_name(s@, #[trigger] info@.exports[a]) != export_name(s@, #[trigger] info@.exports[b]),
                forall|a: int| 0 <= a < i ==> export_name(s@, #[trigger] info@.exports[a]) != export_name(s@, ej),
            decreases j - i,
        {
            let ei = info.exports[i];
            assert(ExportItem::within(s@, info@.exports[i as int], s@.len() as usize));
            if same_bytes(s, ei.name_start, ei.name_len, ej.name_start, ej.name_len) {
                assert(export_name(s@, info@.exports[i as int]) == export_name(s@, info@.exports[j as int]));
                return false;
            }
            i = i + 1;
        }
        j = j + 1;
    }
    true
}

/// The parameter and result types of each function type of a module.
fn module_sigs_of(s: &[u8], info: &ModuleInfo) -> (r: Vec<Sig>)
    requires
        ranges_within(s@, info@, s@.len() as usize),
        s@.len() <= usize::MAX,
    ensures
        sigs_view(r@) == module_sigs(s@, info@.types),
        r@.len() == info@.types.len(),
{
    let mut r: Vec<Sig> = Vec::new();
    let mut i: usize = 0;
    while i < info.types.len()
        invariant
            ranges_within(s@, info@, s@.len() as usize),
            s@.len() <= usize::MAX,
            i <= info@.types.len(),
            r@.len() == i,
            sigs_view(r@) == module_sigs(s@, info@.types).take(i as int),
        decreases info@.types.len() - i,
    {
        let t = info.types[i];
        assert(FuncTypeItem::within(s@, info@.types[i as int], s@.len() as usize));
        let params = valtypes_from(s, t.params_start, t.params_end);
        let results = valtypes_from(s, t.results_start, t.results_end);
        let ghost before = r@;
        r.push(Sig { params, results });
        i = i + 1;
        proof {
            let ms = module_sigs(s@, info@.types);
            assert forall|k: int| 0 <= k < i implies #[trigger] sigs_view(r@)[k] == ms.take(i as int)[k] by {
                if k < i - 1 {
                    assert(r@[k] == before[k]);
                    assert(sigs_view(before)[k] == ms.take(i - 1)[k]);
                }
            }
            assert(sigs_view(r@) =~= ms.take(i as int));
        }
    }
    proof {
        assert(module_sigs(s@, info@.types).take(i as int) =~= module_sigs(s@, info@.types));
    }
    r
}

/// Reads the local declarations of a function body.
fn read_decls(s: &[u8], c: Code) -> (r: Vec<(u32, ValType)>)
    requires
        c.body_end <= s@.len(),
    ensures
        r@ == code_decls(s@, c),
{
    match read_u32(s, c.locals_start, c.body_end) {
        Ok((n, q)) => match read_vec::<LocalsItem>(s, q, c.body_end, n) {
            Ok((d, _)) => d,
            Err(_) => Vec::new(),
        },
        Err(_) => Vec::new(),
    }
}

/// Checks every function body of a module whose function types are known.
fn check_bodies(s: &[u8], info: &ModuleInfo, sp: Spaces) -> (r: bool)
    requires
        ranges_within(s@, info@, s@.len() as usize),
        s@.len() <= usize::MAX,
        info@.funcs.len() == info@.codes.len(),
        types_known(info@),
        sp.funcs@ == func_space(info@.imports, info@.funcs),
        sp.tables@ == table_space(info@.imports, info@.tables),
        sp.memories@ == memory_space(info@.imports, info@.memories),
        sp.globals@ == global_space(info@.imports, info@.globals),
    ensures
        r == bodies_valid(s@, info@),
{
    let ghost m = info@;
    let has_memory = sp.memories.len() > 0;
    let has_table = sp.tables.len() > 0;
    let mut env = Env {
        sigs: module_sigs_of(s, info),
        funcs: sp.funcs,
        globals: sp.globals,
        has_memory,
        has_table,
        params: Vec::new(),
        decls: Vec::new(),
        results: Vec::new(),
    };
    let n_imported = env.funcs.len() - info.funcs.len();
    let mut i: usize = 0;
    while i < info.codes.len()
        invariant
            m == info@,
            ranges_within(s@, m, s@.len() as usize),
            s@.len() <= usize::MAX,
            m.funcs.len() == m.codes.len(),
            types_known(m),
            sigs_view(env.sigs@) == module_sigs(s@, m.types),
            env.sigs@.len() == m.types.len(),
            env.funcs@ == func_space(m.imports, m.funcs),
            env.globals@ == global_space(m.imports, m.globals),
            env.has_memory == (memory_space(m.imports, m.memories).len() > 0),
            env.has_table == (table_space(m.imports, m.tables).len() > 0),
            n_imported == imported_func_types(m.imports).len(),
            i <= m.codes.len(),
            forall|k: int| 0 <= k < i
                ==> #[trigger] spec_body_valid(s@, m.codes[k].body_start, m.codes[k].body_end, body_env(s@, m, k)),
        decreases m.codes.len() - i,
    {
        let c = info.codes[i];
        assert(CodeItem::within(s@, m.codes[i as int], s@.len() as usize));
        assert(func_space(m.imports, m.funcs)[n_imported + i] == m.funcs[i as int]);
        let t = info.funcs[i] as usize;
        assert(t < m.types.len());
        env.params = copy_types(&env.sigs[t].params);
        env.results = copy_types(&env.sigs[t].results);
        env.decls = read_decls(s, c);
        assert(env@ == body_env(s@, m, i as int));
        if !check_body(s, c.body_start, c.body_end, &env) {
            return false;
        }
        i = i + 1;
    }
    true
}

/// Validates a module decoded from `s`.
pub fn validate(s: &[u8], info: &ModuleInfo) -> (r: Result<(), ValidationError>)
    requires
        ranges_within(s@, info@, s@.len() as usize),
        s@.len() <= usize::MAX,
        info@.funcs.len() == info@.codes.len(),
    ensures
        r == spec_validate(s@, info@),
{
    let sp = spaces(info);
    proof {
        assert(sp.globals@.take(sp.imported_globals as int) =~= imported_global_types(info@.imports));
    }
    if !all_below(&sp.funcs, info.types.len()) {
        return Err(ValidationError::UnknownType);
    }
    if sp.tables.len() > 1 {
        return Err(ValidationError::MultipleTables);
    }
    if sp.memories.len() > 1 {
        return Err(ValidationError::MultipleMemories);
    }
    let (limits_ok, memories_ok) = check_all_limits(&sp);
    if !limits_ok {
        return Err(ValidationError::InvalidLimits);
    }
    if !memories_ok {
        return Err(ValidationError::MemoryTooLarge);
    }
    if !check_functions_known(s, info, sp.funcs.len()) {
        return Err(ValidationError::UnknownFunction);
    }
    if !check_tables_known(info, sp.tables.len()) {
        return Err(ValidationError::UnknownTable);
    }
    if !check_memories_known(info, sp.memories.len()) {
        return Err(ValidationError::UnknownMemory);
    }
    let (constants_known, constants_typed) = check_constants(info, &sp.globals, sp.imported_globals);
    if !check_exports_below(&info.exports, ExternKind::Global, sp.globals.len()) || !constants_known {
        return Err(ValidationError::UnknownGlobal);
    }
    if !constants_typed {
        return Err(ValidationError::TypeMismatch);
    }
    if let Some(f) = info.start {
        let t = sp.funcs[f as usize];
        let ty = info.types[t as usize];
        if ty.params_start != ty.params_end || ty.results_start != ty.results_end {
            return Err(ValidationError::InvalidStartFunction);
        }
    }
    if !check_export_names(s, info) {
        return Err(ValidationError::DuplicateExportName);
    }
    if !check_bodies(s, info, sp) {
        return Err(ValidationError::InvalidFunctionBody);
    }
    Ok(())
}

} // verus!

verus! {

/// The module with no sections is valid.
pub proof fn law_empty_module_is_valid(s: Seq<u8>)
    ensures
        spec_validate(s, empty_module()) is Ok,
{
    let m = empty_module();
    assert(imported_func_types(m.imports) =~= Seq::<u32>::empty());
    assert(imported_tables(m.imports) =~= Seq::<TableType>::empty());
    assert(imported_memories(m.imports) =~= Seq::<Limits>::empty());
    assert(imported_global_types(m.imports) =~= Seq::<GlobalType>::empty());
    assert(func_space(m.imports, m.funcs).len() == 0);
    assert(table_space(m.imports, m.tables).len() == 0);
    assert(memory_space(m.imports, m.memories).len() == 0);
}

} // verus!
