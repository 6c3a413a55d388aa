use vstd::prelude::*;
use vstd::string::StringSliceAdditionalSpecFns;
use crate::types::{ValType, Limits, TableType, GlobalType, FuncType, ImportDesc, Import, ConstExpr, Global, ModuleSpec, ModuleInfo, Elem, Data};
use crate::decode::{ranges_within, types_within, imports_within};
use crate::items::{ImportItem, FuncTypeItem};
use crate::reader::{Item, U32Item, spec_vec, read_vec};
use crate::items::{ElemItem, DataItem};
use crate::reader::valtype_of;
use crate::module::{FunctionType, MemoryType, Module, bytes_equal, copy_valtypes, copy_range};

verus! {

/// A WebAssembly value. Floats are held as their bit patterns.
#[derive(Debug, Clone, Copy, PartialEq, Eq, Structural)]
pub enum Value {
    I32(i32),
    I64(i64),
    F32(u32),
    F64(u64),
}

/// The type of a value.
pub open spec fn value_type(v: Value) -> ValType {
    match v {
        Value::I32(_) => ValType::I32,
        Value::I64(_) => ValType::I64,
        Value::F32(_) => ValType::F32,
        Value::F64(_) => ValType::F64,
    }
}

fn type_of_value(v: Value) -> (r: ValType)
    ensures
        r == value_type(v),
{
    match v {
        Value::I32(_) => ValType::I32,
        Value::I64(_) => ValType::I64,
        Value::F32(_) => ValType::F32,
        Value::F64(_) => ValType::F64,
    }
}

/// What a host provides for an import: a function of a signature, a global
/// of a type with its value, a memory or a table of a type (whose minimum
/// is its current size).
#[derive(Debug, Clone, PartialEq, Eq)]
pub enum Extern {
    Function(FunctionType),
    Global(GlobalType, Value),
    Memory(MemoryType),
    Table(TableType),
}

/// An `Extern` as a mathematical value.
#[verifier::ext_equal]
pub enum ExternView {
    Function { params: Seq<ValType>, results: Seq<ValType> },
    Global(GlobalType, Value),
    Memory(MemoryType),
    Table(TableType),
}

impl View for Extern {
    type V = ExternView;

    open spec fn view(&self) -> ExternView {
        match self {
            Extern::Function(f) => ExternView::Function { params: f.params@, results: f.results@ },
            Extern::Global(g, v) => ExternView::Global(*g, *v),
            Extern::Memory(m) => ExternView::Memory(*m),
            Extern::Table(t) => ExternView::Table(*t),
        }
    }
}

fn copy_extern(e: &Extern) -> (r: Extern)
    ensures
        r@ == e@,
{
    match e {
        Extern::Function(f) => Extern::Function(FunctionType { params: copy_valtypes(&f.params), results: copy_valtypes(&f.results) }),
        Extern::Global(g, v) => Extern::Global(*g, *v),
        Extern::Memory(m) => Extern::Memory(*m),
        Extern::Table(t) => Extern::Table(*t),
    }
}

/// One value offered for import, under a module name and a field name,
/// and the identifier of the store that the value belongs to.
#[derive(Debug, Clone, PartialEq, Eq)]
pub struct ImportEntry {
    pub module: Vec<u8>,
    pub name: Vec<u8>,
    pub value: Extern,
    pub store: u64,
}

/// An `ImportEntry` as a mathematical value.
#[verifier::ext_equal]
pub struct ImportEntryView {
    pub module: Seq<u8>,
    pub name: Seq<u8>,
    pub value: ExternView,
    pub store: u64,
}

impl View for ImportEntry {
    type V = ImportEntryView;

    open spec fn view(&self) -> ImportEntryView {
        ImportEntryView { module: self.module@, name: self.name@, value: self.value@, store: self.store }
    }
}

/// The values that a host offers for import.
#[derive(Debug, Clone, PartialEq, Eq)]
pub struct ImportObject {
    pub entries: Vec<ImportEntry>,
}

/// The views of the entries of an import object.
pub open spec fn entries_view(es: Seq<ImportEntry>) -> Seq<ImportEntryView> {
    es.map_values(|e: ImportEntry| e@)
}

fn str_bytes(s: &str) -> (r: Vec<u8>)
    ensures
        r@ == s.spec_bytes(),
{
    let b = s.as_bytes();
    let v = copy_range(b, 0, b.len());
    proof {
        assert(v@ =~= b@);
    }
    v
}

impl ImportObject {
    /// An import object that offers nothing.
    pub fn new() -> (r: ImportObject)
        ensures
            r.entries@.len() == 0,
    {
        ImportObject { entries: Vec::new() }
    }

    /// Offers `value`, a value of the store `store`, under `module` and
    /// `name`, after what is already offered.
    pub fn set(&mut self, store: u64, module: &str, name: &str, value: Extern)
        ensures
            entries_view(final(self).entries@) == entries_view(old(self).entries@).push(
                ImportEntryView { module: module.spec_bytes(), name: name.spec_bytes(), value: value@, store },
            ),
    {
        let entry = ImportEntry { module: str_bytes(module), name: str_bytes(name), value, store };
        self.entries.push(entry);
        proof {
            assert(entries_view(self.entries@) =~= entries_view(old(self).entries@).push(entry@));
        }
    }
}

/// Why a module could not be instantiated.
#[derive(Debug, Clone, Copy, PartialEq, Eq, Structural)]
pub enum InstantiationError {
    /// An offered value belongs to another store than the one instantiated in.
    DifferentStores,
    /// No entry offers the import at this index.
    ImportNotFound(usize),
    /// The first entry that offers the import at this index is of another kind or type.
    IncompatibleImportType(usize),
    /// The initializer of the defined global at this index is not a constant of its type.
    InvalidInitializer(usize),
    /// The element segment at this index names no table, has no `i32` offset, or does not fit.
    ElemSegmentDoesNotFit(usize),
    /// The data segment at this index names no memory, has no `i32` offset, or does not fit.
    DataSegmentDoesNotFit(usize),
}

/// Whether an entry is offered under these names.
pub open spec fn entry_is(e: ImportEntryView, module: Seq<u8>, name: Seq<u8>) -> bool {
    e.module == module && e.name == name
}

/// The index of the first entry offered under these names, if any.
#[verifier::opaque]
pub open spec fn spec_find_entry(es: Seq<ImportEntryView>, module: Seq<u8>, name: Seq<u8>) -> Option<int> {
    if exists|j: int| 0 <= j < es.len() && entry_is(es[j], module, name) {
        Some(choose|j: int| 0 <= j < es.len() && entry_is(es[j], module, name)
            && forall|k: int| 0 <= k < j ==> !entry_is(es[k], module, name))
    } else {
        None
    }
}

/// A provided size fits a required one: at least its minimum, and when a
/// maximum is required, a maximum no larger.
pub open spec fn limits_fit(provided: Limits, required: Limits) -> bool {
    provided.min >= required.min && match required.max {
        None => true,
        Some(rmax) => match provided.max {
            Some(pmax) => pmax <= rmax,
            None => false,
        },
    }
}

fn check_limits_fit(provided: Limits, required: Limits) -> (r: bool)
    ensures
        r == limits_fit(provided, required),
{
    provided.min >= required.min && match required.max {
        None => true,
        Some(rmax) => match provided.max {
            Some(pmax) => pmax <= rmax,
            None => false,
        },
    }
}

/// The value types in the bytes `start .. end` are `types`.
pub open spec fn types_at(binary: Seq<u8>, start: int, end: int, types: Seq<ValType>) -> bool {
    end - start == types.len() && forall|k: int| 0 <= k < types.len() ==> valtype_of(#[trigger] binary[start + k]) == Some(types[k])
}

fn check_types_at(binary: &[u8], start: usize, end: usize, types: &Vec<ValType>) -> (r: bool)
    requires
        start <= end <= binary@.len(),
    ensures
        r == types_at(binary@, start as int, end as int, types@),
{
    if end - start != types.len() {
        return false;
    }
    let mut k: usize = 0;
    while k < types.len()
        invariant
            start <= end <= binary@.len(),
            end - start == types@.len(),
            k <= types@.len(),
            forall|j: int| 0 <= j < k ==> valtype_of(#[trigger] binary@[start + j]) == Some(types@[j]),
        decreases types@.len() - k,
    {
        let b = binary[start + k];
        match crate::reader::valtype_from_byte(b) {
            Some(t) => {
                if t != types[k] {
                    return false;
                }
            },
            None => {
                return false;
            },
        }
        k = k + 1;
    }
    true
}

/// Whether what an entry offers can stand for an import: a function of the
/// import's declared signature, a global of the same type, a memory or
/// table whose size fits the import's limits.
#[verifier::opaque]
pub open spec fn spec_compatible(binary: Seq<u8>, types: Seq<FuncType>, desc: ImportDesc, ext: ExternView) -> bool {
    match desc {
        ImportDesc::Function(t) => match ext {
            ExternView::Function { params, results } => t < types.len()
                && types_at(binary, types[t as int].params_start as int, types[t as int].params_end as int, params)
                && types_at(binary, types[t as int].results_start as int, types[t as int].results_end as int, results),
            _ => false,
        },
        ImportDesc::Global(g) => match ext {
            ExternView::Global(h, _) => h == g,
            _ => false,
        },
        ImportDesc::Memory(l) => match ext {
            ExternView::Memory(mt) => limits_fit(mt.limits, l),
            _ => false,
        },
        ImportDesc::Table(tt) => match ext {
            ExternView::Table(ht) => limits_fit(ht.limits, tt.limits),
            _ => false,
        },
    }
}

/// The names of an import, as bytes of the binary.
pub open spec fn import_module(binary: Seq<u8>, imp: Import) -> Seq<u8> {
    binary.subrange(imp.module_start as int, imp.module_start + imp.module_len)
}

pub open spec fn import_name(binary: Seq<u8>, imp: Import) -> Seq<u8> {
    binary.subrange(imp.name_start as int, imp.name_start + imp.name_len)
}

/// The values that the first `n` imports resolve to: for each, the first
/// entry offered under its names, which must be compatible with it.
pub open spec fn spec_resolve(binary: Seq<u8>, m: ModuleSpec, es: Seq<ImportEntryView>, n: nat) -> Result<Seq<ExternView>, InstantiationError>
    decreases n,
{
    if n == 0 {
        Ok(Seq::empty())
    } else {
        match spec_resolve(binary, m, es, (n - 1) as nat) {
            Ok(xs) => {
                let imp = m.imports[n - 1];
                match spec_find_entry(es, import_module(binary, imp), import_name(binary, imp)) {
                    None => Err(InstantiationError::ImportNotFound((n - 1) as usize)),
                    Some(j) => if spec_compatible(binary, m.types, imp.desc, es[j].value) {
                        Ok(xs.push(es[j].value))
                    } else {
                        Err(InstantiationError::IncompatibleImportType((n - 1) as usize))
                    },
                }
            },
            Err(e) => Err(e),
        }
    }
}

/// The views of a sequence of externs.
pub open spec fn externs_view(v: Seq<Extern>) -> Seq<ExternView> {
    v.map_values(|e: Extern| e@)
}

/// Finds the first entry offered under the names of an import.
fn find_entry(binary: &[u8], imp: Import, es: &Vec<ImportEntry>) -> (r: Option<usize>)
    requires
        ImportItem::within(binary@, imp, binary@.len() as usize),
        binary@.len() <= usize::MAX,
    ensures
        match r {
            Some(j) => j < es@.len() && spec_find_entry(entries_view(es@), import_module(binary@, imp), import_name(binary@, imp)) == Some(j as int),
            None => spec_find_entry(entries_view(es@), import_module(binary@, imp), import_name(binary@, imp)) is None,
        },
{
    reveal(spec_find_entry);
    let ghost ev = entries_view(es@);
    let ghost module = import_module(binary@, imp);
    let ghost name = import_name(binary@, imp);
    let mut j: usize = 0;
    while j < es.len()
        invariant
            ImportItem::within(binary@, imp, binary@.len() as usize),
            binary@.len() <= usize::MAX,
            ev == entries_view(es@),
            module == import_module(binary@, imp),
            name == import_name(binary@, imp),
            j <= es@.len(),
            forall|k: int| 0 <= k < j ==> !entry_is(#[trigger] ev[k], module, name),
        decreases es@.len() - j,
    {
        proof {
            assert(ev[j as int] == es@[j as int]@);
        }
        if bytes_equal(binary, imp.module_start, imp.module_len, es[j].module.as_slice())
            && bytes_equal(binary, imp.name_start, imp.name_len, es[j].name.as_slice()) {
            proof {
                assert(entry_is(ev[j as int], module, name));
                assert(0 <= j < ev.len() && entry_is(ev[j as int], module, name)
                    && forall|k: int| 0 <= k < j ==> !entry_is(ev[k], module, name));
                let c = choose|c: int| 0 <= c < ev.len() && entry_is(ev[c], module, name)
                    && forall|k: int| 0 <= k < c ==> !entry_is(ev[k], module, name);
                assert(0 <= c < ev.len() && entry_is(ev[c], module, name)
                    && forall|k: int| 0 <= k < c ==> !entry_is(ev[k], module, name));
                if c < j {
                    assert(!entry_is(ev[c], module, name));
                }
                if c > j {
                    assert(!entry_is(ev[j as int], module, name));
                }
                assert(c == j);
                reveal(spec_find_entry);
                assert(spec_find_entry(ev, module, name) == Some(j as int));
            }
            return Some(j);
        }
        proof {
            assert(!entry_is(ev[j as int], module, name));
        }
        j = j + 1;
    }
    None
}

/// Whether what an entry offers can stand for an import.
fn compatible(binary: &[u8], info: &ModuleInfo, desc: ImportDesc, ext: &Extern) -> (r: bool)
    requires
        types_within(binary@, info@, binary@.len() as usize),
        binary@.len() <= usize::MAX,
    ensures
        r == spec_compatible(binary@, info@.types, desc, ext@),
{
    reveal(spec_compatible);
    match desc {
        ImportDesc::Function(t) => match ext {
            Extern::Function(f) => {
                if t as usize >= info.types.len() {
                    return false;
                }
                let ft = info.types[t as usize];
                assert(FuncTypeItem::within(binary@, info@.types[t as int], binary@.len() as usize));
                check_types_at(binary, ft.params_start, ft.params_end, &f.params)
                    && check_types_at(binary, ft.results_start, ft.results_end, &f.results)
            },
            _ => false,
        },
        ImportDesc::Global(g) => match ext {
            Extern::Global(h, _) => h.content == g.content && h.mutable == g.mutable,
            _ => false,
        },
        ImportDesc::Memory(l) => match ext {
            Extern::Memory(mt) => check_limits_fit(mt.limits, l),
            _ => false,
        },
        ImportDesc::Table(tt) => match ext {
            Extern::Table(ht) => check_limits_fit(ht.limits, tt.limits),
            _ => false,
        },
    }
}

proof fn lemma_resolve_step(binary: Seq<u8>, m: ModuleSpec, es: Seq<ImportEntryView>, i: nat, xs: Seq<ExternView>)
    requires
        i < m.imports.len(),
        spec_resolve(binary, m, es, i) == Ok::<Seq<ExternView>, InstantiationError>(xs),
    ensures
        spec_resolve(binary, m, es, i + 1) == match spec_find_entry(es, import_module(binary, m.imports[i as int]), import_name(binary, m.imports[i as int])) {
            None => Err(InstantiationError::ImportNotFound(i as usize)),
            Some(j) => if spec_compatible(binary, m.types, m.imports[i as int].desc, es[j].value) {
                Ok(xs.push(es[j].value))
            } else {
                Err(InstantiationError::IncompatibleImportType(i as usize))
            },
        },
{
}

proof fn lemma_resolve_err(binary: Seq<u8>, m: ModuleSpec, es: Seq<ImportEntryView>, i: nat, n: nat)
    requires
        i <= n,
        spec_resolve(binary, m, es, i) is Err,
    ensures
        spec_resolve(binary, m, es, n) == spec_resolve(binary, m, es, i),
    decreases n - i,
{
    if i < n {
        lemma_resolve_err(binary, m, es, i, (n - 1) as nat);
    }
}

/// Resolves the imports of a module against an import object.
fn resolve_imports(binary: &[u8], info: &ModuleInfo, obj: &ImportObject) -> (r: Result<Vec<Extern>, InstantiationError>)
    requires
        ranges_within(binary@, info@, binary@.len() as usize),
        binary@.len() <= usize::MAX,
    ensures
        match r {
            Ok(v) => spec_resolve(binary@, info@, entries_view(obj.entries@), info@.imports.len()) == Ok::<Seq<ExternView>, InstantiationError>(externs_view(v@)),
            Err(e) => spec_resolve(binary@, info@, entries_view(obj.entries@), info@.imports.len()) == Err::<Seq<ExternView>, InstantiationError>(e),
        },
{
    let ghost ev = entries_view(obj.entries@);
    let mut out: Vec<Extern> = Vec::new();
    let mut i: usize = 0;
    proof {
        assert(externs_view(out@) =~= Seq::<ExternView>::empty());
    }
    while i < info.imports.len()
        invariant
            types_within(binary@, info@, binary@.len() as usize),
            imports_within(binary@, info@, binary@.len() as usize),
            binary@.len() <= usize::MAX,
            ev == entries_view(obj.entries@),
            i <= info@.imports.len(),
            spec_resolve(binary@, info@, ev, i as nat) == Ok::<Seq<ExternView>, InstantiationError>(externs_view(out@)),
        decreases info@.imports.len() - i,
    {
        let imp = info.imports[i];
        assert(ImportItem::within(binary@, info@.imports[i as int], binary@.len() as usize));
        proof {
            lemma_resolve_step(binary@, info@, ev, i as nat, externs_view(out@));
        }
        match find_entry(binary, imp, &obj.entries) {
            None => {
                proof {
                    lemma_resolve_err(binary@, info@, ev, (i + 1) as nat, info@.imports.len());
                }
                return Err(InstantiationError::ImportNotFound(i));
            },
            Some(j) => {
                proof {
                    assert(ev[j as int] == obj.entries@[j as int]@);
                }
                if !compatible(binary, info, imp.desc, &obj.entries[j].value) {
                    proof {
                        lemma_resolve_err(binary@, info@, ev, (i + 1) as nat, info@.imports.len());
                    }
                    return Err(InstantiationError::IncompatibleImportType(i));
                }
                let ghost before = out@;
                out.push(copy_extern(&obj.entries[j].value));
                proof {
                    assert(externs_view(out@) =~= externs_view(before).push(ev[j as int].value));
                }
            },
        }
        i = i + 1;
    }
    Ok(out)
}

/// The values of the imported globals, in order.
pub open spec fn imported_globals(exts: Seq<ExternView>) -> Seq<Value>
    decreases exts.len(),
{
    if exts.len() == 0 {
        Seq::empty()
    } else {
        let prev = imported_globals(exts.drop_last());
        match exts.last() {
            ExternView::Global(_, v) => prev.push(v),
            _ => prev,
        }
    }
}

/// The sizes in pages of the imported memories, in order.
pub open spec fn imported_memory_pages(exts: Seq<ExternView>) -> Seq<u32>
    decreases exts.len(),
{
    if exts.len() == 0 {
        Seq::empty()
    } else {
        let prev = imported_memory_pages(exts.drop_last());
        match exts.last() {
            ExternView::Memory(mt) => prev.push(mt.limits.min),
            _ => prev,
        }
    }
}

/// The sizes of the imported tables, in order.
pub open spec fn imported_table_sizes(exts: Seq<ExternView>) -> Seq<u32>
    decreases exts.len(),
{
    if exts.len() == 0 {
        Seq::empty()
    } else {
        let prev = imported_table_sizes(exts.drop_last());
        match exts.last() {
            ExternView::Table(tt) => prev.push(tt.limits.min),
            _ => prev,
        }
    }
}

/// What the imports contribute to an instance.
pub struct ImportedState {
    pub globals: Vec<Value>,
    pub memory_pages: Vec<u32>,
    pub table_sizes: Vec<u32>,
}

/// Sorts the resolved imports into globals, memories and tables.
fn imported_state(exts: &Vec<Extern>) -> (r: ImportedState)
    ensures
        r.globals@ == imported_globals(externs_view(exts@)),
        r.memory_pages@ == imported_memory_pages(externs_view(exts@)),
        r.table_sizes@ == imported_table_sizes(externs_view(exts@)),
{
    let ghost ev = externs_view(exts@);
    let mut globals: Vec<Value> = Vec::new();
    let mut memory_pages: Vec<u32> = Vec::new();
    let mut table_sizes: Vec<u32> = Vec::new();
    let mut i: usize = 0;
    while i < exts.len()
        invariant
            ev == externs_view(exts@),
            i <= exts@.len(),
            globals@ == imported_globals(ev.subrange(0, i as int)),
            memory_pages@ == imported_memory_pages(ev.subrange(0, i as int)),
            table_sizes@ == imported_table_sizes(ev.subrange(0, i as int)),
        decreases exts@.len() - i,
    {
        let ghost next = ev.subrange(0, i + 1);
        assert(next.drop_last() =~= ev.subrange(0, i as int));
        assert(next.last() == exts@[i as int]@);
        match &exts[i] {
            Extern::Function(_) => {},
            Extern::Global(_, v) => {
                globals.push(*v);
            },
            Extern::Memory(mt) => {
                memory_pages.push(mt.limits.min);
            },
            Extern::Table(tt) => {
                table_sizes.push(tt.limits.min);
            },
        }
        i = i + 1;
    }
    proof {
        assert(ev.subrange(0, i as int) =~= ev);
    }
    ImportedState { globals, memory_pages, table_sizes }
}

/// The value of a constant initializer; `global.get` reads an imported global.
pub open spec fn eval_const(c: ConstExpr, imported: Seq<Value>) -> Option<Value> {
    match c {
        ConstExpr::I32(v) => Some(Value::I32(v)),
        ConstExpr::I64(v) => Some(Value::I64(v)),
        ConstExpr::F32(b) => Some(Value::F32(b)),
        ConstExpr::F64(b) => Some(Value::F64(b)),
        ConstExpr::GlobalGet(j) => if j < imported.len() {
            Some(imported[j as int])
        } else {
            None
        },
    }
}

fn evaluate_const(c: ConstExpr, imported: &Vec<Value>) -> (r: Option<Value>)
    ensures
        r == eval_const(c, imported@),
{
    match c {
        ConstExpr::I32(v) => Some(Value::I32(v)),
        ConstExpr::I64(v) => Some(Value::I64(v)),
        ConstExpr::F32(b) => Some(Value::F32(b)),
        ConstExpr::F64(b) => Some(Value::F64(b)),
        ConstExpr::GlobalGet(j) => if (j as usize) < imported.len() {
            Some(imported[j as usize])
        } else {
            None
        },
    }
}

/// The values of all globals: the imported ones, then the first `n` defined
/// ones, each its initializer's value, which must be of its type.
pub open spec fn spec_globals(defined: Seq<Global>, imported: Seq<Value>, n: nat) -> Result<Seq<Value>, InstantiationError>
    decreases n,
{
    if n == 0 {
        Ok(imported)
    } else {
        match spec_globals(defined, imported, (n - 1) as nat) {
            Ok(vs) => match eval_const(defined[n - 1].init, imported) {
                Some(v) => if value_type(v) == defined[n - 1].ty.content {
                    Ok(vs.push(v))
                } else {
                    Err(InstantiationError::InvalidInitializer((n - 1) as usize))
                },
                None => Err(InstantiationError::InvalidInitializer((n - 1) as usize)),
            },
            Err(e) => Err(e),
        }
    }
}

proof fn lemma_globals_err(defined: Seq<Global>, imported: Seq<Value>, i: nat, n: nat)
    requires
        i <= n,
        spec_globals(defined, imported, i) is Err,
    ensures
        spec_globals(defined, imported, n) == spec_globals(defined, imported, i),
    decreases n - i,
{
    if i < n {
        lemma_globals_err(defined, imported, i, (n - 1) as nat);
    }
}

fn copy_values(v: &Vec<Value>) -> (r: Vec<Value>)
    ensures
        r@ == v@,
{
    let mut r: Vec<Value> = Vec::new();
    let mut i: usize = 0;
    while i < v.len()
        invariant
            i <= v@.len(),
            r@ == v@.subrange(0, i as int),
        decreases v@.len() - i,
    {
        r.push(v[i]);
        i = i + 1;
        proof {
            assert(r@ =~= v@.subrange(0, i as int));
        }
    }
    proof {
        assert(r@ =~= v@);
    }
    r
}

/// Evaluates the initializers of the defined globals.
fn evaluate_globals(defined: &Vec<Global>, imported: &Vec<Value>) -> (r: Result<Vec<Value>, InstantiationError>)
    ensures
        match r {
            Ok(v) => spec_globals(defined@, imported@, defined@.len()) == Ok::<Seq<Value>, InstantiationError>(v@),
            Err(e) => spec_globals(defined@, imported@, defined@.len()) == Err::<Seq<Value>, InstantiationError>(e),
        },
{
    let mut vs = copy_values(imported);
    let mut i: usize = 0;
    while i < defined.len()
        invariant
            i <= defined@.len(),
            spec_globals(defined@, imported@, i as nat) == Ok::<Seq<Value>, InstantiationError>(vs@),
        decreases defined@.len() - i,
    {
        let g = defined[i];
        match evaluate_const(g.init, imported) {
            Some(v) => {
                if type_of_value(v) != g.ty.content {
                    proof {
                        lemma_globals_err(defined@, imported@, (i + 1) as nat, defined@.len());
                    }
                    return Err(InstantiationError::InvalidInitializer(i));
                }
                vs.push(v);
            },
            None => {
                proof {
                    lemma_globals_err(defined@, imported@, (i + 1) as nat, defined@.len());
                }
                return Err(InstantiationError::InvalidInitializer(i));
            },
        }
        i = i + 1;
    }
    Ok(vs)
}

/// The sizes in pages of all memories: the imported ones, then the
/// defined ones at their minimum.
pub open spec fn spec_memory_pages(imported: Seq<u32>, defined: Seq<Limits>) -> Seq<u32> {
    imported + defined.map_values(|l: Limits| l.min)
}

fn copy_u32s(v: &Vec<u32>) -> (r: Vec<u32>)
    ensures
        r@ == v@,
{
    let mut r: Vec<u32> = Vec::new();
    let mut i: usize = 0;
    while i < v.len()
        invariant
            i <= v@.len(),
            r@ == v@.subrange(0, i as int),
        decreases v@.len() - i,
    {
        r.push(v[i]);
        i = i + 1;
        proof {
            assert(r@ =~= v@.subrange(0, i as int));
        }
    }
    proof {
        assert(r@ =~= v@);
    }
    r
}

/// Sizes the memories.
fn memory_pages(imported: &Vec<u32>, defined: &Vec<Limits>) -> (r: Vec<u32>)
    ensures
        r@ == spec_memory_pages(imported@, defined@),
{
    let mut ps = copy_u32s(imported);
    let mut k: usize = 0;
    while k < defined.len()
        invariant
            k <= defined@.len(),
            ps@ == imported@ + defined@.subrange(0, k as int).map_values(|l: Limits| l.min),
        decreases defined@.len() - k,
    {
        ps.push(defined[k].min);
        k = k + 1;
        proof {
            assert(ps@ =~= imported@ + defined@.subrange(0, k as int).map_values(|l: Limits| l.min));
        }
    }
    proof {
        assert(defined@.subrange(0, k as int) =~= defined@);
    }
    ps
}

/// The sizes of all tables: the imported ones, then the defined ones at their minimum.
pub open spec fn spec_table_sizes(imported: Seq<u32>, defined: Seq<TableType>) -> Seq<u32> {
    imported + defined.map_values(|t: TableType| t.limits.min)
}

fn table_sizes(imported: &Vec<u32>, defined: &Vec<TableType>) -> (r: Vec<u32>)
    ensures
        r@ == spec_table_sizes(imported@, defined@),
{
    let mut r = copy_u32s(imported);
    let mut i: usize = 0;
    while i < defined.len()
        invariant
            i <= defined@.len(),
            r@ == imported@ + defined@.subrange(0, i as int).map_values(|t: TableType| t.limits.min),
        decreases defined@.len() - i,
    {
        r.push(defined[i].limits.min);
        i = i + 1;
        proof {
            assert(r@ =~= imported@ + defined@.subrange(0, i as int).map_values(|t: TableType| t.limits.min));
        }
    }
    proof {
        assert(defined@.subrange(0, i as int) =~= defined@);
    }
    r
}

/// The offset of a segment: its initializer must be an `i32`, read as unsigned.
pub open spec fn segment_offset(c: ConstExpr, imported: Seq<Value>) -> Option<u32> {
    match eval_const(c, imported) {
        Some(Value::I32(o)) => Some(o as u32),
        _ => None,
    }
}

fn offset_of_segment(c: ConstExpr, imported: &Vec<Value>) -> (r: Option<u32>)
    ensures
        r == segment_offset(c, imported@),
{
    match evaluate_const(c, imported) {
        Some(Value::I32(o)) => Some(o as u32),
        _ => None,
    }
}

/// An element segment fits when its table exists and its offset is an
/// `i32` with room for all its functions in the table.
pub open spec fn elem_fits(e: Elem, sizes: Seq<u32>, imported: Seq<Value>) -> bool {
    e.table < sizes.len() && match segment_offset(e.offset, imported) {
        Some(o) => o + e.funcs_count <= sizes[e.table as int],
        None => false,
    }
}

/// A data segment fits when its memory exists and its offset is an `i32`
/// with room for all its bytes in the memory (64 KiB pages).
pub open spec fn data_fits(d: Data, pages: Seq<u32>, imported: Seq<Value>) -> bool {
    d.memory < pages.len() && match segment_offset(d.offset, imported) {
        Some(o) => o + d.bytes_len <= pages[d.memory as int] * 65536,
        None => false,
    }
}

/// The first `n` element segments fit; otherwise the first one that does not.
pub open spec fn spec_check_elems(elems: Seq<Elem>, sizes: Seq<u32>, imported: Seq<Value>, n: nat) -> Result<(), InstantiationError>
    decreases n,
{
    if n == 0 {
        Ok(())
    } else {
        match spec_check_elems(elems, sizes, imported, (n - 1) as nat) {
            Ok(()) => if elem_fits(elems[n - 1], sizes, imported) {
                Ok(())
            } else {
                Err(InstantiationError::ElemSegmentDoesNotFit((n - 1) as usize))
            },
            Err(e) => Err(e),
        }
    }
}

/// The first `n` data segments fit; otherwise the first one that does not.
pub open spec fn spec_check_datas(datas: Seq<Data>, pages: Seq<u32>, imported: Seq<Value>, n: nat) -> Result<(), InstantiationError>
    decreases n,
{
    if n == 0 {
        Ok(())
    } else {
        match spec_check_datas(datas, pages, imported, (n - 1) as nat) {
            Ok(()) => if data_fits(datas[n - 1], pages, imported) {
                Ok(())
            } else {
                Err(InstantiationError::DataSegmentDoesNotFit((n - 1) as usize))
            },
            Err(e) => Err(e),
        }
    }
}

proof fn lemma_elems_err(elems: Seq<Elem>, sizes: Seq<u32>, imported: Seq<Value>, i: nat, n: nat)
    requires
        i <= n,
        spec_check_elems(elems, sizes, imported, i) is Err,
    ensures
        spec_check_elems(elems, sizes, imported, n) == spec_check_elems(elems, sizes, imported, i),
    decreases n - i,
{
    if i < n {
        lemma_elems_err(elems, sizes, imported, i, (n - 1) as nat);
    }
}

proof fn lemma_datas_err(datas: Seq<Data>, pages: Seq<u32>, imported: Seq<Value>, i: nat, n: nat)
    requires
        i <= n,
        spec_check_datas(datas, pages, imported, i) is Err,
    ensures
        spec_check_datas(datas, pages, imported, n) == spec_check_datas(datas, pages, imported, i),
    decreases n - i,
{
    if i < n {
        lemma_datas_err(datas, pages, imported, i, (n - 1) as nat);
    }
}

fn check_elems(elems: &Vec<Elem>, sizes: &Vec<u32>, imported: &Vec<Value>) -> (r: Result<(), InstantiationError>)
    ensures
        r == spec_check_elems(elems@, sizes@, imported@, elems@.len()),
{
    let mut i: usize = 0;
    while i < elems.len()
        invariant
            i <= elems@.len(),
            spec_check_elems(elems@, sizes@, imported@, i as nat) == Ok::<(), InstantiationError>(()),
        decreases elems@.len() - i,
    {
        let e = elems[i];
        let fits = if (e.table as usize) < sizes.len() {
            match offset_of_segment(e.offset, imported) {
                Some(o) => (o as u64) + (e.funcs_count as u64) <= (sizes[e.table as usize] as u64),
                None => false,
            }
        } else {
            false
        };
        if !fits {
            proof {
                lemma_elems_err(elems@, sizes@, imported@, (i + 1) as nat, elems@.len());
            }
            return Err(InstantiationError::ElemSegmentDoesNotFit(i));
        }
        i = i + 1;
    }
    Ok(())
}

fn check_datas(datas: &Vec<Data>, pages: &Vec<u32>, imported: &Vec<Value>) -> (r: Result<(), InstantiationError>)
    ensures
        r == spec_check_datas(datas@, pages@, imported@, datas@.len()),
{
    let mut i: usize = 0;
    while i < datas.len()
        invariant
            i <= datas@.len(),
            spec_check_datas(datas@, pages@, imported@, i as nat) == Ok::<(), InstantiationError>(()),
        decreases datas@.len() - i,
    {
        let d = datas[i];
        let fits = if (d.memory as usize) < pages.len() {
            match offset_of_segment(d.offset, imported) {
                Some(o) => {
                    let limit: u64 = (pages[d.memory as usize] as u64) * 65536;
                    (o as u64) <= limit && (d.bytes_len as u64) <= limit - (o as u64)
                },
                None => false,
            }
        } else {
            false
        };
        if !fits {
            proof {
                lemma_datas_err(datas@, pages@, imported@, (i + 1) as nat, datas@.len());
            }
            return Err(InstantiationError::DataSegmentDoesNotFit(i));
        }
        i = i + 1;
    }
    Ok(())
}

/// An element segment as applied to a table: the function indices written
/// from `offset` on.
#[derive(Debug, Clone, PartialEq, Eq)]
pub struct ElemInit {
    pub table: u32,
    pub offset: u32,
    pub funcs: Vec<u32>,
}

pub struct ElemInitView {
    pub table: u32,
    pub offset: u32,
    pub funcs: Seq<u32>,
}

impl View for ElemInit {
    type V = ElemInitView;

    open spec fn view(&self) -> ElemInitView {
        ElemInitView { table: self.table, offset: self.offset, funcs: self.funcs@ }
    }
}

/// A data segment as applied to a memory: the bytes written from `offset` on.
#[derive(Debug, Clone, PartialEq, Eq)]
pub struct DataInit {
    pub memory: u32,
    pub offset: u32,
    pub bytes: Vec<u8>,
}

pub struct DataInitView {
    pub memory: u32,
    pub offset: u32,
    pub bytes: Seq<u8>,
}

impl View for DataInit {
    type V = DataInitView;

    open spec fn view(&self) -> DataInitView {
        DataInitView { memory: self.memory, offset: self.offset, bytes: self.bytes@ }
    }
}

/// The element segment as applied: its offset's value and its function
/// indices, decoded from the binary.
pub open spec fn elem_init(binary: Seq<u8>, e: Elem, imported: Seq<Value>) -> ElemInitView {
    ElemInitView {
        table: e.table,
        offset: match segment_offset(e.offset, imported) {
            Some(o) => o,
            None => 0,
        },
        funcs: match spec_vec::<U32Item>(binary, e.funcs_start, binary.len() as usize, e.funcs_count as nat) {
            Ok((fs, _)) => fs,
            Err(_) => Seq::empty(),
        },
    }
}

/// The data segment as applied: its offset's value and its bytes.
pub open spec fn data_init(binary: Seq<u8>, d: Data, imported: Seq<Value>) -> DataInitView {
    DataInitView {
        memory: d.memory,
        offset: match segment_offset(d.offset, imported) {
            Some(o) => o,
            None => 0,
        },
        bytes: binary.subrange(d.bytes_start as int, d.bytes_start + d.bytes_len),
    }
}

/// An instance as a mathematical value.
pub struct InstanceView {
    pub globals: Seq<Value>,
    pub memory_pages: Seq<u32>,
    pub table_sizes: Seq<u32>,
    pub elems: Seq<ElemInitView>,
    pub datas: Seq<DataInitView>,
    pub start: Option<u32>,
}

/// An instantiated module: the values of its globals, the sizes of its
/// memories and tables, the segments written into them, and its start
/// function.
pub struct Instance {
    globals: Vec<Value>,
    memory_pages: Vec<u32>,
    table_sizes: Vec<u32>,
    elems: Vec<ElemInit>,
    datas: Vec<DataInit>,
    start: Option<u32>,
}

impl View for Instance {
    type V = InstanceView;

    closed spec fn view(&self) -> InstanceView {
        InstanceView {
            globals: self.globals@,
            memory_pages: self.memory_pages@,
            table_sizes: self.table_sizes@,
            elems: self.elems@.map_values(|e: ElemInit| e@),
            datas: self.datas@.map_values(|d: DataInit| d@),
            start: self.start,
        }
    }
}

/// Whether every offered value belongs to the store `store`.
pub open spec fn all_in_store(es: Seq<ImportEntryView>, store: u64) -> bool {
    forall|j: int| 0 <= j < es.len() ==> (#[trigger] es[j]).store == store
}

/// Instantiating a decoded module in the store `store` against offered
/// imports: every offered value must belong to that store; then the
/// module is linked.
pub open spec fn spec_instantiate(binary: Seq<u8>, m: ModuleSpec, store: u64, es: Seq<ImportEntryView>) -> Result<InstanceView, InstantiationError> {
    if !all_in_store(es, store) {
        Err(InstantiationError::DifferentStores)
    } else {
        spec_link(binary, m, es)
    }
}

/// Linking a decoded module against offered imports: resolve the imports;
/// evaluate the globals; size the memories and tables; check that every
/// element and data segment fits. The instance holds the results and the
/// module's start function.
pub open spec fn spec_link(binary: Seq<u8>, m: ModuleSpec, es: Seq<ImportEntryView>) -> Result<InstanceView, InstantiationError> {
    match spec_resolve(binary, m, es, m.imports.len()) {
        Err(e) => Err(e),
        Ok(exts) => {
            let ig = imported_globals(exts);
            match spec_globals(m.globals, ig, m.globals.len()) {
                Err(e) => Err(e),
                Ok(gs) => {
                    let pages = spec_memory_pages(imported_memory_pages(exts), m.memories);
                    let sizes = spec_table_sizes(imported_table_sizes(exts), m.tables);
                    match spec_check_elems(m.elems, sizes, ig, m.elems.len()) {
                        Err(e) => Err(e),
                        Ok(()) => match spec_check_datas(m.datas, pages, ig, m.datas.len()) {
                            Err(e) => Err(e),
                            Ok(()) => Ok(InstanceView {
                                globals: gs,
                                memory_pages: pages,
                                table_sizes: sizes,
                                elems: m.elems.map_values(|e: Elem| elem_init(binary, e, ig)),
                                datas: m.datas.map_values(|d: Data| data_init(binary, d, ig)),
                                start: m.start,
                            }),
                        },
                    }
                },
            }
        },
    }
}

fn elem_inits(binary: &[u8], info: &ModuleInfo, imported: &Vec<Value>) -> (r: Vec<ElemInit>)
    requires
        ranges_within(binary@, info@, binary@.len() as usize),
        binary@.len() <= usize::MAX,
    ensures
        r@.map_values(|e: ElemInit| e@) == info@.elems.map_values(|e: Elem| elem_init(binary@, e, imported@)),
{
    let mut r: Vec<ElemInit> = Vec::new();
    let mut i: usize = 0;
    while i < info.elems.len()
        invariant
            ranges_within(binary@, info@, binary@.len() as usize),
            binary@.len() <= usize::MAX,
            i <= info@.elems.len(),
            r@.len() == i,
            r@.map_values(|e: ElemInit| e@) == info@.elems.subrange(0, i as int).map_values(|e: Elem| elem_init(binary@, e, imported@)),
        decreases info@.elems.len() - i,
    {
        let e = info.elems[i];
        assert(ElemItem::within(binary@, info@.elems[i as int], binary@.len() as usize));
        let offset = match offset_of_segment(e.offset, imported) {
            Some(o) => o,
            None => 0,
        };
        let funcs = match read_vec::<U32Item>(binary, e.funcs_start, binary.len(), e.funcs_count) {
            Ok((fs, _)) => fs,
            Err(_) => {
                proof {
                    assert(false);
                }
                Vec::new()
            },
        };
        let ghost before = r@;
        let ghost old_i = i as int;
        r.push(ElemInit { table: e.table, offset, funcs });
        i = i + 1;
        proof {
            let lhs = r@.map_values(|e: ElemInit| e@);
            let rhs = info@.elems.subrange(0, i as int).map_values(|e: Elem| elem_init(binary@, e, imported@));
            let prev = info@.elems.subrange(0, old_i).map_values(|e: Elem| elem_init(binary@, e, imported@));
            assert(r@[old_i]@ == elem_init(binary@, info@.elems[old_i], imported@));
            assert forall|k: int| 0 <= k < lhs.len() implies lhs[k] == rhs[k] by {
                if k < old_i {
                    assert(r@[k] == before[k]);
                    assert(before.map_values(|e: ElemInit| e@)[k] == prev[k]);
                }
            }
            assert(lhs =~= rhs);
        }
    }
    proof {
        assert(info@.elems.subrange(0, i as int) =~= info@.elems);
    }
    r
}

fn data_inits(binary: &[u8], info: &ModuleInfo, imported: &Vec<Value>) -> (r: Vec<DataInit>)
    requires
        ranges_within(binary@, info@, binary@.len() as usize),
        binary@.len() <= usize::MAX,
    ensures
        r@.map_values(|d: DataInit| d@) == info@.datas.map_values(|d: Data| data_init(binary@, d, imported@)),
{
    let mut r: Vec<DataInit> = Vec::new();
    let mut i: usize = 0;
    while i < info.datas.len()
        invariant
            ranges_within(binary@, info@, binary@.len() as usize),
            binary@.len() <= usize::MAX,
            i <= info@.datas.len(),
            r@.len() == i,
            r@.map_values(|d: DataInit| d@) == info@.datas.subrange(0, i as int).map_values(|d: Data| data_init(binary@, d, imported@)),
        decreases info@.datas.len() - i,
    {
        let d = info.datas[i];
        assert(DataItem::within(binary@, info@.datas[i as int], binary@.len() as usize));
        let offset = match offset_of_segment(d.offset, imported) {
            Some(o) => o,
            None => 0,
        };
        let bytes = copy_range(binary, d.bytes_start, d.bytes_len);
        let ghost before = r@;
        let ghost old_i = i as int;
        r.push(DataInit { memory: d.memory, offset, bytes });
        i = i + 1;
        proof {
            let lhs = r@.map_values(|d: DataInit| d@);
            let rhs = info@.datas.subrange(0, i as int).map_values(|d: Data| data_init(binary@, d, imported@));
            let prev = info@.datas.subrange(0, old_i).map_values(|d: Data| data_init(binary@, d, imported@));
            assert(r@[old_i]@ == data_init(binary@, info@.datas[old_i], imported@));
            assert forall|k: int| 0 <= k < lhs.len() implies lhs[k] == rhs[k] by {
                if k < old_i {
                    assert(r@[k] == before[k]);
                    assert(before.map_values(|d: DataInit| d@)[k] == prev[k]);
                }
            }
            assert(lhs =~= rhs);
        }
    }
    proof {
        assert(info@.datas.subrange(0, i as int) =~= info@.datas);
    }
    r
}

/// Why running an instance failed.
#[derive(Debug, Clone, Copy, PartialEq, Eq, Structural)]
pub enum RuntimeError {
    /// The instance has a start function (at this function index), and this
    /// library has no engine that executes function bodies.
    StartFunctionNotExecuted(u32),
}

/// What starting an instance yields: nothing to do without a start
/// function; a start function cannot be executed here.
pub open spec fn spec_start(i: InstanceView) -> Result<(), RuntimeError> {
    match i.start {
        None => Ok(()),
        Some(f) => Err(RuntimeError::StartFunctionNotExecuted(f)),
    }
}

/// The byte at `addr` of memory `mem` after the data segments are written
/// in order: the last segment that covers it decides, else zero.
pub open spec fn spec_memory_byte(datas: Seq<DataInitView>, mem: u32, addr: int) -> u8
    decreases datas.len(),
{
    if datas.len() == 0 {
        0
    } else {
        let d = datas.last();
        if d.memory == mem && d.offset <= addr < d.offset + d.bytes.len() {
            d.bytes[addr - d.offset]
        } else {
            spec_memory_byte(datas.drop_last(), mem, addr)
        }
    }
}

/// The function at `idx` of table `table` after the element segments are
/// written in order: the last segment that covers it decides, else none.
pub open spec fn spec_table_element(elems: Seq<ElemInitView>, table: u32, idx: int) -> Option<u32>
    decreases elems.len(),
{
    if elems.len() == 0 {
        None
    } else {
        let e = elems.last();
        if e.table == table && e.offset <= idx < e.offset + e.funcs.len() {
            Some(e.funcs[idx - e.offset])
        } else {
            spec_table_element(elems.drop_last(), table, idx)
        }
    }
}

impl Instance {
    /// The value of the global at `index`.
    pub fn global(&self, index: usize) -> (r: Option<Value>)
        ensures
            r == (if index < self@.globals.len() { Some(self@.globals[index as int]) } else { None::<Value> }),
    {
        if index < self.globals.len() {
            Some(self.globals[index])
        } else {
            None
        }
    }

    /// The size in pages of the memory at `index`.
    pub fn memory_pages(&self, index: usize) -> (r: Option<u32>)
        ensures
            r == (if index < self@.memory_pages.len() { Some(self@.memory_pages[index as int]) } else { None::<u32> }),
    {
        if index < self.memory_pages.len() {
            Some(self.memory_pages[index])
        } else {
            None
        }
    }

    /// The size of the table at `index`.
    pub fn table_size(&self, index: usize) -> (r: Option<u32>)
        ensures
            r == (if index < self@.table_sizes.len() { Some(self@.table_sizes[index as int]) } else { None::<u32> }),
    {
        if index < self.table_sizes.len() {
            Some(self.table_sizes[index])
        } else {
            None
        }
    }

    /// The byte at `address` of memory `memory`, if the memory exists and
    /// the address is within it.
    pub fn memory_byte(&self, memory: u32, address: u64) -> (r: Option<u8>)
        ensures
            r == (if memory < self@.memory_pages.len() && address < self@.memory_pages[memory as int] * 65536 {
                Some(spec_memory_byte(self@.datas, memory, address as int))
            } else {
                None::<u8>
            }),
    {
        if (memory as usize) >= self.memory_pages.len() || address >= (self.memory_pages[memory as usize] as u64) * 65536 {
            return None;
        }
        let ghost dv = self.datas@.map_values(|d: DataInit| d@);
        let mut i: usize = self.datas.len();
        proof {
            assert(dv.subrange(0, i as int) =~= dv);
        }
        while i > 0
            invariant
                dv == self.datas@.map_values(|d: DataInit| d@),
                i <= self.datas@.len(),
                memory < self@.memory_pages.len(),
                address < self@.memory_pages[memory as int] * 65536,
                spec_memory_byte(dv, memory, address as int) == spec_memory_byte(dv.subrange(0, i as int), memory, address as int),
            decreases i,
        {
            let ghost sub = dv.subrange(0, i as int);
            assert(sub.drop_last() =~= dv.subrange(0, i - 1));
            assert(sub.last() == self.datas@[i - 1]@);
            i = i - 1;
            let d = &self.datas[i];
            if d.memory == memory && (d.offset as u64) <= address && address - (d.offset as u64) < (d.bytes.len() as u64) {
                let k = (address - d.offset as u64) as usize;
                proof {
                    assert(k == address - d.offset);
                    assert(spec_memory_byte(sub, memory, address as int) == d@.bytes[address - d.offset]);
                    assert(self@.datas == dv);
                }
                return Some(d.bytes[k]);
            }
        }
        Some(0)
    }

    /// The function stored at `index` of table `table`, if the table exists
    /// and the index is within it (`Some(None)` for an empty slot).
    pub fn table_element(&self, table: u32, index: u32) -> (r: Option<Option<u32>>)
        ensures
            r == (if table < self@.table_sizes.len() && index < self@.table_sizes[table as int] {
                Some(spec_table_element(self@.elems, table, index as int))
            } else {
                None::<Option<u32>>
            }),
    {
        if (table as usize) >= self.table_sizes.len() || index >= self.table_sizes[table as usize] {
            return None;
        }
        let ghost ev = self.elems@.map_values(|e: ElemInit| e@);
        let mut i: usize = self.elems.len();
        proof {
            assert(ev.subrange(0, i as int) =~= ev);
        }
        while i > 0
            invariant
                ev == self.elems@.map_values(|e: ElemInit| e@),
                i <= self.elems@.len(),
                table < self@.table_sizes.len(),
                index < self@.table_sizes[table as int],
                spec_table_element(ev, table, index as int) == spec_table_element(ev.subrange(0, i as int), table, index as int),
            decreases i,
        {
            let ghost sub = ev.subrange(0, i as int);
            assert(sub.drop_last() =~= ev.subrange(0, i - 1));
            assert(sub.last() == self.elems@[i - 1]@);
            i = i - 1;
            let e = &self.elems[i];
            if e.table == table && e.offset <= index && ((index - e.offset) as usize) < e.funcs.len() {
                let k = (index - e.offset) as usize;
                proof {
                    assert(k == index - e.offset);
                    assert(spec_table_element(sub, table, index as int) == Some(e@.funcs[index - e.offset]));
                    assert(self@.elems == ev);
                }
                return Some(Some(e.funcs[k]));
            }
        }
        Some(None)
    }

    /// Runs the start function, if the instance has one.
    pub fn start(&self) -> (r: Result<(), RuntimeError>)
        ensures
            r == spec_start(self@),
    {
        match self.start {
            None => Ok(()),
            Some(f) => Err(RuntimeError::StartFunctionNotExecuted(f)),
        }
    }
}

impl Module {
    /// Instantiates the module in the store `store` against the values that
    /// `imports` offers, which must all belong to that store.
    pub fn instantiate(&self, store: u64, imports: &ImportObject) -> (r: Result<Instance, InstantiationError>)
        ensures
            match r {
                Ok(i) => spec_instantiate(self.spec_binary(), self.spec_info(), store, entries_view(imports.entries@)) == Ok::<InstanceView, InstantiationError>(i@),
                Err(e) => spec_instantiate(self.spec_binary(), self.spec_info(), store, entries_view(imports.entries@)) == Err::<InstanceView, InstantiationError>(e),
            },
    {
        let mut j: usize = 0;
        while j < imports.entries.len()
            invariant
                j <= imports.entries@.len(),
                forall|k: int| 0 <= k < j ==> (#[trigger] entries_view(imports.entries@)[k]).store == store,
            decreases imports.entries@.len() - j,
        {
            if imports.entries[j].store != store {
                assert(entries_view(imports.entries@)[j as int].store != store);
                return Err(InstantiationError::DifferentStores);
            }
            j = j + 1;
        }
        self.lemma_wf();
        let binary = self.binary();
        let info = self.info();
        let exts = resolve_imports(binary, info, imports)?;
        let st = imported_state(&exts);
        let globals = evaluate_globals(&info.globals, &st.globals)?;
        let pages = memory_pages(&st.memory_pages, &info.memories);
        let sizes = table_sizes(&st.table_sizes, &info.tables);
        check_elems(&info.elems, &sizes, &st.globals)?;
        check_datas(&info.datas, &pages, &st.globals)?;
        let elems = elem_inits(binary, info, &st.globals);
        let datas = data_inits(binary, info, &st.globals);
        let inst = Instance { globals, memory_pages: pages, table_sizes: sizes, elems, datas, start: info.start };
        Ok(inst)
    }
}

/// A value of another store among those offered makes instantiation fail
/// for that reason, whatever the module.
pub proof fn law_foreign_value_refused(binary: Seq<u8>, m: ModuleSpec, store: u64, es: Seq<ImportEntryView>, j: int)
    requires
        0 <= j < es.len(),
        es[j].store != store,
    ensures
        spec_instantiate(binary, m, store, es) == Err::<InstanceView, InstantiationError>(InstantiationError::DifferentStores),
{
}

/// A byte that no data segment writes reads as zero.
pub proof fn law_unwritten_byte_is_zero(datas: Seq<DataInitView>, mem: u32, addr: int)
    requires
        forall|k: int| 0 <= k < datas.len() ==> !(#[trigger] datas[k].memory == mem
            && datas[k].offset <= addr < datas[k].offset + datas[k].bytes.len()),
    ensures
        spec_memory_byte(datas, mem, addr) == 0,
    decreases datas.len(),
{
    if datas.len() > 0 {
        let prev = datas.drop_last();
        assert forall|k: int| 0 <= k < prev.len() implies !(#[trigger] prev[k].memory == mem
            && prev[k].offset <= addr < prev[k].offset + prev[k].bytes.len()) by {
            assert(prev[k] == datas[k]);
        }
        let l = datas.len() - 1;
        assert(!(datas[l].memory == mem && datas[l].offset <= addr < datas[l].offset + datas[l].bytes.len()));
        law_unwritten_byte_is_zero(prev, mem, addr);
    }
}

/// A byte that the last data segment writes reads as that segment's byte.
pub proof fn law_last_segment_wins(datas: Seq<DataInitView>, mem: u32, addr: int)
    requires
        datas.len() > 0,
        datas.last().memory == mem,
        datas.last().offset <= addr < datas.last().offset + datas.last().bytes.len(),
    ensures
        spec_memory_byte(datas, mem, addr) == datas.last().bytes[addr - datas.last().offset],
{
}

} // verus!

verus! {

/// The memories that a module defines come after the imported ones in an
/// instance, each at its declared minimum number of pages.
pub proof fn law_defined_memories_at_minimum(binary: Seq<u8>, m: ModuleSpec, store: u64, es: Seq<ImportEntryView>)
    ensures
        spec_instantiate(binary, m, store, es) matches Ok(i) ==> {
            &&& i.memory_pages.len() >= m.memories.len()
            &&& forall|k: int| 0 <= k < m.memories.len()
                ==> #[trigger] i.memory_pages[i.memory_pages.len() - m.memories.len() + k] == m.memories[k].min
        },
{
    if let Ok(i) = spec_instantiate(binary, m, store, es) {
        let exts = spec_resolve(binary, m, es, m.imports.len())->Ok_0;
        let imported = imported_memory_pages(exts);
        assert(i.memory_pages == imported + m.memories.map_values(|l: Limits| l.min));
        assert forall|k: int| 0 <= k < m.memories.len()
            implies #[trigger] i.memory_pages[i.memory_pages.len() - m.memories.len() + k] == m.memories[k].min by {
            assert(i.memory_pages[imported.len() + k] == m.memories[k].min);
        }
    }
}

} // verus!
