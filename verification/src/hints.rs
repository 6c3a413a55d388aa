use vstd::prelude::*;
use crate::types::{FuncType, Import, ImportDesc, Export, ExternKind, ModuleInfo, ModuleSpec};
use crate::reader::Item;
use crate::items::{FuncTypeItem, valtypes_at, valtypes_from};
use crate::decode::ranges_within;
use crate::validate::{
    spec_validate, types_known, functions_known, tables_known, memories_known, globals_known,
    imported_func_types, func_space, table_space, memory_space, global_space, spaces,
};
use crate::module::{
    ExternType, ExternTypeView, FunctionType, MemoryType, ModuleTypeHints, extern_types_view, extern_type_kind,
    import_kinds, export_kinds, first_kind_mismatch, spec_check_hints,
};

verus! {

/// A function type of the module as an extern type.
pub open spec fn func_type_view(s: Seq<u8>, t: FuncType) -> ExternTypeView {
    ExternTypeView::Function {
        params: valtypes_at(s, t.params_start as int, t.params_end as int),
        results: valtypes_at(s, t.results_start as int, t.results_end as int),
    }
}

/// The type that an import declares; an imported memory is not shared.
pub open spec fn import_type_of(s: Seq<u8>, m: ModuleSpec, imp: Import) -> ExternTypeView {
    match imp.desc {
        ImportDesc::Function(t) => func_type_view(s, m.types[t as int]),
        ImportDesc::Table(tt) => ExternTypeView::Table(tt),
        ImportDesc::Memory(l) => ExternTypeView::Memory(MemoryType { limits: l, shared: false }),
        ImportDesc::Global(g) => ExternTypeView::Global(g),
    }
}

/// The type of what an export names, looked up in the module's index
/// spaces; a memory is not shared.
pub open spec fn export_type_of(s: Seq<u8>, m: ModuleSpec, e: Export) -> ExternTypeView {
    match e.kind {
        ExternKind::Function => func_type_view(s, m.types[func_space(m.imports, m.funcs)[e.index as int] as int]),
        ExternKind::Table => ExternTypeView::Table(table_space(m.imports, m.tables)[e.index as int]),
        ExternKind::Memory => ExternTypeView::Memory(
            MemoryType { limits: memory_space(m.imports, m.memories)[e.index as int], shared: false },
        ),
        ExternKind::Global => ExternTypeView::Global(global_space(m.imports, m.globals)[e.index as int]),
    }
}

/// The types of a module's imports and of its exports, in their order.
pub open spec fn spec_module_hints(s: Seq<u8>, m: ModuleSpec) -> (Seq<ExternTypeView>, Seq<ExternTypeView>) {
    (
        m.imports.map_values(|imp: Import| import_type_of(s, m, imp)),
        m.exports.map_values(|e: Export| export_type_of(s, m, e)),
    )
}

/// The type index of an imported function is among the imported functions'.
proof fn lemma_import_func_type(imps: Seq<Import>, i: int)
    requires
        0 <= i < imps.len(),
        imps[i].desc is Function,
    ensures
        exists|k: int| 0 <= k < imported_func_types(imps).len()
            && #[trigger] imported_func_types(imps)[k] == imps[i].desc->Function_0,
    decreases imps.len(),
{
    let prev = imps.drop_last();
    if i == imps.len() - 1 {
        let k = imported_func_types(prev).len() as int;
        assert(imported_func_types(imps)[k] == imps[i].desc->Function_0);
    } else {
        assert(prev[i] == imps[i]);
        lemma_import_func_type(prev, i);
        let k = choose|k: int| 0 <= k < imported_func_types(prev).len()
            && #[trigger] imported_func_types(prev)[k] == prev[i].desc->Function_0;
        assert(imported_func_types(imps)[k] == imported_func_types(prev)[k]);
    }
}

/// A function type of the module as an extern type.
fn func_type_of(s: &[u8], t: FuncType) -> (r: ExternType)
    requires
        FuncTypeItem::within(s@, t, s@.len() as usize),
        s@.len() <= usize::MAX,
    ensures
        r@ == func_type_view(s@, t),
{
    let params = valtypes_from(s, t.params_start, t.params_end);
    let results = valtypes_from(s, t.results_start, t.results_end);
    ExternType::Function(FunctionType { params, results })
}

/// Computes the types of a valid module's imports and exports.
pub fn module_type_hints(s: &[u8], info: &ModuleInfo) -> (r: ModuleTypeHints)
    requires
        ranges_within(s@, info@, s@.len() as usize),
        s@.len() <= usize::MAX,
        spec_validate(s@, info@) is Ok,
    ensures
        extern_types_view(r.imports@) == spec_module_hints(s@, info@).0,
        extern_types_view(r.exports@) == spec_module_hints(s@, info@).1,
{
    let ghost m = info@;
    let ghost hv = spec_module_hints(s@, m);
    let sp = spaces(info);
    assert(types_known(m));
    assert(functions_known(s@, m));
    assert(tables_known(m));
    assert(memories_known(m));
    assert(globals_known(m));
    let mut imports: Vec<ExternType> = Vec::new();
    let mut i: usize = 0;
    while i < info.imports.len()
        invariant
            m == info@,
            hv == spec_module_hints(s@, m),
            ranges_within(s@, m, s@.len() as usize),
            s@.len() <= usize::MAX,
            types_known(m),
            i <= m.imports.len(),
            imports@.len() == i,
            hv.0.len() == m.imports.len(),
            extern_types_view(imports@) == hv.0.take(i as int),
        decreases m.imports.len() - i,
    {
        let ty = match info.imports[i].desc {
            ImportDesc::Function(t) => {
                proof {
                    lemma_import_func_type(m.imports, i as int);
                    let k = choose|k: int| 0 <= k < imported_func_types(m.imports).len()
                        && #[trigger] imported_func_types(m.imports)[k] == t;
                    assert(func_space(m.imports, m.funcs)[k] == t);
                }
                assert(FuncTypeItem::within(s@, m.types[t as int], s@.len() as usize));
                func_type_of(s, info.types[t as usize])
            },
            ImportDesc::Table(tt) => ExternType::Table(tt),
            ImportDesc::Memory(l) => ExternType::Memory(MemoryType { limits: l, shared: false }),
            ImportDesc::Global(g) => ExternType::Global(g),
        };
        assert(ty@ == hv.0[i as int]);
        let ghost before = imports@;
        imports.push(ty);
        i = i + 1;
        proof {
            assert forall|k: int| 0 <= k < i implies #[trigger] extern_types_view(imports@)[k] == hv.0.take(i as int)[k] by {
                if k < i - 1 {
                    assert(imports@[k] == before[k]);
                    assert(extern_types_view(before)[k] == hv.0.take(i - 1)[k]);
                }
            }
            assert(extern_types_view(imports@) =~= hv.0.take(i as int));
        }
    }
    let mut exports: Vec<ExternType> = Vec::new();
    let mut i: usize = 0;
    while i < info.exports.len()
        invariant
            m == info@,
            hv == spec_module_hints(s@, m),
            ranges_within(s@, m, s@.len() as usize),
            s@.len() <= usize::MAX,
            types_known(m),
            functions_known(s@, m),
            tables_known(m),
            memories_known(m),
            globals_known(m),
            sp.funcs@ == func_space(m.imports, m.funcs),
            sp.tables@ == table_space(m.imports, m.tables),
            sp.memories@ == memory_space(m.imports, m.memories),
            sp.globals@ == global_space(m.imports, m.globals),
            i <= m.exports.len(),
            exports@.len() == i,
            hv.1.len() == m.exports.len(),
            extern_types_view(exports@) == hv.1.take(i as int),
        decreases m.exports.len() - i,
    {
        let e = info.exports[i];
        assert(m.exports[i as int] == e);
        let ty = match e.kind {
            ExternKind::Function => {
                let t = sp.funcs[e.index as usize];
                assert(FuncTypeItem::within(s@, m.types[t as int], s@.len() as usize));
                func_type_of(s, info.types[t as usize])
            },
            ExternKind::Table => ExternType::Table(sp.tables[e.index as usize]),
            ExternKind::Memory => ExternType::Memory(MemoryType { limits: sp.memories[e.index as usize], shared: false }),
            ExternKind::Global => ExternType::Global(sp.globals[e.index as usize]),
        };
        assert(ty@ == hv.1[i as int]);
        let ghost before = exports@;
        exports.push(ty);
        i = i + 1;
        proof {
            assert forall|k: int| 0 <= k < i implies #[trigger] extern_types_view(exports@)[k] == hv.1.take(i as int)[k] by {
                if k < i - 1 {
                    assert(exports@[k] == before[k]);
                    assert(extern_types_view(before)[k] == hv.1.take(i - 1)[k]);
                }
            }
            assert(extern_types_view(exports@) =~= hv.1.take(i as int));
        }
    }
    proof {
        assert(hv.0.take(m.imports.len() as int) =~= hv.0);
        assert(hv.1.take(m.exports.len() as int) =~= hv.1);
    }
    ModuleTypeHints { imports, exports }
}

/// The type indices of the functions imported before position `n` come
/// first among those of all imported functions.
proof fn lemma_imported_func_types_prefix(imps: Seq<Import>, n: int)
    requires
        0 <= n <= imps.len(),
    ensures
        imported_func_types(imps.take(n)).len() <= imported_func_types(imps).len(),
        forall|k: int| 0 <= k < imported_func_types(imps.take(n)).len()
            ==> #[trigger] imported_func_types(imps)[k] == imported_func_types(imps.take(n))[k],
    decreases imps.len(),
{
    if n == imps.len() {
        assert(imps.take(n) =~= imps);
    } else {
        let prev = imps.drop_last();
        assert(prev.take(n) =~= imps.take(n));
        lemma_imported_func_types_prefix(prev, n);
    }
}

/// An export of an imported function has the type that the import declares.
pub proof fn law_exported_import_type(s: Seq<u8>, m: ModuleSpec, j: int, i: int)
    requires
        0 <= j < m.imports.len(),
        m.imports[j].desc is Function,
        0 <= i < m.exports.len(),
        m.exports[i].kind == ExternKind::Function,
        m.exports[i].index == imported_func_types(m.imports.take(j)).len(),
    ensures
        spec_module_hints(s, m).1[i] == spec_module_hints(s, m).0[j],
{
    let t = m.imports[j].desc->Function_0;
    let before = m.imports.take(j);
    let upto = m.imports.take(j + 1);
    assert(upto.drop_last() =~= before);
    assert(imported_func_types(upto) == imported_func_types(before).push(t));
    lemma_imported_func_types_prefix(m.imports, j + 1);
    let k = imported_func_types(before).len() as int;
    assert(imported_func_types(m.imports)[k] == imported_func_types(upto)[k]);
    assert(func_space(m.imports, m.funcs)[k] == t);
}

/// The types computed for a module are of the kinds it declares.
pub proof fn law_module_types_fit(s: Seq<u8>, m: ModuleSpec)
    ensures
        spec_check_hints(m, spec_module_hints(s, m).0, spec_module_hints(s, m).1) is Ok,
{
    let (hi, he) = spec_module_hints(s, m);
    assert forall|i: int| 0 <= i < hi.len() implies extern_type_kind(#[trigger] hi[i]) == import_kinds(m)[i] by {
    }
    assert forall|i: int| 0 <= i < he.len() implies extern_type_kind(#[trigger] he[i]) == export_kinds(m)[i] by {
    }
    assert(first_kind_mismatch(hi, import_kinds(m)) is None);
    assert(first_kind_mismatch(he, export_kinds(m)) is None);
}

} // verus!

verus! {

/// Each import's type is the one it declares: a table or global of its
/// declared type, a memory of its declared limits (not shared), a function
/// of the parameter and result types of its declared type.
pub proof fn law_import_types(s: Seq<u8>, m: ModuleSpec, i: int)
    requires
        0 <= i < m.imports.len(),
    ensures
        spec_module_hints(s, m).0.len() == m.imports.len(),
        m.imports[i].desc matches ImportDesc::Memory(l)
            ==> spec_module_hints(s, m).0[i] == ExternTypeView::Memory(MemoryType { limits: l, shared: false }),
        m.imports[i].desc matches ImportDesc::Table(t) ==> spec_module_hints(s, m).0[i] == ExternTypeView::Table(t),
        m.imports[i].desc matches ImportDesc::Global(g) ==> spec_module_hints(s, m).0[i] == ExternTypeView::Global(g),
        m.imports[i].desc matches ImportDesc::Function(t) ==> spec_module_hints(s, m).0[i] == (ExternTypeView::Function {
            params: valtypes_at(s, m.types[t as int].params_start as int, m.types[t as int].params_end as int),
            results: valtypes_at(s, m.types[t as int].results_start as int, m.types[t as int].results_end as int),
        }),
{
}

/// An export of a memory or table that the module defines itself has the
/// declared limits of that definition (a memory is not shared).
pub proof fn law_defined_export_types(s: Seq<u8>, m: ModuleSpec, i: int)
    requires
        0 <= i < m.exports.len(),
    ensures
        ({
            let e = m.exports[i];
            let nm = memory_space(m.imports, m.memories).len() - m.memories.len();
            e.kind == ExternKind::Memory && nm <= e.index < memory_space(m.imports, m.memories).len()
                ==> spec_module_hints(s, m).1[i] == ExternTypeView::Memory(
                    MemoryType { limits: m.memories[e.index - nm], shared: false },
                )
        }),
        ({
            let e = m.exports[i];
            let nt = table_space(m.imports, m.tables).len() - m.tables.len();
            e.kind == ExternKind::Table && nt <= e.index < table_space(m.imports, m.tables).len()
                ==> spec_module_hints(s, m).1[i] == ExternTypeView::Table(m.tables[e.index - nt])
        }),
{
}

} // verus!
