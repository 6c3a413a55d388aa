use vstd::prelude::*;
use crate::types::{ValType, Limits, TableType, GlobalType, ModuleSpec};
use crate::module::{Module, CompileError, FunctionType, MemoryType, spec_compile};
use crate::hints::spec_module_hints;
use crate::names::spec_module_name;
use crate::instance::{
    Instance, InstanceView, ImportObject, ImportEntry, ImportEntryView, Extern, ExternView, Value,
    InstantiationError, entries_view, spec_instantiate,
};

verus! {

/// Compiles a binary into a module; fails exactly when it is not a
/// well-formed, valid module.
pub fn compile(buffer_source: Vec<u8>) -> (r: Result<Module, CompileError>)
    ensures
        match r {
            Ok(m) => spec_compile(buffer_source@) == Ok::<ModuleSpec, CompileError>(m.spec_info())
                && m.spec_binary() == buffer_source@
                && m.spec_name() == spec_module_name(buffer_source@, m.spec_info().customs)
                && m.spec_type_hints() == Some(spec_module_hints(buffer_source@, m.spec_info())),
            Err(e) => spec_compile(buffer_source@) == Err::<ModuleSpec, CompileError>(e),
        },
{
    Module::from_binary(buffer_source.as_slice())
}

/// Why compiling and instantiating a binary failed.
#[derive(Debug, Clone, Copy, PartialEq, Eq, Structural)]
pub enum Error {
    CompileError(CompileError),
    InstantiationError(InstantiationError),
}

/// A compiled module and an instance of it.
pub struct ResultObject {
    pub module: Module,
    pub instance: Instance,
}

/// The store that `instantiate` instantiates in, and that the values of
/// `spectest_importobject` belong to.
pub const DEFAULT_STORE: u64 = 0;

/// Compiles a binary and instantiates the module in `DEFAULT_STORE`
/// against `import_object`.
pub fn instantiate(buffer_source: Vec<u8>, import_object: ImportObject) -> (r: Result<ResultObject, Error>)
    ensures
        match r {
            Ok(ro) => spec_compile(buffer_source@) == Ok::<ModuleSpec, CompileError>(ro.module.spec_info())
                && ro.module.spec_binary() == buffer_source@
                && spec_instantiate(buffer_source@, ro.module.spec_info(), DEFAULT_STORE, entries_view(import_object.entries@))
                    == Ok::<InstanceView, InstantiationError>(ro.instance@),
            Err(Error::CompileError(e)) => spec_compile(buffer_source@) == Err::<ModuleSpec, CompileError>(e),
            Err(Error::InstantiationError(e)) => match spec_compile(buffer_source@) {
                Ok(m) => spec_instantiate(buffer_source@, m, DEFAULT_STORE, entries_view(import_object.entries@))
                    == Err::<InstanceView, InstantiationError>(e),
                Err(_) => false,
            },
        },
{
    let module = match compile(buffer_source) {
        Ok(m) => m,
        Err(e) => {
            return Err(Error::CompileError(e));
        },
    };
    let instance = match module.instantiate(DEFAULT_STORE, &import_object) {
        Ok(i) => i,
        Err(e) => {
            return Err(Error::InstantiationError(e));
        },
    };
    Ok(ResultObject { module, instance })
}

} // verus!

verus! {

/// The bytes of the module name `spectest`.
pub open spec fn spectest_module() -> Seq<u8> {
    seq![115u8, 112, 101, 99, 116, 101, 115, 116]
}

fn spectest_module_name() -> (r: Vec<u8>)
    ensures
        r@ == spectest_module(),
{
    let r = vec![115u8, 112, 101, 99, 116, 101, 115, 116];
    proof {
        assert(r@ =~= spectest_module());
    }
    r
}

} // verus!

verus! {

/// What the `spectest` host module offers: printing functions of several
/// signatures (no results), constant globals of each type holding 666
/// (666.6 for the floats, as bits), a table of 10 to 20 functions and a
/// memory of 1 to 2 pages.
pub open spec fn spectest_entries() -> Seq<ImportEntryView> {
    seq![
        ImportEntryView {
            module: spectest_module(),
            name: seq![112u8, 114, 105, 110, 116],
            value: ExternView::Function { params: Seq::<ValType>::empty(), results: Seq::<ValType>::empty() },
            store: DEFAULT_STORE,
        },
        ImportEntryView {
            module: spectest_module(),
            name: seq![112u8, 114, 105, 110, 116, 95, 105, 51, 50],
            value: ExternView::Function { params: seq![ValType::I32], results: Seq::<ValType>::empty() },
            store: DEFAULT_STORE,
        },
        ImportEntryView {
            module: spectest_module(),
            name: seq![112u8, 114, 105, 110, 116, 95, 105, 54, 52],
            value: ExternView::Function { params: seq![ValType::I64], results: Seq::<ValType>::empty() },
            store: DEFAULT_STORE,
        },
        ImportEntryView {
            module: spectest_module(),
            name: seq![112u8, 114, 105, 110, 116, 95, 102, 51, 50],
            value: ExternView::Function { params: seq![ValType::F32], results: Seq::<ValType>::empty() },
            store: DEFAULT_STORE,
        },
        ImportEntryView {
            module: spectest_module(),
            name: seq![112u8, 114, 105, 110, 116, 95, 102, 54, 52],
            value: ExternView::Function { params: seq![ValType::F64], results: Seq::<ValType>::empty() },
            store: DEFAULT_STORE,
        },
        ImportEntryView {
            module: spectest_module(),
            name: seq![112u8, 114, 105, 110, 116, 95, 105, 51, 50, 95, 102, 51, 50],
            value: ExternView::Function { params: seq![ValType::I32, ValType::F32], results: Seq::<ValType>::empty() },
            store: DEFAULT_STORE,
        },
        ImportEntryView {
            module: spectest_module(),
            name: seq![112u8, 114, 105, 110, 116, 95, 102, 54, 52, 95, 102, 54, 52],
            value: ExternView::Function { params: seq![ValType::F64, ValType::F64], results: Seq::<ValType>::empty() },
            store: DEFAULT_STORE,
        },
        ImportEntryView {
            module: spectest_module(),
            name: seq![103u8, 108, 111, 98, 97, 108, 95, 105, 51, 50],
            value: ExternView::Global(GlobalType { content: ValType::I32, mutable: false }, Value::I32(666)),
            store: DEFAULT_STORE,
        },
        ImportEntryView {
            module: spectest_module(),
            name: seq![103u8, 108, 111, 98, 97, 108, 95, 105, 54, 52],
            value: ExternView::Global(GlobalType { content: ValType::I64, mutable: false }, Value::I64(666)),
            store: DEFAULT_STORE,
        },
        ImportEntryView {
            module: spectest_module(),
            name: seq![103u8, 108, 111, 98, 97, 108, 95, 102, 51, 50],
            value: ExternView::Global(GlobalType { content: ValType::F32, mutable: false }, Value::F32(0x4426_a666)),
            store: DEFAULT_STORE,
        },
        ImportEntryView {
            module: spectest_module(),
            name: seq![103u8, 108, 111, 98, 97, 108, 95, 102, 54, 52],
            value: ExternView::Global(GlobalType { content: ValType::F64, mutable: false }, Value::F64(0x4084_d4cc_cccc_cccd)),
            store: DEFAULT_STORE,
        },
        ImportEntryView {
            module: spectest_module(),
            name: seq![116u8, 97, 98, 108, 101],
            value: ExternView::Table(TableType { limits: Limits { min: 10, max: Some(20) } }),
            store: DEFAULT_STORE,
        },
        ImportEntryView {
            module: spectest_module(),
            name: seq![109u8, 101, 109, 111, 114, 121],
            value: ExternView::Memory(MemoryType { limits: Limits { min: 1, max: Some(2) }, shared: false }),
            store: DEFAULT_STORE,
        },
    ]
}

/// The import object that the specification tests instantiate against.
pub fn spectest_importobject() -> (r: ImportObject)
    ensures
        entries_view(r.entries@) == spectest_entries(),
{
    let mut es: Vec<ImportEntry> = Vec::new();
    es.push(ImportEntry { module: spectest_module_name(), name: vec![112u8, 114, 105, 110, 116], value: Extern::Function(FunctionType { params: Vec::new(), results: Vec::new() }), store: DEFAULT_STORE });
    es.push(ImportEntry { module: spectest_module_name(), name: vec![112u8, 114, 105, 110, 116, 95, 105, 51, 50], value: Extern::Function(FunctionType { params: vec![ValType::I32], results: Vec::new() }), store: DEFAULT_STORE });
    es.push(ImportEntry { module: spectest_module_name(), name: vec![112u8, 114, 105, 110, 116, 95, 105, 54, 52], value: Extern::Function(FunctionType { params: vec![ValType::I64], results: Vec::new() }), store: DEFAULT_STORE });
    es.push(ImportEntry { module: spectest_module_name(), name: vec![112u8, 114, 105, 110, 116, 95, 102, 51, 50], value: Extern::Function(FunctionType { params: vec![ValType::F32], results: Vec::new() }), store: DEFAULT_STORE });
    es.push(ImportEntry { module: spectest_module_name(), name: vec![112u8, 114, 105, 110, 116, 95, 102, 54, 52], value: Extern::Function(FunctionType { params: vec![ValType::F64], results: Vec::new() }), store: DEFAULT_STORE });
    es.push(ImportEntry { module: spectest_module_name(), name: vec![112u8, 114, 105, 110, 116, 95, 105, 51, 50, 95, 102, 51, 50], value: Extern::Function(FunctionType { params: vec![ValType::I32, ValType::F32], results: Vec::new() }), store: DEFAULT_STORE });
    es.push(ImportEntry { module: spectest_module_name(), name: vec![112u8, 114, 105, 110, 116, 95, 102, 54, 52, 95, 102, 54, 52], value: Extern::Function(FunctionType { params: vec![ValType::F64, ValType::F64], results: Vec::new() }), store: DEFAULT_STORE });
    es.push(ImportEntry { module: spectest_module_name(), name: vec![103u8, 108, 111, 98, 97, 108, 95, 105, 51, 50], value: Extern::Global(GlobalType { content: ValType::I32, mutable: false }, Value::I32(666)), store: DEFAULT_STORE });
    es.push(ImportEntry { module: spectest_module_name(), name: vec![103u8, 108, 111, 98, 97, 108, 95, 105, 54, 52], value: Extern::Global(GlobalType { content: ValType::I64, mutable: false }, Value::I64(666)), store: DEFAULT_STORE });
    es.push(ImportEntry { module: spectest_module_name(), name: vec![103u8, 108, 111, 98, 97, 108, 95, 102, 51, 50], value: Extern::Global(GlobalType { content: ValType::F32, mutable: false }, Value::F32(0x4426_a666)), store: DEFAULT_STORE });
    es.push(ImportEntry { module: spectest_module_name(), name: vec![103u8, 108, 111, 98, 97, 108, 95, 102, 54, 52], value: Extern::Global(GlobalType { content: ValType::F64, mutable: false }, Value::F64(0x4084_d4cc_cccc_cccd)), store: DEFAULT_STORE });
    es.push(ImportEntry { module: spectest_module_name(), name: vec![116u8, 97, 98, 108, 101], value: Extern::Table(TableType { limits: Limits { min: 10, max: Some(20) } }), store: DEFAULT_STORE });
    es.push(ImportEntry { module: spectest_module_name(), name: vec![109u8, 101, 109, 111, 114, 121], value: Extern::Memory(MemoryType { limits: Limits { min: 1, max: Some(2) }, shared: false }), store: DEFAULT_STORE });
    proof {
        assert(es@[0]@ =~~= spectest_entries()[0]);
        assert(es@[1]@ =~~= spectest_entries()[1]);
        assert(es@[2]@ =~~= spectest_entries()[2]);
        assert(es@[3]@ =~~= spectest_entries()[3]);
        assert(es@[4]@ =~~= spectest_entries()[4]);
        assert(es@[5]@ =~~= spectest_entries()[5]);
        assert(es@[6]@ =~~= spectest_entries()[6]);
        assert(es@[7]@ =~~= spectest_entries()[7]);
        assert(es@[8]@ =~~= spectest_entries()[8]);
        assert(es@[9]@ =~~= spectest_entries()[9]);
        assert(es@[10]@ =~~= spectest_entries()[10]);
        assert(es@[11]@ =~~= spectest_entries()[11]);
        assert(es@[12]@ =~~= spectest_entries()[12]);
        assert(entries_view(es@) =~= spectest_entries());
    }
    ImportObject { entries: es }
}

} // verus!
