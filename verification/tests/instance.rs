use wasmer::error::DecodeError;
use wasmer::instance::{Extern, ImportObject, InstantiationError, RuntimeError, Value};
use wasmer::module::{CompileError, FunctionType, MemoryType, Module};
use wasmer::validate::ValidationError;
use wasmer::types::{GlobalType, Limits, TableType, ValType};
use wasmer::webassembly::{compile, instantiate, spectest_importobject, Error};

fn section(id: u8, content: &[u8]) -> Vec<u8> {
    let mut v = vec![id, content.len() as u8];
    v.extend_from_slice(content);
    v
}

fn module(sections: &[Vec<u8>]) -> Vec<u8> {
    let mut v = vec![0, 97, 115, 109, 1, 0, 0, 0];
    for s in sections {
        v.extend_from_slice(s);
    }
    v
}

#[test]
fn globals_memories_tables_and_segments() {
    // imports spectest.global_i32; a global initialised from it; a memory
    // of 1 page with two overlapping data segments; a table of 4 with an
    // element segment at the imported global's offset... kept in range.
    let bin = module(&[
        section(1, &[1, 0x60, 0, 0]),
        section(2, &[1, 8, b's', b'p', b'e', b'c', b't', b'e', b's', b't', 10, b'g', b'l', b'o', b'b', b'a', b'l', b'_', b'i', b'3', b'2', 3, 0x7f, 0]),
        section(3, &[1, 0]),
        section(4, &[1, 0x70, 0, 4]),
        section(5, &[1, 0, 1]),
        section(6, &[2, 0x7f, 0, 0x23, 0, 0x0b, 0x7e, 1, 0x42, 7, 0x0b]),
        section(9, &[1, 0, 0x41, 1, 0x0b, 2, 0, 0]),
        section(10, &[1, 2, 0, 0x0b]),
        section(11, &[2, 0, 0x41, 2, 0x0b, 3, 1, 2, 3, 0, 0x41, 3, 0x0b, 1, 9]),
    ]);
    let ro = instantiate(bin, spectest_importobject()).unwrap();
    let i = &ro.instance;
    assert_eq!(i.global(0), Some(Value::I32(666)));
    assert_eq!(i.global(1), Some(Value::I32(666)));
    assert_eq!(i.global(2), Some(Value::I64(7)));
    assert_eq!(i.global(3), None);
    assert_eq!(i.memory_pages(0), Some(1));
    assert_eq!(i.memory_byte(0, 1), Some(0));
    assert_eq!(i.memory_byte(0, 2), Some(1));
    assert_eq!(i.memory_byte(0, 3), Some(9));
    assert_eq!(i.memory_byte(0, 4), Some(3));
    assert_eq!(i.memory_byte(0, 65536), None);
    assert_eq!(i.memory_byte(1, 0), None);
    assert_eq!(i.table_size(0), Some(4));
    assert_eq!(i.table_element(0, 0), Some(None));
    assert_eq!(i.table_element(0, 1), Some(Some(0)));
    assert_eq!(i.table_element(0, 2), Some(Some(0)));
    assert_eq!(i.table_element(0, 4), None);
    assert_eq!(i.start(), Ok(()));
}

#[test]
fn instantiation_errors() {
    let imp = |name: &[u8], desc: &[u8]| {
        let mut c = vec![1, 8];
        c.extend_from_slice(b"spectest");
        c.push(name.len() as u8);
        c.extend_from_slice(name);
        c.extend_from_slice(desc);
        section(2, &c)
    };
    let fail = |bin: Vec<u8>| match instantiate(bin, spectest_importobject()) {
        Err(Error::InstantiationError(e)) => e,
        _ => panic!("expected an instantiation error"),
    };
    assert_eq!(fail(module(&[imp(b"nothing", &[3, 0x7f, 0])])), InstantiationError::ImportNotFound(0));
    assert_eq!(fail(module(&[imp(b"global_i32", &[3, 0x7e, 0])])), InstantiationError::IncompatibleImportType(0));
    assert_eq!(fail(module(&[imp(b"memory", &[2, 0, 3])])), InstantiationError::IncompatibleImportType(0));
    assert_eq!(fail(module(&[imp(b"table", &[1, 0x70, 1, 5, 15])])), InstantiationError::IncompatibleImportType(0));
    let ty = section(1, &[1, 0x60, 1, 0x7f, 0]);
    assert_eq!(fail(module(&[ty.clone(), imp(b"print_i64", &[0, 0])])), InstantiationError::IncompatibleImportType(0));
    assert!(instantiate(module(&[ty, imp(b"print_i32", &[0, 0])]), spectest_importobject()).is_ok());
    assert_eq!(
        fail(module(&[
            section(1, &[1, 0x60, 0, 0]),
            section(3, &[1, 0]),
            section(4, &[1, 0x70, 0, 1]),
            section(9, &[1, 0, 0x41, 1, 0x0b, 1, 0]),
            section(10, &[1, 2, 0, 0x0b]),
        ])),
        InstantiationError::ElemSegmentDoesNotFit(0)
    );
    assert_eq!(
        fail(module(&[section(5, &[1, 0, 0]), section(11, &[1, 0, 0x41, 0, 0x0b, 1, 7])])),
        InstantiationError::DataSegmentDoesNotFit(0)
    );
}

#[test]
fn invalid_modules_are_not_instantiated() {
    let invalid = |bin: Vec<u8>| match instantiate(bin, spectest_importobject()) {
        Err(Error::CompileError(CompileError::Validate(DecodeError::Invalid(e)))) => e,
        _ => panic!("expected a validation error"),
    };
    assert_eq!(invalid(module(&[section(6, &[1, 0x7e, 0, 0x41, 0, 0x0b])])), ValidationError::TypeMismatch);
    assert_eq!(invalid(module(&[section(6, &[1, 0x7f, 0, 0x23, 0, 0x0b])])), ValidationError::UnknownGlobal);
    assert_eq!(invalid(module(&[section(5, &[1, 0, 0x81, 0x80, 0x04])])), ValidationError::MemoryTooLarge);
    assert_eq!(invalid(module(&[section(9, &[1, 0, 0x41, 0, 0x0b, 0])])), ValidationError::UnknownTable);
    assert_eq!(invalid(module(&[section(8, &[0])])), ValidationError::UnknownFunction);
}

#[test]
fn compile_errors_come_first() {
    assert!(matches!(instantiate(vec![0, 1, 2], spectest_importobject()), Err(Error::CompileError(_))));
    assert!(compile(vec![0, 97, 115, 109, 1, 0, 0, 0]).is_ok());
}

#[test]
fn a_start_function_is_not_executed() {
    let bin = module(&[
        section(1, &[1, 0x60, 0, 0]),
        section(3, &[1, 0]),
        section(8, &[0]),
        section(10, &[1, 2, 0, 0x0b]),
    ]);
    let ro = instantiate(bin, spectest_importobject()).unwrap();
    assert_eq!(ro.instance.start(), Err(RuntimeError::StartFunctionNotExecuted(0)));
}

#[test]
fn an_import_object_of_our_own() {
    let mut obj = ImportObject::new();
    obj.set(1, "env", "f", Extern::Function(FunctionType { params: vec![], results: vec![ValType::I32] }));
    obj.set(1, "env", "m", Extern::Memory(MemoryType { limits: Limits { min: 2, max: None }, shared: false }));
    obj.set(1, "env", "t", Extern::Table(TableType { limits: Limits { min: 1, max: Some(1) } }));
    obj.set(1, "env", "g", Extern::Global(GlobalType { content: ValType::F64, mutable: true }, Value::F64(0)));
    assert_eq!(obj.entries.len(), 4);
    assert_eq!(obj.entries[1].module, b"env".to_vec());
    let bin = module(&[
        section(1, &[1, 0x60, 0, 1, 0x7f]),
        section(2, &[2, 3, b'e', b'n', b'v', 1, b'f', 0, 0, 3, b'e', b'n', b'v', 1, b'm', 2, 0, 1]),
    ]);
    let m = Module::from_binary(&bin).unwrap();
    let i = m.instantiate(1, &obj).unwrap();
    // The same values do not serve an instance of another store.
    assert_eq!(m.instantiate(2, &obj).err(), Some(InstantiationError::DifferentStores));
    assert_eq!(i.memory_pages(0), Some(2));
    assert_eq!(i.memory_byte(0, 131071), Some(0));
}

#[test]
fn values_of_another_store_are_refused() {
    // Even an offer that the module does not import is checked.
    let mut obj = spectest_importobject();
    obj.set(7, "env", "unused", Extern::Function(FunctionType { params: vec![], results: vec![] }));
    match instantiate(vec![0, 97, 115, 109, 1, 0, 0, 0], obj) {
        Err(Error::InstantiationError(e)) => assert_eq!(e, InstantiationError::DifferentStores),
        _ => panic!("expected the store check to fail"),
    }
    let mut same = spectest_importobject();
    same.set(wasmer::webassembly::DEFAULT_STORE, "env", "unused", Extern::Function(FunctionType { params: vec![], results: vec![] }));
    assert!(instantiate(vec![0, 97, 115, 109, 1, 0, 0, 0], same).is_ok());
}
