use wasmer::error::DecodeError;
use wasmer::module::{
    CompileError, DeserializeError, ExternType, FunctionType, MemoryType, Module, ModuleTypeHints, TypeHintsError,
};
use wasmer::types::{ExternKind, GlobalType, Limits, TableType, ValType};

fn section(id: u8, content: &[u8]) -> Vec<u8> {
    let mut v = vec![id, content.len() as u8];
    v.extend_from_slice(content);
    v
}

/// Imports `env.f` (a function), `env.m` (a memory); exports `g` (a global)
/// and `t` (a table); two custom sections named `a` and one named `b`.
fn sample() -> Vec<u8> {
    let mut v = vec![0, 97, 115, 109, 1, 0, 0, 0];
    v.extend(section(0, &[1, b'a', 2]));
    v.extend(section(1, &[1, 0x60, 1, 0x7f, 0]));
    v.extend(section(2, &[2, 3, b'e', b'n', b'v', 1, b'f', 0, 0, 3, b'e', b'n', b'v', 1, b'm', 2, 0, 1]));
    v.extend(section(4, &[1, 0x70, 0, 3]));
    v.extend(section(6, &[1, 0x7f, 0, 0x41, 5, 0x0b]));
    v.extend(section(7, &[2, 1, b'g', 3, 0, 1, b't', 1, 0]));
    v.extend(section(0, &[1, b'b', 3]));
    v.extend(section(0, &[1, b'a', 4, 5]));
    v
}

#[test]
fn from_binary_and_validate_agree() {
    assert!(Module::from_binary(&sample()).is_ok());
    assert_eq!(Module::validate(&sample()), Ok(()));
    assert_eq!(Module::validate(&[1, 2, 3]), Err(CompileError::Validate(DecodeError::MagicHeaderNotDetected)));
    assert!(matches!(
        Module::from_binary(&[0, 97, 115, 109, 2, 0, 0, 0]),
        Err(CompileError::Validate(DecodeError::UnknownBinaryVersion))
    ));
}

#[test]
fn naming_a_module() {
    let mut m = Module::from_binary(&sample()).unwrap();
    assert_eq!(m.name(), None);
    assert!(m.set_name("mine"));
    assert_eq!(m.name(), Some("mine"));
}

#[test]
fn imports_and_exports_with_their_types() {
    let m = Module::from_binary(&sample()).unwrap();
    let imports = m.imports();
    assert_eq!(imports.len(), 2);
    assert_eq!(imports[0].module, b"env".to_vec());
    assert_eq!(imports[0].name, b"f".to_vec());
    assert_eq!(imports[0].ty, ExternType::Function(FunctionType { params: vec![ValType::I32], results: vec![] }));
    assert_eq!(
        imports[1].ty,
        ExternType::Memory(MemoryType { limits: Limits { min: 1, max: None }, shared: false })
    );
    let exports = m.exports();
    assert_eq!(exports.len(), 2);
    assert_eq!(exports[0].name, b"g".to_vec());
    assert_eq!(exports[0].ty, ExternType::Global(GlobalType { content: ValType::I32, mutable: false }));
    assert_eq!(exports[1].name, b"t".to_vec());
    assert_eq!(exports[1].ty, ExternType::Table(TableType { limits: Limits { min: 3, max: None } }));
}

#[test]
fn exported_functions_are_looked_up_past_the_imports() {
    // Two types; an imported function of type 0, a defined one of type 1;
    // exports of both, a defined memory and an imported global.
    let mut v = vec![0, 97, 115, 109, 1, 0, 0, 0];
    v.extend(section(1, &[2, 0x60, 1, 0x7e, 1, 0x7d, 0x60, 0, 0]));
    v.extend(section(2, &[2, 1, b'a', 1, b'f', 0, 0, 1, b'a', 1, b'g', 3, 0x7c, 0]));
    v.extend(section(3, &[1, 1]));
    v.extend(section(5, &[1, 1, 2, 5]));
    v.extend(section(7, &[4, 1, b'x', 0, 0, 1, b'y', 0, 1, 1, b'z', 2, 0, 1, b'w', 3, 0]));
    v.extend(section(10, &[1, 2, 0, 0x0b]));
    let m = Module::from_binary(&v).unwrap();
    let e = m.exports();
    assert_eq!(e[0].ty, ExternType::Function(FunctionType { params: vec![ValType::I64], results: vec![ValType::F32] }));
    assert_eq!(e[1].ty, ExternType::Function(FunctionType { params: vec![], results: vec![] }));
    assert_eq!(e[2].ty, ExternType::Memory(MemoryType { limits: Limits { min: 2, max: Some(5) }, shared: false }));
    assert_eq!(e[3].ty, ExternType::Global(GlobalType { content: ValType::F64, mutable: false }));
    // An exported import has the type that the import declares.
    assert_eq!(e[0].ty, m.imports()[0].ty);
    assert_eq!(e[3].ty, m.imports()[1].ty);
}

#[test]
fn type_hints_replace_the_types() {
    let mut m = Module::from_binary(&sample()).unwrap();
    let f = ExternType::Function(FunctionType { params: vec![ValType::I64], results: vec![ValType::I32] });
    let mem = ExternType::Memory(MemoryType { limits: Limits { min: 1, max: Some(4) }, shared: true });
    let g = ExternType::Global(GlobalType { content: ValType::I32, mutable: false });
    let t = ExternType::Table(TableType { limits: Limits { min: 3, max: None } });
    let hints = ModuleTypeHints { imports: vec![f.clone(), mem.clone()], exports: vec![g.clone(), t.clone()] };
    assert_eq!(m.set_type_hints(hints), Ok(()));
    assert_eq!(m.imports()[0].ty, f);
    assert_eq!(m.imports()[1].ty, mem);
    assert_eq!(m.exports()[1].ty, t);
}

#[test]
fn type_hints_that_do_not_fit_are_refused() {
    let mut m = Module::from_binary(&sample()).unwrap();
    let f = ExternType::Function(FunctionType { params: vec![], results: vec![] });
    let mem = ExternType::Memory(MemoryType { limits: Limits { min: 1, max: None }, shared: false });
    let g = ExternType::Global(GlobalType { content: ValType::I32, mutable: false });
    let t = ExternType::Table(TableType { limits: Limits { min: 1, max: None } });
    let short = ModuleTypeHints { imports: vec![f.clone()], exports: vec![g.clone(), t.clone()] };
    assert_eq!(m.set_type_hints(short), Err(TypeHintsError::ImportsLength));
    let wrong = ModuleTypeHints { imports: vec![f.clone(), g.clone()], exports: vec![g.clone(), t.clone()] };
    assert_eq!(m.set_type_hints(wrong), Err(TypeHintsError::ImportKind(1)));
    let short_exports = ModuleTypeHints { imports: vec![f.clone(), mem.clone()], exports: vec![] };
    assert_eq!(m.set_type_hints(short_exports), Err(TypeHintsError::ExportsLength));
    let wrong_exports = ModuleTypeHints { imports: vec![f.clone(), mem.clone()], exports: vec![t.clone(), t.clone()] };
    assert_eq!(m.set_type_hints(wrong_exports), Err(TypeHintsError::ExportKind(0)));
    // A refused hint leaves the types in place.
    assert_eq!(m.imports()[1].ty, mem);
    assert_eq!(m.imports()[0].ty, ExternType::Function(FunctionType { params: vec![ValType::I32], results: vec![] }));
}

#[test]
fn custom_sections_by_name() {
    let m = Module::from_binary(&sample()).unwrap();
    assert_eq!(m.custom_sections("a"), vec![vec![2u8], vec![4u8, 5]]);
    assert_eq!(m.custom_sections("b"), vec![vec![3u8]]);
    assert!(m.custom_sections("c").is_empty());
}

#[test]
fn serialize_then_deserialize() {
    let m = Module::from_binary(&sample()).unwrap();
    let bytes = m.serialize().unwrap();
    assert_eq!(bytes, sample());
    let back = Module::deserialize(&bytes).unwrap();
    assert_eq!(back.info().exports.len(), m.info().exports.len());
    assert_eq!(back.binary(), m.binary());
    assert!(matches!(
        Module::deserialize(&[0]),
        Err(DeserializeError::Compiler(CompileError::Validate(DecodeError::MagicHeaderNotDetected)))
    ));
}

#[test]
fn kinds_of_exports() {
    let m = Module::from_binary(&sample()).unwrap();
    assert_eq!(m.info().exports[0].kind, ExternKind::Global);
    assert_eq!(m.info().exports[1].kind, ExternKind::Table);
}

#[test]
fn the_name_section_names_the_module() {
    let header = vec![0, 97, 115, 109, 1, 0, 0, 0];
    // A function-names subsection (id 1) is skipped; the module name
    // subsection (id 0) gives the name.
    let mut v = header.clone();
    v.extend(section(0, &[4, b'n', b'a', b'm', b'e', 1, 1, 0, 0, 4, 3, b'm', b'o', b'd']));
    let m = Module::from_binary(&v).unwrap();
    assert_eq!(m.name(), Some("mod"));
    // A module name subsection with a byte left over stops the reading.
    let mut w = header.clone();
    w.extend(section(0, &[4, b'n', b'a', b'm', b'e', 0, 5, 3, b'm', b'o', b'd', 9]));
    assert_eq!(Module::from_binary(&w).unwrap().name(), None);
    // A later name section replaces the name; a section of another name is ignored.
    let mut x = v.clone();
    x.extend(section(0, &[4, b'n', b'a', b'm', b'x', 0, 2, 1, b'q']));
    x.extend(section(0, &[4, b'n', b'a', b'm', b'e', 0, 2, 1, b'z']));
    assert_eq!(Module::from_binary(&x).unwrap().name(), Some("z"));
    // Invalid UTF-8 gives no name.
    let mut y = header;
    y.extend(section(0, &[4, b'n', b'a', b'm', b'e', 0, 2, 1, 0xff]));
    assert_eq!(Module::from_binary(&y).unwrap().name(), None);
}
