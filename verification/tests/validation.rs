use wasmer::error::DecodeError;
use wasmer::module::{CompileError, Module};
use wasmer::validate::ValidationError;

fn section(id: u8, content: &[u8]) -> Vec<u8> {
    let mut v = vec![id, content.len() as u8];
    v.extend_from_slice(content);
    v
}

fn module(sections: &[Vec<u8>]) -> Vec<u8> {
    let mut v = vec![0, 97, 115, 109, 1, 0, 0, 0];
    for s in sections {
        v.extend_from_slice(s);
    }
    v
}

fn invalid(sections: &[Vec<u8>]) -> ValidationError {
    match Module::validate(&module(sections)) {
        Err(CompileError::Validate(DecodeError::Invalid(e))) => e,
        other => panic!("expected a validation error, got {:?}", other),
    }
}

fn void_type() -> Vec<u8> {
    section(1, &[1, 0x60, 0, 0])
}

fn one_function() -> Vec<Vec<u8>> {
    vec![void_type(), section(3, &[1, 0]), section(10, &[1, 2, 0, 0x0b])]
}

#[test]
fn functions_need_known_types() {
    assert_eq!(invalid(&[section(3, &[1, 0]), section(10, &[1, 2, 0, 0x0b])]), ValidationError::UnknownType);
    let imp = section(2, &[1, 1, b'm', 1, b'f', 0, 3]);
    assert_eq!(invalid(&[void_type(), imp]), ValidationError::UnknownType);
}

#[test]
fn one_table_and_one_memory_at_most() {
    assert_eq!(invalid(&[section(4, &[2, 0x70, 0, 1, 0x70, 0, 1])]), ValidationError::MultipleTables);
    let imp = section(2, &[1, 1, b'm', 1, b'm', 2, 0, 1]);
    assert_eq!(invalid(&[imp, section(5, &[1, 0, 1])]), ValidationError::MultipleMemories);
}

#[test]
fn limits_and_memory_sizes() {
    assert_eq!(invalid(&[section(4, &[1, 0x70, 1, 3, 2])]), ValidationError::InvalidLimits);
    assert_eq!(invalid(&[section(5, &[1, 1, 3, 2])]), ValidationError::InvalidLimits);
    assert_eq!(invalid(&[section(5, &[1, 1, 0, 0x81, 0x80, 0x04])]), ValidationError::MemoryTooLarge);
    assert!(Module::validate(&module(&[section(5, &[1, 1, 0, 0x80, 0x80, 0x04])])).is_ok());
}

#[test]
fn unknown_indices() {
    let mut s = one_function();
    s.insert(2, section(7, &[1, 1, b'f', 0, 1]));
    assert_eq!(invalid(&s), ValidationError::UnknownFunction);
    let mut s = one_function();
    s.insert(2, section(8, &[1]));
    assert_eq!(invalid(&s), ValidationError::UnknownFunction);
    let mut s = one_function();
    s.insert(2, section(4, &[1, 0x70, 0, 1]));
    s.insert(3, section(9, &[1, 0, 0x41, 0, 0x0b, 2, 0, 1]));
    assert_eq!(invalid(&s), ValidationError::UnknownFunction);
    assert_eq!(invalid(&[section(7, &[1, 1, b't', 1, 0])]), ValidationError::UnknownTable);
    assert_eq!(invalid(&[section(7, &[1, 1, b'm', 2, 0])]), ValidationError::UnknownMemory);
    assert_eq!(invalid(&[section(11, &[1, 0, 0x41, 0, 0x0b, 0])]), ValidationError::UnknownMemory);
    assert_eq!(invalid(&[section(7, &[1, 1, b'g', 3, 0])]), ValidationError::UnknownGlobal);
    // A constant may read an imported global only.
    let g = section(6, &[2, 0x7f, 0, 0x41, 1, 0x0b, 0x7f, 0, 0x23, 0, 0x0b]);
    assert_eq!(invalid(&[g]), ValidationError::UnknownGlobal);
}

#[test]
fn constants_of_the_wrong_type() {
    assert_eq!(invalid(&[section(6, &[1, 0x7d, 0, 0x42, 0, 0x0b])]), ValidationError::TypeMismatch);
    let imp = section(2, &[1, 1, b'm', 1, b'g', 3, 0x7e, 0]);
    assert_eq!(
        invalid(&[imp.clone(), section(6, &[1, 0x7f, 0, 0x23, 0, 0x0b])]),
        ValidationError::TypeMismatch
    );
    assert_eq!(
        invalid(&[imp.clone(), section(5, &[1, 0, 1]), section(11, &[1, 0, 0x23, 0, 0x0b, 0])]),
        ValidationError::TypeMismatch
    );
    assert!(Module::validate(&module(&[imp, section(6, &[1, 0x7e, 1, 0x23, 0, 0x0b])])).is_ok());
}

#[test]
fn start_functions_take_and_give_nothing() {
    let s = [
        section(1, &[1, 0x60, 1, 0x7f, 0]),
        section(3, &[1, 0]),
        section(8, &[0]),
        section(10, &[1, 2, 0, 0x0b]),
    ];
    assert_eq!(invalid(&s), ValidationError::InvalidStartFunction);
}

#[test]
fn export_names_are_distinct() {
    let s = [section(5, &[1, 0, 1]), section(7, &[2, 1, b'a', 2, 0, 1, b'a', 2, 0])];
    assert_eq!(invalid(&s), ValidationError::DuplicateExportName);
    let ok = [section(5, &[1, 0, 1]), section(7, &[2, 1, b'a', 2, 0, 1, b'b', 2, 0])];
    assert!(Module::validate(&module(&ok)).is_ok());
}

#[test]
fn malformed_comes_before_invalid() {
    assert!(matches!(Module::validate(&[0, 97, 115, 109, 1, 0, 0, 0, 12, 0]), Err(CompileError::Validate(_))));
}

/// A module with one function type, one function of that type whose body
/// is `locals` then `instrs`, and the given table, memory and global
/// sections (each may be empty).
fn one_body(ty: &[u8], table: &[u8], memory: &[u8], globals: &[u8], locals: &[u8], instrs: &[u8]) -> Vec<u8> {
    let mut t = vec![1];
    t.extend_from_slice(ty);
    let mut body = locals.to_vec();
    body.extend_from_slice(instrs);
    let mut code = vec![1, body.len() as u8];
    code.extend_from_slice(&body);
    let mut sections = vec![section(1, &t), section(3, &[1, 0])];
    if !table.is_empty() {
        sections.push(section(4, table));
    }
    if !memory.is_empty() {
        sections.push(section(5, memory));
    }
    if !globals.is_empty() {
        sections.push(section(6, globals));
    }
    sections.push(section(10, &code));
    module(&sections)
}

fn body_ok(ty: &[u8], locals: &[u8], instrs: &[u8]) -> bool {
    Module::validate(&one_body(ty, &[], &[], &[], locals, instrs)).is_ok()
}

fn body_invalid(ty: &[u8], locals: &[u8], instrs: &[u8]) -> bool {
    Module::validate(&one_body(ty, &[], &[], &[], locals, instrs))
        == Err(CompileError::Validate(DecodeError::Invalid(ValidationError::InvalidFunctionBody)))
}

const VOID: &[u8] = &[0x60, 0, 0];
const TO_I32: &[u8] = &[0x60, 0, 1, 0x7f];
const I32_TO_I32: &[u8] = &[0x60, 1, 0x7f, 1, 0x7f];

#[test]
fn bodies_leave_their_results() {
    assert!(body_ok(VOID, &[0], &[0x0b]));
    assert!(body_ok(TO_I32, &[0], &[0x41, 1, 0x0b]));
    assert!(body_invalid(VOID, &[0], &[0x41, 1, 0x0b]));
    assert!(body_invalid(TO_I32, &[0], &[0x0b]));
    assert!(body_invalid(TO_I32, &[0], &[0x42, 1, 0x0b]));
    assert!(body_ok(I32_TO_I32, &[0], &[0x20, 0, 0x41, 2, 0x6a, 0x0b]));
    assert!(body_invalid(I32_TO_I32, &[0], &[0x20, 0, 0x42, 2, 0x6a, 0x0b]));
}

#[test]
fn locals_follow_the_parameters() {
    // (param i32) (local i64 i64): local 1 and 2 are i64, local 3 does not exist.
    let locals = [1, 2, 0x7e];
    assert!(body_ok(I32_TO_I32, &locals, &[0x20, 2, 0x50, 0x0b]));
    assert!(body_invalid(I32_TO_I32, &locals, &[0x20, 1, 0x0b]));
    assert!(body_invalid(I32_TO_I32, &locals, &[0x20, 3, 0x0b]));
    assert!(body_ok(I32_TO_I32, &locals, &[0x42, 7, 0x22, 1, 0x21, 2, 0x20, 0, 0x0b]));
    assert!(body_invalid(I32_TO_I32, &locals, &[0x41, 7, 0x21, 1, 0x20, 0, 0x0b]));
}

#[test]
fn unreachable_code_takes_any_operands() {
    assert!(body_ok(TO_I32, &[0], &[0x00, 0x0b]));
    assert!(body_ok(TO_I32, &[0], &[0x00, 0x6a, 0x0b]));
    // After `return`, what follows is unreachable.
    assert!(body_ok(TO_I32, &[0], &[0x41, 1, 0x0f, 0x6a, 0x0b]));
    assert!(body_invalid(TO_I32, &[0], &[0x0f, 0x0b]));
    assert!(body_invalid(TO_I32, &[0], &[0x00, 0x42, 0, 0x0b]));
}

#[test]
fn blocks_and_branches() {
    // block (result i32) i32.const 1 end
    assert!(body_ok(TO_I32, &[0], &[0x02, 0x7f, 0x41, 1, 0x0b, 0x0b]));
    // if (result i32) without else
    assert!(body_invalid(TO_I32, &[0], &[0x41, 1, 0x04, 0x7f, 0x41, 1, 0x0b, 0x0b]));
    // if (result i32) then 1 else 2
    assert!(body_ok(TO_I32, &[0], &[0x41, 1, 0x04, 0x7f, 0x41, 1, 0x05, 0x41, 2, 0x0b, 0x0b]));
    // br 0 out of a block with an i32
    assert!(body_ok(TO_I32, &[0], &[0x02, 0x7f, 0x41, 1, 0x0c, 0, 0x0b, 0x0b]));
    // br_if to the function with its result
    assert!(body_ok(TO_I32, &[0], &[0x41, 1, 0x41, 0, 0x0d, 0, 0x0b]));
    // a loop's label carries nothing
    assert!(body_ok(VOID, &[0], &[0x03, 0x40, 0x0c, 0, 0x0b, 0x0b]));
    // br to a label that does not exist
    assert!(body_invalid(VOID, &[0], &[0x0c, 1, 0x0b]));
    // br_table whose labels carry different types
    assert!(body_invalid(TO_I32, &[0], &[0x02, 0x40, 0x41, 1, 0x41, 0, 0x0e, 1, 0, 1, 0x0b, 0x41, 0, 0x0b]));
    // br_table whose labels agree
    assert!(body_ok(VOID, &[0], &[0x02, 0x40, 0x41, 0, 0x0e, 1, 0, 1, 0x0b, 0x0b]));
}

#[test]
fn calls_pop_their_arguments() {
    // The only function has type (i32) -> i32 and calls itself.
    assert!(body_ok(I32_TO_I32, &[0], &[0x20, 0, 0x10, 0, 0x0b]));
    assert!(body_invalid(I32_TO_I32, &[0], &[0x10, 0, 0x0b]));
    assert!(body_invalid(I32_TO_I32, &[0], &[0x20, 0, 0x10, 1, 0x0b]));
    // call_indirect needs a table.
    let ci = [0x20, 0, 0x41, 0, 0x11, 0, 0, 0x0b];
    assert!(Module::validate(&one_body(I32_TO_I32, &[1, 0x70, 0, 1], &[], &[], &[0], &ci)).is_ok());
    assert!(body_invalid(I32_TO_I32, &[0], &ci));
}

#[test]
fn memory_instructions_need_a_memory() {
    let load = [0x41, 0, 0x28, 2, 0, 0x0b];
    let mem = [1, 0, 1];
    assert!(body_invalid(TO_I32, &[0], &load));
    assert!(Module::validate(&one_body(TO_I32, &[], &mem, &[], &[0], &load)).is_ok());
    // An alignment above the natural one.
    let over = [0x41, 0, 0x28, 3, 0, 0x0b];
    assert_eq!(
        Module::validate(&one_body(TO_I32, &[], &mem, &[], &[0], &over)),
        Err(CompileError::Validate(DecodeError::Invalid(ValidationError::InvalidFunctionBody)))
    );
    // i64.store16 of an i64 at an i32 address; memory.grow.
    let store = [0x41, 0, 0x42, 1, 0x3d, 1, 0, 0x3f, 0, 0x40, 0, 0x0b];
    assert!(Module::validate(&one_body(TO_I32, &[], &mem, &[], &[0], &store)).is_ok());
}

#[test]
fn globals_and_select() {
    // A mutable i32 global and an immutable one.
    let globals = [2, 0x7f, 1, 0x41, 0, 0x0b, 0x7f, 0, 0x41, 0, 0x0b];
    let set0 = [0x41, 5, 0x24, 0, 0x23, 1, 0x0b];
    let set1 = [0x41, 5, 0x24, 1, 0x23, 0, 0x0b];
    assert!(Module::validate(&one_body(TO_I32, &[], &[], &globals, &[0], &set0)).is_ok());
    assert_eq!(
        Module::validate(&one_body(TO_I32, &[], &[], &globals, &[0], &set1)),
        Err(CompileError::Validate(DecodeError::Invalid(ValidationError::InvalidFunctionBody)))
    );
    assert!(body_ok(TO_I32, &[0], &[0x41, 1, 0x41, 2, 0x41, 0, 0x1b, 0x0b]));
    assert!(body_invalid(TO_I32, &[0], &[0x41, 1, 0x42, 2, 0x41, 0, 0x1b, 0x0b]));
}

#[test]
fn constants_read_immutable_imports_only() {
    let imp = section(2, &[1, 1, b'm', 1, b'g', 3, 0x7f, 1]);
    assert_eq!(invalid(&[imp, section(6, &[1, 0x7f, 0, 0x23, 0, 0x0b])]), ValidationError::UnknownGlobal);
}
