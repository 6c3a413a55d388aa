use wasmer::decode::decode;
use wasmer::error::DecodeError;
use wasmer::leb128::{read_s32, read_s64, read_u32};
use wasmer::types::{ConstExpr, ExternKind, GlobalType, ImportDesc, Limits, TableType, ValType};

fn header() -> Vec<u8> {
    vec![0, 97, 115, 109, 1, 0, 0, 0]
}

fn section(id: u8, content: &[u8]) -> Vec<u8> {
    assert!(content.len() < 128);
    let mut v = vec![id, content.len() as u8];
    v.extend_from_slice(content);
    v
}

fn module(sections: &[Vec<u8>]) -> Vec<u8> {
    let mut v = header();
    for s in sections {
        v.extend_from_slice(s);
    }
    v
}

fn err_of(bytes: &[u8]) -> DecodeError {
    match decode(bytes) {
        Ok(_) => panic!("expected an error"),
        Err(e) => e,
    }
}

#[test]
fn leb_u32_values() {
    assert_eq!(read_u32(&[0xe5, 0x8e, 0x26], 0, 3), Ok((624485, 3)));
    assert_eq!(read_u32(&[0x00], 0, 1), Ok((0, 1)));
    assert_eq!(read_u32(&[0xff, 0xff, 0xff, 0xff, 0x0f], 0, 5), Ok((u32::MAX, 5)));
    assert_eq!(read_u32(&[0x80, 0x00], 0, 2), Ok((0, 2)));
    assert_eq!(read_u32(&[0x80, 0x80], 0, 2), Err(DecodeError::UnexpectedEnd));
    assert_eq!(read_u32(&[0x80, 0x80, 0x80, 0x80, 0x80, 0x00], 0, 6), Err(DecodeError::IntegerRepresentationTooLong));
    assert_eq!(read_u32(&[0x82, 0x80, 0x80, 0x80, 0x70], 0, 5), Err(DecodeError::IntegerTooLarge));
    // The bound, not the slice, limits the read.
    assert_eq!(read_u32(&[0x80, 0x01], 0, 1), Err(DecodeError::UnexpectedEnd));
    assert_eq!(read_u32(&[0xaa, 0x05], 1, 2), Ok((5, 2)));
}

#[test]
fn leb_s32_values() {
    assert_eq!(read_s32(&[0x7f], 0, 1), Ok((-1, 1)));
    assert_eq!(read_s32(&[0x3f], 0, 1), Ok((63, 1)));
    assert_eq!(read_s32(&[0x40], 0, 1), Ok((-64, 1)));
    assert_eq!(read_s32(&[0x80, 0x7f], 0, 2), Ok((-128, 2)));
    assert_eq!(read_s32(&[0xff, 0xff, 0xff, 0xff, 0x07], 0, 5), Ok((i32::MAX, 5)));
    assert_eq!(read_s32(&[0x80, 0x80, 0x80, 0x80, 0x78], 0, 5), Ok((i32::MIN, 5)));
    assert_eq!(read_s32(&[0xff, 0xff, 0xff, 0xff, 0x0f], 0, 5), Err(DecodeError::IntegerTooLarge));
    assert_eq!(read_s32(&[0x80, 0x80, 0x80, 0x80, 0x70], 0, 5), Err(DecodeError::IntegerTooLarge));
    assert_eq!(read_s32(&[0x80, 0x80, 0x80, 0x80, 0x80, 0x00], 0, 6), Err(DecodeError::IntegerRepresentationTooLong));
}

#[test]
fn leb_s64_values() {
    assert_eq!(read_s64(&[0x7f], 0, 1), Ok((-1, 1)));
    let max = [0xff, 0xff, 0xff, 0xff, 0xff, 0xff, 0xff, 0xff, 0xff, 0x00];
    assert_eq!(read_s64(&max, 0, 10), Ok((i64::MAX, 10)));
    let min = [0x80, 0x80, 0x80, 0x80, 0x80, 0x80, 0x80, 0x80, 0x80, 0x7f];
    assert_eq!(read_s64(&min, 0, 10), Ok((i64::MIN, 10)));
    let bad = [0x80, 0x80, 0x80, 0x80, 0x80, 0x80, 0x80, 0x80, 0x80, 0x7e];
    assert_eq!(read_s64(&bad, 0, 10), Err(DecodeError::IntegerTooLarge));
    let long = [0x80; 11];
    assert_eq!(read_s64(&long, 0, 11), Err(DecodeError::IntegerRepresentationTooLong));
}

#[test]
fn header_only_is_the_empty_module() {
    let m = decode(&header()).unwrap();
    assert!(m.types.is_empty() && m.imports.is_empty() && m.funcs.is_empty() && m.codes.is_empty());
    assert_eq!(m.start, None);
}

#[test]
fn header_errors() {
    assert_eq!(err_of(&[]), DecodeError::MagicHeaderNotDetected);
    assert_eq!(err_of(&[0, 97, 115, 110, 1, 0, 0, 0]), DecodeError::MagicHeaderNotDetected);
    assert_eq!(err_of(&[0, 97, 115, 109]), DecodeError::UnknownBinaryVersion);
    assert_eq!(err_of(&[0, 97, 115, 109, 2, 0, 0, 0]), DecodeError::UnknownBinaryVersion);
}

#[test]
fn decodes_a_small_module() {
    let types = section(1, &[1, 0x60, 2, 0x7f, 0x7e, 1, 0x7f]);
    let imports = section(2, &[1, 2, b'e', b'n', 1, b'g', 3, 0x7f, 0]);
    let funcs = section(3, &[1, 0]);
    let tables = section(4, &[1, 0x70, 1, 1, 2]);
    let mems = section(5, &[1, 0, 1]);
    let globals = section(6, &[1, 0x7e, 1, 0x42, 0x7f, 0x0b]);
    let exports = section(7, &[1, 1, b'f', 0, 0]);
    let start = section(8, &[0]);
    let elems = section(9, &[1, 0, 0x41, 0, 0x0b, 2, 0, 0]);
    let code = section(10, &[1, 6, 1, 2, 0x7f, 0x20, 0, 0x0b]);
    let data = section(11, &[1, 0, 0x41, 3, 0x0b, 2, 7, 8]);
    let custom = section(0, &[4, b'n', b'a', b'm', b'e', 9, 9]);
    let bin = module(&[types, imports, funcs, tables, mems, globals, exports, start, elems, code, data, custom]);
    let m = decode(&bin).unwrap();
    assert_eq!(m.types.len(), 1);
    let t = m.types[0];
    assert_eq!(&bin[t.params_start..t.params_end], &[0x7f, 0x7e]);
    assert_eq!(&bin[t.results_start..t.results_end], &[0x7f]);
    assert_eq!(m.imports.len(), 1);
    let imp = m.imports[0];
    assert_eq!(&bin[imp.module_start..imp.module_start + imp.module_len], b"en");
    assert_eq!(&bin[imp.name_start..imp.name_start + imp.name_len], b"g");
    assert_eq!(imp.desc, ImportDesc::Global(GlobalType { content: ValType::I32, mutable: false }));
    assert_eq!(m.funcs, vec![0]);
    assert_eq!(m.tables, vec![TableType { limits: Limits { min: 1, max: Some(2) } }]);
    assert_eq!(m.memories, vec![Limits { min: 1, max: None }]);
    assert_eq!(m.globals[0].ty, GlobalType { content: ValType::I64, mutable: true });
    assert_eq!(m.globals[0].init, ConstExpr::I64(-1));
    assert_eq!(m.exports[0].kind, ExternKind::Function);
    assert_eq!(m.exports[0].index, 0);
    assert_eq!(m.start, Some(0));
    assert_eq!(m.elems[0].funcs_count, 2);
    assert_eq!(m.elems[0].offset, ConstExpr::I32(0));
    assert_eq!(m.codes[0].locals, 2);
    assert_eq!(&bin[m.codes[0].body_start..m.codes[0].body_end], &[0x20, 0, 0x0b]);
    assert_eq!(m.datas[0].offset, ConstExpr::I32(3));
    assert_eq!(&bin[m.datas[0].bytes_start..m.datas[0].bytes_start + m.datas[0].bytes_len], &[7, 8]);
    let c = m.customs[0];
    assert_eq!(&bin[c.name_start..c.name_start + c.name_len], b"name");
    assert_eq!(&bin[c.payload_start..c.payload_end], &[9, 9]);
}

#[test]
fn every_decode_error_has_an_input() {
    assert_eq!(err_of(&module(&[vec![1, 5, 1, 0x60]])), DecodeError::UnexpectedEnd);
    assert_eq!(err_of(&module(&[section(12, &[])])), DecodeError::MalformedSectionId);
    assert_eq!(err_of(&module(&[section(1, &[0, 0])])), DecodeError::SectionSizeMismatch);
    assert_eq!(err_of(&module(&[section(1, &[0]), section(1, &[0])])), DecodeError::SectionOutOfOrder);
    assert_eq!(err_of(&module(&[section(3, &[0]), section(1, &[0])])), DecodeError::SectionOutOfOrder);
    assert_eq!(err_of(&module(&[section(1, &[1, 0x60, 1, 0x7b, 0])])), DecodeError::MalformedValueType);
    assert_eq!(err_of(&module(&[section(1, &[1, 0x61, 0, 0])])), DecodeError::MalformedFunctionType);
    assert_eq!(err_of(&module(&[section(2, &[1, 1, b'a', 1, b'b', 4, 0])])), DecodeError::MalformedImportKind);
    assert_eq!(err_of(&module(&[section(7, &[1, 1, b'a', 4, 0])])), DecodeError::MalformedExportKind);
    assert_eq!(err_of(&module(&[section(7, &[1, 1, 0xff, 0, 0])])), DecodeError::MalformedUtf8);
    assert_eq!(err_of(&module(&[section(4, &[1, 0x6f, 0, 0])])), DecodeError::MalformedElementType);
    assert_eq!(err_of(&module(&[section(5, &[1, 2, 0])])), DecodeError::MalformedLimitsFlag);
    assert_eq!(err_of(&module(&[section(6, &[1, 0x7f, 2, 0x41, 0, 0x0b])])), DecodeError::MalformedMutability);
    assert_eq!(err_of(&module(&[section(6, &[1, 0x7f, 0, 0x01, 0x0b])])), DecodeError::ConstantExpressionRequired);
    assert_eq!(err_of(&module(&[section(6, &[1, 0x7f, 0, 0x41, 0, 0x01])])), DecodeError::ConstantExpressionRequired);
    let ty = section(1, &[1, 0x60, 0, 0]);
    let f = section(3, &[1, 0]);
    let body = |b: &[u8]| {
        let mut c = vec![1, b.len() as u8];
        c.extend_from_slice(b);
        section(10, &c)
    };
    assert_eq!(err_of(&module(&[ty.clone(), f.clone(), body(&[0, 0x02, 0x7b, 0x0b, 0x0b])])), DecodeError::MalformedBlockType);
    assert_eq!(err_of(&module(&[ty.clone(), f.clone(), body(&[0, 0x06, 0x0b])])), DecodeError::IllegalOpcode);
    assert_eq!(err_of(&module(&[ty.clone(), f.clone(), body(&[0, 0x05, 0x0b])])), DecodeError::UnexpectedElse);
    assert_eq!(
        err_of(&module(&[ty.clone(), f.clone(), body(&[0, 0x04, 0x40, 0x05, 0x05, 0x0b, 0x0b])])),
        DecodeError::UnexpectedElse
    );
    assert_eq!(err_of(&module(&[ty.clone(), f.clone(), body(&[0, 0x3f, 1, 0x1a, 0x0b])])), DecodeError::ZeroFlagExpected);
    assert_eq!(err_of(&module(&[ty.clone(), f.clone(), body(&[0, 0x0b, 0x01])])), DecodeError::FunctionBodySizeMismatch);
    assert_eq!(err_of(&module(&[ty.clone(), f.clone()])), DecodeError::FunctionCodeCountMismatch);
    assert_eq!(
        err_of(&module(&[ty.clone(), f.clone(), body(&[2, 0xff, 0xff, 0xff, 0xff, 0x0f, 0x7f, 2, 0x7e, 0x0b])])),
        DecodeError::TooManyLocals
    );
    assert_eq!(err_of(&module(&[section(5, &[1, 0, 0x80, 0x80, 0x80, 0x80, 0x80, 0])])), DecodeError::IntegerRepresentationTooLong);
    assert_eq!(err_of(&module(&[section(5, &[1, 0, 0x82, 0x80, 0x80, 0x80, 0x70])])), DecodeError::IntegerTooLarge);
}

#[test]
fn nested_blocks_and_immediates_decode() {
    let ty = section(1, &[1, 0x60, 0, 0]);
    let f = section(3, &[1, 0]);
    let b: Vec<u8> = vec![
        0, 0x02, 0x40, 0x03, 0x7f, 0x41, 0x7f, 0x0c, 0, 0x0b, 0x0b, // block (loop i32.const -1 br 0)
        0x04, 0x40, 0x01, 0x05, 0x01, 0x0b, // if nop else nop end
        0x0e, 2, 0, 1, 0, // br_table [0 1] 0
        0x28, 2, 0, 0x1a, // i32.load drop
        0x43, 0, 0, 0x80, 0x3f, 0x44, 0, 0, 0, 0, 0, 0, 0xf0, 0x3f, 0x1a, 0x1a,
        0x0b,
    ];
    let mut c = vec![1, b.len() as u8];
    c.extend_from_slice(&b);
    let bin = module(&[ty, f, section(10, &c)]);
    let m = decode(&bin).unwrap();
    assert_eq!(m.codes[0].body_end, bin.len());
    assert_eq!(m.codes[0].locals, 0);
}
