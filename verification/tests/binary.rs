use wasmer::webassembly::{compile, instantiate, spectest_importobject, ResultObject};
use wasmer::spectests::{
    start_module_1, start_module_2, start_module_3, start_module_4, start_module_5, start_module_6,
    start_module_7, start_module_8, start_module_9, start_module_10, start_module_11, start_module_12,
    start_module_13, start_module_14, start_module_15, start_module_16,
};

const HEADER: [u8; 8] = [0, 97, 115, 109, 1, 0, 0, 0];

/// The binary of a module: the header followed by `sections`.
fn module_binary(sections: &[u8]) -> Vec<u8> {
    let mut v = HEADER.to_vec();
    v.extend_from_slice(sections);
    v
}

fn instantiate_binary(sections: &[u8]) -> ResultObject {
    instantiate(module_binary(sections), spectest_importobject()).expect("WASM can't be instantiated")
}

/// `(module)`
fn create_module_1() -> ResultObject {
    instantiate_binary(&[])
}

#[test]
fn test_module_1() {
    let result_object = create_module_1();
    // We group the calls together
    assert!(start_module_1(&result_object).is_ok());
}

/// `(module)`
fn create_module_2() -> ResultObject {
    instantiate_binary(&[])
}

#[test]
fn test_module_2() {
    let result_object = create_module_2();
    // We group the calls together
    assert!(start_module_2(&result_object).is_ok());
}

/// `(module)`
fn create_module_3() -> ResultObject {
    instantiate_binary(&[])
}

#[test]
fn test_module_3() {
    let result_object = create_module_3();
    // We group the calls together
    assert!(start_module_3(&result_object).is_ok());
}

/// `(module)`
fn create_module_4() -> ResultObject {
    instantiate_binary(&[])
}

#[test]
fn test_module_4() {
    let result_object = create_module_4();
    // We group the calls together
    assert!(start_module_4(&result_object).is_ok());
}

/// `(module (memory 2))`
fn create_module_5() -> ResultObject {
    instantiate_binary(&[5, 3, 1, 0, 2])
}

#[test]
fn test_module_5() {
    let result_object = create_module_5();
    // We group the calls together
    assert!(start_module_5(&result_object).is_ok());
}

/// `(module (memory 2))`
fn create_module_6() -> ResultObject {
    instantiate_binary(&[5, 3, 1, 0, 2])
}

#[test]
fn test_module_6() {
    let result_object = create_module_6();
    // We group the calls together
    assert!(start_module_6(&result_object).is_ok());
}

/// `(module (global i32 (i32.const 0)))`
fn create_module_7() -> ResultObject {
    instantiate_binary(&[6, 6, 1, 127, 0, 65, 0, 11])
}

#[test]
fn test_module_7() {
    let result_object = create_module_7();
    // We group the calls together
    assert!(start_module_7(&result_object).is_ok());
}

/// `(module (global i32 (i32.const -1)))`
fn create_module_8() -> ResultObject {
    instantiate_binary(&[6, 6, 1, 127, 0, 65, 127, 11])
}

#[test]
fn test_module_8() {
    let result_object = create_module_8();
    // We group the calls together
    assert!(start_module_8(&result_object).is_ok());
}

/// `(module (global i32 (i32.const 0)))`
fn create_module_9() -> ResultObject {
    instantiate_binary(&[6, 6, 1, 127, 0, 65, 0, 11])
}

#[test]
fn test_module_9() {
    let result_object = create_module_9();
    // We group the calls together
    assert!(start_module_9(&result_object).is_ok());
}

/// `(module (global i32 (i32.const -1)))`
fn create_module_10() -> ResultObject {
    instantiate_binary(&[6, 6, 1, 127, 0, 65, 127, 11])
}

#[test]
fn test_module_10() {
    let result_object = create_module_10();
    // We group the calls together
    assert!(start_module_10(&result_object).is_ok());
}

/// `(module (global i64 (i64.const 0)))`
fn create_module_11() -> ResultObject {
    instantiate_binary(&[6, 6, 1, 126, 0, 66, 0, 11])
}

#[test]
fn test_module_11() {
    let result_object = create_module_11();
    // We group the calls together
    assert!(start_module_11(&result_object).is_ok());
}

/// `(module (global i64 (i64.const -1)))`
fn create_module_12() -> ResultObject {
    instantiate_binary(&[6, 6, 1, 126, 0, 66, 127, 11])
}

#[test]
fn test_module_12() {
    let result_object = create_module_12();
    // We group the calls together
    assert!(start_module_12(&result_object).is_ok());
}

/// `(module (global i64 (i64.const 0)))`
fn create_module_13() -> ResultObject {
    instantiate_binary(&[6, 6, 1, 126, 0, 66, 0, 11])
}

#[test]
fn test_module_13() {
    let result_object = create_module_13();
    // We group the calls together
    assert!(start_module_13(&result_object).is_ok());
}

/// `(module (global i64 (i64.const -1)))`
fn create_module_14() -> ResultObject {
    instantiate_binary(&[6, 6, 1, 126, 0, 66, 127, 11])
}

#[test]
fn test_module_14() {
    let result_object = create_module_14();
    // We group the calls together
    assert!(start_module_14(&result_object).is_ok());
}

/// `(module (memory 0) (data (i32.const 0) ""))`
fn create_module_15() -> ResultObject {
    instantiate_binary(&[5, 3, 1, 0, 0, 11, 6, 1, 0, 65, 0, 11, 0])
}

#[test]
fn test_module_15() {
    let result_object = create_module_15();
    // We group the calls together
    assert!(start_module_15(&result_object).is_ok());
}

/// `(module (table 0 anyfunc) (elem (i32.const 0)))`
fn create_module_16() -> ResultObject {
    instantiate_binary(&[4, 4, 1, 112, 0, 0, 9, 6, 1, 0, 65, 0, 11, 0])
}

#[test]
fn test_module_16() {
    let result_object = create_module_16();
    // We group the calls together
    assert!(start_module_16(&result_object).is_ok());
}

#[test]
fn c4_l6_assert_malformed() {
    let wasm_binary: [u8; 0] = [];
    let compilation = compile(wasm_binary.to_vec());
    assert!(compilation.is_err(), "WASM should not compile as is malformed");
}

#[test]
fn c5_l7_assert_malformed() {
    let wasm_binary: [u8; 1] = [1];
    let compilation = compile(wasm_binary.to_vec());
    assert!(compilation.is_err(), "WASM should not compile as is malformed");
}

#[test]
fn c6_l8_assert_malformed() {
    let wasm_binary: [u8; 3] = [0, 97, 115];
    let compilation = compile(wasm_binary.to_vec());
    assert!(compilation.is_err(), "WASM should not compile as is malformed");
}

#[test]
fn c7_l9_assert_malformed() {
    let wasm_binary: [u8; 4] = [97, 115, 109, 0];
    let compilation = compile(wasm_binary.to_vec());
    assert!(compilation.is_err(), "WASM should not compile as is malformed");
}

#[test]
fn c8_l10_assert_malformed() {
    let wasm_binary: [u8; 4] = [109, 115, 97, 0];
    let compilation = compile(wasm_binary.to_vec());
    assert!(compilation.is_err(), "WASM should not compile as is malformed");
}

#[test]
fn c9_l11_assert_malformed() {
    let wasm_binary: [u8; 8] = [109, 115, 97, 0, 1, 0, 0, 0];
    let compilation = compile(wasm_binary.to_vec());
    assert!(compilation.is_err(), "WASM should not compile as is malformed");
}

#[test]
fn c10_l12_assert_malformed() {
    let wasm_binary: [u8; 8] = [109, 115, 97, 0, 0, 0, 0, 1];
    let compilation = compile(wasm_binary.to_vec());
    assert!(compilation.is_err(), "WASM should not compile as is malformed");
}

#[test]
fn c11_l13_assert_malformed() {
    let wasm_binary: [u8; 8] = [97, 115, 109, 1, 0, 0, 0, 0];
    let compilation = compile(wasm_binary.to_vec());
    assert!(compilation.is_err(), "WASM should not compile as is malformed");
}

#[test]
fn c12_l14_assert_malformed() {
    let wasm_binary: [u8; 8] = [119, 97, 115, 109, 1, 0, 0, 0];
    let compilation = compile(wasm_binary.to_vec());
    assert!(compilation.is_err(), "WASM should not compile as is malformed");
}

#[test]
fn c13_l15_assert_malformed() {
    let wasm_binary: [u8; 8] = [127, 97, 115, 109, 1, 0, 0, 0];
    let compilation = compile(wasm_binary.to_vec());
    assert!(compilation.is_err(), "WASM should not compile as is malformed");
}

#[test]
fn c14_l16_assert_malformed() {
    let wasm_binary: [u8; 8] = [128, 97, 115, 109, 1, 0, 0, 0];
    let compilation = compile(wasm_binary.to_vec());
    assert!(compilation.is_err(), "WASM should not compile as is malformed");
}

#[test]
fn c15_l17_assert_malformed() {
    let wasm_binary: [u8; 8] = [130, 97, 115, 109, 1, 0, 0, 0];
    let compilation = compile(wasm_binary.to_vec());
    assert!(compilation.is_err(), "WASM should not compile as is malformed");
}

#[test]
fn c16_l18_assert_malformed() {
    let wasm_binary: [u8; 8] = [255, 97, 115, 109, 1, 0, 0, 0];
    let compilation = compile(wasm_binary.to_vec());
    assert!(compilation.is_err(), "WASM should not compile as is malformed");
}

#[test]
fn c17_l21_assert_malformed() {
    let wasm_binary: [u8; 8] = [0, 0, 0, 1, 109, 115, 97, 0];
    let compilation = compile(wasm_binary.to_vec());
    assert!(compilation.is_err(), "WASM should not compile as is malformed");
}

#[test]
fn c18_l24_assert_malformed() {
    let wasm_binary: [u8; 8] = [97, 0, 109, 115, 0, 1, 0, 0];
    let compilation = compile(wasm_binary.to_vec());
    assert!(compilation.is_err(), "WASM should not compile as is malformed");
}

#[test]
fn c19_l25_assert_malformed() {
    let wasm_binary: [u8; 8] = [115, 109, 0, 97, 0, 0, 1, 0];
    let compilation = compile(wasm_binary.to_vec());
    assert!(compilation.is_err(), "WASM should not compile as is malformed");
}

#[test]
fn c20_l28_assert_malformed() {
    let wasm_binary: [u8; 8] = [0, 65, 83, 77, 1, 0, 0, 0];
    let compilation = compile(wasm_binary.to_vec());
    assert!(compilation.is_err(), "WASM should not compile as is malformed");
}

#[test]
fn c21_l31_assert_malformed() {
    let wasm_binary: [u8; 8] = [0, 129, 162, 148, 1, 0, 0, 0];
    let compilation = compile(wasm_binary.to_vec());
    assert!(compilation.is_err(), "WASM should not compile as is malformed");
}

#[test]
fn c22_l34_assert_malformed() {
    let wasm_binary: [u8; 11] = [239, 187, 191, 0, 97, 115, 109, 1, 0, 0, 0];
    let compilation = compile(wasm_binary.to_vec());
    assert!(compilation.is_err(), "WASM should not compile as is malformed");
}

#[test]
fn c23_l36_assert_malformed() {
    let wasm_binary: [u8; 4] = [0, 97, 115, 109];
    let compilation = compile(wasm_binary.to_vec());
    assert!(compilation.is_err(), "WASM should not compile as is malformed");
}

#[test]
fn c24_l37_assert_malformed() {
    let wasm_binary: [u8; 5] = [0, 97, 115, 109, 1];
    let compilation = compile(wasm_binary.to_vec());
    assert!(compilation.is_err(), "WASM should not compile as is malformed");
}

#[test]
fn c25_l38_assert_malformed() {
    let wasm_binary: [u8; 7] = [0, 97, 115, 109, 1, 0, 0];
    let compilation = compile(wasm_binary.to_vec());
    assert!(compilation.is_err(), "WASM should not compile as is malformed");
}

#[test]
fn c26_l39_assert_malformed() {
    let wasm_binary: [u8; 8] = [0, 97, 115, 109, 0, 0, 0, 0];
    let compilation = compile(wasm_binary.to_vec());
    assert!(compilation.is_err(), "WASM should not compile as is malformed");
}

#[test]
fn c27_l40_assert_malformed() {
    let wasm_binary: [u8; 8] = [0, 97, 115, 109, 13, 0, 0, 0];
    let compilation = compile(wasm_binary.to_vec());
    assert!(compilation.is_err(), "WASM should not compile as is malformed");
}

#[test]
fn c28_l41_assert_malformed() {
    let wasm_binary: [u8; 8] = [0, 97, 115, 109, 14, 0, 0, 0];
    let compilation = compile(wasm_binary.to_vec());
    assert!(compilation.is_err(), "WASM should not compile as is malformed");
}

#[test]
fn c29_l42_assert_malformed() {
    let wasm_binary: [u8; 8] = [0, 97, 115, 109, 0, 1, 0, 0];
    let compilation = compile(wasm_binary.to_vec());
    assert!(compilation.is_err(), "WASM should not compile as is malformed");
}

#[test]
fn c30_l43_assert_malformed() {
    let wasm_binary: [u8; 8] = [0, 97, 115, 109, 0, 0, 1, 0];
    let compilation = compile(wasm_binary.to_vec());
    assert!(compilation.is_err(), "WASM should not compile as is malformed");
}

#[test]
fn c31_l44_assert_malformed() {
    let wasm_binary: [u8; 8] = [0, 97, 115, 109, 0, 0, 0, 1];
    let compilation = compile(wasm_binary.to_vec());
    assert!(compilation.is_err(), "WASM should not compile as is malformed");
}

#[test]
fn c44_l139_assert_malformed() {
    let wasm_binary: [u8; 18] = [0, 97, 115, 109, 1, 0, 0, 0, 5, 8, 1, 0, 130, 128, 128, 128, 128, 0];
    let compilation = compile(wasm_binary.to_vec());
    assert!(compilation.is_err(), "WASM should not compile as is malformed");
}

#[test]
fn c45_l149_assert_malformed() {
    let wasm_binary: [u8; 21] = [0, 97, 115, 109, 1, 0, 0, 0, 6, 11, 1, 127, 0, 65, 128, 128, 128, 128, 128, 0, 11];
    let compilation = compile(wasm_binary.to_vec());
    assert!(compilation.is_err(), "WASM should not compile as is malformed");
}

#[test]
fn c46_l159_assert_malformed() {
    let wasm_binary: [u8; 21] = [0, 97, 115, 109, 1, 0, 0, 0, 6, 11, 1, 127, 0, 65, 255, 255, 255, 255, 255, 127, 11];
    let compilation = compile(wasm_binary.to_vec());
    assert!(compilation.is_err(), "WASM should not compile as is malformed");
}

#[test]
fn c47_l170_assert_malformed() {
    let wasm_binary: [u8; 26] = [0, 97, 115, 109, 1, 0, 0, 0, 6, 16, 1, 126, 0, 66, 128, 128, 128, 128, 128, 128, 128, 128, 128, 128, 0, 11];
    let compilation = compile(wasm_binary.to_vec());
    assert!(compilation.is_err(), "WASM should not compile as is malformed");
}

#[test]
fn c48_l180_assert_malformed() {
    let wasm_binary: [u8; 26] = [0, 97, 115, 109, 1, 0, 0, 0, 6, 16, 1, 126, 0, 66, 255, 255, 255, 255, 255, 255, 255, 255, 255, 255, 127, 11];
    let compilation = compile(wasm_binary.to_vec());
    assert!(compilation.is_err(), "WASM should not compile as is malformed");
}

#[test]
fn c49_l192_assert_malformed() {
    let wasm_binary: [u8; 17] = [0, 97, 115, 109, 1, 0, 0, 0, 5, 7, 1, 0, 130, 128, 128, 128, 112];
    let compilation = compile(wasm_binary.to_vec());
    assert!(compilation.is_err(), "WASM should not compile as is malformed");
}

#[test]
fn c50_l200_assert_malformed() {
    let wasm_binary: [u8; 17] = [0, 97, 115, 109, 1, 0, 0, 0, 5, 7, 1, 0, 130, 128, 128, 128, 64];
    let compilation = compile(wasm_binary.to_vec());
    assert!(compilation.is_err(), "WASM should not compile as is malformed");
}

#[test]
fn c51_l210_assert_malformed() {
    let wasm_binary: [u8; 20] = [0, 97, 115, 109, 1, 0, 0, 0, 6, 10, 1, 127, 0, 65, 128, 128, 128, 128, 112, 11];
    let compilation = compile(wasm_binary.to_vec());
    assert!(compilation.is_err(), "WASM should not compile as is malformed");
}

#[test]
fn c52_l220_assert_malformed() {
    let wasm_binary: [u8; 20] = [0, 97, 115, 109, 1, 0, 0, 0, 6, 10, 1, 127, 0, 65, 255, 255, 255, 255, 15, 11];
    let compilation = compile(wasm_binary.to_vec());
    assert!(compilation.is_err(), "WASM should not compile as is malformed");
}

#[test]
fn c53_l230_assert_malformed() {
    let wasm_binary: [u8; 20] = [0, 97, 115, 109, 1, 0, 0, 0, 6, 10, 1, 127, 0, 65, 128, 128, 128, 128, 31, 11];
    let compilation = compile(wasm_binary.to_vec());
    assert!(compilation.is_err(), "WASM should not compile as is malformed");
}

#[test]
fn c54_l240_assert_malformed() {
    let wasm_binary: [u8; 20] = [0, 97, 115, 109, 1, 0, 0, 0, 6, 10, 1, 127, 0, 65, 255, 255, 255, 255, 79, 11];
    let compilation = compile(wasm_binary.to_vec());
    assert!(compilation.is_err(), "WASM should not compile as is malformed");
}

#[test]
fn c55_l251_assert_malformed() {
    let wasm_binary: [u8; 25] = [0, 97, 115, 109, 1, 0, 0, 0, 6, 15, 1, 126, 0, 66, 128, 128, 128, 128, 128, 128, 128, 128, 128, 126, 11];
    let compilation = compile(wasm_binary.to_vec());
    assert!(compilation.is_err(), "WASM should not compile as is malformed");
}

#[test]
fn c56_l261_assert_malformed() {
    let wasm_binary: [u8; 25] = [0, 97, 115, 109, 1, 0, 0, 0, 6, 15, 1, 126, 0, 66, 255, 255, 255, 255, 255, 255, 255, 255, 255, 1, 11];
    let compilation = compile(wasm_binary.to_vec());
    assert!(compilation.is_err(), "WASM should not compile as is malformed");
}

#[test]
fn c57_l271_assert_malformed() {
    let wasm_binary: [u8; 25] = [0, 97, 115, 109, 1, 0, 0, 0, 6, 15, 1, 126, 0, 66, 128, 128, 128, 128, 128, 128, 128, 128, 128, 2, 11];
    let compilation = compile(wasm_binary.to_vec());
    assert!(compilation.is_err(), "WASM should not compile as is malformed");
}

#[test]
fn c58_l281_assert_malformed() {
    let wasm_binary: [u8; 25] = [0, 97, 115, 109, 1, 0, 0, 0, 6, 15, 1, 126, 0, 66, 255, 255, 255, 255, 255, 255, 255, 255, 255, 65, 11];
    let compilation = compile(wasm_binary.to_vec());
    assert!(compilation.is_err(), "WASM should not compile as is malformed");
}

#[test]
fn c59_l293_assert_malformed() {
    let wasm_binary: [u8; 35] = [0, 97, 115, 109, 1, 0, 0, 0, 1, 4, 1, 96, 0, 0, 3, 2, 1, 0, 4, 4, 1, 112, 0, 0, 10, 9, 1, 7, 0, 65, 0, 17, 0, 1, 11];
    let compilation = compile(wasm_binary.to_vec());
    assert!(compilation.is_err(), "WASM should not compile as is malformed");
}

#[test]
fn c60_l312_assert_malformed() {
    let wasm_binary: [u8; 36] = [0, 97, 115, 109, 1, 0, 0, 0, 1, 4, 1, 96, 0, 0, 3, 2, 1, 0, 4, 4, 1, 112, 0, 0, 10, 10, 1, 7, 0, 65, 0, 17, 0, 128, 0, 11];
    let compilation = compile(wasm_binary.to_vec());
    assert!(compilation.is_err(), "WASM should not compile as is malformed");
}

#[test]
fn c61_l331_assert_malformed() {
    let wasm_binary: [u8; 37] = [0, 97, 115, 109, 1, 0, 0, 0, 1, 4, 1, 96, 0, 0, 3, 2, 1, 0, 4, 4, 1, 112, 0, 0, 10, 11, 1, 8, 0, 65, 0, 17, 0, 128, 128, 0, 11];
    let compilation = compile(wasm_binary.to_vec());
    assert!(compilation.is_err(), "WASM should not compile as is malformed");
}

#[test]
fn c62_l349_assert_malformed() {
    let wasm_binary: [u8; 38] = [0, 97, 115, 109, 1, 0, 0, 0, 1, 4, 1, 96, 0, 0, 3, 2, 1, 0, 4, 4, 1, 112, 0, 0, 10, 12, 1, 9, 0, 65, 0, 17, 0, 128, 128, 128, 0, 11];
    let compilation = compile(wasm_binary.to_vec());
    assert!(compilation.is_err(), "WASM should not compile as is malformed");
}

#[test]
fn c63_l367_assert_malformed() {
    let wasm_binary: [u8; 39] = [0, 97, 115, 109, 1, 0, 0, 0, 1, 4, 1, 96, 0, 0, 3, 2, 1, 0, 4, 4, 1, 112, 0, 0, 10, 13, 1, 10, 0, 65, 0, 17, 0, 128, 128, 128, 128, 0, 11];
    let compilation = compile(wasm_binary.to_vec());
    assert!(compilation.is_err(), "WASM should not compile as is malformed");
}

#[test]
fn c64_l386_assert_malformed() {
    let wasm_binary: [u8; 34] = [0, 97, 115, 109, 1, 0, 0, 0, 1, 4, 1, 96, 0, 0, 3, 2, 1, 0, 5, 3, 1, 0, 0, 10, 9, 1, 7, 0, 65, 0, 64, 1, 26, 11];
    let compilation = compile(wasm_binary.to_vec());
    assert!(compilation.is_err(), "WASM should not compile as is malformed");
}

#[test]
fn c65_l406_assert_malformed() {
    let wasm_binary: [u8; 35] = [0, 97, 115, 109, 1, 0, 0, 0, 1, 4, 1, 96, 0, 0, 3, 2, 1, 0, 5, 3, 1, 0, 0, 10, 10, 1, 8, 0, 65, 0, 64, 128, 0, 26, 11];
    let compilation = compile(wasm_binary.to_vec());
    assert!(compilation.is_err(), "WASM should not compile as is malformed");
}

#[test]
fn c66_l426_assert_malformed() {
    let wasm_binary: [u8; 36] = [0, 97, 115, 109, 1, 0, 0, 0, 1, 4, 1, 96, 0, 0, 3, 2, 1, 0, 5, 3, 1, 0, 0, 10, 11, 1, 9, 0, 65, 0, 64, 128, 128, 0, 26, 11];
    let compilation = compile(wasm_binary.to_vec());
    assert!(compilation.is_err(), "WASM should not compile as is malformed");
}

#[test]
fn c67_l445_assert_malformed() {
    let wasm_binary: [u8; 37] = [0, 97, 115, 109, 1, 0, 0, 0, 1, 4, 1, 96, 0, 0, 3, 2, 1, 0, 5, 3, 1, 0, 0, 10, 12, 1, 10, 0, 65, 0, 64, 128, 128, 128, 0, 26, 11];
    let compilation = compile(wasm_binary.to_vec());
    assert!(compilation.is_err(), "WASM should not compile as is malformed");
}

#[test]
fn c68_l464_assert_malformed() {
    let wasm_binary: [u8; 38] = [0, 97, 115, 109, 1, 0, 0, 0, 1, 4, 1, 96, 0, 0, 3, 2, 1, 0, 5, 3, 1, 0, 0, 10, 13, 1, 11, 0, 65, 0, 64, 128, 128, 128, 128, 0, 26, 11];
    let compilation = compile(wasm_binary.to_vec());
    assert!(compilation.is_err(), "WASM should not compile as is malformed");
}

#[test]
fn c69_l484_assert_malformed() {
    let wasm_binary: [u8; 32] = [0, 97, 115, 109, 1, 0, 0, 0, 1, 4, 1, 96, 0, 0, 3, 2, 1, 0, 5, 3, 1, 0, 0, 10, 7, 1, 5, 0, 63, 1, 26, 11];
    let compilation = compile(wasm_binary.to_vec());
    assert!(compilation.is_err(), "WASM should not compile as is malformed");
}

#[test]
fn c70_l503_assert_malformed() {
    let wasm_binary: [u8; 33] = [0, 97, 115, 109, 1, 0, 0, 0, 1, 4, 1, 96, 0, 0, 3, 2, 1, 0, 5, 3, 1, 0, 0, 10, 8, 1, 6, 0, 63, 128, 0, 26, 11];
    let compilation = compile(wasm_binary.to_vec());
    assert!(compilation.is_err(), "WASM should not compile as is malformed");
}

#[test]
fn c71_l522_assert_malformed() {
    let wasm_binary: [u8; 34] = [0, 97, 115, 109, 1, 0, 0, 0, 1, 4, 1, 96, 0, 0, 3, 2, 1, 0, 5, 3, 1, 0, 0, 10, 9, 1, 7, 0, 63, 128, 128, 0, 26, 11];
    let compilation = compile(wasm_binary.to_vec());
    assert!(compilation.is_err(), "WASM should not compile as is malformed");
}

#[test]
fn c72_l540_assert_malformed() {
    let wasm_binary: [u8; 35] = [0, 97, 115, 109, 1, 0, 0, 0, 1, 4, 1, 96, 0, 0, 3, 2, 1, 0, 5, 3, 1, 0, 0, 10, 10, 1, 8, 0, 63, 128, 128, 128, 0, 26, 11];
    let compilation = compile(wasm_binary.to_vec());
    assert!(compilation.is_err(), "WASM should not compile as is malformed");
}

#[test]
fn c73_l558_assert_malformed() {
    let wasm_binary: [u8; 36] = [0, 97, 115, 109, 1, 0, 0, 0, 1, 4, 1, 96, 0, 0, 3, 2, 1, 0, 5, 3, 1, 0, 0, 10, 11, 1, 9, 0, 63, 128, 128, 128, 128, 0, 26, 11];
    let compilation = compile(wasm_binary.to_vec());
    assert!(compilation.is_err(), "WASM should not compile as is malformed");
}

#[test]
fn c74_l577_assert_malformed() {
    let wasm_binary: [u8; 32] = [0, 97, 115, 109, 1, 0, 0, 0, 1, 4, 1, 96, 0, 0, 3, 2, 1, 0, 10, 12, 1, 10, 2, 255, 255, 255, 255, 15, 127, 2, 126, 11];
    let compilation = compile(wasm_binary.to_vec());
    assert!(compilation.is_err(), "WASM should not compile as is malformed");
}
