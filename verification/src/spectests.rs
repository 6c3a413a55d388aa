use vstd::prelude::*;
use crate::webassembly::ResultObject;
use crate::instance::{RuntimeError, spec_start};

verus! {

/// Starts the instance of the binary-format module 1: runs its start
/// function, if it has one.
pub fn start_module_1(result_object: &ResultObject) -> (r: Result<(), RuntimeError>)
    ensures
        r == spec_start(result_object.instance@),
{
    result_object.instance.start()
}

/// Starts the instance of the binary-format module 2: runs its start
/// function, if it has one.
pub fn start_module_2(result_object: &ResultObject) -> (r: Result<(), RuntimeError>)
    ensures
        r == spec_start(result_object.instance@),
{
    result_object.instance.start()
}

/// Starts the instance of the binary-format module 3: runs its start
/// function, if it has one.
pub fn start_module_3(result_object: &ResultObject) -> (r: Result<(), RuntimeError>)
    ensures
        r == spec_start(result_object.instance@),
{
    result_object.instance.start()
}

/// Starts the instance of the binary-format module 4: runs its start
/// function, if it has one.
pub fn start_module_4(result_object: &ResultObject) -> (r: Result<(), RuntimeError>)
    ensures
        r == spec_start(result_object.instance@),
{
    result_object.instance.start()
}

/// Starts the instance of the binary-format module 5: runs its start
/// function, if it has one.
pub fn start_module_5(result_object: &ResultObject) -> (r: Result<(), RuntimeError>)
    ensures
        r == spec_start(result_object.instance@),
{
    result_object.instance.start()
}

/// Starts the instance of the binary-format module 6: runs its start
/// function, if it has one.
pub fn start_module_6(result_object: &ResultObject) -> (r: Result<(), RuntimeError>)
    ensures
        r == spec_start(result_object.instance@),
{
    result_object.instance.start()
}

/// Starts the instance of the binary-format module 7: runs its start
/// function, if it has one.
pub fn start_module_7(result_object: &ResultObject) -> (r: Result<(), RuntimeError>)
    ensures
        r == spec_start(result_object.instance@),
{
    result_object.instance.start()
}

/// Starts the instance of the binary-format module 8: runs its start
/// function, if it has one.
pub fn start_module_8(result_object: &ResultObject) -> (r: Result<(), RuntimeError>)
    ensures
        r == spec_start(result_object.instance@),
{
    result_object.instance.start()
}

/// Starts the instance of the binary-format module 9: runs its start
/// function, if it has one.
pub fn start_module_9(result_object: &ResultObject) -> (r: Result<(), RuntimeError>)
    ensures
        r == spec_start(result_object.instance@),
{
    result_object.instance.start()
}

/// Starts the instance of the binary-format module 10: runs its start
/// function, if it has one.
pub fn start_module_10(result_object: &ResultObject) -> (r: Result<(), RuntimeError>)
    ensures
        r == spec_start(result_object.instance@),
{
    result_object.instance.start()
}

/// Starts the instance of the binary-format module 11: runs its start
/// function, if it has one.
pub fn start_module_11(result_object: &ResultObject) -> (r: Result<(), RuntimeError>)
    ensures
        r == spec_start(result_object.instance@),
{
    result_object.instance.start()
}

/// Starts the instance of the binary-format module 12: runs its start
/// function, if it has one.
pub fn start_module_12(result_object: &ResultObject) -> (r: Result<(), RuntimeError>)
    ensures
        r == spec_start(result_object.instance@),
{
    result_object.instance.start()
}

/// Starts the instance of the binary-format module 13: runs its start
/// function, if it has one.
pub fn start_module_13(result_object: &ResultObject) -> (r: Result<(), RuntimeError>)
    ensures
        r == spec_start(result_object.instance@),
{
    result_object.instance.start()
}

/// Starts the instance of the binary-format module 14: runs its start
/// function, if it has one.
pub fn start_module_14(result_object: &ResultObject) -> (r: Result<(), RuntimeError>)
    ensures
        r == spec_start(result_object.instance@),
{
    result_object.instance.start()
}

/// Starts the instance of the binary-format module 15: runs its start
/// function, if it has one.
pub fn start_module_15(result_object: &ResultObject) -> (r: Result<(), RuntimeError>)
    ensures
        r == spec_start(result_object.instance@),
{
    result_object.instance.start()
}

/// Starts the instance of the binary-format module 16: runs its start
/// function, if it has one.
pub fn start_module_16(result_object: &ResultObject) -> (r: Result<(), RuntimeError>)
    ensures
        r == spec_start(result_object.instance@),
{
    result_object.instance.start()
}

} // verus!
