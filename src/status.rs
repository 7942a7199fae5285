use vstd::prelude::*;

verus! {

/// The status code that the kernel returns on success.
pub const KERN_SUCCESS: i32 = 0;

/// What a native status code means to a caller: success on zero, the code itself otherwise.
pub open spec fn status_result(code: i32) -> Result<(), i32> {
    if code == KERN_SUCCESS {
        Ok(())
    } else {
        Err(code)
    }
}

/// Maps a native status code to a result: success on zero, the code itself otherwise.
pub fn check_status(code: i32) -> (r: Result<(), i32>)
    ensures
        r == status_result(code),
        r is Ok <==> code == KERN_SUCCESS,
{
    if code == KERN_SUCCESS {
        Ok(())
    } else {
        Err(code)
    }
}

/// The outcome of a registry-entry-id query: the id on success, the status code otherwise.
pub fn registry_entry_id_result(code: i32, id: u64) -> (r: Result<u64, i32>)
    ensures
        code == KERN_SUCCESS ==> r == Ok::<u64, i32>(id),
        code != KERN_SUCCESS ==> r == Err::<u64, i32>(code),
{
    match check_status(code) {
        Ok(()) => Ok(id),
        Err(e) => Err(e),
    }
}

/// A native boolean (an integer, nonzero for true) as a `bool`.
pub fn native_bool(v: u32) -> (r: bool)
    ensures
        r <==> v != 0,
{
    v != 0
}

} // verus!
