use vstd::prelude::*;

verus! {

/// `std::io::Error`, carried through the library without being looked into.
#[verifier::external_type_specification]
#[verifier::external_body]
pub struct ExIoError(std::io::Error);

/// Calls `std::io::Error::last_os_error`, which builds an error from the
/// current value of the platform's `errno`. Nothing is stated of the result:
/// it depends on the state of the calling thread.
#[verifier::external_body]
fn last_os_error() -> std::io::Error {
    std::io::Error::last_os_error()
}

/// Turns the return value of a C system call into a `Result`: `-1` means
/// failure and is reported with the error the platform recorded, any other
/// value is handed back unchanged.
pub fn wrap_io_err(res: i32) -> (r: Result<i32, std::io::Error>)
    ensures
        r is Err <==> res == -1,
        r matches Ok(v) ==> v == res,
{
    match res {
        -1 => Err(last_os_error()),
        _ => Ok(res),
    }
}

} // verus!
