use vstd::prelude::*;

verus! {

/// The status code that the native library returns on success.
pub const STATUS_OK: i32 = 0;

/// A failed native call, carrying the status code that the library reported.
#[derive(Clone, Copy, Debug, PartialEq, Eq, Structural)]
pub struct XCamError {
    pub code: i32,
}

/// The outcome of an operation on the ISP.
pub type XCamResult<T> = Result<T, XCamError>;

/// What a native call that reported `status` and left `out` in its out
/// parameter amounts to: the value on success, the wrapped status otherwise.
pub open spec fn outcome<T>(status: i32, out: T) -> XCamResult<T> {
    if status == STATUS_OK {
        Ok(out)
    } else {
        Err(XCamError { code: status })
    }
}

impl XCamError {
    /// Translates a native status code: success is `Ok(())`, any other code
    /// is an error carrying that code.
    pub fn check(status: i32) -> (r: XCamResult<()>)
        ensures
            r == outcome(status, ()),
    {
        if status == STATUS_OK {
            Ok(())
        } else {
            Err(XCamError { code: status })
        }
    }

    /// Translates a native status code together with the value that the call
    /// wrote to its out parameter: the value is handed back untouched on
    /// success and dropped on failure.
    pub fn check_with<T>(status: i32, out: T) -> (r: XCamResult<T>)
        ensures
            r == outcome(status, out),
    {
        if status == STATUS_OK {
            Ok(out)
        } else {
            Err(XCamError { code: status })
        }
    }

    /// The native status code carried by this error.
    pub fn code(&self) -> (r: i32)
        ensures
            r == self.code,
    {
        self.code
    }
}

/// A native status translates to success exactly when it is the success
/// code; the value of the out parameter is then handed back untouched, and
/// every other status becomes an error that carries it, with no value.
pub proof fn lemma_status_translation<T>(status: i32, out: T)
    ensures
        outcome(status, out) is Ok <==> status == STATUS_OK,
        status == STATUS_OK ==> outcome(status, out) == Ok::<T, XCamError>(out),
        status != STATUS_OK ==> outcome(status, out) == Err::<T, XCamError>(
            XCamError { code: status },
        ),
{
}

} // verus!
