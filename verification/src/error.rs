//! The failure taxonomy of the verbs layer and the rules that sort a provider
//! answer into it.
use vstd::prelude::*;

verus! {

/// Why an operation did not succeed.
#[derive(Debug, Clone, Copy, PartialEq, Eq)]
pub enum Error {
    /// The provider answered a create, open, allocate or register call with a
    /// null handle. `code` is the OS error code that was current after the
    /// call, `label` names the operation.
    Creation { code: i32, label: &'static str },
    /// The provider answered an operation on an existing resource with a
    /// nonzero status.
    Operation { code: i32 },
    /// The provider refused a posted chain of work requests. `first_bad` is
    /// the position in the chain of the first request it refused, when it
    /// named one.
    Post { code: i32, first_bad: Option<usize> },
    /// A failure that carries no OS error code.
    Custom { label: &'static str },
    /// The handle or token names no live resource of the expected kind.
    Released,
    /// The table has no room left, or an owner count cannot grow further.
    Exhausted,
}

impl Error {
    /// The OS error code that the failure carries, if it carries one.
    pub open spec fn spec_code(self) -> Option<i32> {
        match self {
            Error::Creation { code, .. } => Some(code),
            Error::Operation { code } => Some(code),
            Error::Post { code, .. } => Some(code),
            _ => None,
        }
    }

    /// The OS error code that the failure carries, if it carries one.
    pub fn code(&self) -> (r: Option<i32>)
        ensures
            r == self.spec_code(),
    {
        match self {
            Error::Creation { code, .. } => Some(*code),
            Error::Operation { code } => Some(*code),
            Error::Post { code, .. } => Some(*code),
            _ => None,
        }
    }

    /// The operation label that the failure carries, if it carries one.
    pub fn label(&self) -> (r: Option<&'static str>)
        ensures
            match *self {
                Error::Creation { label, .. } => r == Some(label),
                Error::Custom { label } => r == Some(label),
                _ => r is None,
            },
    {
        match self {
            Error::Creation { label, .. } => Some(*label),
            Error::Custom { label } => Some(*label),
            _ => None,
        }
    }
}

/// The magnitude of a provider status, as an OS error code. The one status
/// whose magnitude does not fit maps to itself.
pub open spec fn status_magnitude(ret: i32) -> i32 {
    if ret == i32::MIN {
        i32::MIN
    } else if ret < 0 {
        (-ret) as i32
    } else {
        ret
    }
}

/// What a failed post reports: the OS error code if one is set, otherwise the
/// magnitude of the provider status.
pub open spec fn post_code(ret: i32, errno: i32) -> i32 {
    if errno != 0 {
        errno
    } else {
        status_magnitude(ret)
    }
}

/// Turns the answer to a creation call into an owned provider handle or a
/// creation failure: a null handle fails with the OS error code and the label,
/// any other handle is returned as it is.
pub fn create_resource(raw: usize, errno: i32, label: &'static str) -> (r: Result<usize, Error>)
    ensures
        raw != 0 ==> r == Ok::<usize, Error>(raw),
        raw == 0 ==> r == Err::<usize, Error>(Error::Creation { code: errno, label }),
{
    if raw == 0 {
        Err(Error::Creation { code: errno, label })
    } else {
        Ok(raw)
    }
}

/// The operation failure that carries the OS error code `code`.
pub fn from_errno(code: i32) -> (e: Error)
    ensures
        e == (Error::Operation { code }),
{
    Error::Operation { code }
}

/// The failure that carries only the label `label`.
pub fn custom_error(label: &'static str) -> (e: Error)
    ensures
        e == (Error::Custom { label }),
{
    Error::Custom { label }
}

/// The operation failure for the OS error code that was current after a call.
pub fn last_error(errno: i32) -> (e: Error)
    ensures
        e == (Error::Operation { code: errno }),
{
    from_errno(errno)
}

/// Sorts the status of a modify, query or notify call: zero is success, any
/// other status is the OS error code of an operation failure.
pub fn check_status(ret: i32) -> (r: Result<(), Error>)
    ensures
        ret == 0 ==> r == Ok::<(), Error>(()),
        ret != 0 ==> r == Err::<(), Error>(Error::Operation { code: ret }),
{
    if ret != 0 {
        return Err(from_errno(ret));
    }
    Ok(())
}

/// Sorts the answer to a post of a chain of work requests. Zero is success.
/// Otherwise the failure carries the OS error code `errno` if it is set, else
/// the magnitude of `ret`, and with it the position `first_bad` of the first
/// request that the provider refused, where it named one.
pub fn post_status(ret: i32, errno: i32, first_bad: Option<usize>) -> (r: Result<(), Error>)
    ensures
        ret == 0 ==> r == Ok::<(), Error>(()),
        ret != 0 ==> r == Err::<(), Error>(Error::Post { code: post_code(ret, errno), first_bad }),
{
    if ret == 0 {
        return Ok(());
    }
    let code: i32 = if errno != 0 {
        errno
    } else if ret == i32::MIN {
        i32::MIN
    } else if ret < 0 {
        -ret
    } else {
        ret
    };
    Err(Error::Post { code, first_bad })
}

} // verus!
