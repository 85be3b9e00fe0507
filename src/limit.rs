use vstd::prelude::*;

use crate::error::Error;

verus! {

/// A core-file size limit: the soft limit in force and the hard ceiling
/// that an unprivileged process may raise it to.
#[derive(Debug, Clone, Copy, PartialEq, Eq, Structural)]
pub struct CoreLimit {
    pub soft: u64,
    pub hard: u64,
}

/// The limit with its soft value raised to the hard ceiling.
pub open spec fn raised(l: CoreLimit) -> CoreLimit {
    CoreLimit { soft: l.hard, hard: l.hard }
}

/// What reading the limit leads to: the limit to write, or the failure.
pub open spec fn limit_plan(read: Result<CoreLimit, i32>) -> Result<CoreLimit, Error> {
    match read {
        Err(code) => Err(Error::ResourceQuery(code)),
        Ok(l) => if l.hard == 0 {
            Err(Error::LimitUnavailable)
        } else {
            Ok(raised(l))
        },
    }
}

/// Turns the return value of an operating-system call into an outcome:
/// the call failed when it returned its documented error value, and then
/// `code` is the error number it left behind.
pub fn check(result: i32, error: i32, code: i32) -> (r: Result<(), i32>)
    ensures
        r == (if result == error { Err::<(), i32>(code) } else { Ok(()) }),
{
    if result == error {
        Err(code)
    } else {
        Ok(())
    }
}

/// Decides, from the outcome of reading the core-file size limit, the limit
/// to write back: the soft limit raised to the hard one. A failed read and a
/// zero hard limit (core dumps disabled outright) are errors.
pub fn raised_core_limit(read: Result<CoreLimit, i32>) -> (r: Result<CoreLimit, Error>)
    ensures
        r == limit_plan(read),
{
    match read {
        Err(code) => Err(Error::ResourceQuery(code)),
        Ok(l) => {
            if l.hard == 0 {
                Err(Error::LimitUnavailable)
            } else {
                Ok(CoreLimit { soft: l.hard, hard: l.hard })
            }
        },
    }
}

/// Maps the outcome of writing the raised limit to this library's error.
pub fn limit_applied(write: Result<(), i32>) -> (r: Result<(), Error>)
    ensures
        r == (match write {
            Ok(()) => Ok::<(), Error>(()),
            Err(code) => Err(Error::ResourceUpdate(code)),
        }),
{
    match write {
        Ok(()) => Ok(()),
        Err(code) => Err(Error::ResourceUpdate(code)),
    }
}

} // verus!
