use vstd::prelude::*;

verus! {

/// The failures this library reports. An `i32` field is the operating
/// system's error number as it stood right after the failing call.
#[derive(Debug, Clone, Copy, PartialEq, Eq, Structural)]
pub enum Error {
    /// Reading the core-file size limit failed.
    ResourceQuery(i32),
    /// The hard core-file size limit is zero: core dumps are disabled.
    LimitUnavailable,
    /// Writing the core-file size limit failed.
    ResourceUpdate(i32),
    /// The process identifier does not fit the type that signal delivery takes.
    IntegerConversion(u32),
    /// The current working directory could not be read.
    DirectoryQuery(i32),
    /// Changing into the scratch directory failed.
    DirectoryChange(i32),
    /// Sending the dump signal to the process itself failed.
    SignalDelivery(i32),
}

} // verus!
