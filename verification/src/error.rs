//! The errors of trace processing.

use vstd::prelude::*;

verus! {

/// Errors of trace processing. Errors that come from reading the input, from the ingest
/// client or from authentication belong to the program around the library.
#[derive(Debug, Clone, PartialEq, Eq)]
pub enum Error {
    /// The startup task object properties are missing
    MissingStartupTaskProperties,
    /// No task properties for the object handle
    TaskPropertiesLookup(u32),
    /// No ISR properties for the object handle
    IsrPropertiesLookup(u32),
    /// The kernel port (by its name) is not supported
    UnsupportedKernelPortIdentity(String),
    /// No timeline for the task object handle
    TaskTimelineLookup(u32),
    /// No timeline for the ISR object handle
    IsrTimelineLookup(u32),
    /// A user event has more arguments than there are default argument keys
    ExceededMaxUserEventArgs,
    /// The custom attribute keys for a format string do not match its argument count
    FmtArgAttrKeysCountMismatch(String, Vec<String>),
    /// The Deviant custom event configuration or data is invalid
    DeviantEvent(String),
}

} // verus!
