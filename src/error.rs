use vstd::prelude::*;

verus! {

/// Every failure of the library, and the native status codes it passes through.
#[derive(Debug, Clone, PartialEq, Eq)]
pub enum Error {
    /// The native loader could not be opened; carries its message.
    LibLoading(String),
    NoDeviceAvailable,
    UnsupportedCodec,
    NoVideoQueueAvailable,
    NoComputeQueueAvailable,
    UnsupportedFormat,
    /// An operation was asked of a resource that cannot perform it, such as a
    /// host access guard on memory that is not host-visible.
    UnsupportedOperation,
    MissingExtension,
    /// No entry of the memory-type table satisfies both the allowed-type bitmask
    /// and the required property flags.
    NoMatchingMemoryType,
    /// A failing status code returned by a native call, passed through unchanged.
    Other(i32),
}

pub type Result<T> = core::result::Result<T, Error>;

} // verus!
