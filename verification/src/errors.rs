use vstd::prelude::*;

verus! {

/// Why a bridge operation failed.
///
/// Every failure caused by guest-supplied data is caught at the bridge
/// boundary and flattened to a negative status code before it reaches the
/// guest; the variant itself is kept for host-side diagnostics only.
#[derive(Clone, Copy, Debug, PartialEq, Eq, Structural)]
pub enum BridgeError {
    /// A guest pointer/length pair reaches past the end of guest memory.
    OutOfBounds,
    /// The guest module lacks a required export (memory or call table).
    MissingExport,
    /// Bytes that were expected to be text are not valid UTF-8.
    InvalidEncoding,
    /// An object handle is unknown or already closed.
    InvalidHandle,
    /// A named program or map does not exist in the object.
    NotFound,
    /// The kernel rejected an attachment.
    AttachFailure,
    /// The kernel rejected a load, verification or map operation.
    KernelOperationFailure,
}

} // verus!
