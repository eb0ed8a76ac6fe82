//! The asynchronous runtime that the exporters' transport runs on.
//!
//! The library starts no runtime of its own. It asks for the one that is running
//! on the calling thread, and builds no exporter without it.

use vstd::prelude::*;
use tokio::runtime::Handle;

verus! {

/// A handle to a running runtime.
#[verifier::external_type_specification]
#[verifier::external_body]
pub struct ExHandle(Handle);

/// `Handle::try_current()`: the runtime that is running on the calling thread,
/// if there is one. It never panics. Which it is depends on where the call is
/// made, so nothing is promised of the result.
#[verifier::external_body]
pub(crate) fn current_runtime() -> Option<Handle> {
    Handle::try_current().ok()
}

} // verus!
