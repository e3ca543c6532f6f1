//! Errors reported by the registry and by the host around it.

use vstd::prelude::*;

verus! {

/// What can go wrong when a view is looked up or touched.
#[derive(Debug, PartialEq, Eq)]
pub enum WebViewError {
    /// No live view is registered under this identifier.
    WebViewNotFound(u64),
    /// The view with this identifier belongs to another thread than the caller's.
    WrongThread(u64),
    /// A lock guarding shared state was found poisoned; the text says which.
    Internal(String),
}

} // verus!
