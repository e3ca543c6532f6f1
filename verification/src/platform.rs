//! Running work on the thread that the platform reserves for its views.

use vstd::prelude::*;
use crate::error::WebViewError;

verus! {

/// Runs `f` on the thread reserved for views. Here the platform reserves
/// none, so `f` runs at once on the calling thread.
pub fn run_on_main_thread<F, R>(f: F) -> (result: Result<R, WebViewError>) where
    F: FnOnce() -> Result<R, WebViewError>,

    requires
        f.requires(()),
    ensures
        f.ensures((), result),
{
    f()
}

} // verus!
