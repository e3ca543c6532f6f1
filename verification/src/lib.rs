//! Bookkeeping for embedded web views: the navigation history and message
//! queue of each view, and a registry that ties every native handle to the
//! thread that created it.

pub mod error;
pub mod history;
pub mod state;
pub mod registry;
pub mod platform;
