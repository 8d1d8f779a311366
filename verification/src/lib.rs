//! Thread-bound capabilities.
//!
//! A value handed to a registry stays with the thread that owns the registry.
//! What the caller gets back is a capability: a small handle that may travel
//! to any thread, but opens the value only on the owning thread and only while
//! the registry has not begun its teardown.
//!
//! The crate holds the sequential core: the rules that decide who may touch a
//! value, and the bookkeeping that keeps every bound value reachable until it
//! is consumed, destroyed, or swept at teardown. A thread's identity and its
//! registry are explicit values here; whoever embeds the crate keeps them in
//! thread-local storage and passes them in.

pub mod capability;
pub mod identity;
pub mod lifecycle;
pub mod registry;
pub mod uv;

pub use identity::{current_thread_id, NonceSource, ThreadId, ThreadNonce};
pub use registry::{NodeId, TBList};
pub use capability::{access_guard, thread_guard, AccessFault, Disposal, ThreadBound};
pub use uv::{
    uv_dirent_type_t, uv_fs_event, uv_fs_event_flags, uv_fs_type, uv_handle_type, uv_loop_option,
    uv_membership, uv_poll_event, uv_process_flags, uv_req_type, uv_run_mode, uv_stdio_flags,
    uv_tty_mode_t, uv_udp_flags,
};
