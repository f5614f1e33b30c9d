//! A typed state store for widget toolkits, with action bindings that mutate
//! the stored value, view bindings that re-render from it, and the
//! change signal that connects the two.
//!
//! The store itself never touches the toolkit: each operation that raises the
//! change signal returns the calls (`HostCall`) that the host is to make.
use vstd::prelude::*;

pub mod access;
pub mod binding;
pub mod cell;
pub mod lock;
pub mod laws;
pub mod signal;
pub mod store;

pub use access::{use_state, use_state_mut, with_state, with_state_mut, with_state_mut_on};
pub use binding::{ActionBinding, ViewBinding};
pub use cell::{AccessError, TypedCell};
pub use lock::AccessLock;
pub use signal::{is_change_signal, notify, notify_win, HostCall, Scope, STATE_CHANGED};
pub use store::{Discipline, Store};

verus! {

} // verus!
