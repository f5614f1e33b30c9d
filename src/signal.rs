//! The change signal: the well-known event that tells view bindings that the
//! stored value may have changed, and where it is delivered.
use vstd::prelude::*;

verus! {

/// The event number of the change signal, as the host toolkit sees it.
pub const STATE_CHANGED: i32 = 100;

/// Where a change signal is delivered.
#[derive(Clone, Copy, Debug, PartialEq, Eq, Structural)]
pub enum Scope {
    /// The host's main window.
    Main,
    /// One window of the host, by the handle that the host gave it.
    Window(u64),
}

/// A request that the library hands to the host toolkit.
#[derive(Clone, Copy, Debug, PartialEq, Eq, Structural)]
pub enum HostCall {
    /// Deliver the change signal to a scope.
    Dispatch(Scope),
    /// Wake the host's event loop so that it handles what was dispatched.
    Wake,
}

/// Whether an event delivered to a target is the change signal.
pub fn is_change_signal(ev: i32) -> (r: bool)
    ensures
        r == (ev == STATE_CHANGED),
{
    ev == STATE_CHANGED
}

/// What the host is asked to do to raise the change signal from outside an
/// action binding: deliver it to the main window, then wake the event loop.
pub fn notify() -> (calls: Vec<HostCall>)
    ensures
        calls@ == seq![HostCall::Dispatch(Scope::Main), HostCall::Wake],
{
    let mut calls: Vec<HostCall> = Vec::new();
    calls.push(HostCall::Dispatch(Scope::Main));
    calls.push(HostCall::Wake);
    calls
}

/// What the host is asked to do to raise the change signal in one window:
/// deliver it there, then wake the event loop.
pub fn notify_win(win: u64) -> (calls: Vec<HostCall>)
    ensures
        calls@ == seq![HostCall::Dispatch(Scope::Window(win)), HostCall::Wake],
{
    let mut calls: Vec<HostCall> = Vec::new();
    calls.push(HostCall::Dispatch(Scope::Window(win)));
    calls.push(HostCall::Wake);
    calls
}

} // verus!
