//! Access to the stored value from code that is not a binding: mutate it and
//! raise the change signal, or read it.
use vstd::prelude::*;

use crate::signal::{HostCall, Scope};
use crate::store::{signal_calls, Store};

verus! {

/// Applies `f` to the installed value and raises the change signal in `scope`.
fn mutate_and_signal<V, F: Fn(V) -> V>(store: &mut Store<V>, f: &F, scope: Scope) -> (calls: Vec<
    HostCall,
>)
    requires
        old(store).wf(),
        old(store).value() is Some,
        old(store).lock().holder is None,
        call_requires(*f, (old(store).value()->0,)),
    ensures
        final(store).wf(),
        final(store).value() matches Some(w) && call_ensures(*f, (old(store).value()->0,), w),
        final(store).history() == old(store).history().push(final(store).value()->0),
        final(store).steps().drop_last() == old(store).steps(),
        final(store).steps().len() == old(store).steps().len() + 1,
        final(store).lock() == old(store).lock(),
        final(store).discipline_spec() == old(store).discipline_spec(),
        calls@ == signal_calls(old(store).discipline_spec(), scope),
{
    let ghost v = old(store).value()->0;
    let step = |v: V, _s: &()| -> (w: V)
        requires
            call_requires(f, (v,)),
        ensures
            call_ensures(f, (v,), w),
        { f(v) };
    let calls = store.fire_action(&step, &(), scope);
    proof {
        let w = store.value()->0;
        assert(call_ensures(step, (v, &()), w));
    }
    calls
}

/// Applies `f` to the installed value, then raises the change signal in the
/// main window through the calls returned.
pub fn with_state_mut<V, F: Fn(V) -> V>(store: &mut Store<V>, f: &F) -> (calls: Vec<HostCall>)
    requires
        old(store).wf(),
        old(store).value() is Some,
        old(store).lock().holder is None,
        call_requires(*f, (old(store).value()->0,)),
    ensures
        final(store).wf(),
        final(store).value() matches Some(w) && call_ensures(*f, (old(store).value()->0,), w),
        final(store).history() == old(store).history().push(final(store).value()->0),
        final(store).steps().drop_last() == old(store).steps(),
        final(store).steps().len() == old(store).steps().len() + 1,
        final(store).lock() == old(store).lock(),
        final(store).discipline_spec() == old(store).discipline_spec(),
        calls@ == signal_calls(old(store).discipline_spec(), Scope::Main),
{
    mutate_and_signal(store, f, Scope::Main)
}

/// Applies `f` to the installed value, then raises the change signal in the
/// window `win` through the calls returned.
pub fn with_state_mut_on<V, F: Fn(V) -> V>(store: &mut Store<V>, win: u64, f: &F) -> (calls: Vec<
    HostCall,
>)
    requires
        old(store).wf(),
        old(store).value() is Some,
        old(store).lock().holder is None,
        call_requires(*f, (old(store).value()->0,)),
    ensures
        final(store).wf(),
        final(store).value() matches Some(w) && call_ensures(*f, (old(store).value()->0,), w),
        final(store).history() == old(store).history().push(final(store).value()->0),
        final(store).steps().drop_last() == old(store).steps(),
        final(store).steps().len() == old(store).steps().len() + 1,
        final(store).lock() == old(store).lock(),
        final(store).discipline_spec() == old(store).discipline_spec(),
        calls@ == signal_calls(old(store).discipline_spec(), Scope::Window(win)),
{
    mutate_and_signal(store, f, Scope::Window(win))
}

/// Hands the installed value to `f` to read, and returns what `f` returns.
pub fn with_state<V, R, F: Fn(&V) -> R>(store: &Store<V>, f: &F) -> (r: R)
    requires
        store.wf(),
        store.value() is Some,
        store.lock().holder is None,
        call_requires(*f, (&store.value()->0,)),
    ensures
        call_ensures(*f, (&store.value()->0,), r),
{
    f(store.read())
}

/// For `task`, which holds access: applies `f` to the installed value, passes
/// access to the task returned first, then raises the change signal in the
/// main window through the calls returned second.
pub fn use_state_mut<V, F: Fn(V) -> V>(store: &mut Store<V>, task: u64, f: &F) -> (r: (
    Option<u64>,
    Vec<HostCall>,
))
    requires
        old(store).wf(),
        old(store).lock().holder == Some(task),
        call_requires(*f, (old(store).value()->0,)),
    ensures
        final(store).wf(),
        final(store).value() matches Some(w) && call_ensures(*f, (old(store).value()->0,), w),
        final(store).history() == old(store).history().push(final(store).value()->0),
        final(store).steps().drop_last() == old(store).steps(),
        final(store).steps().len() == old(store).steps().len() + 1,
        final(store).lock() == old(store).lock().released(),
        final(store).discipline_spec() == old(store).discipline_spec(),
        r.0 == final(store).lock().holder,
        r.1@ == signal_calls(old(store).discipline_spec(), Scope::Main),
{
    let ghost v = old(store).value()->0;
    let step = |v: V, _s: &()| -> (w: V)
        requires
            call_requires(f, (v,)),
        ensures
            call_ensures(f, (v,), w),
        { f(v) };
    let r = store.fire_granted(task, &step, &(), Scope::Main);
    proof {
        let w = store.value()->0;
        assert(call_ensures(step, (v, &()), w));
    }
    r
}

/// For `task`, which holds access: hands the installed value to `f` to read,
/// then passes access on. Returns what `f` returns and the task that gets
/// access next.
pub fn use_state<V, R, F: Fn(&V) -> R>(store: &mut Store<V>, task: u64, f: &F) -> (r: (
    R,
    Option<u64>,
))
    requires
        old(store).wf(),
        old(store).lock().holder == Some(task),
        call_requires(*f, (&old(store).value()->0,)),
    ensures
        call_ensures(*f, (&old(store).value()->0,), r.0),
        final(store).wf(),
        final(store).lock() == old(store).lock().released(),
        r.1 == final(store).lock().holder,
        final(store).value() == old(store).value(),
        final(store).history() == old(store).history(),
        final(store).steps() == old(store).steps(),
        final(store).discipline_spec() == old(store).discipline_spec(),
{
    let out = f(store.read_granted(task));
    let next = store.release_access(task);
    (out, next)
}

} // verus!
