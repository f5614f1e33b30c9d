//! Action bindings, which mutate the stored value when their source is
//! activated, and view bindings, which render a target from it.
use vstd::prelude::*;

use crate::signal::{is_change_signal, HostCall, Scope, STATE_CHANGED};
use crate::store::{signal_calls, Store};

verus! {

/// A mutator over the stored value, and the scope that hears of its changes.
pub struct ActionBinding<F> {
    mutator: F,
    scope: Scope,
}

impl<F> ActionBinding<F> {
    pub closed spec fn mutator(&self) -> F {
        self.mutator
    }

    pub closed spec fn scope(&self) -> Scope {
        self.scope
    }

    /// Binds `mutator`; each firing raises the change signal in `scope`.
    pub fn new(mutator: F, scope: Scope) -> (b: Self)
        ensures
            b.mutator() == mutator,
            b.scope() == scope,
    {
        ActionBinding { mutator, scope }
    }

    /// Fires the binding with direct access, `source` being the widget that
    /// was activated: the value becomes what the mutator makes of it, then
    /// the calls returned raise the change signal.
    pub fn fire<V, S>(&self, store: &mut Store<V>, source: &S) -> (calls: Vec<HostCall>) where
        F: Fn(V, &S) -> V,
        requires
            old(store).wf(),
            old(store).value() is Some,
            old(store).lock().holder is None,
            call_requires(self.mutator(), (old(store).value()->0, source)),
        ensures
            final(store).wf(),
            final(store).value() matches Some(w) && call_ensures(
                self.mutator(),
                (old(store).value()->0, source),
                w,
            ),
            final(store).history() == old(store).history().push(final(store).value()->0),
            final(store).steps().drop_last() == old(store).steps(),
            final(store).steps().len() == old(store).steps().len() + 1,
            final(store).lock() == old(store).lock(),
            final(store).discipline_spec() == old(store).discipline_spec(),
            calls@ == signal_calls(old(store).discipline_spec(), self.scope()),
    {
        store.fire_action(&self.mutator, source, self.scope)
    }

    /// Fires the binding for `task`, which holds access; access then passes
    /// to the task returned first, and the calls returned second raise the
    /// change signal.
    pub fn fire_granted<V, S>(&self, store: &mut Store<V>, task: u64, source: &S) -> (r: (
        Option<u64>,
        Vec<HostCall>,
    )) where F: Fn(V, &S) -> V,
        requires
            old(store).wf(),
            old(store).lock().holder == Some(task),
            call_requires(self.mutator(), (old(store).value()->0, source)),
        ensures
            final(store).wf(),
            final(store).value() matches Some(w) && call_ensures(
                self.mutator(),
                (old(store).value()->0, source),
                w,
            ),
            final(store).history() == old(store).history().push(final(store).value()->0),
            final(store).steps().drop_last() == old(store).steps(),
            final(store).steps().len() == old(store).steps().len() + 1,
            final(store).lock() == old(store).lock().released(),
            final(store).discipline_spec() == old(store).discipline_spec(),
            r.0 == final(store).lock().holder,
            r.1@ == signal_calls(old(store).discipline_spec(), self.scope()),
    {
        store.fire_granted(task, &self.mutator, source, self.scope)
    }
}

/// A reader that renders a target from the stored value.
pub struct ViewBinding<U> {
    reader: U,
}

impl<U> ViewBinding<U> {
    pub closed spec fn reader(&self) -> U {
        self.reader
    }

    /// Binds `reader` to `target` and paints it once at once, from the value
    /// installed now. Returns the binding and the painted target.
    pub fn bind<V, W>(store: &Store<V>, reader: U, target: W) -> (r: (ViewBinding<U>, W)) where
        U: Fn(&V, W) -> W,
        requires
            store.wf(),
            store.value() is Some,
            store.lock().holder is None,
            call_requires(reader, (&store.value()->0, target)),
        ensures
            r.0.reader() == reader,
            call_ensures(reader, (&store.value()->0, target), r.1),
    {
        let shown = store.render_view(&reader, target);
        (ViewBinding { reader }, shown)
    }

    /// Handles an event delivered to the target: on the change signal the
    /// target is rendered again from the current value, any other event
    /// leaves it as it is. The event is never consumed, so the second
    /// result is always `false` and the host goes on handling it.
    pub fn handle<V, W>(&self, store: &Store<V>, ev: i32, target: W) -> (r: (W, bool)) where
        U: Fn(&V, W) -> W,
        requires
            ev == STATE_CHANGED ==> {
                &&& store.wf()
                &&& store.value() is Some
                &&& store.lock().holder is None
                &&& call_requires(self.reader(), (&store.value()->0, target))
            },
        ensures
            ev == STATE_CHANGED ==> call_ensures(self.reader(), (&store.value()->0, target), r.0),
            ev != STATE_CHANGED ==> r.0 == target,
            !r.1,
    {
        if is_change_signal(ev) {
            (store.render_view(&self.reader, target), false)
        } else {
            (target, false)
        }
    }

    /// Renders the target for `task`, which holds access, then gives access
    /// up. Returns the target as it is to be shown and the task that gets
    /// access next.
    pub fn render_granted<V, W>(&self, store: &mut Store<V>, task: u64, target: W) -> (r: (
        W,
        Option<u64>,
    )) where U: Fn(&V, W) -> W,
        requires
            old(store).wf(),
            old(store).lock().holder == Some(task),
            call_requires(self.reader(), (&old(store).value()->0, target)),
        ensures
            call_ensures(self.reader(), (&old(store).value()->0, target), r.0),
            final(store).wf(),
            final(store).lock() == old(store).lock().released(),
            r.1 == final(store).lock().holder,
            final(store).value() == old(store).value(),
            final(store).history() == old(store).history(),
            final(store).steps() == old(store).steps(),
            final(store).discipline_spec() == old(store).discipline_spec(),
    {
        store.render_granted(task, &self.reader, target)
    }
}

} // verus!
